use vstd::prelude::*;

use crate::score::WORST_SCORE;

verus! {

/// What one probe of one server came to.
#[derive(Clone, Copy, Debug, PartialEq, Eq, Structural)]
pub enum ProbeOutcome {
    /// The server answered after this many milliseconds.
    Reached(u64),
    /// The probe ended with an error.
    Failed,
    /// The probe did not finish within its timeout.
    TimedOut,
}

/// The score a probe outcome is worth: the latency of a server that answered,
/// kept below the sentinel so that it always ranks ahead of an unreachable
/// one; the sentinel for a failed or timed-out probe.
pub open spec fn probe_score_spec(o: ProbeOutcome) -> u64 {
    match o {
        ProbeOutcome::Reached(ms) => if ms < WORST_SCORE {
            ms
        } else {
            (WORST_SCORE - 1) as u64
        },
        ProbeOutcome::Failed => WORST_SCORE,
        ProbeOutcome::TimedOut => WORST_SCORE,
    }
}

pub fn probe_score(o: ProbeOutcome) -> (r: u64)
    ensures
        r == probe_score_spec(o),
        o is Reached ==> r < WORST_SCORE,
{
    match o {
        ProbeOutcome::Reached(ms) => if ms < WORST_SCORE {
            ms
        } else {
            WORST_SCORE - 1
        },
        ProbeOutcome::Failed => WORST_SCORE,
        ProbeOutcome::TimedOut => WORST_SCORE,
    }
}

/// The scores of one probe round, one per server in configuration order.
pub fn round_scores(outcomes: &Vec<ProbeOutcome>) -> (r: Vec<u64>)
    ensures
        r@.len() == outcomes@.len(),
        forall|i: int| 0 <= i < outcomes@.len() ==> r@[i] == probe_score_spec(#[trigger] outcomes@[i]),
{
    let mut scores: Vec<u64> = Vec::new();
    let mut i: usize = 0;
    while i < outcomes.len()
        invariant
            i <= outcomes@.len(),
            scores@.len() == i,
            forall|j: int| 0 <= j < i ==> scores@[j] == probe_score_spec(#[trigger] outcomes@[j]),
        decreases outcomes@.len() - i,
    {
        scores.push(probe_score(outcomes[i]));
        i = i + 1;
    }
    scores
}

} // verus!
