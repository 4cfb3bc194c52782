use std::sync::Arc;
use vstd::prelude::*;

use crate::config::ServerConfig;
use crate::score::{ServerScore, WORST_SCORE};

verus! {

/// `i` is the position of the lowest score in `s`, and the first position
/// that holds it.
pub open spec fn is_first_min(s: Seq<u64>, i: int) -> bool {
    &&& 0 <= i < s.len()
    &&& forall|j: int| 0 <= j < s.len() ==> s[i] <= #[trigger] s[j]
    &&& forall|j: int| 0 <= j < i ==> s[i] < #[trigger] s[j]
}

/// No two positions of `s` hold the same score.
pub open spec fn all_distinct(s: Seq<u64>) -> bool {
    forall|a: int, b: int| 0 <= a < s.len() && 0 <= b < s.len() && a != b ==> s[a] != s[b]
}

/// The position of the lowest score in `scores`, the first one among equals.
pub fn pick_best(scores: &Vec<u64>) -> (r: usize)
    requires
        scores@.len() > 0,
    ensures
        is_first_min(scores@, r as int),
{
    let mut best: usize = 0;
    let mut i: usize = 1;
    while i < scores.len()
        invariant
            1 <= i <= scores@.len(),
            best < i,
            forall|j: int| 0 <= j < i ==> scores@[best as int] <= #[trigger] scores@[j],
            forall|j: int| 0 <= j < best ==> scores@[best as int] < #[trigger] scores@[j],
        decreases scores@.len() - i,
    {
        if scores[i] < scores[best] {
            best = i;
        }
        i = i + 1;
    }
    best
}

/// Selection is deterministic: at most one position is the first lowest, so
/// repeated selections over unchanged scores agree.
pub proof fn lemma_selection_deterministic(s: Seq<u64>, i: int, j: int)
    requires
        is_first_min(s, i),
        is_first_min(s, j),
    ensures
        i == j,
{
    if i < j {
        assert(s[j] < s[i]);
    } else if j < i {
        assert(s[i] < s[j]);
    }
}

/// With distinct scores, the selected position holds a score strictly below
/// every other one.
pub proof fn lemma_distinct_scores_pick_minimum(s: Seq<u64>, i: int)
    requires
        all_distinct(s),
        is_first_min(s, i),
    ensures
        forall|j: int| 0 <= j < s.len() && j != i ==> s[i] < #[trigger] s[j],
{
    assert forall|j: int| 0 <= j < s.len() && j != i implies s[i] < #[trigger] s[j] by {
        assert(s[i] <= s[j]);
        assert(s[i] != s[j]);
    }
}

/// Storing a score below all others makes its server the one selected next.
pub proof fn lemma_new_minimum_selected(s: Seq<u64>, k: int, v: u64)
    requires
        0 <= k < s.len(),
        forall|j: int| 0 <= j < s.len() && j != k ==> v < #[trigger] s[j],
    ensures
        is_first_min(s.update(k, v), k),
{
    let t = s.update(k, v);
    assert forall|j: int| 0 <= j < t.len() implies t[k] <= #[trigger] t[j] by {
        if j != k {
            assert(t[j] == s[j]);
        }
    }
    assert forall|j: int| 0 <= j < k implies t[k] < #[trigger] t[j] by {
        assert(t[j] == s[j]);
    }
}

/// When every server is scored as unreachable, selection still yields one:
/// the first.
pub proof fn lemma_outage_still_selects(s: Seq<u64>)
    requires
        s.len() > 0,
        forall|j: int| 0 <= j < s.len() ==> #[trigger] s[j] == WORST_SCORE,
    ensures
        is_first_min(s, 0),
{
    assert forall|j: int| 0 <= j < s.len() implies s[0] <= #[trigger] s[j] by {
        assert(s[0] == WORST_SCORE);
    }
}

/// The candidate servers, in configuration order; never empty.
pub struct ServerPool {
    servers: Vec<Arc<ServerScore>>,
}

impl ServerPool {
    pub closed spec fn servers_spec(&self) -> Seq<Arc<ServerScore>> {
        self.servers@
    }

    pub open spec fn wf(&self) -> bool {
        self.servers_spec().len() > 0
    }

    /// One score holder per descriptor, in the same order; `None` when there
    /// is no descriptor.
    pub fn new(configs: &Vec<ServerConfig>) -> (r: Option<ServerPool>)
        ensures
            r is None <==> configs@.len() == 0,
            r matches Some(p) ==> {
                &&& p.wf()
                &&& p.servers_spec().len() == configs@.len()
                &&& forall|i: int|
                    0 <= i < configs@.len() ==> (#[trigger] p.servers_spec()[i]).config_spec().same_as(
                        &configs@[i],
                    )
            },
    {
        if configs.len() == 0 {
            return None;
        }
        let mut servers: Vec<Arc<ServerScore>> = Vec::new();
        let mut i: usize = 0;
        while i < configs.len()
            invariant
                i <= configs@.len(),
                servers@.len() == i,
                forall|j: int|
                    0 <= j < i ==> (#[trigger] servers@[j]).config_spec().same_as(&configs@[j]),
            decreases configs@.len() - i,
        {
            servers.push(ServerScore::new(&configs[i]));
            i = i + 1;
        }
        Some(ServerPool { servers })
    }

    pub fn len(&self) -> (r: usize)
        ensures
            r == self.servers_spec().len(),
    {
        self.servers.len()
    }

    pub fn server(&self, i: usize) -> (r: &Arc<ServerScore>)
        requires
            i < self.servers_spec().len(),
        ensures
            *r == self.servers_spec()[i as int],
    {
        &self.servers[i]
    }

    /// Reads every server's current score, in configuration order.
    pub fn snapshot(&self) -> (r: Vec<u64>)
        ensures
            r@.len() == self.servers_spec().len(),
    {
        let mut scores: Vec<u64> = Vec::new();
        let mut i: usize = 0;
        while i < self.servers.len()
            invariant
                i <= self.servers_spec().len(),
                scores@.len() == i,
            decreases self.servers_spec().len() - i,
        {
            scores.push(self.servers[i].score());
            i = i + 1;
        }
        scores
    }

    /// Publishes `scores[i]` as the score of the `i`-th server.
    pub fn store_scores(&self, scores: &Vec<u64>)
        requires
            scores@.len() == self.servers_spec().len(),
    {
        let mut i: usize = 0;
        while i < scores.len()
            invariant
                i <= scores@.len(),
                scores@.len() == self.servers_spec().len(),
            decreases scores@.len() - i,
        {
            self.servers[i].set_score(scores[i]);
            i = i + 1;
        }
    }

    /// The server that `scores`, read in configuration order, ranks best.
    pub fn pick_from(&self, scores: &Vec<u64>) -> (r: Arc<ServerScore>)
        requires
            self.wf(),
            scores@.len() == self.servers_spec().len(),
        ensures
            exists|i: int| is_first_min(scores@, i) && r == self.servers_spec()[i],
    {
        let i = pick_best(scores);
        self.servers[i].clone()
    }

    /// The server with the lowest score right now, the first one among
    /// equals. Never blocks and never fails, even when all servers are
    /// scored as unreachable.
    pub fn pick_server(&self) -> (r: Arc<ServerScore>)
        requires
            self.wf(),
        ensures
            exists|s: Seq<u64>, i: int|
                s.len() == self.servers_spec().len() && is_first_min(s, i) && r
                    == self.servers_spec()[i],
    {
        let scores = self.snapshot();
        self.pick_from(&scores)
    }
}

} // verus!
