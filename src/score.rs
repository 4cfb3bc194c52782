use std::sync::atomic::{AtomicU64, Ordering};
use std::sync::Arc;
use vstd::prelude::*;

use crate::config::ServerConfig;

verus! {

/// Score given to a server whose last probe failed or timed out.
pub const WORST_SCORE: u64 = 0xffff_ffff_ffff_ffff;

/// One candidate server together with its health score (lower is better).
///
/// The score is shared between the prober, which writes it, and the
/// selection, which reads it; both go through a single atomic word, so a
/// reader sees some value that was stored, never a torn one. What value that
/// is depends on how the tasks interleave, so the contracts below say nothing
/// of it: selection works on a snapshot taken with `score`.
pub struct ServerScore {
    svr_cfg: ServerConfig,
    score: AtomicU64,
}

impl ServerScore {
    pub closed spec fn config_spec(&self) -> ServerConfig {
        self.svr_cfg
    }

    /// A shared score holder for `config`, starting at score zero.
    pub fn new(config: &ServerConfig) -> (r: Arc<ServerScore>)
        ensures
            r.config_spec().same_as(config),
    {
        let s = ServerScore { svr_cfg: config.duplicate(), score: AtomicU64::new(0) };
        Arc::new(s)
    }

    pub fn server_config(&self) -> (r: &ServerConfig)
        ensures
            *r == self.config_spec(),
    {
        &self.svr_cfg
    }

    /// The most recently stored score (acquire load).
    pub fn score(&self) -> u64 {
        self.score.load(Ordering::Acquire)
    }

    /// Publishes a new score (release store).
    pub fn set_score(&self, score: u64) {
        self.score.store(score, Ordering::Release);
    }
}

} // verus!
