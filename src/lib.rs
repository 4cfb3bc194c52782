//! Client-side TCP tunnel: a health-scored choice among upstream proxy
//! servers, and the per-connection session logic that relays bytes through
//! the chosen one.

pub mod config;
pub mod score;
pub mod balancer;
pub mod probe;
pub mod session;
