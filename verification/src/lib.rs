//! Race-and-protect subsystem for concurrent ledger actions.
//!
//! Several workers race the same logical ledger action (claiming a locked
//! balance, or transferring funds) against an external network; the first
//! success wins and the siblings stand down. Around that race sit the
//! protective components: an adaptive fee bidder, retry/backoff policies,
//! a sliding-window flood guard, a bounded connection pool, and per-key
//! token-bucket rate limiters.
//!
//! Everything time-dependent takes the current time as an explicit
//! millisecond argument, so the whole subsystem is deterministic and its
//! behaviour is stated in contracts; the surrounding process supplies the
//! real clock, the network calls, and the task scheduling.

pub mod address;
pub mod claiming_engine;
pub mod errors;
pub mod fee_optimizer;
pub mod network_protection;
pub mod race;
pub mod rate_limiter;
pub mod retry;
pub mod shared_map;
pub mod transfer_engine;
pub mod types;
