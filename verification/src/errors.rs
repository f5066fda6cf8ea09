//! Error taxonomy of the race-and-protect subsystem.

use vstd::prelude::*;

verus! {

/// Every failure the subsystem can report or classify.
///
/// Worker-local failures are retried and never surfaced individually;
/// a malformed input fails fast before any worker is spawned; a pool at
/// capacity refuses the lease.
#[derive(Debug, Clone, PartialEq, Eq, Structural)]
pub enum BotError {
    /// Transport-level failure of the remote call.
    NetworkFailure,
    /// The remote side rejected the request with a structured message.
    ApiFailure,
    /// The remote side throttled the caller.
    RateLimited,
    /// The ledger refused the action for lack of funds.
    InsufficientBalance,
    /// Malformed input, e.g. a bad seed phrase; no race is started.
    ValidationFailure,
    /// The connection pool is at capacity and nothing could be reclaimed.
    ResourceExhausted,
}

impl BotError {
    /// A short stable name for logs and remote responses.
    pub fn describe(&self) -> (r: &'static str)
        ensures
            r@ == self.describe_spec(),
    {
        match self {
            BotError::NetworkFailure => "network failure",
            BotError::ApiFailure => "api failure",
            BotError::RateLimited => "rate limited",
            BotError::InsufficientBalance => "insufficient balance",
            BotError::ValidationFailure => "validation failure",
            BotError::ResourceExhausted => "resource exhausted",
        }
    }

    pub open spec fn describe_spec(&self) -> Seq<char> {
        match self {
            BotError::NetworkFailure => "network failure"@,
            BotError::ApiFailure => "api failure"@,
            BotError::RateLimited => "rate limited"@,
            BotError::InsufficientBalance => "insufficient balance"@,
            BotError::ValidationFailure => "validation failure"@,
            BotError::ResourceExhausted => "resource exhausted"@,
        }
    }
}

} // verus!
