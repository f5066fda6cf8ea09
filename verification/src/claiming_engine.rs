//! The claim race engine.
//!
//! Claiming a locked balance is raced by many workers at once under an
//! aggressive backoff policy. This engine validates the two seed
//! phrases — the wallet's and the sponsor's — before any worker exists,
//! and builds the race those workers run.

use vstd::prelude::*;
use crate::address::{mnemonic_ok, validate_seed_phrase};
use crate::errors::BotError;
use crate::race::{ActionKind, RaceState};
use crate::retry::RetryStrategy;

verus! {

/// Workers spawned for one claim race.
pub const CLAIM_CONCURRENCY: usize = 50;

/// First retry delay of a claim worker.
pub const CLAIM_INITIAL_DELAY_MS: u64 = 10;

/// Retry-delay ceiling of a claim worker.
pub const CLAIM_MAX_DELAY_MS: u64 = 100;

/// Attempt budget of each claim worker.
pub const CLAIM_MAX_ATTEMPTS: usize = 10;

/// Builds claim races: the retry policy its workers follow and how many
/// of them run.
pub struct ClaimingEngine {
    pub retry_config: RetryStrategy,
    pub concurrent_claims: usize,
}

impl ClaimingEngine {
    pub open spec fn wf(&self) -> bool {
        &&& self.retry_config.wf()
        &&& self.concurrent_claims >= 1
    }

    /// The stock engine: short exponential backoff, a ten-attempt
    /// budget, and fifty concurrent workers.
    pub fn new() -> (r: Self)
        ensures
            r.wf(),
            r.retry_config.initial_delay_ms == CLAIM_INITIAL_DELAY_MS,
            r.retry_config.max_delay_ms == CLAIM_MAX_DELAY_MS,
            r.retry_config.max_attempts == CLAIM_MAX_ATTEMPTS,
            r.concurrent_claims == CLAIM_CONCURRENCY,
    {
        ClaimingEngine {
            retry_config: RetryStrategy::exponential_backoff(
                CLAIM_INITIAL_DELAY_MS,
                CLAIM_MAX_DELAY_MS,
                CLAIM_MAX_ATTEMPTS,
            ),
            concurrent_claims: CLAIM_CONCURRENCY,
        }
    }

    /// Open a claim race with a sponsor paying the fee.
    ///
    /// Both seed phrases are validated first: a malformed one
    /// short-circuits the whole race — no worker is spawned — and
    /// surfaces as the only error this entry point ever returns. On
    /// success the caller gets the live race its workers will report
    /// into.
    pub fn start_claiming_with_sponsor(
        &self,
        wallet_seed: &str,
        sponsor_seed: &str,
        fee: u64,
        now_ms: u64,
    ) -> (r: Result<RaceState, BotError>)
        requires
            self.wf(),
        ensures
            r is Ok <==> mnemonic_ok(wallet_seed@) && mnemonic_ok(sponsor_seed@),
            r is Err ==> r->Err_0 == BotError::ValidationFailure,
            r is Ok ==> {
                &&& r->Ok_0.running()
                &&& r->Ok_0.active
                &&& !r->Ok_0.won
                &&& r->Ok_0.kind == ActionKind::Claim
                &&& r->Ok_0.policy == self.retry_config
                &&& r->Ok_0.fee == fee
                &&& r->Ok_0.started_at_ms == now_ms
                &&& r->Ok_0.workers@.len() == self.concurrent_claims
            },
    {
        if !validate_seed_phrase(wallet_seed) {
            return Err(BotError::ValidationFailure);
        }
        if !validate_seed_phrase(sponsor_seed) {
            return Err(BotError::ValidationFailure);
        }
        Ok(
            RaceState::new_race(
                ActionKind::Claim,
                self.retry_config,
                fee,
                self.concurrent_claims,
                now_ms,
            ),
        )
    }
}

} // verus!
