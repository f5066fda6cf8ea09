//! The transfer race engine.
//!
//! An instant transfer is raced by many workers under an even shorter
//! backoff than claims, with a fee bid pinned above the known
//! competitor level. The engine validates the wallet's seed phrase
//! before any worker exists, fixes the fee of the request, and builds
//! the race.

use vstd::prelude::*;
use crate::address::{mnemonic_ok, validate_seed_phrase};
use crate::errors::BotError;
use crate::race::{ActionKind, RaceState};
use crate::retry::RetryStrategy;
use crate::types::TransferRequest;

verus! {

/// Workers spawned for one transfer race.
pub const TRANSFER_CONCURRENCY: usize = 25;

/// First retry delay of a transfer worker.
pub const TRANSFER_INITIAL_DELAY_MS: u64 = 5;

/// Retry-delay ceiling of a transfer worker.
pub const TRANSFER_MAX_DELAY_MS: u64 = 50;

/// Attempt budget of each transfer worker.
pub const TRANSFER_MAX_ATTEMPTS: usize = 20;

/// The fee the known competitor bids on transfers.
pub const COMPETITOR_BASE_FEE: u64 = 3_200_000;

/// Priority markup over the competitor's fee, in thousandths.
pub const PRIORITY_MULTIPLIER_MILLI: u64 = 1500;

/// Flat bonus added on top for congested ledgers.
pub const CONGESTION_BONUS: u64 = 1_000_000;

/// The fee an instant transfer bids: half again the competitor's fee,
/// plus the congestion bonus.
pub open spec fn instant_transfer_fee() -> int {
    (COMPETITOR_BASE_FEE * PRIORITY_MULTIPLIER_MILLI) / 1000 + CONGESTION_BONUS
}

/// Builds transfer races: the retry policy its workers follow and how
/// many of them run.
pub struct TransferEngine {
    pub retry_config: RetryStrategy,
    pub concurrent_transfers: usize,
}

impl TransferEngine {
    pub open spec fn wf(&self) -> bool {
        &&& self.retry_config.wf()
        &&& self.concurrent_transfers >= 1
    }

    /// The stock engine: very short exponential backoff, a twenty-attempt
    /// budget, and twenty-five concurrent workers.
    pub fn new() -> (r: Self)
        ensures
            r.wf(),
            r.retry_config.initial_delay_ms == TRANSFER_INITIAL_DELAY_MS,
            r.retry_config.max_delay_ms == TRANSFER_MAX_DELAY_MS,
            r.retry_config.max_attempts == TRANSFER_MAX_ATTEMPTS,
            r.concurrent_transfers == TRANSFER_CONCURRENCY,
    {
        TransferEngine {
            retry_config: RetryStrategy::exponential_backoff(
                TRANSFER_INITIAL_DELAY_MS,
                TRANSFER_MAX_DELAY_MS,
                TRANSFER_MAX_ATTEMPTS,
            ),
            concurrent_transfers: TRANSFER_CONCURRENCY,
        }
    }

    /// The fee this engine bids for a transfer, whatever the request:
    /// priced to outbid the competitor with room for congestion.
    pub fn calculate_optimal_fee(&self, _request: &TransferRequest) -> (r: u64)
        ensures
            r == instant_transfer_fee(),
    {
        COMPETITOR_BASE_FEE * PRIORITY_MULTIPLIER_MILLI / 1000 + CONGESTION_BONUS
    }

    /// Open an instant-transfer race.
    ///
    /// The wallet's seed phrase is validated first: a malformed one
    /// short-circuits the race — no worker is spawned. On success the
    /// caller gets the live race and the request its workers submit,
    /// with the fee replaced by this engine's bid.
    pub fn start_instant_transfer(
        &self,
        wallet_seed: &str,
        request: &TransferRequest,
        now_ms: u64,
    ) -> (r: Result<(RaceState, TransferRequest), BotError>)
        requires
            self.wf(),
        ensures
            r is Ok <==> mnemonic_ok(wallet_seed@),
            r is Err ==> r->Err_0 == BotError::ValidationFailure,
            r is Ok ==> {
                &&& r->Ok_0.0.running()
                &&& r->Ok_0.0.active
                &&& !r->Ok_0.0.won
                &&& r->Ok_0.0.kind == ActionKind::Transfer
                &&& r->Ok_0.0.policy == self.retry_config
                &&& r->Ok_0.0.fee == instant_transfer_fee()
                &&& r->Ok_0.0.started_at_ms == now_ms
                &&& r->Ok_0.0.workers@.len() == self.concurrent_transfers
                &&& r->Ok_0.1.to_address@ == request.to_address@
                &&& r->Ok_0.1.amount == request.amount
                &&& r->Ok_0.1.fee == instant_transfer_fee()
                &&& (match r->Ok_0.1.memo {
                    Some(m) => request.memo is Some && m@ == request.memo->0@,
                    None => request.memo is None,
                })
            },
    {
        if !validate_seed_phrase(wallet_seed) {
            return Err(BotError::ValidationFailure);
        }
        let fee: u64 = self.calculate_optimal_fee(request);
        let memo: Option<String> = match &request.memo {
            Some(m) => Some(m.clone()),
            None => None,
        };
        let priced = TransferRequest {
            to_address: request.to_address.clone(),
            amount: request.amount,
            fee,
            memo,
        };
        let race = RaceState::new_race(
            ActionKind::Transfer,
            self.retry_config,
            fee,
            self.concurrent_transfers,
            now_ms,
        );
        Ok((race, priced))
    }
}

} // verus!
