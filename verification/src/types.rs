//! Plain data carried across the subsystem's boundary.
//!
//! Time is always a millisecond count, fees and amounts are integer
//! micro-units of the ledger's currency. The process around the library
//! owns serialization and the wire protocol; these types hold only what
//! the verified logic reads.

use vstd::prelude::*;

verus! {

/// Parameters of one transfer action, shared by every worker racing it.
#[derive(Debug, Clone)]
pub struct TransferRequest {
    pub to_address: String,
    pub amount: u64,
    pub fee: u64,
    pub memo: Option<String>,
}

/// What the ledger reported for an accepted transfer.
#[derive(Debug, Clone)]
pub struct TransferResult {
    pub transaction_id: String,
    pub status: String,
    pub fee_paid: u64,
}

/// What the ledger reported for an accepted claim.
#[derive(Debug, Clone)]
pub struct ClaimResult {
    pub transaction_id: String,
    pub amount_claimed: u64,
    pub fee_paid: u64,
}

/// Status of a payment request as the remote side reports it.
#[derive(Debug, Clone)]
pub struct PaymentResponse {
    pub payment_id: String,
    pub tx_id: Option<String>,
    pub status: String,
}

/// A login attempt: the seed phrase to validate and derive an address from.
#[derive(Debug, Clone)]
pub struct LoginRequest {
    pub seed_phrase: String,
}

/// Outcome of a login attempt.
#[derive(Debug, Clone)]
pub struct LoginResponse {
    pub success: bool,
    pub session_id: String,
    pub address: Option<String>,
}

/// A withdrawal order: transfer, optionally racing a sponsored claim first.
#[derive(Debug, Clone)]
pub struct WithdrawRequest {
    pub to_address: String,
    pub amount: u64,
    pub sponsor_seed: Option<String>,
}

/// An order to race a sponsored claim.
#[derive(Debug, Clone)]
pub struct ClaimRequest {
    pub sponsor_seed: String,
}

/// The immediate acknowledgment a caller gets while a race proceeds.
#[derive(Debug, Clone)]
pub struct TransactionResponse {
    pub transaction_id: String,
    pub status: String,
    pub message: String,
}

/// Severity of one log event.
#[derive(Debug, Clone, Copy, PartialEq, Eq, Structural)]
pub enum LogLevel {
    Info,
    Warn,
    Error,
    Success,
}

/// What one log event reports. Workers are numbered from zero within
/// their race; attempts count from one.
#[derive(Debug, Clone, PartialEq, Eq, Structural)]
pub enum LogEventKind {
    /// A worker is about to issue an attempt.
    AttemptStarted { worker: usize, attempt: usize },
    /// A worker's attempt failed and it will retry after the given delay.
    AttemptFailed { worker: usize, attempt: usize, retry_delay_ms: u64 },
    /// A worker used up its whole attempt budget.
    WorkerExhausted { worker: usize },
    /// The race was won; carries the time elapsed since it started.
    RaceWon { worker: usize, elapsed_ms: u64 },
    /// Every worker finished and none succeeded.
    RaceLost,
}

/// One entry of the append-only log stream through which a race reports
/// all its outcomes.
#[derive(Debug, Clone, PartialEq, Eq, Structural)]
pub struct LogEntry {
    pub timestamp_ms: u64,
    pub level: LogLevel,
    pub kind: LogEventKind,
}

/// Tuning constants of the fee bidder.
#[derive(Debug, Clone)]
pub struct OptimizedFeeConfig {
    pub base_fee: u64,
    pub priority_multiplier_milli: u64,
    pub network_congestion_bonus: u64,
    pub max_fee: u64,
}

impl Default for OptimizedFeeConfig {
    /// The stock configuration: a competitor-level base fee, double
    /// priority, a two-unit congestion bonus and a ten-unit fee cap.
    fn default() -> (r: Self)
        ensures
            r.base_fee == 3_200_000,
            r.priority_multiplier_milli == 2000,
            r.network_congestion_bonus == 2_000_000,
            r.max_fee == 10_000_000,
    {
        OptimizedFeeConfig {
            base_fee: 3_200_000,
            priority_multiplier_milli: 2000,
            network_congestion_bonus: 2_000_000,
            max_fee: 10_000_000,
        }
    }
}

} // verus!
