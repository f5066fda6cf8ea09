//! Backoff-delay policies for retried attempts.
//!
//! A [`RetryStrategy`] is an immutable value; each worker owns its own
//! delay cursor and advances it with [`RetryStrategy::next_delay`]:
//! `next = min(current * multiplier, max_delay)`. The multiplier is kept
//! in thousandths so the policy stays in exact integer arithmetic
//! (1000 is a factor of one, 1500 a factor of one and a half).

use vstd::prelude::*;

verus! {

/// Multiplier denominator: a multiplier of `MULTIPLIER_UNIT` leaves the
/// delay unchanged.
pub const MULTIPLIER_UNIT: u64 = 1000;

/// An immutable backoff policy: starting delay, ceiling, attempt budget,
/// and the per-step multiplier in thousandths.
#[derive(Debug, Clone, Copy)]
pub struct RetryStrategy {
    pub initial_delay_ms: u64,
    pub max_delay_ms: u64,
    pub max_attempts: usize,
    pub backoff_multiplier_milli: u64,
}

impl RetryStrategy {
    /// A policy is well formed when it never shrinks a delay (multiplier
    /// at least one), starts at or below its ceiling, and allows at least
    /// one attempt.
    pub open spec fn wf(&self) -> bool {
        &&& self.backoff_multiplier_milli >= MULTIPLIER_UNIT
        &&& self.initial_delay_ms <= self.max_delay_ms
        &&& self.max_attempts >= 1
    }

    /// The delay that follows `current`: `min(current * multiplier, max_delay)`.
    pub open spec fn next_delay_spec(&self, current: u64) -> int {
        let grown = (current * self.backoff_multiplier_milli) / (MULTIPLIER_UNIT as int);
        if grown > self.max_delay_ms {
            self.max_delay_ms as int
        } else {
            grown
        }
    }

    /// The delay before attempt `k + 1`, starting from the initial delay.
    pub open spec fn delay_at(&self, k: nat) -> int
        decreases k,
    {
        if k == 0 {
            self.initial_delay_ms as int
        } else {
            self.next_delay_spec_int(self.delay_at((k - 1) as nat))
        }
    }

    /// `next_delay_spec` lifted to mathematical integers, for the delay
    /// sequence above.
    pub open spec fn next_delay_spec_int(&self, current: int) -> int {
        let grown = (current * self.backoff_multiplier_milli) / (MULTIPLIER_UNIT as int);
        if grown > self.max_delay_ms {
            self.max_delay_ms as int
        } else {
            grown
        }
    }

    /// Exponential growth: half again as long after every failure.
    pub fn exponential_backoff(initial_delay_ms: u64, max_delay_ms: u64, max_attempts: usize) -> (r: Self)
        ensures
            r.initial_delay_ms == initial_delay_ms,
            r.max_delay_ms == max_delay_ms,
            r.max_attempts == max_attempts,
            r.backoff_multiplier_milli == 1500,
            initial_delay_ms <= max_delay_ms && max_attempts >= 1 ==> r.wf(),
    {
        RetryStrategy {
            initial_delay_ms,
            max_delay_ms,
            max_attempts,
            backoff_multiplier_milli: 1500,
        }
    }

    /// Constant delay expressed as a backoff policy whose multiplier is one.
    pub fn linear_backoff(initial_delay_ms: u64, max_delay_ms: u64, max_attempts: usize) -> (r: Self)
        ensures
            r.initial_delay_ms == initial_delay_ms,
            r.max_delay_ms == max_delay_ms,
            r.max_attempts == max_attempts,
            r.backoff_multiplier_milli == MULTIPLIER_UNIT,
            initial_delay_ms <= max_delay_ms && max_attempts >= 1 ==> r.wf(),
    {
        RetryStrategy {
            initial_delay_ms,
            max_delay_ms,
            max_attempts,
            backoff_multiplier_milli: MULTIPLIER_UNIT,
        }
    }

    /// The same fixed delay before every retry.
    pub fn fixed_delay(delay_ms: u64, max_attempts: usize) -> (r: Self)
        ensures
            r.initial_delay_ms == delay_ms,
            r.max_delay_ms == delay_ms,
            r.max_attempts == max_attempts,
            r.backoff_multiplier_milli == MULTIPLIER_UNIT,
            max_attempts >= 1 ==> r.wf(),
    {
        RetryStrategy {
            initial_delay_ms: delay_ms,
            max_delay_ms: delay_ms,
            max_attempts,
            backoff_multiplier_milli: MULTIPLIER_UNIT,
        }
    }

    /// Very short delays and a large attempt budget, for callers that
    /// would rather hammer than wait.
    pub fn aggressive() -> (r: Self)
        ensures
            r.initial_delay_ms == 1,
            r.max_delay_ms == 10,
            r.max_attempts == 100,
            r.backoff_multiplier_milli == 1100,
            r.wf(),
    {
        RetryStrategy {
            initial_delay_ms: 1,
            max_delay_ms: 10,
            max_attempts: 100,
            backoff_multiplier_milli: 1100,
        }
    }

    /// Advance a worker's delay cursor one step.
    pub fn next_delay(&self, current: u64) -> (r: u64)
        ensures
            r == self.next_delay_spec(current),
    {
        proof {
            assert((current as int) * (self.backoff_multiplier_milli as int)
                <= (u64::MAX as int) * (u64::MAX as int)) by (nonlinear_arith)
                requires
                    current <= u64::MAX,
                    self.backoff_multiplier_milli <= u64::MAX,
            ;
        }
        let grown: u128 = (current as u128) * (self.backoff_multiplier_milli as u128)
            / (MULTIPLIER_UNIT as u128);
        if grown > self.max_delay_ms as u128 {
            self.max_delay_ms
        } else {
            grown as u64
        }
    }
}

/// Every delay a well-formed policy produces stays at or below the
/// ceiling, and each step is at least as long as the one before it.
pub proof fn lemma_next_delay_monotone(policy: RetryStrategy, current: u64)
    requires
        policy.wf(),
        current <= policy.max_delay_ms,
    ensures
        current <= policy.next_delay_spec(current) <= policy.max_delay_ms,
{
    let m = policy.backoff_multiplier_milli as int;
    let u = MULTIPLIER_UNIT as int;
    assert(current * m >= current * u) by (nonlinear_arith)
        requires m >= u, current >= 0,
    ;
    assert((current * m) / u >= (current * u) / u) by (nonlinear_arith)
        requires current * m >= current * u, u > 0,
    ;
    assert((current * u) / u == current) by (nonlinear_arith)
        requires u > 0,
    ;
}

/// The whole delay sequence of a well-formed policy is monotonically
/// non-decreasing and never exceeds the ceiling.
pub proof fn lemma_delay_sequence_monotone(policy: RetryStrategy, k: nat)
    requires
        policy.wf(),
    ensures
        policy.initial_delay_ms <= policy.delay_at(k) <= policy.max_delay_ms,
        policy.delay_at(k) <= policy.delay_at(k + 1),
    decreases k,
{
    let m = policy.backoff_multiplier_milli as int;
    let u = MULTIPLIER_UNIT as int;
    if k == 0 {
        lemma_step_monotone(policy, policy.initial_delay_ms as int);
    } else {
        lemma_delay_sequence_monotone(policy, (k - 1) as nat);
        lemma_step_monotone(policy, policy.delay_at((k - 1) as nat));
        lemma_step_monotone(policy, policy.delay_at(k));
    }
}

/// One step of the delay sequence: from any delay between zero and the
/// ceiling, the next delay lands in the same band and does not shrink.
proof fn lemma_step_monotone(policy: RetryStrategy, current: int)
    requires
        policy.wf(),
        0 <= current <= policy.max_delay_ms,
    ensures
        current <= policy.next_delay_spec_int(current) <= policy.max_delay_ms,
{
    let m = policy.backoff_multiplier_milli as int;
    let u = MULTIPLIER_UNIT as int;
    assert(current * m >= current * u) by (nonlinear_arith)
        requires m >= u, current >= 0,
    ;
    assert((current * m) / u >= (current * u) / u) by (nonlinear_arith)
        requires current * m >= current * u, u > 0,
    ;
    assert((current * u) / u == current) by (nonlinear_arith)
        requires u > 0,
    ;
    assert((current * m) / u >= 0) by (nonlinear_arith)
        requires current * m >= 0, u > 0,
    ;
}

/// Holds one strategy for a call site that retries an operation;
/// the retry loop itself runs outside the library, asking this
/// configuration whether and how long to wait.
pub struct RetryConfig {
    pub strategy: RetryStrategy,
}

impl RetryConfig {
    pub fn new(strategy: RetryStrategy) -> (r: Self)
        ensures
            r.strategy == strategy,
    {
        RetryConfig { strategy }
    }

    /// Whether a failed attempt numbered `attempt` (counting from one)
    /// leaves budget for another try.
    pub fn should_retry(&self, attempt: usize) -> (r: bool)
        ensures
            r == (attempt < self.strategy.max_attempts),
    {
        attempt < self.strategy.max_attempts
    }

    /// The delay to sleep after a failure, advancing the caller's cursor.
    pub fn next_delay(&self, current: u64) -> (r: u64)
        ensures
            r == self.strategy.next_delay_spec(current),
    {
        self.strategy.next_delay(current)
    }
}

} // verus!
