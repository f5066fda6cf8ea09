//! Adaptive fee bidding.
//!
//! A bid is computed from a rolling history of observed competitor fees,
//! a throttled congestion estimate, the amount being moved and the
//! caller's urgency. All factors are integer thousandths, so every fee
//! is an exact function of the optimizer's state.

use vstd::prelude::*;
use crate::types::OptimizedFeeConfig;

verus! {

/// How hard a caller wants to outbid the field right now.
#[derive(Debug, Clone, Copy, PartialEq, Eq, Structural)]
pub enum UrgencyLevel {
    Low,
    Medium,
    High,
    Critical,
}

/// Denominator of every fractional factor in this module.
pub const MILLI: u64 = 1000;

/// Bounds of the congestion estimate, in thousandths: three quarters to
/// five quarters of nominal load.
pub const CONGESTION_MIN: u64 = 750;

pub const CONGESTION_MAX: u64 = 1250;

/// Width of the congestion band: a fresh sample is an offset in
/// `0 ..= CONGESTION_SPAN` above `CONGESTION_MIN`.
pub const CONGESTION_SPAN: u64 = 500;

/// The congestion estimate is resampled at most once per this interval.
pub const CONGESTION_REFRESH_INTERVAL_MS: u64 = 10_000;

/// The competitor-fee history keeps only this many recent entries.
pub const MAX_COMPETITOR_FEES: usize = 10;

/// Base fee for claim actions, where a sponsor pays.
pub const CLAIM_BASE_FEE: u64 = 500_000;

/// Claim fees are doubled because the sponsor carries them.
pub const SPONSOR_MULTIPLIER_MILLI: u64 = 2000;

/// Transfer bids outbid the best competitor by this factor.
pub const PREMIUM_MULTIPLIER_MILLI: u64 = 2500;

/// Competitor fee assumed when nothing has been observed yet.
pub const DEFAULT_COMPETITOR_FEE: u64 = 3_200_000;

/// Amounts above this step the bid up by half.
pub const TIER_HIGH_THRESHOLD: u64 = 100_000_000;

/// Amounts above this (but not above the high threshold) step the bid up
/// by a fifth.
pub const TIER_MID_THRESHOLD: u64 = 10_000_000;

/// The largest entry of a non-empty fee history.
pub open spec fn seq_max(s: Seq<u64>) -> int
    recommends
        s.len() > 0,
    decreases s.len(),
{
    if s.len() <= 1 {
        s[0] as int
    } else {
        let rest = seq_max(s.drop_last());
        if s.last() >= rest {
            s.last() as int
        } else {
            rest
        }
    }
}

/// The fee to outbid: the largest observed competitor fee, or the stock
/// assumption while the history is empty.
pub open spec fn max_competitor_spec(history: Seq<u64>) -> int {
    if history.len() == 0 {
        DEFAULT_COMPETITOR_FEE as int
    } else {
        seq_max(history)
    }
}

/// Scaling step for large transfers, in thousandths.
pub open spec fn amount_tier_milli(amount: u64) -> int {
    if amount > TIER_HIGH_THRESHOLD {
        1500
    } else if amount > TIER_MID_THRESHOLD {
        1200
    } else {
        1000
    }
}

/// A claim bid: the claim base fee, doubled for the sponsor, scaled by
/// congestion.
pub open spec fn claiming_fee_spec(congestion_milli: u64) -> int {
    ((CLAIM_BASE_FEE * SPONSOR_MULTIPLIER_MILLI) / (MILLI as int) * congestion_milli) / (
    MILLI as int)
}

/// A transfer bid: the best competitor fee with a premium, scaled by
/// congestion and by the amount tier, then capped.
pub open spec fn transfer_fee_spec(
    history: Seq<u64>,
    congestion_milli: u64,
    amount: u64,
    max_fee: u64,
) -> int {
    let premium = (max_competitor_spec(history) * PREMIUM_MULTIPLIER_MILLI) / (MILLI as int);
    let adjusted = (premium * congestion_milli) / (MILLI as int);
    let scaled = (adjusted * amount_tier_milli(amount)) / (MILLI as int);
    if scaled > max_fee {
        max_fee as int
    } else {
        scaled
    }
}

/// A priority boost: a per-level base amount scaled by congestion.
pub open spec fn priority_boost_spec(urgency: UrgencyLevel, congestion_milli: u64) -> int {
    (urgency_base_boost(urgency) * congestion_milli) / (MILLI as int)
}

/// Urgency levels in escalation order.
pub open spec fn urgency_rank(urgency: UrgencyLevel) -> int {
    match urgency {
        UrgencyLevel::Low => 0,
        UrgencyLevel::Medium => 1,
        UrgencyLevel::High => 2,
        UrgencyLevel::Critical => 3,
    }
}

/// Base boost per urgency level, before congestion scaling.
pub open spec fn urgency_base_boost(urgency: UrgencyLevel) -> int {
    match urgency {
        UrgencyLevel::Low => 0,
        UrgencyLevel::Medium => 1_000_000,
        UrgencyLevel::High => 3_000_000,
        UrgencyLevel::Critical => 7_000_000,
    }
}

/// The fee history after recording one more observation: appended, with
/// the oldest entry evicted once the history is full.
pub open spec fn history_after_add(h: Seq<u64>, fee: u64) -> Seq<u64> {
    if h.len() < MAX_COMPETITOR_FEES {
        h.push(fee)
    } else {
        h.push(fee).skip(1)
    }
}

/// Relies on fastrand::u64: a uniform draw within the given inclusive
/// range (panics only on an empty range, which the precondition rules
/// out).
#[verifier::external_body]
fn random_in_range(lo: u64, hi: u64) -> (r: u64)
    requires
        lo <= hi,
    ensures
        lo <= r <= hi,
{
    fastrand::u64(lo..=hi)
}

/// Computes fee bids from shared competitor and congestion state.
pub struct FeeOptimizer {
    pub config: OptimizedFeeConfig,
    pub congestion_milli: u64,
    pub last_fee_update_ms: u64,
    pub competitor_fees: Vec<u64>,
}

impl FeeOptimizer {
    /// The optimizer's invariant: a congestion estimate inside its band
    /// and a bounded history.
    pub open spec fn wf(&self) -> bool {
        &&& CONGESTION_MIN <= self.congestion_milli <= CONGESTION_MAX
        &&& self.competitor_fees@.len() <= MAX_COMPETITOR_FEES
    }

    /// A fresh optimizer: nominal congestion and the two competitor fees
    /// known from observation of the network.
    pub fn new(now_ms: u64) -> (r: Self)
        ensures
            r.wf(),
            r.congestion_milli == MILLI,
            r.last_fee_update_ms == now_ms,
            r.competitor_fees@ == seq![3_200_000u64, 9_400_000u64],
            r.config.max_fee == 10_000_000,
    {
        FeeOptimizer {
            config: OptimizedFeeConfig::default(),
            congestion_milli: MILLI,
            last_fee_update_ms: now_ms,
            competitor_fees: vec![3_200_000u64, 9_400_000u64],
        }
    }

    /// The largest observed competitor fee, or the stock assumption.
    pub fn max_competitor_fee(&self) -> (r: u64)
        ensures
            r == max_competitor_spec(self.competitor_fees@),
    {
        if self.competitor_fees.len() == 0 {
            DEFAULT_COMPETITOR_FEE
        } else {
            let mut m: u64 = self.competitor_fees[0];
            let mut i: usize = 1;
            while i < self.competitor_fees.len()
                invariant
                    1 <= i <= self.competitor_fees@.len(),
                    m == seq_max(self.competitor_fees@.take(i as int)),
                decreases self.competitor_fees@.len() - i,
            {
                proof {
                    assert(self.competitor_fees@.take(i + 1).drop_last() =~= self
                        .competitor_fees@.take(i as int));
                }
                if self.competitor_fees[i] > m {
                    m = self.competitor_fees[i];
                }
                i = i + 1;
            }
            proof {
                assert(self.competitor_fees@.take(self.competitor_fees@.len() as int) =~= self
                    .competitor_fees@);
            }
            m
        }
    }

    /// The bid for a claim action. The sponsor pays, so the base fee is
    /// doubled and only congestion modulates it.
    pub fn calculate_optimal_claiming_fee(&self) -> (r: u64)
        requires
            self.wf(),
        ensures
            r == claiming_fee_spec(self.congestion_milli),
    {
        let base: u64 = CLAIM_BASE_FEE * SPONSOR_MULTIPLIER_MILLI / MILLI;
        proof {
            assert(base == 1_000_000);
        }
        base * self.congestion_milli / MILLI
    }

    /// The bid for a transfer: outbid the best competitor by the premium,
    /// scale by congestion and amount tier, cap at the configured maximum.
    pub fn calculate_optimal_transfer_fee(&self, amount: u64) -> (r: u64)
        requires
            self.wf(),
        ensures
            r == transfer_fee_spec(
                self.competitor_fees@,
                self.congestion_milli,
                amount,
                self.config.max_fee,
            ),
    {
        let mc: u64 = self.max_competitor_fee();
        let premium: u128 = (mc as u128) * (PREMIUM_MULTIPLIER_MILLI as u128) / (MILLI as u128);
        proof {
            assert((premium as int) * (self.congestion_milli as int) <= (premium as int) * 1250)
                by (nonlinear_arith)
                requires
                    premium >= 0,
                    self.congestion_milli <= 1250,
            ;
        }
        let adjusted: u128 = premium * (self.congestion_milli as u128) / (MILLI as u128);
        let tier: u64 = if amount > TIER_HIGH_THRESHOLD {
            1500
        } else if amount > TIER_MID_THRESHOLD {
            1200
        } else {
            1000
        };
        proof {
            assert((adjusted as int) * (tier as int) <= (adjusted as int) * 1500)
                by (nonlinear_arith)
                requires
                    adjusted >= 0,
                    tier <= 1500,
            ;
        }
        let scaled: u128 = adjusted * (tier as u128) / (MILLI as u128);
        if scaled > self.config.max_fee as u128 {
            self.config.max_fee
        } else {
            scaled as u64
        }
    }

    /// Resample the congestion estimate, but only once the refresh
    /// interval has elapsed; rapid repeated calls leave it untouched.
    pub fn update_network_congestion(&mut self, now_ms: u64)
        requires
            old(self).wf(),
        ensures
            final(self).wf(),
            final(self).config == old(self).config,
            final(self).competitor_fees == old(self).competitor_fees,
            now_ms - old(self).last_fee_update_ms <= CONGESTION_REFRESH_INTERVAL_MS
                ==> *final(self) == *old(self),
            now_ms - old(self).last_fee_update_ms > CONGESTION_REFRESH_INTERVAL_MS ==> {
                &&& final(self).last_fee_update_ms == now_ms
                &&& CONGESTION_MIN <= final(self).congestion_milli <= CONGESTION_MAX
            },
    {
        if now_ms > self.last_fee_update_ms && now_ms - self.last_fee_update_ms
            > CONGESTION_REFRESH_INTERVAL_MS {
            let sample = random_in_range(0, CONGESTION_SPAN);
            self.apply_congestion_sample(now_ms, sample);
        }
    }

    /// Install one congestion sample: an offset above the band's floor,
    /// clamped to the band's width. Deterministic, so the effect of any
    /// sample — however it was drawn — is exact.
    pub fn apply_congestion_sample(&mut self, now_ms: u64, sample: u64)
        ensures
            final(self).congestion_milli == CONGESTION_MIN + (if sample <= CONGESTION_SPAN {
                sample as int
            } else {
                CONGESTION_SPAN as int
            }),
            CONGESTION_MIN <= final(self).congestion_milli <= CONGESTION_MAX,
            final(self).last_fee_update_ms == now_ms,
            final(self).config == old(self).config,
            final(self).competitor_fees == old(self).competitor_fees,
    {
        let clamped: u64 = if sample <= CONGESTION_SPAN {
            sample
        } else {
            CONGESTION_SPAN
        };
        self.congestion_milli = CONGESTION_MIN + clamped;
        self.last_fee_update_ms = now_ms;
    }

    /// Record a fee observed from a competitor, evicting the oldest entry
    /// once the history is full.
    pub fn add_competitor_fee(&mut self, fee: u64)
        requires
            old(self).wf(),
        ensures
            final(self).wf(),
            final(self).competitor_fees@ == history_after_add(old(self).competitor_fees@, fee),
            final(self).congestion_milli == old(self).congestion_milli,
            final(self).last_fee_update_ms == old(self).last_fee_update_ms,
            final(self).config == old(self).config,
    {
        self.competitor_fees.push(fee);
        if self.competitor_fees.len() > MAX_COMPETITOR_FEES {
            self.competitor_fees.remove(0);
            proof {
                assert(self.competitor_fees@ =~= history_after_add(
                    old(self).competitor_fees@,
                    fee,
                ));
            }
        }
    }

    /// The additive urgency boost, scaled by the current congestion.
    pub fn get_priority_boost_fee(&self, urgency: UrgencyLevel) -> (r: u64)
        requires
            self.wf(),
        ensures
            r == priority_boost_spec(urgency, self.congestion_milli),
    {
        let base: u64 = match urgency {
            UrgencyLevel::Low => 0,
            UrgencyLevel::Medium => 1_000_000,
            UrgencyLevel::High => 3_000_000,
            UrgencyLevel::Critical => 7_000_000,
        };
        base * self.congestion_milli / MILLI
    }
}

impl Default for FeeOptimizer {
    /// A stock optimizer whose refresh clock starts at zero.
    fn default() -> (r: Self)
        ensures
            r.wf(),
            r.congestion_milli == MILLI,
            r.last_fee_update_ms == 0,
            r.competitor_fees@ == seq![3_200_000u64, 9_400_000u64],
    {
        FeeOptimizer::new(0)
    }
}

/// The competitor-fee history never exceeds its capacity: recording into
/// a full history evicts exactly the oldest entry, and the newest entry
/// is always the one just recorded.
pub proof fn lemma_history_bounded(h: Seq<u64>, fee: u64)
    requires
        h.len() <= MAX_COMPETITOR_FEES,
    ensures
        history_after_add(h, fee).len() <= MAX_COMPETITOR_FEES,
        history_after_add(h, fee).last() == fee,
        h.len() == MAX_COMPETITOR_FEES ==> history_after_add(h, fee) =~= h.skip(1).push(fee),
{
}

/// The priority boost is a monotonic step function of urgency: at any
/// congestion level, escalating urgency never lowers the boost.
pub proof fn lemma_priority_boost_monotone(
    u1: UrgencyLevel,
    u2: UrgencyLevel,
    congestion_milli: u64,
)
    requires
        urgency_rank(u1) <= urgency_rank(u2),
    ensures
        priority_boost_spec(u1, congestion_milli) <= priority_boost_spec(u2, congestion_milli),
{
    let b1 = urgency_base_boost(u1);
    let b2 = urgency_base_boost(u2);
    assert(b1 <= b2);
    assert(b1 * congestion_milli <= b2 * congestion_milli) by (nonlinear_arith)
        requires
            b1 <= b2,
            congestion_milli >= 0,
    ;
    assert((b1 * congestion_milli) / (MILLI as int) <= (b2 * congestion_milli) / (MILLI as int))
        by (nonlinear_arith)
        requires
            b1 * congestion_milli <= b2 * congestion_milli,
    ;
}

} // verus!
