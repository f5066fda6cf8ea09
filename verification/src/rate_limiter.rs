//! Per-key token-bucket admission control.
//!
//! Three independent quota domains — claiming, transfers, and generic
//! API calls — each map an external key (an address or session id) to a
//! token bucket. Tokens are kept in thousandths: a bucket refills at its
//! domain's rate (one token per second equals one milli-token per
//! millisecond) up to a one-second burst capacity, and every admission
//! costs one whole token.

use vstd::prelude::*;
use dashmap::DashMap;

verus! {

/// Claim admissions allowed per second per key.
pub const CLAIMING_RATE_PER_SEC: u64 = 1000;

/// Transfer admissions allowed per second per key.
pub const TRANSFER_RATE_PER_SEC: u64 = 500;

/// Generic API admissions allowed per second per key.
pub const API_RATE_PER_SEC: u64 = 2000;

/// Milli-tokens one admission costs.
pub const TOKEN_COST_MILLI: u64 = 1000;

/// A bucket replenishes a full token within this many milliseconds, so
/// no wait for a slot lasts longer.
pub const SLOT_WAIT_BOUND_MS: u64 = 1000;

/// Largest per-second rate a bucket may be built with; keeps all token
/// arithmetic far from overflow.
pub const MAX_RATE_PER_SEC: u64 = 1_000_000;

/// Token-bucket state for one (domain, key) pair.
#[derive(Debug, Clone, Copy, PartialEq, Eq, Structural)]
pub struct RateBucket {
    pub tokens_milli: u64,
    pub last_refill_ms: u64,
    pub capacity_milli: u64,
    pub refill_per_sec: u64,
}

/// The sharded store of one quota domain: key to its bucket.
pub type BucketStore = DashMap<String, RateBucket>;

/// What a domain's store holds: the bucket recorded for each key.
pub uninterp spec fn rate_buckets(m: BucketStore) -> Map<Seq<char>, RateBucket>;

/// The contents of a store no key has ever touched.
pub open spec fn no_buckets() -> Map<Seq<char>, RateBucket> {
    Map::empty()
}

/// Relies on dashmap::DashMap::new: creates an empty map.
#[verifier::external_body]
fn bucket_store_new() -> (m: BucketStore)
    ensures
        rate_buckets(m) == no_buckets(),
{
    DashMap::new()
}

/// Relies on dashmap::DashMap::remove: takes the entry for the key out
/// of the map and returns it, or returns None if the key is absent.
#[verifier::external_body]
fn bucket_store_remove(m: &mut BucketStore, key: &String) -> (r: Option<(String, RateBucket)>)
    ensures
        rate_buckets(*final(m)) == rate_buckets(*old(m)).remove(key@),
        match r {
            Some(p) => {
                &&& rate_buckets(*old(m)).dom().contains(key@)
                &&& p.0@ == key@
                &&& p.1 == rate_buckets(*old(m))[key@]
            },
            None => !rate_buckets(*old(m)).dom().contains(key@),
        },
{
    m.remove(key)
}

/// Relies on dashmap::DashMap::insert: maps the key to the value and
/// returns the value it replaced, if any.
#[verifier::external_body]
fn bucket_store_insert(m: &mut BucketStore, key: String, value: RateBucket) -> (r: Option<
    RateBucket,
>)
    ensures
        rate_buckets(*final(m)) == rate_buckets(*old(m)).insert(key@, value),
        match r {
            Some(v) => {
                &&& rate_buckets(*old(m)).dom().contains(key@)
                &&& v == rate_buckets(*old(m))[key@]
            },
            None => !rate_buckets(*old(m)).dom().contains(key@),
        },
{
    m.insert(key, value)
}

/// A bucket belonging to a domain with the given per-second rate.
pub open spec fn bucket_wf(b: RateBucket, rate: u64) -> bool {
    &&& b.refill_per_sec == rate
    &&& b.capacity_milli == rate * TOKEN_COST_MILLI
    &&& b.tokens_milli <= b.capacity_milli
    &&& 1 <= rate <= MAX_RATE_PER_SEC
}

/// Every bucket a domain's store holds is well formed for that domain.
pub open spec fn bucket_map_wf(m: Map<Seq<char>, RateBucket>, rate: u64) -> bool {
    forall|k: Seq<char>| m.dom().contains(k) ==> bucket_wf(#[trigger] m[k], rate)
}

/// The bucket a brand-new key starts from: full, as of `now_ms`.
pub open spec fn fresh_bucket(rate: u64, now_ms: u64) -> RateBucket {
    RateBucket {
        tokens_milli: (rate * TOKEN_COST_MILLI) as u64,
        last_refill_ms: now_ms,
        capacity_milli: (rate * TOKEN_COST_MILLI) as u64,
        refill_per_sec: rate,
    }
}

/// The bucket a check at `now_ms` starts from: the stored one, or a
/// fresh full bucket for a key not seen before.
pub open spec fn effective_bucket(
    m: Map<Seq<char>, RateBucket>,
    key: Seq<char>,
    rate: u64,
    now_ms: u64,
) -> RateBucket {
    if m.dom().contains(key) {
        m[key]
    } else {
        fresh_bucket(rate, now_ms)
    }
}

/// Milli-tokens available at `now_ms`, after refilling for the elapsed
/// time and clamping to capacity. A clock reading before the last
/// refill adds nothing.
pub open spec fn refilled_tokens(b: RateBucket, now_ms: u64) -> int {
    if now_ms <= b.last_refill_ms {
        b.tokens_milli as int
    } else {
        let grown = b.tokens_milli + (now_ms - b.last_refill_ms) * b.refill_per_sec;
        if grown > b.capacity_milli {
            b.capacity_milli as int
        } else {
            grown
        }
    }
}

/// Whether a check at `now_ms` admits the caller.
pub open spec fn check_allowed(b: RateBucket, now_ms: u64) -> bool {
    refilled_tokens(b, now_ms) >= TOKEN_COST_MILLI
}

/// The bucket stored after a check at `now_ms`: refilled, and with one
/// token spent if the check admitted the caller.
pub open spec fn bucket_after_check(b: RateBucket, now_ms: u64) -> RateBucket {
    let refilled = refilled_tokens(b, now_ms);
    let left = if refilled >= TOKEN_COST_MILLI {
        refilled - TOKEN_COST_MILLI
    } else {
        refilled
    };
    RateBucket {
        tokens_milli: left as u64,
        last_refill_ms: if now_ms > b.last_refill_ms {
            now_ms
        } else {
            b.last_refill_ms
        },
        capacity_milli: b.capacity_milli,
        refill_per_sec: b.refill_per_sec,
    }
}

/// Refill and check one bucket. Pure bookkeeping: the caller owns the
/// store traffic around it.
fn check_bucket(b: RateBucket, now_ms: u64, rate: u64) -> (r: (bool, RateBucket))
    requires
        bucket_wf(b, rate),
    ensures
        r.0 == check_allowed(b, now_ms),
        r.1 == bucket_after_check(b, now_ms),
        bucket_wf(r.1, rate),
{
    let refilled: u64 = if now_ms <= b.last_refill_ms {
        b.tokens_milli
    } else {
        let elapsed: u64 = now_ms - b.last_refill_ms;
        proof {
            assert((elapsed as int) * (b.refill_per_sec as int) <= (u64::MAX as int) * (
            MAX_RATE_PER_SEC as int)) by (nonlinear_arith)
                requires
                    elapsed <= u64::MAX,
                    b.refill_per_sec <= MAX_RATE_PER_SEC,
            ;
        }
        let grown: u128 = (b.tokens_milli as u128) + (elapsed as u128) * (b.refill_per_sec
            as u128);
        if grown > b.capacity_milli as u128 {
            b.capacity_milli
        } else {
            grown as u64
        }
    };
    if refilled >= TOKEN_COST_MILLI {
        (
            true,
            RateBucket {
                tokens_milli: refilled - TOKEN_COST_MILLI,
                last_refill_ms: if now_ms > b.last_refill_ms {
                    now_ms
                } else {
                    b.last_refill_ms
                },
                capacity_milli: b.capacity_milli,
                refill_per_sec: b.refill_per_sec,
            },
        )
    } else {
        (
            false,
            RateBucket {
                tokens_milli: refilled,
                last_refill_ms: if now_ms > b.last_refill_ms {
                    now_ms
                } else {
                    b.last_refill_ms
                },
                capacity_milli: b.capacity_milli,
                refill_per_sec: b.refill_per_sec,
            },
        )
    }
}

/// One non-blocking admission check against one domain's store.
fn check_rate_store(store: &mut BucketStore, key: &str, now_ms: u64, rate: u64) -> (r: bool)
    requires
        1 <= rate <= MAX_RATE_PER_SEC,
        bucket_map_wf(rate_buckets(*old(store)), rate),
    ensures
        bucket_map_wf(rate_buckets(*final(store)), rate),
        r == check_allowed(effective_bucket(rate_buckets(*old(store)), key@, rate, now_ms), now_ms),
        rate_buckets(*final(store)) == rate_buckets(*old(store)).insert(
            key@,
            bucket_after_check(
                effective_bucket(rate_buckets(*old(store)), key@, rate, now_ms),
                now_ms,
            ),
        ),
{
    let owned: String = key.to_owned();
    let prev: Option<(String, RateBucket)> = bucket_store_remove(store, &owned);
    let b: RateBucket = match prev {
        Some(p) => p.1,
        None => RateBucket {
            tokens_milli: rate * TOKEN_COST_MILLI,
            last_refill_ms: now_ms,
            capacity_milli: rate * TOKEN_COST_MILLI,
            refill_per_sec: rate,
        },
    };
    let checked = check_bucket(b, now_ms, rate);
    bucket_store_insert(store, owned, checked.1);
    proof {
        assert(rate_buckets(*store) =~= rate_buckets(*old(store)).insert(
            key@,
            bucket_after_check(
                effective_bucket(rate_buckets(*old(store)), key@, rate, now_ms),
                now_ms,
            ),
        ));
    }
    checked.0
}


/// A full token accrues within the wait bound: a check one second after
/// the bucket's last refill always admits the caller. This is why a
/// caller polling for a slot never waits forever.
pub proof fn lemma_slot_within_bound(b: RateBucket, rate: u64, now_ms: u64)
    requires
        bucket_wf(b, rate),
        b.last_refill_ms <= now_ms,
        now_ms + SLOT_WAIT_BOUND_MS <= u64::MAX,
    ensures
        check_allowed(b, (now_ms + SLOT_WAIT_BOUND_MS) as u64),
{
    let d = (now_ms + SLOT_WAIT_BOUND_MS) as u64;
    let elapsed = d - b.last_refill_ms;
    assert(elapsed >= SLOT_WAIT_BOUND_MS);
    assert(elapsed * b.refill_per_sec >= SLOT_WAIT_BOUND_MS * 1) by (nonlinear_arith)
        requires
            elapsed >= SLOT_WAIT_BOUND_MS,
            b.refill_per_sec >= 1,
    ;
}

/// Poll one domain's store for a slot, advancing the supplied clock one
/// millisecond per probe; returns the first time at which the key is
/// admitted, and spends that token.
fn wait_for_slot_store(store: &mut BucketStore, key: &str, now_ms: u64, rate: u64) -> (slot: u64)
    requires
        1 <= rate <= MAX_RATE_PER_SEC,
        bucket_map_wf(rate_buckets(*old(store)), rate),
        effective_bucket(rate_buckets(*old(store)), key@, rate, now_ms).last_refill_ms <= now_ms,
        now_ms + SLOT_WAIT_BOUND_MS <= u64::MAX,
    ensures
        now_ms <= slot <= now_ms + SLOT_WAIT_BOUND_MS,
        check_allowed(effective_bucket(rate_buckets(*old(store)), key@, rate, now_ms), slot),
        forall|t: u64|
            now_ms <= t < slot ==> !(#[trigger] check_allowed(
                effective_bucket(rate_buckets(*old(store)), key@, rate, now_ms),
                t,
            )),
        rate_buckets(*final(store)) == rate_buckets(*old(store)).insert(
            key@,
            bucket_after_check(
                effective_bucket(rate_buckets(*old(store)), key@, rate, now_ms),
                slot,
            ),
        ),
        bucket_map_wf(rate_buckets(*final(store)), rate),
{
    let owned: String = key.to_owned();
    let prev: Option<(String, RateBucket)> = bucket_store_remove(store, &owned);
    let b: RateBucket = match prev {
        Some(p) => p.1,
        None => RateBucket {
            tokens_milli: rate * TOKEN_COST_MILLI,
            last_refill_ms: now_ms,
            capacity_milli: rate * TOKEN_COST_MILLI,
            refill_per_sec: rate,
        },
    };
    let ghost b0 = effective_bucket(rate_buckets(*old(store)), key@, rate, now_ms);
    proof {
        assert(b == b0);
    }
    let mut t: u64 = now_ms;
    let mut c: (bool, RateBucket) = check_bucket(b, t, rate);
    while !c.0
        invariant
            now_ms <= t <= now_ms + SLOT_WAIT_BOUND_MS,
            bucket_wf(b, rate),
            b.last_refill_ms <= now_ms,
            now_ms + SLOT_WAIT_BOUND_MS <= u64::MAX,
            c.0 == check_allowed(b, t),
            c.1 == bucket_after_check(b, t),
            forall|t2: u64| now_ms <= t2 < t ==> !(#[trigger] check_allowed(b, t2)),
        decreases now_ms + SLOT_WAIT_BOUND_MS - t,
    {
        proof {
            lemma_slot_within_bound(b, rate, now_ms);
        }
        t = t + 1;
        c = check_bucket(b, t, rate);
    }
    bucket_store_insert(store, owned, c.1);
    proof {
        assert(rate_buckets(*store) =~= rate_buckets(*old(store)).insert(
            key@,
            bucket_after_check(b0, t),
        ));
    }
    t
}

/// Per-key admission control over the three independent quota domains.
pub struct RateLimiter {
    pub claiming_buckets: BucketStore,
    pub transfer_buckets: BucketStore,
    pub api_buckets: BucketStore,
}

impl RateLimiter {
    /// Each domain's store holds only buckets of that domain's rate.
    pub open spec fn wf(&self) -> bool {
        &&& bucket_map_wf(rate_buckets(self.claiming_buckets), CLAIMING_RATE_PER_SEC)
        &&& bucket_map_wf(rate_buckets(self.transfer_buckets), TRANSFER_RATE_PER_SEC)
        &&& bucket_map_wf(rate_buckets(self.api_buckets), API_RATE_PER_SEC)
    }

    /// A limiter with the stock quotas and no keys seen yet.
    pub fn new() -> (r: Self)
        ensures
            r.wf(),
            rate_buckets(r.claiming_buckets) == no_buckets(),
            rate_buckets(r.transfer_buckets) == no_buckets(),
            rate_buckets(r.api_buckets) == no_buckets(),
    {
        RateLimiter {
            claiming_buckets: bucket_store_new(),
            transfer_buckets: bucket_store_new(),
            api_buckets: bucket_store_new(),
        }
    }

    /// Non-blocking admission check in the claiming domain.
    pub fn check_claiming_rate(&mut self, key: &str, now_ms: u64) -> (r: bool)
        requires
            old(self).wf(),
        ensures
            final(self).wf(),
            r == check_allowed(
                effective_bucket(
                    rate_buckets(old(self).claiming_buckets),
                    key@,
                    CLAIMING_RATE_PER_SEC,
                    now_ms,
                ),
                now_ms,
            ),
            rate_buckets(final(self).claiming_buckets) == rate_buckets(
                old(self).claiming_buckets,
            ).insert(
                key@,
                bucket_after_check(
                    effective_bucket(
                        rate_buckets(old(self).claiming_buckets),
                        key@,
                        CLAIMING_RATE_PER_SEC,
                        now_ms,
                    ),
                    now_ms,
                ),
            ),
            final(self).transfer_buckets == old(self).transfer_buckets,
            final(self).api_buckets == old(self).api_buckets,
    {
        check_rate_store(&mut self.claiming_buckets, key, now_ms, CLAIMING_RATE_PER_SEC)
    }

    /// Non-blocking admission check in the transfer domain.
    pub fn check_transfer_rate(&mut self, key: &str, now_ms: u64) -> (r: bool)
        requires
            old(self).wf(),
        ensures
            final(self).wf(),
            r == check_allowed(
                effective_bucket(
                    rate_buckets(old(self).transfer_buckets),
                    key@,
                    TRANSFER_RATE_PER_SEC,
                    now_ms,
                ),
                now_ms,
            ),
            rate_buckets(final(self).transfer_buckets) == rate_buckets(
                old(self).transfer_buckets,
            ).insert(
                key@,
                bucket_after_check(
                    effective_bucket(
                        rate_buckets(old(self).transfer_buckets),
                        key@,
                        TRANSFER_RATE_PER_SEC,
                        now_ms,
                    ),
                    now_ms,
                ),
            ),
            final(self).claiming_buckets == old(self).claiming_buckets,
            final(self).api_buckets == old(self).api_buckets,
    {
        check_rate_store(&mut self.transfer_buckets, key, now_ms, TRANSFER_RATE_PER_SEC)
    }

    /// Non-blocking admission check in the generic API domain.
    pub fn check_api_rate(&mut self, key: &str, now_ms: u64) -> (r: bool)
        requires
            old(self).wf(),
        ensures
            final(self).wf(),
            r == check_allowed(
                effective_bucket(
                    rate_buckets(old(self).api_buckets),
                    key@,
                    API_RATE_PER_SEC,
                    now_ms,
                ),
                now_ms,
            ),
            rate_buckets(final(self).api_buckets) == rate_buckets(old(self).api_buckets).insert(
                key@,
                bucket_after_check(
                    effective_bucket(
                        rate_buckets(old(self).api_buckets),
                        key@,
                        API_RATE_PER_SEC,
                        now_ms,
                    ),
                    now_ms,
                ),
            ),
            final(self).claiming_buckets == old(self).claiming_buckets,
            final(self).transfer_buckets == old(self).transfer_buckets,
    {
        check_rate_store(&mut self.api_buckets, key, now_ms, API_RATE_PER_SEC)
    }

    /// Poll the claiming domain until the key is admitted, advancing the
    /// supplied clock millisecond by millisecond. Always returns within
    /// the wait bound, because the bucket replenishes a full token over
    /// that span.
    pub fn wait_for_claiming_slot(&mut self, key: &str, now_ms: u64) -> (slot: u64)
        requires
            old(self).wf(),
            effective_bucket(
                rate_buckets(old(self).claiming_buckets),
                key@,
                CLAIMING_RATE_PER_SEC,
                now_ms,
            ).last_refill_ms <= now_ms,
            now_ms + SLOT_WAIT_BOUND_MS <= u64::MAX,
        ensures
            final(self).wf(),
            now_ms <= slot <= now_ms + SLOT_WAIT_BOUND_MS,
            check_allowed(
                effective_bucket(
                    rate_buckets(old(self).claiming_buckets),
                    key@,
                    CLAIMING_RATE_PER_SEC,
                    now_ms,
                ),
                slot,
            ),
            forall|t: u64|
                now_ms <= t < slot ==> !(#[trigger] check_allowed(
                    effective_bucket(
                        rate_buckets(old(self).claiming_buckets),
                        key@,
                        CLAIMING_RATE_PER_SEC,
                        now_ms,
                    ),
                    t,
                )),
            rate_buckets(final(self).claiming_buckets) == rate_buckets(
                old(self).claiming_buckets,
            ).insert(
                key@,
                bucket_after_check(
                    effective_bucket(
                        rate_buckets(old(self).claiming_buckets),
                        key@,
                        CLAIMING_RATE_PER_SEC,
                        now_ms,
                    ),
                    slot,
                ),
            ),
            final(self).transfer_buckets == old(self).transfer_buckets,
            final(self).api_buckets == old(self).api_buckets,
    {
        wait_for_slot_store(&mut self.claiming_buckets, key, now_ms, CLAIMING_RATE_PER_SEC)
    }

    /// Poll the transfer domain until the key is admitted; the same
    /// bounded wait as in the claiming domain.
    pub fn wait_for_transfer_slot(&mut self, key: &str, now_ms: u64) -> (slot: u64)
        requires
            old(self).wf(),
            effective_bucket(
                rate_buckets(old(self).transfer_buckets),
                key@,
                TRANSFER_RATE_PER_SEC,
                now_ms,
            ).last_refill_ms <= now_ms,
            now_ms + SLOT_WAIT_BOUND_MS <= u64::MAX,
        ensures
            final(self).wf(),
            now_ms <= slot <= now_ms + SLOT_WAIT_BOUND_MS,
            check_allowed(
                effective_bucket(
                    rate_buckets(old(self).transfer_buckets),
                    key@,
                    TRANSFER_RATE_PER_SEC,
                    now_ms,
                ),
                slot,
            ),
            forall|t: u64|
                now_ms <= t < slot ==> !(#[trigger] check_allowed(
                    effective_bucket(
                        rate_buckets(old(self).transfer_buckets),
                        key@,
                        TRANSFER_RATE_PER_SEC,
                        now_ms,
                    ),
                    t,
                )),
            rate_buckets(final(self).transfer_buckets) == rate_buckets(
                old(self).transfer_buckets,
            ).insert(
                key@,
                bucket_after_check(
                    effective_bucket(
                        rate_buckets(old(self).transfer_buckets),
                        key@,
                        TRANSFER_RATE_PER_SEC,
                        now_ms,
                    ),
                    slot,
                ),
            ),
            final(self).claiming_buckets == old(self).claiming_buckets,
            final(self).api_buckets == old(self).api_buckets,
    {
        wait_for_slot_store(&mut self.transfer_buckets, key, now_ms, TRANSFER_RATE_PER_SEC)
    }
}


} // verus!
