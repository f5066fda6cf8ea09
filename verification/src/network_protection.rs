//! Flood detection and the bounded connection pool.
//!
//! The flood guard keeps, per endpoint, the timestamps of recent
//! admission checks, pruned to a sliding window; too many checks inside
//! the window means the endpoint is being flooded and callers should
//! apply one pulse of backpressure.

use vstd::prelude::*;
use dashmap::DashMap;
use crate::errors::BotError;

verus! {

/// Timestamps this far in the past (or less) count as inside the window.
pub const FLOOD_TIME_WINDOW_MS: u64 = 1000;

/// More than this many checks inside the window is a flood.
pub const FLOOD_THRESHOLD: usize = 100;

/// The single backpressure pulse advised while an endpoint floods.
pub const FLOOD_BACKPRESSURE_MS: u64 = 100;

/// The sharded store behind the flood detector: endpoint key to the
/// recent check timestamps for that endpoint.
pub type FloodStore = DashMap<String, Vec<u64>>;

/// What the flood store holds: for each endpoint key, the recent check
/// timestamps in the order they were recorded.
pub uninterp spec fn flood_windows(m: FloodStore) -> Map<Seq<char>, Seq<u64>>;

/// The contents of a store with no history at all.
pub open spec fn no_windows() -> Map<Seq<char>, Seq<u64>> {
    Map::empty()
}

/// Relies on dashmap::DashMap::new: creates an empty map.
#[verifier::external_body]
fn flood_store_new() -> (m: FloodStore)
    ensures
        flood_windows(m) == no_windows(),
{
    DashMap::new()
}

/// Relies on dashmap::DashMap::remove: takes the entry for the key out
/// of the map and returns it, or returns None if the key is absent.
#[verifier::external_body]
fn flood_store_remove(m: &mut FloodStore, key: &String) -> (r: Option<(String, Vec<u64>)>)
    ensures
        flood_windows(*final(m)) == flood_windows(*old(m)).remove(key@),
        match r {
            Some(p) => {
                &&& flood_windows(*old(m)).dom().contains(key@)
                &&& p.0@ == key@
                &&& p.1@ == flood_windows(*old(m))[key@]
            },
            None => !flood_windows(*old(m)).dom().contains(key@),
        },
{
    m.remove(key)
}

/// Relies on dashmap::DashMap::insert: maps the key to the value and
/// returns the value it replaced, if any.
#[verifier::external_body]
fn flood_store_insert(m: &mut FloodStore, key: String, value: Vec<u64>) -> (r: Option<Vec<u64>>)
    ensures
        flood_windows(*final(m)) == flood_windows(*old(m)).insert(key@, value@),
        match r {
            Some(v) => {
                &&& flood_windows(*old(m)).dom().contains(key@)
                &&& v@ == flood_windows(*old(m))[key@]
            },
            None => !flood_windows(*old(m)).dom().contains(key@),
        },
{
    m.insert(key, value)
}

/// The timestamps of `w` still inside the window at `now_ms`, in their
/// original order.
pub open spec fn pruned_window(w: Seq<u64>, now_ms: u64, window_ms: u64) -> Seq<u64>
    decreases w.len(),
{
    if w.len() == 0 {
        Seq::empty()
    } else {
        let rest = pruned_window(w.drop_last(), now_ms, window_ms);
        if w.last() + window_ms >= now_ms {
            rest.push(w.last())
        } else {
            rest
        }
    }
}

/// The window a map holds for a key, empty if the key is absent.
pub open spec fn window_of(m: Map<Seq<char>, Seq<u64>>, key: Seq<char>) -> Seq<u64> {
    if m.dom().contains(key) {
        m[key]
    } else {
        Seq::empty()
    }
}

/// The window stored for `key` after one admission check at `now_ms`:
/// the old window pruned to the sliding window, with `now_ms` appended.
pub open spec fn window_after_check(
    m: Map<Seq<char>, Seq<u64>>,
    key: Seq<char>,
    now_ms: u64,
    window_ms: u64,
) -> Seq<u64> {
    pruned_window(window_of(m, key), now_ms, window_ms).push(now_ms)
}

/// Per-endpoint sliding-window overload detection.
pub struct FloodDetector {
    pub request_timestamps: FloodStore,
    pub flood_threshold: usize,
    pub time_window_ms: u64,
}

impl FloodDetector {
    /// The detector's view: each endpoint's recorded check timestamps.
    pub open spec fn windows(&self) -> Map<Seq<char>, Seq<u64>> {
        flood_windows(self.request_timestamps)
    }

    pub open spec fn wf(&self) -> bool {
        &&& self.flood_threshold == FLOOD_THRESHOLD
        &&& self.time_window_ms == FLOOD_TIME_WINDOW_MS
    }

    /// A detector with no history and the stock window and threshold.
    pub fn new() -> (r: Self)
        ensures
            r.wf(),
            r.windows() == Map::<Seq<char>, Seq<u64>>::empty(),
    {
        FloodDetector {
            request_timestamps: flood_store_new(),
            flood_threshold: FLOOD_THRESHOLD,
            time_window_ms: FLOOD_TIME_WINDOW_MS,
        }
    }

    /// Record one admission check for `endpoint` at `now_ms` and report
    /// whether the endpoint is flooding: prune the endpoint's window,
    /// append this check, and compare the count against the threshold.
    pub fn is_flooding(&mut self, endpoint: &str, now_ms: u64) -> (r: bool)
        requires
            old(self).wf(),
        ensures
            final(self).wf(),
            final(self).windows() == old(self).windows().insert(
                endpoint@,
                window_after_check(old(self).windows(), endpoint@, now_ms, FLOOD_TIME_WINDOW_MS),
            ),
            r == (window_after_check(
                old(self).windows(),
                endpoint@,
                now_ms,
                FLOOD_TIME_WINDOW_MS,
            ).len() > FLOOD_THRESHOLD),
    {
        let key: String = endpoint.to_owned();
        let prev: Option<(String, Vec<u64>)> = flood_store_remove(
            &mut self.request_timestamps,
            &key,
        );
        let w: Vec<u64> = match prev {
            Some(p) => p.1,
            None => Vec::new(),
        };
        let ghost w0 = w@;
        let mut kept: Vec<u64> = Vec::new();
        let mut i: usize = 0;
        while i < w.len()
            invariant
                0 <= i <= w@.len(),
                w@ == w0,
                kept@ == pruned_window(w0.take(i as int), now_ms, FLOOD_TIME_WINDOW_MS),
            decreases w@.len() - i,
        {
            proof {
                assert(w0.take(i + 1).drop_last() =~= w0.take(i as int));
            }
            let t: u64 = w[i];
            if t >= now_ms || now_ms - t <= FLOOD_TIME_WINDOW_MS {
                kept.push(t);
            }
            i = i + 1;
        }
        proof {
            assert(w0.take(w0.len() as int) =~= w0);
        }
        kept.push(now_ms);
        let count: usize = kept.len();
        flood_store_insert(&mut self.request_timestamps, key, kept);
        count > self.flood_threshold
    }

    /// One backpressure pulse: if the endpoint floods, advise the caller
    /// to sleep for a fixed spell — once, whether or not the flood then
    /// clears. Returns the advised sleep, or None when admission is calm.
    pub fn wait_if_flooding(&mut self, endpoint: &str, now_ms: u64) -> (r: Option<u64>)
        requires
            old(self).wf(),
        ensures
            final(self).wf(),
            final(self).windows() == old(self).windows().insert(
                endpoint@,
                window_after_check(old(self).windows(), endpoint@, now_ms, FLOOD_TIME_WINDOW_MS),
            ),
            r == if window_after_check(
                old(self).windows(),
                endpoint@,
                now_ms,
                FLOOD_TIME_WINDOW_MS,
            ).len() > FLOOD_THRESHOLD {
                Some(FLOOD_BACKPRESSURE_MS)
            } else {
                None::<u64>
            },
    {
        if self.is_flooding(endpoint, now_ms) {
            Some(FLOOD_BACKPRESSURE_MS)
        } else {
            None
        }
    }
}

impl Default for FloodDetector {
    fn default() -> (r: Self)
        ensures
            r.wf(),
            r.windows() == Map::<Seq<char>, Seq<u64>>::empty(),
    {
        FloodDetector::new()
    }
}

/// Every timestamp still counted after a check lies inside the window,
/// and the count grows by at most one per check: fewer than the
/// threshold many checks can never report a flood.
pub proof fn lemma_pruned_window_in_window(w: Seq<u64>, now_ms: u64, window_ms: u64)
    ensures
        forall|i: int|
            0 <= i < pruned_window(w, now_ms, window_ms).len()
                ==> #[trigger] pruned_window(w, now_ms, window_ms)[i] + window_ms >= now_ms,
        pruned_window(w, now_ms, window_ms).len() <= w.len(),
    decreases w.len(),
{
    if w.len() > 0 {
        lemma_pruned_window_in_window(w.drop_last(), now_ms, window_ms);
    }
}

/// Fewer than the threshold count of checks within the window can never
/// report a flood: the stored window holds at most one entry per check,
/// so a check on a window shorter than the threshold stays calm.
pub proof fn lemma_calm_below_threshold(m: Map<Seq<char>, Seq<u64>>, key: Seq<char>, now_ms: u64)
    requires
        window_of(m, key).len() < FLOOD_THRESHOLD,
    ensures
        window_after_check(m, key, now_ms, FLOOD_TIME_WINDOW_MS).len() <= FLOOD_THRESHOLD,
{
    lemma_pruned_window_in_window(window_of(m, key), now_ms, FLOOD_TIME_WINDOW_MS);
}

/// Once more than the threshold many checks remain inside the window,
/// the next check reports a flood.
pub proof fn lemma_flood_above_threshold(
    m: Map<Seq<char>, Seq<u64>>,
    key: Seq<char>,
    now_ms: u64,
)
    requires
        pruned_window(window_of(m, key), now_ms, FLOOD_TIME_WINDOW_MS).len() >= FLOOD_THRESHOLD,
    ensures
        window_after_check(m, key, now_ms, FLOOD_TIME_WINDOW_MS).len() > FLOOD_THRESHOLD,
{
}

/// Once the whole window has elapsed with no further checks, the next
/// check starts over: every stored timestamp is pruned and the check
/// reports calm again.
pub proof fn lemma_flood_clears(w: Seq<u64>, now_ms: u64, window_ms: u64)
    requires
        forall|i: int| 0 <= i < w.len() ==> #[trigger] w[i] + window_ms < now_ms,
    ensures
        pruned_window(w, now_ms, window_ms) =~= Seq::<u64>::empty(),
    decreases w.len(),
{
    if w.len() > 0 {
        lemma_flood_clears(w.drop_last(), now_ms, window_ms);
    }
}

} // verus!

verus! {

/// A lease goes stale when unused for longer than this.
pub const STALE_THRESHOLD_MS: u64 = 30_000;

/// Leases the pool hands out by default.
pub const DEFAULT_MAX_CONNECTIONS: u64 = 1000;

/// Book-keeping for one connection lease.
#[derive(Debug, Clone, Copy, PartialEq, Eq, Structural)]
pub struct ConnectionInfo {
    pub created_at_ms: u64,
    pub last_used_ms: u64,
    pub request_count: u64,
    pub success_count: u64,
}

/// The sharded store behind the pool: lease key to its book-keeping.
pub type PoolStore = DashMap<String, ConnectionInfo>;

/// What the pool store holds: the lease recorded under each key.
pub uninterp spec fn pool_leases(m: PoolStore) -> Map<Seq<char>, ConnectionInfo>;

/// The contents of a pool that has handed out nothing.
pub open spec fn no_leases() -> Map<Seq<char>, ConnectionInfo> {
    Map::empty()
}

/// Relies on dashmap::DashMap::new: creates an empty map.
#[verifier::external_body]
fn pool_store_new() -> (m: PoolStore)
    ensures
        pool_leases(m) == no_leases(),
{
    DashMap::new()
}

/// Relies on dashmap::DashMap::insert: maps the key to the value and
/// returns the value it replaced, if any. A hash map holds finitely
/// many entries.
#[verifier::external_body]
fn pool_store_insert(m: &mut PoolStore, key: String, value: ConnectionInfo) -> (r: Option<
    ConnectionInfo,
>)
    ensures
        pool_leases(*final(m)) == pool_leases(*old(m)).insert(key@, value),
        pool_leases(*final(m)).dom().finite(),
        match r {
            Some(v) => {
                &&& pool_leases(*old(m)).dom().contains(key@)
                &&& v == pool_leases(*old(m))[key@]
            },
            None => !pool_leases(*old(m)).dom().contains(key@),
        },
{
    m.insert(key, value)
}

/// Relies on dashmap::DashMap::remove: takes the entry for the key out
/// of the map and returns it, or returns None if the key is absent.
#[verifier::external_body]
fn pool_store_remove(m: &mut PoolStore, key: &String) -> (r: Option<(String, ConnectionInfo)>)
    ensures
        pool_leases(*final(m)) == pool_leases(*old(m)).remove(key@),
        match r {
            Some(p) => {
                &&& pool_leases(*old(m)).dom().contains(key@)
                &&& p.0@ == key@
                &&& p.1 == pool_leases(*old(m))[key@]
            },
            None => !pool_leases(*old(m)).dom().contains(key@),
        },
{
    m.remove(key)
}

/// Relies on dashmap::DashMap::len: the number of entries the map
/// holds, which is finite.
#[verifier::external_body]
fn pool_store_len(m: &PoolStore) -> (r: usize)
    requires
        pool_leases(*m).dom().finite(),
    ensures
        r == pool_leases(*m).len(),
{
    m.len()
}

/// Relies on dashmap::DashMap::iter: yields each entry exactly once;
/// the entries are cloned out to plain pairs. No order is promised.
#[verifier::external_body]
fn pool_store_entries(m: &PoolStore) -> (r: Vec<(String, ConnectionInfo)>)
    requires
        pool_leases(*m).dom().finite(),
    ensures
        r@.len() == pool_leases(*m).len(),
        forall|j: int|
            0 <= j < r@.len() ==> pool_leases(*m).dom().contains((#[trigger] r@[j]).0@)
                && pool_leases(*m)[r@[j].0@] == r@[j].1,
        forall|j1: int, j2: int| 0 <= j1 < j2 < r@.len() ==> r@[j1].0@ != r@[j2].0@,
        forall|k: Seq<char>|
            #[trigger] pool_leases(*m).dom().contains(k) ==> exists|j: int|
                0 <= j < r@.len() && (#[trigger] r@[j]).0@ == k,
{
    m.iter().map(|e| (e.key().clone(), e.value().clone())).collect()
}

/// Relies on uuid::Uuid::new_v4 and its string form: a fresh random
/// lease key. Nothing is promised of the value: the pool's contracts
/// hold whatever key comes back.
#[verifier::external_body]
fn fresh_lease_key() -> (r: String)
{
    uuid::Uuid::new_v4().to_string()
}

/// Whether a lease has gone unused past the staleness threshold.
pub open spec fn is_stale(info: ConnectionInfo, now_ms: u64) -> bool {
    now_ms - info.last_used_ms > STALE_THRESHOLD_MS
}

/// The leases that survive a reclamation sweep at `now_ms`.
pub open spec fn live_leases(
    m: Map<Seq<char>, ConnectionInfo>,
    now_ms: u64,
) -> Map<Seq<char>, ConnectionInfo> {
    Map::new(|k: Seq<char>| m.dom().contains(k) && !is_stale(m[k], now_ms), |k: Seq<char>| m[k])
}

/// The book-keeping of a lease handed out at `now_ms`.
pub open spec fn fresh_lease(now_ms: u64) -> ConnectionInfo {
    ConnectionInfo { created_at_ms: now_ms, last_used_ms: now_ms, request_count: 0, success_count: 0 }
}

/// A lease's book-keeping after one more request.
pub open spec fn updated_lease(info: ConnectionInfo, success: bool, now_ms: u64) -> ConnectionInfo {
    ConnectionInfo {
        created_at_ms: info.created_at_ms,
        last_used_ms: now_ms,
        request_count: if info.request_count < u64::MAX {
            (info.request_count + 1) as u64
        } else {
            u64::MAX
        },
        success_count: if success && info.success_count < u64::MAX {
            (info.success_count + 1) as u64
        } else {
            info.success_count
        },
    }
}

/// The bounded pool of connection leases, guarded against floods.
pub struct NetworkProtection {
    pub connection_pool: PoolStore,
    pub max_connections: u64,
    pub flood_detection: FloodDetector,
}

impl NetworkProtection {
    /// The pool's view: the lease recorded under each key.
    pub open spec fn leases(&self) -> Map<Seq<char>, ConnectionInfo> {
        pool_leases(self.connection_pool)
    }

    /// The pool invariant: finitely many leases, never more than the
    /// cap, each with no more successes than requests.
    pub open spec fn wf(&self) -> bool {
        &&& self.flood_detection.wf()
        &&& self.leases().dom().finite()
        &&& self.leases().len() <= self.max_connections
        &&& forall|k: Seq<char>|
            self.leases().dom().contains(k) ==> (#[trigger] self.leases()[k]).success_count
                <= self.leases()[k].request_count
    }

    /// An empty pool with the stock lease cap.
    pub fn new() -> (r: Self)
        ensures
            r.wf(),
            r.max_connections == DEFAULT_MAX_CONNECTIONS,
            r.leases() == no_leases(),
            r.flood_detection.windows() == no_windows(),
    {
        NetworkProtection {
            connection_pool: pool_store_new(),
            max_connections: DEFAULT_MAX_CONNECTIONS,
            flood_detection: FloodDetector::new(),
        }
    }

    /// An empty pool handing out at most `max_connections` leases.
    pub fn with_max_connections(max_connections: u64) -> (r: Self)
        ensures
            r.wf(),
            r.max_connections == max_connections,
            r.leases() == no_leases(),
            r.flood_detection.windows() == no_windows(),
    {
        NetworkProtection {
            connection_pool: pool_store_new(),
            max_connections,
            flood_detection: FloodDetector::new(),
        }
    }

    /// Drop every lease unused past the staleness threshold. Reclamation
    /// is lazy: only acquisition pressure triggers it.
    fn cleanup_stale_connections(&mut self, now_ms: u64)
        requires
            old(self).leases().dom().finite(),
        ensures
            final(self).leases() == live_leases(old(self).leases(), now_ms),
            final(self).leases().dom().finite(),
            final(self).max_connections == old(self).max_connections,
            final(self).flood_detection == old(self).flood_detection,
    {
        let entries: Vec<(String, ConnectionInfo)> = pool_store_entries(&self.connection_pool);
        let ghost m0 = pool_leases(self.connection_pool);
        let n: usize = entries.len();
        let mut i: usize = 0;
        while i < n
            invariant
                0 <= i <= n,
                n == entries@.len(),
                forall|j: int|
                    0 <= j < n ==> m0.dom().contains((#[trigger] entries@[j]).0@)
                        && m0[entries@[j].0@] == entries@[j].1,
                forall|j1: int, j2: int| 0 <= j1 < j2 < n ==> entries@[j1].0@ != entries@[j2].0@,
                forall|k: Seq<char>|
                    #[trigger] m0.dom().contains(k) ==> exists|j: int|
                        0 <= j < n && (#[trigger] entries@[j]).0@ == k,
                pool_leases(self.connection_pool).dom().finite(),
                forall|k: Seq<char>|
                    #[trigger] pool_leases(self.connection_pool).dom().contains(k)
                        ==> m0.dom().contains(k) && pool_leases(self.connection_pool)[k] == m0[k],
                forall|k: Seq<char>|
                    m0.dom().contains(k) ==> (#[trigger] pool_leases(
                        self.connection_pool,
                    ).dom().contains(k) <==> (!is_stale(m0[k], now_ms) || forall|j: int|
                        0 <= j < i ==> (#[trigger] entries@[j]).0@ != k)),
                self.max_connections == old(self).max_connections,
                self.flood_detection == old(self).flood_detection,
            decreases n - i,
        {
            let info: ConnectionInfo = entries[i].1;
            let stale: bool = now_ms > info.last_used_ms && now_ms - info.last_used_ms
                > STALE_THRESHOLD_MS;
            if stale {
                pool_store_remove(&mut self.connection_pool, &entries[i].0);
            }
            i = i + 1;
        }
        proof {
            assert(pool_leases(self.connection_pool) =~= live_leases(m0, now_ms));
        }
    }

    /// Acquire a lease for an endpoint.
    ///
    /// The flood guard records the admission first. At capacity, a
    /// reclamation sweep runs; if the pool is still full afterwards the
    /// acquisition fails with resource exhaustion — exactly then — and
    /// otherwise a fresh lease is stored under a new key and that key
    /// returned.
    pub fn acquire_connection(&mut self, endpoint: &str, now_ms: u64) -> (r: Result<
        String,
        BotError,
    >)
        requires
            old(self).wf(),
        ensures
            final(self).wf(),
            final(self).max_connections == old(self).max_connections,
            final(self).flood_detection.windows() == old(self).flood_detection.windows().insert(
                endpoint@,
                window_after_check(
                    old(self).flood_detection.windows(),
                    endpoint@,
                    now_ms,
                    FLOOD_TIME_WINDOW_MS,
                ),
            ),
            ({
                let swept = if old(self).leases().len() >= old(self).max_connections {
                    live_leases(old(self).leases(), now_ms)
                } else {
                    old(self).leases()
                };
                &&& (r is Err <==> swept.len() >= old(self).max_connections)
                &&& (r is Err ==> r->Err_0 == BotError::ResourceExhausted && final(self).leases()
                    == swept)
                &&& (r is Ok ==> final(self).leases() == swept.insert(
                    r->Ok_0@,
                    fresh_lease(now_ms),
                ) && swept.len() < old(self).max_connections)
            }),
    {
        let _flooding: bool = self.flood_detection.is_flooding(endpoint, now_ms);
        let ghost m0 = self.leases();
        let count: usize = pool_store_len(&self.connection_pool);
        if count as u64 >= self.max_connections {
            self.cleanup_stale_connections(now_ms);
            proof {
                lemma_live_leases_shrink(m0, now_ms);
            }
            let count2: usize = pool_store_len(&self.connection_pool);
            if count2 as u64 >= self.max_connections {
                return Err(BotError::ResourceExhausted);
            }
        }
        let key: String = fresh_lease_key();
        pool_store_insert(
            &mut self.connection_pool,
            key.clone(),
            ConnectionInfo {
                created_at_ms: now_ms,
                last_used_ms: now_ms,
                request_count: 0,
                success_count: 0,
            },
        );
        Ok(key)
    }

    /// Hand a lease back: its entry is dropped, whether or not it was
    /// still present.
    pub fn release_connection(&mut self, connection_id: &str)
        requires
            old(self).wf(),
        ensures
            final(self).wf(),
            final(self).leases() == old(self).leases().remove(connection_id@),
            final(self).max_connections == old(self).max_connections,
            final(self).flood_detection == old(self).flood_detection,
    {
        let owned: String = connection_id.to_owned();
        pool_store_remove(&mut self.connection_pool, &owned);
        proof {
            lemma_remove_len(old(self).leases(), connection_id@);
        }
    }

    /// Record one request on a lease: refreshes its last-used time and
    /// its counters (saturating at their width). An unknown lease is
    /// left alone.
    pub fn update_connection_stats(&mut self, connection_id: &str, success: bool, now_ms: u64)
        requires
            old(self).wf(),
        ensures
            final(self).wf(),
            final(self).max_connections == old(self).max_connections,
            final(self).flood_detection == old(self).flood_detection,
            old(self).leases().dom().contains(connection_id@) ==> final(self).leases() == old(
                self,
            ).leases().insert(
                connection_id@,
                updated_lease(old(self).leases()[connection_id@], success, now_ms),
            ),
            !old(self).leases().dom().contains(connection_id@) ==> final(self).leases() == old(
                self,
            ).leases(),
    {
        let owned: String = connection_id.to_owned();
        let prev: Option<(String, ConnectionInfo)> = pool_store_remove(
            &mut self.connection_pool,
            &owned,
        );
        match prev {
            Some(p) => {
                let info: ConnectionInfo = p.1;
                let requests: u64 = if info.request_count < u64::MAX {
                    info.request_count + 1
                } else {
                    u64::MAX
                };
                let successes: u64 = if success && info.success_count < u64::MAX {
                    info.success_count + 1
                } else {
                    info.success_count
                };
                pool_store_insert(
                    &mut self.connection_pool,
                    owned,
                    ConnectionInfo {
                        created_at_ms: info.created_at_ms,
                        last_used_ms: now_ms,
                        request_count: requests,
                        success_count: successes,
                    },
                );
                proof {
                    assert(pool_leases(self.connection_pool) =~= old(self).leases().insert(
                        connection_id@,
                        updated_lease(old(self).leases()[connection_id@], success, now_ms),
                    ));
                    lemma_insert_len(old(self).leases(), connection_id@, updated_lease(
                        old(self).leases()[connection_id@],
                        success,
                        now_ms,
                    ));
                }
            },
            None => {
                proof {
                    assert(pool_leases(self.connection_pool) =~= old(self).leases());
                }
            },
        }
    }
}

impl Default for NetworkProtection {
    fn default() -> (r: Self)
        ensures
            r.wf(),
            r.max_connections == DEFAULT_MAX_CONNECTIONS,
            r.leases() == no_leases(),
    {
        NetworkProtection::new()
    }
}

/// Reclamation never grows the pool: the survivors are a subset of the
/// old leases.
pub proof fn lemma_live_leases_shrink(m: Map<Seq<char>, ConnectionInfo>, now_ms: u64)
    requires
        m.dom().finite(),
    ensures
        live_leases(m, now_ms).dom().finite(),
        live_leases(m, now_ms).len() <= m.len(),
{
    let live = live_leases(m, now_ms);
    assert(live.dom() <= m.dom());
    vstd::set_lib::lemma_len_subset(live.dom(), m.dom());
}

/// Reclamation recovers capacity: as soon as one lease is stale, the
/// sweep leaves strictly fewer leases than before, so an acquisition at
/// the cap succeeds again.
pub proof fn lemma_reclamation_recovers(
    m: Map<Seq<char>, ConnectionInfo>,
    now_ms: u64,
    k: Seq<char>,
)
    requires
        m.dom().finite(),
        m.dom().contains(k),
        is_stale(m[k], now_ms),
    ensures
        live_leases(m, now_ms).len() < m.len(),
{
    let live = live_leases(m, now_ms);
    assert(live.dom() <= m.dom());
    assert(!live.dom().contains(k));
    live.dom().lemma_subset_not_in_lt(m.dom(), k);
}

/// Removing a key never grows a finite map.
proof fn lemma_remove_len(m: Map<Seq<char>, ConnectionInfo>, k: Seq<char>)
    requires
        m.dom().finite(),
    ensures
        m.remove(k).dom().finite(),
        m.remove(k).len() <= m.len(),
{
    assert(m.remove(k).dom() <= m.dom());
    vstd::set_lib::lemma_len_subset(m.remove(k).dom(), m.dom());
}

/// Overwriting a present key keeps a finite map's size.
proof fn lemma_insert_len(m: Map<Seq<char>, ConnectionInfo>, k: Seq<char>, v: ConnectionInfo)
    requires
        m.dom().finite(),
        m.dom().contains(k),
    ensures
        m.insert(k, v).dom().finite(),
        m.insert(k, v).len() == m.len(),
{
    assert(m.insert(k, v).dom() =~= m.dom());
}

} // verus!

verus! {

/// Sum of a per-lease weight over a finite lease map, independent of
/// any iteration order.
pub open spec fn sum_weight(
    m: Map<Seq<char>, ConnectionInfo>,
    f: spec_fn(ConnectionInfo) -> int,
) -> int
    decreases m.dom().len(),
    when m.dom().finite()
{
    if m.dom().len() == 0 {
        0
    } else {
        let k = m.dom().choose();
        f(m[k]) + sum_weight(m.remove(k), f)
    }
}

/// The weight of each lease, requests.
pub open spec fn request_weight() -> spec_fn(ConnectionInfo) -> int {
    |info: ConnectionInfo| info.request_count as int
}

/// The weight of each lease, successes.
pub open spec fn success_weight() -> spec_fn(ConnectionInfo) -> int {
    |info: ConnectionInfo| info.success_count as int
}

/// Total requests recorded over all current leases.
pub open spec fn total_requests(m: Map<Seq<char>, ConnectionInfo>) -> int {
    sum_weight(m, request_weight())
}

/// Total successes recorded over all current leases.
pub open spec fn total_successes(m: Map<Seq<char>, ConnectionInfo>) -> int {
    sum_weight(m, success_weight())
}

/// Aggregate success rate in parts per thousand; zero while nothing has
/// been recorded. Each total is held at the machine-word maximum before
/// the division, which leaves any realistic pool untouched.
pub open spec fn success_rate_permille(m: Map<Seq<char>, ConnectionInfo>) -> int {
    let req = total_requests(m);
    let suc = total_successes(m);
    if req > 0 {
        (clamp_word(suc) * 1000) / clamp_word(req)
    } else {
        0
    }
}

/// A total held at the machine-word maximum.
pub open spec fn clamp_word(x: int) -> int {
    if x > u64::MAX {
        u64::MAX as int
    } else {
        x
    }
}

/// Taking any present key's weight out of the sum leaves the sum of the
/// rest: the sum does not depend on which key is peeled first.
pub proof fn lemma_sum_weight_remove(
    m: Map<Seq<char>, ConnectionInfo>,
    f: spec_fn(ConnectionInfo) -> int,
    k: Seq<char>,
)
    requires
        m.dom().finite(),
        m.dom().contains(k),
    ensures
        sum_weight(m, f) == f(m[k]) + sum_weight(m.remove(k), f),
    decreases m.dom().len(),
{
    let c = m.dom().choose();
    if c == k {
    } else {
        lemma_sum_weight_remove(m.remove(c), f, k);
        lemma_sum_weight_remove(m.remove(k), f, c);
        assert(m.remove(c).remove(k) =~= m.remove(k).remove(c));
        assert(m.remove(c)[k] == m[k]);
        assert(m.remove(k)[c] == m[c]);
    }
}

/// A pointwise bound between two weights carries over to their sums.
pub proof fn lemma_sum_weight_le(
    m: Map<Seq<char>, ConnectionInfo>,
    f: spec_fn(ConnectionInfo) -> int,
    g: spec_fn(ConnectionInfo) -> int,
)
    requires
        m.dom().finite(),
        forall|k: Seq<char>| m.dom().contains(k) ==> f(#[trigger] m[k]) <= g(m[k]),
    ensures
        sum_weight(m, f) <= sum_weight(m, g),
    decreases m.dom().len(),
{
    if m.dom().len() != 0 {
        let c = m.dom().choose();
        lemma_sum_weight_le(m.remove(c), f, g);
    }
}

/// A nonnegative weight sums to a nonnegative total.
pub proof fn lemma_sum_weight_nonneg(
    m: Map<Seq<char>, ConnectionInfo>,
    f: spec_fn(ConnectionInfo) -> int,
)
    requires
        m.dom().finite(),
        forall|k: Seq<char>| m.dom().contains(k) ==> f(#[trigger] m[k]) >= 0,
    ensures
        sum_weight(m, f) >= 0,
    decreases m.dom().len(),
{
    if m.dom().len() != 0 {
        let c = m.dom().choose();
        lemma_sum_weight_nonneg(m.remove(c), f);
    }
}

impl NetworkProtection {
    /// How the pool is doing: how many leases are out, and the
    /// aggregate success rate over them in parts per thousand.
    pub fn get_connection_stats(&self) -> (r: (usize, u64))
        requires
            self.wf(),
        ensures
            r.0 == self.leases().len(),
            r.1 == success_rate_permille(self.leases()),
    {
        let entries: Vec<(String, ConnectionInfo)> = pool_store_entries(&self.connection_pool);
        let ghost m0 = self.leases();
        let n: usize = entries.len();
        let ghost freq = request_weight();
        let ghost fsuc = success_weight();
        let mut acc_req: u128 = 0;
        let mut acc_suc: u128 = 0;
        let ghost mut rem = m0;
        let mut i: usize = 0;
        while i < n
            invariant
                0 <= i <= n,
                n == entries@.len(),
                m0.dom().finite(),
                freq == request_weight(),
                fsuc == success_weight(),
                forall|j: int|
                    0 <= j < n ==> m0.dom().contains((#[trigger] entries@[j]).0@)
                        && m0[entries@[j].0@] == entries@[j].1,
                forall|j1: int, j2: int| 0 <= j1 < j2 < n ==> entries@[j1].0@ != entries@[j2].0@,
                rem.dom().finite(),
                forall|k: Seq<char>|
                    #[trigger] rem.dom().contains(k) <==> (m0.dom().contains(k) && forall|j: int|
                        0 <= j < i ==> (#[trigger] entries@[j]).0@ != k),
                forall|k: Seq<char>| rem.dom().contains(k) ==> #[trigger] rem[k] == m0[k],
                acc_req == sum_weight(m0, freq) - sum_weight(rem, freq),
                acc_suc == sum_weight(m0, fsuc) - sum_weight(rem, fsuc),
                acc_req <= i * (u64::MAX as int),
                acc_suc <= i * (u64::MAX as int),
            decreases n - i,
        {
            let info: ConnectionInfo = entries[i].1;
            proof {
                assert(rem.dom().contains(entries@[i as int].0@));
                lemma_sum_weight_remove(rem, freq, entries@[i as int].0@);
                lemma_sum_weight_remove(rem, fsuc, entries@[i as int].0@);
                lemma_sum_weight_nonneg(
                    rem.remove(entries@[i as int].0@),
                    freq,
                );
                lemma_sum_weight_nonneg(
                    rem.remove(entries@[i as int].0@),
                    fsuc,
                );
                assert((i + 1) * (u64::MAX as int) == i * (u64::MAX as int) + u64::MAX)
                    by (nonlinear_arith);
            }
            acc_req = acc_req + info.request_count as u128;
            acc_suc = acc_suc + info.success_count as u128;
            proof {
                rem = rem.remove(entries@[i as int].0@);
            }
            i = i + 1;
        }
        proof {
            assert forall|k: Seq<char>| !rem.dom().contains(k) by {
                if m0.dom().contains(k) {
                    assert(exists|j: int|
                        0 <= j < n && (#[trigger] entries@[j]).0@ == k);
                }
            }
            assert(rem =~= Map::<Seq<char>, ConnectionInfo>::empty());
            assert(sum_weight(rem, freq) == 0);
            assert(sum_weight(rem, fsuc) == 0);
            lemma_sum_weight_le(m0, fsuc, freq);
            lemma_sum_weight_nonneg(m0, fsuc);
        }
        let req64: u64 = if acc_req > u64::MAX as u128 {
            u64::MAX
        } else {
            acc_req as u64
        };
        let suc64: u64 = if acc_suc > u64::MAX as u128 {
            u64::MAX
        } else {
            acc_suc as u64
        };
        let rate: u64 = if req64 > 0 {
            proof {
                assert((suc64 as int) * 1000 <= (u64::MAX as int) * 1000) by (nonlinear_arith)
                    requires
                        suc64 <= u64::MAX,
                ;
                assert((suc64 as int) * 1000 / (req64 as int) <= 1000) by (nonlinear_arith)
                    requires
                        0 < req64,
                        suc64 <= req64,
                ;
            }
            ((suc64 as u128) * 1000 / (req64 as u128)) as u64
        } else {
            0
        };
        (n, rate)
    }
}

} // verus!
