use ledger_race::errors::BotError;
use ledger_race::network_protection::{FloodDetector, NetworkProtection};
use ledger_race::rate_limiter::RateLimiter;

#[test]
fn flood_calm_below_threshold() {
    let mut guard = FloodDetector::new();
    for i in 0..100u64 {
        assert!(!guard.is_flooding("endpoint", i));
    }
}

#[test]
fn flood_detected_above_threshold() {
    let mut guard = FloodDetector::new();
    for i in 0..100u64 {
        assert!(!guard.is_flooding("endpoint", i));
    }
    assert!(guard.is_flooding("endpoint", 100));
    assert!(guard.is_flooding("endpoint", 101));
}

#[test]
fn flood_clears_after_window() {
    let mut guard = FloodDetector::new();
    for i in 0..101u64 {
        guard.is_flooding("endpoint", i);
    }
    assert!(guard.is_flooding("endpoint", 101));
    // The whole window elapses with no further checks: every stored
    // timestamp is pruned and the endpoint is calm again.
    assert!(!guard.is_flooding("endpoint", 5_000));
}

#[test]
fn flood_keys_are_independent(){
    let mut guard = FloodDetector::new();
    for i in 0..150u64 {
        guard.is_flooding("hot", i);
    }
    assert!(guard.is_flooding("hot", 150));
    assert!(!guard.is_flooding("cold", 150));
}

#[test]
fn wait_if_flooding_advises_one_pulse() {
    let mut guard = FloodDetector::new();
    for i in 0..100u64 {
        assert_eq!(guard.wait_if_flooding("endpoint", i), None);
    }
    assert_eq!(guard.wait_if_flooding("endpoint", 100), Some(100));
}

#[test]
fn pool_exhausted_at_capacity() {
    let mut pool = NetworkProtection::with_max_connections(3);
    let a = pool.acquire_connection("ep", 0).unwrap();
    let b = pool.acquire_connection("ep", 0).unwrap();
    let c = pool.acquire_connection("ep", 0).unwrap();
    assert_ne!(a, b);
    assert_ne!(b, c);
    // At capacity with nothing stale, acquisition must fail.
    assert_eq!(pool.acquire_connection("ep", 10), Err(BotError::ResourceExhausted));
    let (count, _) = pool.get_connection_stats();
    assert_eq!(count, 3);
}

#[test]
fn pool_reclaims_stale_leases() {
    let mut pool = NetworkProtection::with_max_connections(3);
    let a = pool.acquire_connection("ep", 0).unwrap();
    let _b = pool.acquire_connection("ep", 0).unwrap();
    let _c = pool.acquire_connection("ep", 0).unwrap();
    // Keep one lease fresh; the other two idle from time zero.
    pool.update_connection_stats(&a, true, 20_000);
    assert_eq!(pool.acquire_connection("ep", 25_000), Err(BotError::ResourceExhausted));
    // Past the staleness threshold for the idle two, acquisition
    // pressure triggers reclamation and capacity is recovered.
    let d = pool.acquire_connection("ep", 30_001);
    assert!(d.is_ok());
    let (count, _) = pool.get_connection_stats();
    assert_eq!(count, 2);
}

#[test]
fn pool_release_frees_capacity() {
    let mut pool = NetworkProtection::with_max_connections(1);
    let a = pool.acquire_connection("ep", 0).unwrap();
    assert!(pool.acquire_connection("ep", 0).is_err());
    pool.release_connection(&a);
    assert!(pool.acquire_connection("ep", 0).is_ok());
}

#[test]
fn pool_stats_track_success_rate() {
    let mut pool = NetworkProtection::with_max_connections(10);
    let a = pool.acquire_connection("ep", 0).unwrap();
    pool.update_connection_stats(&a, true, 1);
    pool.update_connection_stats(&a, true, 2);
    pool.update_connection_stats(&a, false, 3);
    let (count, rate_permille) = pool.get_connection_stats();
    assert_eq!(count, 1);
    assert_eq!(rate_permille, 666);
}

#[test]
fn pool_stats_empty_rate_is_zero() {
    let pool = NetworkProtection::new();
    assert_eq!(pool.get_connection_stats(), (0, 0));
}

#[test]
fn rate_limiter_burst_then_denied() {
    let mut limiter = RateLimiter::new();
    for _ in 0..1000 {
        assert!(limiter.check_claiming_rate("key", 0));
    }
    assert!(!limiter.check_claiming_rate("key", 0));
}

#[test]
fn rate_limiter_domains_independent() {
    let mut limiter = RateLimiter::new();
    for _ in 0..500 {
        assert!(limiter.check_transfer_rate("key", 0));
    }
    assert!(!limiter.check_transfer_rate("key", 0));
    assert!(limiter.check_claiming_rate("key", 0));
    assert!(limiter.check_api_rate("key", 0));
}

#[test]
fn rate_limiter_replenishes_over_time() {
    let mut limiter = RateLimiter::new();
    for _ in 0..1000 {
        limiter.check_claiming_rate("key", 0);
    }
    assert!(!limiter.check_claiming_rate("key", 0));
    // One millisecond replenishes one token at 1000 per second.
    assert!(limiter.check_claiming_rate("key", 1));
}

#[test]
fn wait_for_slot_returns_within_bound() {
    let mut limiter = RateLimiter::new();
    for _ in 0..1000 {
        limiter.check_claiming_rate("key", 0);
    }
    assert!(!limiter.check_claiming_rate("key", 0));
    let slot = limiter.wait_for_claiming_slot("key", 0);
    assert!(slot > 0 && slot <= 1000);
    let transfer_slot = limiter.wait_for_transfer_slot("fresh", 0);
    assert_eq!(transfer_slot, 0);
}
