use ledger_race::retry::{RetryConfig, RetryStrategy};

fn assert_monotone_capped(policy: &RetryStrategy, steps: usize) {
    let mut d = policy.initial_delay_ms;
    assert!(d <= policy.max_delay_ms);
    for _ in 0..steps {
        let next = policy.next_delay(d);
        assert!(next >= d);
        assert!(next <= policy.max_delay_ms);
        d = next;
    }
}

#[test]
fn exponential_preset_monotone() {
    let p = RetryStrategy::exponential_backoff(10, 100, 10);
    assert_monotone_capped(&p, 20);
}

#[test]
fn linear_preset_monotone() {
    let p = RetryStrategy::linear_backoff(7, 70, 5);
    assert_monotone_capped(&p, 20);
}

#[test]
fn fixed_preset_monotone() {
    let p = RetryStrategy::fixed_delay(5, 3);
    assert_monotone_capped(&p, 20);
    assert_eq!(p.next_delay(5), 5);
}

#[test]
fn aggressive_preset_monotone() {
    let p = RetryStrategy::aggressive();
    assert_monotone_capped(&p, 200);
}

#[test]
fn exponential_growth_values() {
    let p = RetryStrategy::exponential_backoff(10, 100, 10);
    assert_eq!(p.next_delay(10), 15);
    assert_eq!(p.next_delay(15), 22);
    assert_eq!(p.next_delay(80), 100);
    assert_eq!(p.next_delay(100), 100);
}

#[test]
fn retry_config_budget() {
    let config = RetryConfig::new(RetryStrategy::exponential_backoff(10, 100, 3));
    assert!(config.should_retry(1));
    assert!(config.should_retry(2));
    assert!(!config.should_retry(3));
    assert_eq!(config.next_delay(10), 15);
}
