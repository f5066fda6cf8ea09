use ledger_race::fee_optimizer::{FeeOptimizer, UrgencyLevel};
use ledger_race::types::OptimizedFeeConfig;

#[test]
fn transfer_fee_capped_above_maximum() {
    // Competitor maximum 9,400,000 at nominal congestion: the premium
    // bid is 23,500,000, the large-amount tier lifts it to 35,250,000,
    // and the cap pulls it back to the configured 10,000,000.
    let optimizer = FeeOptimizer::new(0);
    assert_eq!(optimizer.max_competitor_fee(), 9_400_000);
    assert_eq!(optimizer.calculate_optimal_transfer_fee(150_000_000), 10_000_000);
}

#[test]
fn transfer_fee_exact_below_cap() {
    let optimizer = FeeOptimizer {
        config: OptimizedFeeConfig::default(),
        congestion_milli: 1000,
        last_fee_update_ms: 0,
        competitor_fees: vec![1_000_000],
    };
    // 1,000,000 * 2.5, small amount, nominal congestion: no tier, no cap.
    assert_eq!(optimizer.calculate_optimal_transfer_fee(5_000_000), 2_500_000);
}

#[test]
fn transfer_fee_amount_tiers() {
    let optimizer = FeeOptimizer {
        config: OptimizedFeeConfig::default(),
        congestion_milli: 1000,
        last_fee_update_ms: 0,
        competitor_fees: vec![1_000_000],
    };
    assert_eq!(optimizer.calculate_optimal_transfer_fee(10_000_000), 2_500_000);
    assert_eq!(optimizer.calculate_optimal_transfer_fee(10_000_001), 3_000_000);
    assert_eq!(optimizer.calculate_optimal_transfer_fee(100_000_001), 3_750_000);
}

#[test]
fn transfer_fee_empty_history_uses_default() {
    let optimizer = FeeOptimizer {
        config: OptimizedFeeConfig::default(),
        congestion_milli: 1000,
        last_fee_update_ms: 0,
        competitor_fees: vec![],
    };
    assert_eq!(optimizer.max_competitor_fee(), 3_200_000);
    // 3,200,000 * 2.5 = 8,000,000, under the cap.
    assert_eq!(optimizer.calculate_optimal_transfer_fee(1), 8_000_000);
}

#[test]
fn claiming_fee_scales_with_congestion() {
    let mut optimizer = FeeOptimizer::new(0);
    assert_eq!(optimizer.calculate_optimal_claiming_fee(), 1_000_000);
    optimizer.apply_congestion_sample(0, 500);
    assert_eq!(optimizer.congestion_milli, 1250);
    assert_eq!(optimizer.calculate_optimal_claiming_fee(), 1_250_000);
    optimizer.apply_congestion_sample(0, 0);
    assert_eq!(optimizer.congestion_milli, 750);
    assert_eq!(optimizer.calculate_optimal_claiming_fee(), 750_000);
}

#[test]
fn history_capped_at_ten_with_fifo_eviction() {
    let mut optimizer = FeeOptimizer::new(0);
    assert_eq!(optimizer.competitor_fees, vec![3_200_000, 9_400_000]);
    for fee in 1..=9u64 {
        optimizer.add_competitor_fee(fee);
        assert!(optimizer.competitor_fees.len() <= 10);
        assert_eq!(*optimizer.competitor_fees.last().unwrap(), fee);
    }
    // The eleventh entry evicted the oldest: the first recorded fee is
    // gone and the head is now the second one.
    assert_eq!(optimizer.competitor_fees.len(), 10);
    assert_eq!(optimizer.competitor_fees[0], 9_400_000);
    assert_eq!(optimizer.competitor_fees[9], 9);
}

#[test]
fn congestion_refresh_is_throttled() {
    let mut optimizer = FeeOptimizer::new(0);
    optimizer.update_network_congestion(5_000);
    assert_eq!(optimizer.congestion_milli, 1000);
    assert_eq!(optimizer.last_fee_update_ms, 0);
    optimizer.update_network_congestion(10_000);
    assert_eq!(optimizer.congestion_milli, 1000);
    assert_eq!(optimizer.last_fee_update_ms, 0);
    optimizer.update_network_congestion(10_001);
    assert!(optimizer.congestion_milli >= 750 && optimizer.congestion_milli <= 1250);
    assert_eq!(optimizer.last_fee_update_ms, 10_001);
}

#[test]
fn priority_boost_monotone_steps() {
    let optimizer = FeeOptimizer::new(0);
    let low = optimizer.get_priority_boost_fee(UrgencyLevel::Low);
    let medium = optimizer.get_priority_boost_fee(UrgencyLevel::Medium);
    let high = optimizer.get_priority_boost_fee(UrgencyLevel::High);
    let critical = optimizer.get_priority_boost_fee(UrgencyLevel::Critical);
    assert_eq!(low, 0);
    assert_eq!(medium, 1_000_000);
    assert_eq!(high, 3_000_000);
    assert_eq!(critical, 7_000_000);
    assert!(low <= medium && medium <= high && high <= critical);
}

#[test]
fn priority_boost_scaled_by_congestion() {
    let mut optimizer = FeeOptimizer::new(0);
    optimizer.apply_congestion_sample(0, 500);
    assert_eq!(optimizer.get_priority_boost_fee(UrgencyLevel::Medium), 1_250_000);
}
