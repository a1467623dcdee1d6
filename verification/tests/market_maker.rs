use pythpredict::state::{MarketMaker, Pubkey};

fn key(n: u8) -> Pubkey {
    Pubkey::new([n; 32])
}

fn maker(target_spread_bps: u64, max_exposure: u64) -> MarketMaker {
    MarketMaker {
        market: key(1),
        authority: key(2),
        target_spread_bps,
        max_exposure,
        current_exposure: 0,
        total_volume_provided: 0,
        fees_earned: 0,
        last_rebalance: 0,
        is_active: true,
    }
}

#[test]
fn test_should_rebalance_all_scenarios() {
    let mm = maker(500, 10000);

    // Test 1: Balanced pools - no rebalance
    assert!(!mm.should_rebalance(5000, 5000));

    // Test 2: Small imbalance - no rebalance
    assert!(!mm.should_rebalance(5200, 4800));

    // Test 3: Large imbalance - needs rebalance
    assert!(mm.should_rebalance(7000, 3000));

    // Test 4: Empty pools
    assert!(!mm.should_rebalance(0, 0));

    // Test 5: Single-sided pool
    assert!(mm.should_rebalance(10000, 0));
    assert!(mm.should_rebalance(0, 10000));
}

#[test]
fn test_calculate_rebalance_amounts() {
    let mm = maker(500, 10000);

    // Test balanced pools
    let (yes_needed, no_needed) = mm.calculate_rebalance_amounts(5000, 5000);
    assert_eq!(yes_needed, 0);
    assert_eq!(no_needed, 0);

    // Test imbalanced pools
    let (yes_needed, no_needed) = mm.calculate_rebalance_amounts(3000, 7000);
    assert_eq!(yes_needed, 2000);
    assert_eq!(no_needed, 0);

    let (yes_needed, no_needed) = mm.calculate_rebalance_amounts(8000, 2000);
    assert_eq!(yes_needed, 0);
    assert_eq!(no_needed, 3000);

    // Test extreme imbalance
    let (yes_needed, no_needed) = mm.calculate_rebalance_amounts(0, 10000);
    assert_eq!(yes_needed, 5000);
    assert_eq!(no_needed, 0);
}

#[test]
fn test_market_maker_should_rebalance() {
    let mm = maker(500, 10000);

    // Test empty pools
    assert!(!mm.should_rebalance(0, 0));

    // Test balanced pools
    assert!(!mm.should_rebalance(5000, 5000));

    // Test small imbalance (within threshold)
    assert!(!mm.should_rebalance(5200, 4800));

    // Test large imbalance (needs rebalance)
    assert!(mm.should_rebalance(7000, 3000));
    assert!(mm.should_rebalance(2000, 8000));

    // Test extreme cases
    assert!(mm.should_rebalance(10000, 0));
    assert!(mm.should_rebalance(0, 10000));
    assert!(mm.should_rebalance(9000, 1000));
}

#[test]
fn test_market_maker_calculate_rebalance_amounts() {
    let mm = maker(500, 10000);

    // Test balanced pools
    let (yes, no) = mm.calculate_rebalance_amounts(5000, 5000);
    assert_eq!(yes, 0);
    assert_eq!(no, 0);

    // Test imbalanced - more NO needed
    let (yes, no) = mm.calculate_rebalance_amounts(3000, 7000);
    assert_eq!(yes, 2000);
    assert_eq!(no, 0);

    // Test imbalanced - more YES needed
    let (yes, no) = mm.calculate_rebalance_amounts(8000, 2000);
    assert_eq!(yes, 0);
    assert_eq!(no, 3000);

    // Test extreme imbalance
    let (yes, no) = mm.calculate_rebalance_amounts(0, 10000);
    assert_eq!(yes, 5000);
    assert_eq!(no, 0);

    let (yes, no) = mm.calculate_rebalance_amounts(10000, 0);
    assert_eq!(yes, 0);
    assert_eq!(no, 5000);

    // Test empty pools
    let (yes, no) = mm.calculate_rebalance_amounts(0, 0);
    assert_eq!(yes, 0);
    assert_eq!(no, 0);
}

#[test]
fn rebalance_needs_a_skew_beyond_the_spread() {
    let mm = maker(500, 10000);
    // A YES share of 5500 basis points is at the spread, not beyond it.
    assert!(!mm.should_rebalance(5500, 4500));
    assert!(!mm.should_rebalance(4500, 5500));
    // 5501 basis points is beyond it.
    assert!(mm.should_rebalance(5501, 4499));
    // 4499 basis points likewise.
    assert!(mm.should_rebalance(4499, 5501));
    // The share is rounded down before it is compared: 5500.9 counts as 5500.
    assert!(!mm.should_rebalance(55_009, 44_991));
    assert!(!maker(5000, 10000).should_rebalance(10000, 0));
    assert!(maker(4999, 10000).should_rebalance(10000, 0));
    assert!(maker(0, 10000).should_rebalance(5001, 4999));
    assert!(!maker(0, 10000).should_rebalance(u64::MAX, u64::MAX));
    assert!(mm.should_rebalance(u64::MAX, 1));
}

#[test]
fn rebalance_amount_is_half_the_difference_rounded_down() {
    let mm = maker(500, 10000);
    assert_eq!(mm.calculate_rebalance_amounts(10, 13), (1, 0));
    assert_eq!(mm.calculate_rebalance_amounts(13, 10), (0, 1));
    assert_eq!(mm.calculate_rebalance_amounts(10, 11), (0, 0));
    assert_eq!(mm.calculate_rebalance_amounts(0, u64::MAX), (u64::MAX / 2, 0));
    assert_eq!(mm.calculate_rebalance_amounts(u64::MAX, 0), (0, u64::MAX / 2));
    assert_eq!(mm.calculate_rebalance_amounts(u64::MAX, u64::MAX), (0, 0));
}

#[test]
fn maker_size_covers_its_fields() {
    assert_eq!(MarketMaker::SIZE, 121);
    assert!(MarketMaker::SIZE >= std::mem::size_of::<MarketMaker>());
}
