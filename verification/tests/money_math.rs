use pythpredict::errors::PredictionMarketError;
use pythpredict::state::{calculate_fee, calculate_payout};

#[test]
fn test_u64_max_calculations() {
    let result = calculate_payout(u64::MAX, u64::MAX, u64::MAX);
    assert!(result.is_err());

    let result = calculate_fee(u64::MAX, u64::MAX);
    assert!(result.is_err());

    let result = calculate_payout(u64::MAX / 2, u64::MAX / 2, u64::MAX / 2);
    assert!(result.is_ok());
}

#[test]
fn test_zero_edge_cases() {
    let result = calculate_payout(0, 0, 0);
    assert!(result.is_err());

    let result = calculate_payout(0, 1000, 1000);
    assert_eq!(result.unwrap(), 0);

    let result = calculate_fee(0, 100);
    assert_eq!(result.unwrap(), (0, 0));
}

#[test]
fn test_one_wei_precision() {
    let result = calculate_payout(1, 1, 1);
    assert_eq!(result.unwrap(), 2);

    let result = calculate_payout(1, 1000000000, 1);
    assert_eq!(result.unwrap(), 1);

    let result = calculate_fee(1, 10000);
    assert_eq!(result.unwrap(), (1, 0));
}

#[test]
fn test_calculate_payout_all_scenarios() {
    // Normal case
    assert_eq!(calculate_payout(100, 1000, 500).unwrap(), 150);

    // No losing bets
    assert_eq!(calculate_payout(100, 1000, 0).unwrap(), 100);

    // Equal pools
    assert_eq!(calculate_payout(100, 1000, 1000).unwrap(), 200);

    // Small winning pool
    assert_eq!(calculate_payout(1, 10, 1000).unwrap(), 101);

    // Large numbers
    assert_eq!(calculate_payout(1_000_000, 10_000_000, 5_000_000).unwrap(), 1_500_000);

    // No winning pool (error case)
    assert!(calculate_payout(100, 0, 1000).is_err());

    // Overflow case
    assert!(calculate_payout(u64::MAX, u64::MAX, u64::MAX).is_err());
}

#[test]
fn test_calculate_fee_all_scenarios() {
    // Standard fees
    let (fee, after) = calculate_fee(10000, 100).unwrap();
    assert_eq!(fee, 100);
    assert_eq!(after, 9900);

    // Zero fee
    let (fee, after) = calculate_fee(10000, 0).unwrap();
    assert_eq!(fee, 0);
    assert_eq!(after, 10000);

    // Max fee (100%)
    let (fee, after) = calculate_fee(10000, 10000).unwrap();
    assert_eq!(fee, 10000);
    assert_eq!(after, 0);

    // Small amounts
    let (fee, after) = calculate_fee(1, 100).unwrap();
    assert_eq!(fee, 0);
    assert_eq!(after, 1);

    // Large amounts
    let (fee, after) = calculate_fee(1_000_000_000, 250).unwrap();
    assert_eq!(fee, 25_000_000);
    assert_eq!(after, 975_000_000);

    // Overflow protection
    assert!(calculate_fee(u64::MAX, u64::MAX).is_err());
}

#[test]
fn test_calculate_payout_precision() {
    // Test precision with small amounts
    assert_eq!(calculate_payout(1, 1000000, 1).unwrap(), 1);
    assert_eq!(calculate_payout(1, 1, 1000000).unwrap(), 1000001);

    // Test rounding
    assert_eq!(calculate_payout(3, 10, 7).unwrap(), 5);
    assert_eq!(calculate_payout(7, 10, 3).unwrap(), 9);
}

#[test]
fn test_calculate_fee_precision() {
    let (fee, after) = calculate_fee(99, 100).unwrap();
    assert_eq!(fee, 0);
    assert_eq!(after, 99);

    let (fee, after) = calculate_fee(100, 100).unwrap();
    assert_eq!(fee, 1);
    assert_eq!(after, 99);

    let (fee, after) = calculate_fee(10001, 100).unwrap();
    assert_eq!(fee, 100);
    assert_eq!(after, 9901);
}

#[test]
fn test_calculate_payout_comprehensive() {
    // Normal cases
    assert_eq!(calculate_payout(100, 1000, 500).unwrap(), 150);
    assert_eq!(calculate_payout(200, 1000, 1000).unwrap(), 400);
    assert_eq!(calculate_payout(50, 500, 500).unwrap(), 100);

    // No losing pool
    assert_eq!(calculate_payout(100, 1000, 0).unwrap(), 100);
    assert_eq!(calculate_payout(500, 2000, 0).unwrap(), 500);

    // No winning pool (error)
    assert!(calculate_payout(100, 0, 1000).is_err());

    // Large numbers
    assert_eq!(calculate_payout(1_000_000, 10_000_000, 5_000_000).unwrap(), 1_500_000);

    // Precision test
    assert_eq!(calculate_payout(3, 10, 7).unwrap(), 5);
    assert_eq!(calculate_payout(7, 13, 7).unwrap(), 10);

    // Overflow protection
    assert!(calculate_payout(u64::MAX, u64::MAX, u64::MAX).is_err());
    assert!(calculate_payout(u64::MAX / 2, u64::MAX / 2, u64::MAX / 2).is_ok());
}

#[test]
fn test_calculate_fee_comprehensive() {
    // Standard fees
    let (fee, after) = calculate_fee(10000, 100).unwrap();
    assert_eq!(fee, 100);
    assert_eq!(after, 9900);

    // 2.5% fee
    let (fee, after) = calculate_fee(10000, 250).unwrap();
    assert_eq!(fee, 250);
    assert_eq!(after, 9750);

    // Zero fee
    let (fee, after) = calculate_fee(10000, 0).unwrap();
    assert_eq!(fee, 0);
    assert_eq!(after, 10000);

    // 100% fee
    let (fee, after) = calculate_fee(10000, 10000).unwrap();
    assert_eq!(fee, 10000);
    assert_eq!(after, 0);

    // Small amounts (test rounding)
    let (fee, after) = calculate_fee(1, 100).unwrap();
    assert_eq!(fee, 0);
    assert_eq!(after, 1);

    let (fee, after) = calculate_fee(99, 100).unwrap();
    assert_eq!(fee, 0);
    assert_eq!(after, 99);

    let (fee, after) = calculate_fee(100, 100).unwrap();
    assert_eq!(fee, 1);
    assert_eq!(after, 99);

    // Overflow test
    assert!(calculate_fee(u64::MAX, u64::MAX).is_err());
}

#[test]
fn test_calculate_payout() {
    let result = calculate_payout(100, 1000, 500);
    assert!(result.is_ok());
    assert_eq!(result.unwrap(), 150);

    let result = calculate_payout(100, 1000, 0);
    assert!(result.is_ok());
    assert_eq!(result.unwrap(), 100);

    let result = calculate_payout(100, 0, 1000);
    assert!(result.is_err());
}

#[test]
fn test_calculate_fee() {
    // Test 1% fee (100 basis points)
    let result = calculate_fee(10000, 100);
    assert!(result.is_ok());
    let (fee, amount_after_fee) = result.unwrap();
    assert_eq!(fee, 100);
    assert_eq!(amount_after_fee, 9900);

    // Test 2.5% fee (250 basis points)
    let result = calculate_fee(10000, 250);
    assert!(result.is_ok());
    let (fee, amount_after_fee) = result.unwrap();
    assert_eq!(fee, 250);
    assert_eq!(amount_after_fee, 9750);

    // Test zero fee
    let result = calculate_fee(10000, 0);
    assert!(result.is_ok());
    let (fee, amount_after_fee) = result.unwrap();
    assert_eq!(fee, 0);
    assert_eq!(amount_after_fee, 10000);
}

#[test]
fn test_calculate_payout_overflow() {
    let result = calculate_payout(u64::MAX, u64::MAX, u64::MAX);
    assert!(result.is_err());
}

#[test]
fn test_calculate_fee_overflow() {
    let result = calculate_fee(u64::MAX, u64::MAX);
    assert!(result.is_err());
}

#[test]
fn test_all_users_win() {
    let payout = calculate_payout(100, 1000, 0).unwrap();
    assert_eq!(payout, 100);
}

#[test]
fn test_precision_loss() {
    let payout = calculate_payout(1, 1000000, 1).unwrap();
    assert_eq!(payout, 1);
}

#[test]
fn fee_and_rest_always_make_up_the_amount() {
    let amounts = [0u64, 1, 99, 10_000, 1_000_000, 123_456_789_012, u64::MAX / 3, u64::MAX];
    let rates = [0u64, 1, 100, 250, 9_999, 10_000];
    for amount in amounts {
        for rate in rates {
            let (fee, rest) = calculate_fee(amount, rate).unwrap();
            assert_eq!(fee as u128 + rest as u128, amount as u128);
            assert_eq!(fee as u128, amount as u128 * rate as u128 / 10_000);
        }
    }
}

#[test]
fn fee_is_formed_at_full_width() {
    // The product passes 64 bits; the fee does not.
    assert_eq!(
        calculate_fee(u64::MAX, 100).unwrap(),
        (184_467_440_737_095_516, 18_262_276_632_972_456_099)
    );
    assert_eq!(calculate_fee(u64::MAX, 10_000).unwrap(), (u64::MAX, 0));
}

#[test]
fn fee_above_the_amount_is_an_overflow() {
    assert_eq!(calculate_fee(10_000, 10_001), Err(PredictionMarketError::MathOverflow));
    assert_eq!(calculate_fee(u64::MAX, u64::MAX), Err(PredictionMarketError::MathOverflow));
    // Rounded down, the fee still equals the amount here.
    assert_eq!(calculate_fee(1, 10_001), Ok((1, 0)));
    assert_eq!(calculate_fee(0, u64::MAX), Ok((0, 0)));
}

#[test]
fn payout_without_winners_is_an_invalid_pool() {
    assert_eq!(calculate_payout(100, 0, 1000), Err(PredictionMarketError::InvalidPool));
    assert_eq!(calculate_payout(0, 0, 0), Err(PredictionMarketError::InvalidPool));
}

#[test]
fn payout_fails_exactly_when_it_passes_64_bits() {
    assert_eq!(
        calculate_payout(u64::MAX, u64::MAX, u64::MAX),
        Err(PredictionMarketError::MathOverflow)
    );
    assert_eq!(calculate_payout(u64::MAX, 1, 1), Err(PredictionMarketError::MathOverflow));
    assert_eq!(calculate_payout(u64::MAX / 2, u64::MAX / 2, u64::MAX / 2), Ok(u64::MAX - 1));
    // Twice the greatest stake that still fits.
    assert_eq!(calculate_payout(u64::MAX / 2, 1, 1), Ok(u64::MAX - 1));
    assert_eq!(calculate_payout(u64::MAX / 2 + 1, 1, 1), Err(PredictionMarketError::MathOverflow));
    // The product passes 64 bits; the payout does not.
    assert_eq!(calculate_payout(1 << 40, 1 << 40, 1 << 40), Ok(1 << 41));
    assert_eq!(calculate_payout(u64::MAX, u64::MAX, 0), Ok(u64::MAX));
}

#[test]
fn payout_never_falls_as_the_losing_pool_grows() {
    let stakes = [0u64, 1, 7, 100, 1_000_000];
    let winners = [1u64, 3, 10, 1_000, 999_983];
    let losers = [0u64, 1, 2, 7, 10, 500, 1_000, 1_000_000, 1 << 40];
    for stake in stakes {
        for winning in winners {
            let mut last = 0u64;
            for losing in losers {
                let payout = calculate_payout(stake, winning, losing).unwrap();
                assert!(payout >= last);
                assert!(payout >= stake);
                last = payout;
            }
        }
    }
}
