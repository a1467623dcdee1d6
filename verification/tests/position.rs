use pythpredict::state::{Market, MarketCategory, MarketStatus, Position, Pubkey};

fn key(n: u8) -> Pubkey {
    Pubkey::new([n; 32])
}

fn blank_position() -> Position {
    Position {
        market: key(10),
        better: key(11),
        yes_amount: 0,
        no_amount: 0,
        claimed: false,
        entry_odds_yes: 0,
        entry_odds_no: 0,
        bet_timestamp: 0,
        total_invested: 0,
        pending_payout: 0,
    }
}

fn resolved_market(yes_pool: u64, no_pool: u64, fee_bps: u16, winner: u8) -> Market {
    Market {
        creator: key(1),
        pyth_feed: key(2),
        target_price: 50000,
        settle_time: 1234567890,
        yes_pool,
        no_pool,
        collateral_mint: key(3),
        is_resolved: true,
        winning_outcome: Some(winner),
        nonce: 0,
        bump: 254,
        resolver_authority: key(4),
        total_volume: 0,
        fee_bps,
        final_price: Some(55000),
        total_fees_collected: 0,
        fee_collector: key(5),
        oracle_confidence: 500,
        min_bet_amount: 100_000,
        max_bet_amount: 1_000_000_000_000,
        market_status: MarketStatus::Resolved,
        created_at: 0,
        description: [0u8; 128],
        category: MarketCategory::Crypto,
        oracle_last_update: 0,
        emergency_paused: false,
        min_liquidity: 0,
        liquidity_locked_until: 0,
    }
}

#[test]
fn test_position_all_methods() {
    let position = Position { yes_amount: 100, no_amount: 50, claimed: false, ..blank_position() };

    // Test get_total_stake
    assert_eq!(position.get_total_stake(), 150);

    // Test has_position
    assert!(position.has_position());

    // Test get_winning_stake for all outcomes
    assert_eq!(position.get_winning_stake(0), 100);
    assert_eq!(position.get_winning_stake(1), 50);
    assert_eq!(position.get_winning_stake(2), 0);
    assert_eq!(position.get_winning_stake(255), 0);
}

#[test]
fn test_position_edge_cases() {
    // Test empty position
    let empty_position = Position { yes_amount: 0, no_amount: 0, claimed: false, ..blank_position() };
    assert!(!empty_position.has_position());
    assert_eq!(empty_position.get_total_stake(), 0);

    // Test max values
    let max_position =
        Position { yes_amount: u64::MAX, no_amount: u64::MAX, claimed: true, ..blank_position() };
    assert!(max_position.has_position());
    assert_eq!(max_position.get_total_stake(), u64::MAX);
}

#[test]
fn test_position_winning_stake_edge_cases() {
    let position =
        Position { yes_amount: u64::MAX, no_amount: u64::MAX, claimed: false, ..blank_position() };

    // Test all possible u8 values for outcome
    for outcome in 0u8..=255u8 {
        let stake = position.get_winning_stake(outcome);
        match outcome {
            0 => assert_eq!(stake, u64::MAX),
            1 => assert_eq!(stake, u64::MAX),
            _ => assert_eq!(stake, 0),
        }
    }
}

#[test]
fn test_position_methods_comprehensive() {
    // Test empty position
    let pos = Position { yes_amount: 0, no_amount: 0, claimed: false, ..blank_position() };
    assert_eq!(pos.get_total_stake(), 0);
    assert!(!pos.has_position());

    // Test YES only position
    let pos = Position { yes_amount: 1000, no_amount: 0, claimed: false, ..blank_position() };
    assert_eq!(pos.get_total_stake(), 1000);
    assert!(pos.has_position());
    assert_eq!(pos.get_winning_stake(0), 1000);
    assert_eq!(pos.get_winning_stake(1), 0);

    // Test NO only position
    let pos = Position { yes_amount: 0, no_amount: 500, claimed: true, ..blank_position() };
    assert_eq!(pos.get_total_stake(), 500);
    assert!(pos.has_position());
    assert_eq!(pos.get_winning_stake(0), 0);
    assert_eq!(pos.get_winning_stake(1), 500);

    // Test mixed position
    let pos = Position { yes_amount: 300, no_amount: 700, claimed: false, ..blank_position() };
    assert_eq!(pos.get_total_stake(), 1000);
    assert!(pos.has_position());
    assert_eq!(pos.get_winning_stake(0), 300);
    assert_eq!(pos.get_winning_stake(1), 700);
    assert_eq!(pos.get_winning_stake(2), 0);
    assert_eq!(pos.get_winning_stake(255), 0);
}

#[test]
fn test_position_size() {
    assert!(Position::SIZE >= std::mem::size_of::<Position>());
}

#[test]
fn test_get_total_stake() {
    let position = Position { yes_amount: 100, no_amount: 50, claimed: false, ..blank_position() };

    assert_eq!(position.get_total_stake(), 150);
}

#[test]
fn test_has_position() {
    let mut position = Position { yes_amount: 0, no_amount: 0, claimed: false, ..blank_position() };

    assert!(!position.has_position());

    position.yes_amount = 100;
    assert!(position.has_position());

    position.yes_amount = 0;
    position.no_amount = 50;
    assert!(position.has_position());
}

#[test]
fn test_get_winning_stake() {
    let position = Position { yes_amount: 100, no_amount: 50, claimed: false, ..blank_position() };

    assert_eq!(position.get_winning_stake(0), 100);
    assert_eq!(position.get_winning_stake(1), 50);
    assert_eq!(position.get_winning_stake(2), 0);
}

#[test]
fn pending_payout_is_nothing_before_resolution_or_without_a_winning_stake() {
    let position = Position { yes_amount: 100, no_amount: 0, ..blank_position() };
    let open = Market { is_resolved: false, ..resolved_market(1000, 500, 100, 0) };
    assert_eq!(position.calculate_pending_payout(&open), 0);
    let unnamed = Market { winning_outcome: None, ..resolved_market(1000, 500, 100, 0) };
    assert_eq!(position.calculate_pending_payout(&unnamed), 0);
    assert_eq!(position.calculate_pending_payout(&resolved_market(1000, 500, 100, 1)), 0);
    assert_eq!(position.calculate_pending_payout(&resolved_market(1000, 500, 100, 2)), 0);
}

#[test]
fn pending_payout_splits_the_pot_less_the_fee() {
    let position = Position { yes_amount: 100, no_amount: 40, ..blank_position() };
    // The pot of 1500 less 1% is 1485; a tenth of it for a tenth of the winners.
    assert_eq!(position.calculate_pending_payout(&resolved_market(1000, 500, 100, 0)), 148);
    // Without a fee the whole pot is split.
    assert_eq!(position.calculate_pending_payout(&resolved_market(1000, 500, 0, 0)), 150);
    // NO wins: 40 of 500 winners share 1485.
    assert_eq!(position.calculate_pending_payout(&resolved_market(1000, 500, 100, 1)), 118);
    // A fee of the whole leaves nothing.
    assert_eq!(position.calculate_pending_payout(&resolved_market(1000, 500, 10_000, 0)), 0);
    // A fee above the whole leaves nothing either.
    assert_eq!(position.calculate_pending_payout(&resolved_market(1000, 500, 20_000, 0)), 0);
}

#[test]
fn pending_payout_with_an_empty_winning_pool_is_the_stake() {
    let position = Position { yes_amount: 100, no_amount: 0, ..blank_position() };
    assert_eq!(position.calculate_pending_payout(&resolved_market(0, 500, 100, 0)), 100);
}

#[test]
fn pending_payout_wraps_as_the_ledger_does() {
    // The stake is greater than the winning pool, so the share passes 64 bits.
    let position = Position { yes_amount: u64::MAX, no_amount: 0, ..blank_position() };
    let market = resolved_market(2, u64::MAX, 0, 0);
    let share = (u64::MAX as u128) * (u64::MAX as u128) / 2;
    assert_eq!(position.calculate_pending_payout(&market), (share % (1u128 << 64)) as u64);
    // The fee on the pot passes 64 bits and wraps before it is taken off.
    let position = Position { yes_amount: 10, no_amount: 0, ..blank_position() };
    let market = resolved_market(u64::MAX, 0, 60_000, 0);
    let fees = ((u64::MAX as u128) * 60_000 / 10_000) % (1u128 << 64);
    let rest = u64::MAX as u128 - fees;
    assert_eq!(
        position.calculate_pending_payout(&market),
        (10 * rest / u64::MAX as u128) as u64
    );
}
