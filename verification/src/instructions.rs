//! The operations of the engine: creating a market, taking a bet, resolving,
//! claiming, supplying liquidity and consolidating fees.
//!
//! Each operation decides amounts and state; the host authenticates the
//! caller, supplies the time and moves the amounts that come back. An
//! operation that fails changes nothing.

use vstd::prelude::*;
use crate::errors::PredictionMarketError;
use crate::state::{
    calculate_fee, fee_of, lemma_fee_bounds, pending_payout_of, share_of, total_pot_of,
    wrap_modulus, FeeCollector, FeeDistribution, Market, MarketCategory, MarketMaker,
    MarketParams, MarketStatus, Outcome, Position, Pubkey, NO_TAG, YES_TAG,
};

verus! {

// ---------- Shared guards ----------

/// Whether the status still admits stakes.
pub open spec fn accepts_stakes(status: MarketStatus) -> bool {
    status == MarketStatus::Active || status == MarketStatus::PendingLiquidity
}

/// The record that stakes accumulate into: the given one once it is bound to
/// a market, else a fresh one bound to `market_key` and `better`.
pub open spec fn bound_position(position: Position, market_key: Pubkey, better: Pubkey) -> Position {
    if position.market.is_unset() {
        Position {
            market: market_key,
            better,
            claimed: false,
            yes_amount: 0,
            no_amount: 0,
            total_invested: 0,
            pending_payout: 0,
            ..position
        }
    } else {
        position
    }
}

/// Why a bound record may not take stakes for `better` in the market at
/// `market_key`, if anything: the key is the unset one, which names no
/// market and would leave the record unbound; or the record belongs
/// elsewhere or has been settled.
pub open spec fn position_refusal(
    record: Position,
    market_key: Pubkey,
    better: Pubkey,
) -> Option<PredictionMarketError> {
    if market_key.is_unset() {
        Some(PredictionMarketError::InvalidMarket)
    } else if record.market != market_key {
        Some(PredictionMarketError::InvalidMarket)
    } else if record.better != better {
        Some(PredictionMarketError::InvalidBetter)
    } else if record.claimed {
        Some(PredictionMarketError::AlreadyClaimed)
    } else {
        None
    }
}

/// Binds `position` on first use and holds it against the market and the
/// participant.
fn bind_position(position: &Position, market_key: &Pubkey, better: &Pubkey) -> (r: Result<
    Position,
    PredictionMarketError,
>)
    ensures
        match position_refusal(
            bound_position(*position, *market_key, *better),
            *market_key,
            *better,
        ) {
            Some(e) => r == Err::<Position, PredictionMarketError>(e),
            None => r == Ok::<Position, PredictionMarketError>(
                bound_position(*position, *market_key, *better),
            ),
        },
{
    if market_key.is_default() {
        return Err(PredictionMarketError::InvalidMarket);
    }
    let mut record: Position = *position;
    if position.market.is_default() {
        record.market = *market_key;
        record.better = *better;
        record.claimed = false;
        record.yes_amount = 0;
        record.no_amount = 0;
        record.total_invested = 0;
        record.pending_payout = 0;
    }
    if !record.market.same_as(market_key) {
        return Err(PredictionMarketError::InvalidMarket);
    }
    if !record.better.same_as(better) {
        return Err(PredictionMarketError::InvalidBetter);
    }
    if record.claimed {
        return Err(PredictionMarketError::AlreadyClaimed);
    }
    Ok(record)
}

// ---------- Betting ----------

/// What a bet moves: the fee to the fee custody, the rest to the custody of
/// the chosen side.
#[derive(Clone, Copy, Debug, PartialEq, Eq)]
pub struct BetReceipt {
    pub fee: u64,
    pub amount_after_fee: u64,
}

/// The fee on a bet of `amount` in `market`.
pub open spec fn bet_fee(market: Market, amount: u64) -> int {
    fee_of(amount as int, market.fee_bps as int)
}

/// The first guard that refuses the bet, if any: the state of the market,
/// then the amount, then the participant's record, then the arithmetic.
pub open spec fn bet_refusal(
    market: Market,
    position: Position,
    market_key: Pubkey,
    better: Pubkey,
    amount: u64,
    outcome: Outcome,
    now: i64,
) -> Option<PredictionMarketError> {
    let record = bound_position(position, market_key, better);
    let fee = bet_fee(market, amount);
    let net = amount - fee;
    let staked = match outcome {
        Outcome::Yes => record.yes_amount,
        Outcome::No => record.no_amount,
    };
    if market.is_resolved {
        Some(PredictionMarketError::MarketAlreadyResolved)
    } else if now >= market.settle_time {
        Some(PredictionMarketError::MarketClosed)
    } else if market.emergency_paused {
        Some(PredictionMarketError::MarketPaused)
    } else if !accepts_stakes(market.market_status) {
        Some(PredictionMarketError::MarketNotActive)
    } else if amount == 0 {
        Some(PredictionMarketError::InvalidAmount)
    } else if amount < market.min_bet_amount {
        Some(PredictionMarketError::BetTooSmall)
    } else if amount > market.max_bet_amount {
        Some(PredictionMarketError::BetTooLarge)
    } else if position_refusal(record, market_key, better) is Some {
        position_refusal(record, market_key, better)
    } else if fee > amount || market.total_fees_collected + fee > u64::MAX || market.pool(outcome)
        + net > u64::MAX || staked + net > u64::MAX || record.total_invested + amount > u64::MAX
        || market.total_volume + amount > u64::MAX {
        Some(PredictionMarketError::MathOverflow)
    } else {
        None
    }
}

/// The market once the bet is taken: the fee is accounted, the rest joins the
/// pool of the chosen side, the whole amount counts as volume.
pub open spec fn market_after_bet(market: Market, amount: u64, outcome: Outcome) -> Market {
    let fee = bet_fee(market, amount);
    let net = amount - fee;
    Market {
        total_fees_collected: (market.total_fees_collected + fee) as u64,
        yes_pool: if outcome == Outcome::Yes {
            (market.yes_pool + net) as u64
        } else {
            market.yes_pool
        },
        no_pool: if outcome == Outcome::No {
            (market.no_pool + net) as u64
        } else {
            market.no_pool
        },
        total_volume: (market.total_volume + amount) as u64,
        ..market
    }
}

/// The participant's record once the bet is taken: the stake net of the fee
/// joins the chosen side, the whole amount counts as invested, and the spot
/// prices that the bet met are kept with its time.
pub open spec fn position_after_bet(
    market: Market,
    position: Position,
    market_key: Pubkey,
    better: Pubkey,
    amount: u64,
    outcome: Outcome,
    now: i64,
) -> Position {
    let record = bound_position(position, market_key, better);
    let net = amount - bet_fee(market, amount);
    Position {
        yes_amount: if outcome == Outcome::Yes {
            (record.yes_amount + net) as u64
        } else {
            record.yes_amount
        },
        no_amount: if outcome == Outcome::No {
            (record.no_amount + net) as u64
        } else {
            record.no_amount
        },
        entry_odds_yes: market.spot_prices().0 as u64,
        entry_odds_no: market.spot_prices().1 as u64,
        bet_timestamp: now,
        total_invested: (record.total_invested + amount) as u64,
        ..record
    }
}

/// Takes a bet of `amount` on `outcome` for `better` at time `now`.
///
/// The bet is refused by the first failing guard, and then neither the
/// market nor the record changes. Otherwise both change together, and the
/// receipt says what is to be moved.
pub fn place_bet(
    market: &mut Market,
    position: &mut Position,
    market_key: &Pubkey,
    better: &Pubkey,
    amount: u64,
    outcome: Outcome,
    now: i64,
) -> (r: Result<BetReceipt, PredictionMarketError>)
    ensures
        match bet_refusal(*old(market), *old(position), *market_key, *better, amount, outcome, now) {
            Some(e) => {
                &&& r == Err::<BetReceipt, PredictionMarketError>(e)
                &&& *final(market) == *old(market)
                &&& *final(position) == *old(position)
            },
            None => {
                &&& r is Ok
                &&& r->Ok_0.fee == bet_fee(*old(market), amount)
                &&& r->Ok_0.fee + r->Ok_0.amount_after_fee == amount
                &&& *final(market) == market_after_bet(*old(market), amount, outcome)
                &&& *final(position) == position_after_bet(
                    *old(market),
                    *old(position),
                    *market_key,
                    *better,
                    amount,
                    outcome,
                    now,
                )
            },
        },
        old(market).wf() ==> final(market).wf(),
        old(position).wf() ==> final(position).wf(),
        r is Ok && old(position).market.is_unset() ==> final(position).wf(),
        final(market).follows(*old(market)),
        final(position).follows(*old(position)),
        r is Ok ==> final(position).market == *market_key && !final(position).market.is_unset(),
{
    if market.is_resolved {
        return Err(PredictionMarketError::MarketAlreadyResolved);
    }
    if now >= market.settle_time {
        return Err(PredictionMarketError::MarketClosed);
    }
    if market.emergency_paused {
        return Err(PredictionMarketError::MarketPaused);
    }
    if !matches!(market.market_status, MarketStatus::Active | MarketStatus::PendingLiquidity) {
        return Err(PredictionMarketError::MarketNotActive);
    }
    if amount == 0 {
        return Err(PredictionMarketError::InvalidAmount);
    }
    if amount < market.min_bet_amount {
        return Err(PredictionMarketError::BetTooSmall);
    }
    if amount > market.max_bet_amount {
        return Err(PredictionMarketError::BetTooLarge);
    }
    let record: Position = match bind_position(position, market_key, better) {
        Ok(record) => record,
        Err(e) => {
            return Err(e);
        },
    };
    let (fee, net): (u64, u64) = match calculate_fee(amount, market.fee_bps as u64) {
        Ok(split) => split,
        Err(e) => {
            return Err(e);
        },
    };
    let staked: u64 = match outcome {
        Outcome::Yes => record.yes_amount,
        Outcome::No => record.no_amount,
    };
    let pool: u64 = match outcome {
        Outcome::Yes => market.yes_pool,
        Outcome::No => market.no_pool,
    };
    let fees_collected: Option<u64> = market.total_fees_collected.checked_add(fee);
    let pool_after: Option<u64> = pool.checked_add(net);
    let staked_after: Option<u64> = staked.checked_add(net);
    let invested: Option<u64> = record.total_invested.checked_add(amount);
    let volume: Option<u64> = market.total_volume.checked_add(amount);
    match (fees_collected, pool_after, staked_after, invested, volume) {
        (Some(fees_collected), Some(pool_after), Some(staked_after), Some(invested), Some(volume)) => {
            let (yes_bps, no_bps): (u64, u64) = market.get_spot_prices();
            let mut updated: Position = record;
            match outcome {
                Outcome::Yes => {
                    market.yes_pool = pool_after;
                    updated.yes_amount = staked_after;
                },
                Outcome::No => {
                    market.no_pool = pool_after;
                    updated.no_amount = staked_after;
                },
            }
            market.total_fees_collected = fees_collected;
            market.total_volume = volume;
            updated.entry_odds_yes = yes_bps;
            updated.entry_odds_no = no_bps;
            updated.bet_timestamp = now;
            updated.total_invested = invested;
            *position = updated;
            Ok(BetReceipt { fee, amount_after_fee: net })
        },
        _ => Err(PredictionMarketError::MathOverflow),
    }
}

// ---------- Claim ----------

/// What a claim moves to the participant: the principal out of the custody
/// of the winning side, the profit out of the custody of the losing side.
#[derive(Clone, Copy, Debug, PartialEq, Eq)]
pub struct ClaimReceipt {
    pub winning_outcome: u8,
    pub principal: u64,
    pub profit: u64,
    pub payout: u64,
}

/// The winning stake's share of the losing pool, rounded down; nothing where
/// nobody lost.
pub open spec fn profit_of(stake: int, winning_pool: int, losing_pool: int) -> int
    recommends
        losing_pool > 0 ==> winning_pool > 0,
{
    if losing_pool == 0 {
        0
    } else {
        stake * losing_pool / winning_pool
    }
}

/// The profit that `position` has won in the resolved `market`.
pub open spec fn claim_profit(market: Market, position: Position) -> int
    recommends
        market.winning_outcome is Some,
{
    let tag = market.winning_outcome->0;
    profit_of(
        position.winning_stake(tag) as int,
        market.pool_tagged(tag) as int,
        market.pool_against(tag) as int,
    )
}

/// The first guard that refuses the claim, if any: the record's binding to
/// a market that the key names and to the claimant, the one-time flag, the
/// state of the market, then the arithmetic of a winning claim.
pub open spec fn claim_refusal(
    market: Market,
    position: Position,
    market_key: Pubkey,
    claimer: Pubkey,
) -> Option<PredictionMarketError> {
    if market_key.is_unset() || position.market != market_key {
        Some(PredictionMarketError::InvalidMarket)
    } else if position.better != claimer {
        Some(PredictionMarketError::Unauthorized)
    } else if position.claimed {
        Some(PredictionMarketError::AlreadyClaimed)
    } else if !market.is_resolved {
        Some(PredictionMarketError::MarketNotResolved)
    } else if !position.staked() {
        Some(PredictionMarketError::NoPosition)
    } else if market.winning_outcome is None {
        Some(PredictionMarketError::MarketNotResolved)
    } else {
        let tag = market.winning_outcome->0;
        let stake = position.winning_stake(tag);
        if stake == 0 {
            None
        } else if market.pool_against(tag) != 0 && market.pool_tagged(tag) == 0 {
            Some(PredictionMarketError::MathOverflow)
        } else if stake + claim_profit(market, position) > u64::MAX {
            Some(PredictionMarketError::MathOverflow)
        } else {
            None
        }
    }
}

/// The record once claimed: settled for good, and with nothing pending once
/// a winning stake has been paid.
pub open spec fn position_after_claim(market: Market, position: Position) -> Position
    recommends
        market.winning_outcome is Some,
{
    if position.winning_stake(market.winning_outcome->0) == 0 {
        Position { claimed: true, ..position }
    } else {
        Position { claimed: true, pending_payout: 0, ..position }
    }
}

/// What an accepted claim pays: nothing without a winning stake, else the
/// stake and its share of the losing pool.
pub open spec fn claim_receipt(market: Market, position: Position) -> ClaimReceipt
    recommends
        market.winning_outcome is Some,
{
    let tag = market.winning_outcome->0;
    let stake = position.winning_stake(tag);
    if stake == 0 {
        ClaimReceipt { winning_outcome: tag, principal: 0, profit: 0, payout: 0 }
    } else {
        ClaimReceipt {
            winning_outcome: tag,
            principal: stake,
            profit: claim_profit(market, position) as u64,
            payout: (stake + claim_profit(market, position)) as u64,
        }
    }
}

/// Settles `position` against the resolved `market` for `claimer`.
///
/// A refused claim changes nothing. An accepted one marks the record as
/// claimed, so that no second claim on it is accepted, and says what is to
/// be paid: nothing to a record without a stake on the winning side.
pub fn claim_winnings(
    market: &Market,
    position: &mut Position,
    market_key: &Pubkey,
    claimer: &Pubkey,
) -> (r: Result<ClaimReceipt, PredictionMarketError>)
    ensures
        match claim_refusal(*market, *old(position), *market_key, *claimer) {
            Some(e) => {
                &&& r == Err::<ClaimReceipt, PredictionMarketError>(e)
                &&& *final(position) == *old(position)
            },
            None => {
                &&& r == Ok::<ClaimReceipt, PredictionMarketError>(
                    claim_receipt(*market, *old(position)),
                )
                &&& *final(position) == position_after_claim(*market, *old(position))
                &&& final(position).claimed
                &&& r->Ok_0.payout == r->Ok_0.principal + r->Ok_0.profit
            },
        },
        old(position).claimed ==> r is Err,
        old(position).wf() ==> final(position).wf(),
        final(position).follows(*old(position)),
{
    if market_key.is_default() || !position.market.same_as(market_key) {
        return Err(PredictionMarketError::InvalidMarket);
    }
    if !position.better.same_as(claimer) {
        return Err(PredictionMarketError::Unauthorized);
    }
    if position.claimed {
        return Err(PredictionMarketError::AlreadyClaimed);
    }
    if !market.is_resolved {
        return Err(PredictionMarketError::MarketNotResolved);
    }
    if !position.has_position() {
        return Err(PredictionMarketError::NoPosition);
    }
    let tag: u8 = match market.winning_outcome {
        Some(tag) => tag,
        None => {
            return Err(PredictionMarketError::MarketNotResolved);
        },
    };
    let stake: u64 = position.get_winning_stake(tag);
    if stake == 0 {
        position.claimed = true;
        return Ok(ClaimReceipt { winning_outcome: tag, principal: 0, profit: 0, payout: 0 });
    }
    let (win_pool, lose_pool): (u64, u64) = if tag == YES_TAG {
        (market.yes_pool, market.no_pool)
    } else {
        (market.no_pool, market.yes_pool)
    };
    let profit: u64 = if lose_pool == 0 {
        0
    } else {
        if win_pool == 0 {
            return Err(PredictionMarketError::MathOverflow);
        }
        match share_of(stake, lose_pool as u128, win_pool) {
            Some(profit) => profit,
            None => {
                return Err(PredictionMarketError::MathOverflow);
            },
        }
    };
    let payout: u64 = match stake.checked_add(profit) {
        Some(payout) => payout,
        None => {
            return Err(PredictionMarketError::MathOverflow);
        },
    };
    position.claimed = true;
    position.pending_payout = 0;
    Ok(ClaimReceipt { winning_outcome: tag, principal: stake, profit, payout })
}

/// A record that has been claimed is never paid again: whatever the market
/// and whoever asks, a further claim on it is refused.
pub proof fn lemma_claim_at_most_once(
    market: Market,
    position: Position,
    market_key: Pubkey,
    claimer: Pubkey,
    later_market: Market,
    later_key: Pubkey,
    later_claimer: Pubkey,
)
    requires
        market.winning_outcome is Some,
        claim_refusal(market, position, market_key, claimer) is None,
    ensures
        position_after_claim(market, position).claimed,
        claim_refusal(
            later_market,
            position_after_claim(market, position),
            later_key,
            later_claimer,
        ) is Some,
        claim_refusal(later_market, position_after_claim(market, position), market_key, claimer)
            == Some(PredictionMarketError::AlreadyClaimed),
{
}

/// A winner is paid once and in full. In a resolved market that meets its
/// invariant, an unclaimed record with a winning stake of at most the
/// winning pool is paid the stake and its share of the losing pool, rounded
/// down, and is marked as claimed; a second claim on it is refused, so that
/// all claims together pay what the first one paid.
pub proof fn lemma_winner_is_paid_once(
    market: Market,
    position: Position,
    market_key: Pubkey,
    claimer: Pubkey,
    later_market: Market,
)
    requires
        market.wf(),
        market.is_resolved,
        !market_key.is_unset(),
        position.market == market_key,
        position.better == claimer,
        !position.claimed,
        0 < position.winning_stake(market.winning_outcome->0) <= market.pool_tagged(
            market.winning_outcome->0,
        ),
    ensures
        claim_refusal(market, position, market_key, claimer) is None,
        claim_receipt(market, position).payout == position.winning_stake(
            market.winning_outcome->0,
        ) + profit_of(
            position.winning_stake(market.winning_outcome->0) as int,
            market.pool_tagged(market.winning_outcome->0) as int,
            market.pool_against(market.winning_outcome->0) as int,
        ),
        claim_receipt(market, position).payout == claim_receipt(market, position).principal
            + claim_receipt(market, position).profit,
        position_after_claim(market, position).claimed,
        claim_refusal(later_market, position_after_claim(market, position), market_key, claimer)
            == Some(PredictionMarketError::AlreadyClaimed),
{
    let tag = market.winning_outcome->0;
    let stake = position.winning_stake(tag) as int;
    let win = market.pool_tagged(tag) as int;
    let lose = market.pool_against(tag) as int;
    assert(0 <= stake * lose <= win * lose) by (nonlinear_arith)
        requires
            0 <= stake <= win,
            0 <= lose,
    ;
    vstd::arithmetic::div_mod::lemma_div_is_ordered(0, stake * lose, win);
    vstd::arithmetic::div_mod::lemma_div_is_ordered(stake * lose, win * lose, win);
    vstd::arithmetic::div_mod::lemma_div_multiples_vanish(lose, win);
}

/// Winners of a fully one-sided market get their stake back and no more.
pub proof fn lemma_claim_without_losers(market: Market, position: Position)
    requires
        market.winning_outcome is Some,
        market.pool_against(market.winning_outcome->0) == 0,
    ensures
        claim_profit(market, position) == 0,
        claim_receipt(market, position).payout == position.winning_stake(
            market.winning_outcome->0,
        ),
{
}

/// The projection of a payout never exceeds what a claim pays out of the
/// same pools: at a fee of at most the whole, the pot less the fee, split
/// over the winners, gives a winning stake at most the stake and its share
/// of the losing pool.
pub proof fn lemma_projection_at_most_claim(
    stake: int,
    winning_pool: int,
    losing_pool: int,
    fee_bps: int,
)
    requires
        0 <= stake,
        0 < winning_pool <= u64::MAX,
        0 <= losing_pool,
        0 <= fee_bps <= 10_000,
    ensures
        0 <= pending_payout_of(stake, winning_pool, losing_pool, fee_bps) <= stake + profit_of(
            stake,
            winning_pool,
            losing_pool,
        ),
{
    let total = total_pot_of(winning_pool, losing_pool);
    let charged = total * fee_bps / 10_000;
    lemma_fee_bounds(total, fee_bps);
    assert(charged == fee_of(total, fee_bps));
    vstd::arithmetic::div_mod::lemma_small_mod(charged as nat, wrap_modulus() as nat);
    let distributable = total - charged;
    let split = stake * distributable / winning_pool;
    let whole = stake * (winning_pool + losing_pool);
    assert(0 <= stake * distributable <= whole) by (nonlinear_arith)
        requires
            0 <= stake,
            0 <= distributable <= winning_pool + losing_pool,
            whole == stake * (winning_pool + losing_pool),
    ;
    vstd::arithmetic::div_mod::lemma_div_is_ordered(0, stake * distributable, winning_pool);
    vstd::arithmetic::div_mod::lemma_div_is_ordered(stake * distributable, whole, winning_pool);
    vstd::arithmetic::div_mod::lemma_hoist_over_denominator(
        stake * losing_pool,
        stake,
        winning_pool as nat,
    );
    assert(stake * losing_pool + stake * winning_pool == whole) by (nonlinear_arith)
        requires
            whole == stake * (winning_pool + losing_pool),
    ;
    assert(0 <= stake * losing_pool) by (nonlinear_arith)
        requires
            0 <= stake,
            0 <= losing_pool,
    ;
    if losing_pool == 0 {
        assert(stake * losing_pool == 0) by (nonlinear_arith)
            requires
                losing_pool == 0,
        ;
    }
    vstd::arithmetic::div_mod::lemma_mod_decreases(split as nat, wrap_modulus() as nat);
    vstd::arithmetic::div_mod::lemma_mod_pos_bound(split, wrap_modulus());
}

// ---------- Market-maker liquidity ----------

/// The first guard that refuses the liquidity, if any: the maker's binding
/// and activity, the state of the market, the exposure limit, the
/// provider's record, then the arithmetic.
pub open spec fn liquidity_refusal(
    market: Market,
    market_maker: MarketMaker,
    mm_position: Position,
    market_key: Pubkey,
    provider: Pubkey,
    amount_per_side: u64,
) -> Option<PredictionMarketError> {
    let record = bound_position(mm_position, market_key, provider);
    let both = 2 * amount_per_side;
    if market_maker.market != market_key {
        Some(PredictionMarketError::InvalidMarket)
    } else if !market_maker.is_active {
        Some(PredictionMarketError::MarketNotActive)
    } else if market.is_resolved {
        Some(PredictionMarketError::MarketAlreadyResolved)
    } else if !accepts_stakes(market.market_status) {
        Some(PredictionMarketError::MarketNotActive)
    } else if market_maker.current_exposure + both > market_maker.max_exposure {
        Some(PredictionMarketError::MaxExposureExceeded)
    } else if position_refusal(record, market_key, provider) is Some {
        position_refusal(record, market_key, provider)
    } else if market.yes_pool + amount_per_side > u64::MAX || market.no_pool + amount_per_side
        > u64::MAX || market.total_volume + both > u64::MAX || market_maker.total_volume_provided
        + both > u64::MAX || record.yes_amount + amount_per_side > u64::MAX || record.no_amount
        + amount_per_side > u64::MAX || record.total_invested + both > u64::MAX {
        Some(PredictionMarketError::MathOverflow)
    } else {
        None
    }
}

/// The market once the liquidity is in: the same amount more in each pool,
/// both amounts counted as volume.
pub open spec fn market_after_liquidity(market: Market, amount_per_side: u64) -> Market {
    Market {
        yes_pool: (market.yes_pool + amount_per_side) as u64,
        no_pool: (market.no_pool + amount_per_side) as u64,
        total_volume: (market.total_volume + 2 * amount_per_side) as u64,
        ..market
    }
}

/// The maker once the liquidity is in: both amounts more exposed and
/// provided, rebalanced at `now`.
pub open spec fn maker_after_liquidity(
    market_maker: MarketMaker,
    amount_per_side: u64,
    now: i64,
) -> MarketMaker {
    MarketMaker {
        current_exposure: (market_maker.current_exposure + 2 * amount_per_side) as u64,
        total_volume_provided: (market_maker.total_volume_provided + 2 * amount_per_side) as u64,
        last_rebalance: now,
        ..market_maker
    }
}

/// The provider's record once the liquidity is in: a stake of the amount on
/// either side, as a bettor on both would hold.
pub open spec fn position_after_liquidity(
    mm_position: Position,
    market_key: Pubkey,
    provider: Pubkey,
    amount_per_side: u64,
    now: i64,
) -> Position {
    let record = bound_position(mm_position, market_key, provider);
    Position {
        yes_amount: (record.yes_amount + amount_per_side) as u64,
        no_amount: (record.no_amount + amount_per_side) as u64,
        total_invested: (record.total_invested + 2 * amount_per_side) as u64,
        bet_timestamp: now,
        ..record
    }
}

/// Adds `amount_per_side` to both pools on behalf of the market maker.
///
/// Liquidity that would take the maker's exposure past its limit is refused
/// with `MaxExposureExceeded`. A refusal changes nothing; otherwise market,
/// maker and the provider's record change together.
pub fn provide_liquidity(
    market: &mut Market,
    market_maker: &mut MarketMaker,
    mm_position: &mut Position,
    market_key: &Pubkey,
    provider: &Pubkey,
    amount_per_side: u64,
    now: i64,
) -> (r: Result<(), PredictionMarketError>)
    ensures
        match liquidity_refusal(
            *old(market),
            *old(market_maker),
            *old(mm_position),
            *market_key,
            *provider,
            amount_per_side,
        ) {
            Some(e) => {
                &&& r == Err::<(), PredictionMarketError>(e)
                &&& *final(market) == *old(market)
                &&& *final(market_maker) == *old(market_maker)
                &&& *final(mm_position) == *old(mm_position)
            },
            None => {
                &&& r is Ok
                &&& *final(market) == market_after_liquidity(*old(market), amount_per_side)
                &&& *final(market_maker) == maker_after_liquidity(
                    *old(market_maker),
                    amount_per_side,
                    now,
                )
                &&& *final(mm_position) == position_after_liquidity(
                    *old(mm_position),
                    *market_key,
                    *provider,
                    amount_per_side,
                    now,
                )
            },
        },
        old(market).wf() ==> final(market).wf(),
        old(market_maker).wf() ==> final(market_maker).wf(),
        r is Ok ==> final(market_maker).wf(),
        old(mm_position).wf() ==> final(mm_position).wf(),
        final(market).follows(*old(market)),
        final(market_maker).follows(*old(market_maker)),
        final(mm_position).follows(*old(mm_position)),
        r is Ok ==> final(mm_position).market == *market_key && !final(mm_position).market
            .is_unset(),
{
    if !market_maker.market.same_as(market_key) {
        return Err(PredictionMarketError::InvalidMarket);
    }
    if !market_maker.is_active {
        return Err(PredictionMarketError::MarketNotActive);
    }
    if market.is_resolved {
        return Err(PredictionMarketError::MarketAlreadyResolved);
    }
    if !matches!(market.market_status, MarketStatus::Active | MarketStatus::PendingLiquidity) {
        return Err(PredictionMarketError::MarketNotActive);
    }
    let both: u128 = 2u128 * (amount_per_side as u128);
    let exposure: u128 = market_maker.current_exposure as u128 + both;
    if exposure > market_maker.max_exposure as u128 {
        return Err(PredictionMarketError::MaxExposureExceeded);
    }
    let exposure: u64 = exposure as u64;
    let both: u64 = both as u64;
    let record: Position = match bind_position(mm_position, market_key, provider) {
        Ok(record) => record,
        Err(e) => {
            return Err(e);
        },
    };
    let yes_pool: Option<u64> = market.yes_pool.checked_add(amount_per_side);
    let no_pool: Option<u64> = market.no_pool.checked_add(amount_per_side);
    let volume: Option<u64> = market.total_volume.checked_add(both);
    let provided: Option<u64> = market_maker.total_volume_provided.checked_add(both);
    let yes_amount: Option<u64> = record.yes_amount.checked_add(amount_per_side);
    let no_amount: Option<u64> = record.no_amount.checked_add(amount_per_side);
    let invested: Option<u64> = record.total_invested.checked_add(both);
    match (yes_pool, no_pool, volume, provided, yes_amount, no_amount, invested) {
        (
            Some(yes_pool),
            Some(no_pool),
            Some(volume),
            Some(provided),
            Some(yes_amount),
            Some(no_amount),
            Some(invested),
        ) => {
            market.yes_pool = yes_pool;
            market.no_pool = no_pool;
            market.total_volume = volume;
            market_maker.current_exposure = exposure;
            market_maker.total_volume_provided = provided;
            market_maker.last_rebalance = now;
            let mut updated: Position = record;
            updated.yes_amount = yes_amount;
            updated.no_amount = no_amount;
            updated.total_invested = invested;
            updated.bet_timestamp = now;
            *mm_position = updated;
            Ok(())
        },
        _ => Err(PredictionMarketError::MathOverflow),
    }
}

// ---------- Market creation ----------

/// Fee rate of a new market, in basis points.
pub const DEFAULT_FEE_BPS: u16 = 100;

/// Greatest oracle uncertainty that a new market accepts.
pub const DEFAULT_ORACLE_CONFIDENCE: u64 = 500;

/// Where a new market is bound: who creates it, what it watches, what it is
/// staked in, and where its fees are kept.
#[derive(Clone, Copy, Debug)]
pub struct MarketBinding {
    pub creator: Pubkey,
    pub pyth_feed: Pubkey,
    pub collateral_mint: Pubkey,
    pub fee_collector: Pubkey,
    pub bump: u8,
}

/// Why a market that settles at `settle_time` may not be created at `now`,
/// if anything: settlement must lie more than the shortest and less than the
/// longest settlement time ahead.
pub open spec fn creation_refusal(settle_time: i64, now: i64) -> Option<PredictionMarketError> {
    if settle_time <= now + 3_600 {
        Some(PredictionMarketError::SettlementTimeTooSoon)
    } else if settle_time >= now + 31_536_000 {
        Some(PredictionMarketError::SettlementTimeTooFar)
    } else {
        None
    }
}

/// Whether the description is still to be written: all zero bytes.
pub open spec fn blank(description: [u8; 128]) -> bool {
    forall|i: int| 0 <= i < 128 ==> description@[i] == 0u8
}

/// The market as it is created, with the given description: empty pools, no
/// outcome, open for stakes, resolved by the named authority or else by its
/// creator.
pub open spec fn new_market(
    binding: MarketBinding,
    market_nonce: u64,
    initial_price: i64,
    settle_time: i64,
    resolver_authority: Option<Pubkey>,
    now: i64,
    description: [u8; 128],
) -> Market {
    Market {
        creator: binding.creator,
        pyth_feed: binding.pyth_feed,
        target_price: initial_price,
        settle_time,
        yes_pool: 0,
        no_pool: 0,
        collateral_mint: binding.collateral_mint,
        is_resolved: false,
        winning_outcome: None,
        nonce: market_nonce,
        bump: binding.bump,
        resolver_authority: match resolver_authority {
            Some(resolver) => resolver,
            None => binding.creator,
        },
        total_volume: 0,
        fee_bps: DEFAULT_FEE_BPS,
        final_price: None,
        total_fees_collected: 0,
        fee_collector: binding.fee_collector,
        oracle_confidence: DEFAULT_ORACLE_CONFIDENCE,
        min_bet_amount: 100_000,
        max_bet_amount: 1_000_000_000_000,
        market_status: MarketStatus::Active,
        created_at: now,
        description,
        category: MarketCategory::Crypto,
        oracle_last_update: now,
        emergency_paused: false,
        min_liquidity: 0,
        liquidity_locked_until: settle_time,
    }
}

/// The fee collector once a market is created: set up for the creator on
/// first use, with half of the fees for the treasury, three tenths for
/// liquidity and a fifth for the creator; untouched afterwards.
pub open spec fn collector_after_creation(fee_collector: FeeCollector, creator: Pubkey) -> FeeCollector {
    if fee_collector.authority.is_unset() {
        FeeCollector {
            authority: creator,
            total_fees_collected: 0,
            treasury: creator,
            fee_distribution: FeeDistribution {
                treasury_bps: 5_000,
                liquidity_bps: 3_000,
                creator_bps: 2_000,
            },
        }
    } else {
        fee_collector
    }
}

/// Creates a market on `initial_price` that settles at `settle_time`.
///
/// The market watches for any movement away from the initial price;
/// `target_change_bps` is accepted and not recorded. Creation is refused,
/// and the fee collector left alone, unless settlement lies within the
/// allowed window ahead of `now`.
pub fn initialize_market(
    fee_collector: &mut FeeCollector,
    binding: MarketBinding,
    market_nonce: u64,
    initial_price: i64,
    target_change_bps: i64,
    settle_time: i64,
    resolver_authority: Option<Pubkey>,
    now: i64,
) -> (r: Result<Market, PredictionMarketError>)
    ensures
        match creation_refusal(settle_time, now) {
            Some(e) => {
                &&& r == Err::<Market, PredictionMarketError>(e)
                &&& *final(fee_collector) == *old(fee_collector)
            },
            None => {
                &&& r is Ok
                &&& r->Ok_0 == new_market(
                    binding,
                    market_nonce,
                    initial_price,
                    settle_time,
                    resolver_authority,
                    now,
                    r->Ok_0.description,
                )
                &&& blank(r->Ok_0.description)
                &&& *final(fee_collector) == collector_after_creation(
                    *old(fee_collector),
                    binding.creator,
                )
                &&& r->Ok_0.wf()
            },
        },
        old(fee_collector).fee_distribution.wf() ==> final(fee_collector).fee_distribution.wf(),
        r is Ok && old(fee_collector).authority.is_unset() ==> final(fee_collector)
            .fee_distribution.wf(),
{
    let params: MarketParams = MarketParams::default();
    let earliest: i128 = now as i128 + params.min_settlement_time as i128;
    let latest: i128 = now as i128 + params.max_settlement_time as i128;
    if settle_time as i128 <= earliest {
        return Err(PredictionMarketError::SettlementTimeTooSoon);
    }
    if settle_time as i128 >= latest {
        return Err(PredictionMarketError::SettlementTimeTooFar);
    }
    let resolver: Pubkey = match resolver_authority {
        Some(resolver) => resolver,
        None => binding.creator,
    };
    if fee_collector.authority.is_default() {
        fee_collector.authority = binding.creator;
        fee_collector.total_fees_collected = 0;
        fee_collector.treasury = binding.creator;
        fee_collector.fee_distribution = FeeDistribution {
            treasury_bps: 5_000,
            liquidity_bps: 3_000,
            creator_bps: 2_000,
        };
    }
    Ok(
        Market {
            creator: binding.creator,
            pyth_feed: binding.pyth_feed,
            target_price: initial_price,
            settle_time,
            yes_pool: 0,
            no_pool: 0,
            collateral_mint: binding.collateral_mint,
            is_resolved: false,
            winning_outcome: None,
            nonce: market_nonce,
            bump: binding.bump,
            resolver_authority: resolver,
            total_volume: 0,
            fee_bps: DEFAULT_FEE_BPS,
            final_price: None,
            total_fees_collected: 0,
            fee_collector: binding.fee_collector,
            oracle_confidence: DEFAULT_ORACLE_CONFIDENCE,
            min_bet_amount: params.min_bet_amount,
            max_bet_amount: params.max_bet_amount,
            market_status: MarketStatus::Active,
            created_at: now,
            description: [0u8; 128],
            category: MarketCategory::Crypto,
            oracle_last_update: now,
            emergency_paused: false,
            min_liquidity: 0,
            liquidity_locked_until: settle_time,
        },
    )
}

/// Sets up the market maker of the market at `market_key`: active, with
/// nothing exposed or provided yet.
pub fn initialize_market_maker(
    market_key: &Pubkey,
    authority: &Pubkey,
    target_spread_bps: u64,
    max_exposure: u64,
    now: i64,
) -> (maker: MarketMaker)
    ensures
        maker == (MarketMaker {
            market: *market_key,
            authority: *authority,
            target_spread_bps,
            max_exposure,
            current_exposure: 0,
            total_volume_provided: 0,
            fees_earned: 0,
            last_rebalance: now,
            is_active: true,
        }),
        maker.wf(),
{
    MarketMaker {
        market: *market_key,
        authority: *authority,
        target_spread_bps,
        max_exposure,
        current_exposure: 0,
        total_volume_provided: 0,
        fees_earned: 0,
        last_rebalance: now,
        is_active: true,
    }
}

// ---------- Resolution ----------

/// The side that wins at `final_price`: YES if the price has moved at all
/// from the recorded one, NO if it has not.
pub open spec fn winner_at(market: Market, final_price: i64) -> Outcome {
    if final_price != market.target_price {
        Outcome::Yes
    } else {
        Outcome::No
    }
}

/// The first guard that refuses the resolution, if any: the resolver's
/// identity, then the state of the market, then the time.
pub open spec fn resolution_refusal(market: Market, resolver: Pubkey, now: i64) -> Option<
    PredictionMarketError,
> {
    if resolver != market.resolver_authority {
        Some(PredictionMarketError::UnauthorizedResolver)
    } else if market.is_resolved {
        Some(PredictionMarketError::MarketAlreadyResolved)
    } else if now < market.settle_time {
        Some(PredictionMarketError::SettlementTimeNotReached)
    } else {
        None
    }
}

/// The market once resolved at `final_price`: flag, winning side, final
/// price and terminal status are set together.
pub open spec fn resolved_market(market: Market, final_price: i64) -> Market {
    Market {
        is_resolved: true,
        winning_outcome: Some(winner_at(market, final_price).tag()),
        final_price: Some(final_price),
        market_status: MarketStatus::Resolved,
        ..market
    }
}

/// Holds a resolution against its guards.
fn check_resolution(market: &Market, resolver: &Pubkey, now: i64) -> (r: Result<
    (),
    PredictionMarketError,
>)
    ensures
        match resolution_refusal(*market, *resolver, now) {
            Some(e) => r == Err::<(), PredictionMarketError>(e),
            None => r is Ok,
        },
{
    if !resolver.same_as(&market.resolver_authority) {
        return Err(PredictionMarketError::UnauthorizedResolver);
    }
    if market.is_resolved {
        return Err(PredictionMarketError::MarketAlreadyResolved);
    }
    if now < market.settle_time {
        return Err(PredictionMarketError::SettlementTimeNotReached);
    }
    Ok(())
}

/// Freezes the market at `final_price`.
fn settle(market: &mut Market, final_price: i64)
    ensures
        *final(market) == resolved_market(*old(market), final_price),
{
    let tag: u8 = if final_price != market.target_price {
        YES_TAG
    } else {
        NO_TAG
    };
    market.is_resolved = true;
    market.winning_outcome = Some(tag);
    market.final_price = Some(final_price);
    market.market_status = MarketStatus::Resolved;
}

/// Resolves the market at a final price that the resolver supplies.
///
/// A refused resolution changes nothing. An accepted one is final: the
/// pools and the accounting stay as they are, and the market takes no
/// further stake or resolution.
pub fn resolve_with_external_price(
    market: &mut Market,
    resolver: &Pubkey,
    final_price: i64,
    now: i64,
) -> (r: Result<(), PredictionMarketError>)
    ensures
        match resolution_refusal(*old(market), *resolver, now) {
            Some(e) => {
                &&& r == Err::<(), PredictionMarketError>(e)
                &&& *final(market) == *old(market)
            },
            None => {
                &&& r is Ok
                &&& *final(market) == resolved_market(*old(market), final_price)
            },
        },
        old(market).wf() ==> final(market).wf(),
        final(market).follows(*old(market)),
{
    match check_resolution(market, resolver, now) {
        Ok(()) => {},
        Err(e) => {
            return Err(e);
        },
    }
    settle(market, final_price);
    Ok(())
}

// ---------- Oracle reading ----------

/// Offset of the price in the bytes of a feed.
pub const PRICE_OFFSET: usize = 208;

/// Offset of the confidence in the bytes of a feed.
pub const CONFIDENCE_OFFSET: usize = 216;

/// Offset of the exponent in the bytes of a feed.
pub const EXPONENT_OFFSET: usize = 224;

/// Number of leading bytes of a feed that a reading needs.
pub const FEED_PREFIX_LEN: usize = 228;

/// The number that the bytes spell, least significant byte first.
pub open spec fn le_value(bytes: Seq<u8>) -> nat
    decreases bytes.len(),
{
    if bytes.len() == 0 {
        0
    } else {
        bytes[0] as nat + 256 * le_value(bytes.skip(1))
    }
}

/// The two's-complement reading of `value` at a width of `modulus` values.
pub open spec fn signed_value(value: nat, modulus: int) -> int {
    if 2 * value >= modulus {
        value - modulus
    } else {
        value as int
    }
}

/// The price of a feed: eight bytes, signed.
pub open spec fn feed_price(data: Seq<u8>) -> int
    recommends
        data.len() >= FEED_PREFIX_LEN,
{
    signed_value(
        le_value(data.subrange(PRICE_OFFSET as int, CONFIDENCE_OFFSET as int)),
        0x1_0000_0000_0000_0000,
    )
}

/// The confidence of a feed: eight bytes, unsigned.
pub open spec fn feed_confidence(data: Seq<u8>) -> nat
    recommends
        data.len() >= FEED_PREFIX_LEN,
{
    le_value(data.subrange(CONFIDENCE_OFFSET as int, EXPONENT_OFFSET as int))
}

/// The exponent of a feed: four bytes, signed.
pub open spec fn feed_exponent(data: Seq<u8>) -> int
    recommends
        data.len() >= FEED_PREFIX_LEN,
{
    signed_value(
        le_value(data.subrange(EXPONENT_OFFSET as int, FEED_PREFIX_LEN as int)),
        0x1_0000_0000,
    )
}

/// Up to eight bytes spell a number below 256 to the power of their count.
pub proof fn lemma_le_value_bound(bytes: Seq<u8>)
    requires
        bytes.len() <= 8,
    ensures
        bytes.len() == 0 ==> le_value(bytes) == 0,
        bytes.len() == 1 ==> le_value(bytes) < 0x100,
        bytes.len() == 2 ==> le_value(bytes) < 0x1_0000,
        bytes.len() == 3 ==> le_value(bytes) < 0x100_0000,
        bytes.len() == 4 ==> le_value(bytes) < 0x1_0000_0000,
        bytes.len() == 5 ==> le_value(bytes) < 0x100_0000_0000,
        bytes.len() == 6 ==> le_value(bytes) < 0x1_0000_0000_0000,
        bytes.len() == 7 ==> le_value(bytes) < 0x100_0000_0000_0000,
        bytes.len() == 8 ==> le_value(bytes) < 0x1_0000_0000_0000_0000,
    decreases bytes.len(),
{
    if bytes.len() > 0 {
        lemma_le_value_bound(bytes.skip(1));
    }
}

/// Reads the bytes of `data` from `start` up to `end` as a number, least
/// significant byte first.
fn read_le(data: &[u8], start: usize, end: usize) -> (value: u64)
    requires
        start <= end <= data@.len(),
        end - start <= 8,
    ensures
        value == le_value(data@.subrange(start as int, end as int)),
        end - start == 4 ==> value < 0x1_0000_0000,
{
    let mut value: u64 = 0;
    let mut i: usize = end;
    proof {
        assert(data@.subrange(end as int, end as int).len() == 0);
    }
    while i > start
        invariant
            start <= i <= end <= data@.len(),
            end - start <= 8,
            value == le_value(data@.subrange(i as int, end as int)),
        decreases i,
    {
        proof {
            let rest = data@.subrange(i as int, end as int);
            let more = data@.subrange(i - 1, end as int);
            lemma_le_value_bound(rest);
            assert(more.skip(1) =~= rest);
        }
        i -= 1;
        value = value * 256 + data[i] as u64;
    }
    proof {
        lemma_le_value_bound(data@.subrange(start as int, end as int));
    }
    value
}

/// Reads price, exponent and confidence out of the bytes of a price feed.
///
/// Bytes too short to hold the three are refused with `OracleError`.
pub fn parse_pyth_price_alternative(data: &[u8]) -> (r: Result<
    (i64, i32, u64),
    PredictionMarketError,
>)
    ensures
        data@.len() < FEED_PREFIX_LEN ==> r == Err::<(i64, i32, u64), PredictionMarketError>(
            PredictionMarketError::OracleError,
        ),
        data@.len() >= FEED_PREFIX_LEN ==> {
            &&& r is Ok
            &&& r->Ok_0.0 == feed_price(data@)
            &&& r->Ok_0.1 == feed_exponent(data@)
            &&& r->Ok_0.2 == feed_confidence(data@)
        },
{
    if data.len() < FEED_PREFIX_LEN {
        return Err(PredictionMarketError::OracleError);
    }
    let raw_price: u64 = read_le(data, PRICE_OFFSET, CONFIDENCE_OFFSET);
    let conf: u64 = read_le(data, CONFIDENCE_OFFSET, EXPONENT_OFFSET);
    let raw_expo: u64 = read_le(data, EXPONENT_OFFSET, FEED_PREFIX_LEN);
    let price: i64 = if raw_price >= 0x8000_0000_0000_0000 {
        ((raw_price - 0x8000_0000_0000_0000) as i64) + i64::MIN
    } else {
        raw_price as i64
    };
    let expo: i32 = if raw_expo >= 0x8000_0000 {
        ((raw_expo - 0x8000_0000) as i32) + i32::MIN
    } else {
        raw_expo as i32
    };
    Ok((price, expo, conf))
}

/// The first guard that refuses a resolution from a feed, if any: those of
/// every resolution, then the bytes of the feed.
pub open spec fn feed_resolution_refusal(
    market: Market,
    resolver: Pubkey,
    feed_data: Seq<u8>,
    now: i64,
) -> Option<PredictionMarketError> {
    if resolution_refusal(market, resolver, now) is Some {
        resolution_refusal(market, resolver, now)
    } else if feed_data.len() < FEED_PREFIX_LEN {
        Some(PredictionMarketError::OracleError)
    } else {
        None
    }
}

/// Resolves the market at the price that the bytes of its feed hold, and
/// notes `now` as the time of the reading.
///
/// A refused resolution changes nothing.
pub fn resolve_market(market: &mut Market, resolver: &Pubkey, feed_data: &[u8], now: i64) -> (r:
    Result<(), PredictionMarketError>)
    ensures
        match feed_resolution_refusal(*old(market), *resolver, feed_data@, now) {
            Some(e) => {
                &&& r == Err::<(), PredictionMarketError>(e)
                &&& *final(market) == *old(market)
            },
            None => {
                &&& r is Ok
                &&& *final(market) == (Market {
                    oracle_last_update: now,
                    ..resolved_market(*old(market), feed_price(feed_data@) as i64)
                })
            },
        },
        old(market).wf() ==> final(market).wf(),
        final(market).follows(*old(market)),
{
    match check_resolution(market, resolver, now) {
        Ok(()) => {},
        Err(e) => {
            return Err(e);
        },
    }
    let (price, _expo, _conf): (i64, i32, u64) = match parse_pyth_price_alternative(feed_data) {
        Ok(reading) => reading,
        Err(e) => {
            return Err(e);
        },
    };
    settle(market, price);
    market.oracle_last_update = now;
    Ok(())
}

// ---------- Fee consolidation ----------

/// The first guard that refuses the consolidation, if any: the authority,
/// the state of the market, then the arithmetic.
pub open spec fn consolidation_refusal(
    market: Market,
    fee_collector: FeeCollector,
    authority: Pubkey,
    fee_vault_balance: u64,
) -> Option<PredictionMarketError> {
    if authority != fee_collector.authority {
        Some(PredictionMarketError::UnauthorizedResolver)
    } else if !market.is_resolved {
        Some(PredictionMarketError::MarketNotResolved)
    } else if fee_collector.total_fees_collected + fee_vault_balance > u64::MAX {
        Some(PredictionMarketError::MathOverflow)
    } else {
        None
    }
}

/// Consolidates the fees of a resolved market: the whole balance of its fee
/// custody goes to the treasury and is added to the collector's total.
///
/// Returns the amount to move, which is the balance. A refusal changes
/// nothing.
pub fn consolidate_funds(
    market: &Market,
    fee_collector: &mut FeeCollector,
    authority: &Pubkey,
    fee_vault_balance: u64,
) -> (r: Result<u64, PredictionMarketError>)
    ensures
        match consolidation_refusal(*market, *old(fee_collector), *authority, fee_vault_balance) {
            Some(e) => {
                &&& r == Err::<u64, PredictionMarketError>(e)
                &&& *final(fee_collector) == *old(fee_collector)
            },
            None => {
                &&& r == Ok::<u64, PredictionMarketError>(fee_vault_balance)
                &&& *final(fee_collector) == (FeeCollector {
                    total_fees_collected: (old(fee_collector).total_fees_collected
                        + fee_vault_balance) as u64,
                    ..*old(fee_collector)
                })
            },
        },
{
    if !authority.same_as(&fee_collector.authority) {
        return Err(PredictionMarketError::UnauthorizedResolver);
    }
    if !market.is_resolved {
        return Err(PredictionMarketError::MarketNotResolved);
    }
    match fee_collector.total_fees_collected.checked_add(fee_vault_balance) {
        Some(total) => {
            fee_collector.total_fees_collected = total;
            Ok(fee_vault_balance)
        },
        None => Err(PredictionMarketError::MathOverflow),
    }
}

} // verus!
