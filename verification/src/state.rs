//! The market aggregate, the per-participant position, the market maker and
//! the fixed-point money math they share.

use vstd::prelude::*;
use crate::errors::PredictionMarketError;

verus! {

/// Basis points in a whole.
pub const BPS_DENOMINATOR: u64 = 10_000;

/// Spot price of either side of a market without stakes, in basis points.
pub const EVEN_ODDS_BPS: u64 = 5_000;

/// Smallest mispricing, in basis points, that counts as an arbitrage signal.
pub const MIN_PROFIT_BPS: u64 = 100;

/// Greatest age of an oracle reading, in seconds, that is still accepted.
pub const MAX_ORACLE_AGE_SECS: i64 = 60;

/// Tag of the YES side in a stored resolution.
pub const YES_TAG: u8 = 0;

/// Tag of the NO side in a stored resolution.
pub const NO_TAG: u8 = 1;

// ---------- Identity ----------

/// A 32-byte identity: a participant, an authority, an asset or a feed.
#[derive(Clone, Copy, Debug, PartialEq, Eq, Hash)]
pub struct Pubkey {
    pub bytes: [u8; 32],
}

impl View for Pubkey {
    type V = Seq<u8>;

    open spec fn view(&self) -> Seq<u8> {
        self.bytes@
    }
}

impl Pubkey {
    /// The identity that stands for "not set": thirty-two zero bytes.
    pub open spec fn is_unset(self) -> bool {
        forall|i: int| 0 <= i < 32 ==> self@[i] == 0u8
    }

    /// The identity with the given bytes.
    pub fn new(bytes: [u8; 32]) -> (key: Self)
        ensures
            key@ == bytes@,
    {
        Pubkey { bytes }
    }

    /// The bytes of the identity.
    pub fn to_bytes(&self) -> (bytes: [u8; 32])
        ensures
            bytes@ == self@,
    {
        self.bytes
    }

    /// Whether two identities have the same bytes.
    pub fn same_as(&self, other: &Pubkey) -> (same: bool)
        ensures
            same == (self@ == other@),
            same == (*self == *other),
    {
        let mut i: usize = 0;
        while i < 32
            invariant
                0 <= i <= 32,
                forall|j: int| 0 <= j < i ==> self@[j] == other@[j],
            decreases 32 - i,
        {
            if self.bytes[i] != other.bytes[i] {
                return false;
            }
            i += 1;
        }
        proof {
            assert(self@ =~= other@);
            assert(self.bytes =~= other.bytes);
        }
        true
    }

    /// Whether the identity is the unset one.
    pub fn is_default(&self) -> (unset: bool)
        ensures
            unset == self.is_unset(),
    {
        let mut i: usize = 0;
        while i < 32
            invariant
                0 <= i <= 32,
                forall|j: int| 0 <= j < i ==> self@[j] == 0u8,
            decreases 32 - i,
        {
            if self.bytes[i] != 0 {
                assert(self@[i as int] != 0u8);
                return false;
            }
            i += 1;
        }
        true
    }
}

impl Default for Pubkey {
    fn default() -> (key: Self)
        ensures
            key.is_unset(),
    {
        Pubkey { bytes: [0u8; 32] }
    }
}

// ---------- Enums ----------

/// A side of the market.
#[derive(Clone, Copy, Debug, PartialEq, Eq, Structural)]
pub enum Outcome {
    Yes,
    No,
}

/// Where a market stands in its lifecycle.
#[derive(Clone, Copy, Debug, PartialEq, Eq, Structural)]
pub enum MarketStatus {
    PendingLiquidity,
    Active,
    Resolved,
    Disputed,
    Cancelled,
}

/// The subject area of a market.
#[derive(Clone, Copy, Debug, PartialEq, Eq, Structural)]
pub enum MarketCategory {
    Crypto,
    Sports,
    Politics,
    Weather,
    Entertainment,
    Other,
}

impl Outcome {
    /// The tag under which a resolution stores this side.
    pub open spec fn tag(self) -> u8 {
        match self {
            Outcome::Yes => YES_TAG,
            Outcome::No => NO_TAG,
        }
    }
}

// ---------- Fixed-point money math ----------

/// The fee on `amount` at `fee_bps` basis points, rounded down.
pub open spec fn fee_of(amount: int, fee_bps: int) -> int {
    amount * fee_bps / 10_000
}

/// What a winning `stake` is paid when the pools are split over the winners:
/// the stake itself when nobody lost, else its share of both pools, rounded
/// down.
pub open spec fn payout_of(stake: int, winning_pool: int, losing_pool: int) -> int
    recommends
        winning_pool > 0,
{
    if losing_pool == 0 {
        stake
    } else {
        stake * (winning_pool + losing_pool) / winning_pool
    }
}

/// Splits `amount` into the fee at `fee_bps` basis points and the rest.
///
/// The product is formed at 128 bits, so the only failure is a fee greater
/// than the amount, which needs a rate above the whole.
pub fn calculate_fee(amount: u64, fee_bps: u64) -> (r: Result<(u64, u64), PredictionMarketError>)
    ensures
        match r {
            Ok((fee, amount_after_fee)) => {
                &&& fee == fee_of(amount as int, fee_bps as int)
                &&& fee + amount_after_fee == amount
            },
            Err(e) => e == PredictionMarketError::MathOverflow,
        },
        r is Ok <==> fee_of(amount as int, fee_bps as int) <= amount,
        fee_bps <= 10_000 ==> r is Ok,
{
    proof {
        lemma_fee_bounds(amount as int, fee_bps as int);
        assert(amount * fee_bps <= u64::MAX * u64::MAX) by (nonlinear_arith)
            requires
                0 <= amount <= u64::MAX,
                0 <= fee_bps <= u64::MAX,
        ;
    }
    let product: u128 = (amount as u128) * (fee_bps as u128);
    let fee: u128 = product / 10_000u128;
    if fee > amount as u128 {
        return Err(PredictionMarketError::MathOverflow);
    }
    let fee: u64 = fee as u64;
    Ok((fee, amount - fee))
}

/// The fee is never negative, and at a rate of at most the whole it is at
/// most the amount.
pub proof fn lemma_fee_bounds(amount: int, fee_bps: int)
    requires
        0 <= amount,
        0 <= fee_bps,
    ensures
        0 <= fee_of(amount, fee_bps),
        fee_bps <= 10_000 ==> fee_of(amount, fee_bps) <= amount,
{
    assert(0 <= amount * fee_bps) by (nonlinear_arith)
        requires
            0 <= amount,
            0 <= fee_bps,
    ;
    if fee_bps <= 10_000 {
        assert(amount * fee_bps <= amount * 10_000) by (nonlinear_arith)
            requires
                0 <= amount,
                0 <= fee_bps <= 10_000,
        ;
    }
}

/// Pays a winning `stake` its share of both pools.
///
/// Without winners the share is undefined and the call fails with
/// `InvalidPool`. The product is formed at 128 bits; the call fails with
/// `MathOverflow` exactly when the payout itself does not fit in 64 bits.
pub fn calculate_payout(user_stake: u64, winning_pool: u64, losing_pool: u64) -> (r: Result<
    u64,
    PredictionMarketError,
>)
    ensures
        winning_pool == 0 ==> r == Err::<u64, PredictionMarketError>(
            PredictionMarketError::InvalidPool,
        ),
        winning_pool > 0 ==> match r {
            Ok(payout) => payout == payout_of(
                user_stake as int,
                winning_pool as int,
                losing_pool as int,
            ),
            Err(e) => {
                &&& e == PredictionMarketError::MathOverflow
                &&& payout_of(user_stake as int, winning_pool as int, losing_pool as int)
                    > u64::MAX
            },
        },
{
    if winning_pool == 0 {
        return Err(PredictionMarketError::InvalidPool);
    }
    if losing_pool == 0 {
        return Ok(user_stake);
    }
    let total: u128 = winning_pool as u128 + losing_pool as u128;
    match share_of(user_stake, total, winning_pool) {
        Some(payout) => Ok(payout),
        None => Err(PredictionMarketError::MathOverflow),
    }
}

/// `floor(stake * numerator / denominator)`, or nothing when that does not
/// fit in 64 bits.
pub(crate) fn share_of(stake: u64, numerator: u128, denominator: u64) -> (r: Option<u64>)
    requires
        denominator > 0,
    ensures
        match r {
            Some(share) => share == stake * numerator / (denominator as int),
            None => stake * numerator / (denominator as int) > u64::MAX,
        },
{
    let ghost exact: int = stake * numerator;
    proof {
        assert(0 <= exact) by (nonlinear_arith)
            requires
                exact == stake * numerator,
                0 <= stake,
                0 <= numerator,
        ;
    }
    match (stake as u128).checked_mul(numerator) {
        Some(product) => {
            let quotient: u128 = product / (denominator as u128);
            if quotient > u64::MAX as u128 {
                None
            } else {
                Some(quotient as u64)
            }
        },
        None => {
            proof {
                lemma_quotient_at_least(exact, denominator as int, 0x1_0000_0000_0000_0000);
            }
            None
        },
    }
}

/// A dividend of at least `bound * divisor` has a quotient of at least
/// `bound`.
pub proof fn lemma_quotient_at_least(dividend: int, divisor: int, bound: int)
    requires
        divisor > 0,
        dividend >= bound * divisor,
    ensures
        dividend / divisor >= bound,
{
    vstd::arithmetic::div_mod::lemma_div_is_ordered(divisor * bound, dividend, divisor);
    vstd::arithmetic::div_mod::lemma_div_multiples_vanish(bound, divisor);
}

/// A larger losing pool never lowers what a winning stake is paid.
pub proof fn lemma_payout_monotonic(stake: int, winning_pool: int, smaller: int, larger: int)
    requires
        0 <= stake,
        0 < winning_pool,
        0 <= smaller <= larger,
    ensures
        payout_of(stake, winning_pool, smaller) <= payout_of(stake, winning_pool, larger),
{
    let low = stake * (winning_pool + smaller);
    let high = stake * (winning_pool + larger);
    assert(stake * winning_pool <= low <= high) by (nonlinear_arith)
        requires
            low == stake * (winning_pool + smaller),
            high == stake * (winning_pool + larger),
            0 <= stake,
            0 < winning_pool,
            0 <= smaller <= larger,
    ;
    vstd::arithmetic::div_mod::lemma_div_is_ordered(low, high, winning_pool);
    lemma_quotient_at_least(low, winning_pool, stake);
    lemma_quotient_at_least(high, winning_pool, stake);
}

/// A winning stake is paid at least itself.
pub proof fn lemma_payout_at_least_stake(stake: int, winning_pool: int, losing_pool: int)
    requires
        0 <= stake,
        0 < winning_pool,
        0 <= losing_pool,
    ensures
        stake <= payout_of(stake, winning_pool, losing_pool),
{
    lemma_payout_monotonic(stake, winning_pool, 0, losing_pool);
}

// ---------- Market ----------

/// The sum of both pools, held at the 64-bit ceiling where it would pass it.
pub open spec fn total_pot_of(yes_pool: int, no_pool: int) -> int {
    if yes_pool + no_pool > u64::MAX {
        u64::MAX as int
    } else {
        yes_pool + no_pool
    }
}

/// The YES share of both pools together, in basis points, rounded down;
/// even odds while both are empty. The pot is taken exactly, however large.
pub open spec fn yes_share_bps(yes_pool: int, no_pool: int) -> int {
    if yes_pool + no_pool == 0 {
        EVEN_ODDS_BPS as int
    } else {
        yes_pool * 10_000 / (yes_pool + no_pool)
    }
}

/// The YES spot price in basis points, rounded down: the YES pool over the
/// pot as the ledger reports it, held at the 64-bit ceiling; even odds while
/// the pot is empty.
pub open spec fn yes_price_bps(yes_pool: int, no_pool: int) -> int {
    let total = total_pot_of(yes_pool, no_pool);
    if total == 0 {
        EVEN_ODDS_BPS as int
    } else {
        yes_pool * 10_000 / total
    }
}

/// A part of a pot that is not empty is between nothing and the whole of
/// it, in basis points.
pub proof fn lemma_share_in_range(part: int, pot: int)
    requires
        0 <= part <= pot,
        0 < pot,
    ensures
        0 <= part * 10_000 / pot <= 10_000,
{
    assert(0 <= part * 10_000 <= pot * 10_000) by (nonlinear_arith)
        requires
            0 <= part <= pot,
    ;
    vstd::arithmetic::div_mod::lemma_div_is_ordered(0, part * 10_000, pot);
    vstd::arithmetic::div_mod::lemma_div_is_ordered(part * 10_000, pot * 10_000, pot);
    vstd::arithmetic::div_mod::lemma_div_multiples_vanish(10_000, pot);
}

/// Neither the YES share nor the YES spot price leaves the range of basis
/// points, and while the pot fits in 64 bits the two are the same.
pub proof fn lemma_yes_price_in_range(yes_pool: int, no_pool: int)
    requires
        0 <= yes_pool <= u64::MAX,
        0 <= no_pool,
    ensures
        0 <= yes_price_bps(yes_pool, no_pool) <= 10_000,
        0 <= yes_share_bps(yes_pool, no_pool) <= 10_000,
        yes_pool + no_pool <= u64::MAX ==> yes_price_bps(yes_pool, no_pool) == yes_share_bps(
            yes_pool,
            no_pool,
        ),
{
    if yes_pool + no_pool > 0 {
        lemma_share_in_range(yes_pool, total_pot_of(yes_pool, no_pool));
        lemma_share_in_range(yes_pool, yes_pool + no_pool);
    }
}

/// The central aggregate: two pools of stakes on a price reference, with the
/// rules under which stakes are taken and the outcome once it is known.
#[derive(Clone, Copy, Debug)]
pub struct Market {
    pub creator: Pubkey,
    pub pyth_feed: Pubkey,
    pub target_price: i64,
    pub settle_time: i64,
    pub yes_pool: u64,
    pub no_pool: u64,
    pub collateral_mint: Pubkey,
    pub is_resolved: bool,
    pub winning_outcome: Option<u8>,
    pub nonce: u64,
    pub bump: u8,
    pub resolver_authority: Pubkey,
    pub total_volume: u64,
    pub fee_bps: u16,
    pub final_price: Option<i64>,
    pub total_fees_collected: u64,
    pub fee_collector: Pubkey,
    pub oracle_confidence: u64,
    pub min_bet_amount: u64,
    pub max_bet_amount: u64,
    pub market_status: MarketStatus,
    pub created_at: i64,
    pub description: [u8; 128],
    pub category: MarketCategory,
    pub oracle_last_update: i64,
    pub emergency_paused: bool,
    pub min_liquidity: u64,
    pub liquidity_locked_until: i64,
}

impl Market {
    /// Bytes of a stored market, its eight-byte tag included.
    pub const SIZE: usize = 8 + 418;

    /// The invariant of the aggregate: the fee rate is at most the whole;
    /// every unit of volume is either in a pool or accounted as a fee, so
    /// that both pools together fit in 64 bits; and a resolved market names
    /// its winning side and final price and has reached its terminal status.
    pub open spec fn wf(self) -> bool {
        &&& self.fee_bps <= 10_000
        &&& self.yes_pool + self.no_pool + self.total_fees_collected == self.total_volume
        &&& self.is_resolved ==> {
            &&& self.winning_outcome is Some
            &&& self.winning_outcome->0 == YES_TAG || self.winning_outcome->0 == NO_TAG
            &&& self.final_price is Some
            &&& self.market_status == MarketStatus::Resolved
        }
    }

    /// Whether `self` can come after `before` in the life of one market:
    /// neither a pool nor the accounting has fallen, and a market that was
    /// resolved has not changed at all.
    pub open spec fn follows(self, before: Market) -> bool {
        &&& self.yes_pool >= before.yes_pool
        &&& self.no_pool >= before.no_pool
        &&& self.total_volume >= before.total_volume
        &&& self.total_fees_collected >= before.total_fees_collected
        &&& before.is_resolved ==> self == before
    }

    /// The pool of `side`.
    pub open spec fn pool(self, side: Outcome) -> u64 {
        match side {
            Outcome::Yes => self.yes_pool,
            Outcome::No => self.no_pool,
        }
    }

    /// The pool against `side`.
    pub open spec fn opposite_pool(self, side: Outcome) -> u64 {
        match side {
            Outcome::Yes => self.no_pool,
            Outcome::No => self.yes_pool,
        }
    }

    /// The pool of the side that the tag names; the NO pool for any tag but
    /// the YES tag.
    pub open spec fn pool_tagged(self, tag: u8) -> u64 {
        if tag == YES_TAG {
            self.yes_pool
        } else {
            self.no_pool
        }
    }

    /// The pool against the side that the tag names.
    pub open spec fn pool_against(self, tag: u8) -> u64 {
        if tag == YES_TAG {
            self.no_pool
        } else {
            self.yes_pool
        }
    }

    /// Both spot prices in basis points; the NO price is the complement of
    /// the YES price.
    pub open spec fn spot_prices(self) -> (int, int) {
        let yes = yes_price_bps(self.yes_pool as int, self.no_pool as int);
        (yes, 10_000 - yes)
    }

    /// Whether stakes may be taken as far as status and flags go.
    pub open spec fn active(self) -> bool {
        self.market_status == MarketStatus::Active && !self.is_resolved && !self.emergency_paused
    }

    /// Whether the market may be resolved at `current_time`.
    pub open spec fn resolvable_at(self, current_time: i64) -> bool {
        !self.is_resolved && current_time >= self.settle_time
    }

    /// Both pools together, held at the 64-bit ceiling.
    pub fn get_total_pot(&self) -> (total: u64)
        ensures
            total == total_pot_of(self.yes_pool as int, self.no_pool as int),
    {
        self.yes_pool.saturating_add(self.no_pool)
    }

    /// Whether the market is open: active status, not resolved, not paused.
    pub fn is_active(&self) -> (r: bool)
        ensures
            r == self.active(),
    {
        matches!(self.market_status, MarketStatus::Active) && !self.is_resolved
            && !self.emergency_paused
    }

    /// Whether the market may be resolved at `current_time`.
    pub fn can_resolve(&self, current_time: i64) -> (r: bool)
        ensures
            r == self.resolvable_at(current_time),
    {
        !self.is_resolved && current_time >= self.settle_time
    }

    /// Whether the pot has reached the market's minimum liquidity.
    pub fn has_minimum_liquidity(&self) -> (r: bool)
        ensures
            r == (total_pot_of(self.yes_pool as int, self.no_pool as int) >= self.min_liquidity),
    {
        self.get_total_pot() >= self.min_liquidity
    }

    /// Holds `amount` against the market's bounds on a single bet.
    pub fn validate_bet_amount(&self, amount: u64) -> (r: Result<(), PredictionMarketError>)
        ensures
            amount < self.min_bet_amount ==> r == Err::<(), PredictionMarketError>(
                PredictionMarketError::BetTooSmall,
            ),
            self.min_bet_amount <= amount && amount > self.max_bet_amount ==> r == Err::<
                (),
                PredictionMarketError,
            >(PredictionMarketError::BetTooLarge),
            self.min_bet_amount <= amount <= self.max_bet_amount ==> r is Ok,
    {
        if amount < self.min_bet_amount {
            return Err(PredictionMarketError::BetTooSmall);
        }
        if amount > self.max_bet_amount {
            return Err(PredictionMarketError::BetTooLarge);
        }
        Ok(())
    }

    /// Holds an oracle reading against the market's confidence bound and the
    /// greatest accepted age. The age is taken without wrapping.
    pub fn validate_oracle_price(
        &self,
        price_confidence: u64,
        last_update: i64,
        current_time: i64,
    ) -> (r: Result<(), PredictionMarketError>)
        ensures
            price_confidence > self.oracle_confidence ==> r == Err::<(), PredictionMarketError>(
                PredictionMarketError::PriceConfidenceTooHigh,
            ),
            price_confidence <= self.oracle_confidence && current_time - last_update
                > MAX_ORACLE_AGE_SECS ==> r == Err::<(), PredictionMarketError>(
                PredictionMarketError::PriceTooStale,
            ),
            price_confidence <= self.oracle_confidence && current_time - last_update
                <= MAX_ORACLE_AGE_SECS ==> r is Ok,
    {
        if price_confidence > self.oracle_confidence {
            return Err(PredictionMarketError::PriceConfidenceTooHigh);
        }
        let age: i128 = current_time as i128 - last_update as i128;
        if age > MAX_ORACLE_AGE_SECS as i128 {
            return Err(PredictionMarketError::PriceTooStale);
        }
        Ok(())
    }

    /// Spot prices of both sides in basis points of the pot; they always add
    /// up to the whole, and a market without stakes is at even odds.
    pub fn get_spot_prices(&self) -> (prices: (u64, u64))
        ensures
            prices.0 == self.spot_prices().0,
            prices.1 == self.spot_prices().1,
            prices.0 + prices.1 == 10_000,
            self.yes_pool == 0 && self.no_pool == 0 ==> prices == (5_000u64, 5_000u64),
    {
        proof {
            lemma_yes_price_in_range(self.yes_pool as int, self.no_pool as int);
        }
        let yes: u64 = spot_yes_bps(self.yes_pool, self.no_pool);
        (yes, BPS_DENOMINATOR - yes)
    }
}

/// The YES spot price of the given pools in basis points.
fn spot_yes_bps(yes_pool: u64, no_pool: u64) -> (yes: u64)
    ensures
        yes == yes_price_bps(yes_pool as int, no_pool as int),
        yes <= 10_000,
{
    proof {
        lemma_yes_price_in_range(yes_pool as int, no_pool as int);
    }
    let total: u64 = yes_pool.saturating_add(no_pool);
    if total == 0 {
        return EVEN_ODDS_BPS;
    }
    let scaled: u128 = (yes_pool as u128) * 10_000u128;
    (scaled / (total as u128)) as u64
}

/// The YES share of the exact pot of the given pools in basis points.
fn exact_yes_bps(yes_pool: u64, no_pool: u64) -> (yes: u64)
    ensures
        yes == yes_share_bps(yes_pool as int, no_pool as int),
        yes <= 10_000,
{
    proof {
        lemma_yes_price_in_range(yes_pool as int, no_pool as int);
    }
    let total: u128 = yes_pool as u128 + no_pool as u128;
    if total == 0 {
        return EVEN_ODDS_BPS;
    }
    let scaled: u128 = (yes_pool as u128) * 10_000u128;
    (scaled / total) as u64
}

// ---------- Position ----------

/// Two to the sixty-fourth: where a 64-bit ledger field wraps.
pub open spec fn wrap_modulus() -> int {
    0x1_0000_0000_0000_0000
}

/// What a winning `stake` is projected to be paid: its share of the pot
/// less the fee on the pot, rounded down.
pub open spec fn projected_payout_of(
    stake: int,
    winning_pool: int,
    losing_pool: int,
    fee_bps: int,
) -> int
    recommends
        winning_pool > 0,
{
    let total = total_pot_of(winning_pool, losing_pool);
    stake * (total - fee_of(total, fee_bps)) / winning_pool
}

/// The projection as the 64-bit ledger takes it, step by step, for states
/// that the invariants leave out: the fee on the pot wraps, a fee above the
/// pot leaves nothing to split, and the result wraps.
pub open spec fn pending_payout_of(stake: int, winning_pool: int, losing_pool: int, fee_bps: int) -> int
    recommends
        winning_pool > 0,
{
    let total = total_pot_of(winning_pool, losing_pool);
    let fees = (total * fee_bps / 10_000) % wrap_modulus();
    let distributable = if fees > total {
        0
    } else {
        total - fees
    };
    (stake * distributable / winning_pool) % wrap_modulus()
}

/// At a fee of at most the whole and a stake of at most the winning pool
/// nothing wraps: the ledger's projection is the share of the pot less the
/// fee.
pub proof fn lemma_projection_is_direct(
    stake: int,
    winning_pool: int,
    losing_pool: int,
    fee_bps: int,
)
    requires
        0 <= stake <= winning_pool <= u64::MAX,
        0 < winning_pool,
        0 <= losing_pool,
        0 <= fee_bps <= 10_000,
    ensures
        pending_payout_of(stake, winning_pool, losing_pool, fee_bps) == projected_payout_of(
            stake,
            winning_pool,
            losing_pool,
            fee_bps,
        ),
        0 <= projected_payout_of(stake, winning_pool, losing_pool, fee_bps) <= u64::MAX,
{
    let total = total_pot_of(winning_pool, losing_pool);
    let charged = fee_of(total, fee_bps);
    lemma_fee_bounds(total, fee_bps);
    vstd::arithmetic::div_mod::lemma_small_mod(charged as nat, wrap_modulus() as nat);
    let distributable = total - charged;
    let split = stake * distributable / winning_pool;
    assert(0 <= stake * distributable <= winning_pool * distributable) by (nonlinear_arith)
        requires
            0 <= stake <= winning_pool,
            0 <= distributable,
    ;
    vstd::arithmetic::div_mod::lemma_div_is_ordered(0, stake * distributable, winning_pool);
    vstd::arithmetic::div_mod::lemma_div_is_ordered(
        stake * distributable,
        winning_pool * distributable,
        winning_pool,
    );
    vstd::arithmetic::div_mod::lemma_div_multiples_vanish(distributable, winning_pool);
    vstd::arithmetic::div_mod::lemma_small_mod(split as nat, wrap_modulus() as nat);
}

/// One participant's stakes in one market.
#[derive(Clone, Copy, Debug)]
pub struct Position {
    pub market: Pubkey,
    pub better: Pubkey,
    pub yes_amount: u64,
    pub no_amount: u64,
    pub claimed: bool,
    pub entry_odds_yes: u64,
    pub entry_odds_no: u64,
    pub bet_timestamp: i64,
    pub total_invested: u64,
    pub pending_payout: u64,
}

impl Position {
    /// Bytes of a stored position, its eight-byte tag included.
    pub const SIZE: usize = 8 + 121;

    /// The invariant of the record: what is staked, net of fees, never
    /// exceeds what was paid in.
    pub open spec fn wf(self) -> bool {
        self.yes_amount + self.no_amount <= self.total_invested
    }

    /// Whether `self` can come after `before` in the life of one record
    /// that was bound to its market: no stake and no investment has fallen,
    /// and a record that was claimed has not changed at all. A record whose
    /// market is unset has taken no stake yet, since no operation binds a
    /// record to the unset key.
    pub open spec fn follows(self, before: Position) -> bool {
        !before.market.is_unset() ==> {
            &&& self.yes_amount >= before.yes_amount
            &&& self.no_amount >= before.no_amount
            &&& self.total_invested >= before.total_invested
            &&& before.claimed ==> self == before
        }
    }

    /// Whether anything is staked on either side.
    pub open spec fn staked(self) -> bool {
        self.yes_amount > 0 || self.no_amount > 0
    }

    /// The stake on the side that the tag names; nothing for a tag that names
    /// no side.
    pub open spec fn winning_stake(self, winning_outcome: u8) -> u64 {
        if winning_outcome == YES_TAG {
            self.yes_amount
        } else if winning_outcome == NO_TAG {
            self.no_amount
        } else {
            0
        }
    }

    /// The payout that the position can expect from `market` as it stands:
    /// nothing before resolution or without a winning stake, the stake
    /// itself while the winning pool is empty, else the ledger's projection.
    pub open spec fn pending_payout_from(self, market: Market) -> int {
        if !market.is_resolved || market.winning_outcome is None {
            0
        } else {
            let winner = market.winning_outcome->0;
            let stake = self.winning_stake(winner);
            let win = market.pool_tagged(winner);
            let lose = market.pool_against(winner);
            if stake == 0 {
                0
            } else if win == 0 {
                stake as int
            } else {
                pending_payout_of(stake as int, win as int, lose as int, market.fee_bps as int)
            }
        }
    }

    /// Whether the position holds a stake on the side that has won in
    /// `market`, of at most that side's pool, at a fee of at most the whole:
    /// the states in which a projection is owed in full.
    pub open spec fn wins_in(self, market: Market) -> bool {
        &&& market.is_resolved
        &&& market.winning_outcome is Some
        &&& market.fee_bps <= 10_000
        &&& 0 < self.winning_stake(market.winning_outcome->0) <= market.pool_tagged(
            market.winning_outcome->0,
        )
    }

    /// Both stakes together, held at the 64-bit ceiling.
    pub fn get_total_stake(&self) -> (total: u64)
        ensures
            total == total_pot_of(self.yes_amount as int, self.no_amount as int),
    {
        self.yes_amount.saturating_add(self.no_amount)
    }

    /// Whether the position has economic meaning: a stake on either side.
    pub fn has_position(&self) -> (r: bool)
        ensures
            r == self.staked(),
    {
        self.yes_amount > 0 || self.no_amount > 0
    }

    /// The stake on the winning side.
    pub fn get_winning_stake(&self, winning_outcome: u8) -> (stake: u64)
        ensures
            stake == self.winning_stake(winning_outcome),
    {
        if winning_outcome == YES_TAG {
            self.yes_amount
        } else if winning_outcome == NO_TAG {
            self.no_amount
        } else {
            0
        }
    }

    /// Projects the payout of the position from `market` as it stands: the
    /// winning stake's share of the pot less the fee on the pot.
    ///
    /// The projection is the cautious one: it takes the market's fee off the
    /// pot before splitting it, although the pools are net of fees already.
    /// At a fee of at most the whole it therefore never exceeds the stake
    /// and its share of the losing pool, which is what a claim pays. For a
    /// fee above the whole or a stake above the winning pool the steps wrap
    /// as the 64-bit ledger does.
    pub fn calculate_pending_payout(&self, market: &Market) -> (payout: u64)
        ensures
            self.wins_in(*market) ==> payout == projected_payout_of(
                self.winning_stake(market.winning_outcome->0) as int,
                market.pool_tagged(market.winning_outcome->0) as int,
                market.pool_against(market.winning_outcome->0) as int,
                market.fee_bps as int,
            ),
            payout == self.pending_payout_from(*market),
    {
        proof {
            if self.wins_in(*market) {
                lemma_projection_is_direct(
                    self.winning_stake(market.winning_outcome->0) as int,
                    market.pool_tagged(market.winning_outcome->0) as int,
                    market.pool_against(market.winning_outcome->0) as int,
                    market.fee_bps as int,
                );
            }
        }
        if !market.is_resolved {
            return 0;
        }
        let winner: u8 = match market.winning_outcome {
            Some(w) => w,
            None => {
                return 0;
            },
        };
        let stake: u64 = self.get_winning_stake(winner);
        if stake == 0 {
            return 0;
        }
        let (win, lose): (u64, u64) = if winner == YES_TAG {
            (market.yes_pool, market.no_pool)
        } else {
            (market.no_pool, market.yes_pool)
        };
        if win == 0 {
            return stake;
        }
        let total: u64 = win.saturating_add(lose);
        proof {
            assert(total * market.fee_bps <= u64::MAX * u16::MAX) by (nonlinear_arith)
                requires
                    0 <= total <= u64::MAX,
                    0 <= market.fee_bps <= u16::MAX,
            ;
        }
        let fees: u128 = ((total as u128) * (market.fee_bps as u128) / 10_000u128)
            % 0x1_0000_0000_0000_0000u128;
        let distributable: u64 = if fees > total as u128 {
            0
        } else {
            total - (fees as u64)
        };
        proof {
            assert(stake * distributable <= u64::MAX * u64::MAX) by (nonlinear_arith)
                requires
                    0 <= stake <= u64::MAX,
                    0 <= distributable <= u64::MAX,
            ;
        }
        let share: u128 = (stake as u128) * (distributable as u128) / (win as u128);
        (share % 0x1_0000_0000_0000_0000u128) as u64
    }
}

// ---------- Market maker ----------

/// How far the YES share of the given pools lies from an even split, in
/// basis points; nothing while both pools are empty.
pub open spec fn skew_bps(yes_pool: int, no_pool: int) -> int {
    let yes = yes_share_bps(yes_pool, no_pool);
    if yes >= 5_000 {
        yes - 5_000
    } else {
        5_000 - yes
    }
}

/// A supplier of equal liquidity on both sides of one market.
#[derive(Clone, Copy, Debug)]
pub struct MarketMaker {
    pub market: Pubkey,
    pub authority: Pubkey,
    pub target_spread_bps: u64,
    pub max_exposure: u64,
    pub current_exposure: u64,
    pub total_volume_provided: u64,
    pub fees_earned: u64,
    pub last_rebalance: i64,
    pub is_active: bool,
}

impl MarketMaker {
    /// Bytes of a stored market maker, its eight-byte tag included.
    pub const SIZE: usize = 8 + 113;

    /// The invariant of the record: exposure stays within its limit.
    pub open spec fn wf(self) -> bool {
        self.current_exposure <= self.max_exposure
    }

    /// Whether `self` can come after `before` in the life of one maker:
    /// what it was bound to and limited by stands, and neither exposure nor
    /// volume has fallen.
    pub open spec fn follows(self, before: MarketMaker) -> bool {
        &&& self.market == before.market
        &&& self.authority == before.authority
        &&& self.max_exposure == before.max_exposure
        &&& self.current_exposure >= before.current_exposure
        &&& self.total_volume_provided >= before.total_volume_provided
    }

    /// Whether the pools are skewed beyond the target spread.
    pub fn should_rebalance(&self, yes_pool: u64, no_pool: u64) -> (r: bool)
        ensures
            r == (skew_bps(yes_pool as int, no_pool as int) > self.target_spread_bps),
            yes_pool == no_pool ==> !r,
    {
        proof {
            if yes_pool == no_pool && yes_pool > 0 {
                assert(yes_pool * 10_000 == 5_000 * (yes_pool + no_pool)) by (nonlinear_arith)
                    requires
                        yes_pool == no_pool,
                ;
                vstd::arithmetic::div_mod::lemma_div_multiples_vanish(
                    5_000,
                    yes_pool + no_pool,
                );
                assert((yes_pool + no_pool) * 5_000 == 5_000 * (yes_pool + no_pool))
                    by (nonlinear_arith);
            }
        }
        let yes: u64 = exact_yes_bps(yes_pool, no_pool);
        let skew: u64 = if yes >= 5_000 {
            yes - 5_000
        } else {
            5_000 - yes
        };
        skew > self.target_spread_bps
    }

    /// What each side would need added to bring the smaller pool to the
    /// midpoint of the two: half the difference for the smaller side, nothing
    /// for the other.
    pub fn calculate_rebalance_amounts(&self, yes_pool: u64, no_pool: u64) -> (needed: (u64, u64))
        ensures
            yes_pool < no_pool ==> needed.0 == (no_pool - yes_pool) / 2 && needed.1 == 0,
            yes_pool > no_pool ==> needed.0 == 0 && needed.1 == (yes_pool - no_pool) / 2,
            yes_pool == no_pool ==> needed == (0u64, 0u64),
            needed.0 == 0 || needed.1 == 0,
    {
        if yes_pool < no_pool {
            ((no_pool - yes_pool) / 2, 0)
        } else if yes_pool > no_pool {
            (0, (yes_pool - no_pool) / 2)
        } else {
            (0, 0)
        }
    }
}

// ---------- Fees ----------

/// How collected fees are split, in basis points of the whole.
#[derive(Clone, Copy, Debug)]
pub struct FeeDistribution {
    pub treasury_bps: u16,
    pub liquidity_bps: u16,
    pub creator_bps: u16,
}

impl FeeDistribution {
    /// The invariant of the split: the three parts make up the whole.
    pub open spec fn wf(self) -> bool {
        self.treasury_bps + self.liquidity_bps + self.creator_bps == 10_000
    }
}

/// Bookkeeping of consolidated fees and of who may consolidate them.
#[derive(Clone, Copy, Debug)]
pub struct FeeCollector {
    pub authority: Pubkey,
    pub total_fees_collected: u64,
    pub treasury: Pubkey,
    pub fee_distribution: FeeDistribution,
}

impl FeeCollector {
    /// Bytes of a stored fee collector, its eight-byte tag included.
    pub const SIZE: usize = 8 + 78;
}

// ---------- Params ----------

/// The policy under which markets are created.
#[derive(Clone, Copy, Debug)]
pub struct MarketParams {
    pub min_bet_amount: u64,
    pub max_bet_amount: u64,
    pub min_settlement_time: i64,
    pub max_settlement_time: i64,
    pub max_price_confidence: u64,
    pub min_liquidity: u64,
    pub oracle_staleness_threshold: i64,
}

impl Default for MarketParams {
    fn default() -> (params: Self)
        ensures
            params.min_bet_amount == 100_000,
            params.max_bet_amount == 1_000_000_000_000,
            params.min_settlement_time == 3_600,
            params.max_settlement_time == 31_536_000,
            params.max_price_confidence == 5,
            params.min_liquidity == 10_000_000,
            params.oracle_staleness_threshold == 60,
    {
        Self {
            min_bet_amount: 100_000,
            max_bet_amount: 1_000_000_000_000,
            min_settlement_time: 3_600,
            max_settlement_time: 31_536_000,
            max_price_confidence: 5,
            min_liquidity: 10_000_000,
            oracle_staleness_threshold: 60,
        }
    }
}

// ---------- Pricing and risk ----------

/// How far the YES share of the pot moves, in basis points, when `amount`
/// joins the pool of `side`. Both shares are taken of the exact pot.
pub open spec fn price_impact_of(yes_pool: int, no_pool: int, amount: int, side: Outcome) -> int {
    let before = yes_share_bps(yes_pool, no_pool);
    let after = match side {
        Outcome::Yes => yes_share_bps(yes_pool + amount, no_pool),
        Outcome::No => yes_share_bps(yes_pool, no_pool + amount),
    };
    if after >= before {
        after - before
    } else {
        before - after
    }
}

/// The side that the pools price below an outside YES probability, with the
/// margin in basis points, where the two differ by more than the smallest
/// margin that counts.
pub open spec fn arbitrage_of(yes_bps: int, ext_yes_bps: int) -> Option<(Outcome, int)> {
    if ext_yes_bps > yes_bps + MIN_PROFIT_BPS {
        Some((Outcome::Yes, ext_yes_bps - yes_bps))
    } else if yes_bps > ext_yes_bps + MIN_PROFIT_BPS {
        Some((Outcome::No, yes_bps - ext_yes_bps))
    } else {
        None
    }
}

/// What a fresh bet of `amount` would be paid if its side won with the
/// pools as they are and the bet in them: twice the amount on a side
/// without stakes.
pub open spec fn expected_payout_of(amount: int, win_pool: int, lose_pool: int) -> int {
    if win_pool == 0 {
        2 * amount
    } else {
        amount * (win_pool + lose_pool + amount) / (win_pool + amount)
    }
}

/// Whether the projection of a fresh bet stays within 64 bits at every
/// step: the doubled amount on a side without stakes, else the pot with the
/// bet in it and its product with the amount.
pub open spec fn expected_payout_fits(amount: int, win_pool: int, lose_pool: int) -> bool {
    if win_pool == 0 {
        2 * amount <= u64::MAX
    } else {
        &&& win_pool + lose_pool + amount <= u64::MAX
        &&& amount * (win_pool + lose_pool + amount) <= u64::MAX
    }
}

impl Market {
    /// The change of the YES share of the pot, in basis points, that a bet
    /// of `amount` on `side` would cause. Fails with `MathOverflow` where the
    /// pool of that side could not take the amount; the pot itself is taken
    /// exactly, also where both pools together pass 64 bits.
    pub fn calculate_price_impact(&self, amount: u64, side: Outcome) -> (r: Result<
        u64,
        PredictionMarketError,
    >)
        ensures
            self.pool(side) + amount > u64::MAX ==> r == Err::<u64, PredictionMarketError>(
                PredictionMarketError::MathOverflow,
            ),
            self.pool(side) + amount <= u64::MAX ==> {
                &&& r is Ok
                &&& r->Ok_0 == price_impact_of(
                    self.yes_pool as int,
                    self.no_pool as int,
                    amount as int,
                    side,
                )
                &&& r->Ok_0 <= 10_000
                &&& amount == 0 ==> r->Ok_0 == 0
            },
    {
        let before: u64 = exact_yes_bps(self.yes_pool, self.no_pool);
        let after: u64 = match side {
            Outcome::Yes => match self.yes_pool.checked_add(amount) {
                Some(yes_pool) => exact_yes_bps(yes_pool, self.no_pool),
                None => {
                    return Err(PredictionMarketError::MathOverflow);
                },
            },
            Outcome::No => match self.no_pool.checked_add(amount) {
                Some(no_pool) => exact_yes_bps(self.yes_pool, no_pool),
                None => {
                    return Err(PredictionMarketError::MathOverflow);
                },
            },
        };
        if after >= before {
            Ok(after - before)
        } else {
            Ok(before - after)
        }
    }

    /// Holds an outside YES probability, in basis points, against the
    /// market's own spot price: where they differ by more than the smallest
    /// margin, names the side that the pools underprice and the margin.
    /// Never names both sides.
    pub fn calculate_arbitrage_opportunity(&self, ext_yes_bps: u64) -> (r: Option<(Outcome, u64)>)
        ensures
            match arbitrage_of(self.spot_prices().0, ext_yes_bps as int) {
                Some((side, margin)) => r == Some((side, margin as u64)) && margin
                    > MIN_PROFIT_BPS,
                None => r is None,
            },
    {
        proof {
            lemma_yes_price_in_range(self.yes_pool as int, self.no_pool as int);
        }
        let yes_bps: u64 = spot_yes_bps(self.yes_pool, self.no_pool);
        if ext_yes_bps > yes_bps + MIN_PROFIT_BPS {
            Some((Outcome::Yes, ext_yes_bps - yes_bps))
        } else if yes_bps > MIN_PROFIT_BPS && yes_bps - MIN_PROFIT_BPS > ext_yes_bps {
            Some((Outcome::No, yes_bps - ext_yes_bps))
        } else {
            None
        }
    }

    /// Projects what a fresh bet of `amount` on `side` would be paid, fees
    /// aside. Every step is taken at 64 bits, and the projection fails with
    /// `MathOverflow` where one does not fit.
    pub fn get_expected_payout(&self, amount: u64, side: Outcome) -> (r: Result<
        u64,
        PredictionMarketError,
    >)
        ensures
            expected_payout_fits(
                amount as int,
                self.pool(side) as int,
                self.opposite_pool(side) as int,
            ) ==> r is Ok && r->Ok_0 == expected_payout_of(
                amount as int,
                self.pool(side) as int,
                self.opposite_pool(side) as int,
            ),
            !expected_payout_fits(
                amount as int,
                self.pool(side) as int,
                self.opposite_pool(side) as int,
            ) ==> r == Err::<u64, PredictionMarketError>(PredictionMarketError::MathOverflow),
    {
        let (win_pool, lose_pool): (u64, u64) = match side {
            Outcome::Yes => (self.yes_pool, self.no_pool),
            Outcome::No => (self.no_pool, self.yes_pool),
        };
        if win_pool == 0 {
            return match amount.checked_mul(2) {
                Some(doubled) => Ok(doubled),
                None => Err(PredictionMarketError::MathOverflow),
            };
        }
        let pot: u64 = match win_pool.checked_add(lose_pool) {
            Some(pot) => pot,
            None => {
                return Err(PredictionMarketError::MathOverflow);
            },
        };
        let total_after: u64 = match pot.checked_add(amount) {
            Some(total_after) => total_after,
            None => {
                return Err(PredictionMarketError::MathOverflow);
            },
        };
        match amount.checked_mul(total_after) {
            Some(product) => Ok(product / (win_pool + amount)),
            None => Err(PredictionMarketError::MathOverflow),
        }
    }
}

// ---------- Odds ----------

/// An exact share: `numerator` parts out of `denominator`, which is never
/// zero.
#[derive(Clone, Copy, Debug, PartialEq, Eq)]
pub struct Fraction {
    pub numerator: u64,
    pub denominator: u64,
}

impl Fraction {
    /// Whether the share is one half, written as one part out of two.
    pub open spec fn is_half(self) -> bool {
        self.numerator == 1 && self.denominator == 2
    }
}

impl Market {
    /// The share of the pot on either side, exactly: each pool over the pot,
    /// and one half for either side while the pot is empty.
    pub fn calculate_odds(&self) -> (odds: (Fraction, Fraction))
        ensures
            odds.0.denominator > 0,
            odds.1.denominator > 0,
            self.yes_pool == 0 && self.no_pool == 0 ==> odds.0.is_half() && odds.1.is_half(),
            self.yes_pool > 0 || self.no_pool > 0 ==> {
                &&& odds.0.numerator == self.yes_pool
                &&& odds.1.numerator == self.no_pool
                &&& odds.0.denominator == total_pot_of(self.yes_pool as int, self.no_pool as int)
                &&& odds.1.denominator == odds.0.denominator
            },
    {
        let total: u64 = self.get_total_pot();
        if total == 0 {
            let half = Fraction { numerator: 1, denominator: 2 };
            return (half, half);
        }
        (
            Fraction { numerator: self.yes_pool, denominator: total },
            Fraction { numerator: self.no_pool, denominator: total },
        )
    }
}

} // verus!
