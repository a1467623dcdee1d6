//! The engine's failure kinds and their classification.

use vstd::prelude::*;
use crate::state::Pubkey;

verus! {

/// Every way an operation of the engine can fail.
///
/// The position of a variant in this list is its ordinal; the code a client
/// sees is the ordinal plus [`ERROR_CODE_BASE`].
#[derive(Clone, Copy, Debug, PartialEq, Eq, Hash)]
pub enum PredictionMarketError {
    // Validation
    /// Invalid bet amount.
    InvalidAmount,
    /// Invalid price provided.
    InvalidPrice,
    /// Invalid target price - must be positive.
    InvalidTargetPrice,
    /// Invalid settlement time - must be in the future.
    InvalidSettleTime,
    /// Invalid mint provided.
    InvalidMint,
    /// Invalid token account owner.
    InvalidOwner,
    /// Invalid Pyth price feed.
    InvalidPythFeed,
    /// Invalid market reference.
    InvalidMarket,
    /// Invalid better reference.
    InvalidBetter,
    /// Invalid outcome specified.
    InvalidOutcome,
    // Market state
    /// Market has already been resolved.
    MarketAlreadyResolved,
    /// Market is not yet resolved.
    MarketNotResolved,
    /// Settlement time hasn't been reached yet.
    SettlementTimeNotMet,
    /// Market has expired and cannot accept bets.
    MarketExpired,
    /// Market is paused.
    MarketPaused,
    /// Market is not active.
    MarketNotActive,
    /// Invalid market status.
    InvalidMarketStatus,
    // Positions
    /// No winning outcome determined.
    NoWinningOutcome,
    /// User has no position in the winning outcome.
    NoWinningPosition,
    /// Position does not exist.
    PositionNotFound,
    /// No position to claim.
    NoPosition,
    /// Already claimed.
    AlreadyClaimed,
    // Calculations
    /// Calculation overflow occurred.
    CalculationOverflow,
    /// Division by zero error.
    DivideByZero,
    /// Insufficient balance for operation.
    InsufficientBalance,
    /// Fee calculation error.
    FeeCalculationError,
    /// Math overflow.
    MathOverflow,
    /// Invalid pool state.
    InvalidPool,
    // Oracle
    /// Price data is unavailable.
    PriceUnavailable,
    /// Price confidence interval is too wide.
    PriceConfidenceTooLow,
    /// Oracle data is stale.
    StaleOracleData,
    /// Oracle price is negative or invalid.
    InvalidOraclePrice,
    /// Price confidence too high.
    PriceConfidenceTooHigh,
    /// Price data too stale.
    PriceTooStale,
    /// Oracle error.
    OracleError,
    // Authorization
    /// Unauthorized - only market creator or resolver can perform this action.
    Unauthorized,
    /// Account is not a signer.
    MissingSignature,
    /// Invalid program authority.
    InvalidAuthority,
    /// Not authorized to resolve.
    UnauthorizedResolver,
    // Limits and constraints
    /// Bet amount exceeds maximum allowed.
    BetTooLarge,
    /// Bet amount below minimum allowed.
    BetTooSmall,
    /// Market has reached maximum capacity.
    MarketCapacityReached,
    /// Too many positions for this user.
    TooManyPositions,
    /// Slippage tolerance exceeded.
    SlippageExceeded,
    /// Transaction has expired.
    TransactionExpired,
    /// Invalid parameter value.
    InvalidParameter,
    /// Settlement time not reached.
    SettlementTimeNotReached,
    /// Insufficient liquidity.
    InsufficientLiquidity,
    // Market maker
    /// Rebalance not needed.
    RebalanceNotNeeded,
    /// Maximum exposure exceeded.
    MaxExposureExceeded,
    /// Arbitrage opportunity too small.
    InsufficientArbitrage,
    /// Settlement time is too soon.
    SettlementTimeTooSoon,
    /// Settlement time is too far in the future.
    SettlementTimeTooFar,
    /// Market is closed for betting.
    MarketClosed,
}

/// First code handed out to a failure kind.
pub const ERROR_CODE_BASE: u32 = 6000;

/// Number of failure kinds.
pub const ERROR_KIND_COUNT: u32 = 54;

impl PredictionMarketError {
    /// Position of the variant in the declaration, counted from zero.
    pub open spec fn ordinal(self) -> nat {
        match self {
            PredictionMarketError::InvalidAmount => 0,
            PredictionMarketError::InvalidPrice => 1,
            PredictionMarketError::InvalidTargetPrice => 2,
            PredictionMarketError::InvalidSettleTime => 3,
            PredictionMarketError::InvalidMint => 4,
            PredictionMarketError::InvalidOwner => 5,
            PredictionMarketError::InvalidPythFeed => 6,
            PredictionMarketError::InvalidMarket => 7,
            PredictionMarketError::InvalidBetter => 8,
            PredictionMarketError::InvalidOutcome => 9,
            PredictionMarketError::MarketAlreadyResolved => 10,
            PredictionMarketError::MarketNotResolved => 11,
            PredictionMarketError::SettlementTimeNotMet => 12,
            PredictionMarketError::MarketExpired => 13,
            PredictionMarketError::MarketPaused => 14,
            PredictionMarketError::MarketNotActive => 15,
            PredictionMarketError::InvalidMarketStatus => 16,
            PredictionMarketError::NoWinningOutcome => 17,
            PredictionMarketError::NoWinningPosition => 18,
            PredictionMarketError::PositionNotFound => 19,
            PredictionMarketError::NoPosition => 20,
            PredictionMarketError::AlreadyClaimed => 21,
            PredictionMarketError::CalculationOverflow => 22,
            PredictionMarketError::DivideByZero => 23,
            PredictionMarketError::InsufficientBalance => 24,
            PredictionMarketError::FeeCalculationError => 25,
            PredictionMarketError::MathOverflow => 26,
            PredictionMarketError::InvalidPool => 27,
            PredictionMarketError::PriceUnavailable => 28,
            PredictionMarketError::PriceConfidenceTooLow => 29,
            PredictionMarketError::StaleOracleData => 30,
            PredictionMarketError::InvalidOraclePrice => 31,
            PredictionMarketError::PriceConfidenceTooHigh => 32,
            PredictionMarketError::PriceTooStale => 33,
            PredictionMarketError::OracleError => 34,
            PredictionMarketError::Unauthorized => 35,
            PredictionMarketError::MissingSignature => 36,
            PredictionMarketError::InvalidAuthority => 37,
            PredictionMarketError::UnauthorizedResolver => 38,
            PredictionMarketError::BetTooLarge => 39,
            PredictionMarketError::BetTooSmall => 40,
            PredictionMarketError::MarketCapacityReached => 41,
            PredictionMarketError::TooManyPositions => 42,
            PredictionMarketError::SlippageExceeded => 43,
            PredictionMarketError::TransactionExpired => 44,
            PredictionMarketError::InvalidParameter => 45,
            PredictionMarketError::SettlementTimeNotReached => 46,
            PredictionMarketError::InsufficientLiquidity => 47,
            PredictionMarketError::RebalanceNotNeeded => 48,
            PredictionMarketError::MaxExposureExceeded => 49,
            PredictionMarketError::InsufficientArbitrage => 50,
            PredictionMarketError::SettlementTimeTooSoon => 51,
            PredictionMarketError::SettlementTimeTooFar => 52,
            PredictionMarketError::MarketClosed => 53,
        }
    }

    /// Whether a caller may simply retry once conditions change: a failure
    /// of timing or slippage, or an oracle reading that fresher data mends.
    pub open spec fn recoverable(self) -> bool {
        self is SlippageExceeded || self is TransactionExpired || self is PriceUnavailable
            || self is StaleOracleData || self is PriceConfidenceTooHigh || self is PriceTooStale
    }

    /// Whether the failure reports a caller-supplied value outside policy.
    pub open spec fn validation(self) -> bool {
        self is InvalidAmount || self is InvalidPrice || self is InvalidTargetPrice
            || self is InvalidSettleTime || self is InvalidMint || self is InvalidOwner
            || self is BetTooLarge || self is BetTooSmall
    }

    /// Whether the failure reports a caller identity mismatch against a
    /// stored authority, or a missing or invalid authority.
    pub open spec fn auth(self) -> bool {
        self is Unauthorized || self is UnauthorizedResolver || self is MissingSignature
            || self is InvalidAuthority
    }

    /// The numeric code of the failure for client-side handling.
    pub fn error_code(&self) -> (code: u32)
        ensures
            code == ERROR_CODE_BASE + self.ordinal(),
            ERROR_CODE_BASE <= code < ERROR_CODE_BASE + ERROR_KIND_COUNT,
    {
        let index: u32 = match self {
            PredictionMarketError::InvalidAmount => 0,
            PredictionMarketError::InvalidPrice => 1,
            PredictionMarketError::InvalidTargetPrice => 2,
            PredictionMarketError::InvalidSettleTime => 3,
            PredictionMarketError::InvalidMint => 4,
            PredictionMarketError::InvalidOwner => 5,
            PredictionMarketError::InvalidPythFeed => 6,
            PredictionMarketError::InvalidMarket => 7,
            PredictionMarketError::InvalidBetter => 8,
            PredictionMarketError::InvalidOutcome => 9,
            PredictionMarketError::MarketAlreadyResolved => 10,
            PredictionMarketError::MarketNotResolved => 11,
            PredictionMarketError::SettlementTimeNotMet => 12,
            PredictionMarketError::MarketExpired => 13,
            PredictionMarketError::MarketPaused => 14,
            PredictionMarketError::MarketNotActive => 15,
            PredictionMarketError::InvalidMarketStatus => 16,
            PredictionMarketError::NoWinningOutcome => 17,
            PredictionMarketError::NoWinningPosition => 18,
            PredictionMarketError::PositionNotFound => 19,
            PredictionMarketError::NoPosition => 20,
            PredictionMarketError::AlreadyClaimed => 21,
            PredictionMarketError::CalculationOverflow => 22,
            PredictionMarketError::DivideByZero => 23,
            PredictionMarketError::InsufficientBalance => 24,
            PredictionMarketError::FeeCalculationError => 25,
            PredictionMarketError::MathOverflow => 26,
            PredictionMarketError::InvalidPool => 27,
            PredictionMarketError::PriceUnavailable => 28,
            PredictionMarketError::PriceConfidenceTooLow => 29,
            PredictionMarketError::StaleOracleData => 30,
            PredictionMarketError::InvalidOraclePrice => 31,
            PredictionMarketError::PriceConfidenceTooHigh => 32,
            PredictionMarketError::PriceTooStale => 33,
            PredictionMarketError::OracleError => 34,
            PredictionMarketError::Unauthorized => 35,
            PredictionMarketError::MissingSignature => 36,
            PredictionMarketError::InvalidAuthority => 37,
            PredictionMarketError::UnauthorizedResolver => 38,
            PredictionMarketError::BetTooLarge => 39,
            PredictionMarketError::BetTooSmall => 40,
            PredictionMarketError::MarketCapacityReached => 41,
            PredictionMarketError::TooManyPositions => 42,
            PredictionMarketError::SlippageExceeded => 43,
            PredictionMarketError::TransactionExpired => 44,
            PredictionMarketError::InvalidParameter => 45,
            PredictionMarketError::SettlementTimeNotReached => 46,
            PredictionMarketError::InsufficientLiquidity => 47,
            PredictionMarketError::RebalanceNotNeeded => 48,
            PredictionMarketError::MaxExposureExceeded => 49,
            PredictionMarketError::InsufficientArbitrage => 50,
            PredictionMarketError::SettlementTimeTooSoon => 51,
            PredictionMarketError::SettlementTimeTooFar => 52,
            PredictionMarketError::MarketClosed => 53,
        };
        index + ERROR_CODE_BASE
    }

    /// Whether the user can retry after the failure.
    pub fn is_recoverable(&self) -> (r: bool)
        ensures
            r == self.recoverable(),
    {
        matches!(
            self,
            PredictionMarketError::SlippageExceeded
                | PredictionMarketError::TransactionExpired
                | PredictionMarketError::PriceUnavailable
                | PredictionMarketError::StaleOracleData
                | PredictionMarketError::PriceConfidenceTooHigh
                | PredictionMarketError::PriceTooStale
        )
    }

    /// Whether the failure is a validation failure.
    pub fn is_validation_error(&self) -> (r: bool)
        ensures
            r == self.validation(),
    {
        matches!(
            self,
            PredictionMarketError::InvalidAmount
                | PredictionMarketError::InvalidPrice
                | PredictionMarketError::InvalidTargetPrice
                | PredictionMarketError::InvalidSettleTime
                | PredictionMarketError::InvalidMint
                | PredictionMarketError::InvalidOwner
                | PredictionMarketError::BetTooLarge
                | PredictionMarketError::BetTooSmall
        )
    }

    /// Whether the failure is an authorization failure.
    pub fn is_auth_error(&self) -> (r: bool)
        ensures
            r == self.auth(),
    {
        matches!(
            self,
            PredictionMarketError::Unauthorized
                | PredictionMarketError::UnauthorizedResolver
                | PredictionMarketError::MissingSignature
                | PredictionMarketError::InvalidAuthority
        )
    }
}

/// Distinct failure kinds have distinct codes.
pub proof fn lemma_error_codes_distinct(a: PredictionMarketError, b: PredictionMarketError)
    requires
        a.ordinal() == b.ordinal(),
    ensures
        a == b,
{
}

/// No failure kind belongs to two of the three classes.
pub proof fn lemma_error_classes_disjoint(e: PredictionMarketError)
    ensures
        !(e.recoverable() && e.validation()),
        !(e.recoverable() && e.auth()),
        !(e.validation() && e.auth()),
{
}

/// A failure together with where and why it arose.
#[derive(Debug)]
pub struct ErrorContext {
    pub error: PredictionMarketError,
    pub message: String,
    pub account: Option<Pubkey>,
    pub instruction: String,
}

impl ErrorContext {
    /// A context that names no account yet.
    pub fn new(error: PredictionMarketError, message: String, instruction: String) -> (ctx: Self)
        ensures
            ctx.error == error,
            ctx.message == message,
            ctx.instruction == instruction,
            ctx.account is None,
    {
        Self { error, message, account: None, instruction }
    }

    /// The same context, naming `account`.
    pub fn with_account(self, account: Pubkey) -> (ctx: Self)
        ensures
            ctx.error == self.error,
            ctx.message == self.message,
            ctx.instruction == self.instruction,
            ctx.account == Some(account),
    {
        let mut ctx = self;
        ctx.account = Some(account);
        ctx
    }
}

} // verus!
