use vstd::prelude::*;

verus! {

/// Errors of option trading.
#[derive(Debug, Clone, Copy, PartialEq, Eq, Structural)]
pub enum OptionError {
    /// Option is not valid or has expired
    OptionNotValid,
    /// Option has already been exercised
    OptionAlreadyExercised,
    /// Option has expired
    OptionExpired,
    /// Option expired or invalid timing
    InvalidTimeError,
    /// Option index out of range or invalid
    InvalidOptionIndexError,
    /// Zero quantity not allowed for options - check premium calculation
    ZeroQuantityError,
    /// Invalid quantity specified
    InvalidQuantityError,
    /// Insufficient quantity available
    InsufficientQuantityError,
    /// Invalid pay amount calculated
    InvalidPayAmountError,
    /// Price requirement not met for option exercise
    InvalidPriceRequirementError,
    /// Option has been executed
    OptionExecuted,
    /// Invalid option
    InvalidOption,
    /// Invalid option premium calculation
    InvalidPremiumCalculation,
    /// Option strike price is invalid
    InvalidStrikePrice,
    /// Option expiry date is invalid
    InvalidExpiryDate,
    /// Option cannot be closed at current price
    InvalidCloseCondition,
    /// Invalid locked balance in custody
    InvalidLockedBalanceError,
    /// Pool balance is invalid or insufficient
    InvalidPoolBalanceError,
    /// Insufficient balance to cover premium/collateral
    InvalidSignerBalanceError,
}

/// Errors of perpetual positions.
#[derive(Debug, Clone, Copy, PartialEq, Eq, Structural)]
pub enum PerpetualError {
    /// Position has been liquidated
    PositionLiquidated,
    /// Position cannot be liquidated
    PositionNotLiquidatable,
    /// Invalid liquidation price
    InvalidLiquidationPrice,
    /// Invalid leverage specified
    InvalidLeverage,
    /// Insufficient collateral
    InsufficientCollateral,
    /// Invalid collateral asset
    InvalidCollateralAsset,
    /// Would cause liquidation
    WouldCauseLiquidation,
    /// Insufficient margin
    InsufficientMargin,
    /// Invalid position type
    InvalidPositionType,
    /// Position is not a limit order
    NotLimitOrder,
    /// Position is not a market order
    NotMarketOrder,
    /// Limit order cannot be executed at current price
    LimitOrderNotTriggered,
    /// Position already executed
    PositionAlreadyExecuted,
    /// Invalid trigger price
    InvalidTriggerPrice,
    /// Invalid position size
    InvalidPositionSize,
    /// Position size too small
    PositionSizeTooSmall,
    /// Position size too large
    PositionSizeTooLarge,
    /// Maximum leverage exceeded
    MaxLeverageExceeded,
    /// Minimum margin requirement not met
    MinMarginNotMet,
    /// Position funding payment failed
    FundingPaymentFailed,
    /// Position interest payment failed
    InterestPaymentFailed,
    /// Invalid funding rate
    InvalidFundingRate,
    /// Invalid interest rate
    InvalidInterestRate,
    /// Position PnL calculation failed
    PnLCalculationFailed,
    /// Position update failed
    PositionUpdateFailed,
    /// Invalid position state
    InvalidPositionState,
    /// Position not found
    PositionNotFound,
    /// Cannot modify executed position
    CannotModifyExecutedPosition,
    /// Invalid execution price
    InvalidExecutionPrice,
    /// Position cannot be canceled
    PositionCannotBeCanceled,
    /// Utilization rate too high
    UtilizationTooHigh,
    /// Invalid utilization rate
    InvalidUtilizationRate,
    /// Invalid borrow rate curve point
    InvalidBorrowRateCurvePoint,
    /// Borrow rate not initialized
    BorrowRateNotInitialized,
    /// Asset type not set
    AssetTypeNotSet,
    /// Invalid perpetuals config
    InvalidPerpetualsConfig,
    /// Custody amount limit exceeded
    CustodyAmountLimit,
    /// Position amount limit exceeded
    PositionAmountLimit,
    /// Maximum utilization exceeded
    MaxUtilization,
    /// Invalid order type for this operation
    InvalidOrderType,
    /// Take-profit or stop-loss order is not triggered at the current price
    TpSlNotTriggered,
}

/// Errors common to options, perpetuals and futures.
#[derive(Debug, Clone, Copy, PartialEq, Eq, Structural)]
pub enum TradingError {
    /// Invalid amount specified
    InvalidAmount,
    /// Invalid slippage tolerance
    InvalidSlippage,
    /// Price slippage exceeded limits
    PriceSlippage,
    /// Slippage exceeded on trade
    SlippageExceededError,
    /// Invalid parameter provided
    InvalidParameterError,
    /// Insufficient balance for operation
    InsufficientBalance,
    /// Insufficient funds for transaction
    InsufficientFundsError,
    /// Insufficient pool liquidity
    InsufficientPoolLiquidity,
    /// Unauthorized access
    Unauthorized,
    /// Invalid owner
    InvalidOwner,
    /// Invalid mint specified
    InvalidMintError,
    /// Invalid price specified
    InvalidPrice,
    /// Invalid price range for TP/SL
    InvalidPriceRange,
    /// Invalid take profit price
    InvalidTakeProfitPrice,
    /// Invalid stop loss price
    InvalidStopLossPrice,
    /// Insufficient balance to cover premium/collateral
    InvalidSignerBalanceError,
    /// Invalid locked balance in custody
    InvalidLockedBalanceError,
    /// Price confidence interval too wide - oracle data unreliable
    PriceConfidenceError,
    /// Precision loss detected in calculations - values too small
    PrecisionLossError,
    /// Stale price data
    StalePriceError,
    /// Invalid order type
    InvalidOrderType,
    /// Position does not match the order book
    InvalidPosition,
    /// Invalid option
    InvalidOption,
    /// Order book already exists
    OrderbookAlreadyExists,
    /// Position has been liquidated
    PositionLiquidated,
    /// Position size too small
    PositionTooSmall,
}

/// Errors of liquidity pools and custodies.
#[derive(Debug, Clone, Copy, PartialEq, Eq, Structural)]
pub enum PoolError {
    /// Invalid withdrawal amount or conditions
    InvalidWithdrawError,
    /// Pool balance is invalid or insufficient
    InvalidPoolBalanceError,
    /// Signer balance insufficient for pool operation
    InvalidSignerBalanceError,
    /// Invalid custody token specified
    InvalidCustodyTokenError,
    /// Pool is in invalid state
    InvalidPoolState,
    /// Custody is in invalid state
    InvalidCustodyState,
    /// Invalid pool name
    InvalidPoolName,
    /// Invalid pool index
    InvalidPoolIndex,
    /// Invalid pool config
    InvalidPoolConfig,
    /// Invalid custody config
    InvalidCustodyConfig,
    /// Invalid collateral custody
    InvalidCollateralCustody,
    /// Token ratio out of range
    TokenRatioOutOfRange,
    /// Token is not supported
    UnsupportedToken,
}

/// Errors of the contract and its price oracles.
#[derive(Debug, Clone, Copy, PartialEq, Eq, Structural)]
pub enum ContractError {
    /// Oracle Account is invalid
    InvalidOracleAccount,
    /// Stale oracle price
    StaleOraclePrice,
    /// Invalid oracle price - negative or zero price detected
    InvalidOraclePrice,
    /// Oracle price confidence too low
    LowConfidencePrice,
    /// Insufficient amount returned from operation
    InsufficientAmountReturned,
    /// Unsupported price oracle
    UnsupportedOracle,
    /// Invalid oracle state
    InvalidOracleState,
    /// Instruction is not allowed in production
    InvalidEnvironment,
    /// Instruction is not allowed at this time
    InstructionNotAllowed,
    /// Permissionless oracle update must be preceded by Ed25519 signature verification instruction
    PermissionlessOracleMissingSignature,
    /// Ed25519 signature verification data does not match expected format
    PermissionlessOracleMalformedEd25519Data,
    /// Ed25519 signature was not signed by the oracle authority
    PermissionlessOracleSignerMismatch,
    /// Signed message does not match instruction params
    PermissionlessOracleMessageMismatch,
    /// Custody amount limit exceeded
    CustodyAmountLimit,
    /// Token ratio out of range
    TokenRatioOutOfRange,
}

/// Errors of arithmetic.
#[derive(Debug, Clone, Copy, PartialEq, Eq, Structural)]
pub enum MathError {
    /// Overflow in arithmetic operation
    MathOverflow,
    /// Division by zero attempted
    DivisionByZero,
    /// Underflow in arithmetic operation
    MathUnderflow,
    /// Invalid calculation result
    InvalidCalculationResult,
    /// Precision loss in calculation
    PrecisionLoss,
    /// Number conversion failed
    ConversionFailed,
}

/// Errors of multi-signature administration.
#[derive(Debug, Clone, Copy, PartialEq, Eq, Structural)]
pub enum MultiSigError {
    /// Account is not authorized to sign this instruction
    NotAuthorizedMultiSigError,
    /// Account has already signed this instruction
    AlreadySignedMultiSigError,
    /// This instruction has already been executed
    AlreadyExecutedMultiSigError,
    /// Multisig account not authorized
    MultisigAccountNotAuthorized,
    /// Multisig already signed
    MultisigAlreadySigned,
    /// Multisig already executed
    MultisigAlreadyExecuted,
}

/// Errors of dated futures.
#[derive(Debug, Clone, Copy, PartialEq, Eq, Structural)]
pub enum FutureError {
    /// Expiry time must lie in the future
    InvalidExpiryTime,
    /// Expiry is more than one year away
    ExpiryTooFar,
    /// Expiry is less than one hour away
    ExpiryTooClose,
    /// Invalid future size
    InvalidFutureSize,
    /// Future size below the minimum
    FutureSizeTooSmall,
    /// Future size above the maximum
    FutureSizeTooLarge,
    /// Maximum future leverage exceeded
    MaxFutureLeverageExceeded,
    /// Insufficient collateral for the future
    InsufficientCollateralForFuture,
    /// Future is not active
    FutureNotActive,
    /// Future has expired
    FutureExpired,
    /// Future has not expired yet
    FutureNotYetExpired,
    /// Future is not a pending limit order
    FutureNotPending,
    /// Future cannot be claimed
    FutureNotClaimable,
    /// Nothing to claim
    NothingToClaim,
    /// Future has no trigger price
    NoTriggerPrice,
    /// Trigger condition not met
    TriggerConditionNotMet,
    /// Settlement not available
    SettlementNotAvailable,
}

/// Every error that an operation of the contract can end with.
/// Failures of the plain comparisons that the contract makes without naming an
/// error of its own.
#[derive(Debug, Clone, Copy, PartialEq, Eq, Structural)]
pub enum ConstraintError {
    /// Two values that must be equal differ.
    RequireEqViolated,
    /// Two account addresses that must be equal differ.
    RequireKeysEqViolated,
    /// A value is not greater than the bound it must exceed.
    RequireGtViolated,
    /// A value is below the bound it must reach.
    RequireGteViolated,
}

#[derive(Debug, Clone, Copy, PartialEq, Eq, Structural)]
pub enum Error {
    OptionError(OptionError),
    PerpetualError(PerpetualError),
    TradingError(TradingError),
    PoolError(PoolError),
    ContractError(ContractError),
    MathError(MathError),
    MultiSigError(MultiSigError),
    FutureError(FutureError),
    ConstraintError(ConstraintError),
    /// An argument that the instruction cannot act on (such as a zero amount).
    InvalidArgument,
    /// The account to set up has been set up before.
    AccountAlreadyInitialized,
}

/// The error of an arithmetic overflow, the one that every checked helper reports.
pub open spec fn overflow() -> Error {
    Error::MathError(MathError::MathOverflow)
}

/// Builds the arithmetic-overflow error.
pub fn math_overflow() -> (e: Error)
    ensures
        e == overflow(),
{
    Error::MathError(MathError::MathOverflow)
}

} // verus!
