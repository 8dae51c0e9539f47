use vstd::prelude::*;

verus! {

/// General program failures.
#[derive(Clone, Copy, PartialEq, Eq, Structural, Debug)]
pub enum WhiskyError {
    Unauthorized,
    InvalidAmount,
    InsufficientFunds,
    InvalidConfiguration,
    OperationNotAllowed,
    InvalidProgramState,
    MathOverflow,
    InvalidAccount,
    AlreadyInitialized,
    NotInitialized,
    InvalidInstruction,
    InvalidMint,
    TokenTransferFailed,
    InvalidSignature,
    CalculationError,
    AccountNotInitialized,
    AccountAlreadyInitialized,
    InsufficientBalance,
}

/// Operations switched off by the protocol configuration.
#[derive(Clone, Copy, PartialEq, Eq, Structural, Debug)]
pub enum WhiskyStateError {
    PoolCreationNotAllowed,
    DepositNotAllowed,
    WithdrawalNotAllowed,
    PlaysNotAllowed,
    InvalidFeeConfiguration,
    FeatureDisabled,
    ConfigurationOutOfBounds,
    InvalidAuthority,
    ProtocolPaused,
    InvalidParameter,
}

/// Failures tied to a player's game slot.
#[derive(Clone, Copy, PartialEq, Eq, Structural, Debug)]
pub enum PlayerError {
    NotReadyToPlay,
    GameInProgress,
    InvalidNonce,
    PlayerNotFound,
    GameNotFound,
    InvalidGameState,
    CannotClaim,
    NoWinningsToClaim,
    PlayerNotInitialized,
    PlayerAlreadyInitialized,
    InvalidPlayerState,
    AntiSpamFeeRequired,
    NonceMismatch,
}

/// Failures of the commit-reveal settlement.
#[derive(Clone, Copy, PartialEq, Eq, Structural, Debug)]
pub enum RngError {
    InvalidRngAuthority,
    ResultNotRequested,
    ResultAlreadyProvided,
    InvalidRngSeed,
    SeedHashMismatch,
    RngTimeout,
    InvalidClientSeed,
    InvalidRngProvider,
    HashVerificationFailed,
    DuplicateSettlement,
}

/// Bet and wager validation failures.
#[derive(Clone, Copy, PartialEq, Eq, Structural, Debug)]
pub enum GameError {
    TooFewOutcomes,
    TooManyOutcomes,
    InvalidBetWeights,
    WagerTooLow,
    InvalidHouseEdge,
    MaxPayoutExceeded,
    InvalidMultiplier,
    GameNotSettled,
    InvalidBetConfiguration,
    InvalidBetParameters,
    HouseEdgeTooHigh,
    WagerTooHigh,
    InvalidGameState,
    InvalidGameResult,
    RngSettlementFailed,
    CreatorFeeTooHigh,
    InvalidJackpotConfiguration,
    InvalidMetadata,
}

/// Liquidity pool failures.
#[derive(Clone, Copy, PartialEq, Eq, Structural, Debug)]
pub enum PoolError {
    PoolNotFound,
    InsufficientLiquidity,
    InvalidPoolAuthority,
    DepositLimitExceeded,
    InvalidWithdrawalAmount,
    PoolPaused,
    PoolNotInitialized,
    InvalidTokenMint,
    InvalidLPTokenCalculation,
    WhitelistCheckFailed,
    CustomFeeOutOfBounds,
    WithdrawalLimitExceeded,
}

/// Any failure of the library, tagged by its family.
#[derive(Clone, Copy, PartialEq, Eq, Structural, Debug)]
pub enum CoreError {
    Whisky(WhiskyError),
    State(WhiskyStateError),
    Player(PlayerError),
    Rng(RngError),
    Game(GameError),
    Pool(PoolError),
}

} // verus!
