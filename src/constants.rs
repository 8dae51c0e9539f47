use vstd::prelude::*;

verus! {

/// Basis points in one whole (10,000 bps = 100%).
pub const BPS_PER_WHOLE: u64 = 10_000;

/// Largest number of outcomes a bet may have.
pub const MAX_BET_OUTCOMES: usize = 256;

/// Smallest number of outcomes a bet may have.
pub const MIN_BET_OUTCOMES: usize = 2;

/// Default protocol configuration values.
pub const DEFAULT_ANTI_SPAM_FEE: u64 = 100_000;
pub const DEFAULT_WHISKY_FEE_BPS: u64 = 200;
pub const DEFAULT_POOL_CREATION_FEE: u64 = 1_000_000;
pub const DEFAULT_POOL_FEE_BPS: u64 = 100;
pub const DEFAULT_JACKPOT_PAYOUT_TO_USER_BPS: u64 = 7_000;
pub const DEFAULT_JACKPOT_PAYOUT_TO_CREATOR_BPS: u64 = 1_000;
pub const DEFAULT_JACKPOT_PAYOUT_TO_POOL_BPS: u64 = 1_000;
pub const DEFAULT_JACKPOT_PAYOUT_TO_WHISKY_BPS: u64 = 1_000;
pub const DEFAULT_BONUS_TO_JACKPOT_RATIO_BPS: u64 = 1_000;
pub const DEFAULT_MAX_HOUSE_EDGE_BPS: u64 = 300;
pub const DEFAULT_MAX_CREATOR_FEE_BPS: u64 = 500;
pub const DEFAULT_MAX_PAYOUT_BPS: u64 = 10_000;
pub const DEFAULT_POOL_WITHDRAW_FEE_BPS: u64 = 100;

/// Minimum wager a newly created pool asks for.
pub const DEFAULT_POOL_MIN_WAGER: u64 = 1_000_000;

/// Largest multiplier, in bps (10x).
pub const MAX_MULTIPLIER: u64 = 100_000;

/// Protocol-wide minimum wager, in smallest asset units.
pub const MIN_WAGER: u64 = 1_000;

/// Base jackpot probability, in micro basis points.
pub const JACKPOT_BASE_PROBABILITY: u64 = 1_000_000;

/// Ceiling of the jackpot probability, in micro basis points.
pub const JACKPOT_PROBABILITY_CAP: u64 = 1_000_000;

/// Number of equally likely jackpot draws.
pub const JACKPOT_OUTCOMES: u64 = 1_000_000;

/// Length bounds on text fields, in bytes.
pub const MAX_STRING_LENGTH: usize = 256;
pub const MAX_METADATA_LENGTH: usize = 512;

} // verus!
