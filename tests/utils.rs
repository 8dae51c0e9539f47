use whisky_core::constants::{BPS_PER_WHOLE, MAX_BET_OUTCOMES, MIN_WAGER};
use whisky_core::errors::{CoreError, GameError};
use whisky_core::utils::{
    calculate_expected_return, calculate_fee, calculate_jackpot_probability, calculate_lp_tokens,
    calculate_multiplier, calculate_withdraw_amount, proportion, validate_bet, validate_house_edge,
    validate_max_payout, validate_string_length, validate_wager,
};

#[test]
fn test_calculate_lp_tokens() {
    // First deposit
    assert_eq!(calculate_lp_tokens(1000, 0, 0), 1000);

    // Subsequent deposits
    assert_eq!(calculate_lp_tokens(1000, 10000, 5000), 500);
}

#[test]
fn test_calculate_withdraw_amount() {
    assert_eq!(calculate_withdraw_amount(500, 10000, 5000), 1000);
    assert_eq!(calculate_withdraw_amount(1000, 0, 0), 0);
}

#[test]
fn test_calculate_fee() {
    assert_eq!(calculate_fee(1000, 200), 20); // 2% of 1000 = 20
    assert_eq!(calculate_fee(1000, 0), 0);
}

#[test]
fn test_calculate_multiplier() {
    let bet = vec![25, 25, 25, 25]; // Even odds
    assert_eq!(calculate_multiplier(&bet, 0), 40000); // 4x in BPS

    let bet = vec![90, 10]; // 90% vs 10%
    assert_eq!(calculate_multiplier(&bet, 1), 100000); // 10x in BPS
}

#[test]
fn test_validate_bet() {
    assert!(validate_bet(&vec![25, 25, 25, 25]).is_ok());
    assert!(validate_bet(&vec![0, 0]).is_err()); // No valid outcomes
    assert!(validate_bet(&vec![50]).is_err()); // Too few outcomes
}

#[test]
fn fee_never_exceeds_amount_up_to_full_rate() {
    assert_eq!(calculate_fee(u64::MAX, BPS_PER_WHOLE), u64::MAX);
    assert_eq!(calculate_fee(999, 9_999), 998);
    assert_eq!(calculate_fee(9_999, 1), 0);
    for rate in [0u64, 1, 200, 5_000, 9_999, 10_000] {
        for amount in [0u64, 1, 7, 1_000, 123_456_789, u64::MAX] {
            assert!(calculate_fee(amount, rate) <= amount);
        }
    }
}

#[test]
fn fee_uses_wide_intermediate() {
    // amount * rate overflows 64 bits, the quotient does not
    assert_eq!(calculate_fee(u64::MAX / 2, 20_000), u64::MAX - 1);
    assert_eq!(proportion(u64::MAX, u64::MAX, u64::MAX), u64::MAX as u128);
    assert_eq!(proportion(7, 3, 2), 10);
}

#[test]
fn lp_round_trip_returns_at_most_the_deposit() {
    // no rounding: the deposit comes back exactly
    let shares = calculate_lp_tokens(1000, 10_000, 5_000);
    assert_eq!(shares, 500);
    assert_eq!(calculate_withdraw_amount(shares, 11_000, 5_500), 1000);

    // rounding in the pool's favour
    let shares = calculate_lp_tokens(1001, 3, 1);
    assert_eq!(shares, 333);
    let back = calculate_withdraw_amount(shares, 1004, 334);
    assert_eq!(back, 1000);
    assert!(back <= 1001);

    // bootstrap
    assert_eq!(calculate_lp_tokens(1000, 0, 0), 1000);
    assert_eq!(calculate_withdraw_amount(1000, 1000, 1000), 1000);
}

#[test]
fn lp_bootstrap_when_either_side_is_empty() {
    assert_eq!(calculate_lp_tokens(777, 0, 5_000), 777);
    assert_eq!(calculate_lp_tokens(777, 5_000, 0), 777);
    assert_eq!(calculate_withdraw_amount(777, 5_000, 0), 0);
}

#[test]
fn validate_bet_names_each_failure() {
    assert_eq!(validate_bet(&[50]), Err(CoreError::Game(GameError::TooFewOutcomes)));
    assert_eq!(validate_bet(&[]), Err(CoreError::Game(GameError::TooFewOutcomes)));
    assert_eq!(validate_bet(&[0, 0]), Err(CoreError::Game(GameError::InvalidBetWeights)));
    let too_many = vec![1u32; MAX_BET_OUTCOMES + 1];
    assert_eq!(validate_bet(&too_many), Err(CoreError::Game(GameError::TooManyOutcomes)));
    let largest = vec![u32::MAX; MAX_BET_OUTCOMES];
    assert_eq!(validate_bet(&largest), Ok(()));
    assert_eq!(validate_bet(&[0, 1]), Ok(()));
}

#[test]
fn validate_wager_checks_both_minimums() {
    assert_eq!(validate_wager(5_000, 5_000), Ok(()));
    assert_eq!(validate_wager(4_999, 5_000), Err(CoreError::Game(GameError::WagerTooLow)));
    assert_eq!(validate_wager(MIN_WAGER - 1, 0), Err(CoreError::Game(GameError::WagerTooLow)));
    assert_eq!(validate_wager(MIN_WAGER, 0), Ok(()));
}

#[test]
fn house_edge_follows_largest_multiplier() {
    // [1, 1]: largest multiplier 20,000 bps, edge 10,000 - 5,000 = 5,000 bps
    assert_eq!(validate_house_edge(&[1, 1], 5_000), Ok(()));
    assert_eq!(validate_house_edge(&[1, 1], 4_999), Err(CoreError::Game(GameError::HouseEdgeTooHigh)));
    // [90, 10]: largest multiplier 100,000 bps, edge 9,000 bps
    assert_eq!(validate_house_edge(&[90, 10], 9_000), Ok(()));
    assert_eq!(validate_house_edge(&[90, 10], 8_999), Err(CoreError::Game(GameError::HouseEdgeTooHigh)));
    // nothing reachable: edge is 100%
    assert_eq!(validate_house_edge(&[0, 0], 10_000), Ok(()));
    assert_eq!(validate_house_edge(&[0, 0], 9_999), Err(CoreError::Game(GameError::HouseEdgeTooHigh)));
}

#[test]
fn max_payout_against_pool_share() {
    // [1, 1] at wager 10,000 can pay 20,000
    assert_eq!(validate_max_payout(&[1, 1], 10_000, 1_000_000, 10_000), Ok(()));
    assert_eq!(validate_max_payout(&[1, 1], 10_000, 20_000, 10_000), Ok(()));
    assert_eq!(
        validate_max_payout(&[1, 1], 10_000, 19_999, 10_000),
        Err(CoreError::Game(GameError::MaxPayoutExceeded))
    );
    assert_eq!(
        validate_max_payout(&[1, 1], 10_000, 1_000_000, 199),
        Err(CoreError::Game(GameError::MaxPayoutExceeded))
    );
    assert_eq!(validate_max_payout(&[1, 1], 10_000, 1_000_000, 200), Ok(()));
}

#[test]
fn multiplier_matches_weights() {
    let even = [25u32, 25, 25, 25];
    for i in 0..4 {
        assert_eq!(calculate_multiplier(&even, i), 40_000);
    }
    let skew = [90u32, 10];
    assert_eq!(calculate_multiplier(&skew, 0), 11_111);
    assert_eq!(calculate_multiplier(&skew, 1), 100_000);
    assert_eq!(calculate_multiplier(&skew, 2), 0);
    assert_eq!(calculate_multiplier(&[0, 5], 0), 0);
    assert_eq!(calculate_multiplier(&[1, 1], 0), 20_000);
}

#[test]
fn expected_return_sums_every_outcome() {
    assert_eq!(calculate_expected_return(&[1, 1]), 20_000);
    assert_eq!(calculate_expected_return(&[90, 10]), 19_999);
    assert_eq!(calculate_expected_return(&[0, 7]), 10_000);
    assert_eq!(calculate_expected_return(&[0, 0]), 0);
}

#[test]
fn jackpot_probability_is_clamped() {
    assert_eq!(calculate_jackpot_probability(10_000, 1_000_000), 1_000_000);
    assert_eq!(calculate_jackpot_probability(0, 1_000_000), 1_000_000);
    assert_eq!(calculate_jackpot_probability(5, 0), 1_000_000);
    assert_eq!(calculate_jackpot_probability(u64::MAX, 1), 1_000_000);
}

#[test]
fn string_length_is_counted_in_bytes() {
    assert_eq!(validate_string_length("abc", 3), Ok(()));
    assert_eq!(validate_string_length("abcd", 3), Err(CoreError::Game(GameError::InvalidMetadata)));
    // two characters, four bytes
    assert_eq!(validate_string_length("éé", 3), Err(CoreError::Game(GameError::InvalidMetadata)));
    assert_eq!(validate_string_length("", 0), Ok(()));
}
