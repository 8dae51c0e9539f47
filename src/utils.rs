use vstd::prelude::*;
use vstd::utf8::encode_utf8;
use vstd::arithmetic::div_mod::{
    lemma_div_is_ordered, lemma_div_is_ordered_by_denominator, lemma_div_multiples_vanish,
    lemma_fundamental_div_mod,
};
use crate::constants::{
    BPS_PER_WHOLE, JACKPOT_BASE_PROBABILITY, JACKPOT_PROBABILITY_CAP, MAX_BET_OUTCOMES,
    MIN_BET_OUTCOMES, MIN_WAGER,
};
use crate::errors::{CoreError, GameError};

verus! {

// ---------------------------------------------------------------------------
// Fixed-point arithmetic
// ---------------------------------------------------------------------------

/// `floor(a * b / c)` over the integers.
pub open spec fn proportion_of(a: int, b: int, c: int) -> int {
    a * b / c
}

/// `floor(amount * fee_bps / 10_000)`.
pub open spec fn fee_of(amount: int, fee_bps: int) -> int {
    proportion_of(amount, fee_bps, BPS_PER_WHOLE as int)
}

/// Share tokens minted for a deposit: 1:1 while the pool is empty,
/// otherwise in proportion to the current share price.
pub open spec fn lp_tokens_for(deposit: int, liquidity: int, supply: int) -> int {
    if supply == 0 || liquidity == 0 {
        deposit
    } else {
        proportion_of(deposit, supply, liquidity)
    }
}

/// Underlying tokens paid out for burning `shares` share tokens.
pub open spec fn withdraw_amount_for(shares: int, liquidity: int, supply: int) -> int {
    if supply == 0 {
        0
    } else {
        proportion_of(shares, liquidity, supply)
    }
}

/// Computes `floor(a * b / c)` in a 128-bit intermediate, which holds the
/// product of any two `u64` values.
pub fn proportion(a: u64, b: u64, c: u64) -> (r: u128)
    requires
        c > 0,
    ensures
        r == proportion_of(a as int, b as int, c as int),
        r <= a * b,
{
    assert((a as int) * (b as int) <= (u64::MAX as int) * (u64::MAX as int)) by (nonlinear_arith)
        requires
            a <= u64::MAX,
            b <= u64::MAX,
    ;
    let p: u128 = (a as u128) * (b as u128);
    proof {
        lemma_div_is_ordered_by_denominator(p as int, 1, c as int);
    }
    p / (c as u128)
}

/// The fee of `fee_bps` basis points on `amount`, rounded down.
pub fn calculate_fee(amount: u64, fee_bps: u64) -> (r: u64)
    requires
        fee_of(amount as int, fee_bps as int) <= u64::MAX,
    ensures
        r == fee_of(amount as int, fee_bps as int),
        fee_bps <= BPS_PER_WHOLE ==> r <= amount,
{
    proof {
        if fee_bps <= BPS_PER_WHOLE {
            lemma_fee_at_most_amount(amount, fee_bps);
        }
    }
    proportion(amount, fee_bps, BPS_PER_WHOLE) as u64
}

/// A fee of at most 100% never exceeds the amount it is taken from.
pub proof fn lemma_fee_at_most_amount(amount: u64, fee_bps: u64)
    requires
        fee_bps <= BPS_PER_WHOLE,
    ensures
        0 <= fee_of(amount as int, fee_bps as int) <= amount,
{
    let a = amount as int;
    let b = fee_bps as int;
    assert(a * b <= a * 10000) by (nonlinear_arith)
        requires
            0 <= a,
            0 <= b <= 10000,
    ;
    assert(0 <= a * b) by (nonlinear_arith)
        requires
            0 <= a,
            0 <= b,
    ;
    lemma_div_is_ordered(a * b, a * 10000, 10000);
    lemma_div_multiples_vanish(a, 10000);
    lemma_div_is_ordered(0, a * b, 10000);
}

// ---------------------------------------------------------------------------
// Liquidity accounting
// ---------------------------------------------------------------------------

/// Share tokens to mint for `deposit_amount`, given the pool's liquidity and
/// share supply before the deposit.
pub fn calculate_lp_tokens(deposit_amount: u64, pool_liquidity: u64, lp_supply: u64) -> (r: u64)
    requires
        lp_tokens_for(deposit_amount as int, pool_liquidity as int, lp_supply as int) <= u64::MAX,
    ensures
        r == lp_tokens_for(deposit_amount as int, pool_liquidity as int, lp_supply as int),
{
    if lp_supply == 0 || pool_liquidity == 0 {
        return deposit_amount;
    }
    proportion(deposit_amount, lp_supply, pool_liquidity) as u64
}

/// Underlying tokens to pay out for burning `lp_tokens`, given the pool's
/// liquidity and share supply before the withdrawal.
pub fn calculate_withdraw_amount(lp_tokens: u64, pool_liquidity: u64, lp_supply: u64) -> (r: u64)
    requires
        withdraw_amount_for(lp_tokens as int, pool_liquidity as int, lp_supply as int) <= u64::MAX,
    ensures
        r == withdraw_amount_for(lp_tokens as int, pool_liquidity as int, lp_supply as int),
{
    if lp_supply == 0 {
        return 0;
    }
    proportion(lp_tokens, pool_liquidity, lp_supply) as u64
}

/// Depositing `deposit` into a pool with `liquidity` and `supply`, then at
/// once withdrawing the shares it minted, returns at most `deposit`; exactly
/// `deposit` when the share computation did not round. A pool that holds
/// liquidity but no shares is left out: its first depositor takes it all.
pub proof fn lemma_lp_round_trip(deposit: u64, liquidity: u64, supply: u64)
    requires
        !(supply == 0 && liquidity > 0),
    ensures
        ({
            let shares = lp_tokens_for(deposit as int, liquidity as int, supply as int);
            let back = withdraw_amount_for(shares, liquidity + deposit, supply + shares);
            &&& 0 <= back <= deposit
            &&& (supply > 0 && liquidity > 0 && (deposit * supply) % (liquidity as int) == 0)
                ==> back == deposit
        }),
{
    let d = deposit as int;
    let l = liquidity as int;
    let s = supply as int;
    let k = lp_tokens_for(d, l, s);
    if s == 0 || l == 0 {
        // k == d; the pool after the deposit holds l + d over s + d shares.
        if s + d > 0 {
            assert(0 <= d * (l + d) <= d * (s + d)) by (nonlinear_arith)
                requires
                    0 <= d,
                    0 <= s,
                    l == 0 || (s == 0 && l == 0),
            ;
            lemma_div_is_ordered(0, d * (l + d), s + d);
            lemma_div_is_ordered(d * (l + d), d * (s + d), s + d);
            lemma_div_multiples_vanish(d, s + d);
        }
    } else {
        lemma_fundamental_div_mod(d * s, l);
        assert(0 <= d * s) by (nonlinear_arith)
            requires
                0 <= d,
                0 <= s,
        ;
        lemma_div_is_ordered(0, d * s, l);
        assert(k * l <= d * s) by (nonlinear_arith)
            requires
                k == (d * s) / l,
                d * s == l * ((d * s) / l) + (d * s) % l,
                0 <= (d * s) % l,
        ;
        assert(0 <= k * (l + d) <= d * (s + k)) by (nonlinear_arith)
            requires
                k * l <= d * s,
                0 <= k,
                0 <= d,
                0 <= l,
        ;
        lemma_div_is_ordered(0, k * (l + d), s + k);
        lemma_div_is_ordered(k * (l + d), d * (s + k), s + k);
        lemma_div_multiples_vanish(d, s + k);
        if (d * s) % l == 0 {
            assert(k * (l + d) == d * (s + k)) by (nonlinear_arith)
                requires
                    d * s == l * k,
            ;
        }
    }
}

// ---------------------------------------------------------------------------
// Jackpot probability
// ---------------------------------------------------------------------------

/// The wager as a share of the pool, in bps; zero for an empty pool.
pub open spec fn wager_ratio_of(wager: int, liquidity: int) -> int {
    if liquidity > 0 {
        proportion_of(wager, BPS_PER_WHOLE as int, liquidity)
    } else {
        0
    }
}

/// `base * ratio`, held between the base probability and the ceiling.
pub open spec fn jackpot_probability_of(wager: int, liquidity: int) -> int {
    let scaled = JACKPOT_BASE_PROBABILITY * wager_ratio_of(wager, liquidity);
    let floored = if scaled < JACKPOT_BASE_PROBABILITY { JACKPOT_BASE_PROBABILITY as int } else { scaled };
    if floored > JACKPOT_PROBABILITY_CAP { JACKPOT_PROBABILITY_CAP as int } else { floored }
}

/// The chance of a jackpot, in micro basis points, for a wager against a pool
/// of `pool_liquidity`.
pub fn calculate_jackpot_probability(wager: u64, pool_liquidity: u64) -> (r: u64)
    ensures
        r == jackpot_probability_of(wager as int, pool_liquidity as int),
{
    let ratio: u128 = if pool_liquidity > 0 {
        proportion(wager, BPS_PER_WHOLE, pool_liquidity)
    } else {
        0
    };
    assert(JACKPOT_BASE_PROBABILITY * ratio <= 1_000_000 * (u64::MAX * 10_000)) by (nonlinear_arith)
        requires
            ratio <= u64::MAX * 10_000,
    ;
    let scaled: u128 = (JACKPOT_BASE_PROBABILITY as u128) * ratio;
    let floored: u128 = if scaled < JACKPOT_BASE_PROBABILITY as u128 {
        JACKPOT_BASE_PROBABILITY as u128
    } else {
        scaled
    };
    if floored > JACKPOT_PROBABILITY_CAP as u128 {
        JACKPOT_PROBABILITY_CAP
    } else {
        floored as u64
    }
}

// ---------------------------------------------------------------------------
// Bet weights
// ---------------------------------------------------------------------------

/// Sum of all outcome weights of a bet.
pub open spec fn total_weight_of(bet: Seq<u32>) -> nat
    decreases bet.len(),
{
    if bet.len() == 0 {
        0
    } else {
        total_weight_of(bet.drop_last()) + bet.last() as nat
    }
}

pub(crate) proof fn lemma_total_weight_step(bet: Seq<u32>, i: int)
    requires
        0 <= i < bet.len(),
    ensures
        total_weight_of(bet.subrange(0, i + 1)) == total_weight_of(bet.subrange(0, i)) + bet[i],
{
    assert(bet.subrange(0, i + 1).drop_last() =~= bet.subrange(0, i));
}

pub(crate) proof fn lemma_total_weight_prefix(bet: Seq<u32>, i: int)
    requires
        0 <= i <= bet.len(),
    ensures
        total_weight_of(bet.subrange(0, i)) <= total_weight_of(bet),
    decreases bet.len(),
{
    if i == bet.len() {
        assert(bet.subrange(0, i) =~= bet);
    } else {
        lemma_total_weight_prefix(bet.drop_last(), i);
        assert(bet.drop_last().subrange(0, i) =~= bet.subrange(0, i));
    }
}

proof fn lemma_weight_at_most_total(bet: Seq<u32>, i: int)
    requires
        0 <= i < bet.len(),
    ensures
        bet[i] <= total_weight_of(bet),
{
    lemma_total_weight_step(bet, i);
    lemma_total_weight_prefix(bet, i + 1);
}

proof fn lemma_total_weight_bound(bet: Seq<u32>)
    ensures
        total_weight_of(bet) <= bet.len() * (u32::MAX as int),
    decreases bet.len(),
{
    if bet.len() > 0 {
        lemma_total_weight_bound(bet.drop_last());
    }
}

/// A bet of at most the allowed number of outcomes can be scaled to bps
/// without overflow.
pub proof fn lemma_short_bet_scales(bet: Seq<u32>)
    requires
        bet.len() <= MAX_BET_OUTCOMES,
    ensures
        total_weight_of(bet) * BPS_PER_WHOLE <= u64::MAX,
{
    lemma_total_weight_bound(bet);
    assert(bet.len() * (u32::MAX as int) * 10000 <= u64::MAX) by (nonlinear_arith)
        requires
            bet.len() <= 256,
    ;
}

pub(crate) fn sum_weights(bet: &[u32]) -> (r: u64)
    requires
        total_weight_of(bet@) <= u64::MAX,
    ensures
        r == total_weight_of(bet@),
{
    let mut sum: u64 = 0;
    let mut i: usize = 0;
    while i < bet.len()
        invariant
            0 <= i <= bet@.len(),
            sum == total_weight_of(bet@.subrange(0, i as int)),
            total_weight_of(bet@) <= u64::MAX,
        decreases bet.len() - i,
    {
        proof {
            lemma_total_weight_step(bet@, i as int);
            lemma_total_weight_prefix(bet@, i + 1);
        }
        sum = sum + bet[i] as u64;
        i = i + 1;
    }
    assert(bet@.subrange(0, bet@.len() as int) =~= bet@);
    sum
}

// ---------------------------------------------------------------------------
// Validation
// ---------------------------------------------------------------------------

/// The outcome of checking a bet's shape and weights.
pub open spec fn bet_check(bet: Seq<u32>) -> Result<(), CoreError> {
    if bet.len() < MIN_BET_OUTCOMES {
        Err(CoreError::Game(GameError::TooFewOutcomes))
    } else if bet.len() > MAX_BET_OUTCOMES {
        Err(CoreError::Game(GameError::TooManyOutcomes))
    } else if total_weight_of(bet) == 0 {
        Err(CoreError::Game(GameError::InvalidBetWeights))
    } else {
        Ok(())
    }
}

/// Checks that a bet has between two and 256 outcomes and that some outcome
/// can be reached.
pub fn validate_bet(bet: &[u32]) -> (r: Result<(), CoreError>)
    ensures
        r == bet_check(bet@),
        r is Ok ==> total_weight_of(bet@) * BPS_PER_WHOLE <= u64::MAX,
{
    if bet.len() < MIN_BET_OUTCOMES {
        return Err(CoreError::Game(GameError::TooFewOutcomes));
    }
    if bet.len() > MAX_BET_OUTCOMES {
        return Err(CoreError::Game(GameError::TooManyOutcomes));
    }
    proof {
        lemma_short_bet_scales(bet@);
    }
    let total_weight = sum_weights(bet);
    if total_weight == 0 {
        return Err(CoreError::Game(GameError::InvalidBetWeights));
    }
    Ok(())
}

/// Checks a wager against the pool's and the protocol's minimum.
pub fn validate_wager(wager: u64, min_wager: u64) -> (r: Result<(), CoreError>)
    ensures
        r == (if wager >= min_wager && wager >= MIN_WAGER {
            Ok(())
        } else {
            Err(CoreError::Game(GameError::WagerTooLow))
        }),
{
    if wager < min_wager || wager < MIN_WAGER {
        return Err(CoreError::Game(GameError::WagerTooLow));
    }
    Ok(())
}

/// Payout multiplier, in bps, of an outcome of weight `weight` in a bet of
/// total weight `total`; zero for an unreachable outcome.
pub open spec fn multiplier_of(total: int, weight: int) -> int {
    if weight > 0 {
        total * BPS_PER_WHOLE / weight
    } else {
        0
    }
}

/// Largest multiplier over the outcomes of `bet`, each taken against `total`.
pub open spec fn max_multiplier_in(bet: Seq<u32>, total: int) -> int
    decreases bet.len(),
{
    if bet.len() == 0 {
        0
    } else {
        let rest = max_multiplier_in(bet.drop_last(), total);
        let last = multiplier_of(total, bet.last() as int);
        if last > rest {
            last
        } else {
            rest
        }
    }
}

/// Largest payout multiplier, in bps, that a bet offers.
pub open spec fn max_multiplier(bet: Seq<u32>) -> int {
    max_multiplier_in(bet, total_weight_of(bet) as int)
}

/// Worst-case house edge of a bet, in bps: 100% when no outcome is reachable.
pub open spec fn house_edge_of(bet: Seq<u32>) -> int {
    let m = max_multiplier(bet);
    if m > 0 {
        BPS_PER_WHOLE - BPS_PER_WHOLE * BPS_PER_WHOLE / m
    } else {
        BPS_PER_WHOLE as int
    }
}

proof fn lemma_multiplier_range(total: int, weight: int)
    requires
        0 < weight <= total,
    ensures
        BPS_PER_WHOLE <= multiplier_of(total, weight) <= total * BPS_PER_WHOLE,
{
    lemma_div_is_ordered(weight * 10000, total * 10000, weight);
    lemma_div_multiples_vanish(10000, weight);
    lemma_div_is_ordered_by_denominator(total * 10000, 1, weight);
    assert(weight * 10000 <= total * 10000) by (nonlinear_arith)
        requires
            weight <= total,
    ;
    assert(10000 * weight == weight * 10000) by (nonlinear_arith);
}

fn find_max_multiplier(bet: &[u32], total_weight: u64) -> (r: u64)
    requires
        total_weight == total_weight_of(bet@),
        total_weight * BPS_PER_WHOLE <= u64::MAX,
    ensures
        r == max_multiplier(bet@),
        r == 0 || r >= BPS_PER_WHOLE,
        r <= total_weight * BPS_PER_WHOLE,
{
    let mut max_multiplier: u64 = 0;
    let mut i: usize = 0;
    while i < bet.len()
        invariant
            0 <= i <= bet@.len(),
            total_weight == total_weight_of(bet@),
            total_weight * BPS_PER_WHOLE <= u64::MAX,
            max_multiplier == max_multiplier_in(bet@.subrange(0, i as int), total_weight as int),
            max_multiplier == 0 || max_multiplier >= BPS_PER_WHOLE,
            max_multiplier <= total_weight * BPS_PER_WHOLE,
        decreases bet.len() - i,
    {
        assert(bet@.subrange(0, i + 1).drop_last() =~= bet@.subrange(0, i as int));
        let weight = bet[i];
        if weight > 0 {
            proof {
                lemma_weight_at_most_total(bet@, i as int);
                lemma_multiplier_range(total_weight as int, weight as int);
            }
            let multiplier = (total_weight * BPS_PER_WHOLE) / (weight as u64);
            if multiplier > max_multiplier {
                max_multiplier = multiplier;
            }
        }
        i = i + 1;
    }
    assert(bet@.subrange(0, bet@.len() as int) =~= bet@);
    max_multiplier
}

/// Checks that the worst-case house edge of a bet is within the policy limit.
pub fn validate_house_edge(bet: &[u32], max_house_edge_bps: u64) -> (r: Result<(), CoreError>)
    requires
        total_weight_of(bet@) * BPS_PER_WHOLE <= u64::MAX,
    ensures
        r == (if house_edge_of(bet@) <= max_house_edge_bps {
            Ok(())
        } else {
            Err(CoreError::Game(GameError::HouseEdgeTooHigh))
        }),
{
    let total_weight = sum_weights(bet);
    let max_multiplier = find_max_multiplier(bet, total_weight);
    let house_edge_bps = if max_multiplier > 0 {
        proof {
            lemma_div_is_ordered_by_denominator(100_000_000, 10000, max_multiplier as int);
        }
        BPS_PER_WHOLE - (BPS_PER_WHOLE * BPS_PER_WHOLE) / max_multiplier
    } else {
        BPS_PER_WHOLE
    };
    if house_edge_bps > max_house_edge_bps {
        return Err(CoreError::Game(GameError::HouseEdgeTooHigh));
    }
    Ok(())
}

/// Largest payout a bet can win: the wager at the bet's largest multiplier.
pub open spec fn max_payout_of(bet: Seq<u32>, wager: int) -> int {
    proportion_of(wager, max_multiplier(bet), BPS_PER_WHOLE as int)
}

/// Checks that the largest payout a bet can win stays within the share of the
/// pool that the policy allows.
pub fn validate_max_payout(bet: &[u32], wager: u64, pool_liquidity: u64, max_payout_bps: u64) -> (r:
    Result<(), CoreError>)
    requires
        total_weight_of(bet@) * BPS_PER_WHOLE <= u64::MAX,
    ensures
        r == (if max_payout_of(bet@, wager as int) <= fee_of(
            pool_liquidity as int,
            max_payout_bps as int,
        ) {
            Ok(())
        } else {
            Err(CoreError::Game(GameError::MaxPayoutExceeded))
        }),
{
    let total_weight = sum_weights(bet);
    let max_multiplier = find_max_multiplier(bet, total_weight);
    let max_payout = proportion(wager, max_multiplier, BPS_PER_WHOLE);
    let pool_limit = proportion(pool_liquidity, max_payout_bps, BPS_PER_WHOLE);
    if max_payout > pool_limit {
        return Err(CoreError::Game(GameError::MaxPayoutExceeded));
    }
    Ok(())
}

/// Checks a text's length in bytes.
pub fn validate_string_length(s: &str, max_length: usize) -> (r: Result<(), CoreError>)
    ensures
        r == (if encode_utf8(s@).len() <= max_length {
            Ok(())
        } else {
            Err(CoreError::Game(GameError::InvalidMetadata))
        }),
{
    if s.as_bytes().len() > max_length {
        return Err(CoreError::Game(GameError::InvalidMetadata));
    }
    Ok(())
}

// ---------------------------------------------------------------------------
// Multipliers and expected return
// ---------------------------------------------------------------------------

/// Payout multiplier, in bps, of outcome `outcome_index`; zero past the end of
/// the bet or for an outcome of weight zero.
pub fn calculate_multiplier(bet: &[u32], outcome_index: usize) -> (r: u64)
    requires
        total_weight_of(bet@) * BPS_PER_WHOLE <= u64::MAX,
    ensures
        r == (if outcome_index < bet@.len() {
            multiplier_of(total_weight_of(bet@) as int, bet@[outcome_index as int] as int)
        } else {
            0
        }),
{
    if outcome_index >= bet.len() {
        return 0;
    }
    let outcome_weight = bet[outcome_index] as u64;
    if outcome_weight == 0 {
        return 0;
    }
    let total_weight = sum_weights(bet);
    (total_weight * BPS_PER_WHOLE) / outcome_weight
}

/// Contribution of one outcome to the expected return: its probability times
/// its multiplier, both in bps and rounded down.
pub open spec fn expected_term(total: int, weight: int) -> int {
    if weight > 0 {
        proportion_of(weight, BPS_PER_WHOLE as int, total) * multiplier_of(total, weight)
            / BPS_PER_WHOLE as int
    } else {
        0
    }
}

/// Sum of the expected-return terms of the outcomes of `bet`.
pub open spec fn expected_return_in(bet: Seq<u32>, total: int) -> int
    decreases bet.len(),
{
    if bet.len() == 0 {
        0
    } else {
        expected_return_in(bet.drop_last(), total) + expected_term(total, bet.last() as int)
    }
}

/// Expected return of a bet, in bps of the wager; zero when nothing can win.
pub open spec fn expected_return_of(bet: Seq<u32>) -> int {
    if total_weight_of(bet) == 0 {
        0
    } else {
        expected_return_in(bet, total_weight_of(bet) as int)
    }
}

proof fn lemma_expected_term_bound(total: int, weight: int)
    requires
        0 < weight <= total,
    ensures
        0 <= proportion_of(weight, 10000, total) <= 10000,
        0 <= proportion_of(weight, 10000, total) * multiplier_of(total, weight) <= 100_000_000,
        0 <= expected_term(total, weight) <= 10000,
{
    let p = proportion_of(weight, 10000, total);
    let m = multiplier_of(total, weight);
    lemma_fundamental_div_mod(weight * 10000, total);
    lemma_fundamental_div_mod(total * 10000, weight);
    lemma_div_is_ordered(0, weight * 10000, total);
    lemma_div_is_ordered(weight * 10000, total * 10000, total);
    lemma_div_multiples_vanish(10000, total);
    assert(weight * 10000 <= total * 10000) by (nonlinear_arith)
        requires
            weight <= total,
    ;
    assert(10000 * total == total * 10000) by (nonlinear_arith);
    lemma_multiplier_range(total, weight);
    assert(p * total <= weight * 10000);
    assert(m * weight <= total * 10000);
    assert(0 <= p * m <= 100_000_000) by (nonlinear_arith)
        requires
            0 <= p,
            0 <= m,
            p * total <= weight * 10000,
            m * weight <= total * 10000,
            0 < weight,
            0 < total,
    ;
    lemma_div_is_ordered(0, p * m, 10000);
    lemma_div_is_ordered(p * m, 100_000_000, 10000);
}

proof fn lemma_expected_return_bound(bet: Seq<u32>, total: int)
    requires
        total_weight_of(bet) <= total,
    ensures
        0 <= expected_return_in(bet, total) <= total_weight_of(bet) * 10000,
    decreases bet.len(),
{
    if bet.len() > 0 {
        lemma_expected_return_bound(bet.drop_last(), total);
        if bet.last() > 0 {
            lemma_expected_term_bound(total, bet.last() as int);
        }
    }
}

/// Expected return of a bet, in bps of the wager (10,000 for a fair bet, less
/// by rounding).
pub fn calculate_expected_return(bet: &[u32]) -> (r: u64)
    requires
        total_weight_of(bet@) * BPS_PER_WHOLE <= u64::MAX,
    ensures
        r == expected_return_of(bet@),
{
    let total_weight = sum_weights(bet);
    if total_weight == 0 {
        return 0;
    }
    let mut expected_return: u64 = 0;
    let mut i: usize = 0;
    while i < bet.len()
        invariant
            0 <= i <= bet@.len(),
            total_weight == total_weight_of(bet@),
            total_weight > 0,
            total_weight * BPS_PER_WHOLE <= u64::MAX,
            expected_return == expected_return_in(bet@.subrange(0, i as int), total_weight as int),
        decreases bet.len() - i,
    {
        let ghost prefix = bet@.subrange(0, i + 1);
        assert(prefix.drop_last() =~= bet@.subrange(0, i as int));
        proof {
            lemma_total_weight_prefix(bet@, i + 1);
            lemma_expected_return_bound(prefix, total_weight as int);
        }
        let weight = bet[i];
        if weight > 0 {
            proof {
                lemma_weight_at_most_total(bet@, i as int);
                lemma_expected_term_bound(total_weight as int, weight as int);
                lemma_multiplier_range(total_weight as int, weight as int);
            }
            let probability = (weight as u64 * BPS_PER_WHOLE) / total_weight;
            let multiplier = (total_weight * BPS_PER_WHOLE) / (weight as u64);
            expected_return = expected_return + (probability * multiplier) / BPS_PER_WHOLE;
        }
        i = i + 1;
    }
    assert(bet@.subrange(0, bet@.len() as int) =~= bet@);
    expected_return
}

} // verus!
