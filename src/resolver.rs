use vstd::prelude::*;
use vstd::bytes::{spec_u64_to_le_bytes, u64_to_le_bytes};
use vstd::utf8::encode_utf8;
use sha2::{Digest, Sha256};
use crate::constants::JACKPOT_OUTCOMES;
use crate::utils::{lemma_total_weight_prefix, lemma_total_weight_step, sum_weights, total_weight_of};

verus! {

/// The SHA-256 digest of a byte string.
pub uninterp spec fn sha256_of(data: Seq<u8>) -> Seq<u8>;

/// Relies on `sha2::Sha256` through `Digest::digest`: the 32-byte SHA-256
/// digest of `data`, which depends on `data` alone.
#[verifier::external_body]
fn sha256(data: &[u8]) -> (r: [u8; 32])
    ensures
        r@ == sha256_of(data@),
{
    Sha256::digest(data).into()
}

/// The bytes hashed to resolve a game: the oracle's seed, the player's seed
/// and the nonce as eight little-endian bytes.
pub open spec fn game_message(rng_seed: Seq<u8>, client_seed: Seq<u8>, nonce: u64) -> Seq<u8> {
    rng_seed + client_seed + spec_u64_to_le_bytes(nonce)
}

/// The digest that decides a game.
pub open spec fn game_hash_of(rng_seed: Seq<u8>, client_seed: Seq<u8>, nonce: u64) -> Seq<u8> {
    sha256_of(game_message(rng_seed, client_seed, nonce))
}

/// The unsigned integer held little-endian in `bytes[start..start + 4]`.
pub open spec fn le_u32_at(bytes: Seq<u8>, start: int) -> int {
    bytes[start] + 256 * bytes[start + 1] + 65536 * bytes[start + 2] + 16777216 * bytes[start
        + 3]
}

/// The unsigned integer held little-endian in `bytes[start..start + 8]`.
pub open spec fn le_u64_at(bytes: Seq<u8>, start: int) -> int {
    le_u32_at(bytes, start) + 4294967296 * le_u32_at(bytes, start + 4)
}

/// `index` is the outcome that `target` falls into: the running weight
/// before it is at most `target`, the running weight through it exceeds it.
pub open spec fn selects_outcome(bet: Seq<u32>, target: int, index: int) -> bool {
    &&& 0 <= index < bet.len()
    &&& total_weight_of(bet.subrange(0, index)) <= target
    &&& target < total_weight_of(bet.subrange(0, index + 1))
}

/// Whether a digest draws the jackpot: its second four bytes, reduced to one
/// of a million outcomes, fall below the probability.
pub open spec fn jackpot_wins(hash: Seq<u8>, jackpot_probability_ubps: u64) -> bool {
    le_u32_at(hash, 4) % (JACKPOT_OUTCOMES as int) < jackpot_probability_ubps
}

/// The outcome index and the jackpot draw that a game resolves to.
pub open spec fn resolves_to(
    rng_seed: Seq<u8>,
    client_seed: Seq<u8>,
    nonce: u64,
    bet: Seq<u32>,
    jackpot_probability_ubps: u64,
    result: (u32, bool),
) -> bool {
    let hash = game_hash_of(rng_seed, client_seed, nonce);
    &&& selects_outcome(bet, le_u32_at(hash, 0) % (total_weight_of(bet) as int), result.0 as int)
    &&& result.1 == jackpot_wins(hash, jackpot_probability_ubps)
}

proof fn lemma_prefix_monotone(bet: Seq<u32>, a: int, b: int)
    requires
        0 <= a <= b <= bet.len(),
    ensures
        total_weight_of(bet.subrange(0, a)) <= total_weight_of(bet.subrange(0, b)),
{
    lemma_total_weight_prefix(bet.subrange(0, b), a);
    assert(bet.subrange(0, b).subrange(0, a) =~= bet.subrange(0, a));
}

/// At most one outcome holds a given target.
pub proof fn lemma_outcome_unique(bet: Seq<u32>, target: int, i: int, j: int)
    requires
        selects_outcome(bet, target, i),
        selects_outcome(bet, target, j),
    ensures
        i == j,
{
    if i < j {
        lemma_prefix_monotone(bet, i + 1, j);
    } else if j < i {
        lemma_prefix_monotone(bet, j + 1, i);
    }
}

/// Resolution is reproducible: the same seeds, nonce, bet and jackpot
/// probability always give the same outcome index and the same jackpot draw.
pub proof fn lemma_resolve_deterministic(
    rng_seed: Seq<u8>,
    client_seed: Seq<u8>,
    nonce: u64,
    bet: Seq<u32>,
    jackpot_probability_ubps: u64,
    first: (u32, bool),
    second: (u32, bool),
)
    requires
        resolves_to(rng_seed, client_seed, nonce, bet, jackpot_probability_ubps, first),
        resolves_to(rng_seed, client_seed, nonce, bet, jackpot_probability_ubps, second),
    ensures
        first == second,
{
    let hash = game_hash_of(rng_seed, client_seed, nonce);
    lemma_outcome_unique(
        bet,
        le_u32_at(hash, 0) % (total_weight_of(bet) as int),
        first.0 as int,
        second.0 as int,
    );
}

fn append_bytes(buffer: &mut Vec<u8>, bytes: &[u8])
    ensures
        final(buffer)@ == old(buffer)@ + bytes@,
{
    let mut i: usize = 0;
    while i < bytes.len()
        invariant
            0 <= i <= bytes@.len(),
            buffer@ == old(buffer)@ + bytes@.subrange(0, i as int),
        decreases bytes.len() - i,
    {
        buffer.push(bytes[i]);
        i = i + 1;
        assert(buffer@ =~= old(buffer)@ + bytes@.subrange(0, i as int));
    }
    assert(bytes@.subrange(0, bytes@.len() as int) =~= bytes@);
}

/// The digest that decides a game with these seeds and nonce.
pub fn get_game_hash(rng_seed: &str, client_seed: &str, nonce: u64) -> (r: [u8; 32])
    ensures
        r@ == game_hash_of(encode_utf8(rng_seed@), encode_utf8(client_seed@), nonce),
{
    let mut message: Vec<u8> = Vec::new();
    append_bytes(&mut message, rng_seed.as_bytes());
    append_bytes(&mut message, client_seed.as_bytes());
    let nonce_bytes = u64_to_le_bytes(nonce);
    append_bytes(&mut message, nonce_bytes.as_slice());
    assert(message@ =~= game_message(encode_utf8(rng_seed@), encode_utf8(client_seed@), nonce));
    sha256(message.as_slice())
}

fn read_le_u32(bytes: &[u8; 32], start: usize) -> (r: u64)
    requires
        start + 4 <= 32,
    ensures
        r == le_u32_at(bytes@, start as int),
        r <= u32::MAX,
{
    let b0 = bytes[start] as u64;
    let b1 = bytes[start + 1] as u64;
    let b2 = bytes[start + 2] as u64;
    let b3 = bytes[start + 3] as u64;
    b0 + 256 * b1 + 65536 * b2 + 16777216 * b3
}

/// The outcome that the draw `random` selects: with `target = random mod
/// total weight`, the first outcome whose running weight exceeds `target`.
pub fn select_outcome(bet: &[u32], random: u32) -> (r: u32)
    requires
        0 < total_weight_of(bet@) <= u64::MAX,
        bet@.len() <= u32::MAX + 1,
    ensures
        selects_outcome(bet@, random as int % (total_weight_of(bet@) as int), r as int),
{
    let total_weight = sum_weights(bet);
    let target: u64 = (random as u64) % total_weight;
    let mut cumulative_weight: u64 = 0;
    let mut index: usize = 0;
    while index < bet.len()
        invariant
            0 <= index <= bet@.len(),
            bet@.len() <= u32::MAX + 1,
            total_weight == total_weight_of(bet@),
            target < total_weight,
            target == random as int % (total_weight as int),
            cumulative_weight == total_weight_of(bet@.subrange(0, index as int)),
            cumulative_weight <= target,
        decreases bet.len() - index,
    {
        proof {
            lemma_total_weight_step(bet@, index as int);
            lemma_total_weight_prefix(bet@, index + 1);
        }
        cumulative_weight = cumulative_weight + bet[index] as u64;
        if target < cumulative_weight {
            return index as u32;
        }
        index = index + 1;
    }
    assert(bet@.subrange(0, bet@.len() as int) =~= bet@);
    (bet.len() - 1) as u32
}

/// The outcome index of a game, drawn from the first four bytes of its digest.
pub fn calculate_game_result(rng_seed: &str, client_seed: &str, nonce: u64, bet: &[u32]) -> (r:
    u32)
    requires
        0 < total_weight_of(bet@) <= u64::MAX,
        bet@.len() <= u32::MAX + 1,
    ensures
        selects_outcome(
            bet@,
            le_u32_at(game_hash_of(encode_utf8(rng_seed@), encode_utf8(client_seed@), nonce), 0)
                % (total_weight_of(bet@) as int),
            r as int,
        ),
{
    let hash = get_game_hash(rng_seed, client_seed, nonce);
    let random = read_le_u32(&hash, 0) as u32;
    select_outcome(bet, random)
}

/// Whether a game's digest draws the jackpot at the given probability, in
/// micro basis points.
pub fn calculate_jackpot_result(game_hash: &[u8; 32], jackpot_probability_ubps: u64) -> (r: bool)
    ensures
        r == jackpot_wins(game_hash@, jackpot_probability_ubps),
{
    let jackpot_random = read_le_u32(game_hash, 4);
    let jackpot_outcome = jackpot_random % JACKPOT_OUTCOMES;
    jackpot_outcome < jackpot_probability_ubps
}

/// Resolves a game: the outcome index and the jackpot draw, both from one
/// digest of the seeds and the nonce.
pub fn resolve(
    rng_seed: &str,
    client_seed: &str,
    nonce: u64,
    bet: &[u32],
    jackpot_probability_ubps: u64,
) -> (r: (u32, bool))
    requires
        0 < total_weight_of(bet@) <= u64::MAX,
        bet@.len() <= u32::MAX + 1,
    ensures
        resolves_to(
            encode_utf8(rng_seed@),
            encode_utf8(client_seed@),
            nonce,
            bet@,
            jackpot_probability_ubps,
            r,
        ),
{
    let hash = get_game_hash(rng_seed, client_seed, nonce);
    let random = read_le_u32(&hash, 0) as u32;
    let index = select_outcome(bet, random);
    let jackpot = calculate_jackpot_result(&hash, jackpot_probability_ubps);
    (index, jackpot)
}

/// The number that a digest draws in `[min, max)`: its first eight bytes,
/// little-endian, reduced into the range; `min` when the range is empty.
pub fn random_in_range(hash: &[u8; 32], min: u64, max: u64) -> (r: u64)
    ensures
        r == (if min >= max {
            min as int
        } else {
            min + le_u64_at(hash@, 0) % ((max - min) as int)
        }),
{
    if min >= max {
        return min;
    }
    let low = read_le_u32(hash, 0);
    let high = read_le_u32(hash, 4);
    let random_u64 = low + high * 4294967296;
    min + (random_u64 % (max - min))
}

/// A number in `[min, max)` drawn from the SHA-256 digest of `seed`; `min`
/// when the range is empty.
pub fn generate_random_number(seed: &[u8], min: u64, max: u64) -> (r: u64)
    ensures
        r == (if min >= max {
            min as int
        } else {
            min + le_u64_at(sha256_of(seed@), 0) % ((max - min) as int)
        }),
{
    if min >= max {
        return min;
    }
    let hash = sha256(seed);
    random_in_range(&hash, min, max)
}

} // verus!
