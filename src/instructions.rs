use vstd::prelude::*;
use vstd::arithmetic::div_mod::{lemma_div_is_ordered, lemma_div_multiples_vanish};
use vstd::utf8::encode_utf8;
use crate::constants::{
    BPS_PER_WHOLE, DEFAULT_ANTI_SPAM_FEE, DEFAULT_BONUS_TO_JACKPOT_RATIO_BPS,
    DEFAULT_JACKPOT_PAYOUT_TO_CREATOR_BPS, DEFAULT_JACKPOT_PAYOUT_TO_POOL_BPS,
    DEFAULT_JACKPOT_PAYOUT_TO_USER_BPS, DEFAULT_JACKPOT_PAYOUT_TO_WHISKY_BPS,
    DEFAULT_MAX_CREATOR_FEE_BPS, DEFAULT_MAX_HOUSE_EDGE_BPS, DEFAULT_MAX_PAYOUT_BPS,
    DEFAULT_POOL_CREATION_FEE, DEFAULT_POOL_FEE_BPS, DEFAULT_POOL_MIN_WAGER,
    DEFAULT_POOL_WITHDRAW_FEE_BPS, DEFAULT_WHISKY_FEE_BPS, MAX_METADATA_LENGTH, MAX_STRING_LENGTH,
    MIN_WAGER,
};
use crate::errors::{
    CoreError, GameError, PlayerError, PoolError, RngError, WhiskyError, WhiskyStateError,
};
use crate::resolver::{resolve, resolves_to};
use crate::state::{
    zero_key, Game, GameSettled, GameStatus, Player, Pool, PoolAction, PoolChange, Pubkey, WhiskyState,
};
use crate::utils::{
    bet_check, calculate_fee, calculate_jackpot_probability, calculate_lp_tokens,
    calculate_multiplier, calculate_withdraw_amount, fee_of, house_edge_of,
    jackpot_probability_of, lemma_short_bet_scales, lp_tokens_for, max_payout_of, multiplier_of,
    proportion, proportion_of, total_weight_of, validate_bet, validate_house_edge,
    validate_max_payout, validate_string_length, validate_wager, withdraw_amount_for,
};

verus! {

// ---------------------------------------------------------------------------
// Settlement
// ---------------------------------------------------------------------------

/// What settlement reads: the configuration, the game, the two pool vault
/// balances and the caller.
pub struct RngSettle {
    pub whisky_state: WhiskyState,
    pub game: Game,
    /// Balance of the pool's liquidity vault.
    pub pool_liquidity: u64,
    /// Balance of the pool's jackpot vault.
    pub jackpot_balance: u64,
    /// The caller.
    pub rng: Pubkey,
}

/// Whether settlement may go ahead: the caller must be the oracle, the game
/// must await its result and hold a well-formed bet.
pub open spec fn settle_check(ctx: RngSettle) -> Result<(), CoreError> {
    if ctx.rng@ != ctx.whisky_state.rng_address@ {
        Err(CoreError::Whisky(WhiskyError::Unauthorized))
    } else if ctx.game.status != GameStatus::ResultRequested {
        Err(CoreError::Rng(RngError::ResultNotRequested))
    } else {
        bet_check(ctx.game.bet@)
    }
}

/// Multiplier, in bps, of the outcome at `index`.
pub open spec fn settlement_multiplier(bet: Seq<u32>, index: u32) -> int {
    if (index as int) < bet.len() {
        multiplier_of(total_weight_of(bet) as int, bet[index as int] as int)
    } else {
        0
    }
}

/// The wager paid at the multiplier of the outcome at `index`.
pub open spec fn base_payout_of(game: Game, index: u32) -> int {
    proportion_of(game.wager as int, settlement_multiplier(game.bet@, index), BPS_PER_WHOLE as int)
}

/// The jackpot pays out the whole vault, or nothing.
pub open spec fn jackpot_payout_of(jackpot_won: bool, jackpot_balance: u64) -> u64 {
    if jackpot_won {
        jackpot_balance
    } else {
        0
    }
}

/// The game once settled on outcome `index` and jackpot draw `jackpot_won`.
pub open spec fn settled_game(
    game: Game,
    rng_seed: String,
    next_rng_seed_hashed: String,
    index: u32,
    jackpot_won: bool,
    jackpot_balance: u64,
) -> Game {
    Game {
        status: GameStatus::Ready,
        result: index,
        rng_seed: rng_seed,
        next_rng_seed_hashed: next_rng_seed_hashed,
        jackpot_payout: jackpot_payout_of(jackpot_won, jackpot_balance),
        jackpot_result: if jackpot_won {
            1
        } else {
            0
        },
        ..game
    }
}

/// `record` reports the settled game `game`.
pub open spec fn is_settlement_record(record: GameSettled, game: Game, pool_liquidity: u64) -> bool {
    let base = base_payout_of(game, game.result);
    &&& record.user == game.user
    &&& record.pool == game.pool
    &&& record.token_mint == game.token_mint
    &&& record.creator == game.creator
    &&& record.creator_fee == game.creator_fee
    &&& record.whisky_fee == game.whisky_fee
    &&& record.pool_fee == game.pool_fee
    &&& record.jackpot_fee == game.jackpot_fee
    &&& record.underlying_used == game.underlying_used
    &&& record.bonus_used == game.bonus_used
    &&& record.wager == game.wager
    &&& record.payout == base + game.jackpot_payout
    &&& record.multiplier_bps == settlement_multiplier(game.bet@, game.result)
    &&& record.payout_from_bonus_pool == 0
    &&& record.payout_from_normal_pool == base
    &&& record.jackpot_probability_ubps == game.jackpot_probability_ubps
    &&& record.jackpot_result == game.jackpot_result
    &&& record.nonce == game.nonce
    &&& record.client_seed@ == game.client_seed@
    &&& record.result_index == game.result
    &&& record.bet@ == game.bet@
    &&& record.jackpot_payout_to_user == game.jackpot_payout
    &&& record.pool_liquidity == pool_liquidity
    &&& record.rng_seed@ == game.rng_seed@
    &&& record.next_rng_seed_hashed@ == game.next_rng_seed_hashed@
    &&& record.metadata@ == game.metadata@
}

/// `r` and `after` are what settling `before` on outcome `index` and jackpot
/// draw `jackpot_won` gives: the settled game and its record, or an overflow
/// error that leaves everything as it was.
pub open spec fn settles_as(
    before: RngSettle,
    rng_seed: String,
    next_rng_seed_hashed: String,
    index: u32,
    jackpot_won: bool,
    r: Result<GameSettled, CoreError>,
    after: RngSettle,
) -> bool {
    let game = settled_game(
        before.game,
        rng_seed,
        next_rng_seed_hashed,
        index,
        jackpot_won,
        before.jackpot_balance,
    );
    if base_payout_of(before.game, index) + jackpot_payout_of(jackpot_won, before.jackpot_balance)
        <= u64::MAX {
        &&& r is Ok
        &&& is_settlement_record(r->Ok_0, game, before.pool_liquidity)
        &&& after == (RngSettle { game, ..before })
    } else {
        &&& r == Err::<GameSettled, CoreError>(CoreError::Whisky(WhiskyError::MathOverflow))
        &&& after == before
    }
}

/// Settles a game whose outcome is already drawn: `result_index` is the
/// winning outcome and `jackpot_won` the jackpot draw. Fails only when the
/// total payout does not fit in a `u64`, and then changes nothing.
pub fn apply_settlement(
    ctx: &mut RngSettle,
    rng_seed: String,
    next_rng_seed_hashed: String,
    result_index: u32,
    jackpot_won: bool,
) -> (r: Result<GameSettled, CoreError>)
    requires
        settle_check(*old(ctx)) is Ok,
        (result_index as int) < old(ctx).game.bet@.len(),
    ensures
        settles_as(*old(ctx), rng_seed, next_rng_seed_hashed, result_index, jackpot_won, r, *final(ctx)),
{
    proof {
        lemma_short_bet_scales(ctx.game.bet@);
    }
    let multiplier = calculate_multiplier(ctx.game.bet.as_slice(), result_index as usize);
    let base_payout = proportion(ctx.game.wager, multiplier, BPS_PER_WHOLE);
    assert(ctx.game.wager * multiplier <= u64::MAX * u64::MAX) by (nonlinear_arith)
        requires
            ctx.game.wager <= u64::MAX,
            multiplier <= u64::MAX,
    ;
    let jackpot_payout: u64 = if jackpot_won {
        ctx.jackpot_balance
    } else {
        0
    };
    if base_payout + jackpot_payout as u128 > u64::MAX as u128 {
        return Err(CoreError::Whisky(WhiskyError::MathOverflow));
    }
    let base_payout = base_payout as u64;
    let total_payout = base_payout + jackpot_payout;

    let record_rng_seed = rng_seed.clone();
    let record_next_hash = next_rng_seed_hashed.clone();
    ctx.game.result = result_index;
    ctx.game.rng_seed = rng_seed;
    ctx.game.next_rng_seed_hashed = next_rng_seed_hashed;
    ctx.game.status = GameStatus::Ready;
    ctx.game.jackpot_payout = jackpot_payout;
    ctx.game.jackpot_result = if jackpot_won {
        1
    } else {
        0
    };

    let game = &ctx.game;
    let record = GameSettled {
        user: game.user,
        pool: game.pool,
        token_mint: game.token_mint,
        creator: game.creator,
        creator_fee: game.creator_fee,
        whisky_fee: game.whisky_fee,
        pool_fee: game.pool_fee,
        jackpot_fee: game.jackpot_fee,
        underlying_used: game.underlying_used,
        bonus_used: game.bonus_used,
        wager: game.wager,
        payout: total_payout,
        multiplier_bps: multiplier,
        payout_from_bonus_pool: 0,
        payout_from_normal_pool: base_payout,
        jackpot_probability_ubps: game.jackpot_probability_ubps,
        jackpot_result: game.jackpot_result,
        nonce: game.nonce,
        client_seed: game.client_seed.clone(),
        result_index,
        bet: game.bet.clone(),
        jackpot_payout_to_user: game.jackpot_payout,
        pool_liquidity: ctx.pool_liquidity,
        rng_seed: record_rng_seed,
        next_rng_seed_hashed: record_next_hash,
        metadata: game.metadata.clone(),
    };
    Ok(record)
}

/// Settles the game that awaits its result. Only the configured oracle may
/// call it, and only while the game awaits its result; the outcome and the
/// jackpot draw come from the digest of the revealed seed, the player's seed
/// and the nonce. On any error nothing changes. Whether the revealed seed
/// matches the commitment published in the previous round is not checked
/// here: the game keeps both, for anyone to audit.
pub fn rng_settle(ctx: &mut RngSettle, rng_seed: String, next_rng_seed_hashed: String) -> (r:
    Result<GameSettled, CoreError>)
    ensures
        old(ctx).rng@ != old(ctx).whisky_state.rng_address@ ==> r == Err::<GameSettled, CoreError>(
            CoreError::Whisky(WhiskyError::Unauthorized),
        ),
        old(ctx).rng@ == old(ctx).whisky_state.rng_address@ && old(ctx).game.status
            != GameStatus::ResultRequested ==> r == Err::<GameSettled, CoreError>(
            CoreError::Rng(RngError::ResultNotRequested),
        ),
        settle_check(*old(ctx)) is Err ==> r == Err::<GameSettled, CoreError>(
            settle_check(*old(ctx))->Err_0,
        ) && *final(ctx) == *old(ctx),
        settle_check(*old(ctx)) is Ok ==> exists|res: (u32, bool)|
            #[trigger] resolves_to(
                encode_utf8(rng_seed@),
                encode_utf8(old(ctx).game.client_seed@),
                old(ctx).game.nonce,
                old(ctx).game.bet@,
                old(ctx).game.jackpot_probability_ubps,
                res,
            ) && settles_as(
                *old(ctx),
                rng_seed,
                next_rng_seed_hashed,
                res.0,
                res.1,
                r,
                *final(ctx),
            ),
{
    if !(ctx.rng == ctx.whisky_state.rng_address) {
        return Err(CoreError::Whisky(WhiskyError::Unauthorized));
    }
    if ctx.game.status != GameStatus::ResultRequested {
        return Err(CoreError::Rng(RngError::ResultNotRequested));
    }
    match validate_bet(ctx.game.bet.as_slice()) {
        Err(e) => {
            return Err(e);
        },
        Ok(()) => {},
    }
    proof {
        lemma_short_bet_scales(ctx.game.bet@);
    }
    let (result_index, jackpot_won) = resolve(
        rng_seed.as_str(),
        ctx.game.client_seed.as_str(),
        ctx.game.nonce,
        ctx.game.bet.as_slice(),
        ctx.game.jackpot_probability_ubps,
    );
    let ghost res = (result_index, jackpot_won);
    let ghost before = *ctx;
    let r = apply_settlement(ctx, rng_seed, next_rng_seed_hashed, result_index, jackpot_won);
    assert(resolves_to(
        encode_utf8(rng_seed@),
        encode_utf8(before.game.client_seed@),
        before.game.nonce,
        before.game.bet@,
        before.game.jackpot_probability_ubps,
        res,
    ));
    r
}

// ---------------------------------------------------------------------------
// Starting a game
// ---------------------------------------------------------------------------

/// What starting a game reads and writes.
pub struct PlayGame {
    pub whisky_state: WhiskyState,
    pub pool: Pool,
    pub player: Player,
    pub game: Game,
    /// Mint of the pool's underlying asset.
    pub underlying_token_mint: Pubkey,
    /// Address of the pool record.
    pub pool_address: Pubkey,
    /// Balance of the pool's liquidity vault.
    pub pool_liquidity: u64,
    pub creator: Pubkey,
    /// The caller.
    pub user: Pubkey,
    /// Ledger time at which the game starts.
    pub timestamp: i64,
}

/// Largest creator fee the pool admits, in bps: its own override when set.
pub open spec fn max_creator_fee_of(whisky_state: WhiskyState, pool: Pool) -> u64 {
    if pool.custom_max_creator_fee {
        pool.custom_max_creator_fee_bps
    } else {
        whisky_state.max_creator_fee_bps
    }
}

/// Whether a game may start, and otherwise the first check that fails.
pub open spec fn start_check(
    ctx: PlayGame,
    wager: u64,
    bet: Seq<u32>,
    client_seed: Seq<char>,
    creator_fee_bps: u32,
    jackpot_fee_bps: u32,
    metadata: Seq<char>,
) -> Result<(), CoreError> {
    if ctx.user@ != ctx.player.user@ || ctx.user@ != ctx.game.user@ {
        Err(CoreError::Whisky(WhiskyError::Unauthorized))
    } else if !ctx.whisky_state.playing_allowed {
        Err(CoreError::State(WhiskyStateError::PlaysNotAllowed))
    } else if ctx.game.status == GameStatus::ResultRequested {
        Err(CoreError::Player(PlayerError::GameInProgress))
    } else if bet_check(bet) is Err {
        bet_check(bet)
    } else if wager < ctx.pool.min_wager || wager < MIN_WAGER {
        Err(CoreError::Game(GameError::WagerTooLow))
    } else if house_edge_of(bet) > ctx.whisky_state.max_house_edge_bps {
        Err(CoreError::Game(GameError::HouseEdgeTooHigh))
    } else if max_payout_of(bet, wager as int) > fee_of(
        ctx.pool_liquidity as int,
        ctx.whisky_state.max_payout_bps as int,
    ) {
        Err(CoreError::Game(GameError::MaxPayoutExceeded))
    } else if creator_fee_bps > max_creator_fee_of(ctx.whisky_state, ctx.pool) {
        Err(CoreError::Game(GameError::CreatorFeeTooHigh))
    } else if encode_utf8(client_seed).len() > MAX_STRING_LENGTH {
        Err(CoreError::Rng(RngError::InvalidClientSeed))
    } else if encode_utf8(metadata).len() > MAX_METADATA_LENGTH {
        Err(CoreError::Game(GameError::InvalidMetadata))
    } else if ctx.player.nonce == u64::MAX || fee_of(wager as int, creator_fee_bps as int)
        > u64::MAX || fee_of(wager as int, ctx.whisky_state.whisky_fee_bps as int) > u64::MAX
        || fee_of(wager as int, jackpot_fee_bps as int) > u64::MAX {
        Err(CoreError::Whisky(WhiskyError::MathOverflow))
    } else {
        Ok(())
    }
}

/// The game slot once a game has started in it.
pub open spec fn started_game(
    ctx: PlayGame,
    wager: u64,
    bet: Vec<u32>,
    client_seed: String,
    creator_fee_bps: u32,
    jackpot_fee_bps: u32,
    metadata: String,
) -> Game {
    Game {
        nonce: (ctx.player.nonce + 1) as u64,
        user: ctx.user,
        token_mint: ctx.underlying_token_mint,
        pool: ctx.pool_address,
        status: GameStatus::ResultRequested,
        timestamp: ctx.timestamp,
        creator: ctx.creator,
        wager,
        creator_fee: fee_of(wager as int, creator_fee_bps as int) as u64,
        whisky_fee: fee_of(wager as int, ctx.whisky_state.whisky_fee_bps as int) as u64,
        jackpot_fee: fee_of(wager as int, jackpot_fee_bps as int) as u64,
        client_seed,
        bet,
        metadata,
        jackpot_probability_ubps: jackpot_probability_of(
            wager as int,
            ctx.pool_liquidity as int,
        ) as u64,
        ..ctx.game
    }
}

/// Starts a game: checks the caller, the configuration, the slot's status,
/// the bet and the wager, then raises the player's nonce and fills the game
/// slot, which then awaits its result. Returns the amount to move into
/// escrow, the wager. On any error nothing changes.
pub fn play_game(
    ctx: &mut PlayGame,
    wager: u64,
    bet: Vec<u32>,
    client_seed: String,
    creator_fee_bps: u32,
    jackpot_fee_bps: u32,
    metadata: String,
) -> (r: Result<u64, CoreError>)
    ensures
        ({
            let check = start_check(
                *old(ctx),
                wager,
                bet@,
                client_seed@,
                creator_fee_bps,
                jackpot_fee_bps,
                metadata@,
            );
            if check is Err {
                &&& r == Err::<u64, CoreError>(check->Err_0)
                &&& *final(ctx) == *old(ctx)
            } else {
                &&& r == Ok::<u64, CoreError>(wager)
                &&& final(ctx).player == (Player { nonce: (old(ctx).player.nonce + 1) as u64, ..old(ctx).player })
                &&& final(ctx).game == started_game(
                    *old(ctx),
                    wager,
                    bet,
                    client_seed,
                    creator_fee_bps,
                    jackpot_fee_bps,
                    metadata,
                )
                &&& *final(ctx) == (PlayGame {
                    player: final(ctx).player,
                    game: final(ctx).game,
                    ..*old(ctx)
                })
            }
        }),
{
    if !(ctx.user == ctx.player.user) || !(ctx.user == ctx.game.user) {
        return Err(CoreError::Whisky(WhiskyError::Unauthorized));
    }
    if !ctx.whisky_state.playing_allowed {
        return Err(CoreError::State(WhiskyStateError::PlaysNotAllowed));
    }
    if ctx.game.status == GameStatus::ResultRequested {
        return Err(CoreError::Player(PlayerError::GameInProgress));
    }
    match validate_bet(bet.as_slice()) {
        Err(e) => {
            return Err(e);
        },
        Ok(()) => {},
    }
    match validate_wager(wager, ctx.pool.min_wager) {
        Err(e) => {
            return Err(e);
        },
        Ok(()) => {},
    }
    match validate_house_edge(bet.as_slice(), ctx.whisky_state.max_house_edge_bps) {
        Err(e) => {
            return Err(e);
        },
        Ok(()) => {},
    }
    match validate_max_payout(
        bet.as_slice(),
        wager,
        ctx.pool_liquidity,
        ctx.whisky_state.max_payout_bps,
    ) {
        Err(e) => {
            return Err(e);
        },
        Ok(()) => {},
    }
    let max_creator_fee_bps = if ctx.pool.custom_max_creator_fee {
        ctx.pool.custom_max_creator_fee_bps
    } else {
        ctx.whisky_state.max_creator_fee_bps
    };
    if creator_fee_bps as u64 > max_creator_fee_bps {
        return Err(CoreError::Game(GameError::CreatorFeeTooHigh));
    }
    if validate_string_length(client_seed.as_str(), MAX_STRING_LENGTH).is_err() {
        return Err(CoreError::Rng(RngError::InvalidClientSeed));
    }
    if validate_string_length(metadata.as_str(), MAX_METADATA_LENGTH).is_err() {
        return Err(CoreError::Game(GameError::InvalidMetadata));
    }
    let max_fee = u64::MAX as u128;
    if ctx.player.nonce == u64::MAX || proportion(wager, creator_fee_bps as u64, BPS_PER_WHOLE)
        > max_fee || proportion(wager, ctx.whisky_state.whisky_fee_bps, BPS_PER_WHOLE) > max_fee
        || proportion(wager, jackpot_fee_bps as u64, BPS_PER_WHOLE) > max_fee {
        return Err(CoreError::Whisky(WhiskyError::MathOverflow));
    }

    ctx.player.nonce = ctx.player.nonce + 1;
    ctx.game.nonce = ctx.player.nonce;
    ctx.game.user = ctx.user;
    ctx.game.token_mint = ctx.underlying_token_mint;
    ctx.game.pool = ctx.pool_address;
    ctx.game.status = GameStatus::ResultRequested;
    ctx.game.timestamp = ctx.timestamp;
    ctx.game.creator = ctx.creator;
    ctx.game.wager = wager;
    ctx.game.creator_fee = calculate_fee(wager, creator_fee_bps as u64);
    ctx.game.whisky_fee = calculate_fee(wager, ctx.whisky_state.whisky_fee_bps);
    ctx.game.jackpot_fee = calculate_fee(wager, jackpot_fee_bps as u64);
    ctx.game.client_seed = client_seed;
    ctx.game.bet = bet;
    ctx.game.metadata = metadata;
    ctx.game.jackpot_probability_ubps = calculate_jackpot_probability(wager, ctx.pool_liquidity);
    Ok(wager)
}

// ---------------------------------------------------------------------------
// Liquidity
// ---------------------------------------------------------------------------

/// What a deposit reads: the configuration, the pool, its vault balance and
/// share supply before the deposit, and the caller.
pub struct PoolDeposit {
    pub whisky_state: WhiskyState,
    pub pool: Pool,
    /// Address of the pool record.
    pub pool_address: Pubkey,
    pub underlying_token_mint: Pubkey,
    /// Balance of the pool's liquidity vault.
    pub pool_liquidity: u64,
    /// Share tokens in circulation.
    pub lp_supply: u64,
    /// The depositor.
    pub user: Pubkey,
}

/// Prices a deposit of `amount`: the share tokens to mint and the record of
/// the change. Fails when deposits are switched off, or when the shares, the
/// new liquidity or the new supply would not fit in a `u64`.
pub fn pool_deposit(ctx: &PoolDeposit, amount: u64) -> (r: Result<(u64, PoolChange), CoreError>)
    ensures
        ({
            let shares = lp_tokens_for(amount as int, ctx.pool_liquidity as int, ctx.lp_supply as int);
            if !ctx.whisky_state.pool_deposit_allowed {
                r == Err::<(u64, PoolChange), CoreError>(CoreError::State(WhiskyStateError::DepositNotAllowed))
            } else if shares > u64::MAX || ctx.pool_liquidity + amount > u64::MAX || ctx.lp_supply + shares > u64::MAX {
                r == Err::<(u64, PoolChange), CoreError>(CoreError::Whisky(WhiskyError::MathOverflow))
            } else {
                r == Ok::<(u64, PoolChange), CoreError>((shares as u64, PoolChange {
                    user: ctx.user,
                    pool: ctx.pool_address,
                    token_mint: ctx.underlying_token_mint,
                    action: PoolAction::Deposit,
                    amount,
                    post_liquidity: (ctx.pool_liquidity + amount) as u64,
                    lp_supply: (ctx.lp_supply + shares) as u64,
                }))
            }
        }),
{
    if !ctx.whisky_state.pool_deposit_allowed {
        return Err(CoreError::State(WhiskyStateError::DepositNotAllowed));
    }
    let pool_liquidity = ctx.pool_liquidity;
    let lp_supply = ctx.lp_supply;
    if lp_supply != 0 && pool_liquidity != 0 && proportion(amount, lp_supply, pool_liquidity)
        > u64::MAX as u128 {
        return Err(CoreError::Whisky(WhiskyError::MathOverflow));
    }
    let lp_tokens = calculate_lp_tokens(amount, pool_liquidity, lp_supply);
    if pool_liquidity > u64::MAX - amount || lp_supply > u64::MAX - lp_tokens {
        return Err(CoreError::Whisky(WhiskyError::MathOverflow));
    }
    let change = PoolChange {
        user: ctx.user,
        pool: ctx.pool_address,
        token_mint: ctx.underlying_token_mint,
        action: PoolAction::Deposit,
        amount,
        post_liquidity: pool_liquidity + amount,
        lp_supply: lp_supply + lp_tokens,
    };
    Ok((lp_tokens, change))
}

/// What a withdrawal reads; the same accounts as a deposit.
pub struct PoolWithdraw {
    pub whisky_state: WhiskyState,
    pub pool: Pool,
    /// Address of the pool record.
    pub pool_address: Pubkey,
    pub underlying_token_mint: Pubkey,
    /// Balance of the pool's liquidity vault.
    pub pool_liquidity: u64,
    /// Share tokens in circulation.
    pub lp_supply: u64,
    /// The withdrawer.
    pub user: Pubkey,
}

proof fn lemma_withdraw_within_liquidity(shares: u64, liquidity: u64, supply: u64)
    requires
        shares <= supply,
    ensures
        0 <= withdraw_amount_for(shares as int, liquidity as int, supply as int) <= liquidity,
{
    if supply > 0 {
        let s = shares as int;
        let l = liquidity as int;
        let t = supply as int;
        assert(0 <= s * l <= t * l) by (nonlinear_arith)
            requires
                0 <= s <= t,
                0 <= l,
        ;
        lemma_div_is_ordered(0, s * l, t);
        lemma_div_is_ordered(s * l, t * l, t);
        assert(t * l == l * t) by (nonlinear_arith);
        lemma_div_multiples_vanish(l, t);
    }
}

/// Prices burning `amount` share tokens: the underlying tokens to pay out and
/// the record of the change. Fails when withdrawals are switched off or when
/// more shares are offered than exist.
pub fn pool_withdraw(ctx: &PoolWithdraw, amount: u64) -> (r: Result<(u64, PoolChange), CoreError>)
    ensures
        ({
            let paid = withdraw_amount_for(amount as int, ctx.pool_liquidity as int, ctx.lp_supply as int);
            if !ctx.whisky_state.pool_withdraw_allowed {
                r == Err::<(u64, PoolChange), CoreError>(CoreError::State(WhiskyStateError::WithdrawalNotAllowed))
            } else if amount > ctx.lp_supply {
                r == Err::<(u64, PoolChange), CoreError>(CoreError::Pool(PoolError::InvalidWithdrawalAmount))
            } else {
                &&& paid <= ctx.pool_liquidity
                &&& r == Ok::<(u64, PoolChange), CoreError>((paid as u64, PoolChange {
                    user: ctx.user,
                    pool: ctx.pool_address,
                    token_mint: ctx.underlying_token_mint,
                    action: PoolAction::Withdraw,
                    amount: paid as u64,
                    post_liquidity: (ctx.pool_liquidity - paid) as u64,
                    lp_supply: (ctx.lp_supply - amount) as u64,
                }))
            }
        }),
{
    if !ctx.whisky_state.pool_withdraw_allowed {
        return Err(CoreError::State(WhiskyStateError::WithdrawalNotAllowed));
    }
    if amount > ctx.lp_supply {
        return Err(CoreError::Pool(PoolError::InvalidWithdrawalAmount));
    }
    proof {
        lemma_withdraw_within_liquidity(amount, ctx.pool_liquidity, ctx.lp_supply);
    }
    let withdraw_amount = calculate_withdraw_amount(amount, ctx.pool_liquidity, ctx.lp_supply);
    let change = PoolChange {
        user: ctx.user,
        pool: ctx.pool_address,
        token_mint: ctx.underlying_token_mint,
        action: PoolAction::Withdraw,
        amount: withdraw_amount,
        post_liquidity: ctx.pool_liquidity - withdraw_amount,
        lp_supply: ctx.lp_supply - amount,
    };
    Ok((withdraw_amount, change))
}

// ---------------------------------------------------------------------------
// Protocol configuration
// ---------------------------------------------------------------------------

/// What creating the protocol configuration writes.
pub struct WhiskyInitialize {
    pub whisky_state: WhiskyState,
    /// The caller, who becomes the administrator.
    pub initializer: Pubkey,
    /// Address-derivation bump of the configuration record.
    pub whisky_state_bump: u8,
}

/// `s` is the configuration as first created by `initializer`: default fees
/// and limits, every operation allowed, no oracle yet.
pub open spec fn is_initial_state(s: WhiskyState, initializer: Pubkey, bump: u8) -> bool {
    &&& s.authority == initializer
    &&& s.rng_address@ == zero_key()
    &&& s.rng_address_2@ == zero_key()
    &&& s.anti_spam_fee == DEFAULT_ANTI_SPAM_FEE
    &&& s.whisky_fee_bps == DEFAULT_WHISKY_FEE_BPS
    &&& s.pool_creation_fee == DEFAULT_POOL_CREATION_FEE
    &&& s.default_pool_fee == DEFAULT_POOL_FEE_BPS
    &&& s.jackpot_payout_to_user_bps == DEFAULT_JACKPOT_PAYOUT_TO_USER_BPS
    &&& s.jackpot_payout_to_creator_bps == DEFAULT_JACKPOT_PAYOUT_TO_CREATOR_BPS
    &&& s.jackpot_payout_to_pool_bps == DEFAULT_JACKPOT_PAYOUT_TO_POOL_BPS
    &&& s.jackpot_payout_to_whisky_bps == DEFAULT_JACKPOT_PAYOUT_TO_WHISKY_BPS
    &&& s.bonus_to_jackpot_ratio_bps == DEFAULT_BONUS_TO_JACKPOT_RATIO_BPS
    &&& s.max_house_edge_bps == DEFAULT_MAX_HOUSE_EDGE_BPS
    &&& s.max_creator_fee_bps == DEFAULT_MAX_CREATOR_FEE_BPS
    &&& s.max_payout_bps == DEFAULT_MAX_PAYOUT_BPS
    &&& s.pool_withdraw_fee_bps == DEFAULT_POOL_WITHDRAW_FEE_BPS
    &&& s.pool_creation_allowed
    &&& s.pool_deposit_allowed
    &&& s.pool_withdraw_allowed
    &&& s.playing_allowed
    &&& s.distribution_recipient == initializer
    &&& s.bump@ == seq![bump]
}

/// Creates the protocol configuration with its defaults.
pub fn whisky_initialize(ctx: &mut WhiskyInitialize)
    ensures
        is_initial_state(final(ctx).whisky_state, old(ctx).initializer, old(ctx).whisky_state_bump),
        final(ctx).initializer == old(ctx).initializer,
        final(ctx).whisky_state_bump == old(ctx).whisky_state_bump,
{
    let state = WhiskyState {
        authority: ctx.initializer,
        rng_address: Pubkey::default(),
        rng_address_2: Pubkey::default(),
        anti_spam_fee: DEFAULT_ANTI_SPAM_FEE,
        whisky_fee_bps: DEFAULT_WHISKY_FEE_BPS,
        pool_creation_fee: DEFAULT_POOL_CREATION_FEE,
        default_pool_fee: DEFAULT_POOL_FEE_BPS,
        jackpot_payout_to_user_bps: DEFAULT_JACKPOT_PAYOUT_TO_USER_BPS,
        jackpot_payout_to_creator_bps: DEFAULT_JACKPOT_PAYOUT_TO_CREATOR_BPS,
        jackpot_payout_to_pool_bps: DEFAULT_JACKPOT_PAYOUT_TO_POOL_BPS,
        jackpot_payout_to_whisky_bps: DEFAULT_JACKPOT_PAYOUT_TO_WHISKY_BPS,
        bonus_to_jackpot_ratio_bps: DEFAULT_BONUS_TO_JACKPOT_RATIO_BPS,
        max_house_edge_bps: DEFAULT_MAX_HOUSE_EDGE_BPS,
        max_creator_fee_bps: DEFAULT_MAX_CREATOR_FEE_BPS,
        max_payout_bps: DEFAULT_MAX_PAYOUT_BPS,
        pool_withdraw_fee_bps: DEFAULT_POOL_WITHDRAW_FEE_BPS,
        pool_creation_allowed: true,
        pool_deposit_allowed: true,
        pool_withdraw_allowed: true,
        playing_allowed: true,
        distribution_recipient: ctx.initializer,
        bump: [ctx.whisky_state_bump],
    };
    assert(state.bump@ =~= seq![ctx.whisky_state_bump]);
    ctx.whisky_state = state;
}

/// What an administrative change reads: the configuration and the caller.
pub struct WhiskySetAuthority {
    pub whisky_state: WhiskyState,
    /// The caller.
    pub authority: Pubkey,
}

/// Hands the administrator role to `authority`. Only the current
/// administrator may do so; otherwise nothing changes.
pub fn whisky_set_authority(ctx: &mut WhiskySetAuthority, authority: Pubkey) -> (r: Result<
    (),
    CoreError,
>)
    ensures
        old(ctx).authority@ != old(ctx).whisky_state.authority@ ==> r == Err::<(), CoreError>(
            CoreError::Whisky(WhiskyError::Unauthorized),
        ) && *final(ctx) == *old(ctx),
        old(ctx).authority@ == old(ctx).whisky_state.authority@ ==> r is Ok && *final(ctx) == (
        WhiskySetAuthority {
            whisky_state: WhiskyState { authority, ..old(ctx).whisky_state },
            ..*old(ctx)
        }),
{
    if !(ctx.authority == ctx.whisky_state.authority) {
        return Err(CoreError::Whisky(WhiskyError::Unauthorized));
    }
    ctx.whisky_state.authority = authority;
    Ok(())
}

/// What a configuration change reads: the configuration and the caller.
pub struct WhiskySetConfig {
    pub whisky_state: WhiskyState,
    /// The caller.
    pub authority: Pubkey,
}

/// Replaces the protocol's settings. Only the administrator may do so;
/// otherwise nothing changes.
pub fn whisky_set_config(
    ctx: &mut WhiskySetConfig,
    rng_address: Pubkey,
    whisky_fee: u64,
    max_creator_fee: u64,
    pool_creation_fee: u64,
    anti_spam_fee: u64,
    max_house_edge: u64,
    default_pool_fee: u64,
    jackpot_payout_to_user_bps: u64,
    jackpot_payout_to_creator_bps: u64,
    jackpot_payout_to_pool_bps: u64,
    jackpot_payout_to_whisky_bps: u64,
    bonus_to_jackpot_ratio_bps: u64,
    max_payout_bps: u64,
    pool_withdraw_fee_bps: u64,
    pool_creation_allowed: bool,
    pool_deposit_allowed: bool,
    pool_withdraw_allowed: bool,
    playing_allowed: bool,
    distribution_recipient: Pubkey,
) -> (r: Result<(), CoreError>)
    ensures
        old(ctx).authority@ != old(ctx).whisky_state.authority@ ==> r == Err::<(), CoreError>(
            CoreError::Whisky(WhiskyError::Unauthorized),
        ) && *final(ctx) == *old(ctx),
        old(ctx).authority@ == old(ctx).whisky_state.authority@ ==> r is Ok && *final(ctx) == (
        WhiskySetConfig {
            whisky_state: WhiskyState {
                rng_address,
                whisky_fee_bps: whisky_fee,
                max_creator_fee_bps: max_creator_fee,
                pool_creation_fee,
                anti_spam_fee,
                max_house_edge_bps: max_house_edge,
                default_pool_fee,
                jackpot_payout_to_user_bps,
                jackpot_payout_to_creator_bps,
                jackpot_payout_to_pool_bps,
                jackpot_payout_to_whisky_bps,
                bonus_to_jackpot_ratio_bps,
                max_payout_bps,
                pool_withdraw_fee_bps,
                pool_creation_allowed,
                pool_deposit_allowed,
                pool_withdraw_allowed,
                playing_allowed,
                distribution_recipient,
                ..old(ctx).whisky_state
            },
            ..*old(ctx)
        }),
{
    if !(ctx.authority == ctx.whisky_state.authority) {
        return Err(CoreError::Whisky(WhiskyError::Unauthorized));
    }
    let state = &mut ctx.whisky_state;
    state.rng_address = rng_address;
    state.whisky_fee_bps = whisky_fee;
    state.max_creator_fee_bps = max_creator_fee;
    state.pool_creation_fee = pool_creation_fee;
    state.anti_spam_fee = anti_spam_fee;
    state.max_house_edge_bps = max_house_edge;
    state.default_pool_fee = default_pool_fee;
    state.jackpot_payout_to_user_bps = jackpot_payout_to_user_bps;
    state.jackpot_payout_to_creator_bps = jackpot_payout_to_creator_bps;
    state.jackpot_payout_to_pool_bps = jackpot_payout_to_pool_bps;
    state.jackpot_payout_to_whisky_bps = jackpot_payout_to_whisky_bps;
    state.bonus_to_jackpot_ratio_bps = bonus_to_jackpot_ratio_bps;
    state.max_payout_bps = max_payout_bps;
    state.pool_withdraw_fee_bps = pool_withdraw_fee_bps;
    state.pool_creation_allowed = pool_creation_allowed;
    state.pool_deposit_allowed = pool_deposit_allowed;
    state.pool_withdraw_allowed = pool_withdraw_allowed;
    state.playing_allowed = playing_allowed;
    state.distribution_recipient = distribution_recipient;
    Ok(())
}

/// What collecting the protocol's fees reads: the configuration, the caller
/// and the balance of the fee account.
pub struct DistributeFees {
    pub whisky_state: WhiskyState,
    /// The caller.
    pub authority: Pubkey,
    /// Balance of the protocol's fee account.
    pub fee_balance: u64,
}

/// The amount to move from the fee account to the distribution recipient:
/// the whole balance (zero means there is nothing to do). Only the
/// administrator may ask.
pub fn distribute_fees(ctx: &DistributeFees, _native_sol: bool) -> (r: Result<u64, CoreError>)
    ensures
        r == (if ctx.authority@ == ctx.whisky_state.authority@ {
            Ok::<u64, CoreError>(ctx.fee_balance)
        } else {
            Err::<u64, CoreError>(CoreError::Whisky(WhiskyError::Unauthorized))
        }),
{
    if !(ctx.authority == ctx.whisky_state.authority) {
        return Err(CoreError::Whisky(WhiskyError::Unauthorized));
    }
    Ok(ctx.fee_balance)
}

// ---------------------------------------------------------------------------
// Pools
// ---------------------------------------------------------------------------

/// What creating a pool reads and writes.
pub struct PoolInitialize {
    pub whisky_state: WhiskyState,
    pub pool: Pool,
    pub underlying_token_mint: Pubkey,
    /// Address-derivation bump of the pool record.
    pub pool_bump: u8,
}

/// `p` is a pool as first created: no overrides, no plays, the default
/// minimum wager.
pub open spec fn is_new_pool(
    p: Pool,
    pool_authority: Pubkey,
    lookup_address: Pubkey,
    underlying_token_mint: Pubkey,
    bump: u8,
) -> bool {
    &&& p.pool_authority == pool_authority
    &&& p.underlying_token_mint == underlying_token_mint
    &&& p.lookup_address == lookup_address
    &&& !p.anti_spam_fee_exempt
    &&& p.min_wager == DEFAULT_POOL_MIN_WAGER
    &&& p.plays == 0
    &&& p.liquidity_checkpoint == 0
    &&& !p.deposit_limit
    &&& p.deposit_limit_amount == 0
    &&& !p.custom_pool_fee
    &&& p.custom_pool_fee_bps == 0
    &&& !p.custom_whisky_fee
    &&& p.custom_whisky_fee_bps == 0
    &&& !p.custom_max_payout
    &&& p.custom_max_payout_bps == 0
    &&& p.custom_bonus_token_mint@ == zero_key()
    &&& !p.custom_bonus_token
    &&& !p.custom_max_creator_fee
    &&& p.custom_max_creator_fee_bps == 0
    &&& !p.deposit_whitelist_required
    &&& p.deposit_whitelist_address@ == zero_key()
    &&& p.bump@ == seq![bump]
}

/// Creates a pool for the given asset, when the configuration allows it;
/// otherwise nothing changes.
pub fn pool_initialize(ctx: &mut PoolInitialize, pool_authority: Pubkey, lookup_address: Pubkey) -> (r:
    Result<(), CoreError>)
    ensures
        !old(ctx).whisky_state.pool_creation_allowed ==> r == Err::<(), CoreError>(
            CoreError::State(WhiskyStateError::PoolCreationNotAllowed),
        ) && *final(ctx) == *old(ctx),
        old(ctx).whisky_state.pool_creation_allowed ==> r is Ok && is_new_pool(
            final(ctx).pool,
            pool_authority,
            lookup_address,
            old(ctx).underlying_token_mint,
            old(ctx).pool_bump,
        ) && *final(ctx) == (PoolInitialize { pool: final(ctx).pool, ..*old(ctx) }),
        r is Ok ==> final(ctx).pool.min_wager >= MIN_WAGER,
{
    if !ctx.whisky_state.pool_creation_allowed {
        return Err(CoreError::State(WhiskyStateError::PoolCreationNotAllowed));
    }
    let pool = Pool {
        pool_authority,
        underlying_token_mint: ctx.underlying_token_mint,
        lookup_address,
        anti_spam_fee_exempt: false,
        min_wager: DEFAULT_POOL_MIN_WAGER,
        plays: 0,
        liquidity_checkpoint: 0,
        deposit_limit: false,
        deposit_limit_amount: 0,
        custom_pool_fee: false,
        custom_pool_fee_bps: 0,
        custom_whisky_fee: false,
        custom_whisky_fee_bps: 0,
        custom_max_payout: false,
        custom_max_payout_bps: 0,
        custom_bonus_token_mint: Pubkey::default(),
        custom_bonus_token: false,
        custom_max_creator_fee: false,
        custom_max_creator_fee_bps: 0,
        deposit_whitelist_required: false,
        deposit_whitelist_address: Pubkey::default(),
        bump: [ctx.pool_bump],
    };
    assert(pool.bump@ =~= seq![ctx.pool_bump]);
    ctx.pool = pool;
    Ok(())
}

// ---------------------------------------------------------------------------
// Players
// ---------------------------------------------------------------------------

/// What creating a player writes.
pub struct PlayerInitialize {
    pub player: Player,
    pub game: Game,
    /// The caller, who owns the new records.
    pub user: Pubkey,
    /// Address-derivation bumps of the two records.
    pub player_bump: u8,
    pub game_bump: u8,
}

/// `g` is an empty game slot owned by `user`.
pub open spec fn is_empty_game(g: Game, user: Pubkey, bump: u8) -> bool {
    &&& g.nonce == 0
    &&& g.user == user
    &&& g.token_mint@ == zero_key()
    &&& g.pool@ == zero_key()
    &&& g.status == GameStatus::Inactive
    &&& g.next_rng_seed_hashed@.len() == 0
    &&& g.rng_seed@.len() == 0
    &&& g.timestamp == 0
    &&& g.creator@ == zero_key()
    &&& g.creator_meta@.len() == 0
    &&& g.wager == 0
    &&& g.underlying_used == 0
    &&& g.bonus_used == 0
    &&& g.creator_fee == 0
    &&& g.whisky_fee == 0
    &&& g.pool_fee == 0
    &&& g.jackpot_fee == 0
    &&& g.jackpot_result == 0
    &&& g.jackpot_probability_ubps == 0
    &&& g.jackpot_payout == 0
    &&& g.client_seed@.len() == 0
    &&& g.bet@.len() == 0
    &&& g.result == 0
    &&& !g.points
    &&& g.points_authority@ == zero_key()
    &&& g.metadata@.len() == 0
    &&& g.bump@ == seq![bump]
}

/// Creates a player at nonce zero and its empty game slot.
pub fn player_initialize(ctx: &mut PlayerInitialize)
    ensures
        final(ctx).player == (Player { user: old(ctx).user, nonce: 0, bump: [old(ctx).player_bump] }),
        is_empty_game(final(ctx).game, old(ctx).user, old(ctx).game_bump),
        final(ctx).user == old(ctx).user,
        final(ctx).player_bump == old(ctx).player_bump,
        final(ctx).game_bump == old(ctx).game_bump,
{
    ctx.player = Player { user: ctx.user, nonce: 0, bump: [ctx.player_bump] };
    let game = Game {
        nonce: 0,
        user: ctx.user,
        token_mint: Pubkey::default(),
        pool: Pubkey::default(),
        status: GameStatus::Inactive,
        next_rng_seed_hashed: String::new(),
        rng_seed: String::new(),
        timestamp: 0,
        creator: Pubkey::default(),
        creator_meta: String::new(),
        wager: 0,
        underlying_used: 0,
        bonus_used: 0,
        creator_fee: 0,
        whisky_fee: 0,
        pool_fee: 0,
        jackpot_fee: 0,
        jackpot_result: 0,
        jackpot_probability_ubps: 0,
        jackpot_payout: 0,
        client_seed: String::new(),
        bet: Vec::new(),
        result: 0,
        points: false,
        points_authority: Pubkey::default(),
        metadata: String::new(),
        bump: [ctx.game_bump],
    };
    assert(game.bump@ =~= seq![ctx.game_bump]);
    ctx.game = game;
}

/// What claiming reads: the player, its game, the caller and the balance
/// held in the player's escrow account.
pub struct PlayerClaim {
    pub player: Player,
    pub game: Game,
    /// The caller.
    pub user: Pubkey,
    /// Balance of the player's escrow account.
    pub player_ata_amount: u64,
}

/// The amount to move from escrow to the player: the whole escrow balance
/// (zero means there is nothing to do). Only the owner may claim, and only a
/// settled game; claiming does not change the game.
pub fn player_claim(ctx: &PlayerClaim) -> (r: Result<u64, CoreError>)
    ensures
        r == (if ctx.user@ != ctx.player.user@ || ctx.user@ != ctx.game.user@ {
            Err::<u64, CoreError>(CoreError::Whisky(WhiskyError::Unauthorized))
        } else if ctx.game.status != GameStatus::Ready {
            Err::<u64, CoreError>(CoreError::Player(PlayerError::NotReadyToPlay))
        } else {
            Ok::<u64, CoreError>(ctx.player_ata_amount)
        }),
{
    if !(ctx.user == ctx.player.user) || !(ctx.user == ctx.game.user) {
        return Err(CoreError::Whisky(WhiskyError::Unauthorized));
    }
    if ctx.game.status != GameStatus::Ready {
        return Err(CoreError::Player(PlayerError::NotReadyToPlay));
    }
    Ok(ctx.player_ata_amount)
}

/// What closing a player reads.
pub struct PlayerClose {
    pub player: Player,
    pub game: Game,
    /// The caller.
    pub user: Pubkey,
}

/// Whether the caller may close the player and its game slot: only their
/// owner may.
pub fn player_close(ctx: &PlayerClose) -> (r: Result<(), CoreError>)
    ensures
        r == (if ctx.user@ == ctx.player.user@ && ctx.user@ == ctx.game.user@ {
            Ok::<(), CoreError>(())
        } else {
            Err::<(), CoreError>(CoreError::Whisky(WhiskyError::Unauthorized))
        }),
{
    if !(ctx.user == ctx.player.user) || !(ctx.user == ctx.game.user) {
        return Err(CoreError::Whisky(WhiskyError::Unauthorized));
    }
    Ok(())
}

/// What publishing a seed commitment reads and writes.
pub struct RngProvideHashedSeed {
    pub whisky_state: WhiskyState,
    pub game: Game,
    /// The caller.
    pub rng: Pubkey,
}

/// Records the oracle's commitment to its next seed in the game. Only the
/// oracle may do so; otherwise nothing changes.
pub fn rng_provide_hashed_seed(ctx: &mut RngProvideHashedSeed, next_rng_seed_hashed: String) -> (r:
    Result<(), CoreError>)
    ensures
        old(ctx).rng@ != old(ctx).whisky_state.rng_address@ ==> r == Err::<(), CoreError>(
            CoreError::Whisky(WhiskyError::Unauthorized),
        ) && *final(ctx) == *old(ctx),
        old(ctx).rng@ == old(ctx).whisky_state.rng_address@ ==> r is Ok && *final(ctx) == (
        RngProvideHashedSeed {
            game: Game { next_rng_seed_hashed, ..old(ctx).game },
            ..*old(ctx)
        }),
{
    if !(ctx.rng == ctx.whisky_state.rng_address) {
        return Err(CoreError::Whisky(WhiskyError::Unauthorized));
    }
    ctx.game.next_rng_seed_hashed = next_rng_seed_hashed;
    Ok(())
}

} // verus!
