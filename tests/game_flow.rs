use whisky_core::errors::{
    CoreError, GameError, PlayerError, PoolError, RngError, WhiskyError, WhiskyStateError,
};
use whisky_core::instructions::{
    distribute_fees, play_game, player_claim, player_close, player_initialize, pool_deposit,
    pool_initialize, pool_withdraw, rng_provide_hashed_seed, rng_settle, whisky_initialize,
    whisky_set_authority, whisky_set_config, DistributeFees, PlayGame, PlayerClaim, PlayerClose,
    PlayerInitialize, PoolDeposit, PoolInitialize, PoolWithdraw, RngProvideHashedSeed, RngSettle,
    WhiskyInitialize, WhiskySetAuthority, WhiskySetConfig,
};
use whisky_core::state::{Game, GameStatus, Player, Pool, PoolAction, Pubkey, WhiskyState};

const ADMIN: u8 = 1;
const USER: u8 = 2;
const ORACLE: u8 = 9;

fn key(b: u8) -> Pubkey {
    Pubkey::new_from_array([b; 32])
}

fn blank_state() -> WhiskyState {
    WhiskyState {
        authority: Pubkey::default(),
        rng_address: Pubkey::default(),
        rng_address_2: Pubkey::default(),
        anti_spam_fee: 0,
        whisky_fee_bps: 0,
        pool_creation_fee: 0,
        default_pool_fee: 0,
        jackpot_payout_to_user_bps: 0,
        jackpot_payout_to_creator_bps: 0,
        jackpot_payout_to_pool_bps: 0,
        jackpot_payout_to_whisky_bps: 0,
        bonus_to_jackpot_ratio_bps: 0,
        max_house_edge_bps: 0,
        max_creator_fee_bps: 0,
        max_payout_bps: 0,
        pool_withdraw_fee_bps: 0,
        pool_creation_allowed: false,
        pool_deposit_allowed: false,
        pool_withdraw_allowed: false,
        playing_allowed: false,
        distribution_recipient: Pubkey::default(),
        bump: [0],
    }
}

fn blank_pool() -> Pool {
    Pool {
        pool_authority: Pubkey::default(),
        underlying_token_mint: Pubkey::default(),
        lookup_address: Pubkey::default(),
        anti_spam_fee_exempt: false,
        min_wager: 0,
        plays: 0,
        liquidity_checkpoint: 0,
        deposit_limit: false,
        deposit_limit_amount: 0,
        custom_pool_fee: false,
        custom_pool_fee_bps: 0,
        custom_whisky_fee: false,
        custom_whisky_fee_bps: 0,
        custom_max_payout: false,
        custom_max_payout_bps: 0,
        custom_bonus_token_mint: Pubkey::default(),
        custom_bonus_token: false,
        custom_max_creator_fee: false,
        custom_max_creator_fee_bps: 0,
        deposit_whitelist_required: false,
        deposit_whitelist_address: Pubkey::default(),
        bump: [0],
    }
}

fn blank_game() -> Game {
    Game {
        nonce: 0,
        user: Pubkey::default(),
        token_mint: Pubkey::default(),
        pool: Pubkey::default(),
        status: GameStatus::Inactive,
        next_rng_seed_hashed: String::new(),
        rng_seed: String::new(),
        timestamp: 0,
        creator: Pubkey::default(),
        creator_meta: String::new(),
        wager: 0,
        underlying_used: 0,
        bonus_used: 0,
        creator_fee: 0,
        whisky_fee: 0,
        pool_fee: 0,
        jackpot_fee: 0,
        jackpot_result: 0,
        jackpot_probability_ubps: 0,
        jackpot_payout: 0,
        client_seed: String::new(),
        bet: Vec::new(),
        result: 0,
        points: false,
        points_authority: Pubkey::default(),
        metadata: String::new(),
        bump: [0],
    }
}

/// Configuration with the oracle set and a house edge that admits even bets.
fn configured_state() -> WhiskyState {
    let mut init = WhiskyInitialize {
        whisky_state: blank_state(),
        initializer: key(ADMIN),
        whisky_state_bump: 254,
    };
    whisky_initialize(&mut init);
    let mut state = init.whisky_state;
    state.rng_address = key(ORACLE);
    state.max_house_edge_bps = 5_000;
    state
}

fn fresh_player() -> (Player, Game) {
    let mut ctx = PlayerInitialize {
        player: Player { user: Pubkey::default(), nonce: 7, bump: [0] },
        game: blank_game(),
        user: key(USER),
        player_bump: 250,
        game_bump: 251,
    };
    player_initialize(&mut ctx);
    (ctx.player, ctx.game)
}

fn play_context() -> PlayGame {
    let mut pool = blank_pool();
    pool.min_wager = 1_000;
    let (player, game) = fresh_player();
    PlayGame {
        whisky_state: configured_state(),
        pool,
        player,
        game,
        underlying_token_mint: key(3),
        pool_address: key(4),
        pool_liquidity: 1_000_000,
        creator: key(5),
        user: key(USER),
        timestamp: 1_700_000_000,
    }
}

fn start(ctx: &mut PlayGame, wager: u64, bet: Vec<u32>) -> Result<u64, CoreError> {
    play_game(ctx, wager, bet, "player-seed".to_string(), 0, 0, String::new())
}

fn settle_context(game: Game, caller: u8) -> RngSettle {
    RngSettle {
        whisky_state: configured_state(),
        game,
        pool_liquidity: 1_000_000,
        jackpot_balance: 0,
        rng: key(caller),
    }
}

#[test]
fn end_to_end_even_bet() {
    let mut ctx = play_context();
    assert_eq!(start(&mut ctx, 10_000, vec![1, 1]), Ok(10_000));
    assert_eq!(ctx.game.status, GameStatus::ResultRequested);
    assert_eq!(ctx.player.nonce, 1);
    assert_eq!(ctx.game.nonce, 1);
    assert_eq!(ctx.game.jackpot_probability_ubps, 1_000_000);

    let mut settle = settle_context(ctx.game.clone(), ORACLE);
    settle.jackpot_balance = 500;
    let record = rng_settle(&mut settle, "oracle-seed".to_string(), "next-hash".to_string()).unwrap();
    assert_eq!(record.result_index, 1);
    assert_eq!(record.multiplier_bps, 20_000);
    assert_eq!(record.payout_from_normal_pool, 20_000);
    assert_eq!(record.jackpot_result, 1);
    assert_eq!(record.jackpot_payout_to_user, 500);
    assert_eq!(record.payout, 20_500);
    assert_eq!(record.nonce, 1);
    assert_eq!(record.bet, vec![1, 1]);
    assert_eq!(record.rng_seed, "oracle-seed");
    assert_eq!(record.next_rng_seed_hashed, "next-hash");
    assert_eq!(settle.game.status, GameStatus::Ready);
    assert_eq!(settle.game.result, 1);
    assert_eq!(settle.game.jackpot_payout, 500);

    // the payout sits in escrow; claiming hands it over and changes nothing
    let mut claim = PlayerClaim {
        player: ctx.player.clone(),
        game: settle.game.clone(),
        user: key(USER),
        player_ata_amount: record.payout,
    };
    assert_eq!(player_claim(&claim), Ok(20_500));
    claim.player_ata_amount = 0;
    assert_eq!(player_claim(&claim), Ok(0));
    assert_eq!(claim.game.status, GameStatus::Ready);
}

#[test]
fn settle_without_jackpot_balance_pays_base() {
    let mut ctx = play_context();
    start(&mut ctx, 10_000, vec![1, 1]).unwrap();
    let mut settle = settle_context(ctx.game.clone(), ORACLE);
    let record = rng_settle(&mut settle, "oracle-seed".to_string(), String::new()).unwrap();
    assert_eq!(record.payout, 20_000);
    assert_eq!(record.pool_liquidity, 1_000_000);
}

#[test]
fn settle_requires_pending_game() {
    let (_, idle) = fresh_player();
    let mut settle = settle_context(idle, ORACLE);
    assert_eq!(
        rng_settle(&mut settle, "s".to_string(), "h".to_string()).unwrap_err(),
        CoreError::Rng(RngError::ResultNotRequested)
    );
    assert_eq!(settle.game.status, GameStatus::Inactive);

    let mut ctx = play_context();
    start(&mut ctx, 10_000, vec![1, 1]).unwrap();
    let mut settle = settle_context(ctx.game.clone(), ORACLE);
    rng_settle(&mut settle, "s".to_string(), "h".to_string()).unwrap();
    assert_eq!(
        rng_settle(&mut settle, "s2".to_string(), "h2".to_string()).unwrap_err(),
        CoreError::Rng(RngError::ResultNotRequested)
    );
    assert_eq!(settle.game.rng_seed, "s");
}

#[test]
fn settle_rejects_other_callers_in_any_status() {
    let (_, idle) = fresh_player();
    let mut settle = settle_context(idle, USER);
    assert_eq!(
        rng_settle(&mut settle, "s".to_string(), "h".to_string()).unwrap_err(),
        CoreError::Whisky(WhiskyError::Unauthorized)
    );
    let mut ctx = play_context();
    start(&mut ctx, 10_000, vec![1, 1]).unwrap();
    let mut settle = settle_context(ctx.game.clone(), USER);
    assert_eq!(
        rng_settle(&mut settle, "s".to_string(), "h".to_string()).unwrap_err(),
        CoreError::Whisky(WhiskyError::Unauthorized)
    );
    assert_eq!(settle.game.status, GameStatus::ResultRequested);
}

#[test]
fn settle_rejects_malformed_pending_bet() {
    let mut game = blank_game();
    game.status = GameStatus::ResultRequested;
    game.bet = vec![0, 0];
    let mut settle = settle_context(game, ORACLE);
    assert_eq!(
        rng_settle(&mut settle, "s".to_string(), "h".to_string()).unwrap_err(),
        CoreError::Game(GameError::InvalidBetWeights)
    );
}

#[test]
fn settle_reports_payout_overflow() {
    let mut game = blank_game();
    game.status = GameStatus::ResultRequested;
    game.bet = vec![1, 1];
    game.wager = u64::MAX;
    let mut settle = settle_context(game, ORACLE);
    assert_eq!(
        rng_settle(&mut settle, "s".to_string(), "h".to_string()).unwrap_err(),
        CoreError::Whisky(WhiskyError::MathOverflow)
    );
    assert_eq!(settle.game.status, GameStatus::ResultRequested);
}

#[test]
fn start_records_fees_and_seeds() {
    let mut ctx = play_context();
    ctx.whisky_state.whisky_fee_bps = 200;
    let r = play_game(
        &mut ctx,
        10_000,
        vec![1, 1],
        "player-seed".to_string(),
        300,
        50,
        "note".to_string(),
    );
    assert_eq!(r, Ok(10_000));
    assert_eq!(ctx.game.creator_fee, 300);
    assert_eq!(ctx.game.whisky_fee, 200);
    assert_eq!(ctx.game.jackpot_fee, 50);
    assert_eq!(ctx.game.client_seed, "player-seed");
    assert_eq!(ctx.game.metadata, "note");
    assert_eq!(ctx.game.creator, key(5));
    assert_eq!(ctx.game.pool, key(4));
    assert_eq!(ctx.game.token_mint, key(3));
    assert_eq!(ctx.game.timestamp, 1_700_000_000);
    assert_eq!(ctx.game.wager, 10_000);
}

#[test]
fn start_failures_leave_everything_unchanged() {
    let mut ctx = play_context();
    ctx.user = key(42);
    assert_eq!(start(&mut ctx, 10_000, vec![1, 1]), Err(CoreError::Whisky(WhiskyError::Unauthorized)));

    let mut ctx = play_context();
    ctx.whisky_state.playing_allowed = false;
    assert_eq!(start(&mut ctx, 10_000, vec![1, 1]), Err(CoreError::State(WhiskyStateError::PlaysNotAllowed)));
    assert_eq!(ctx.player.nonce, 0);

    let mut ctx = play_context();
    start(&mut ctx, 10_000, vec![1, 1]).unwrap();
    assert_eq!(start(&mut ctx, 10_000, vec![1, 1]), Err(CoreError::Player(PlayerError::GameInProgress)));
    assert_eq!(ctx.player.nonce, 1);

    let mut ctx = play_context();
    assert_eq!(start(&mut ctx, 10_000, vec![50]), Err(CoreError::Game(GameError::TooFewOutcomes)));
    assert_eq!(start(&mut ctx, 999, vec![1, 1]), Err(CoreError::Game(GameError::WagerTooLow)));
    assert_eq!(start(&mut ctx, 10_000, vec![1, 2]), Err(CoreError::Game(GameError::HouseEdgeTooHigh)));
    ctx.pool_liquidity = 19_999;
    assert_eq!(start(&mut ctx, 10_000, vec![1, 1]), Err(CoreError::Game(GameError::MaxPayoutExceeded)));
    ctx.pool_liquidity = 1_000_000;
    assert_eq!(
        play_game(&mut ctx, 10_000, vec![1, 1], String::new(), 501, 0, String::new()),
        Err(CoreError::Game(GameError::CreatorFeeTooHigh))
    );
    assert_eq!(
        play_game(&mut ctx, 10_000, vec![1, 1], "x".repeat(257), 0, 0, String::new()),
        Err(CoreError::Rng(RngError::InvalidClientSeed))
    );
    assert_eq!(
        play_game(&mut ctx, 10_000, vec![1, 1], String::new(), 0, 0, "m".repeat(513)),
        Err(CoreError::Game(GameError::InvalidMetadata))
    );
    ctx.player.nonce = u64::MAX;
    assert_eq!(start(&mut ctx, 10_000, vec![1, 1]), Err(CoreError::Whisky(WhiskyError::MathOverflow)));
    assert_eq!(ctx.game.status, GameStatus::Inactive);
}

#[test]
fn start_after_settled_game_reuses_slot() {
    let mut ctx = play_context();
    start(&mut ctx, 10_000, vec![1, 1]).unwrap();
    let mut settle = settle_context(ctx.game.clone(), ORACLE);
    rng_settle(&mut settle, "s".to_string(), "h".to_string()).unwrap();
    ctx.game = settle.game;
    assert_eq!(start(&mut ctx, 20_000, vec![1, 1]), Ok(20_000));
    assert_eq!(ctx.player.nonce, 2);
    assert_eq!(ctx.game.nonce, 2);
    assert_eq!(ctx.game.status, GameStatus::ResultRequested);
}

#[test]
fn deposit_and_withdraw_price_shares() {
    let mut pool_init = PoolInitialize {
        whisky_state: configured_state(),
        pool: blank_pool(),
        underlying_token_mint: key(3),
        pool_bump: 200,
    };
    pool_initialize(&mut pool_init, key(6), key(7)).unwrap();
    let deposit = PoolDeposit {
        whisky_state: configured_state(),
        pool: pool_init.pool.clone(),
        pool_address: key(4),
        underlying_token_mint: key(3),
        pool_liquidity: 10_000,
        lp_supply: 5_000,
        user: key(USER),
    };
    let (shares, change) = pool_deposit(&deposit, 1_000).unwrap();
    assert_eq!(shares, 500);
    assert_eq!(change.action, PoolAction::Deposit);
    assert_eq!(change.amount, 1_000);
    assert_eq!(change.post_liquidity, 11_000);
    assert_eq!(change.lp_supply, 5_500);
    assert_eq!(change.user, key(USER));

    let withdraw = PoolWithdraw {
        whisky_state: configured_state(),
        pool: pool_init.pool.clone(),
        pool_address: key(4),
        underlying_token_mint: key(3),
        pool_liquidity: 11_000,
        lp_supply: 5_500,
        user: key(USER),
    };
    let (paid, change) = pool_withdraw(&withdraw, shares).unwrap();
    assert_eq!(paid, 1_000);
    assert_eq!(change.action, PoolAction::Withdraw);
    assert_eq!(change.post_liquidity, 10_000);
    assert_eq!(change.lp_supply, 5_000);
    assert_eq!(
        pool_withdraw(&withdraw, 5_501).unwrap_err(),
        CoreError::Pool(PoolError::InvalidWithdrawalAmount)
    );
}

#[test]
fn deposit_bootstrap_and_errors() {
    let mut deposit = PoolDeposit {
        whisky_state: configured_state(),
        pool: blank_pool(),
        pool_address: key(4),
        underlying_token_mint: key(3),
        pool_liquidity: 0,
        lp_supply: 0,
        user: key(USER),
    };
    assert_eq!(pool_deposit(&deposit, 1_000).unwrap().0, 1_000);
    deposit.pool_liquidity = u64::MAX;
    deposit.lp_supply = u64::MAX;
    assert_eq!(pool_deposit(&deposit, 1).unwrap_err(), CoreError::Whisky(WhiskyError::MathOverflow));
    deposit.pool_liquidity = 1;
    deposit.lp_supply = u64::MAX;
    assert_eq!(pool_deposit(&deposit, 2).unwrap_err(), CoreError::Whisky(WhiskyError::MathOverflow));
    deposit.whisky_state.pool_deposit_allowed = false;
    assert_eq!(
        pool_deposit(&deposit, 2).unwrap_err(),
        CoreError::State(WhiskyStateError::DepositNotAllowed)
    );
    let withdraw = PoolWithdraw {
        whisky_state: blank_state(),
        pool: blank_pool(),
        pool_address: key(4),
        underlying_token_mint: key(3),
        pool_liquidity: 10,
        lp_supply: 10,
        user: key(USER),
    };
    assert_eq!(
        pool_withdraw(&withdraw, 1).unwrap_err(),
        CoreError::State(WhiskyStateError::WithdrawalNotAllowed)
    );
}

#[test]
fn initializers_write_defaults() {
    let mut init = WhiskyInitialize {
        whisky_state: blank_state(),
        initializer: key(ADMIN),
        whisky_state_bump: 254,
    };
    whisky_initialize(&mut init);
    let s = &init.whisky_state;
    assert_eq!(s.authority, key(ADMIN));
    assert_eq!(s.distribution_recipient, key(ADMIN));
    assert_eq!(s.rng_address, Pubkey::default());
    assert_eq!(s.whisky_fee_bps, 200);
    assert_eq!(s.max_house_edge_bps, 300);
    assert_eq!(s.max_creator_fee_bps, 500);
    assert_eq!(s.max_payout_bps, 10_000);
    assert_eq!(s.jackpot_payout_to_user_bps, 7_000);
    assert!(s.playing_allowed && s.pool_creation_allowed);
    assert_eq!(s.bump, [254]);

    let mut pool_init = PoolInitialize {
        whisky_state: init.whisky_state.clone(),
        pool: blank_pool(),
        underlying_token_mint: key(3),
        pool_bump: 200,
    };
    assert_eq!(pool_initialize(&mut pool_init, key(6), key(7)), Ok(()));
    assert_eq!(pool_init.pool.min_wager, 1_000_000);
    assert_eq!(pool_init.pool.pool_authority, key(6));
    assert_eq!(pool_init.pool.lookup_address, key(7));
    assert_eq!(pool_init.pool.underlying_token_mint, key(3));
    assert_eq!(pool_init.pool.bump, [200]);
    pool_init.whisky_state.pool_creation_allowed = false;
    assert_eq!(
        pool_initialize(&mut pool_init, key(8), key(8)),
        Err(CoreError::State(WhiskyStateError::PoolCreationNotAllowed))
    );
    assert_eq!(pool_init.pool.pool_authority, key(6));

    let (player, game) = fresh_player();
    assert_eq!(player.nonce, 0);
    assert_eq!(player.user, key(USER));
    assert_eq!(player.bump, [250]);
    assert_eq!(game.user, key(USER));
    assert_eq!(game.status, GameStatus::Inactive);
    assert_eq!(game.bump, [251]);
}

#[test]
fn administration_needs_the_authority() {
    let mut set = WhiskySetAuthority { whisky_state: configured_state(), authority: key(USER) };
    assert_eq!(whisky_set_authority(&mut set, key(USER)), Err(CoreError::Whisky(WhiskyError::Unauthorized)));
    set.authority = key(ADMIN);
    assert_eq!(whisky_set_authority(&mut set, key(33)), Ok(()));
    assert_eq!(set.whisky_state.authority, key(33));

    let mut config = WhiskySetConfig { whisky_state: configured_state(), authority: key(ADMIN) };
    let r = whisky_set_config(
        &mut config, key(10), 150, 400, 5, 6, 700, 90, 6_000, 2_000, 1_000, 1_000, 500, 9_000, 50,
        false, true, false, true, key(11),
    );
    assert_eq!(r, Ok(()));
    let s = &config.whisky_state;
    assert_eq!(s.rng_address, key(10));
    assert_eq!(s.whisky_fee_bps, 150);
    assert_eq!(s.max_creator_fee_bps, 400);
    assert_eq!(s.max_house_edge_bps, 700);
    assert_eq!(s.max_payout_bps, 9_000);
    assert!(!s.pool_creation_allowed && s.pool_deposit_allowed && !s.pool_withdraw_allowed);
    assert_eq!(s.distribution_recipient, key(11));
    assert_eq!(s.authority, key(ADMIN));
    config.authority = key(USER);
    let r = whisky_set_config(
        &mut config, key(12), 1, 1, 1, 1, 1, 1, 1, 1, 1, 1, 1, 1, 1, true, true, true, true, key(12),
    );
    assert_eq!(r, Err(CoreError::Whisky(WhiskyError::Unauthorized)));
    assert_eq!(config.whisky_state.rng_address, key(10));

    let fees = DistributeFees { whisky_state: configured_state(), authority: key(ADMIN), fee_balance: 1_234 };
    assert_eq!(distribute_fees(&fees, false), Ok(1_234));
    let fees = DistributeFees { whisky_state: configured_state(), authority: key(USER), fee_balance: 1_234 };
    assert_eq!(distribute_fees(&fees, true), Err(CoreError::Whisky(WhiskyError::Unauthorized)));
}

#[test]
fn claim_close_and_commitment_rules() {
    let (player, game) = fresh_player();
    let claim = PlayerClaim { player: player.clone(), game: game.clone(), user: key(USER), player_ata_amount: 5 };
    assert_eq!(player_claim(&claim), Err(CoreError::Player(PlayerError::NotReadyToPlay)));
    let claim = PlayerClaim { player: player.clone(), game: game.clone(), user: key(42), player_ata_amount: 5 };
    assert_eq!(player_claim(&claim), Err(CoreError::Whisky(WhiskyError::Unauthorized)));

    let close = PlayerClose { player: player.clone(), game: game.clone(), user: key(USER) };
    assert_eq!(player_close(&close), Ok(()));
    let close = PlayerClose { player: player.clone(), game: game.clone(), user: key(42) };
    assert_eq!(player_close(&close), Err(CoreError::Whisky(WhiskyError::Unauthorized)));

    let mut commit = RngProvideHashedSeed { whisky_state: configured_state(), game: game.clone(), rng: key(ORACLE) };
    assert_eq!(rng_provide_hashed_seed(&mut commit, "abc123".to_string()), Ok(()));
    assert_eq!(commit.game.next_rng_seed_hashed, "abc123");
    commit.rng = key(USER);
    assert_eq!(
        rng_provide_hashed_seed(&mut commit, "other".to_string()),
        Err(CoreError::Whisky(WhiskyError::Unauthorized))
    );
    assert_eq!(commit.game.next_rng_seed_hashed, "abc123");
}
