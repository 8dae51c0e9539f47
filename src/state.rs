use vstd::prelude::*;

verus! {

/// A 32-byte account identity.
#[derive(Clone, Copy, Debug)]
pub struct Pubkey {
    pub bytes: [u8; 32],
}

impl View for Pubkey {
    type V = Seq<u8>;

    open spec fn view(&self) -> Seq<u8> {
        self.bytes@
    }
}

/// The all-zero identity, used for "no account".
pub open spec fn zero_key() -> Seq<u8> {
    Seq::new(32, |i: int| 0u8)
}

impl Pubkey {
    /// The identity with the given bytes.
    pub fn new_from_array(bytes: [u8; 32]) -> (r: Pubkey)
        ensures
            r.bytes == bytes,
    {
        Pubkey { bytes }
    }
}

impl Default for Pubkey {
    fn default() -> (r: Pubkey)
        ensures
            r@ == zero_key(),
    {
        let r = Pubkey { bytes: [0u8; 32] };
        assert(r@ =~= zero_key());
        r
    }
}

impl PartialEq for Pubkey {
    fn eq(&self, other: &Pubkey) -> (r: bool) {
        let mut i: usize = 0;
        while i < 32
            invariant
                0 <= i <= 32,
                forall|j: int| 0 <= j < i ==> self.bytes@[j] == other.bytes@[j],
            decreases 32 - i,
        {
            if self.bytes[i] != other.bytes[i] {
                return false;
            }
            i = i + 1;
        }
        assert(self.bytes@ =~= other.bytes@);
        true
    }
}

impl vstd::std_specs::cmp::PartialEqSpecImpl for Pubkey {
    open spec fn obeys_eq_spec() -> bool {
        true
    }

    open spec fn eq_spec(&self, other: &Pubkey) -> bool {
        self@ == other@
    }
}

/// Protocol-wide configuration, written only by its administrator.
#[derive(Clone, Debug)]
pub struct WhiskyState {
    /// Protocol authority (administrator).
    pub authority: Pubkey,
    /// Oracle that reveals seeds.
    pub rng_address: Pubkey,
    /// Secondary oracle.
    pub rng_address_2: Pubkey,
    pub anti_spam_fee: u64,
    /// Protocol fee, in bps of the wager.
    pub whisky_fee_bps: u64,
    pub pool_creation_fee: u64,
    pub default_pool_fee: u64,
    pub jackpot_payout_to_user_bps: u64,
    pub jackpot_payout_to_creator_bps: u64,
    pub jackpot_payout_to_pool_bps: u64,
    pub jackpot_payout_to_whisky_bps: u64,
    pub bonus_to_jackpot_ratio_bps: u64,
    /// Largest house edge a bet may have, in bps.
    pub max_house_edge_bps: u64,
    /// Largest creator fee, in bps.
    pub max_creator_fee_bps: u64,
    /// Largest payout, in bps of the pool's liquidity.
    pub max_payout_bps: u64,
    pub pool_withdraw_fee_bps: u64,
    pub pool_creation_allowed: bool,
    pub pool_deposit_allowed: bool,
    pub pool_withdraw_allowed: bool,
    pub playing_allowed: bool,
    /// Receiver of the distributed protocol fees.
    pub distribution_recipient: Pubkey,
    pub bump: [u8; 1],
}

/// A liquidity pool for one underlying asset.
#[derive(Clone, Debug)]
pub struct Pool {
    pub pool_authority: Pubkey,
    pub underlying_token_mint: Pubkey,
    pub lookup_address: Pubkey,
    pub anti_spam_fee_exempt: bool,
    /// Smallest wager the pool accepts.
    pub min_wager: u64,
    /// Number of games played against the pool.
    pub plays: u64,
    pub liquidity_checkpoint: u64,
    pub deposit_limit: bool,
    pub deposit_limit_amount: u64,
    pub custom_pool_fee: bool,
    pub custom_pool_fee_bps: u64,
    pub custom_whisky_fee: bool,
    pub custom_whisky_fee_bps: u64,
    pub custom_max_payout: bool,
    pub custom_max_payout_bps: u64,
    pub custom_bonus_token_mint: Pubkey,
    pub custom_bonus_token: bool,
    pub custom_max_creator_fee: bool,
    pub custom_max_creator_fee_bps: u64,
    pub deposit_whitelist_required: bool,
    pub deposit_whitelist_address: Pubkey,
    pub bump: [u8; 1],
}

/// A player and the nonce of its latest game.
#[derive(Clone, Debug)]
pub struct Player {
    pub user: Pubkey,
    /// Raised by one for every game started.
    pub nonce: u64,
    pub bump: [u8; 1],
}

/// Where a game stands.
#[derive(Clone, Copy, PartialEq, Eq, Structural, Debug)]
pub enum GameStatus {
    /// No game in progress.
    Inactive,
    /// Bet placed, waiting for the oracle's seed.
    ResultRequested,
    /// Settled and claimable.
    Ready,
}

/// A player's single game slot.
#[derive(Clone, Debug)]
pub struct Game {
    pub nonce: u64,
    pub user: Pubkey,
    pub token_mint: Pubkey,
    pub pool: Pubkey,
    pub status: GameStatus,
    /// The oracle's commitment to the next round's seed.
    pub next_rng_seed_hashed: String,
    /// The seed the oracle revealed for this game.
    pub rng_seed: String,
    pub timestamp: i64,
    pub creator: Pubkey,
    pub creator_meta: String,
    pub wager: u64,
    pub underlying_used: u64,
    pub bonus_used: u64,
    pub creator_fee: u64,
    pub whisky_fee: u64,
    pub pool_fee: u64,
    pub jackpot_fee: u64,
    /// 1 when the jackpot was drawn, else 0.
    pub jackpot_result: u64,
    /// Jackpot chance, in micro basis points.
    pub jackpot_probability_ubps: u64,
    pub jackpot_payout: u64,
    pub client_seed: String,
    /// Outcome weights.
    pub bet: Vec<u32>,
    /// Index of the winning outcome.
    pub result: u32,
    pub points: bool,
    pub points_authority: Pubkey,
    pub metadata: String,
    pub bump: [u8; 1],
}

/// Direction of a liquidity change.
#[derive(Clone, Copy, PartialEq, Eq, Structural, Debug)]
pub enum PoolAction {
    Deposit,
    Withdraw,
}

/// Record of a deposit or a withdrawal.
#[derive(Clone, Debug)]
pub struct PoolChange {
    pub user: Pubkey,
    pub pool: Pubkey,
    pub token_mint: Pubkey,
    pub action: PoolAction,
    pub amount: u64,
    pub post_liquidity: u64,
    pub lp_supply: u64,
}

/// Record of a settled game.
#[derive(Clone, Debug)]
pub struct GameSettled {
    pub user: Pubkey,
    pub pool: Pubkey,
    pub token_mint: Pubkey,
    pub creator: Pubkey,
    pub creator_fee: u64,
    pub whisky_fee: u64,
    pub pool_fee: u64,
    pub jackpot_fee: u64,
    pub underlying_used: u64,
    pub bonus_used: u64,
    pub wager: u64,
    /// Base payout plus jackpot payout.
    pub payout: u64,
    pub multiplier_bps: u64,
    pub payout_from_bonus_pool: u64,
    pub payout_from_normal_pool: u64,
    pub jackpot_probability_ubps: u64,
    pub jackpot_result: u64,
    pub nonce: u64,
    pub client_seed: String,
    pub result_index: u32,
    pub bet: Vec<u32>,
    pub jackpot_payout_to_user: u64,
    pub pool_liquidity: u64,
    pub rng_seed: String,
    pub next_rng_seed_hashed: String,
    pub metadata: String,
}

} // verus!
