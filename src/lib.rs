//! Settlement engine for weighted-outcome wagers against a shared liquidity
//! pool: fixed-point fee math, share accounting, bet validation, commit-reveal
//! outcome resolution and the game state machine.
use vstd::prelude::*;

pub mod constants;
pub mod errors;
pub mod instructions;
pub mod resolver;
pub mod state;
pub mod utils;

verus! {

} // verus!
