//! The Raydium venue: a concentrated-liquidity pool swapped from the user's
//! source account into the user's destination account.

use vstd::prelude::*;
use crate::state::{SwapState, TokenAccount};

verus! {

/// The arguments of the venue's swap instruction.
#[derive(Clone, Copy, Debug, PartialEq, Eq, Structural)]
pub struct RaydiumSwapData {
    pub amount: u64,
    pub other_amount_threshold: u64,
    pub sqrt_price_limit_x64: u128,
    pub is_base_input: bool,
}

/// The accounts of a Raydium leg as far as the chain reads them: the account
/// that receives the output and the chain's record.
#[derive(Clone, Copy, Debug, PartialEq, Eq, Structural)]
pub struct RaydiumSwap {
    pub user_dst: TokenAccount,
    pub swap_state: SwapState,
}

/// What the venue is asked for a swap of `amount_in`: the whole amount, no
/// floor on the output, no price limit (zero stands for none), and the
/// direction flag in the place of the base-input flag.
pub open spec fn raydium_call(amount_in: u64, a_to_b: bool) -> RaydiumSwapData {
    RaydiumSwapData {
        amount: amount_in,
        other_amount_threshold: 0,
        sqrt_price_limit_x64: 0,
        is_base_input: a_to_b,
    }
}

/// Builds the venue's swap arguments.
pub fn raydium_swap_data(amount_in: u64, a_to_b: bool) -> (data: RaydiumSwapData)
    ensures
        data == raydium_call(amount_in, a_to_b),
{
    RaydiumSwapData {
        amount: amount_in,
        other_amount_threshold: 0,
        sqrt_price_limit_x64: 0,
        is_base_input: a_to_b,
    }
}

} // verus!
