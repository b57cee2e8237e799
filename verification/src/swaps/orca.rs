//! The Orca venue: a concentrated-liquidity pool swapped between its token A
//! and its token B.

use vstd::prelude::*;
use crate::state::{SwapState, TokenAccount};

verus! {

/// The lowest square-root price a pool can reach, in Q64.64. A swap from A to
/// B pushes the price down, so this limit lets it run as far as it can.
pub const MIN_SQRT_PRICE_X64: u128 = 4295048016;

/// The highest square-root price a pool can reach, in Q64.64. A swap from B
/// to A pushes the price up, so this limit lets it run as far as it can.
pub const MAX_SQRT_PRICE_X64: u128 = 79226673515401279992447579055;

/// The arguments of the venue's swap instruction.
#[derive(Clone, Copy, Debug, PartialEq, Eq, Structural)]
pub struct OrcaSwapData {
    pub amount: u64,
    pub other_amount_threshold: u64,
    pub sqrt_price_limit: u128,
    pub amount_specified_is_input: bool,
    pub a_to_b: bool,
}

/// The accounts of an Orca leg as far as the chain reads them: the owner's two
/// token accounts and the chain's record.
#[derive(Clone, Copy, Debug, PartialEq, Eq, Structural)]
pub struct OrcaSwap {
    pub token_owner_account_a: TokenAccount,
    pub token_owner_account_b: TokenAccount,
    pub swap_state: SwapState,
}

impl OrcaSwap {
    /// The account that receives what the swap produces: B when swapping from
    /// A to B, A otherwise.
    pub open spec fn destination(self, a_to_b: bool) -> TokenAccount {
        if a_to_b {
            self.token_owner_account_b
        } else {
            self.token_owner_account_a
        }
    }

    /// The account that the swap draws on: the other one.
    pub open spec fn source(self, a_to_b: bool) -> TokenAccount {
        if a_to_b {
            self.token_owner_account_a
        } else {
            self.token_owner_account_b
        }
    }
}

/// What the venue is asked for a swap of `amount_in` in the given direction:
/// the whole amount as exact input, no floor on the output, and the price
/// free to move to the end of its range.
pub open spec fn orca_call(amount_in: u64, a_to_b: bool) -> OrcaSwapData {
    OrcaSwapData {
        amount: amount_in,
        other_amount_threshold: 0,
        sqrt_price_limit: if a_to_b {
            MIN_SQRT_PRICE_X64
        } else {
            MAX_SQRT_PRICE_X64
        },
        amount_specified_is_input: true,
        a_to_b,
    }
}

/// Builds the venue's swap arguments.
pub fn orca_swap_data(amount_in: u64, a_to_b: bool) -> (data: OrcaSwapData)
    ensures
        data == orca_call(amount_in, a_to_b),
{
    let sqrt_price_limit: u128 = if a_to_b {
        MIN_SQRT_PRICE_X64
    } else {
        MAX_SQRT_PRICE_X64
    };
    OrcaSwapData {
        amount: amount_in,
        other_amount_threshold: 0,
        sqrt_price_limit,
        amount_specified_is_input: true,
        a_to_b,
    }
}

} // verus!
