//! The Saber venue: a stable-swap pool whose direction is fixed by the
//! accounts it is given.

use vstd::prelude::*;
use crate::state::{SwapState, TokenAccount};

verus! {

/// The accounts of a Saber leg as far as the chain reads them: the account
/// that receives the output and the chain's record.
#[derive(Clone, Copy, Debug, PartialEq, Eq, Structural)]
pub struct SaberSwap {
    pub user_dst: TokenAccount,
    pub swap_state: SwapState,
}

} // verus!
