//! The persisted record of the chain in flight, and the token balances that
//! the operations read.

use vstd::prelude::*;

verus! {

/// The one persisted record of the chain. While `is_valid` is false no chain
/// is open, and the two amounts are leftovers that no operation trusts.
#[derive(Clone, Copy, Debug, PartialEq, Eq, Structural)]
pub struct SwapState {
    /// The amount that the next leg hands to its venue.
    pub swap_input: u64,
    /// The origin-asset balance as it stood when the chain was opened.
    pub start_balance: u64,
    /// Whether a chain is open.
    pub is_valid: bool,
}

impl SwapState {
    /// The record once a chain has been opened on it: the snapshot is taken,
    /// the first input is set, and whatever stood there before is gone.
    pub open spec fn opened(self, origin_balance: u64, swap_input: u64) -> SwapState {
        SwapState { swap_input, start_balance: origin_balance, is_valid: true }
    }

    /// The record once a leg has settled `amount_out`: only the pending input
    /// changes.
    pub open spec fn threaded(self, amount_out: u64) -> SwapState {
        SwapState { swap_input: amount_out, ..self }
    }

    /// The record once the chain has been closed: only the flag changes, and
    /// the amounts stay behind as leftovers.
    pub open spec fn closed(self) -> SwapState {
        SwapState { is_valid: false, ..self }
    }
}

/// What an operation can rely on in a [`SwapState`]: either no chain is open,
/// or one is, with its pending input and its snapshot.
pub enum ChainPhase {
    Closed,
    Open { swap_input: u64, start_balance: u64 },
}

impl View for SwapState {
    type V = ChainPhase;

    /// The record without what is stale in it.
    open spec fn view(&self) -> ChainPhase {
        if self.is_valid {
            ChainPhase::Open { swap_input: self.swap_input, start_balance: self.start_balance }
        } else {
            ChainPhase::Closed
        }
    }
}

/// A token account as far as the chain reads it: the balance it held when it
/// was last read from the ledger.
#[derive(Clone, Copy, Debug, PartialEq, Eq, Structural)]
pub struct TokenAccount {
    pub amount: u64,
}

} // verus!
