//! The boundary of a leg: how a leg learns what to swap, and how what it
//! produced becomes the input of the next one.

use vstd::prelude::*;
use crate::error::ErrorCode;
use crate::state::{SwapState, TokenAccount};

verus! {

/// The amount a leg is given to swap: the pending input of an open chain.
/// A closed chain gives none, whatever its leftovers are.
pub open spec fn amount_in(state: SwapState) -> Result<u64, ErrorCode> {
    if state.is_valid {
        Ok(state.swap_input)
    } else {
        Err(ErrorCode::ChainClosed)
    }
}

/// The amount a leg produced: the rise of its destination balance from
/// `before` the venue ran to `after` it. A fall is a violation; no change is a
/// swap that produced nothing.
pub open spec fn amount_out(before: u64, after: u64) -> Result<u64, ErrorCode> {
    if after < before {
        Err(ErrorCode::ArithmeticUnderflow)
    } else {
        Ok((after - before) as u64)
    }
}

/// Reads the input of the next leg. Nothing is written.
pub fn prepare_swap(swap_state: &SwapState) -> (res: Result<u64, ErrorCode>)
    ensures
        res == amount_in(*swap_state),
{
    if !swap_state.is_valid {
        return Err(ErrorCode::ChainClosed);
    }
    Ok(swap_state.swap_input)
}

/// Settles a leg. `user_dst` still holds the balance read before the venue
/// ran; `reloaded` is the balance the ledger shows for it now. The account
/// takes the new balance in any case. If the balance did not fall, the rise
/// becomes the pending input and is returned; if it fell, the record is left
/// as it was.
pub fn end_swap(swap_state: &mut SwapState, user_dst: &mut TokenAccount, reloaded: u64) -> (res:
    Result<u64, ErrorCode>)
    ensures
        res == amount_out(old(user_dst).amount, reloaded),
        final(user_dst).amount == reloaded,
        res matches Ok(out) ==> *final(swap_state) == old(swap_state).threaded(out),
        res is Err ==> *final(swap_state) == *old(swap_state),
{
    let dst_start_balance: u64 = user_dst.amount;
    user_dst.amount = reloaded;
    let dst_end_balance: u64 = user_dst.amount;
    if dst_end_balance < dst_start_balance {
        return Err(ErrorCode::ArithmeticUnderflow);
    }
    let swap_amount_out: u64 = dst_end_balance - dst_start_balance;
    swap_state.swap_input = swap_amount_out;
    Ok(swap_amount_out)
}

} // verus!
