//! The operations a caller invokes: set the record up, open a chain, run a
//! leg on one of the venues, and close the chain at a profit or not at all.

use vstd::prelude::*;
use crate::error::ErrorCode;
use crate::leg::{leg_step, run_leg, LegAction, LegEvent};
use crate::state::{SwapState, TokenAccount};
use crate::swaps::orca::OrcaSwap;
use crate::swaps::raydium::RaydiumSwap;
use crate::swaps::saber::SaberSwap;
use crate::swaps::serum::{SerumSwap, Side};
use crate::swaps::LegRequest;

verus! {

/// The accounts of [`init_program`]: the record, freshly allocated.
#[derive(Clone, Copy, Debug, PartialEq, Eq, Structural)]
pub struct InitSwapState {
    pub swap_state: SwapState,
}

/// The accounts of [`start_swap`] and [`profit_or_revert`]: the account of
/// the origin asset, holding the balance the ledger shows on entry, and the
/// record.
#[derive(Clone, Copy, Debug, PartialEq, Eq, Structural)]
pub struct TokenAndSwapState {
    pub src: TokenAccount,
    pub swap_state: SwapState,
}

/// Whether a chain with this record may be closed when the origin asset
/// stands at `final_balance`: only an open chain, and only at a strict gain
/// over its snapshot.
pub open spec fn profit_gate(state: SwapState, final_balance: u64) -> Result<(), ErrorCode> {
    if !state.is_valid {
        Err(ErrorCode::ChainClosed)
    } else if final_balance > state.start_balance {
        Ok(())
    } else {
        Err(ErrorCode::NoProfit)
    }
}

/// Sets a fresh record up: no chain open, no input pending. The snapshot is
/// left as the allocation made it.
pub fn init_program(ctx: &mut InitSwapState) -> (res: Result<(), ErrorCode>)
    ensures
        res == Ok::<(), ErrorCode>(()),
        final(ctx).swap_state == (SwapState {
            swap_input: 0,
            is_valid: false,
            ..old(ctx).swap_state
        }),
{
    ctx.swap_state.swap_input = 0;
    ctx.swap_state.is_valid = false;
    Ok(())
}

/// Opens a chain: the origin balance is taken as the snapshot and
/// `swap_input` becomes the input of the first leg. There is no profit check
/// here and no guard: a chain that was open is replaced.
pub fn start_swap(ctx: &mut TokenAndSwapState, swap_input: u64) -> (res: Result<(), ErrorCode>)
    ensures
        res == Ok::<(), ErrorCode>(()),
        final(ctx).swap_state == old(ctx).swap_state.opened(old(ctx).src.amount, swap_input),
        final(ctx).src == old(ctx).src,
{
    ctx.swap_state.start_balance = ctx.src.amount;
    ctx.swap_state.swap_input = swap_input;
    ctx.swap_state.is_valid = true;
    Ok(())
}

/// Closes the chain and judges it. The chain is marked closed first; the call
/// then succeeds only if a chain was open and the origin asset now stands
/// strictly above the snapshot taken when it was opened.
pub fn profit_or_revert(ctx: &mut TokenAndSwapState) -> (res: Result<(), ErrorCode>)
    ensures
        res == profit_gate(old(ctx).swap_state, old(ctx).src.amount),
        final(ctx).swap_state == old(ctx).swap_state.closed(),
        final(ctx).src == old(ctx).src,
{
    let was_open: bool = ctx.swap_state.is_valid;
    ctx.swap_state.is_valid = false;
    if !was_open {
        return Err(ErrorCode::ChainClosed);
    }
    let init_balance: u64 = ctx.swap_state.start_balance;
    let final_balance: u64 = ctx.src.amount;
    if !(final_balance > init_balance) {
        return Err(ErrorCode::NoProfit);
    }
    Ok(())
}

/// Takes one step of a leg on Raydium. The output arrives in `user_dst`.
pub fn raydium_swap(ctx: &mut RaydiumSwap, a_to_b: bool, event: LegEvent) -> (res: Result<
    LegAction,
    ErrorCode,
>)
    ensures
        (final(ctx).swap_state, final(ctx).user_dst, res) == leg_step(
            old(ctx).swap_state,
            old(ctx).user_dst,
            LegRequest::Raydium { a_to_b },
            event,
        ),
{
    run_leg(&mut ctx.swap_state, &mut ctx.user_dst, LegRequest::Raydium { a_to_b }, event)
}

/// Takes one step of a leg on Orca. The output arrives in the owner's account
/// for B when swapping from A to B, and in the one for A otherwise; the other
/// account is not touched.
pub fn orca_swap(ctx: &mut OrcaSwap, a_to_b: bool, event: LegEvent) -> (res: Result<
    LegAction,
    ErrorCode,
>)
    ensures
        (final(ctx).swap_state, final(ctx).destination(a_to_b), res) == leg_step(
            old(ctx).swap_state,
            old(ctx).destination(a_to_b),
            LegRequest::Orca { a_to_b },
            event,
        ),
        final(ctx).source(a_to_b) == old(ctx).source(a_to_b),
{
    if a_to_b {
        run_leg(
            &mut ctx.swap_state,
            &mut ctx.token_owner_account_b,
            LegRequest::Orca { a_to_b },
            event,
        )
    } else {
        run_leg(
            &mut ctx.swap_state,
            &mut ctx.token_owner_account_a,
            LegRequest::Orca { a_to_b },
            event,
        )
    }
}

/// Takes one step of a leg on Saber. The output arrives in `user_dst`.
pub fn saber_swap(ctx: &mut SaberSwap, event: LegEvent) -> (res: Result<LegAction, ErrorCode>)
    ensures
        (final(ctx).swap_state, final(ctx).user_dst, res) == leg_step(
            old(ctx).swap_state,
            old(ctx).user_dst,
            LegRequest::Saber,
            event,
        ),
{
    run_leg(&mut ctx.swap_state, &mut ctx.user_dst, LegRequest::Saber, event)
}

/// Takes one step of a leg on Serum. A bid's output arrives in the coin
/// account, an ask's in the price-currency account; the other account is not
/// touched.
pub fn serum_swap(ctx: &mut SerumSwap, side: Side, event: LegEvent) -> (res: Result<
    LegAction,
    ErrorCode,
>)
    ensures
        (final(ctx).swap_state, final(ctx).destination(side), res) == leg_step(
            old(ctx).swap_state,
            old(ctx).destination(side),
            LegRequest::Serum { side },
            event,
        ),
        final(ctx).source(side) == old(ctx).source(side),
{
    let is_bid: bool = match side {
        Side::Bid => true,
        Side::Ask => false,
    };
    if is_bid {
        run_leg(
            &mut ctx.swap_state,
            &mut ctx.market.coin_wallet,
            LegRequest::Serum { side },
            event,
        )
    } else {
        run_leg(&mut ctx.swap_state, &mut ctx.pc_wallet, LegRequest::Serum { side }, event)
    }
}

/// An open chain may be closed exactly when the origin asset stands strictly
/// above the snapshot: an unchanged balance is rejected for want of profit, a
/// balance one unit higher is accepted.
pub proof fn lemma_profit_gate(state: SwapState, final_balance: u64)
    requires
        state.is_valid,
    ensures
        profit_gate(state, final_balance) is Ok <==> final_balance > state.start_balance,
        profit_gate(state, final_balance) is Err ==> profit_gate(state, final_balance) == Err::<
            (),
            ErrorCode,
        >(ErrorCode::NoProfit),
        profit_gate(state, state.start_balance) == Err::<(), ErrorCode>(ErrorCode::NoProfit),
        state.start_balance < u64::MAX ==> profit_gate(state, (state.start_balance + 1) as u64)
            == Ok::<(), ErrorCode>(()),
{
}

/// A closed chain cannot be closed again: the attempt is rejected as closed,
/// whatever amounts were left in the record and wherever the origin asset
/// stands. Two records that differ in nothing but leftovers are judged alike.
pub proof fn lemma_closed_chain_rejects_close(
    state: SwapState,
    other: SwapState,
    final_balance: u64,
)
    ensures
        !state.is_valid ==> profit_gate(state, final_balance) == Err::<(), ErrorCode>(
            ErrorCode::ChainClosed,
        ),
        state@ == other@ ==> profit_gate(state, final_balance) == profit_gate(
            other,
            final_balance,
        ),
{
}

} // verus!
