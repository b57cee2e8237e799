//! One leg of a chain, as a step from what happened to what to do next. The
//! venue runs outside this library: the caller performs the call that a step
//! asks for and comes back with how the venue answered.

use vstd::prelude::*;
use crate::error::ErrorCode;
use crate::protocol::{amount_in, amount_out, end_swap, prepare_swap};
use crate::state::{SwapState, TokenAccount};
use crate::swaps::{call_for, venue_call, LegRequest, VenueCall};

verus! {

/// What has happened to a leg so far.
#[derive(Clone, Copy, Debug, PartialEq, Eq, Structural)]
pub enum LegEvent {
    /// The leg was asked for; the venue has not been called.
    Requested,
    /// The venue carried the swap out, and the destination account, read
    /// again from the ledger, now holds `dst_amount`.
    Executed { dst_amount: u64 },
    /// The venue refused the swap.
    Failed,
}

/// What a step of a leg tells its caller.
#[derive(Clone, Copy, Debug, PartialEq, Eq, Structural)]
pub enum LegAction {
    /// Hand this call to the venue, read the destination account again, and
    /// come back with the outcome.
    Invoke(VenueCall),
    /// The leg is settled: `amount_out` is what it produced and what the next
    /// leg will be given.
    Settled { amount_out: u64 },
}

/// The step of a leg: the record, the destination account and the answer
/// after `event`, from the record and the destination account before it.
///
/// A closed chain rejects every event and changes nothing. On an open chain a
/// request asks for the venue to be called with the pending input; a refusal
/// by the venue is passed on; an executed swap refreshes the destination
/// account and, unless its balance fell, makes the rise the pending input.
pub open spec fn leg_step(
    state: SwapState,
    dst: TokenAccount,
    request: LegRequest,
    event: LegEvent,
) -> (SwapState, TokenAccount, Result<LegAction, ErrorCode>) {
    match amount_in(state) {
        Err(e) => (state, dst, Err(e)),
        Ok(amount) => match event {
            LegEvent::Requested => (state, dst, Ok(LegAction::Invoke(call_for(request, amount)))),
            LegEvent::Failed => (state, dst, Err(ErrorCode::VenueExecutionFailed)),
            LegEvent::Executed { dst_amount } => match amount_out(dst.amount, dst_amount) {
                Ok(out) => (
                    state.threaded(out),
                    TokenAccount { amount: dst_amount },
                    Ok(LegAction::Settled { amount_out: out }),
                ),
                Err(e) => (state, TokenAccount { amount: dst_amount }, Err(e)),
            },
        },
    }
}

/// Takes one step of a leg on whatever venue `request` names. `user_dst` is
/// the account that receives the venue's output, holding the balance read
/// before the venue ran.
pub fn run_leg(
    swap_state: &mut SwapState,
    user_dst: &mut TokenAccount,
    request: LegRequest,
    event: LegEvent,
) -> (res: Result<LegAction, ErrorCode>)
    ensures
        (*final(swap_state), *final(user_dst), res) == leg_step(
            *old(swap_state),
            *old(user_dst),
            request,
            event,
        ),
{
    let amount_in: u64 = match prepare_swap(swap_state) {
        Ok(amount) => amount,
        Err(e) => { return Err(e); },
    };
    match event {
        LegEvent::Requested => Ok(LegAction::Invoke(venue_call(request, amount_in))),
        LegEvent::Failed => Err(ErrorCode::VenueExecutionFailed),
        LegEvent::Executed { dst_amount } => match end_swap(swap_state, user_dst, dst_amount) {
            Ok(amount_out) => Ok(LegAction::Settled { amount_out }),
            Err(e) => Err(e),
        },
    }
}

/// A closed chain rejects every step of a leg as closed and writes nothing,
/// whatever amounts were left in its record and whatever the venue, the
/// direction, the destination account or the event.
pub proof fn lemma_closed_chain_rejects_leg(
    state: SwapState,
    dst: TokenAccount,
    request: LegRequest,
    event: LegEvent,
)
    requires
        !state.is_valid,
    ensures
        leg_step(state, dst, request, event) == (
            state,
            dst,
            Err::<LegAction, ErrorCode>(ErrorCode::ChainClosed),
        ),
{
}

/// The answer of a step depends on the record only through its view: two
/// records that differ in nothing but leftovers answer alike.
pub proof fn lemma_leg_ignores_leftovers(
    first: SwapState,
    second: SwapState,
    dst: TokenAccount,
    request: LegRequest,
    event: LegEvent,
)
    requires
        first@ == second@,
    ensures
        leg_step(first, dst, request, event).2 == leg_step(second, dst, request, event).2,
        leg_step(first, dst, request, event).1 == leg_step(second, dst, request, event).1,
        leg_step(first, dst, request, event).0@ == leg_step(second, dst, request, event).0@,
{
}

/// What one leg settles is what the next leg hands to its venue: after a step
/// that settled `amount_out`, a request for any leg asks for a call of exactly
/// that amount.
pub proof fn lemma_settled_amount_is_next_input(
    state: SwapState,
    dst: TokenAccount,
    request: LegRequest,
    dst_amount: u64,
    next_dst: TokenAccount,
    next_request: LegRequest,
)
    requires
        leg_step(state, dst, request, LegEvent::Executed { dst_amount }).2 is Ok,
    ensures
        ({
            let (after, _, settled) = leg_step(
                state,
                dst,
                request,
                LegEvent::Executed { dst_amount },
            );
            let asked = leg_step(after, next_dst, next_request, LegEvent::Requested).2;
            &&& settled matches Ok(LegAction::Settled { amount_out })
            &&& amount_out == dst_amount - dst.amount
            &&& asked matches Ok(LegAction::Invoke(call))
            &&& call == call_for(next_request, amount_out)
            &&& call.amount_in() == amount_out
        }),
{
}

} // verus!
