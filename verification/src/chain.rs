//! A whole chain as one transaction: the operations a caller submits, in
//! order, each with what the ledger showed while it ran. The transaction
//! takes effect as a whole or not at all.

use vstd::prelude::*;
use crate::error::ErrorCode;
use crate::leg::{leg_step, run_leg, LegAction, LegEvent};
use crate::orchestrator::{profit_gate, profit_or_revert, start_swap, TokenAndSwapState};
use crate::protocol::{amount_in, amount_out};
use crate::state::{SwapState, TokenAccount};
use crate::swaps::{call_for, LegRequest, VenueCall};

verus! {

/// How a venue answered the call of a leg.
#[derive(Clone, Copy, Debug, PartialEq, Eq, Structural)]
pub enum VenueOutcome {
    /// The swap was carried out, and the destination account then held
    /// `dst_after`.
    Executed { dst_after: u64 },
    /// The venue refused the swap.
    Failed,
}

/// One operation of a transaction, with what the ledger showed while it ran.
#[derive(Clone, Copy, Debug, PartialEq, Eq, Structural)]
pub enum Step {
    /// Open a chain with `swap_input` while the origin asset stands at
    /// `origin_amount`.
    Open { origin_amount: u64, swap_input: u64 },
    /// Run a leg whose destination account held `dst_before` on entry.
    Leg { request: LegRequest, dst_before: u64, outcome: VenueOutcome },
    /// Close the chain while the origin asset stands at `origin_amount`.
    Close { origin_amount: u64 },
}

impl VenueOutcome {
    /// The event that this answer is to the leg that was waiting for it.
    pub open spec fn event(self) -> LegEvent {
        match self {
            VenueOutcome::Executed { dst_after } => LegEvent::Executed { dst_amount: dst_after },
            VenueOutcome::Failed => LegEvent::Failed,
        }
    }
}

/// The record after one step, or the reason why the step is rejected.
pub open spec fn step_result(state: SwapState, step: Step) -> Result<SwapState, ErrorCode> {
    match step {
        Step::Open { origin_amount, swap_input } => Ok(state.opened(origin_amount, swap_input)),
        Step::Leg { request, dst_before, outcome } => {
            let dst = TokenAccount { amount: dst_before };
            let (after, _, answer) = leg_step(state, dst, request, outcome.event());
            match answer {
                Ok(_) => Ok(after),
                Err(e) => Err(e),
            }
        },
        Step::Close { origin_amount } => match profit_gate(state, origin_amount) {
            Ok(_) => Ok(state.closed()),
            Err(e) => Err(e),
        },
    }
}

/// The record after all the steps in order, or the reason why the first
/// rejected step is rejected.
pub open spec fn run(state: SwapState, steps: Seq<Step>) -> Result<SwapState, ErrorCode>
    decreases steps.len(),
{
    if steps.len() == 0 {
        Ok(state)
    } else {
        match run(state, steps.drop_last()) {
            Ok(before) => step_result(before, steps.last()),
            Err(e) => Err(e),
        }
    }
}

/// The call that the venue of a leg is handed, if the leg gets that far.
pub open spec fn call_of(state: SwapState, step: Step) -> Option<VenueCall> {
    match step {
        Step::Leg { request, .. } => match amount_in(state) {
            Ok(amount) => Some(call_for(request, amount)),
            Err(_) => None,
        },
        _ => None,
    }
}

/// The calls that the legs among the steps hand to their venues, in order.
/// Once a step has been rejected no later leg reaches its venue.
pub open spec fn calls(state: SwapState, steps: Seq<Step>) -> Seq<VenueCall>
    decreases steps.len(),
{
    if steps.len() == 0 {
        Seq::empty()
    } else {
        let earlier = calls(state, steps.drop_last());
        match run(state, steps.drop_last()) {
            Ok(before) => match call_of(before, steps.last()) {
                Some(call) => earlier.push(call),
                None => earlier,
            },
            Err(_) => earlier,
        }
    }
}

/// Runs one step on the record. On success the record is the one after the
/// step, and the call handed to a venue, if the step is a leg, is returned. On
/// rejection the record is left as it was.
fn run_step(state: &mut SwapState, step: &Step) -> (res: Result<Option<VenueCall>, ErrorCode>)
    ensures
        match res {
            Ok(call) => step_result(*old(state), *step) == Ok::<SwapState, ErrorCode>(*final(state))
                && call == call_of(*old(state), *step),
            Err(e) => step_result(*old(state), *step) == Err::<SwapState, ErrorCode>(e)
                && *final(state) == *old(state),
        },
{
    match *step {
        Step::Open { origin_amount, swap_input } => {
            let mut ctx = TokenAndSwapState {
                src: TokenAccount { amount: origin_amount },
                swap_state: *state,
            };
            match start_swap(&mut ctx, swap_input) {
                Ok(_) => {
                    *state = ctx.swap_state;
                    Ok(None)
                },
                Err(e) => Err(e),
            }
        },
        Step::Leg { request, dst_before, outcome } => {
            let mut user_dst = TokenAccount { amount: dst_before };
            let call: VenueCall = match run_leg(state, &mut user_dst, request, LegEvent::Requested) {
                Ok(LegAction::Invoke(call)) => call,
                Ok(LegAction::Settled { .. }) => {
                    proof {
                        assert(false);
                    }
                    return Err(ErrorCode::VenueExecutionFailed);
                },
                Err(e) => { return Err(e); },
            };
            let event: LegEvent = match outcome {
                VenueOutcome::Executed { dst_after } => LegEvent::Executed { dst_amount: dst_after },
                VenueOutcome::Failed => LegEvent::Failed,
            };
            match run_leg(state, &mut user_dst, request, event) {
                Ok(_) => Ok(Some(call)),
                Err(e) => Err(e),
            }
        },
        Step::Close { origin_amount } => {
            let mut ctx = TokenAndSwapState {
                src: TokenAccount { amount: origin_amount },
                swap_state: *state,
            };
            match profit_or_revert(&mut ctx) {
                Ok(_) => {
                    *state = ctx.swap_state;
                    Ok(None)
                },
                Err(e) => Err(e),
            }
        },
    }
}

/// Runs the steps in order as one transaction. If every step succeeds, the
/// record is the one after the last step, and the calls handed to the venues
/// are returned in order. If a step is rejected, its error is returned and
/// the record is what it was before the first step: nothing that the
/// earlier steps wrote is kept.
pub fn run_transaction(state: &mut SwapState, steps: &Vec<Step>) -> (res: Result<
    Vec<VenueCall>,
    ErrorCode,
>)
    ensures
        match res {
            Ok(handed) => run(*old(state), steps@) == Ok::<SwapState, ErrorCode>(*final(state))
                && handed@ == calls(*old(state), steps@),
            Err(e) => run(*old(state), steps@) == Err::<SwapState, ErrorCode>(e) && *final(state)
                == *old(state),
        },
{
    let mut working: SwapState = *state;
    let mut handed: Vec<VenueCall> = Vec::new();
    let mut i: usize = 0;
    while i < steps.len()
        invariant
            0 <= i <= steps.len(),
            run(*old(state), steps@.take(i as int)) == Ok::<SwapState, ErrorCode>(working),
            handed@ == calls(*old(state), steps@.take(i as int)),
            *state == *old(state),
        decreases steps.len() - i,
    {
        proof {
            let next = steps@.take(i + 1);
            assert(next.drop_last() == steps@.take(i as int));
            assert(next.last() == steps@[i as int]);
        }
        match run_step(&mut working, &steps[i]) {
            Ok(call) => {
                if let Some(call) = call {
                    handed.push(call);
                }
            },
            Err(e) => {
                proof {
                    lemma_rejection_is_final(*old(state), steps@, i + 1);
                }
                return Err(e);
            },
        }
        i = i + 1;
    }
    proof {
        assert(steps@.take(steps@.len() as int) == steps@);
    }
    *state = working;
    Ok(handed)
}

/// Once a step of a transaction is rejected, the transaction is: the steps
/// that follow cannot change its error.
pub proof fn lemma_rejection_is_final(state: SwapState, steps: Seq<Step>, n: int)
    requires
        0 <= n <= steps.len(),
        run(state, steps.take(n)) is Err,
    ensures
        run(state, steps) == run(state, steps.take(n)),
    decreases steps.len(),
{
    if n == steps.len() {
        assert(steps.take(n) == steps);
    } else {
        assert(steps.drop_last().take(n) == steps.take(n));
        lemma_rejection_is_final(state, steps.drop_last(), n);
    }
}

/// What a leg produced: the rise of its destination balance, if the venue
/// carried the swap out and the balance did not fall.
pub open spec fn produced(step: Step) -> Option<u64> {
    match step {
        Step::Leg { dst_before, outcome: VenueOutcome::Executed { dst_after }, .. } => match amount_out(
            dst_before,
            dst_after,
        ) {
            Ok(out) => Some(out),
            Err(_) => None,
        },
        _ => None,
    }
}

/// Whether every step is a leg.
pub open spec fn all_legs(steps: Seq<Step>) -> bool {
    forall|i: int| 0 <= i < steps.len() ==> steps[i] is Leg
}

/// A chain of legs threads its amounts: if every leg of the sequence
/// succeeds, each leg hands its venue one call, the first leg hands over the
/// input that was pending, every later leg hands over exactly what the leg
/// before it produced, and what the last leg produced is left pending.
pub proof fn lemma_chain_threads(state: SwapState, steps: Seq<Step>)
    requires
        all_legs(steps),
        run(state, steps) is Ok,
    ensures
        calls(state, steps).len() == steps.len(),
        steps.len() > 0 ==> state.is_valid && calls(state, steps)[0].amount_in()
            == state.swap_input,
        forall|i: int|
            0 <= i < steps.len() - 1 ==> produced(steps[i]) == Some(
                #[trigger] calls(state, steps)[i + 1].amount_in(),
            ),
        steps.len() > 0 ==> produced(steps.last()) == Some(run(state, steps).unwrap().swap_input),
        run(state, steps).unwrap().is_valid == state.is_valid,
        run(state, steps).unwrap().start_balance == state.start_balance,
    decreases steps.len(),
{
    if steps.len() > 0 {
        let earlier = steps.drop_last();
        assert(all_legs(earlier));
        lemma_chain_threads(state, earlier);
        let before = run(state, earlier).unwrap();
        let handed = calls(state, steps);
        assert(handed == calls(state, earlier).push(call_of(before, steps.last()).unwrap()));
        assert forall|i: int| 0 <= i < steps.len() - 1 implies produced(steps[i]) == Some(
            #[trigger] handed[i + 1].amount_in(),
        ) by {
            if i + 1 < earlier.len() {
                assert(handed[i + 1] == calls(state, earlier)[i + 1]);
                assert(steps[i] == earlier[i]);
            } else {
                assert(steps[i] == earlier.last());
            }
        }
        if earlier.len() > 0 {
            assert(handed[0] == calls(state, earlier)[0]);
        }
    }
}

/// A step that is rejected takes the whole transaction with it: if the steps
/// before step `k` succeed and step `k` does not, the transaction is rejected
/// with the error of step `k`, whatever follows.
pub proof fn lemma_rejected_step_rejects_all(state: SwapState, steps: Seq<Step>, k: int)
    requires
        0 <= k < steps.len(),
        run(state, steps.take(k)) is Ok,
        step_result(run(state, steps.take(k)).unwrap(), steps[k]) is Err,
    ensures
        run(state, steps) is Err,
        run(state, steps)->Err_0 == step_result(run(state, steps.take(k)).unwrap(), steps[k])->Err_0,
{
    let upto = steps.take(k + 1);
    assert(upto.drop_last() == steps.take(k));
    assert(upto.last() == steps[k]);
    lemma_rejection_is_final(state, steps, k + 1);
}

} // verus!
