//! The venues a leg can run on. Each venue turns an amount and a direction
//! into the call that its exchange understands; the chain itself never looks
//! inside a call.

pub mod orca;
pub mod raydium;
pub mod saber;
pub mod serum;

use vstd::prelude::*;
use crate::swaps::orca::{orca_call, orca_swap_data, OrcaSwapData};
use crate::swaps::raydium::{raydium_call, raydium_swap_data, RaydiumSwapData};
use crate::swaps::serum::Side;

verus! {

/// What a caller asks of one leg: the venue to run on and the direction of
/// the swap, in the form the venue knows it.
#[derive(Clone, Copy, Debug, PartialEq, Eq, Structural)]
pub enum LegRequest {
    Orca { a_to_b: bool },
    Raydium { a_to_b: bool },
    Saber,
    Serum { side: Side },
}

/// The call that a leg hands to its venue.
#[derive(Clone, Copy, Debug, PartialEq, Eq, Structural)]
pub enum VenueCall {
    Orca(OrcaSwapData),
    Raydium(RaydiumSwapData),
    Saber { amount_in: u64 },
    Serum { amount_in: u64, side: Side },
}

impl VenueCall {
    /// The amount that the venue is given to swap.
    pub open spec fn spec_amount_in(&self) -> u64 {
        match *self {
            VenueCall::Orca(data) => data.amount,
            VenueCall::Raydium(data) => data.amount,
            VenueCall::Saber { amount_in } => amount_in,
            VenueCall::Serum { amount_in, .. } => amount_in,
        }
    }

    /// The amount that the venue is given to swap.
    #[verifier::when_used_as_spec(spec_amount_in)]
    pub fn amount_in(&self) -> (amount: u64)
        ensures
            amount == self.spec_amount_in(),
    {
        match self {
            VenueCall::Orca(data) => data.amount,
            VenueCall::Raydium(data) => data.amount,
            VenueCall::Saber { amount_in } => *amount_in,
            VenueCall::Serum { amount_in, .. } => *amount_in,
        }
    }
}

/// Whether a leg may call the program at address `venue` when the chain's
/// own program lives at `own`: any program but its own. A venue that led back
/// into the chain's operations would run them before the leg has read what the
/// swap produced.
pub fn is_foreign_venue(venue: &[u8; 32], own: &[u8; 32]) -> (foreign: bool)
    ensures
        foreign <==> venue@ != own@,
{
    let mut i: usize = 0;
    while i < 32
        invariant
            0 <= i <= 32,
            forall|j: int| 0 <= j < i ==> venue@[j] == own@[j],
        decreases 32 - i,
    {
        if venue[i] != own[i] {
            return true;
        }
        i = i + 1;
    }
    assert(venue@ =~= own@);
    false
}

/// The call that a request turns into once the amount to swap is known.
pub open spec fn call_for(request: LegRequest, amount_in: u64) -> VenueCall {
    match request {
        LegRequest::Orca { a_to_b } => VenueCall::Orca(orca_call(amount_in, a_to_b)),
        LegRequest::Raydium { a_to_b } => VenueCall::Raydium(raydium_call(amount_in, a_to_b)),
        LegRequest::Saber => VenueCall::Saber { amount_in },
        LegRequest::Serum { side } => VenueCall::Serum { amount_in, side },
    }
}

/// Picks the venue that the request names and lets it build its call.
pub fn venue_call(request: LegRequest, amount_in: u64) -> (call: VenueCall)
    ensures
        call == call_for(request, amount_in),
{
    match request {
        LegRequest::Orca { a_to_b } => VenueCall::Orca(orca_swap_data(amount_in, a_to_b)),
        LegRequest::Raydium { a_to_b } => VenueCall::Raydium(raydium_swap_data(amount_in, a_to_b)),
        LegRequest::Saber => VenueCall::Saber { amount_in },
        LegRequest::Serum { side } => VenueCall::Serum { amount_in, side },
    }
}

} // verus!
