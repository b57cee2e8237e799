//! The ways in which an operation on a swap chain is rejected.

use vstd::prelude::*;

verus! {

/// Why an operation on the chain was rejected. None of these is recovered from
/// locally: the caller gives the whole transaction up.
#[derive(Clone, Copy, Debug, PartialEq, Eq, Structural)]
pub enum ErrorCode {
    /// A leg or the close was attempted while no chain was open.
    ChainClosed,
    /// The chain was closed without a strict gain in the origin asset.
    NoProfit,
    /// A leg left its destination balance lower than it found it.
    ArithmeticUnderflow,
    /// The venue itself refused the swap.
    VenueExecutionFailed,
}

} // verus!
