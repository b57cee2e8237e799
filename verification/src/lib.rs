//! A swap chain: a run of swaps on independent venues that is opened, threaded
//! from leg to leg through one persisted record, and closed only at a profit.
//!
//! The library decides and never acts. The ledger, the token balances and the
//! venues live outside it: a caller reads the accounts, hands the library
//! plain values, performs the call a leg asks for, and comes back with what
//! the ledger shows afterwards.
//!
//! - [`state`]: the persisted record and the token balances.
//! - [`protocol`]: the boundary of a leg, [`prepare_swap`] and [`end_swap`].
//! - [`swaps`]: the venues and the calls they are handed.
//! - [`leg`]: one leg as a step from event to action.
//! - [`orchestrator`]: the operations a caller invokes.
//! - [`chain`]: a whole chain as one all-or-nothing transaction.

pub mod chain;
pub mod error;
pub mod leg;
pub mod orchestrator;
pub mod protocol;
pub mod state;
pub mod swaps;

pub use chain::{run_transaction, Step, VenueOutcome};
pub use error::ErrorCode;
pub use leg::{run_leg, LegAction, LegEvent};
pub use orchestrator::{
    init_program, orca_swap, profit_or_revert, raydium_swap, saber_swap, serum_swap, start_swap,
    InitSwapState, TokenAndSwapState,
};
pub use protocol::{end_swap, prepare_swap};
pub use state::{ChainPhase, SwapState, TokenAccount};
pub use swaps::orca::{orca_swap_data, OrcaSwap, OrcaSwapData, MAX_SQRT_PRICE_X64, MIN_SQRT_PRICE_X64};
pub use swaps::raydium::{raydium_swap_data, RaydiumSwap, RaydiumSwapData};
pub use swaps::saber::SaberSwap;
pub use swaps::serum::{MarketAccounts, SerumSwap, Side};
pub use swaps::{is_foreign_venue, venue_call, LegRequest, VenueCall};
