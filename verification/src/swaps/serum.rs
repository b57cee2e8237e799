//! The Serum venue: an order book on which a leg either bids for the coin or
//! asks for the price currency.

use vstd::prelude::*;
use crate::state::{SwapState, TokenAccount};

verus! {

/// The side of the book a leg takes.
#[derive(Clone, Copy, Debug, PartialEq, Eq, Structural)]
pub enum Side {
    /// Buy the coin with the price currency.
    Bid,
    /// Sell the coin for the price currency.
    Ask,
}

/// The accounts of a market as far as the chain reads them.
#[derive(Clone, Copy, Debug, PartialEq, Eq, Structural)]
pub struct MarketAccounts {
    /// The owner's account for the market's coin.
    pub coin_wallet: TokenAccount,
}

/// The accounts of a Serum leg as far as the chain reads them: the owner's
/// coin and price-currency accounts and the chain's record.
#[derive(Clone, Copy, Debug, PartialEq, Eq, Structural)]
pub struct SerumSwap {
    pub market: MarketAccounts,
    pub pc_wallet: TokenAccount,
    pub swap_state: SwapState,
}

impl SerumSwap {
    /// The account that receives what the swap produces: the coin account for
    /// a bid, the price-currency account for an ask.
    pub open spec fn destination(self, side: Side) -> TokenAccount {
        match side {
            Side::Bid => self.market.coin_wallet,
            Side::Ask => self.pc_wallet,
        }
    }

    /// The account that the swap draws on: the other one.
    pub open spec fn source(self, side: Side) -> TokenAccount {
        match side {
            Side::Bid => self.pc_wallet,
            Side::Ask => self.market.coin_wallet,
        }
    }
}

} // verus!
