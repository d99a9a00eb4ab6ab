//! Orders and executed trades.

use vstd::prelude::*;
use crate::trading_pair::TradingPair;

verus! {

/// A proposed or quoted order; it has no identity until a venue accepts it.
#[derive(Clone, Copy, Debug, PartialEq, Eq, Structural)]
pub struct Order {
    pub trading_pair: TradingPair,
    pub price: u64,
    pub amount: u64,
}

/// An order resting on a venue, under the identifier that venue assigned.
#[derive(Clone, Copy, Debug, PartialEq, Eq, Structural)]
pub struct OrderWithId {
    pub id: u64,
    pub trading_pair: TradingPair,
    pub price: u64,
    pub amount: u64,
}

/// An immediately executed (market) trade.
#[derive(Clone, Copy, Debug, PartialEq, Eq, Structural)]
pub struct TradeResult {
    pub id: u64,
    pub trading_pair: TradingPair,
    pub price: u64,
    pub amount: u64,
}

/// An immutable fact about what happened on a venue: either an immediate
/// market execution, or the filled part of a resting limit order.
#[derive(Clone, Copy, Debug, PartialEq, Eq, Structural)]
pub enum Trade {
    Market(TradeResult),
    Limit(OrderWithId),
}

impl Trade {
    pub open spec fn spec_trading_pair(self) -> TradingPair {
        match self {
            Trade::Market(result) => result.trading_pair,
            Trade::Limit(order) => order.trading_pair,
        }
    }

    pub open spec fn spec_price(self) -> u64 {
        match self {
            Trade::Market(result) => result.price,
            Trade::Limit(order) => order.price,
        }
    }

    pub open spec fn spec_amount(self) -> u64 {
        match self {
            Trade::Market(result) => result.amount,
            Trade::Limit(order) => order.amount,
        }
    }

    pub fn trading_pair(&self) -> (r: TradingPair)
        ensures
            r == self.spec_trading_pair(),
    {
        match self {
            Trade::Market(result) => result.trading_pair,
            Trade::Limit(order) => order.trading_pair,
        }
    }

    pub fn price(&self) -> (r: u64)
        ensures
            r == self.spec_price(),
    {
        match self {
            Trade::Market(result) => result.price,
            Trade::Limit(order) => order.price,
        }
    }

    pub fn amount(&self) -> (r: u64)
        ensures
            r == self.spec_amount(),
    {
        match self {
            Trade::Market(result) => result.amount,
            Trade::Limit(order) => order.amount,
        }
    }
}

} // verus!
