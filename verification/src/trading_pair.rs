//! Coins, trade direction and order type: the key dimensions of every quote
//! and order.

use vstd::prelude::*;

verus! {

/// A single currency.
#[derive(Clone, Copy, Debug, PartialEq, Eq, Structural)]
pub enum Coin {
    Ton,
    Usdt,
}

/// A currency pair, written base-then-quote.
#[derive(Clone, Copy, Debug, PartialEq, Eq, Structural)]
pub enum Coins {
    TonUsdt,
}

impl Coins {
    /// The currency being bought or sold.
    pub fn base(&self) -> (r: Coin)
        ensures
            r == self.spec_base(),
    {
        match self {
            Coins::TonUsdt => Coin::Ton,
        }
    }

    /// The currency the base is priced in.
    pub fn quote(&self) -> (r: Coin)
        ensures
            r == self.spec_quote(),
    {
        match self {
            Coins::TonUsdt => Coin::Usdt,
        }
    }

    pub open spec fn spec_base(self) -> Coin {
        match self {
            Coins::TonUsdt => Coin::Ton,
        }
    }

    pub open spec fn spec_quote(self) -> Coin {
        match self {
            Coins::TonUsdt => Coin::Usdt,
        }
    }
}

/// Direction of a trade.
#[derive(Clone, Copy, Debug, PartialEq, Eq, Structural)]
pub enum Side {
    Buy,
    Sell,
}

impl Side {
    /// The opposite direction.
    pub fn reversed(&self) -> (r: Side)
        ensures
            r == self.spec_reversed(),
    {
        match self {
            Side::Buy => Side::Sell,
            Side::Sell => Side::Buy,
        }
    }

    pub open spec fn spec_reversed(self) -> Side {
        match self {
            Side::Buy => Side::Sell,
            Side::Sell => Side::Buy,
        }
    }
}

/// Immediate execution (Market) or a resting order (Limit).
#[derive(Clone, Copy, Debug, PartialEq, Eq, Structural)]
pub enum Target {
    Market,
    Limit,
}

/// A currency pair together with the trade direction and the order type.
#[derive(Clone, Copy, Debug, PartialEq, Eq, Structural)]
pub struct TradingPair {
    pub coins: Coins,
    pub side: Side,
    pub target: Target,
}

impl TradingPair {
    /// The same pair and order type, traded in the opposite direction.
    pub fn reversed_side(self) -> (r: TradingPair)
        ensures
            r.coins == self.coins,
            r.target == self.target,
            r.side == self.side.spec_reversed(),
    {
        TradingPair { coins: self.coins, side: self.side.reversed(), target: self.target }
    }

    /// The currency a trader must hold to execute an order on this pair:
    /// buying consumes the quote currency, selling consumes the base.
    pub fn coin_to_spend(&self) -> (r: Coin)
        ensures
            r == self.spec_coin_to_spend(),
    {
        match self.side {
            Side::Buy => self.coins.quote(),
            Side::Sell => self.coins.base(),
        }
    }

    pub open spec fn spec_coin_to_spend(self) -> Coin {
        match self.side {
            Side::Buy => self.coins.spec_quote(),
            Side::Sell => self.coins.spec_base(),
        }
    }
}

} // verus!
