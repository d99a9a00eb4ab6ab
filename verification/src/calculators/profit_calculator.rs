//! Decides whether a pair of prices is profitable and by how much.

use vstd::prelude::*;
use crate::numeric::{mul_div, muldiv, SCALE};
use crate::order::Order;
use vstd::arithmetic::div_mod::lemma_div_is_ordered;
use vstd::arithmetic::mul::lemma_mul_inequality;

verus! {

#[derive(Default, Clone, Copy, Debug)]
pub struct ProfitCalculator {
}

/// The profit fraction `1 - buy/sell` of a two-legged trade, relative to the
/// sell leg, in fixed point: `(sell - buy) * SCALE / sell`.
pub open spec fn spec_profit_fraction(sell: int, buy: int) -> int {
    muldiv(sell - buy, SCALE as int, sell)
}

impl ProfitCalculator {
    /// Profit of selling at the direct order's price what is bought at the
    /// reversed order's price.
    pub fn calculate(&self, direct_order: &Order, reversed_order: &Order) -> (r: Option<u64>)
        requires
            direct_order.price > 0 || reversed_order.price > 0,
        ensures
            r is Some <==> direct_order.price >= reversed_order.price,
            direct_order.price >= reversed_order.price ==> (r matches Some(p) && p
                == spec_profit_fraction(direct_order.price as int, reversed_order.price as int)),
    {
        let direct = direct_order.price;
        let reversed = reversed_order.price;
        self.evaluate(direct, reversed)
    }

    /// No profit when selling below the buying price; otherwise the fraction
    /// `1 - buy/sell` gained relative to the sell leg.
    pub fn evaluate(&self, sell_price: u64, buy_price: u64) -> (r: Option<u64>)
        requires
            sell_price > 0 || buy_price > 0,
        ensures
            r is Some <==> sell_price >= buy_price,
            sell_price >= buy_price ==> (r matches Some(p) && p == spec_profit_fraction(
                sell_price as int,
                buy_price as int,
            )),
    {
        if sell_price >= buy_price {
            proof {
                lemma_mul_inequality(
                    sell_price - buy_price,
                    sell_price as int,
                    SCALE as int,
                );
                lemma_div_is_ordered(
                    (sell_price - buy_price) * (SCALE as int),
                    (sell_price as int) * (SCALE as int),
                    sell_price as int,
                );
                vstd::arithmetic::div_mod::lemma_div_multiples_vanish(
                    SCALE as int,
                    sell_price as int,
                );
                vstd::arithmetic::mul::lemma_mul_is_commutative(sell_price as int, SCALE as int);
            }
            Some(mul_div(sell_price - buy_price, SCALE, sell_price))
        } else {
            None
        }
    }
}

} // verus!
