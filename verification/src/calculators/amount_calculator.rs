//! Turns order sizes, account balances, the venue fee and a dust floor into
//! a safely tradable quantity on one or two legs.

use vstd::prelude::*;
use crate::numeric::{mul_div, muldiv, lemma_frac_le, SCALE};
use crate::order::Order;
use vstd::arithmetic::div_mod::{lemma_fundamental_div_mod, lemma_mod_division_less_than_divisor};
use vstd::arithmetic::mul::lemma_mul_is_commutative;

verus! {

/// Fee rate `fee / SCALE` in `[0, 1)` and a minimum tradable amount.
#[derive(Clone, Copy, Debug)]
pub struct AmountCalculator {
    pub min_amount_threshold: u64,
    pub fee: u64,
}

/// A tradable quantity, tagged by the constraint that bound it: the size of
/// the reference order, or the available balance after fees.
#[derive(Clone, Copy, Debug, PartialEq, Eq, Structural)]
pub enum Amount {
    PriceBased(u64),
    BalanceBased(u64),
}

impl Amount {
    pub open spec fn spec_value(self) -> u64 {
        match self {
            Amount::PriceBased(value) => value,
            Amount::BalanceBased(value) => value,
        }
    }

    pub fn value(&self) -> (r: u64)
        ensures
            r == self.spec_value(),
    {
        match self {
            Amount::PriceBased(value) => *value,
            Amount::BalanceBased(value) => *value,
        }
    }
}

/// A venue-reported free balance of a coin, with the fee rate that trading
/// against it will incur.
#[derive(Clone, Copy, Debug)]
pub struct Balance {
    pub amount: u64,
    pub fee: u64,
}

impl Balance {
    pub open spec fn valid(self) -> bool {
        self.fee < SCALE
    }

    /// The part of the balance left once the fee is taken: `amount * (1 - fee)`.
    pub open spec fn spec_with_fee(self) -> int {
        muldiv(self.amount as int, SCALE - self.fee, SCALE as int)
    }

    pub fn with_fee(&self) -> (r: u64)
        requires
            self.valid(),
        ensures
            r == self.spec_with_fee(),
    {
        proof {
            lemma_frac_le(self.amount as int, SCALE - self.fee, SCALE as int);
        }
        mul_div(self.amount, SCALE - self.fee, SCALE)
    }

    pub fn raw(&self) -> (r: u64)
        ensures
            r == self.amount,
    {
        self.amount
    }
}

/// The two leg amounts when a shared cap is split so that both legs' notional
/// values (price times amount) agree: the cheaper leg takes the whole cap,
/// the dearer leg takes the cap scaled down by the price ratio.
pub open spec fn spec_split_cap(direct_price: int, reversed_price: int, cap: int) -> (int, int) {
    if direct_price > reversed_price {
        (muldiv(reversed_price, cap, direct_price), cap)
    } else {
        (cap, muldiv(direct_price, cap, reversed_price))
    }
}

impl AmountCalculator {
    pub open spec fn valid(self) -> bool {
        self.fee < SCALE
    }

    /// A calculator is only constructed with a fee rate inside `[0, 1)`.
    pub fn new(min_amount_threshold: u64, fee: u64) -> (r: Option<AmountCalculator>)
        ensures
            r is Some <==> fee < SCALE,
            fee < SCALE ==> r == Some(AmountCalculator { min_amount_threshold, fee }),
    {
        if fee >= SCALE {
            None
        } else {
            Some(AmountCalculator { min_amount_threshold, fee })
        }
    }

    /// The shared cap of a two-leg allocation: the smaller balance when it is
    /// the binding constraint (with the fee taken), else the smaller order
    /// size (fee-free, since sizes rather than funds are the limit).
    pub open spec fn spec_two_leg_cap(
        self,
        direct_amount: int,
        reversed_amount: int,
        direct_balance: int,
        reversed_balance: int,
    ) -> int {
        let balance_amount = if reversed_balance < direct_balance {
            reversed_balance
        } else {
            direct_balance
        };
        let min_order_amount = if direct_amount < reversed_amount {
            direct_amount
        } else {
            reversed_amount
        };
        if balance_amount <= min_order_amount {
            muldiv(balance_amount, SCALE - self.fee, SCALE as int)
        } else {
            min_order_amount
        }
    }

    /// Both leg amounts of a two-leg allocation, before the dust check.
    pub open spec fn spec_two_leg(
        self,
        direct_price: int,
        reversed_price: int,
        direct_amount: int,
        reversed_amount: int,
        direct_balance: int,
        reversed_balance: int,
    ) -> (int, int) {
        spec_split_cap(
            direct_price,
            reversed_price,
            self.spec_two_leg_cap(direct_amount, reversed_amount, direct_balance, reversed_balance),
        )
    }

    /// Two-leg allocation: the tradable amount on each leg of a two-sided
    /// trade, or nothing when either leg would not clear the dust threshold.
    pub fn calculate(
        &self,
        direct_order: &Order,
        direct_coin_balance: u64,
        reversed_order: &Order,
        reversed_coin_balance: u64,
    ) -> (r: Option<(u64, u64)>)
        requires
            self.valid(),
            direct_order.price > 0 || reversed_order.price > 0,
        ensures
            ({
                let (direct, reversed) = self.spec_two_leg(
                    direct_order.price as int,
                    reversed_order.price as int,
                    direct_order.amount as int,
                    reversed_order.amount as int,
                    direct_coin_balance as int,
                    reversed_coin_balance as int,
                );
                &&& (r is Some <==> direct > self.min_amount_threshold && reversed
                    > self.min_amount_threshold)
                &&& (r is Some ==> r == Some(((direct as u64), (reversed as u64))))
            }),
    {
        let balance_amount = if reversed_coin_balance < direct_coin_balance {
            reversed_coin_balance
        } else {
            direct_coin_balance
        };
        let min_order_amount = if direct_order.amount < reversed_order.amount {
            direct_order.amount
        } else {
            reversed_order.amount
        };
        let cap = if balance_amount <= min_order_amount {
            proof {
                lemma_frac_le(balance_amount as int, SCALE - self.fee, SCALE as int);
            }
            mul_div(balance_amount, SCALE - self.fee, SCALE)
        } else {
            min_order_amount
        };
        let result = if direct_order.price > reversed_order.price {
            proof {
                lemma_frac_le(cap as int, reversed_order.price as int, direct_order.price as int);
                lemma_mul_is_commutative(cap as int, reversed_order.price as int);
            }
            (mul_div(reversed_order.price, cap, direct_order.price), cap)
        } else {
            proof {
                lemma_frac_le(cap as int, direct_order.price as int, reversed_order.price as int);
                lemma_mul_is_commutative(cap as int, direct_order.price as int);
            }
            (cap, mul_div(direct_order.price, cap, reversed_order.price))
        };
        if result.0 > self.min_amount_threshold && result.1 > self.min_amount_threshold {
            Some(result)
        } else {
            None
        }
    }

    /// Single-leg allocation before the dust check: the order size when it is
    /// smaller than the fee-adjusted balance, else the fee-adjusted balance.
    pub open spec fn spec_one_leg(self, order_amount: int, balance: Balance) -> Option<Amount> {
        let balance_with_fee = balance.spec_with_fee();
        if order_amount < balance_with_fee {
            if order_amount >= self.min_amount_threshold {
                Some(Amount::PriceBased(order_amount as u64))
            } else {
                None
            }
        } else {
            if balance_with_fee >= self.min_amount_threshold {
                Some(Amount::BalanceBased(balance_with_fee as u64))
            } else {
                None
            }
        }
    }

    /// Single-leg allocation: how much a single order constrained by one
    /// balance may trade, or nothing below the dust threshold.
    pub fn evaluate(&self, order_amount: u64, balance: &Balance) -> (r: Option<Amount>)
        requires
            balance.valid(),
        ensures
            r == self.spec_one_leg(order_amount as int, *balance),
    {
        let balance_with_fee = balance.with_fee();
        if order_amount < balance_with_fee {
            if order_amount >= self.min_amount_threshold {
                Some(Amount::PriceBased(order_amount))
            } else {
                None
            }
        } else {
            if balance_with_fee >= self.min_amount_threshold {
                Some(Amount::BalanceBased(balance_with_fee))
            } else {
                None
            }
        }
    }

    /// The same single-leg allocation, taking the balance by value.
    pub fn calculate_from_one_order(&self, order_amount: u64, balance: Balance) -> (r: Option<
        Amount,
    >)
        requires
            balance.valid(),
        ensures
            r == self.spec_one_leg(order_amount as int, balance),
    {
        self.evaluate(order_amount, &balance)
    }
}

/// Law: however a two-leg allocation is capped, the two legs' notional values
/// (price times amount) agree to within one fixed-point unit of the dearer
/// price: the dearer leg's notional never exceeds the cheaper leg's, and
/// falls short of it by less than one dearer-price unit. (That a successful
/// allocation exceeds the dust threshold on both legs is part of
/// `calculate`'s own contract.)
pub proof fn lemma_two_leg_notional_balance(
    calc: AmountCalculator,
    direct_price: int,
    reversed_price: int,
    direct_amount: int,
    reversed_amount: int,
    direct_balance: int,
    reversed_balance: int,
)
    requires
        calc.valid(),
        0 <= direct_price,
        0 <= reversed_price,
        direct_price > 0 || reversed_price > 0,
    ensures
        ({
            let (direct, reversed) = calc.spec_two_leg(
                direct_price,
                reversed_price,
                direct_amount,
                reversed_amount,
                direct_balance,
                reversed_balance,
            );
            &&& (direct_price > reversed_price ==> 0 <= reversed_price * reversed - direct_price
                * direct < direct_price)
            &&& (direct_price <= reversed_price ==> 0 <= direct_price * direct - reversed_price
                * reversed < reversed_price)
        }),
{
    let cap = calc.spec_two_leg_cap(
        direct_amount,
        reversed_amount,
        direct_balance,
        reversed_balance,
    );
    if direct_price > reversed_price {
        lemma_fundamental_div_mod(reversed_price * cap, direct_price);
        lemma_mod_division_less_than_divisor(reversed_price * cap, direct_price);
    } else {
        lemma_fundamental_div_mod(direct_price * cap, reversed_price);
        lemma_mod_division_less_than_divisor(direct_price * cap, reversed_price);
    }
}

} // verus!
