//! Converts an observed market price into a resting limit-order price that
//! bakes in a target profit margin.

use vstd::prelude::*;
use crate::numeric::{mul_div, muldiv, lemma_frac_le, SCALE};

verus! {

/// A fixed profit margin `profit / SCALE` in `[0, 1)`.
#[derive(Clone, Copy, Debug)]
pub struct PriceCalculator {
    pub profit: u64,
}

impl PriceCalculator {
    /// The margin is a fraction below one whole unit.
    pub open spec fn valid(self) -> bool {
        self.profit < SCALE
    }

    /// `price * (1 - margin)`, in fixed point.
    pub open spec fn spec_low(self, price: int) -> int {
        muldiv(price, SCALE - self.profit, SCALE as int)
    }

    /// `price * (1 + margin)`, in fixed point.
    pub open spec fn spec_high(self, price: int) -> int {
        muldiv(price, SCALE + self.profit, SCALE as int)
    }

    /// A bid price placed below the reference market price by the margin.
    pub fn low(&self, price: u64) -> (r: u64)
        requires
            self.valid(),
        ensures
            r == self.spec_low(price as int),
    {
        proof {
            lemma_frac_le(price as int, SCALE - self.profit, SCALE as int);
        }
        mul_div(price, SCALE - self.profit, SCALE)
    }

    /// An ask price placed above the reference market price by the margin.
    pub fn high(&self, price: u64) -> (r: u64)
        requires
            self.valid(),
            self.spec_high(price as int) <= u64::MAX,
        ensures
            r == self.spec_high(price as int),
    {
        mul_div(price, SCALE + self.profit, SCALE)
    }
}

} // verus!
