//! Fixed-point arithmetic shared by the calculators.
//!
//! A quantity `v` (a price, an amount, a fee or a profit margin) stands for
//! the real number `v / SCALE`. Fees and margins are fractions in `[0, 1)`,
//! so they range over `[0, SCALE)`.

use vstd::prelude::*;
use vstd::arithmetic::div_mod::{lemma_div_is_ordered, lemma_div_multiples_vanish};
use vstd::arithmetic::mul::{lemma_mul_inequality, lemma_mul_is_commutative, lemma_mul_upper_bound};

verus! {

/// One whole unit in fixed-point representation.
pub const SCALE: u64 = 1_000_000;

/// Floor of `a * b / d` over the unbounded integers.
pub open spec fn muldiv(a: int, b: int, d: int) -> int {
    a * b / d
}

/// Exact floor of `a * b / d`, computed through 128-bit intermediates.
pub fn mul_div(a: u64, b: u64, d: u64) -> (r: u64)
    requires
        d > 0,
        muldiv(a as int, b as int, d as int) <= u64::MAX,
    ensures
        r == muldiv(a as int, b as int, d as int),
{
    proof {
        lemma_mul_upper_bound(a as int, u64::MAX as int, b as int, u64::MAX as int);
    }
    let wide: u128 = (a as u128) * (b as u128);
    let q: u128 = wide / (d as u128);
    q as u64
}

/// Floor of `a * b / d`, saturating at `u64::MAX` instead of overflowing.
pub fn mul_div_saturating(a: u64, b: u64, d: u64) -> (r: u64)
    requires
        d > 0,
    ensures
        muldiv(a as int, b as int, d as int) <= u64::MAX ==> r == muldiv(
            a as int,
            b as int,
            d as int,
        ),
        muldiv(a as int, b as int, d as int) > u64::MAX ==> r == u64::MAX,
{
    proof {
        lemma_mul_upper_bound(a as int, u64::MAX as int, b as int, u64::MAX as int);
    }
    let wide: u128 = (a as u128) * (b as u128);
    let q: u128 = wide / (d as u128);
    if q > u64::MAX as u128 {
        u64::MAX
    } else {
        q as u64
    }
}

/// Scaling a nonnegative quantity by a fraction `num / den <= 1` cannot
/// enlarge it.
pub proof fn lemma_frac_le(a: int, num: int, den: int)
    requires
        0 <= a,
        0 <= num <= den,
        0 < den,
    ensures
        a * num / den <= a,
{
    lemma_mul_inequality(num, den, a);
    lemma_mul_is_commutative(num, a);
    lemma_mul_is_commutative(den, a);
    lemma_div_is_ordered(a * num, a * den, den);
    lemma_div_multiples_vanish(a, den);
    lemma_mul_is_commutative(a, den);
}

} // verus!
