//! Drops order-book entries too small to be worth trading against.

use vstd::prelude::*;
use crate::order::Order;

verus! {

/// The orders of `s` whose amount exceeds `low_amount`, in their original
/// order.
pub open spec fn spec_filter_low(s: Seq<Order>, low_amount: u64) -> Seq<Order>
    decreases s.len(),
{
    if s.len() == 0 {
        Seq::empty()
    } else {
        let rest = spec_filter_low(s.drop_last(), low_amount);
        if s.last().amount > low_amount {
            rest.push(s.last())
        } else {
            rest
        }
    }
}

/// Every order the dust filter keeps comes from the unfiltered book.
pub proof fn lemma_filter_low_keeps_members(s: Seq<Order>, low_amount: u64)
    ensures
        forall|i: int|
            0 <= i < spec_filter_low(s, low_amount).len() ==> s.contains(
                #[trigger] spec_filter_low(s, low_amount)[i],
            ),
    decreases s.len(),
{
    if s.len() > 0 {
        lemma_filter_low_keeps_members(s.drop_last(), low_amount);
        let f = spec_filter_low(s, low_amount);
        let fd = spec_filter_low(s.drop_last(), low_amount);
        assert forall|i: int| 0 <= i < f.len() implies s.contains(f[i]) by {
            if i < fd.len() {
                let j = choose|j: int|
                    0 <= j < s.drop_last().len() && s.drop_last()[j] == fd[i];
                assert(s[j] == f[i]);
            } else {
                assert(f[i] == s.last());
                assert(s[s.len() - 1] == s.last());
            }
        }
    }
}

/// Removes order-book entries whose amount does not exceed the configured
/// dust threshold, so that unfillable micro-orders are never treated as "the
/// best order".
#[derive(Clone, Copy, Debug)]
pub struct LowAmountFilter {
    pub low_amount: u64,
}

impl LowAmountFilter {
    pub fn filter(&self, order: Vec<Order>) -> (r: Vec<Order>)
        ensures
            r@ == spec_filter_low(order@, self.low_amount),
    {
        let mut result: Vec<Order> = Vec::new();
        let mut i: usize = 0;
        while i < order.len()
            invariant
                i <= order.len(),
                result@ == spec_filter_low(order@.take(i as int), self.low_amount),
            decreases order.len() - i,
        {
            proof {
                assert(order@.take(i + 1 as int).drop_last() == order@.take(i as int));
                assert(order@.take(i + 1 as int).last() == order@[i as int]);
            }
            if order[i].amount > self.low_amount {
                result.push(order[i]);
            }
            i += 1;
        }
        proof {
            assert(order@.take(order.len() as int) == order@);
        }
        result
    }
}

} // verus!
