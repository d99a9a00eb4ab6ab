//! First-match search over sequences, shared by the inventory storages and
//! the resting-order reconciliation.

use vstd::prelude::*;

verus! {

/// Index of the first element of `s` satisfying `pred`, or `-1` when none
/// does.
pub open spec fn first_match_index<T>(s: Seq<T>, pred: spec_fn(T) -> bool) -> int
    decreases s.len(),
{
    if s.len() == 0 {
        -1
    } else if pred(s[0]) {
        0
    } else {
        let rest = first_match_index(s.drop_first(), pred);
        if rest < 0 {
            -1
        } else {
            rest + 1
        }
    }
}

/// What `first_match_index` returns: a negative result means no element
/// matches; a nonnegative result is the position of the first match.
pub proof fn lemma_first_match_index<T>(s: Seq<T>, pred: spec_fn(T) -> bool)
    ensures
        first_match_index(s, pred) < 0 ==> forall|j: int| 0 <= j < s.len() ==> !pred(s[j]),
        first_match_index(s, pred) >= 0 ==> {
            let i = first_match_index(s, pred);
            &&& i < s.len()
            &&& pred(s[i])
            &&& forall|j: int| 0 <= j < i ==> !pred(s[j])
        },
    decreases s.len(),
{
    if s.len() > 0 && !pred(s[0]) {
        lemma_first_match_index(s.drop_first(), pred);
        assert(forall|j: int| 1 <= j < s.len() ==> s[j] == s.drop_first()[j - 1]);
    }
}

} // verus!
