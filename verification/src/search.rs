//! A fact about searching a list from the front.

use vstd::prelude::*;

verus! {

/// When some position satisfies a property, a first such position exists.
pub proof fn lemma_first_witness(p: spec_fn(int) -> bool, k: int)
    requires
        0 <= k,
        p(k),
    ensures
        exists|i: int| 0 <= i <= k && #[trigger] p(i) && forall|j: int| 0 <= j < i ==> !#[trigger] p(j),
    decreases k,
{
    if exists|j: int| 0 <= j < k && #[trigger] p(j) {
        let j = choose|j: int| 0 <= j < k && #[trigger] p(j);
        lemma_first_witness(p, j);
    } else {
        assert(0 <= k <= k && p(k) && forall|j: int| 0 <= j < k ==> !#[trigger] p(j));
    }
}

} // verus!
