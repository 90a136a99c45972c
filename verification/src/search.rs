//! Facts about the first item of a sequence that has a property.

use vstd::prelude::*;

verus! {

/// When item `i` of `items` has property `p`, some item at or before it is
/// the first item with `p`.
pub proof fn lemma_first_with<T>(items: Seq<T>, p: spec_fn(T) -> bool, i: int)
    requires
        0 <= i < items.len(),
        p(items[i]),
    ensures
        exists|j: int| 0 <= j <= i && #[trigger] p(items[j])
            && forall|t: int| 0 <= t < j ==> !p(#[trigger] items[t]),
    decreases i,
{
    if exists|t: int| 0 <= t < i && #[trigger] p(items[t]) {
        let t = choose|t: int| 0 <= t < i && #[trigger] p(items[t]);
        lemma_first_with(items, p, t);
    }
}

} // verus!
