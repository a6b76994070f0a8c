//! First-match search over immutable registries.
use vstd::prelude::*;

verus! {

/// Whether position `i` holds the first element of `items` that satisfies `wanted`.
pub open spec fn is_first_match<T>(items: Seq<T>, wanted: spec_fn(T) -> bool, i: int) -> bool {
    &&& 0 <= i < items.len()
    &&& wanted(items[i])
    &&& forall|j: int| 0 <= j < i ==> !wanted(#[trigger] items[j])
}

/// The first element of `items` that satisfies `wanted`, or `None` when no element does.
pub open spec fn first_match<T>(items: Seq<T>, wanted: spec_fn(T) -> bool) -> Option<T> {
    if exists|i: int| 0 <= i < items.len() && wanted(#[trigger] items[i]) {
        Some(items[choose|i: int| is_first_match(items, wanted, i)])
    } else {
        None
    }
}

/// A position that holds the first satisfying element determines [`first_match`].
pub proof fn lemma_first_match_at<T>(items: Seq<T>, wanted: spec_fn(T) -> bool, i: int)
    requires
        is_first_match(items, wanted, i),
    ensures
        first_match(items, wanted) == Some(items[i]),
{
    assert(0 <= i < items.len() && wanted(items[i]));
    let k = choose|k: int| is_first_match(items, wanted, k);
    assert(is_first_match(items, wanted, k));
    if k < i {
        assert(!wanted(items[k]));
    } else if i < k {
        assert(!wanted(items[i]));
    }
}

/// When no element satisfies `wanted`, [`first_match`] is `None`.
pub proof fn lemma_first_match_none<T>(items: Seq<T>, wanted: spec_fn(T) -> bool)
    requires
        forall|j: int| 0 <= j < items.len() ==> !wanted(#[trigger] items[j]),
    ensures
        first_match(items, wanted) is None,
{
}

} // verus!
