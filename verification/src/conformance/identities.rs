//! Stable identities are unique within each registry.
//!
//! Uniqueness is shown by order: the identities, visited in the order `order` gives, sort strictly
//! increasing by code point, and `rank` inverts `order`, so no two records share an identity.
use vstd::prelude::*;

verus! {

/// Whether `a` sorts strictly before `b` by code point, the two first differing at index `d`
/// (or `a` ending there as a proper prefix of `b`).
pub open spec fn sorts_before_at(a: Seq<char>, b: Seq<char>, d: int) -> bool {
    &&& 0 <= d <= a.len()
    &&& d <= b.len()
    &&& a.take(d) == b.take(d)
    &&& {
        ||| d == a.len() && d < b.len()
        ||| d < a.len() && d < b.len() && (a[d] as u32) < (b[d] as u32)
    }
}

/// Whether `a` sorts strictly before `b` by code point.
pub open spec fn sorts_before(a: Seq<char>, b: Seq<char>) -> bool {
    exists|d: int| sorts_before_at(a, b, d)
}

/// Whether no two of the spellings are equal.
pub open spec fn pairwise_distinct(ids: Seq<Seq<char>>) -> bool {
    forall|i: int, j: int| 0 <= i < ids.len() && 0 <= j < ids.len() && i != j ==> #[trigger] ids[i]
        != #[trigger] ids[j]
}

proof fn lemma_take_agrees(a: Seq<char>, b: Seq<char>, d: int, i: int)
    requires
        0 <= i < d <= a.len(),
        d <= b.len(),
        a.take(d) == b.take(d),
    ensures
        a[i] == b[i],
{
    assert(a.take(d)[i] == a[i]);
    assert(b.take(d)[i] == b[i]);
}

proof fn lemma_sorts_before_transitive(a: Seq<char>, b: Seq<char>, c: Seq<char>)
    requires
        sorts_before(a, b),
        sorts_before(b, c),
    ensures
        sorts_before(a, c),
{
    let d1 = choose|d: int| sorts_before_at(a, b, d);
    let d2 = choose|d: int| sorts_before_at(b, c, d);
    let d = if d1 < d2 { d1 } else { d2 };
    assert forall|i: int| 0 <= i < d implies a[i] == c[i] by {
        lemma_take_agrees(a, b, d1, i);
        lemma_take_agrees(b, c, d2, i);
    }
    assert(a.take(d) =~= c.take(d));
    if d1 < d2 {
        if d1 < a.len() {
            lemma_take_agrees(b, c, d2, d1);
        }
    } else if d2 < d1 {
        lemma_take_agrees(a, b, d1, d2);
    }
    assert(sorts_before_at(a, c, d));
}

proof fn lemma_sorts_before_differs(a: Seq<char>, b: Seq<char>)
    requires
        sorts_before(a, b),
    ensures
        a != b,
{
    let d = choose|d: int| sorts_before_at(a, b, d);
}

proof fn lemma_sorted_chain(ids: Seq<Seq<char>>, order: Seq<int>, a: int, b: int)
    requires
        0 <= a < b < order.len(),
        forall|k: int| 0 <= k < order.len() - 1 ==> sorts_before(
            ids[#[trigger] order[k]],
            ids[order[k + 1]],
        ),
    ensures
        sorts_before(ids[order[a]], ids[order[b]]),
    decreases b - a,
{
    if a + 1 < b {
        lemma_sorted_chain(ids, order, a, b - 1);
        assert(sorts_before(ids[order[b - 1]], ids[order[b]]));
        lemma_sorts_before_transitive(ids[order[a]], ids[order[b - 1]], ids[order[b]]);
    }
}

/// Spellings that sort strictly increasing in the order `order` gives, where `rank` inverts
/// `order`, are pairwise distinct.
pub proof fn lemma_sorted_order_distinct(ids: Seq<Seq<char>>, order: Seq<int>, rank: Seq<int>)
    requires
        order.len() == ids.len(),
        rank.len() == ids.len(),
        forall|i: int| 0 <= i < ids.len() ==> 0 <= #[trigger] rank[i] < ids.len() && order[rank[i]]
            == i,
        forall|k: int| 0 <= k < order.len() - 1 ==> sorts_before(
            ids[#[trigger] order[k]],
            ids[order[k + 1]],
        ),
    ensures
        pairwise_distinct(ids),
{
    assert forall|i: int, j: int|
        0 <= i < ids.len() && 0 <= j < ids.len() && i != j implies #[trigger] ids[i]
        != #[trigger] ids[j] by {
        let ri = rank[i];
        let rj = rank[j];
        if ri < rj {
            lemma_sorted_chain(ids, order, ri, rj);
            lemma_sorts_before_differs(ids[i], ids[j]);
        } else {
            assert(ri != rj);
            lemma_sorted_chain(ids, order, rj, ri);
            lemma_sorts_before_differs(ids[j], ids[i]);
        }
    }
}

} // verus!
