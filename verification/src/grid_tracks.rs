//! Assembling a `grid-template-columns` / `grid-template-rows` track list from its parsed
//! components.
//!
//! A track list is kept in two forms: the current authored form, which is either a general list
//! or an automatic list (one with a single `repeat(auto-fill | auto-fit, ..)`), and the projection
//! onto the I01 subset, which exists only when every component has one. Line names (`N`), track
//! sizes (`S`), their I01 projections (`T`), integer repetitions (`IR`) and their fixed-size forms
//! (`FR`), automatic repetitions (`AR`) and I01 repetitions (`G`) are carried through as they were
//! parsed: assembling the list never looks inside them.
use vstd::prelude::*;

use crate::diagnostics::{custom_error_at, unsupported_value_at, CssParseError};
use crate::error::{expect_declaration_value, CssUnexpectedEndError, ErrorKind};
use crate::source::CssSourceLocation;

verus! {

/// One parsed component of a track list, with what assembling the list needs to know of it.
#[derive(Debug)]
pub enum ParsedGridTrackComponent<N, S, T, IR, FR, AR, G> {
    /// A bracketed list of line names.
    LineNames(N),
    /// A track size, whether it is a fixed size, and its I01 projection if it has one.
    TrackSize { size: S, fixed: bool, i01: Option<T> },
    /// `repeat(<integer>, ..)`, its fixed-size form if every repeated track is fixed, and its I01
    /// projection if it has one.
    IntegerRepeat { track: IR, fixed: Option<FR>, i01: Option<G> },
    /// `repeat(auto-fill | auto-fit, ..)` and its I01 projection if it has one.
    AutoRepeat { value: AR, i01: Option<G> },
}

/// A parsed track-list component with the source location where it starts.
#[derive(Debug)]
pub struct LocatedGridTrackComponent<N, S, T, IR, FR, AR, G> {
    pub location: CssSourceLocation,
    pub component: ParsedGridTrackComponent<N, S, T, IR, FR, AR, G>,
}

/// One component of the I01 projection of a track list.
#[derive(Debug)]
pub enum CssGridTrackComponent<N, T, G> {
    LineNames(N),
    TrackSize(T),
    Repeat(G),
}

/// One component of a general track list.
#[derive(Debug)]
pub enum CssAuthoredGridGeneralTrackComponent<N, S, IR> {
    LineNames(N),
    TrackSize(S),
    Repeat(IR),
}

/// One component of an automatic track list.
#[derive(Debug)]
pub enum CssAuthoredGridAutoTrackComponent<N, S, FR, AR> {
    LineNames(N),
    FixedSize(S),
    Repeat(FR),
    AutoRepeat(AR),
}

/// The current authored form of a track list.
#[derive(Debug)]
pub enum CssAuthoredGridTrackList<N, S, IR, FR, AR> {
    /// A list without automatic repetition.
    General(Vec<CssAuthoredGridGeneralTrackComponent<N, S, IR>>),
    /// A list with exactly one automatic repetition, every other track being fixed-size.
    Auto(Vec<CssAuthoredGridAutoTrackComponent<N, S, FR, AR>>),
}

/// A parsed track list: its current authored form and, where every component has one, its I01
/// projection.
#[derive(Debug)]
pub struct CssParsedGridTrackList<N, S, T, IR, FR, AR, G> {
    pub current: CssAuthoredGridTrackList<N, S, IR, FR, AR>,
    pub i01: Option<Vec<CssGridTrackComponent<N, T, G>>>,
}

/// Whether the component is an automatic repetition.
pub open spec fn is_auto_repeat<N, S, T, IR, FR, AR, G>(
    c: LocatedGridTrackComponent<N, S, T, IR, FR, AR, G>,
) -> bool {
    c.component is AutoRepeat
}

/// The number of automatic repetitions in `s`.
pub open spec fn auto_repeat_count<N, S, T, IR, FR, AR, G>(
    s: Seq<LocatedGridTrackComponent<N, S, T, IR, FR, AR, G>>,
) -> nat
    decreases s.len(),
{
    if s.len() == 0 {
        0
    } else {
        auto_repeat_count(s.drop_last()) + if is_auto_repeat(s.last()) { 1nat } else { 0nat }
    }
}

/// Whether `s[j]` is the second automatic repetition of `s`.
pub open spec fn is_second_auto_repeat<N, S, T, IR, FR, AR, G>(
    s: Seq<LocatedGridTrackComponent<N, S, T, IR, FR, AR, G>>,
    j: int,
) -> bool {
    &&& 0 <= j < s.len()
    &&& is_auto_repeat(s[j])
    &&& auto_repeat_count(s.take(j)) == 1
}

/// Whether the component cannot stand beside an automatic repetition: a track size that is not
/// fixed, or an integer repetition without a fixed-size form.
pub open spec fn blocks_auto_list<N, S, T, IR, FR, AR, G>(
    c: LocatedGridTrackComponent<N, S, T, IR, FR, AR, G>,
) -> bool {
    match c.component {
        ParsedGridTrackComponent::TrackSize { fixed, .. } => !fixed,
        ParsedGridTrackComponent::IntegerRepeat { fixed, .. } => fixed is None,
        _ => false,
    }
}

/// Whether `s[j]` is the first component of `s` that cannot stand beside an automatic repetition.
pub open spec fn is_first_auto_blocker<N, S, T, IR, FR, AR, G>(
    s: Seq<LocatedGridTrackComponent<N, S, T, IR, FR, AR, G>>,
    j: int,
) -> bool {
    &&& 0 <= j < s.len()
    &&& blocks_auto_list(s[j])
    &&& forall|k: int| 0 <= k < j ==> !blocks_auto_list(#[trigger] s[k])
}

/// Whether the component has an I01 projection.
pub open spec fn has_i01<N, S, T, IR, FR, AR, G>(
    c: LocatedGridTrackComponent<N, S, T, IR, FR, AR, G>,
) -> bool {
    match c.component {
        ParsedGridTrackComponent::LineNames(_) => true,
        ParsedGridTrackComponent::TrackSize { i01, .. } => i01 is Some,
        ParsedGridTrackComponent::IntegerRepeat { i01, .. } => i01 is Some,
        ParsedGridTrackComponent::AutoRepeat { i01, .. } => i01 is Some,
    }
}

/// Whether `r` is the I01 projection of the component: a copy of its line names, or the
/// projection it carries.
pub open spec fn i01_projects<N: Clone, S, T, IR, FR, AR, G>(
    c: LocatedGridTrackComponent<N, S, T, IR, FR, AR, G>,
    r: CssGridTrackComponent<N, T, G>,
) -> bool {
    match c.component {
        ParsedGridTrackComponent::LineNames(n) => match r {
            CssGridTrackComponent::LineNames(m) => cloned(n, m),
            _ => false,
        },
        ParsedGridTrackComponent::TrackSize { i01, .. } => match i01 {
            Some(t) => r == CssGridTrackComponent::<N, T, G>::TrackSize(t),
            None => false,
        },
        ParsedGridTrackComponent::IntegerRepeat { i01, .. } => match i01 {
            Some(g) => r == CssGridTrackComponent::<N, T, G>::Repeat(g),
            None => false,
        },
        ParsedGridTrackComponent::AutoRepeat { i01, .. } => match i01 {
            Some(g) => r == CssGridTrackComponent::<N, T, G>::Repeat(g),
            None => false,
        },
    }
}

/// Whether `r` is the component as it stands in a general list.
pub open spec fn general_component_is<N, S, T, IR, FR, AR, G>(
    c: LocatedGridTrackComponent<N, S, T, IR, FR, AR, G>,
    r: CssAuthoredGridGeneralTrackComponent<N, S, IR>,
) -> bool {
    match c.component {
        ParsedGridTrackComponent::LineNames(n) => r
            == CssAuthoredGridGeneralTrackComponent::<N, S, IR>::LineNames(n),
        ParsedGridTrackComponent::TrackSize { size, .. } => r
            == CssAuthoredGridGeneralTrackComponent::<N, S, IR>::TrackSize(size),
        ParsedGridTrackComponent::IntegerRepeat { track, .. } => r
            == CssAuthoredGridGeneralTrackComponent::<N, S, IR>::Repeat(track),
        ParsedGridTrackComponent::AutoRepeat { .. } => false,
    }
}

/// Whether `r` is the component as it stands in an automatic list.
pub open spec fn auto_component_is<N, S, T, IR, FR, AR, G>(
    c: LocatedGridTrackComponent<N, S, T, IR, FR, AR, G>,
    r: CssAuthoredGridAutoTrackComponent<N, S, FR, AR>,
) -> bool {
    match c.component {
        ParsedGridTrackComponent::LineNames(n) => r
            == CssAuthoredGridAutoTrackComponent::<N, S, FR, AR>::LineNames(n),
        ParsedGridTrackComponent::TrackSize { size, fixed, .. } => fixed && r
            == CssAuthoredGridAutoTrackComponent::<N, S, FR, AR>::FixedSize(size),
        ParsedGridTrackComponent::IntegerRepeat { fixed, .. } => match fixed {
            Some(f) => r == CssAuthoredGridAutoTrackComponent::<N, S, FR, AR>::Repeat(f),
            None => false,
        },
        ParsedGridTrackComponent::AutoRepeat { value, .. } => r
            == CssAuthoredGridAutoTrackComponent::<N, S, FR, AR>::AutoRepeat(value),
    }
}

/// The diagnostic for a track list that breaks a rule of automatic repetition at `location`.
pub open spec fn track_list_error(location: CssSourceLocation) -> CssParseError {
    custom_error_at(
        location,
        ErrorKind::UnexpectedEnd(CssUnexpectedEndError::new(expect_declaration_value())),
    )
}

proof fn lemma_auto_repeat_count_step<N, S, T, IR, FR, AR, G>(
    s: Seq<LocatedGridTrackComponent<N, S, T, IR, FR, AR, G>>,
    i: int,
)
    requires
        0 <= i < s.len(),
    ensures
        auto_repeat_count(s.take(i + 1)) == auto_repeat_count(s.take(i)) + if is_auto_repeat(s[i]) {
            1nat
        } else {
            0nat
        },
{
    assert(s.take(i + 1).drop_last() =~= s.take(i));
}

proof fn lemma_auto_repeat_count_monotonic<N, S, T, IR, FR, AR, G>(
    s: Seq<LocatedGridTrackComponent<N, S, T, IR, FR, AR, G>>,
    a: int,
    b: int,
)
    requires
        0 <= a <= b <= s.len(),
    ensures
        auto_repeat_count(s.take(a)) <= auto_repeat_count(s.take(b)),
    decreases b - a,
{
    if a < b {
        lemma_auto_repeat_count_monotonic(s, a, b - 1);
        lemma_auto_repeat_count_step(s, b - 1);
    }
}

proof fn lemma_no_auto_repeat<N, S, T, IR, FR, AR, G>(
    s: Seq<LocatedGridTrackComponent<N, S, T, IR, FR, AR, G>>,
    k: int,
)
    requires
        0 <= k < s.len(),
        auto_repeat_count(s) == 0,
    ensures
        !is_auto_repeat(s[k]),
{
    lemma_auto_repeat_count_monotonic(s, k + 1, s.len() as int);
    lemma_auto_repeat_count_step(s, k);
    assert(s.take(s.len() as int) =~= s);
}

/// Assembles the track list of the parsed components, in order.
///
/// With no automatic repetition the list is general. With one, the list is automatic and every
/// other track must be fixed-size: the first component that is not fails the list at its
/// location. A second automatic repetition fails the list at its location. The I01 projection
/// is kept exactly when every component has one.
pub fn build_grid_track_list<N: Clone, S, T, IR, FR, AR, G>(
    components: Vec<LocatedGridTrackComponent<N, S, T, IR, FR, AR, G>>,
) -> (r: Result<CssParsedGridTrackList<N, S, T, IR, FR, AR, G>, CssParseError>)
    ensures
        r is Ok <==> auto_repeat_count(components@) == 0 || (auto_repeat_count(components@) == 1
            && forall|k: int| 0 <= k < components@.len() ==> !blocks_auto_list(#[trigger] components@[k])),
        forall|j: int| #[trigger] is_second_auto_repeat(components@, j) ==> r == Err::<
            CssParsedGridTrackList<N, S, T, IR, FR, AR, G>,
            CssParseError,
        >(track_list_error(components@[j].location)),
        auto_repeat_count(components@) == 1 ==> forall|j: int| #[trigger]
            is_first_auto_blocker(components@, j) ==> r == Err::<
                CssParsedGridTrackList<N, S, T, IR, FR, AR, G>,
                CssParseError,
            >(track_list_error(components@[j].location)),
        r matches Ok(list) ==> {
            &&& match list.current {
                CssAuthoredGridTrackList::General(v) => {
                    &&& auto_repeat_count(components@) == 0
                    &&& v@.len() == components@.len()
                    &&& forall|k: int| 0 <= k < v@.len() ==> general_component_is(
                        #[trigger] components@[k],
                        v@[k],
                    )
                },
                CssAuthoredGridTrackList::Auto(v) => {
                    &&& auto_repeat_count(components@) == 1
                    &&& v@.len() == components@.len()
                    &&& forall|k: int| 0 <= k < v@.len() ==> auto_component_is(
                        #[trigger] components@[k],
                        v@[k],
                    )
                },
            }
            &&& list.i01 is Some <==> forall|k: int| 0 <= k < components@.len() ==> has_i01(
                #[trigger] components@[k],
            )
            &&& list.i01 matches Some(v) ==> {
                &&& v@.len() == components@.len()
                &&& forall|k: int| 0 <= k < v@.len() ==> i01_projects(
                    #[trigger] components@[k],
                    v@[k],
                )
            }
        },
{
    let ghost s = components@;
    let mut count: usize = 0;
    let mut i: usize = 0;
    while i < components.len()
        invariant
            s == components@,
            0 <= i <= s.len(),
            count == auto_repeat_count(s.take(i as int)),
            count <= 1,
        decreases s.len() - i,
    {
        proof {
            lemma_auto_repeat_count_step(s, i as int);
        }
        if let ParsedGridTrackComponent::AutoRepeat { .. } = &components[i].component {
            if count == 1 {
                let error = unsupported_value_at(
                    components[i].location,
                    None,
                    "grid auto track list contains more than one automatic repetition",
                );
                proof {
                    assert forall|j: int| #[trigger] is_second_auto_repeat(s, j) implies j
                        == i as int by {
                        if j < i as int {
                            lemma_auto_repeat_count_step(s, j);
                            lemma_auto_repeat_count_monotonic(s, j + 1, i as int);
                        } else if j > i as int {
                            lemma_auto_repeat_count_monotonic(s, i as int + 1, j);
                        }
                    }
                    lemma_auto_repeat_count_monotonic(s, i as int + 1, s.len() as int);
                    assert(s.take(s.len() as int) =~= s);
                }
                return Err(error);
            }
            count = count + 1;
        }
        i = i + 1;
    }
    proof {
        assert(s.take(s.len() as int) =~= s);
        assert forall|j: int| #[trigger] is_second_auto_repeat(s, j) implies false by {
            lemma_auto_repeat_count_step(s, j);
            lemma_auto_repeat_count_monotonic(s, j + 1, s.len() as int);
        }
    }
    let mut rest = components;
    let mut i01_items: Vec<CssGridTrackComponent<N, T, G>> = Vec::new();
    let mut i01_ok = true;
    let ghost n = s.len();
    assert(n <= usize::MAX);
    if count == 0 {
        let mut values: Vec<CssAuthoredGridGeneralTrackComponent<N, S, IR>> = Vec::new();
        let mut i: usize = 0;
        while rest.len() > 0
            invariant
                auto_repeat_count(s) == 0,
                n == s.len(),
                s == components@,
                n <= usize::MAX,
                forall|j: int| !#[trigger] is_second_auto_repeat(s, j),
                0 <= i <= n,
                rest@ == s.subrange(i as int, n as int),
                values@.len() == i,
                forall|k: int| 0 <= k < i ==> general_component_is(#[trigger] s[k], values@[k]),
                i01_ok <==> forall|k: int| 0 <= k < i ==> has_i01(#[trigger] s[k]),
                i01_ok ==> i01_items@.len() == i,
                i01_ok ==> forall|k: int| 0 <= k < i ==> i01_projects(#[trigger] s[k], i01_items@[k]),
            decreases rest.len(),
        {
            let located = rest.remove(0);
            proof {
                assert(located == s[i as int]);
                lemma_no_auto_repeat(s, i as int);
            }
            match located.component {
                ParsedGridTrackComponent::LineNames(names) => {
                    if i01_ok {
                        i01_items.push(CssGridTrackComponent::LineNames(names.clone()));
                    }
                    values.push(CssAuthoredGridGeneralTrackComponent::LineNames(names));
                },
                ParsedGridTrackComponent::TrackSize { size, fixed, i01 } => {
                    match i01 {
                        Some(t) => {
                            if i01_ok {
                                i01_items.push(CssGridTrackComponent::TrackSize(t));
                            }
                        },
                        None => {
                            i01_ok = false;
                        },
                    }
                    values.push(CssAuthoredGridGeneralTrackComponent::TrackSize(size));
                },
                ParsedGridTrackComponent::IntegerRepeat { track, fixed, i01 } => {
                    match i01 {
                        Some(g) => {
                            if i01_ok {
                                i01_items.push(CssGridTrackComponent::Repeat(g));
                            }
                        },
                        None => {
                            i01_ok = false;
                        },
                    }
                    values.push(CssAuthoredGridGeneralTrackComponent::Repeat(track));
                },
                ParsedGridTrackComponent::AutoRepeat { .. } => {
                    proof {
                        assert(false);
                    }
                },
            }
            i = i + 1;
        }
        let i01 = if i01_ok {
            Some(i01_items)
        } else {
            None
        };
        Ok(CssParsedGridTrackList { current: CssAuthoredGridTrackList::General(values), i01 })
    } else {
        let mut values: Vec<CssAuthoredGridAutoTrackComponent<N, S, FR, AR>> = Vec::new();
        let mut i: usize = 0;
        while rest.len() > 0
            invariant
                auto_repeat_count(s) == 1,
                n == s.len(),
                s == components@,
                n <= usize::MAX,
                forall|j: int| !#[trigger] is_second_auto_repeat(s, j),
                0 <= i <= n,
                rest@ == s.subrange(i as int, n as int),
                values@.len() == i,
                forall|k: int| 0 <= k < i ==> !blocks_auto_list(#[trigger] s[k]),
                forall|k: int| 0 <= k < i ==> auto_component_is(#[trigger] s[k], values@[k]),
                i01_ok <==> forall|k: int| 0 <= k < i ==> has_i01(#[trigger] s[k]),
                i01_ok ==> i01_items@.len() == i,
                i01_ok ==> forall|k: int| 0 <= k < i ==> i01_projects(#[trigger] s[k], i01_items@[k]),
            decreases rest.len(),
        {
            let located = rest.remove(0);
            proof {
                assert(located == s[i as int]);
            }
            let location = located.location;
            match located.component {
                ParsedGridTrackComponent::LineNames(names) => {
                    if i01_ok {
                        i01_items.push(CssGridTrackComponent::LineNames(names.clone()));
                    }
                    values.push(CssAuthoredGridAutoTrackComponent::LineNames(names));
                },
                ParsedGridTrackComponent::TrackSize { size, fixed, i01 } => {
                    if !fixed {
                        proof {
                            assert(blocks_auto_list(s[i as int]));
                            assert forall|j: int| #[trigger] is_first_auto_blocker(s, j) implies j
                                == i as int by {
                                if j > i as int {
                                    assert(!blocks_auto_list(s[i as int]));
                                }
                            }
                        }
                        return Err(
                            unsupported_value_at(
                                location,
                                None,
                                "tracks surrounding automatic repetition must be fixed-size",
                            ),
                        );
                    }
                    match i01 {
                        Some(t) => {
                            if i01_ok {
                                i01_items.push(CssGridTrackComponent::TrackSize(t));
                            }
                        },
                        None => {
                            i01_ok = false;
                        },
                    }
                    values.push(CssAuthoredGridAutoTrackComponent::FixedSize(size));
                },
                ParsedGridTrackComponent::IntegerRepeat { track, fixed, i01 } => {
                    let value = match fixed {
                        Some(value) => value,
                        None => {
                            proof {
                                assert(blocks_auto_list(s[i as int]));
                                assert forall|j: int| #[trigger] is_first_auto_blocker(s, j)
                                    implies j == i as int by {
                                    if j > i as int {
                                        assert(!blocks_auto_list(s[i as int]));
                                    }
                                }
                            }
                            return Err(
                                unsupported_value_at(
                                    location,
                                    None,
                                    "repetition surrounding automatic repetition must be fixed-size",
                                ),
                            );
                        },
                    };
                    match i01 {
                        Some(g) => {
                            if i01_ok {
                                i01_items.push(CssGridTrackComponent::Repeat(g));
                            }
                        },
                        None => {
                            i01_ok = false;
                        },
                    }
                    values.push(CssAuthoredGridAutoTrackComponent::Repeat(value));
                },
                ParsedGridTrackComponent::AutoRepeat { value, i01 } => {
                    match i01 {
                        Some(g) => {
                            if i01_ok {
                                i01_items.push(CssGridTrackComponent::Repeat(g));
                            }
                        },
                        None => {
                            i01_ok = false;
                        },
                    }
                    values.push(CssAuthoredGridAutoTrackComponent::AutoRepeat(value));
                },
            }
            i = i + 1;
        }
        let i01 = if i01_ok {
            Some(i01_items)
        } else {
            None
        };
        Ok(CssParsedGridTrackList { current: CssAuthoredGridTrackList::Auto(values), i01 })
    }
}

} // verus!
