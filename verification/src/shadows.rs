//! One `box-shadow` shadow: assembling `inset`, the color and two to four lengths from the
//! components written before the next comma, in any order.
//!
//! Colors (`C`) and lengths (`L`) are carried through as they were parsed: assembling the shadow
//! never looks inside them.
use vstd::prelude::*;

use crate::diagnostics::{custom_error_at, unsupported_value, CssParseError};
use crate::error::{expect_declaration_value, CssUnexpectedEndError, ErrorKind};
use crate::source::CssSourceLocation;

verus! {

/// One component of a shadow, with what the component grammars recognized in it.
#[derive(Debug, PartialEq, Eq)]
pub enum ShadowComponent<C, L> {
    /// The keyword `inset`.
    Inset,
    /// Any other component: the color it spells, if any; the shadow length it spells, if any; and
    /// the non-negative blur length it spells, if any.
    Value { color: Option<C>, length: Option<L>, blur: Option<L> },
}

/// A shadow component with the source locations where it starts and just past it.
#[derive(Debug, PartialEq, Eq)]
pub struct LocatedShadowComponent<C, L> {
    pub component: ShadowComponent<C, L>,
    pub start: CssSourceLocation,
    pub end: CssSourceLocation,
}

/// One shadow: whether it is inset, its two offsets, optional blur and spread, and optional
/// color.
#[derive(Debug, PartialEq, Eq)]
pub struct CssShadow<C, L> {
    pub inset: bool,
    pub offset_x: L,
    pub offset_y: L,
    pub blur: Option<L>,
    pub spread: Option<L>,
    pub color: Option<C>,
}

/// The state of reading a shadow's components in order: what was read so far, or where reading
/// failed.
pub struct ShadowScan<C, L> {
    pub inset: bool,
    pub color: Option<C>,
    pub lengths: Seq<L>,
    pub failed: Option<CssSourceLocation>,
}

/// The state before any component is read.
pub open spec fn shadow_scan_start<C, L>() -> ShadowScan<C, L> {
    ShadowScan { inset: false, color: None, lengths: Seq::empty(), failed: None }
}

/// The state after reading the component `c` in the state `st`.
///
/// A second `inset` or a second color fails just past it. A component that is no color takes the
/// next length: the third as a blur, the others as shadow lengths, at most four. A component
/// that gives nothing the shadow can still take fails where it starts.
pub open spec fn shadow_step<C, L>(st: ShadowScan<C, L>, c: LocatedShadowComponent<C, L>) -> ShadowScan<C, L> {
    if st.failed is Some {
        st
    } else {
        match c.component {
            ShadowComponent::Inset => if st.inset {
                ShadowScan { failed: Some(c.end), ..st }
            } else {
                ShadowScan { inset: true, ..st }
            },
            ShadowComponent::Value { color, length, blur } => if color is Some {
                if st.color is Some {
                    ShadowScan { failed: Some(c.end), ..st }
                } else {
                    ShadowScan { color, ..st }
                }
            } else {
                let next = if st.lengths.len() == 2 { blur } else { length };
                if st.lengths.len() < 4 && next is Some {
                    ShadowScan { lengths: st.lengths.push(next->Some_0), ..st }
                } else {
                    ShadowScan { failed: Some(c.start), ..st }
                }
            },
        }
    }
}

/// The state after reading every component of `s` in order.
pub open spec fn shadow_scan<C, L>(s: Seq<LocatedShadowComponent<C, L>>) -> ShadowScan<C, L>
    decreases s.len(),
{
    if s.len() == 0 {
        shadow_scan_start()
    } else {
        shadow_step(shadow_scan(s.drop_last()), s.last())
    }
}

/// The diagnostic for a shadow rejected at `location`.
pub open spec fn shadow_error(location: CssSourceLocation) -> CssParseError {
    custom_error_at(
        location,
        ErrorKind::UnexpectedEnd(CssUnexpectedEndError::new(expect_declaration_value())),
    )
}

/// The shadow a finished scan gives; with fewer than two lengths it fails at `end`.
pub open spec fn shadow_of<C, L>(scan: ShadowScan<C, L>, end: CssSourceLocation) -> Result<
    CssShadow<C, L>,
    CssParseError,
> {
    match scan.failed {
        Some(location) => Err(shadow_error(location)),
        None => if 2 <= scan.lengths.len() {
            Ok(
                CssShadow {
                    inset: scan.inset,
                    offset_x: scan.lengths[0],
                    offset_y: scan.lengths[1],
                    blur: if scan.lengths.len() >= 3 {
                        Some(scan.lengths[2])
                    } else {
                        None
                    },
                    spread: if scan.lengths.len() == 4 {
                        Some(scan.lengths[3])
                    } else {
                        None
                    },
                    color: scan.color,
                },
            )
        } else {
            Err(shadow_error(end))
        },
    }
}

/// The value an optional length holds, as a sequence of none or one length.
pub open spec fn optional_lengths<L>(length: Option<L>) -> Seq<L> {
    match length {
        Some(l) => seq![l],
        None => Seq::empty(),
    }
}

/// A shadow's lengths are the lengths its components gave, in the order they were written: the
/// horizontal offset, the vertical offset, then the blur, then the spread. A spread is given only
/// after a blur, so three lengths make a blur and four a blur and a spread.
pub proof fn lemma_shadow_lengths_in_written_order<C, L>(
    components: Seq<LocatedShadowComponent<C, L>>,
    end: CssSourceLocation,
)
    requires
        shadow_of(shadow_scan(components), end) is Ok,
    ensures
        ({
            let shadow = shadow_of(shadow_scan(components), end)->Ok_0;
            let lengths = shadow_scan(components).lengths;
            &&& seq![shadow.offset_x, shadow.offset_y] + optional_lengths(shadow.blur) + optional_lengths(shadow.spread)
                == lengths
            &&& shadow.spread is Some ==> shadow.blur is Some
            &&& shadow.blur is Some <==> lengths.len() >= 3
            &&& shadow.spread is Some <==> lengths.len() == 4
        }),
{
    let shadow = shadow_of(shadow_scan(components), end)->Ok_0;
    let lengths = shadow_scan(components).lengths;
    lemma_shadow_scan_lengths_bounded(components);
    assert(seq![shadow.offset_x, shadow.offset_y] + optional_lengths(shadow.blur) + optional_lengths(shadow.spread)
        =~= lengths);
}

/// Whether some component is the keyword `inset`.
pub open spec fn writes_inset<C, L>(components: Seq<LocatedShadowComponent<C, L>>) -> bool {
    exists|i: int| 0 <= i < components.len() && (#[trigger] components[i]).component is Inset
}

/// The color a component spells, if any.
pub open spec fn component_color<C, L>(component: ShadowComponent<C, L>) -> Option<C> {
    match component {
        ShadowComponent::Inset => None,
        ShadowComponent::Value { color, .. } => color,
    }
}

/// Whether some component spells the color `color`.
pub open spec fn writes_color<C, L>(components: Seq<LocatedShadowComponent<C, L>>, color: C) -> bool {
    exists|i: int| 0 <= i < components.len() && component_color((#[trigger] components[i]).component) == Some(color)
}

/// Whether some component spells a color.
pub open spec fn writes_some_color<C, L>(components: Seq<LocatedShadowComponent<C, L>>) -> bool {
    exists|i: int| 0 <= i < components.len() && component_color((#[trigger] components[i]).component) is Some
}

/// A shadow is inset exactly when `inset` was written, and its color is the color written, if
/// any, wherever among the lengths either stands.
pub proof fn lemma_shadow_inset_and_color_as_written<C, L>(
    components: Seq<LocatedShadowComponent<C, L>>,
    end: CssSourceLocation,
)
    requires
        shadow_of(shadow_scan(components), end) is Ok,
    ensures
        ({
            let shadow = shadow_of(shadow_scan(components), end)->Ok_0;
            &&& shadow.inset == writes_inset(components)
            &&& match shadow.color {
                Some(c) => writes_color(components, c),
                None => !writes_some_color(components),
            }
        }),
{
    lemma_shadow_scan_reads_inset_and_color(components);
}

proof fn lemma_shadow_scan_reads_inset_and_color<C, L>(components: Seq<LocatedShadowComponent<C, L>>)
    ensures
        ({
            let scan = shadow_scan(components);
            scan.failed is None ==> {
                &&& scan.inset == writes_inset(components)
                &&& match scan.color {
                    Some(c) => writes_color(components, c),
                    None => !writes_some_color(components),
                }
            }
        }),
    decreases components.len(),
{
    if components.len() > 0 {
        let earlier = components.drop_last();
        lemma_shadow_scan_reads_inset_and_color(earlier);
        let last = components.last();
        let n = components.len() - 1;
        assert(components[n] == last);
        assert forall|i: int| 0 <= i < n implies #[trigger] earlier[i] == components[i] by {}
        if shadow_scan(components).failed is None {
            assert(shadow_scan(earlier).failed is None);
            if writes_inset(components) && !(last.component is Inset) {
                let i = choose|i: int| 0 <= i < components.len() && (#[trigger] components[i]).component is Inset;
                assert(earlier[i] == components[i]);
            }
            if writes_inset(earlier) {
                let i = choose|i: int| 0 <= i < earlier.len() && (#[trigger] earlier[i]).component is Inset;
                assert(earlier[i] == components[i]);
            }
            if writes_some_color(components) && component_color(last.component) is None {
                let i = choose|i: int| 0 <= i < components.len() && component_color((#[trigger] components[i]).component) is Some;
                assert(earlier[i] == components[i]);
            }
            if let Some(c) = shadow_scan(earlier).color {
                let i = choose|i: int| 0 <= i < earlier.len() && component_color((#[trigger] earlier[i]).component) == Some(c);
                assert(earlier[i] == components[i]);
            }
            if let Some(c) = shadow_scan(components).color {
                if component_color(last.component) != Some(c) {
                    assert(shadow_scan(earlier).color == Some(c));
                }
            }
        }
    }
}

/// The length and blur readings of the components that spell no color and are not `inset`, in
/// the order they were written.
pub open spec fn length_readings<C, L>(components: Seq<LocatedShadowComponent<C, L>>) -> Seq<(Option<L>, Option<L>)>
    decreases components.len(),
{
    if components.len() == 0 {
        Seq::empty()
    } else {
        let earlier = length_readings(components.drop_last());
        match components.last().component {
            ShadowComponent::Value { color: None, length, blur } => earlier.push((length, blur)),
            _ => earlier,
        }
    }
}

/// Every component that is neither `inset` nor a color gives the shadow one length, in the order
/// written: the third one read as a blur length, every other one as a shadow length.
pub proof fn lemma_shadow_lengths_read_in_turn<C, L>(
    components: Seq<LocatedShadowComponent<C, L>>,
    end: CssSourceLocation,
)
    requires
        shadow_of(shadow_scan(components), end) is Ok,
    ensures
        ({
            let lengths = shadow_scan(components).lengths;
            let readings = length_readings(components);
            &&& lengths.len() == readings.len()
            &&& forall|k: int| 0 <= k < lengths.len() ==> Some(#[trigger] lengths[k]) == if k == 2 {
                readings[k].1
            } else {
                readings[k].0
            }
        }),
{
    lemma_shadow_scan_reads_lengths(components);
}

proof fn lemma_shadow_scan_reads_lengths<C, L>(components: Seq<LocatedShadowComponent<C, L>>)
    ensures
        ({
            let scan = shadow_scan(components);
            let readings = length_readings(components);
            scan.failed is None ==> {
                &&& scan.lengths.len() == readings.len()
                &&& forall|k: int| 0 <= k < scan.lengths.len() ==> Some(#[trigger] scan.lengths[k]) == if k == 2 {
                    readings[k].1
                } else {
                    readings[k].0
                }
            }
        }),
    decreases components.len(),
{
    if components.len() > 0 {
        let earlier = components.drop_last();
        lemma_shadow_scan_reads_lengths(earlier);
        if shadow_scan(components).failed is None {
            assert(shadow_scan(earlier).failed is None);
        }
    }
}

/// A shadow that writes `inset` twice, or two colors, is refused.
pub proof fn lemma_shadow_refuses_repeats<C, L>(
    components: Seq<LocatedShadowComponent<C, L>>,
    end: CssSourceLocation,
    first: int,
    second: int,
)
    requires
        0 <= first < second < components.len(),
        (components[first].component is Inset && components[second].component is Inset) || (component_color(
            components[first].component,
        ) is Some && component_color(components[second].component) is Some),
    ensures
        shadow_of(shadow_scan(components), end) is Err,
{
    let before = components.take(second);
    lemma_shadow_scan_step(components, second);
    if shadow_scan(before).failed is None {
        lemma_shadow_scan_reads_inset_and_color(before);
        assert(before[first] == components[first]);
        if components[first].component is Inset && components[second].component is Inset {
            assert(writes_inset(before));
        } else {
            assert(writes_some_color(before));
        }
        assert(shadow_scan(components.take(second + 1)).failed is Some);
        lemma_shadow_scan_stays_failed(components, second + 1);
    } else {
        lemma_shadow_scan_stays_failed(components, second);
    }
}

proof fn lemma_shadow_scan_lengths_bounded<C, L>(components: Seq<LocatedShadowComponent<C, L>>)
    ensures
        shadow_scan(components).lengths.len() <= 4,
    decreases components.len(),
{
    if components.len() > 0 {
        lemma_shadow_scan_lengths_bounded(components.drop_last());
    }
}

proof fn lemma_shadow_scan_step<C, L>(s: Seq<LocatedShadowComponent<C, L>>, i: int)
    requires
        0 <= i < s.len(),
    ensures
        shadow_scan(s.take(i + 1)) == shadow_step(shadow_scan(s.take(i)), s[i]),
{
    assert(s.take(i + 1).drop_last() =~= s.take(i));
}

proof fn lemma_shadow_scan_stays_failed<C, L>(s: Seq<LocatedShadowComponent<C, L>>, i: int)
    requires
        0 <= i <= s.len(),
        shadow_scan(s.take(i)).failed is Some,
    ensures
        shadow_scan(s).failed == shadow_scan(s.take(i)).failed,
    decreases s.len() - i,
{
    if i < s.len() {
        lemma_shadow_scan_step(s, i);
        lemma_shadow_scan_stays_failed(s, i + 1);
    } else {
        assert(s.take(i) =~= s);
    }
}

/// Assembles one shadow from its components, in the order they were written; `end` is where the
/// shadow ends (the next comma or the end of the value).
pub fn build_shadow<C, L>(
    components: Vec<LocatedShadowComponent<C, L>>,
    end: CssSourceLocation,
) -> (r: Result<CssShadow<C, L>, CssParseError>)
    ensures
        r == shadow_of(shadow_scan(components@), end),
{
    let ghost s = components@;
    let ghost n = s.len();
    let count: usize = components.len();
    assert(n == count);
    let mut rest = components;
    let mut inset = false;
    let mut color: Option<C> = None;
    let mut lengths: Vec<L> = Vec::new();
    let mut i: usize = 0;
    while rest.len() > 0
        invariant
            n == s.len(),
            s == components@,
            n <= usize::MAX,
            lengths@.len() <= 4,
            0 <= i <= n,
            rest@ == s.subrange(i as int, n as int),
            shadow_scan(s.take(i as int)) == (ShadowScan::<C, L> {
                inset,
                color,
                lengths: lengths@,
                failed: None,
            }),
        decreases rest.len(),
    {
        let located = rest.remove(0);
        proof {
            assert(located == s[i as int]);
            lemma_shadow_scan_step(s, i as int);
        }
        match located.component {
            ShadowComponent::Inset => {
                if inset {
                    proof {
                        lemma_shadow_scan_stays_failed(s, i as int + 1);
                        assert(s.take(n as int) =~= s);
                    }
                    return Err(unsupported_value(located.end, None, "duplicate box-shadow inset"));
                }
                inset = true;
            },
            ShadowComponent::Value { color: parsed_color, length, blur } => {
                match parsed_color {
                    Some(value) => {
                        if color.is_some() {
                            proof {
                                lemma_shadow_scan_stays_failed(s, i as int + 1);
                            }
                            return Err(
                                unsupported_value(located.end, None, "duplicate box-shadow color"),
                            );
                        }
                        color = Some(value);
                    },
                    None => {
                        let next = if lengths.len() == 2 {
                            blur
                        } else {
                            length
                        };
                        match next {
                            Some(value) if lengths.len() < 4 => {
                                lengths.push(value);
                            },
                            _ => {
                                proof {
                                    lemma_shadow_scan_stays_failed(s, i as int + 1);
                                }
                                return Err(
                                    unsupported_value(
                                        located.start,
                                        None,
                                        "unsupported box-shadow component",
                                    ),
                                );
                            },
                        }
                    },
                }
            },
        }
        i = i + 1;
    }
    proof {
        assert(s.take(i as int) =~= s);
    }
    if lengths.len() < 2 {
        return Err(unsupported_value(end, None, "box-shadow requires at least two offsets"));
    }
    let ghost all = lengths@;
    let spread = if lengths.len() == 4 {
        lengths.pop()
    } else {
        None
    };
    assert(forall|k: int| 0 <= k < lengths@.len() ==> lengths@[k] == all[k]);
    let blur = if lengths.len() == 3 {
        lengths.pop()
    } else {
        None
    };
    assert(lengths@.len() == 2 && forall|k: int| 0 <= k < lengths@.len() ==> lengths@[k] == all[k]);
    let offset_y = lengths.pop().unwrap();
    let offset_x = lengths.pop().unwrap();
    assert(offset_x == all[0] && offset_y == all[1]);
    Ok(CssShadow { inset, offset_x, offset_y, blur, spread, color })
}

} // verus!
