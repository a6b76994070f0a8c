//! The CSS `<position>` grammar: from the authored keyword and offset atoms to the generic
//! position value, the background position value, and the legacy component list.
use vstd::prelude::*;

use crate::lengths::CssLength;

verus! {

/// An authored horizontal position keyword.
#[derive(Clone, Copy, Debug, PartialEq, Eq, Hash, Structural)]
pub enum CssHorizontalPositionKeyword {
    /// `left`.
    Left,
    /// `center` on the horizontal axis.
    Center,
    /// `right`.
    Right,
}

/// An authored vertical position keyword.
#[derive(Clone, Copy, Debug, PartialEq, Eq, Hash, Structural)]
pub enum CssVerticalPositionKeyword {
    /// `top`.
    Top,
    /// `center` on the vertical axis.
    Center,
    /// `bottom`.
    Bottom,
}

/// An authored position offset: a length-percentage measured along one axis.
#[derive(Clone, Debug, PartialEq, Eq)]
pub struct CssPositionOffset {
    value: CssLength,
}

impl CssPositionOffset {
    /// The authored length of the offset.
    pub closed spec fn spec_value(self) -> CssLength {
        self.value
    }

    /// Creates the offset of the given authored length.
    pub fn new(value: CssLength) -> (offset: Self)
        ensures
            offset.spec_value() == value,
    {
        CssPositionOffset { value }
    }

    /// Returns the authored length of the offset.
    pub fn value(&self) -> (value: &CssLength)
        ensures
            *value == self.spec_value(),
    {
        &self.value
    }

    /// Returns an equal copy of the offset.
    pub fn duplicate(&self) -> (copy: Self)
        ensures
            copy == *self,
    {
        CssPositionOffset { value: self.value.duplicate() }
    }
}

/// The horizontal axis of a generic position.
#[derive(Clone, Debug, PartialEq, Eq)]
pub enum CssHorizontalPosition {
    /// The left edge.
    Left,
    /// The horizontal center; also the value of an omitted horizontal axis.
    Center,
    /// The right edge.
    Right,
    /// A free offset from the left edge, authored without an edge keyword.
    Offset(CssPositionOffset),
    /// An offset from the left edge, authored after `left`.
    LeftOffset(CssPositionOffset),
    /// An offset from the right edge, authored after `right`.
    RightOffset(CssPositionOffset),
}

/// The vertical axis of a generic position.
#[derive(Clone, Debug, PartialEq, Eq)]
pub enum CssVerticalPosition {
    /// The top edge.
    Top,
    /// The vertical center; also the value of an omitted vertical axis.
    Center,
    /// The bottom edge.
    Bottom,
    /// A free offset from the top edge, authored without an edge keyword.
    Offset(CssPositionOffset),
    /// An offset from the top edge, authored after `top`.
    TopOffset(CssPositionOffset),
    /// An offset from the bottom edge, authored after `bottom`.
    BottomOffset(CssPositionOffset),
}

impl CssHorizontalPosition {
    /// Returns an equal copy of the axis value.
    pub fn duplicate(&self) -> (copy: Self)
        ensures
            copy == *self,
    {
        match self {
            CssHorizontalPosition::Left => CssHorizontalPosition::Left,
            CssHorizontalPosition::Center => CssHorizontalPosition::Center,
            CssHorizontalPosition::Right => CssHorizontalPosition::Right,
            CssHorizontalPosition::Offset(o) => CssHorizontalPosition::Offset(o.duplicate()),
            CssHorizontalPosition::LeftOffset(o) => CssHorizontalPosition::LeftOffset(o.duplicate()),
            CssHorizontalPosition::RightOffset(o) => CssHorizontalPosition::RightOffset(o.duplicate()),
        }
    }
}

impl CssVerticalPosition {
    /// Returns an equal copy of the axis value.
    pub fn duplicate(&self) -> (copy: Self)
        ensures
            copy == *self,
    {
        match self {
            CssVerticalPosition::Top => CssVerticalPosition::Top,
            CssVerticalPosition::Center => CssVerticalPosition::Center,
            CssVerticalPosition::Bottom => CssVerticalPosition::Bottom,
            CssVerticalPosition::Offset(o) => CssVerticalPosition::Offset(o.duplicate()),
            CssVerticalPosition::TopOffset(o) => CssVerticalPosition::TopOffset(o.duplicate()),
            CssVerticalPosition::BottomOffset(o) => CssVerticalPosition::BottomOffset(o.duplicate()),
        }
    }
}

/// One component of the legacy position representation, in authored order.
#[derive(Clone, Debug, PartialEq, Eq)]
pub enum CssPositionComponent {
    /// A horizontal keyword.
    Horizontal(CssHorizontalPositionKeyword),
    /// A vertical keyword.
    Vertical(CssVerticalPositionKeyword),
    /// A length-percentage.
    Length(CssLength),
}

/// The legacy position representation: its components in authored order.
#[derive(Clone, Debug, PartialEq, Eq)]
pub struct CssPosition {
    components: Vec<CssPositionComponent>,
}

impl View for CssPosition {
    type V = Seq<CssPositionComponent>;

    closed spec fn view(&self) -> Seq<CssPositionComponent> {
        self.components@
    }
}

impl CssPosition {
    /// Creates the position of the given components.
    pub fn new(components: Vec<CssPositionComponent>) -> (position: Self)
        ensures
            position@ == components@,
    {
        CssPosition { components }
    }

    /// Returns the components in authored order.
    pub fn components(&self) -> (components: &[CssPositionComponent])
        ensures
            components@ == self@,
    {
        self.components.as_slice()
    }
}

/// A generic position: one value per axis.
#[derive(Clone, Debug, PartialEq, Eq)]
pub struct CssPositionValue {
    horizontal: CssHorizontalPosition,
    vertical: CssVerticalPosition,
}

impl CssPositionValue {
    /// The horizontal axis.
    pub closed spec fn spec_horizontal(self) -> CssHorizontalPosition {
        self.horizontal
    }

    /// The vertical axis.
    pub closed spec fn spec_vertical(self) -> CssVerticalPosition {
        self.vertical
    }

    /// The position of the given axes.
    pub closed spec fn spec_new(horizontal: CssHorizontalPosition, vertical: CssVerticalPosition) -> Self {
        CssPositionValue { horizontal, vertical }
    }

    /// The parts of a position built from its axes.
    pub broadcast proof fn lemma_new_parts(horizontal: CssHorizontalPosition, vertical: CssVerticalPosition)
        ensures
            #[trigger] Self::spec_new(horizontal, vertical).spec_horizontal() == horizontal,
            Self::spec_new(horizontal, vertical).spec_vertical() == vertical,
    {
    }

    /// Creates the position of the given axes.
    #[verifier::when_used_as_spec(spec_new)]
    pub fn new(horizontal: CssHorizontalPosition, vertical: CssVerticalPosition) -> (position: Self)
        ensures
            position == Self::spec_new(horizontal, vertical),
            position.spec_horizontal() == horizontal,
            position.spec_vertical() == vertical,
    {
        CssPositionValue { horizontal, vertical }
    }

    /// Returns the horizontal axis.
    pub fn horizontal(&self) -> (horizontal: &CssHorizontalPosition)
        ensures
            *horizontal == self.spec_horizontal(),
    {
        &self.horizontal
    }

    /// Returns the vertical axis.
    pub fn vertical(&self) -> (vertical: &CssVerticalPosition)
        ensures
            *vertical == self.spec_vertical(),
    {
        &self.vertical
    }
}

/// A background position: the generic axes, plus the legacy components when the legacy
/// representation can hold them.
#[derive(Clone, Debug, PartialEq, Eq)]
pub struct CssBackgroundPosition {
    horizontal: CssHorizontalPosition,
    vertical: CssVerticalPosition,
    legacy: Option<CssPosition>,
}

impl CssBackgroundPosition {
    /// The horizontal axis.
    pub closed spec fn spec_horizontal(self) -> CssHorizontalPosition {
        self.horizontal
    }

    /// The vertical axis.
    pub closed spec fn spec_vertical(self) -> CssVerticalPosition {
        self.vertical
    }

    /// The legacy components, when the legacy representation holds them.
    pub closed spec fn spec_legacy(self) -> Option<Seq<CssPositionComponent>> {
        match self.legacy {
            Some(legacy) => Some(legacy@),
            None => None,
        }
    }

    /// Creates the background position of the given axes and legacy representation.
    pub fn new(
        horizontal: CssHorizontalPosition,
        vertical: CssVerticalPosition,
        legacy: Option<CssPosition>,
    ) -> (position: Self)
        ensures
            position.spec_horizontal() == horizontal,
            position.spec_vertical() == vertical,
            position.spec_legacy() == match legacy {
                Some(l) => Some(l@),
                None => None::<Seq<CssPositionComponent>>,
            },
    {
        CssBackgroundPosition { horizontal, vertical, legacy }
    }

    /// Returns the horizontal axis.
    pub fn horizontal(&self) -> (horizontal: &CssHorizontalPosition)
        ensures
            *horizontal == self.spec_horizontal(),
    {
        &self.horizontal
    }

    /// Returns the vertical axis.
    pub fn vertical(&self) -> (vertical: &CssVerticalPosition)
        ensures
            *vertical == self.spec_vertical(),
    {
        &self.vertical
    }

    /// Returns the legacy representation, when it can hold the position.
    pub fn legacy(&self) -> (legacy: Option<&CssPosition>)
        ensures
            match legacy {
                Some(l) => self.spec_legacy() == Some(l@),
                None => self.spec_legacy() is None,
            },
    {
        self.legacy.as_ref()
    }
}

/// One authored atom of a position: a keyword or an offset.
#[derive(Clone, Debug, PartialEq, Eq)]
pub enum GenericPositionAtom {
    /// A horizontal keyword.
    Horizontal(CssHorizontalPositionKeyword),
    /// A vertical keyword.
    Vertical(CssVerticalPositionKeyword),
    /// `center`, whose axis depends on its neighbours.
    Center,
    /// A length-percentage offset.
    Offset(CssPositionOffset),
}

impl GenericPositionAtom {
    /// Returns an equal copy of the atom.
    pub fn duplicate(&self) -> (copy: Self)
        ensures
            copy == *self,
    {
        match self {
            GenericPositionAtom::Horizontal(k) => GenericPositionAtom::Horizontal(*k),
            GenericPositionAtom::Vertical(k) => GenericPositionAtom::Vertical(*k),
            GenericPositionAtom::Center => GenericPositionAtom::Center,
            GenericPositionAtom::Offset(o) => GenericPositionAtom::Offset(o.duplicate()),
        }
    }

    /// Whether the atom is an edge keyword: `left`, `right`, `top`, or `bottom`.
    pub open spec fn is_edge_keyword(self) -> bool {
        ||| self matches GenericPositionAtom::Horizontal(k) && is_horizontal_edge(k)
        ||| self matches GenericPositionAtom::Vertical(k) && is_vertical_edge(k)
    }
}

/// Returns the horizontal axis value a horizontal keyword names.
#[verifier::allow_in_spec]
pub fn horizontal_keyword(keyword: CssHorizontalPositionKeyword) -> CssHorizontalPosition
    returns
        match keyword {
            CssHorizontalPositionKeyword::Left => CssHorizontalPosition::Left,
            CssHorizontalPositionKeyword::Center => CssHorizontalPosition::Center,
            CssHorizontalPositionKeyword::Right => CssHorizontalPosition::Right,
        },
{
    match keyword {
        CssHorizontalPositionKeyword::Left => CssHorizontalPosition::Left,
        CssHorizontalPositionKeyword::Center => CssHorizontalPosition::Center,
        CssHorizontalPositionKeyword::Right => CssHorizontalPosition::Right,
    }
}

/// Returns the vertical axis value a vertical keyword names.
#[verifier::allow_in_spec]
pub fn vertical_keyword(keyword: CssVerticalPositionKeyword) -> CssVerticalPosition
    returns
        match keyword {
            CssVerticalPositionKeyword::Top => CssVerticalPosition::Top,
            CssVerticalPositionKeyword::Center => CssVerticalPosition::Center,
            CssVerticalPositionKeyword::Bottom => CssVerticalPosition::Bottom,
        },
{
    match keyword {
        CssVerticalPositionKeyword::Top => CssVerticalPosition::Top,
        CssVerticalPositionKeyword::Center => CssVerticalPosition::Center,
        CssVerticalPositionKeyword::Bottom => CssVerticalPosition::Bottom,
    }
}

/// Returns whether a horizontal keyword is an edge (`left` or `right`).
#[verifier::allow_in_spec]
pub fn is_horizontal_edge(keyword: CssHorizontalPositionKeyword) -> bool
    returns
        keyword !is Center,
{
    match keyword {
        CssHorizontalPositionKeyword::Center => false,
        _ => true,
    }
}

/// Returns whether a vertical keyword is an edge (`top` or `bottom`).
#[verifier::allow_in_spec]
pub fn is_vertical_edge(keyword: CssVerticalPositionKeyword) -> bool
    returns
        keyword !is Center,
{
    match keyword {
        CssVerticalPositionKeyword::Center => false,
        _ => true,
    }
}

/// Returns the horizontal axis of an offset authored after a horizontal keyword: measured from
/// that edge, or the center for `center`.
#[verifier::allow_in_spec]
pub fn horizontal_edge_offset(keyword: CssHorizontalPositionKeyword, offset: CssPositionOffset) -> CssHorizontalPosition
    returns
        match keyword {
            CssHorizontalPositionKeyword::Left => CssHorizontalPosition::LeftOffset(offset),
            CssHorizontalPositionKeyword::Right => CssHorizontalPosition::RightOffset(offset),
            CssHorizontalPositionKeyword::Center => CssHorizontalPosition::Center,
        },
{
    match keyword {
        CssHorizontalPositionKeyword::Left => CssHorizontalPosition::LeftOffset(offset),
        CssHorizontalPositionKeyword::Right => CssHorizontalPosition::RightOffset(offset),
        CssHorizontalPositionKeyword::Center => CssHorizontalPosition::Center,
    }
}

/// Returns the vertical axis of an offset authored after a vertical keyword: measured from that
/// edge, or the center for `center`.
#[verifier::allow_in_spec]
pub fn vertical_edge_offset(keyword: CssVerticalPositionKeyword, offset: CssPositionOffset) -> CssVerticalPosition
    returns
        match keyword {
            CssVerticalPositionKeyword::Top => CssVerticalPosition::TopOffset(offset),
            CssVerticalPositionKeyword::Bottom => CssVerticalPosition::BottomOffset(offset),
            CssVerticalPositionKeyword::Center => CssVerticalPosition::Center,
        },
{
    match keyword {
        CssVerticalPositionKeyword::Top => CssVerticalPosition::TopOffset(offset),
        CssVerticalPositionKeyword::Bottom => CssVerticalPosition::BottomOffset(offset),
        CssVerticalPositionKeyword::Center => CssVerticalPosition::Center,
    }
}

/// The legacy component an atom stands for on its own: `center` counts as horizontal.
pub open spec fn legacy_component_of(atom: GenericPositionAtom) -> CssPositionComponent {
    match atom {
        GenericPositionAtom::Horizontal(k) => CssPositionComponent::Horizontal(k),
        GenericPositionAtom::Vertical(k) => CssPositionComponent::Vertical(k),
        GenericPositionAtom::Center => CssPositionComponent::Horizontal(CssHorizontalPositionKeyword::Center),
        GenericPositionAtom::Offset(o) => CssPositionComponent::Length(o.spec_value()),
    }
}

/// The legacy components of atoms taken one by one.
pub open spec fn legacy_components_of(atoms: Seq<GenericPositionAtom>) -> Seq<CssPositionComponent> {
    atoms.map_values(|atom: GenericPositionAtom| legacy_component_of(atom))
}

/// The legacy component of an atom that follows components of which some are horizontal
/// (`after_horizontal`) or none are: `center` takes the axis not yet given a keyword.
pub open spec fn contextual_component_of(atom: GenericPositionAtom, after_horizontal: bool) -> CssPositionComponent {
    match atom {
        GenericPositionAtom::Center => if after_horizontal {
            CssPositionComponent::Vertical(CssVerticalPositionKeyword::Center)
        } else {
            CssPositionComponent::Horizontal(CssHorizontalPositionKeyword::Center)
        },
        _ => legacy_component_of(atom),
    }
}

/// Whether some component is a horizontal keyword.
pub open spec fn has_horizontal(components: Seq<CssPositionComponent>) -> bool {
    exists|i: int| 0 <= i < components.len() && components[i] is Horizontal
}

/// The legacy components of atoms in authored order, each `center` placed on the axis that no
/// earlier component names horizontally.
pub open spec fn contextual_legacy_components_of(atoms: Seq<GenericPositionAtom>) -> Seq<CssPositionComponent>
    decreases atoms.len(),
{
    if atoms.len() == 0 {
        Seq::empty()
    } else {
        let earlier = contextual_legacy_components_of(atoms.drop_last());
        earlier.push(contextual_component_of(atoms.last(), has_horizontal(earlier)))
    }
}

/// The position value and legacy components of a single atom; an offset is a free horizontal
/// offset and the omitted axis is the center.
pub open spec fn one_atom_position(atom: GenericPositionAtom) -> (CssPositionValue, Seq<CssPositionComponent>) {
    match atom {
        GenericPositionAtom::Horizontal(k) => (
            CssPositionValue::new(horizontal_keyword(k), CssVerticalPosition::Center),
            seq![CssPositionComponent::Horizontal(k)],
        ),
        GenericPositionAtom::Vertical(k) => (
            CssPositionValue::new(CssHorizontalPosition::Center, vertical_keyword(k)),
            seq![CssPositionComponent::Vertical(k)],
        ),
        GenericPositionAtom::Center => (
            CssPositionValue::new(CssHorizontalPosition::Center, CssVerticalPosition::Center),
            seq![CssPositionComponent::Horizontal(CssHorizontalPositionKeyword::Center)],
        ),
        GenericPositionAtom::Offset(o) => (
            CssPositionValue::new(CssHorizontalPosition::Offset(o), CssVerticalPosition::Center),
            seq![CssPositionComponent::Length(o.spec_value())],
        ),
    }
}

/// The position value and legacy components of two atoms, or `None` when the pair names the
/// same axis twice or puts an offset on the wrong axis.
pub open spec fn two_atom_position(
    first: GenericPositionAtom,
    second: GenericPositionAtom,
) -> Option<(CssPositionValue, Seq<CssPositionComponent>)> {
    let hc = CssPositionComponent::Horizontal(CssHorizontalPositionKeyword::Center);
    let vc = CssPositionComponent::Vertical(CssVerticalPositionKeyword::Center);
    match (first, second) {
        (GenericPositionAtom::Horizontal(h), GenericPositionAtom::Vertical(v)) => Some((
            CssPositionValue::new(horizontal_keyword(h), vertical_keyword(v)),
            seq![CssPositionComponent::Horizontal(h), CssPositionComponent::Vertical(v)],
        )),
        (GenericPositionAtom::Vertical(v), GenericPositionAtom::Horizontal(h)) => Some((
            CssPositionValue::new(horizontal_keyword(h), vertical_keyword(v)),
            seq![CssPositionComponent::Vertical(v), CssPositionComponent::Horizontal(h)],
        )),
        (GenericPositionAtom::Horizontal(h), GenericPositionAtom::Center) => Some((
            CssPositionValue::new(horizontal_keyword(h), CssVerticalPosition::Center),
            seq![CssPositionComponent::Horizontal(h), vc],
        )),
        (GenericPositionAtom::Center, GenericPositionAtom::Horizontal(h)) => Some((
            CssPositionValue::new(horizontal_keyword(h), CssVerticalPosition::Center),
            seq![vc, CssPositionComponent::Horizontal(h)],
        )),
        (GenericPositionAtom::Vertical(v), GenericPositionAtom::Center) => Some((
            CssPositionValue::new(CssHorizontalPosition::Center, vertical_keyword(v)),
            seq![CssPositionComponent::Vertical(v), hc],
        )),
        (GenericPositionAtom::Center, GenericPositionAtom::Vertical(v)) => Some((
            CssPositionValue::new(CssHorizontalPosition::Center, vertical_keyword(v)),
            seq![hc, CssPositionComponent::Vertical(v)],
        )),
        (GenericPositionAtom::Center, GenericPositionAtom::Center) => Some((
            CssPositionValue::new(CssHorizontalPosition::Center, CssVerticalPosition::Center),
            seq![hc, vc],
        )),
        (GenericPositionAtom::Horizontal(h), GenericPositionAtom::Offset(o)) => Some((
            CssPositionValue::new(horizontal_keyword(h), CssVerticalPosition::Offset(o)),
            seq![CssPositionComponent::Horizontal(h), CssPositionComponent::Length(o.spec_value())],
        )),
        (GenericPositionAtom::Center, GenericPositionAtom::Offset(o)) => Some((
            CssPositionValue::new(CssHorizontalPosition::Center, CssVerticalPosition::Offset(o)),
            seq![hc, CssPositionComponent::Length(o.spec_value())],
        )),
        (GenericPositionAtom::Offset(o), GenericPositionAtom::Vertical(v)) => Some((
            CssPositionValue::new(CssHorizontalPosition::Offset(o), vertical_keyword(v)),
            seq![CssPositionComponent::Length(o.spec_value()), CssPositionComponent::Vertical(v)],
        )),
        (GenericPositionAtom::Offset(o), GenericPositionAtom::Center) => Some((
            CssPositionValue::new(CssHorizontalPosition::Offset(o), CssVerticalPosition::Center),
            seq![CssPositionComponent::Length(o.spec_value()), vc],
        )),
        (GenericPositionAtom::Offset(a), GenericPositionAtom::Offset(b)) => Some((
            CssPositionValue::new(CssHorizontalPosition::Offset(a), CssVerticalPosition::Offset(b)),
            seq![CssPositionComponent::Length(a.spec_value()), CssPositionComponent::Length(b.spec_value())],
        )),
        _ => None,
    }
}

/// The position value of four atoms: an edge keyword and its offset on each axis, the two pairs
/// in either order; `None` for any other four atoms.
pub open spec fn four_atom_position(atoms: Seq<GenericPositionAtom>) -> Option<CssPositionValue>
    recommends
        atoms.len() == 4,
{
    match (atoms[0], atoms[1], atoms[2], atoms[3]) {
        (
            GenericPositionAtom::Horizontal(h),
            GenericPositionAtom::Offset(ho),
            GenericPositionAtom::Vertical(v),
            GenericPositionAtom::Offset(vo),
        ) => if is_horizontal_edge(h) && is_vertical_edge(v) {
            Some(CssPositionValue::new(horizontal_edge_offset(h, ho), vertical_edge_offset(v, vo)))
        } else {
            None
        },
        (
            GenericPositionAtom::Vertical(v),
            GenericPositionAtom::Offset(vo),
            GenericPositionAtom::Horizontal(h),
            GenericPositionAtom::Offset(ho),
        ) => if is_vertical_edge(v) && is_horizontal_edge(h) {
            Some(CssPositionValue::new(horizontal_edge_offset(h, ho), vertical_edge_offset(v, vo)))
        } else {
            None
        },
        _ => None,
    }
}

/// The generic position value and legacy components of one, two, or four authored atoms, or
/// `None` when the atoms do not form a position.
pub open spec fn generic_position_of(atoms: Seq<GenericPositionAtom>) -> Option<(CssPositionValue, Seq<CssPositionComponent>)> {
    if atoms.len() == 1 {
        Some(one_atom_position(atoms[0]))
    } else if atoms.len() == 2 {
        two_atom_position(atoms[0], atoms[1])
    } else if atoms.len() == 4 {
        match four_atom_position(atoms) {
            Some(value) => Some((value, legacy_components_of(atoms))),
            None => None,
        }
    } else {
        None
    }
}

/// Returns the legacy components of the atoms taken one by one, `center` counting as horizontal.
pub fn legacy_components(atoms: &[GenericPositionAtom]) -> (components: Vec<CssPositionComponent>)
    ensures
        components@ == legacy_components_of(atoms@),
{
    let mut components: Vec<CssPositionComponent> = Vec::new();
    let mut i: usize = 0;
    while i < atoms.len()
        invariant
            0 <= i <= atoms@.len(),
            components@ == legacy_components_of(atoms@.take(i as int)),
        decreases atoms@.len() - i,
    {
        let component = match &atoms[i] {
            GenericPositionAtom::Horizontal(keyword) => CssPositionComponent::Horizontal(*keyword),
            GenericPositionAtom::Vertical(keyword) => CssPositionComponent::Vertical(*keyword),
            GenericPositionAtom::Center => CssPositionComponent::Horizontal(CssHorizontalPositionKeyword::Center),
            GenericPositionAtom::Offset(offset) => CssPositionComponent::Length(offset.value().duplicate()),
        };
        components.push(component);
        proof {
            assert(atoms@.take(i + 1) =~= atoms@.take(i as int).push(atoms@[i as int]));
        }
        i = i + 1;
    }
    proof {
        assert(atoms@.take(atoms@.len() as int) =~= atoms@);
    }
    components
}

/// Returns the legacy components of the atoms in authored order, each `center` placed on the
/// vertical axis when an earlier component is a horizontal keyword and on the horizontal axis
/// otherwise.
pub fn contextual_legacy_components(atoms: &[GenericPositionAtom]) -> (components: Vec<CssPositionComponent>)
    ensures
        components@ == contextual_legacy_components_of(atoms@),
{
    let mut components: Vec<CssPositionComponent> = Vec::new();
    let mut seen_horizontal = false;
    let mut i: usize = 0;
    while i < atoms.len()
        invariant
            0 <= i <= atoms@.len(),
            components@ == contextual_legacy_components_of(atoms@.take(i as int)),
            seen_horizontal == has_horizontal(components@),
        decreases atoms@.len() - i,
    {
        proof {
            assert(atoms@.take(i + 1).drop_last() =~= atoms@.take(i as int));
        }
        let component = match &atoms[i] {
            GenericPositionAtom::Horizontal(keyword) => CssPositionComponent::Horizontal(*keyword),
            GenericPositionAtom::Vertical(keyword) => CssPositionComponent::Vertical(*keyword),
            GenericPositionAtom::Center => {
                if seen_horizontal {
                    CssPositionComponent::Vertical(CssVerticalPositionKeyword::Center)
                } else {
                    CssPositionComponent::Horizontal(CssHorizontalPositionKeyword::Center)
                }
            },
            GenericPositionAtom::Offset(offset) => CssPositionComponent::Length(offset.value().duplicate()),
        };
        let is_horizontal = match &component {
            CssPositionComponent::Horizontal(_) => true,
            _ => false,
        };
        let ghost before = components@;
        components.push(component);
        proof {
            if is_horizontal {
                assert(components@[before.len() as int] is Horizontal);
            }
            if has_horizontal(components@) && !is_horizontal {
                let k = choose|k: int| 0 <= k < components@.len() && components@[k] is Horizontal;
                assert(before[k] is Horizontal);
            }
            if has_horizontal(before) {
                let k = choose|k: int| 0 <= k < before.len() && before[k] is Horizontal;
                assert(components@[k] is Horizontal);
            }
        }
        seen_horizontal = seen_horizontal || is_horizontal;
        i = i + 1;
    }
    proof {
        assert(atoms@.take(atoms@.len() as int) =~= atoms@);
    }
    components
}

/// Whether a legacy component is a calculation only the typed-arithmetic grammar accepts.
pub open spec fn is_typed_calculation_component(component: CssPositionComponent) -> bool {
    component matches CssPositionComponent::Length(l) && l.is_typed_calculation()
}

/// Returns whether some legacy component is a calculation only the typed-arithmetic grammar
/// accepts, which the legacy representation cannot hold.
pub fn position_has_typed_calculation(position: &CssPosition) -> (typed: bool)
    ensures
        typed == exists|i: int| 0 <= i < position@.len() && is_typed_calculation_component(#[trigger] position@[i]),
{
    let components = position.components();
    let mut i: usize = 0;
    while i < components.len()
        invariant
            0 <= i <= components@.len(),
            components@ == position@,
            forall|j: int| 0 <= j < i ==> !is_typed_calculation_component(#[trigger] components@[j]),
        decreases components@.len() - i,
    {
        if let CssPositionComponent::Length(CssLength::Calc(crate::lengths::CssCalcLength::Typed(_))) = &components[i] {
            return true;
        }
        i = i + 1;
    }
    false
}

/// Returns an equal copy of a horizontal keyword's offset atom pair component.
fn offset_component(offset: &CssPositionOffset) -> (component: CssPositionComponent)
    ensures
        component == CssPositionComponent::Length(offset.spec_value()),
{
    CssPositionComponent::Length(offset.value().duplicate())
}

/// Returns the components as a vector, in order.
fn pair(first: CssPositionComponent, second: CssPositionComponent) -> (components: Vec<CssPositionComponent>)
    ensures
        components@ == seq![first, second],
{
    let mut components: Vec<CssPositionComponent> = Vec::new();
    components.push(first);
    components.push(second);
    proof {
        assert(components@ =~= seq![first, second]);
    }
    components
}

/// Returns the position value and legacy components of a single atom.
fn build_one_atom(atom: &GenericPositionAtom) -> (built: (CssPositionValue, CssPosition))
    ensures
        (built.0, built.1@) == one_atom_position(*atom),
{
    let mut components: Vec<CssPositionComponent> = Vec::new();
    let value = match atom {
        GenericPositionAtom::Horizontal(k) => {
            components.push(CssPositionComponent::Horizontal(*k));
            CssPositionValue::new(horizontal_keyword(*k), CssVerticalPosition::Center)
        },
        GenericPositionAtom::Vertical(k) => {
            components.push(CssPositionComponent::Vertical(*k));
            CssPositionValue::new(CssHorizontalPosition::Center, vertical_keyword(*k))
        },
        GenericPositionAtom::Center => {
            components.push(CssPositionComponent::Horizontal(CssHorizontalPositionKeyword::Center));
            CssPositionValue::new(CssHorizontalPosition::Center, CssVerticalPosition::Center)
        },
        GenericPositionAtom::Offset(o) => {
            components.push(offset_component(o));
            CssPositionValue::new(CssHorizontalPosition::Offset(o.duplicate()), CssVerticalPosition::Center)
        },
    };
    proof {
        assert(components@ =~= one_atom_position(*atom).1);
    }
    (value, CssPosition::new(components))
}

/// Returns the position value and legacy components of two atoms, when they form a position.
fn build_two_atoms(first: &GenericPositionAtom, second: &GenericPositionAtom) -> (built: Option<(CssPositionValue, CssPosition)>)
    ensures
        match built {
            Some(b) => two_atom_position(*first, *second) == Some((b.0, b.1@)),
            None => two_atom_position(*first, *second) is None,
        },
{
    let hc = CssPositionComponent::Horizontal(CssHorizontalPositionKeyword::Center);
    let vc = CssPositionComponent::Vertical(CssVerticalPositionKeyword::Center);
    let (value, components) = match (first, second) {
        (GenericPositionAtom::Horizontal(h), GenericPositionAtom::Vertical(v)) => (
            CssPositionValue::new(horizontal_keyword(*h), vertical_keyword(*v)),
            pair(CssPositionComponent::Horizontal(*h), CssPositionComponent::Vertical(*v)),
        ),
        (GenericPositionAtom::Vertical(v), GenericPositionAtom::Horizontal(h)) => (
            CssPositionValue::new(horizontal_keyword(*h), vertical_keyword(*v)),
            pair(CssPositionComponent::Vertical(*v), CssPositionComponent::Horizontal(*h)),
        ),
        (GenericPositionAtom::Horizontal(h), GenericPositionAtom::Center) => (
            CssPositionValue::new(horizontal_keyword(*h), CssVerticalPosition::Center),
            pair(CssPositionComponent::Horizontal(*h), vc),
        ),
        (GenericPositionAtom::Center, GenericPositionAtom::Horizontal(h)) => (
            CssPositionValue::new(horizontal_keyword(*h), CssVerticalPosition::Center),
            pair(vc, CssPositionComponent::Horizontal(*h)),
        ),
        (GenericPositionAtom::Vertical(v), GenericPositionAtom::Center) => (
            CssPositionValue::new(CssHorizontalPosition::Center, vertical_keyword(*v)),
            pair(CssPositionComponent::Vertical(*v), hc),
        ),
        (GenericPositionAtom::Center, GenericPositionAtom::Vertical(v)) => (
            CssPositionValue::new(CssHorizontalPosition::Center, vertical_keyword(*v)),
            pair(hc, CssPositionComponent::Vertical(*v)),
        ),
        (GenericPositionAtom::Center, GenericPositionAtom::Center) => (
            CssPositionValue::new(CssHorizontalPosition::Center, CssVerticalPosition::Center),
            pair(hc, vc),
        ),
        (GenericPositionAtom::Horizontal(h), GenericPositionAtom::Offset(o)) => (
            CssPositionValue::new(horizontal_keyword(*h), CssVerticalPosition::Offset(o.duplicate())),
            pair(CssPositionComponent::Horizontal(*h), offset_component(o)),
        ),
        (GenericPositionAtom::Center, GenericPositionAtom::Offset(o)) => (
            CssPositionValue::new(CssHorizontalPosition::Center, CssVerticalPosition::Offset(o.duplicate())),
            pair(hc, offset_component(o)),
        ),
        (GenericPositionAtom::Offset(o), GenericPositionAtom::Vertical(v)) => (
            CssPositionValue::new(CssHorizontalPosition::Offset(o.duplicate()), vertical_keyword(*v)),
            pair(offset_component(o), CssPositionComponent::Vertical(*v)),
        ),
        (GenericPositionAtom::Offset(o), GenericPositionAtom::Center) => (
            CssPositionValue::new(CssHorizontalPosition::Offset(o.duplicate()), CssVerticalPosition::Center),
            pair(offset_component(o), vc),
        ),
        (GenericPositionAtom::Offset(a), GenericPositionAtom::Offset(b)) => (
            CssPositionValue::new(CssHorizontalPosition::Offset(a.duplicate()), CssVerticalPosition::Offset(b.duplicate())),
            pair(offset_component(a), offset_component(b)),
        ),
        _ => return None,
    };
    Some((value, CssPosition::new(components)))
}

/// Returns the position value of four atoms, when they are an edge keyword and its offset on
/// each axis.
fn build_four_atoms(atoms: &[GenericPositionAtom]) -> (built: Option<CssPositionValue>)
    requires
        atoms@.len() == 4,
    ensures
        built == four_atom_position(atoms@),
{
    match (&atoms[0], &atoms[1], &atoms[2], &atoms[3]) {
        (
            GenericPositionAtom::Horizontal(h),
            GenericPositionAtom::Offset(ho),
            GenericPositionAtom::Vertical(v),
            GenericPositionAtom::Offset(vo),
        ) => if is_horizontal_edge(*h) && is_vertical_edge(*v) {
            Some(CssPositionValue::new(horizontal_edge_offset(*h, ho.duplicate()), vertical_edge_offset(*v, vo.duplicate())))
        } else {
            None
        },
        (
            GenericPositionAtom::Vertical(v),
            GenericPositionAtom::Offset(vo),
            GenericPositionAtom::Horizontal(h),
            GenericPositionAtom::Offset(ho),
        ) => if is_vertical_edge(*v) && is_horizontal_edge(*h) {
            Some(CssPositionValue::new(horizontal_edge_offset(*h, ho.duplicate()), vertical_edge_offset(*v, vo.duplicate())))
        } else {
            None
        },
        _ => None,
    }
}

/// Returns the generic position value and the legacy components of authored position atoms.
///
/// One atom gives one axis and centers the other; two atoms give both axes, keyword pairs in
/// either order, `center` standing for whichever axis the other atom leaves open and offsets
/// read horizontal-then-vertical; four atoms are an edge keyword and its offset on each axis, in
/// either pair order. Anything else is `None`.
pub fn build_generic_position(atoms: &[GenericPositionAtom]) -> (built: Option<(CssPositionValue, CssPosition)>)
    ensures
        match built {
            Some(b) => generic_position_of(atoms@) == Some((b.0, b.1@)),
            None => generic_position_of(atoms@) is None,
        },
{
    if atoms.len() == 1 {
        Some(build_one_atom(&atoms[0]))
    } else if atoms.len() == 2 {
        build_two_atoms(&atoms[0], &atoms[1])
    } else if atoms.len() == 4 {
        match build_four_atoms(atoms) {
            Some(value) => Some((value, CssPosition::new(legacy_components(atoms)))),
            None => None,
        }
    } else {
        None
    }
}

/// The index of the atom a rejected generic position is reported at.
///
/// With one, two, or three atoms it is the last one. With four, it is the third when the first
/// two already form a position; otherwise the first atom that breaks the keyword-offset-keyword-
/// offset shape, or the third when the shape holds but the pairs name the same axis.
pub open spec fn invalid_atom_index_of(atoms: Seq<GenericPositionAtom>) -> int {
    if atoms.len() == 1 {
        0
    } else if atoms.len() == 2 {
        1
    } else if atoms.len() == 3 {
        2
    } else if atoms.len() == 4 {
        if generic_position_of(atoms.take(2)) is Some {
            2
        } else if !atoms[0].is_edge_keyword() {
            0
        } else if !(atoms[1] is Offset) {
            1
        } else if !atoms[2].is_edge_keyword() {
            2
        } else if !(atoms[3] is Offset) {
            3
        } else {
            2
        }
    } else {
        0
    }
}

/// Returns whether an atom is an edge keyword: `left`, `right`, `top`, or `bottom`.
fn is_edge_keyword(atom: &GenericPositionAtom) -> (edge: bool)
    ensures
        edge == atom.is_edge_keyword(),
{
    match atom {
        GenericPositionAtom::Horizontal(k) => is_horizontal_edge(*k),
        GenericPositionAtom::Vertical(k) => is_vertical_edge(*k),
        _ => false,
    }
}

/// Returns whether an atom is an offset.
fn is_offset(atom: &GenericPositionAtom) -> (offset: bool)
    ensures
        offset == (*atom is Offset),
{
    match atom {
        GenericPositionAtom::Offset(_) => true,
        _ => false,
    }
}

/// Returns the index of the atom a rejected generic position is reported at; for one to four
/// atoms it is always an index into the atoms.
pub fn invalid_atom_index(atoms: &[GenericPositionAtom]) -> (index: usize)
    ensures
        index == invalid_atom_index_of(atoms@),
        1 <= atoms@.len() <= 4 ==> index < atoms@.len(),
{
    if atoms.len() == 1 {
        0
    } else if atoms.len() == 2 {
        1
    } else if atoms.len() == 3 {
        2
    } else if atoms.len() == 4 {
        let first_two = vstd::slice::slice_subrange(atoms, 0, 2);
        proof {
            assert(first_two@ =~= atoms@.take(2));
        }
        if build_generic_position(first_two).is_some() {
            2
        } else if !is_edge_keyword(&atoms[0]) {
            0
        } else if !is_offset(&atoms[1]) {
            1
        } else if !is_edge_keyword(&atoms[2]) {
            2
        } else if !is_offset(&atoms[3]) {
            3
        } else {
            2
        }
    } else {
        0
    }
}

/// The axes of three atoms that form a background position: an edge keyword with its offset and
/// a keyword for the other axis, in either order, `center` standing for the other axis.
pub open spec fn three_atom_background(atoms: Seq<GenericPositionAtom>) -> Option<(CssHorizontalPosition, CssVerticalPosition)>
    recommends
        atoms.len() == 3,
{
    match (atoms[0], atoms[1], atoms[2]) {
        (GenericPositionAtom::Horizontal(h), GenericPositionAtom::Offset(o), GenericPositionAtom::Vertical(v)) =>
            if is_horizontal_edge(h) && is_vertical_edge(v) {
                Some((horizontal_edge_offset(h, o), vertical_keyword(v)))
            } else {
                None
            },
        (GenericPositionAtom::Horizontal(h), GenericPositionAtom::Offset(o), GenericPositionAtom::Center) =>
            if is_horizontal_edge(h) {
                Some((horizontal_edge_offset(h, o), CssVerticalPosition::Center))
            } else {
                None
            },
        (GenericPositionAtom::Vertical(v), GenericPositionAtom::Offset(o), GenericPositionAtom::Horizontal(h)) =>
            if is_vertical_edge(v) && is_horizontal_edge(h) {
                Some((horizontal_keyword(h), vertical_edge_offset(v, o)))
            } else {
                None
            },
        (GenericPositionAtom::Vertical(v), GenericPositionAtom::Offset(o), GenericPositionAtom::Center) =>
            if is_vertical_edge(v) {
                Some((CssHorizontalPosition::Center, vertical_edge_offset(v, o)))
            } else {
                None
            },
        (GenericPositionAtom::Horizontal(h), GenericPositionAtom::Vertical(v), GenericPositionAtom::Offset(o)) =>
            if is_horizontal_edge(h) && is_vertical_edge(v) {
                Some((horizontal_keyword(h), vertical_edge_offset(v, o)))
            } else {
                None
            },
        (GenericPositionAtom::Center, GenericPositionAtom::Vertical(v), GenericPositionAtom::Offset(o)) =>
            if is_vertical_edge(v) {
                Some((CssHorizontalPosition::Center, vertical_edge_offset(v, o)))
            } else {
                None
            },
        (GenericPositionAtom::Vertical(v), GenericPositionAtom::Horizontal(h), GenericPositionAtom::Offset(o)) =>
            if is_vertical_edge(v) && is_horizontal_edge(h) {
                Some((horizontal_edge_offset(h, o), vertical_keyword(v)))
            } else {
                None
            },
        (GenericPositionAtom::Center, GenericPositionAtom::Horizontal(h), GenericPositionAtom::Offset(o)) =>
            if is_horizontal_edge(h) {
                Some((horizontal_edge_offset(h, o), CssVerticalPosition::Center))
            } else {
                None
            },
        _ => None,
    }
}

/// Whether some legacy component is a calculation only the typed-arithmetic grammar accepts.
pub open spec fn has_typed_calculation(components: Seq<CssPositionComponent>) -> bool {
    exists|i: int| 0 <= i < components.len() && is_typed_calculation_component(#[trigger] components[i])
}

/// The legacy representation of components: kept unless it would have to hold a typed
/// calculation.
pub open spec fn legacy_if_representable(components: Seq<CssPositionComponent>) -> Option<Seq<CssPositionComponent>> {
    if has_typed_calculation(components) {
        None
    } else {
        Some(components)
    }
}

/// The background position of authored atoms: the three-atom edge-offset forms, then every
/// generic position; the legacy components are kept when they hold no typed calculation.
pub open spec fn background_position_of(atoms: Seq<GenericPositionAtom>) -> Option<(CssHorizontalPosition, CssVerticalPosition, Option<Seq<CssPositionComponent>>)> {
    if atoms.len() == 3 {
        match three_atom_background(atoms) {
            Some((h, v)) => Some((h, v, legacy_if_representable(contextual_legacy_components_of(atoms)))),
            None => None,
        }
    } else {
        match generic_position_of(atoms) {
            Some((value, legacy)) => Some((value.spec_horizontal(), value.spec_vertical(), legacy_if_representable(legacy))),
            None => None,
        }
    }
}

/// The parts of a background position.
pub open spec fn background_parts(position: CssBackgroundPosition) -> (CssHorizontalPosition, CssVerticalPosition, Option<Seq<CssPositionComponent>>) {
    (position.spec_horizontal(), position.spec_vertical(), position.spec_legacy())
}

/// Returns the axes of three atoms that form a background position, when they do.
fn build_three_atom_background(atoms: &[GenericPositionAtom]) -> (built: Option<(CssHorizontalPosition, CssVerticalPosition)>)
    requires
        atoms@.len() == 3,
    ensures
        built == three_atom_background(atoms@),
{
    match (&atoms[0], &atoms[1], &atoms[2]) {
        (GenericPositionAtom::Horizontal(h), GenericPositionAtom::Offset(o), GenericPositionAtom::Vertical(v)) =>
            if is_horizontal_edge(*h) && is_vertical_edge(*v) {
                Some((horizontal_edge_offset(*h, o.duplicate()), vertical_keyword(*v)))
            } else {
                None
            },
        (GenericPositionAtom::Horizontal(h), GenericPositionAtom::Offset(o), GenericPositionAtom::Center) =>
            if is_horizontal_edge(*h) {
                Some((horizontal_edge_offset(*h, o.duplicate()), CssVerticalPosition::Center))
            } else {
                None
            },
        (GenericPositionAtom::Vertical(v), GenericPositionAtom::Offset(o), GenericPositionAtom::Horizontal(h)) =>
            if is_vertical_edge(*v) && is_horizontal_edge(*h) {
                Some((horizontal_keyword(*h), vertical_edge_offset(*v, o.duplicate())))
            } else {
                None
            },
        (GenericPositionAtom::Vertical(v), GenericPositionAtom::Offset(o), GenericPositionAtom::Center) =>
            if is_vertical_edge(*v) {
                Some((CssHorizontalPosition::Center, vertical_edge_offset(*v, o.duplicate())))
            } else {
                None
            },
        (GenericPositionAtom::Horizontal(h), GenericPositionAtom::Vertical(v), GenericPositionAtom::Offset(o)) =>
            if is_horizontal_edge(*h) && is_vertical_edge(*v) {
                Some((horizontal_keyword(*h), vertical_edge_offset(*v, o.duplicate())))
            } else {
                None
            },
        (GenericPositionAtom::Center, GenericPositionAtom::Vertical(v), GenericPositionAtom::Offset(o)) =>
            if is_vertical_edge(*v) {
                Some((CssHorizontalPosition::Center, vertical_edge_offset(*v, o.duplicate())))
            } else {
                None
            },
        (GenericPositionAtom::Vertical(v), GenericPositionAtom::Horizontal(h), GenericPositionAtom::Offset(o)) =>
            if is_vertical_edge(*v) && is_horizontal_edge(*h) {
                Some((horizontal_edge_offset(*h, o.duplicate()), vertical_keyword(*v)))
            } else {
                None
            },
        (GenericPositionAtom::Center, GenericPositionAtom::Horizontal(h), GenericPositionAtom::Offset(o)) =>
            if is_horizontal_edge(*h) {
                Some((horizontal_edge_offset(*h, o.duplicate()), CssVerticalPosition::Center))
            } else {
                None
            },
        _ => None,
    }
}

/// Returns the legacy representation of a position, unless it holds a typed calculation.
fn legacy_if_untyped(legacy: CssPosition) -> (kept: Option<CssPosition>)
    ensures
        match kept {
            Some(l) => legacy_if_representable(legacy@) == Some(l@),
            None => legacy_if_representable(legacy@) is None,
        },
{
    if position_has_typed_calculation(&legacy) {
        None
    } else {
        Some(legacy)
    }
}

/// Returns the background position of authored atoms.
///
/// Three atoms form a background position when they are an edge keyword with its offset and a
/// keyword for the other axis, in either order; every generic position is a background
/// position too. The legacy components are kept unless they hold a typed calculation; for
/// three atoms they are the atoms in order with `center` on the axis left open.
pub fn build_background_position(atoms: &[GenericPositionAtom]) -> (built: Option<CssBackgroundPosition>)
    ensures
        match built {
            Some(b) => background_position_of(atoms@) == Some(background_parts(b)),
            None => background_position_of(atoms@) is None,
        },
{
    if atoms.len() == 3 {
        match build_three_atom_background(atoms) {
            Some((horizontal, vertical)) => {
                let legacy = CssPosition::new(contextual_legacy_components(atoms));
                let legacy = legacy_if_untyped(legacy);
                Some(CssBackgroundPosition::new(horizontal, vertical, legacy))
            },
            None => None,
        }
    } else {
        match build_generic_position(atoms) {
            Some((position, legacy)) => {
                let legacy = legacy_if_untyped(legacy);
                proof {
                    broadcast use CssPositionValue::lemma_new_parts;
                }
                Some(CssBackgroundPosition::new(position.horizontal().duplicate(), position.vertical().duplicate(), legacy))
            },
            None => None,
        }
    }
}

/// The index of the atom a rejected background position is reported at: the fourth atom when
/// the first three already form a background position, else as for a generic position.
pub open spec fn invalid_background_atom_index_of(atoms: Seq<GenericPositionAtom>) -> int {
    if atoms.len() == 4 && background_position_of(atoms.take(3)) is Some {
        3
    } else {
        invalid_atom_index_of(atoms)
    }
}

/// Returns the index of the atom a rejected background position is reported at; for one to four
/// atoms it is always an index into the atoms.
pub fn invalid_background_atom_index(atoms: &[GenericPositionAtom]) -> (index: usize)
    ensures
        index == invalid_background_atom_index_of(atoms@),
        1 <= atoms@.len() <= 4 ==> index < atoms@.len(),
{
    if atoms.len() == 4 {
        let first_three = vstd::slice::slice_subrange(atoms, 0, 3);
        proof {
            assert(first_three@ =~= atoms@.take(3));
        }
        if build_background_position(first_three).is_some() {
            return 3;
        }
    }
    invalid_atom_index(atoms)
}

/// Every generic position is a background position with the same axes.
pub proof fn lemma_background_accepts_generic(atoms: Seq<GenericPositionAtom>)
    requires
        generic_position_of(atoms) is Some,
    ensures
        ({
            let generic = generic_position_of(atoms)->0;
            background_position_of(atoms) matches Some((h, v, _)) && h == generic.0.spec_horizontal()
                && v == generic.0.spec_vertical()
        }),
{
}

/// The legacy components of a generic position are one per authored atom.
pub proof fn lemma_generic_legacy_one_per_atom(atoms: Seq<GenericPositionAtom>)
    requires
        generic_position_of(atoms) is Some,
    ensures
        ({
            let generic = generic_position_of(atoms)->0;
            generic.1.len() == atoms.len()
        }),
{
}

/// A single atom always forms a position, and the axis it does not name is the center: a
/// vertical keyword leaves the horizontal axis centered, any other atom the vertical one.
pub proof fn lemma_single_atom_centers_other_axis(atom: GenericPositionAtom)
    ensures
        generic_position_of(seq![atom]) is Some,
        ({
            let generic = generic_position_of(seq![atom])->0;
            &&& atom is Vertical ==> generic.0.spec_horizontal() == CssHorizontalPosition::Center
            &&& !(atom is Vertical) ==> generic.0.spec_vertical() == CssVerticalPosition::Center
        }),
{
    broadcast use CssPositionValue::lemma_new_parts;

}

/// An edge keyword with its offset on each axis forms the same position value in either pair
/// order, and only when both keywords are edges; the legacy components keep the authored order.
pub proof fn lemma_edge_offset_pairs_commute(
    h: CssHorizontalPositionKeyword,
    ho: CssPositionOffset,
    v: CssVerticalPositionKeyword,
    vo: CssPositionOffset,
)
    ensures
        ({
            let horizontal_first = seq![
                GenericPositionAtom::Horizontal(h),
                GenericPositionAtom::Offset(ho),
                GenericPositionAtom::Vertical(v),
                GenericPositionAtom::Offset(vo),
            ];
            let vertical_first = seq![
                GenericPositionAtom::Vertical(v),
                GenericPositionAtom::Offset(vo),
                GenericPositionAtom::Horizontal(h),
                GenericPositionAtom::Offset(ho),
            ];
            let edges = is_horizontal_edge(h) && is_vertical_edge(v);
            let first = generic_position_of(horizontal_first)->0;
            let second = generic_position_of(vertical_first)->0;
            &&& (generic_position_of(horizontal_first) is Some) == edges
            &&& (generic_position_of(vertical_first) is Some) == edges
            &&& edges ==> {
                &&& first.0 == second.0
                &&& first.0.spec_horizontal() == horizontal_edge_offset(h, ho)
                &&& first.0.spec_vertical() == vertical_edge_offset(v, vo)
                &&& first.1 == legacy_components_of(horizontal_first)
                &&& second.1 == legacy_components_of(vertical_first)
            }
        }),
{
    broadcast use CssPositionValue::lemma_new_parts;

}

/// A single atom sets the axis it names and leaves the other at the center: a horizontal keyword
/// the horizontal axis, a vertical keyword the vertical one, an offset the horizontal axis as a
/// free offset, and `center` both; its legacy component is its own.
pub proof fn lemma_single_atom_sets_its_axis(atom: GenericPositionAtom)
    ensures
        generic_position_of(seq![atom]) is Some,
        ({
            let built = generic_position_of(seq![atom])->0;
            let h = built.0.spec_horizontal();
            let v = built.0.spec_vertical();
            &&& atom matches GenericPositionAtom::Horizontal(k) ==> h == horizontal_keyword(k) && v
                == CssVerticalPosition::Center
            &&& atom matches GenericPositionAtom::Vertical(k) ==> h == CssHorizontalPosition::Center && v
                == vertical_keyword(k)
            &&& atom matches GenericPositionAtom::Offset(o) ==> h == CssHorizontalPosition::Offset(o) && v
                == CssVerticalPosition::Center
            &&& atom is Center ==> h == CssHorizontalPosition::Center && v == CssVerticalPosition::Center
            &&& built.1 == seq![legacy_component_of(atom)]
        }),
{
    broadcast use CssPositionValue::lemma_new_parts;

}

/// Whether `other` can complete an edge keyword and its offset into a three-atom background
/// position: `center`, or an edge keyword of the other axis.
pub open spec fn completes_edge_offset(edge: GenericPositionAtom, other: GenericPositionAtom) -> bool {
    ||| other is Center
    ||| edge is Horizontal && (other matches GenericPositionAtom::Vertical(k) && is_vertical_edge(k))
    ||| edge is Vertical && (other matches GenericPositionAtom::Horizontal(k) && is_horizontal_edge(k))
}

/// Three atoms form a background position exactly when an edge keyword is followed by its offset,
/// either first or last, and the remaining atom is `center` or an edge keyword of the other axis.
pub proof fn lemma_three_atom_acceptance(atoms: Seq<GenericPositionAtom>)
    requires
        atoms.len() == 3,
    ensures
        background_position_of(atoms) is Some <==> {
            ||| atoms[0].is_edge_keyword() && atoms[1] is Offset && completes_edge_offset(atoms[0], atoms[2])
            ||| atoms[1].is_edge_keyword() && atoms[2] is Offset && completes_edge_offset(atoms[1], atoms[0])
        },
{
}

/// Only one, two, or four atoms form a position, and four atoms only as an edge keyword with its
/// offset on each axis: an edge keyword, an offset, an edge keyword of the other axis, an offset.
pub proof fn lemma_generic_position_shapes(atoms: Seq<GenericPositionAtom>)
    requires
        generic_position_of(atoms) is Some,
    ensures
        atoms.len() == 1 || atoms.len() == 2 || atoms.len() == 4,
        atoms.len() == 4 ==> {
            &&& atoms[0].is_edge_keyword() && atoms[1] is Offset
            &&& atoms[2].is_edge_keyword() && atoms[3] is Offset
            &&& (atoms[0] is Horizontal <==> atoms[2] is Vertical)
        },
{
}

/// Two atoms form a position exactly when they do not name the same axis twice and no offset
/// stands on an axis a keyword beside it already names: a vertical keyword cannot be followed,
/// nor a horizontal keyword preceded, by an offset.
pub proof fn lemma_two_atom_acceptance(first: GenericPositionAtom, second: GenericPositionAtom)
    ensures
        generic_position_of(seq![first, second]) is Some <==> !{
            ||| first is Horizontal && second is Horizontal
            ||| first is Vertical && second is Vertical
            ||| first is Vertical && second is Offset
            ||| first is Offset && second is Horizontal
        },
{
}

/// In a two-atom position each atom sets its own axis: a horizontal keyword the horizontal axis,
/// a vertical keyword the vertical one, and an offset the axis of its place (the first atom the
/// horizontal axis, the second the vertical one) as a free offset, never measured from an edge;
/// an axis that no atom sets is the center. The legacy components are one per atom, and every
/// atom but `center` keeps its own component.
pub proof fn lemma_two_atoms_set_their_own_axes(first: GenericPositionAtom, second: GenericPositionAtom)
    requires
        generic_position_of(seq![first, second]) is Some,
    ensures
        ({
            let built = generic_position_of(seq![first, second])->0;
            let h = built.0.spec_horizontal();
            let v = built.0.spec_vertical();
            &&& first matches GenericPositionAtom::Horizontal(k) ==> h == horizontal_keyword(k)
            &&& second matches GenericPositionAtom::Horizontal(k) ==> h == horizontal_keyword(k)
            &&& first matches GenericPositionAtom::Vertical(k) ==> v == vertical_keyword(k)
            &&& second matches GenericPositionAtom::Vertical(k) ==> v == vertical_keyword(k)
            &&& first matches GenericPositionAtom::Offset(o) ==> h == CssHorizontalPosition::Offset(o)
            &&& second matches GenericPositionAtom::Offset(o) ==> v == CssVerticalPosition::Offset(o)
            &&& !(first is Horizontal || second is Horizontal || first is Offset) ==> h == CssHorizontalPosition::Center
            &&& !(first is Vertical || second is Vertical || second is Offset) ==> v == CssVerticalPosition::Center
            &&& built.1.len() == 2
            &&& !(first is Center) ==> built.1[0] == legacy_component_of(first)
            &&& !(second is Center) ==> built.1[1] == legacy_component_of(second)
            &&& first is Center ==> built.1[0] == if second is Horizontal {
                CssPositionComponent::Vertical(CssVerticalPositionKeyword::Center)
            } else {
                CssPositionComponent::Horizontal(CssHorizontalPositionKeyword::Center)
            }
            &&& second is Center ==> built.1[1] == if first is Vertical {
                CssPositionComponent::Horizontal(CssHorizontalPositionKeyword::Center)
            } else {
                CssPositionComponent::Vertical(CssVerticalPositionKeyword::Center)
            }
        }),
{
    broadcast use CssPositionValue::lemma_new_parts;

}

/// In a three-atom background position the offset is measured from the edge keyword written
/// just before it, on that keyword's axis; a keyword with no offset after it sets its own axis
/// plainly, and an axis that no keyword names is the center.
pub proof fn lemma_three_atom_offset_follows_its_edge(atoms: Seq<GenericPositionAtom>)
    requires
        atoms.len() == 3,
        background_position_of(atoms) is Some,
    ensures
        ({
            let (h, v, _) = background_position_of(atoms)->0;
            &&& forall|i: int| 0 <= i < 3 && #[trigger] atoms[i] is Offset ==> 1 <= i && atoms[i - 1].is_edge_keyword()
            &&& forall|i: int| 1 <= i < 3 && #[trigger] atoms[i] is Offset && atoms[i - 1] is Horizontal
                ==> h == horizontal_edge_offset(atoms[i - 1]->Horizontal_0, atoms[i]->Offset_0)
            &&& forall|i: int| 1 <= i < 3 && #[trigger] atoms[i] is Offset && atoms[i - 1] is Vertical
                ==> v == vertical_edge_offset(atoms[i - 1]->Vertical_0, atoms[i]->Offset_0)
            &&& forall|j: int| 0 <= j < 3 && #[trigger] atoms[j] is Horizontal && !(j + 1 < 3 && atoms[j + 1] is Offset)
                ==> h == horizontal_keyword(atoms[j]->Horizontal_0)
            &&& forall|j: int| 0 <= j < 3 && #[trigger] atoms[j] is Vertical && !(j + 1 < 3 && atoms[j + 1] is Offset)
                ==> v == vertical_keyword(atoms[j]->Vertical_0)
            &&& (forall|j: int| 0 <= j < 3 ==> !(#[trigger] atoms[j] is Horizontal)) ==> h == CssHorizontalPosition::Center
            &&& (forall|j: int| 0 <= j < 3 ==> !(#[trigger] atoms[j] is Vertical)) ==> v == CssVerticalPosition::Center
        }),
{
    let (h, v, _) = background_position_of(atoms)->0;
    assert(three_atom_background(atoms) == Some((h, v)));
    assert forall|i: int| 0 <= i < 3 && #[trigger] atoms[i] is Offset implies 1 <= i && atoms[i - 1].is_edge_keyword() by {
        assert(i == 0 || i == 1 || i == 2);
    }
    assert forall|j: int| 0 <= j < 3 && #[trigger] atoms[j] is Horizontal && !(j + 1 < 3 && atoms[j + 1] is Offset)
        implies h == horizontal_keyword(atoms[j]->Horizontal_0) by {
        assert(j == 0 || j == 1 || j == 2);
    }
    assert forall|j: int| 0 <= j < 3 && #[trigger] atoms[j] is Vertical && !(j + 1 < 3 && atoms[j + 1] is Offset)
        implies v == vertical_keyword(atoms[j]->Vertical_0) by {
        assert(j == 0 || j == 1 || j == 2);
    }
    if forall|j: int| 0 <= j < 3 ==> !(#[trigger] atoms[j] is Horizontal) {
        assert(!(atoms[0] is Horizontal) && !(atoms[1] is Horizontal) && !(atoms[2] is Horizontal));
    }
    if forall|j: int| 0 <= j < 3 ==> !(#[trigger] atoms[j] is Vertical) {
        assert(!(atoms[0] is Vertical) && !(atoms[1] is Vertical) && !(atoms[2] is Vertical));
    }
}

/// The contextual legacy components are one per authored atom, and every atom but `center`
/// keeps its own component.
pub proof fn lemma_contextual_legacy_components(atoms: Seq<GenericPositionAtom>)
    ensures
        contextual_legacy_components_of(atoms).len() == atoms.len(),
        forall|i: int| 0 <= i < atoms.len() && !(atoms[i] is Center) ==> #[trigger] contextual_legacy_components_of(atoms)[i]
            == legacy_component_of(atoms[i]),
    decreases atoms.len(),
{
    if atoms.len() > 0 {
        lemma_contextual_legacy_components(atoms.drop_last());
        assert forall|i: int| 0 <= i < atoms.len() && !(atoms[i] is Center) implies #[trigger] contextual_legacy_components_of(atoms)[i]
            == legacy_component_of(atoms[i]) by {
            if i < atoms.len() - 1 {
                assert(atoms.drop_last()[i] == atoms[i]);
            }
        }
    }
}

} // verus!
