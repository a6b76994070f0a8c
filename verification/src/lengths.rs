//! Authored CSS lengths as the value grammars hand them to the position and radius logic.
use vstd::prelude::*;

verus! {

/// An authored CSS number, held exactly by the bits of its IEEE 754 single-precision value.
///
/// The logic over lengths never computes with the number; it only carries it, so the bits stand
/// for the value without loss.
#[derive(Clone, Copy, Debug, PartialEq, Eq, Hash, Structural)]
pub struct CssNumber {
    bits: u32,
}

impl CssNumber {
    /// The bits of the single-precision value.
    pub closed spec fn spec_bits(self) -> u32 {
        self.bits
    }

    /// Creates the number whose single-precision value has the given bits.
    pub fn from_bits(bits: u32) -> (number: Self)
        ensures
            number.spec_bits() == bits,
    {
        CssNumber { bits }
    }

    /// Returns the bits of the single-precision value.
    pub fn to_bits(self) -> (bits: u32)
        ensures
            bits == self.spec_bits(),
    {
        self.bits
    }
}

/// A unit of an authored dimension length.
#[derive(Clone, Copy, Debug, PartialEq, Eq, Hash, Structural)]
pub enum CssLengthUnit {
    /// Centimeters.
    Cm,
    /// Millimeters.
    Mm,
    /// Quarter-millimeters.
    Q,
    /// Inches.
    In,
    /// Picas.
    Pc,
    /// Points.
    Pt,
    /// The element's font size.
    Em,
    /// The root element's font size.
    Rem,
    /// The x-height of the element's font.
    Ex,
    /// The advance of `0` in the element's font.
    Ch,
    /// One percent of the viewport width.
    Vw,
    /// One percent of the viewport height.
    Vh,
    /// The smaller of `vw` and `vh`.
    Vmin,
    /// The larger of `vw` and `vh`.
    Vmax,
}

/// An authored `calc()` length, kept as its authored expression text.
#[derive(Clone, Debug, PartialEq, Eq)]
pub enum CssCalcLength {
    /// A calculation the legacy length grammar accepts.
    Legacy(String),
    /// A calculation only the typed-arithmetic grammar accepts.
    Typed(String),
}

/// An authored CSS length or length-percentage.
#[derive(Clone, Debug, PartialEq, Eq)]
pub enum CssLength {
    /// The unitless zero length.
    Zero,
    /// The `auto` keyword.
    Auto,
    /// A length in `px`.
    Px(CssNumber),
    /// A percentage.
    Percent(CssNumber),
    /// A length in another unit.
    Dimension { value: CssNumber, unit: CssLengthUnit },
    /// A calculated length.
    Calc(CssCalcLength),
}

impl CssCalcLength {
    /// Returns an equal copy of the calculation.
    pub fn duplicate(&self) -> (copy: Self)
        ensures
            copy == *self,
    {
        match self {
            CssCalcLength::Legacy(text) => CssCalcLength::Legacy(text.clone()),
            CssCalcLength::Typed(text) => CssCalcLength::Typed(text.clone()),
        }
    }
}

impl CssLength {
    /// Returns an equal copy of the length.
    pub fn duplicate(&self) -> (copy: Self)
        ensures
            copy == *self,
    {
        match self {
            CssLength::Zero => CssLength::Zero,
            CssLength::Auto => CssLength::Auto,
            CssLength::Px(value) => CssLength::Px(*value),
            CssLength::Percent(value) => CssLength::Percent(*value),
            CssLength::Dimension { value, unit } => CssLength::Dimension { value: *value, unit: *unit },
            CssLength::Calc(calc) => CssLength::Calc(calc.duplicate()),
        }
    }

    /// Whether the length is a calculation only the typed-arithmetic grammar accepts.
    pub open spec fn is_typed_calculation(self) -> bool {
        self matches CssLength::Calc(CssCalcLength::Typed(_))
    }
}

/// The four corner radii `(top-left, top-right, bottom-right, bottom-left)` that one to four
/// authored radii stand for, by the `border-radius` shorthand's repetition rule.
pub open spec fn expanded_radii(values: Seq<CssLength>) -> (CssLength, CssLength, CssLength, CssLength)
    recommends
        1 <= values.len() <= 4,
{
    if values.len() == 1 {
        (values[0], values[0], values[0], values[0])
    } else if values.len() == 2 {
        (values[0], values[1], values[0], values[1])
    } else if values.len() == 3 {
        (values[0], values[1], values[2], values[1])
    } else {
        (values[0], values[1], values[2], values[3])
    }
}

/// Returns the four corner radii `(top-left, top-right, bottom-right, bottom-left)` of one to
/// four authored radii: one radius is used for every corner, two alternate starting at the
/// top-left, and with three the top-right radius also serves the bottom-left corner.
pub fn expand_radius_components(values: Vec<CssLength>) -> (corners: (CssLength, CssLength, CssLength, CssLength))
    requires
        1 <= values.len() <= 4,
    ensures
        corners == expanded_radii(values@),
{
    if values.len() == 1 {
        (values[0].duplicate(), values[0].duplicate(), values[0].duplicate(), values[0].duplicate())
    } else if values.len() == 2 {
        (values[0].duplicate(), values[1].duplicate(), values[0].duplicate(), values[1].duplicate())
    } else if values.len() == 3 {
        (values[0].duplicate(), values[1].duplicate(), values[2].duplicate(), values[1].duplicate())
    } else {
        (values[0].duplicate(), values[1].duplicate(), values[2].duplicate(), values[3].duplicate())
    }
}

/// Each corner radius is one of the authored radii, and every authored radius is used for at
/// least one corner.
pub proof fn lemma_expanded_radii_use_each_value(values: Seq<CssLength>)
    requires
        1 <= values.len() <= 4,
    ensures
        ({
            let (a, b, c, d) = expanded_radii(values);
            &&& values.contains(a)
            &&& values.contains(b)
            &&& values.contains(c)
            &&& values.contains(d)
            &&& forall|i: int| 0 <= i < values.len() ==> (#[trigger] values[i] == a || values[i] == b
                || values[i] == c || values[i] == d)
        }),
{
    let (a, b, c, d) = expanded_radii(values);
    assert(values[0] == a);
    if values.len() >= 2 {
        assert(values[1] == b);
    } else {
        assert(values[0] == b);
    }
    if values.len() >= 3 {
        assert(values[2] == c);
    } else {
        assert(values[0] == c);
    }
    if values.len() == 4 {
        assert(values[3] == d);
    } else if values.len() >= 2 {
        assert(values[1] == d);
    } else {
        assert(values[0] == d);
    }
}

/// Whether a length is one a CSS2 page margin accepts: `px`, a percentage, zero, `auto`, or an
/// absolute unit CSS2 defines (`cm`, `mm`, `in`, `pc`, `pt`).
pub open spec fn is_css2_page_length_of(value: CssLength) -> bool {
    match value {
        CssLength::Px(_) | CssLength::Percent(_) | CssLength::Zero | CssLength::Auto => true,
        CssLength::Dimension { unit, .. } => matches!(
            unit,
            CssLengthUnit::Cm | CssLengthUnit::Mm | CssLengthUnit::In | CssLengthUnit::Pc | CssLengthUnit::Pt
        ),
        _ => false,
    }
}

/// Returns whether a length is one a CSS2 page margin accepts.
pub fn is_css2_page_length(value: &CssLength) -> (accepted: bool)
    ensures
        accepted == is_css2_page_length_of(*value),
{
    match value {
        CssLength::Px(_) | CssLength::Percent(_) | CssLength::Zero | CssLength::Auto => true,
        CssLength::Dimension { unit, .. } => match unit {
            CssLengthUnit::Cm | CssLengthUnit::Mm | CssLengthUnit::In | CssLengthUnit::Pc | CssLengthUnit::Pt => true,
            _ => false,
        },
        _ => false,
    }
}

} // verus!
