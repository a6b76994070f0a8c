//! Keyword tables of the value grammars: font-face source hints, predefined counter styles,
//! page-margin boxes, and the alignment keywords a context admits.
use vstd::prelude::*;

use crate::properties::CssKnownProperty;
use crate::text::{chars_ascii_case_eq, eq_ignore_ascii_case, lemma_chars_ascii_case_eq_transfer};

verus! {

/// An authored `format()` hint of a font-face source.
#[derive(Clone, Copy, Debug, PartialEq, Eq, Hash, Structural)]
pub enum CssFontFormatHint {
    /// `woff`: WOFF 1.0.
    Woff,
    /// `woff2`: WOFF 2.0.
    Woff2,
    /// `truetype`: TrueType.
    TrueType,
    /// `opentype`: OpenType.
    OpenType,
    /// `collection`: An OpenType collection.
    Collection,
    /// `embedded-opentype`: Embedded OpenType.
    EmbeddedOpenType,
    /// `svg`: An SVG font.
    Svg,
}

/// The font format hint a `format()` keyword names, matched ignoring ASCII case.
pub open spec fn font_format_hint_of(name: Seq<char>) -> Option<CssFontFormatHint> {
    if chars_ascii_case_eq(name, "woff"@) {
        Some(CssFontFormatHint::Woff)
    } else if chars_ascii_case_eq(name, "woff2"@) {
        Some(CssFontFormatHint::Woff2)
    } else if chars_ascii_case_eq(name, "truetype"@) {
        Some(CssFontFormatHint::TrueType)
    } else if chars_ascii_case_eq(name, "opentype"@) {
        Some(CssFontFormatHint::OpenType)
    } else if chars_ascii_case_eq(name, "collection"@) {
        Some(CssFontFormatHint::Collection)
    } else if chars_ascii_case_eq(name, "embedded-opentype"@) {
        Some(CssFontFormatHint::EmbeddedOpenType)
    } else if chars_ascii_case_eq(name, "svg"@) {
        Some(CssFontFormatHint::Svg)
    } else {
        None
    }
}

/// Returns the font format hint a `format()` keyword names, matched ignoring ASCII case, or `None` for any other name.
pub fn font_format_hint_from_str(value: &str) -> (found: Option<CssFontFormatHint>)
    ensures
        found == font_format_hint_of(value@),
{
    if eq_ignore_ascii_case(value, "woff") {
        Some(CssFontFormatHint::Woff)
    } else if eq_ignore_ascii_case(value, "woff2") {
        Some(CssFontFormatHint::Woff2)
    } else if eq_ignore_ascii_case(value, "truetype") {
        Some(CssFontFormatHint::TrueType)
    } else if eq_ignore_ascii_case(value, "opentype") {
        Some(CssFontFormatHint::OpenType)
    } else if eq_ignore_ascii_case(value, "collection") {
        Some(CssFontFormatHint::Collection)
    } else if eq_ignore_ascii_case(value, "embedded-opentype") {
        Some(CssFontFormatHint::EmbeddedOpenType)
    } else if eq_ignore_ascii_case(value, "svg") {
        Some(CssFontFormatHint::Svg)
    } else {
        None
    }
}

/// Names equal ignoring ASCII case name the same font format hint.
pub proof fn lemma_font_format_hint_ignores_ascii_case(a: Seq<char>, b: Seq<char>)
    requires
        chars_ascii_case_eq(a, b),
    ensures
        font_format_hint_of(a) == font_format_hint_of(b),
{
    lemma_chars_ascii_case_eq_transfer(a, b, "woff"@);
    lemma_chars_ascii_case_eq_transfer(a, b, "woff2"@);
    lemma_chars_ascii_case_eq_transfer(a, b, "truetype"@);
    lemma_chars_ascii_case_eq_transfer(a, b, "opentype"@);
    lemma_chars_ascii_case_eq_transfer(a, b, "collection"@);
    lemma_chars_ascii_case_eq_transfer(a, b, "embedded-opentype"@);
    lemma_chars_ascii_case_eq_transfer(a, b, "svg"@);
}

/// An authored `tech()` hint of a font-face source.
#[derive(Clone, Copy, Debug, PartialEq, Eq, Hash, Structural)]
pub enum CssFontTechHint {
    /// `variations`: Font variations.
    Variations,
    /// `color-colrv0`: COLR version 0 color glyphs.
    ColorCOLRv0,
    /// `color-colrv1`: COLR version 1 color glyphs.
    ColorCOLRv1,
    /// `color-svg`: SVG color glyphs.
    ColorSVG,
    /// `color-sbix`: `sbix` bitmap color glyphs.
    ColorSbix,
    /// `color-cbdt`: CBDT bitmap color glyphs.
    ColorCBDT,
    /// `features-opentype`: OpenType layout features.
    FeaturesOpenType,
    /// `features-aat`: AAT layout features.
    FeaturesAAT,
    /// `features-graphite`: Graphite layout features.
    FeaturesGraphite,
    /// `incremental`: Incremental font transfer.
    Incremental,
}

/// The font technology a `tech()` keyword names, matched ignoring ASCII case.
pub open spec fn font_tech_hint_of(name: Seq<char>) -> Option<CssFontTechHint> {
    if chars_ascii_case_eq(name, "variations"@) {
        Some(CssFontTechHint::Variations)
    } else if chars_ascii_case_eq(name, "color-colrv0"@) {
        Some(CssFontTechHint::ColorCOLRv0)
    } else if chars_ascii_case_eq(name, "color-colrv1"@) {
        Some(CssFontTechHint::ColorCOLRv1)
    } else if chars_ascii_case_eq(name, "color-svg"@) {
        Some(CssFontTechHint::ColorSVG)
    } else if chars_ascii_case_eq(name, "color-sbix"@) {
        Some(CssFontTechHint::ColorSbix)
    } else if chars_ascii_case_eq(name, "color-cbdt"@) {
        Some(CssFontTechHint::ColorCBDT)
    } else if chars_ascii_case_eq(name, "features-opentype"@) {
        Some(CssFontTechHint::FeaturesOpenType)
    } else if chars_ascii_case_eq(name, "features-aat"@) {
        Some(CssFontTechHint::FeaturesAAT)
    } else if chars_ascii_case_eq(name, "features-graphite"@) {
        Some(CssFontTechHint::FeaturesGraphite)
    } else if chars_ascii_case_eq(name, "incremental"@) {
        Some(CssFontTechHint::Incremental)
    } else {
        None
    }
}

/// Returns the font technology a `tech()` keyword names, matched ignoring ASCII case, or `None` for any other name.
pub fn font_tech_hint_from_str(value: &str) -> (found: Option<CssFontTechHint>)
    ensures
        found == font_tech_hint_of(value@),
{
    if eq_ignore_ascii_case(value, "variations") {
        Some(CssFontTechHint::Variations)
    } else if eq_ignore_ascii_case(value, "color-colrv0") {
        Some(CssFontTechHint::ColorCOLRv0)
    } else if eq_ignore_ascii_case(value, "color-colrv1") {
        Some(CssFontTechHint::ColorCOLRv1)
    } else if eq_ignore_ascii_case(value, "color-svg") {
        Some(CssFontTechHint::ColorSVG)
    } else if eq_ignore_ascii_case(value, "color-sbix") {
        Some(CssFontTechHint::ColorSbix)
    } else if eq_ignore_ascii_case(value, "color-cbdt") {
        Some(CssFontTechHint::ColorCBDT)
    } else if eq_ignore_ascii_case(value, "features-opentype") {
        Some(CssFontTechHint::FeaturesOpenType)
    } else if eq_ignore_ascii_case(value, "features-aat") {
        Some(CssFontTechHint::FeaturesAAT)
    } else if eq_ignore_ascii_case(value, "features-graphite") {
        Some(CssFontTechHint::FeaturesGraphite)
    } else if eq_ignore_ascii_case(value, "incremental") {
        Some(CssFontTechHint::Incremental)
    } else {
        None
    }
}

/// Names equal ignoring ASCII case name the same font technology.
pub proof fn lemma_font_tech_hint_ignores_ascii_case(a: Seq<char>, b: Seq<char>)
    requires
        chars_ascii_case_eq(a, b),
    ensures
        font_tech_hint_of(a) == font_tech_hint_of(b),
{
    lemma_chars_ascii_case_eq_transfer(a, b, "variations"@);
    lemma_chars_ascii_case_eq_transfer(a, b, "color-colrv0"@);
    lemma_chars_ascii_case_eq_transfer(a, b, "color-colrv1"@);
    lemma_chars_ascii_case_eq_transfer(a, b, "color-svg"@);
    lemma_chars_ascii_case_eq_transfer(a, b, "color-sbix"@);
    lemma_chars_ascii_case_eq_transfer(a, b, "color-cbdt"@);
    lemma_chars_ascii_case_eq_transfer(a, b, "features-opentype"@);
    lemma_chars_ascii_case_eq_transfer(a, b, "features-aat"@);
    lemma_chars_ascii_case_eq_transfer(a, b, "features-graphite"@);
    lemma_chars_ascii_case_eq_transfer(a, b, "incremental"@);
}

/// A counter style predefined by CSS Lists and the strict subset.
#[derive(Clone, Copy, Debug, PartialEq, Eq, Hash, Structural)]
pub enum CssBuiltInCounterStyle {
    /// `disc`: A filled circle.
    Disc,
    /// `circle`: A hollow circle.
    Circle,
    /// `square`: A filled square.
    Square,
    /// `decimal`: Decimal numbers.
    Decimal,
    /// `decimal-leading-zero`: Decimal numbers padded to two digits.
    DecimalLeadingZero,
    /// `lower-alpha`: Lowercase ASCII letters.
    LowerAlpha,
    /// `upper-alpha`: Uppercase ASCII letters.
    UpperAlpha,
    /// `lower-latin`: Lowercase Latin letters.
    LowerLatin,
    /// `upper-latin`: Uppercase Latin letters.
    UpperLatin,
    /// `lower-roman`: Lowercase Roman numerals.
    LowerRoman,
    /// `upper-roman`: Uppercase Roman numerals.
    UpperRoman,
}

/// The predefined counter style a keyword names, matched ignoring ASCII case.
pub open spec fn builtin_counter_style_of(name: Seq<char>) -> Option<CssBuiltInCounterStyle> {
    if chars_ascii_case_eq(name, "disc"@) {
        Some(CssBuiltInCounterStyle::Disc)
    } else if chars_ascii_case_eq(name, "circle"@) {
        Some(CssBuiltInCounterStyle::Circle)
    } else if chars_ascii_case_eq(name, "square"@) {
        Some(CssBuiltInCounterStyle::Square)
    } else if chars_ascii_case_eq(name, "decimal"@) {
        Some(CssBuiltInCounterStyle::Decimal)
    } else if chars_ascii_case_eq(name, "decimal-leading-zero"@) {
        Some(CssBuiltInCounterStyle::DecimalLeadingZero)
    } else if chars_ascii_case_eq(name, "lower-alpha"@) {
        Some(CssBuiltInCounterStyle::LowerAlpha)
    } else if chars_ascii_case_eq(name, "upper-alpha"@) {
        Some(CssBuiltInCounterStyle::UpperAlpha)
    } else if chars_ascii_case_eq(name, "lower-latin"@) {
        Some(CssBuiltInCounterStyle::LowerLatin)
    } else if chars_ascii_case_eq(name, "upper-latin"@) {
        Some(CssBuiltInCounterStyle::UpperLatin)
    } else if chars_ascii_case_eq(name, "lower-roman"@) {
        Some(CssBuiltInCounterStyle::LowerRoman)
    } else if chars_ascii_case_eq(name, "upper-roman"@) {
        Some(CssBuiltInCounterStyle::UpperRoman)
    } else {
        None
    }
}

/// Returns the predefined counter style a keyword names, matched ignoring ASCII case, or `None` for any other name.
pub fn parse_builtin_counter_style(value: &str) -> (found: Option<CssBuiltInCounterStyle>)
    ensures
        found == builtin_counter_style_of(value@),
{
    if eq_ignore_ascii_case(value, "disc") {
        Some(CssBuiltInCounterStyle::Disc)
    } else if eq_ignore_ascii_case(value, "circle") {
        Some(CssBuiltInCounterStyle::Circle)
    } else if eq_ignore_ascii_case(value, "square") {
        Some(CssBuiltInCounterStyle::Square)
    } else if eq_ignore_ascii_case(value, "decimal") {
        Some(CssBuiltInCounterStyle::Decimal)
    } else if eq_ignore_ascii_case(value, "decimal-leading-zero") {
        Some(CssBuiltInCounterStyle::DecimalLeadingZero)
    } else if eq_ignore_ascii_case(value, "lower-alpha") {
        Some(CssBuiltInCounterStyle::LowerAlpha)
    } else if eq_ignore_ascii_case(value, "upper-alpha") {
        Some(CssBuiltInCounterStyle::UpperAlpha)
    } else if eq_ignore_ascii_case(value, "lower-latin") {
        Some(CssBuiltInCounterStyle::LowerLatin)
    } else if eq_ignore_ascii_case(value, "upper-latin") {
        Some(CssBuiltInCounterStyle::UpperLatin)
    } else if eq_ignore_ascii_case(value, "lower-roman") {
        Some(CssBuiltInCounterStyle::LowerRoman)
    } else if eq_ignore_ascii_case(value, "upper-roman") {
        Some(CssBuiltInCounterStyle::UpperRoman)
    } else {
        None
    }
}

/// Names equal ignoring ASCII case name the same predefined counter style.
pub proof fn lemma_builtin_counter_style_ignores_ascii_case(a: Seq<char>, b: Seq<char>)
    requires
        chars_ascii_case_eq(a, b),
    ensures
        builtin_counter_style_of(a) == builtin_counter_style_of(b),
{
    lemma_chars_ascii_case_eq_transfer(a, b, "disc"@);
    lemma_chars_ascii_case_eq_transfer(a, b, "circle"@);
    lemma_chars_ascii_case_eq_transfer(a, b, "square"@);
    lemma_chars_ascii_case_eq_transfer(a, b, "decimal"@);
    lemma_chars_ascii_case_eq_transfer(a, b, "decimal-leading-zero"@);
    lemma_chars_ascii_case_eq_transfer(a, b, "lower-alpha"@);
    lemma_chars_ascii_case_eq_transfer(a, b, "upper-alpha"@);
    lemma_chars_ascii_case_eq_transfer(a, b, "lower-latin"@);
    lemma_chars_ascii_case_eq_transfer(a, b, "upper-latin"@);
    lemma_chars_ascii_case_eq_transfer(a, b, "lower-roman"@);
    lemma_chars_ascii_case_eq_transfer(a, b, "upper-roman"@);
}

/// Whether a name is one of the sixteen page-margin boxes, ignoring ASCII case.
pub open spec fn is_page_margin_box_of(name: Seq<char>) -> bool {
    ||| chars_ascii_case_eq(name, "top-left-corner"@)
    ||| chars_ascii_case_eq(name, "top-left"@)
    ||| chars_ascii_case_eq(name, "top-center"@)
    ||| chars_ascii_case_eq(name, "top-right"@)
    ||| chars_ascii_case_eq(name, "top-right-corner"@)
    ||| chars_ascii_case_eq(name, "bottom-left-corner"@)
    ||| chars_ascii_case_eq(name, "bottom-left"@)
    ||| chars_ascii_case_eq(name, "bottom-center"@)
    ||| chars_ascii_case_eq(name, "bottom-right"@)
    ||| chars_ascii_case_eq(name, "bottom-right-corner"@)
    ||| chars_ascii_case_eq(name, "left-top"@)
    ||| chars_ascii_case_eq(name, "left-middle"@)
    ||| chars_ascii_case_eq(name, "left-bottom"@)
    ||| chars_ascii_case_eq(name, "right-top"@)
    ||| chars_ascii_case_eq(name, "right-middle"@)
    ||| chars_ascii_case_eq(name, "right-bottom"@)
}

/// Returns whether a name is one of the page-margin boxes of `@page`, ignoring ASCII case.
pub fn is_page_margin_box(name: &str) -> (is_box: bool)
    ensures
        is_box == is_page_margin_box_of(name@),
{
    eq_ignore_ascii_case(name, "top-left-corner")
        || eq_ignore_ascii_case(name, "top-left")
        || eq_ignore_ascii_case(name, "top-center")
        || eq_ignore_ascii_case(name, "top-right")
        || eq_ignore_ascii_case(name, "top-right-corner")
        || eq_ignore_ascii_case(name, "bottom-left-corner")
        || eq_ignore_ascii_case(name, "bottom-left")
        || eq_ignore_ascii_case(name, "bottom-center")
        || eq_ignore_ascii_case(name, "bottom-right")
        || eq_ignore_ascii_case(name, "bottom-right-corner")
        || eq_ignore_ascii_case(name, "left-top")
        || eq_ignore_ascii_case(name, "left-middle")
        || eq_ignore_ascii_case(name, "left-bottom")
        || eq_ignore_ascii_case(name, "right-top")
        || eq_ignore_ascii_case(name, "right-middle")
        || eq_ignore_ascii_case(name, "right-bottom")
}

/// Names equal ignoring ASCII case are page-margin boxes alike.
pub proof fn lemma_page_margin_box_ignores_ascii_case(a: Seq<char>, b: Seq<char>)
    requires
        chars_ascii_case_eq(a, b),
    ensures
        is_page_margin_box_of(a) == is_page_margin_box_of(b),
{
    lemma_chars_ascii_case_eq_transfer(a, b, "top-left-corner"@);
    lemma_chars_ascii_case_eq_transfer(a, b, "top-left"@);
    lemma_chars_ascii_case_eq_transfer(a, b, "top-center"@);
    lemma_chars_ascii_case_eq_transfer(a, b, "top-right"@);
    lemma_chars_ascii_case_eq_transfer(a, b, "top-right-corner"@);
    lemma_chars_ascii_case_eq_transfer(a, b, "bottom-left-corner"@);
    lemma_chars_ascii_case_eq_transfer(a, b, "bottom-left"@);
    lemma_chars_ascii_case_eq_transfer(a, b, "bottom-center"@);
    lemma_chars_ascii_case_eq_transfer(a, b, "bottom-right"@);
    lemma_chars_ascii_case_eq_transfer(a, b, "bottom-right-corner"@);
    lemma_chars_ascii_case_eq_transfer(a, b, "left-top"@);
    lemma_chars_ascii_case_eq_transfer(a, b, "left-middle"@);
    lemma_chars_ascii_case_eq_transfer(a, b, "left-bottom"@);
    lemma_chars_ascii_case_eq_transfer(a, b, "right-top"@);
    lemma_chars_ascii_case_eq_transfer(a, b, "right-middle"@);
    lemma_chars_ascii_case_eq_transfer(a, b, "right-bottom"@);
}

/// Returns whether a known property is one of the margin properties a page context admits.
#[verifier::allow_in_spec]
pub fn is_page_margin_property(property: CssKnownProperty) -> bool
    returns
        matches!(
            property,
            CssKnownProperty::Margin | CssKnownProperty::MarginTop | CssKnownProperty::MarginRight
                | CssKnownProperty::MarginBottom | CssKnownProperty::MarginLeft
        ),
{
    match property {
        CssKnownProperty::Margin | CssKnownProperty::MarginTop | CssKnownProperty::MarginRight
        | CssKnownProperty::MarginBottom | CssKnownProperty::MarginLeft => true,
        _ => false,
    }
}

/// The optional alignment keywords an alignment context admits.
#[derive(Clone, Copy, Debug, PartialEq, Eq, Structural)]
pub struct AllowedAlignmentKeywords {
    /// Whether `normal` is admitted.
    pub normal: bool,
    /// Whether the distributed alignment keywords are admitted.
    pub distribution: bool,
}

impl AllowedAlignmentKeywords {
    /// The keywords content alignment admits: `normal` and distributed alignment.
    #[verifier::allow_in_spec]
    pub fn content() -> Self
        returns
            (AllowedAlignmentKeywords { normal: true, distribution: true }),
    {
        AllowedAlignmentKeywords { normal: true, distribution: true }
    }

    /// The keywords item alignment admits: `normal`, but no distributed alignment.
    #[verifier::allow_in_spec]
    pub fn item() -> Self
        returns
            (AllowedAlignmentKeywords { normal: true, distribution: false }),
    {
        AllowedAlignmentKeywords { normal: true, distribution: false }
    }
}

} // verus!
