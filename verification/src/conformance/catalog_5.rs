//! Support-catalog records 241 through 300 in stable inventory order.
use vstd::prelude::*;

use crate::properties::CssKnownProperty;
use super::sources::{i_fonts4};
use crate::error::CssFeatureId;
use super::{texts, push_feature, CssFeatureKind, CssFeatureMetadata};

verus! {

broadcast use super::property_sources::lemma_property_source_wf;

/// The records of this part of the catalog, in stable inventory order.
#[verifier::opaque]
pub open spec fn features() -> Seq<CssFeatureMetadata> {
    seq![
        CssFeatureMetadata::spec_partial_property(
            "baseline.property.writing-mode",
            CssKnownProperty::WritingMode,
            "writing-mode",
            "#propdef-writing-mode",
            &[],
        ),
        CssFeatureMetadata::spec_partial_property(
            "baseline.property.text-align",
            CssKnownProperty::TextAlign,
            "text-align",
            "#propdef-text-align",
            &[],
        ),
        CssFeatureMetadata::spec_partial_property(
            "baseline.property.text-align-last",
            CssKnownProperty::TextAlignLast,
            "text-align-last",
            "#propdef-text-align-last",
            &[],
        ),
        CssFeatureMetadata::spec_partial_property(
            "baseline.property.text-indent",
            CssKnownProperty::TextIndent,
            "text-indent",
            "#propdef-text-indent",
            &[],
        ),
        CssFeatureMetadata::spec_partial_property(
            "baseline.property.vertical-align",
            CssKnownProperty::VerticalAlign,
            "vertical-align",
            "#propdef-vertical-align",
            &[],
        ),
        CssFeatureMetadata::spec_complete_property(
            "baseline.property.font-family",
            CssKnownProperty::FontFamily,
            "font-family",
            "#propdef-font-family",
            &[],
        ),
        CssFeatureMetadata::spec_complete_property(
            "baseline.property.font",
            CssKnownProperty::Font,
            "font",
            "#propdef-font",
            &[],
        ),
        CssFeatureMetadata::spec_complete_property(
            "baseline.property.font-weight",
            CssKnownProperty::FontWeight,
            "font-weight",
            "#propdef-font-weight",
            &[],
        ),
        CssFeatureMetadata::spec_complete_property(
            "baseline.property.font-style",
            CssKnownProperty::FontStyle,
            "font-style",
            "#propdef-font-style",
            &[],
        ),
        CssFeatureMetadata::spec_complete_property(
            "baseline.property.font-stretch",
            CssKnownProperty::FontStretch,
            "font-stretch",
            "#propdef-font-stretch",
            &[],
        ),
        CssFeatureMetadata::spec_complete_property(
            "baseline.property.font-variant",
            CssKnownProperty::FontVariant,
            "font-variant",
            "#propdef-font-variant",
            &[],
        ),
        CssFeatureMetadata::spec_complete_property(
            "official.property.font-variant-caps",
            CssKnownProperty::FontVariantCaps,
            "font-variant-caps",
            "#propdef-font-variant-caps",
            &[],
        ),
        CssFeatureMetadata::spec_complete_property(
            "official.property.font-variant-east-asian",
            CssKnownProperty::FontVariantEastAsian,
            "font-variant-east-asian",
            "#propdef-font-variant-east-asian",
            &[],
        ),
        CssFeatureMetadata::spec_complete_property(
            "official.property.font-variant-ligatures",
            CssKnownProperty::FontVariantLigatures,
            "font-variant-ligatures",
            "#propdef-font-variant-ligatures",
            &[],
        ),
        CssFeatureMetadata::spec_complete_property(
            "official.property.font-variant-numeric",
            CssKnownProperty::FontVariantNumeric,
            "font-variant-numeric",
            "#propdef-font-variant-numeric",
            &[],
        ),
        CssFeatureMetadata::spec_complete_property(
            "official.property.font-variant-position",
            CssKnownProperty::FontVariantPosition,
            "font-variant-position",
            "#propdef-font-variant-position",
            &[],
        ),
        CssFeatureMetadata::spec_complete_property(
            "baseline.property.font-feature-settings",
            CssKnownProperty::FontFeatureSettings,
            "font-feature-settings",
            "#propdef-font-feature-settings",
            &[],
        ),
        CssFeatureMetadata::spec_complete_property(
            "official.property.font-kerning",
            CssKnownProperty::FontKerning,
            "font-kerning",
            "#propdef-font-kerning",
            &[],
        ),
        CssFeatureMetadata::spec_complete_property(
            "official.property.font-size-adjust",
            CssKnownProperty::FontSizeAdjust,
            "font-size-adjust",
            "#propdef-font-size-adjust",
            &[],
        ),
        CssFeatureMetadata::spec_complete_property(
            "official.property.font-synthesis",
            CssKnownProperty::FontSynthesis,
            "font-synthesis",
            "#propdef-font-synthesis",
            &[],
        ),
        CssFeatureMetadata::spec_partial(
            "ext.property.font-weight-range",
            CssFeatureKind::Property,
            "font-weight numeric range",
            i_fonts4(),
            "#font-weight-prop",
            texts::font_weight_range_subset(),
            texts::font_weight_range_remainder(),
        ),
        CssFeatureMetadata::spec_partial_property(
            "baseline.property.letter-spacing",
            CssKnownProperty::LetterSpacing,
            "letter-spacing",
            "#propdef-letter-spacing",
            &[],
        ),
        CssFeatureMetadata::spec_partial_property(
            "baseline.property.text-wrap",
            CssKnownProperty::TextWrap,
            "text-wrap",
            "#propdef-text-wrap",
            &[],
        ),
        CssFeatureMetadata::spec_partial_property(
            "baseline.property.white-space",
            CssKnownProperty::WhiteSpace,
            "white-space",
            "#propdef-white-space",
            &[],
        ),
        CssFeatureMetadata::spec_partial_property(
            "baseline.property.word-break",
            CssKnownProperty::WordBreak,
            "word-break",
            "#propdef-word-break",
            &[],
        ),
        CssFeatureMetadata::spec_partial_property(
            "baseline.property.overflow-wrap",
            CssKnownProperty::OverflowWrap,
            "overflow-wrap",
            "#propdef-overflow-wrap",
            &[],
        ),
        CssFeatureMetadata::spec_partial_property(
            "baseline.property.text-overflow",
            CssKnownProperty::TextOverflow,
            "text-overflow",
            "#propdef-text-overflow",
            &[],
        ),
        CssFeatureMetadata::spec_partial_property(
            "baseline.property.text-decoration",
            CssKnownProperty::TextDecoration,
            "text-decoration",
            "#propdef-text-decoration",
            &[],
        ),
        CssFeatureMetadata::spec_partial_property(
            "baseline.property.text-decoration-line",
            CssKnownProperty::TextDecorationLine,
            "text-decoration-line",
            "#propdef-text-decoration-line",
            &[],
        ),
        CssFeatureMetadata::spec_partial_property(
            "baseline.property.text-decoration-color",
            CssKnownProperty::TextDecorationColor,
            "text-decoration-color",
            "#propdef-text-decoration-color",
            &[],
        ),
        CssFeatureMetadata::spec_partial_property(
            "baseline.property.text-decoration-style",
            CssKnownProperty::TextDecorationStyle,
            "text-decoration-style",
            "#propdef-text-decoration-style",
            &[],
        ),
        CssFeatureMetadata::spec_partial_property(
            "baseline.property.text-decoration-thickness",
            CssKnownProperty::TextDecorationThickness,
            "text-decoration-thickness",
            "#propdef-text-decoration-thickness",
            &[],
        ),
        CssFeatureMetadata::spec_partial_property(
            "baseline.property.text-transform",
            CssKnownProperty::TextTransform,
            "text-transform",
            "#propdef-text-transform",
            &[],
        ),
        CssFeatureMetadata::spec_partial_property(
            "baseline.property.inset",
            CssKnownProperty::Inset,
            "inset",
            "#propdef-inset",
            &[],
        ),
        CssFeatureMetadata::spec_partial_property(
            "baseline.property.top",
            CssKnownProperty::Top,
            "top",
            "#propdef-top",
            &[],
        ),
        CssFeatureMetadata::spec_partial_property(
            "baseline.property.right",
            CssKnownProperty::Right,
            "right",
            "#propdef-right",
            &[],
        ),
        CssFeatureMetadata::spec_partial_property(
            "baseline.property.bottom",
            CssKnownProperty::Bottom,
            "bottom",
            "#propdef-bottom",
            &[],
        ),
        CssFeatureMetadata::spec_partial_property(
            "baseline.property.left",
            CssKnownProperty::Left,
            "left",
            "#propdef-left",
            &[],
        ),
        CssFeatureMetadata::spec_partial_property(
            "baseline.property.z-index",
            CssKnownProperty::ZIndex,
            "z-index",
            "#propdef-z-index",
            &[],
        ),
        CssFeatureMetadata::spec_partial_property(
            "baseline.property.box-decoration-break",
            CssKnownProperty::BoxDecorationBreak,
            "box-decoration-break",
            "#propdef-box-decoration-break",
            &[],
        ),
        CssFeatureMetadata::spec_partial_property(
            "baseline.property.margin",
            CssKnownProperty::Margin,
            "margin",
            "#propdef-margin",
            &[],
        ),
        CssFeatureMetadata::spec_partial_property(
            "baseline.property.margin-top",
            CssKnownProperty::MarginTop,
            "margin-top",
            "#propdef-margin-top",
            &[],
        ),
        CssFeatureMetadata::spec_partial_property(
            "baseline.property.margin-right",
            CssKnownProperty::MarginRight,
            "margin-right",
            "#propdef-margin-right",
            &[],
        ),
        CssFeatureMetadata::spec_partial_property(
            "baseline.property.margin-bottom",
            CssKnownProperty::MarginBottom,
            "margin-bottom",
            "#propdef-margin-bottom",
            &[],
        ),
        CssFeatureMetadata::spec_partial_property(
            "baseline.property.margin-left",
            CssKnownProperty::MarginLeft,
            "margin-left",
            "#propdef-margin-left",
            &[],
        ),
        CssFeatureMetadata::spec_partial_property(
            "baseline.property.padding",
            CssKnownProperty::Padding,
            "padding",
            "#propdef-padding",
            &[],
        ),
        CssFeatureMetadata::spec_partial_property(
            "baseline.property.padding-top",
            CssKnownProperty::PaddingTop,
            "padding-top",
            "#propdef-padding-top",
            &[],
        ),
        CssFeatureMetadata::spec_partial_property(
            "baseline.property.padding-right",
            CssKnownProperty::PaddingRight,
            "padding-right",
            "#propdef-padding-right",
            &[],
        ),
        CssFeatureMetadata::spec_partial_property(
            "baseline.property.padding-bottom",
            CssKnownProperty::PaddingBottom,
            "padding-bottom",
            "#propdef-padding-bottom",
            &[],
        ),
        CssFeatureMetadata::spec_partial_property(
            "baseline.property.padding-left",
            CssKnownProperty::PaddingLeft,
            "padding-left",
            "#propdef-padding-left",
            &[],
        ),
        CssFeatureMetadata::spec_complete_property(
            "baseline.property.border",
            CssKnownProperty::Border,
            "border",
            "#propdef-border",
            &[],
        ),
        CssFeatureMetadata::spec_complete_property(
            "baseline.property.border-top",
            CssKnownProperty::BorderTop,
            "border-top",
            "#propdef-border-top",
            &[],
        ),
        CssFeatureMetadata::spec_complete_property(
            "baseline.property.border-right",
            CssKnownProperty::BorderRight,
            "border-right",
            "#propdef-border-right",
            &[],
        ),
        CssFeatureMetadata::spec_complete_property(
            "baseline.property.border-bottom",
            CssKnownProperty::BorderBottom,
            "border-bottom",
            "#propdef-border-bottom",
            &[],
        ),
        CssFeatureMetadata::spec_complete_property(
            "baseline.property.border-left",
            CssKnownProperty::BorderLeft,
            "border-left",
            "#propdef-border-left",
            &[],
        ),
        CssFeatureMetadata::spec_complete_property(
            "baseline.property.border-width",
            CssKnownProperty::BorderWidth,
            "border-width",
            "#propdef-border-width",
            &[],
        ),
        CssFeatureMetadata::spec_complete_property(
            "baseline.property.border-top-width",
            CssKnownProperty::BorderTopWidth,
            "border-top-width",
            "#propdef-border-top-width",
            &[],
        ),
        CssFeatureMetadata::spec_complete_property(
            "baseline.property.border-right-width",
            CssKnownProperty::BorderRightWidth,
            "border-right-width",
            "#propdef-border-right-width",
            &[],
        ),
        CssFeatureMetadata::spec_complete_property(
            "baseline.property.border-bottom-width",
            CssKnownProperty::BorderBottomWidth,
            "border-bottom-width",
            "#propdef-border-bottom-width",
            &[],
        ),
        CssFeatureMetadata::spec_complete_property(
            "baseline.property.border-left-width",
            CssKnownProperty::BorderLeftWidth,
            "border-left-width",
            "#propdef-border-left-width",
            &[],
        ),
    ]
}

/// Builds the records of this part of the catalog; every record is well formed.
#[verifier::rlimit(40)]
pub(crate) fn feature_records() -> (records: Vec<CssFeatureMetadata>)
    ensures
        records@ == features(),
        forall|i: int| 0 <= i < records@.len() ==> (#[trigger] records@[i]).wf(),
{
    proof {
        reveal(features);
    }
    let mut records = Vec::new();
    push_feature(&mut records, CssFeatureMetadata::partial_property(
        "baseline.property.writing-mode",
        CssKnownProperty::WritingMode,
        "writing-mode",
        "#propdef-writing-mode",
        &[],
    ));
    push_feature(&mut records, CssFeatureMetadata::partial_property(
        "baseline.property.text-align",
        CssKnownProperty::TextAlign,
        "text-align",
        "#propdef-text-align",
        &[],
    ));
    push_feature(&mut records, CssFeatureMetadata::partial_property(
        "baseline.property.text-align-last",
        CssKnownProperty::TextAlignLast,
        "text-align-last",
        "#propdef-text-align-last",
        &[],
    ));
    push_feature(&mut records, CssFeatureMetadata::partial_property(
        "baseline.property.text-indent",
        CssKnownProperty::TextIndent,
        "text-indent",
        "#propdef-text-indent",
        &[],
    ));
    push_feature(&mut records, CssFeatureMetadata::partial_property(
        "baseline.property.vertical-align",
        CssKnownProperty::VerticalAlign,
        "vertical-align",
        "#propdef-vertical-align",
        &[],
    ));
    push_feature(&mut records, CssFeatureMetadata::complete_property(
        "baseline.property.font-family",
        CssKnownProperty::FontFamily,
        "font-family",
        "#propdef-font-family",
        &[],
    ));
    push_feature(&mut records, CssFeatureMetadata::complete_property(
        "baseline.property.font",
        CssKnownProperty::Font,
        "font",
        "#propdef-font",
        &[],
    ));
    push_feature(&mut records, CssFeatureMetadata::complete_property(
        "baseline.property.font-weight",
        CssKnownProperty::FontWeight,
        "font-weight",
        "#propdef-font-weight",
        &[],
    ));
    push_feature(&mut records, CssFeatureMetadata::complete_property(
        "baseline.property.font-style",
        CssKnownProperty::FontStyle,
        "font-style",
        "#propdef-font-style",
        &[],
    ));
    push_feature(&mut records, CssFeatureMetadata::complete_property(
        "baseline.property.font-stretch",
        CssKnownProperty::FontStretch,
        "font-stretch",
        "#propdef-font-stretch",
        &[],
    ));
    push_feature(&mut records, CssFeatureMetadata::complete_property(
        "baseline.property.font-variant",
        CssKnownProperty::FontVariant,
        "font-variant",
        "#propdef-font-variant",
        &[],
    ));
    push_feature(&mut records, CssFeatureMetadata::complete_property(
        "official.property.font-variant-caps",
        CssKnownProperty::FontVariantCaps,
        "font-variant-caps",
        "#propdef-font-variant-caps",
        &[],
    ));
    push_feature(&mut records, CssFeatureMetadata::complete_property(
        "official.property.font-variant-east-asian",
        CssKnownProperty::FontVariantEastAsian,
        "font-variant-east-asian",
        "#propdef-font-variant-east-asian",
        &[],
    ));
    push_feature(&mut records, CssFeatureMetadata::complete_property(
        "official.property.font-variant-ligatures",
        CssKnownProperty::FontVariantLigatures,
        "font-variant-ligatures",
        "#propdef-font-variant-ligatures",
        &[],
    ));
    push_feature(&mut records, CssFeatureMetadata::complete_property(
        "official.property.font-variant-numeric",
        CssKnownProperty::FontVariantNumeric,
        "font-variant-numeric",
        "#propdef-font-variant-numeric",
        &[],
    ));
    push_feature(&mut records, CssFeatureMetadata::complete_property(
        "official.property.font-variant-position",
        CssKnownProperty::FontVariantPosition,
        "font-variant-position",
        "#propdef-font-variant-position",
        &[],
    ));
    push_feature(&mut records, CssFeatureMetadata::complete_property(
        "baseline.property.font-feature-settings",
        CssKnownProperty::FontFeatureSettings,
        "font-feature-settings",
        "#propdef-font-feature-settings",
        &[],
    ));
    push_feature(&mut records, CssFeatureMetadata::complete_property(
        "official.property.font-kerning",
        CssKnownProperty::FontKerning,
        "font-kerning",
        "#propdef-font-kerning",
        &[],
    ));
    push_feature(&mut records, CssFeatureMetadata::complete_property(
        "official.property.font-size-adjust",
        CssKnownProperty::FontSizeAdjust,
        "font-size-adjust",
        "#propdef-font-size-adjust",
        &[],
    ));
    push_feature(&mut records, CssFeatureMetadata::complete_property(
        "official.property.font-synthesis",
        CssKnownProperty::FontSynthesis,
        "font-synthesis",
        "#propdef-font-synthesis",
        &[],
    ));
    push_feature(&mut records, CssFeatureMetadata::partial(
        "ext.property.font-weight-range",
        CssFeatureKind::Property,
        "font-weight numeric range",
        i_fonts4(),
        "#font-weight-prop",
        texts::font_weight_range_subset(),
        texts::font_weight_range_remainder(),
    ));
    push_feature(&mut records, CssFeatureMetadata::partial_property(
        "baseline.property.letter-spacing",
        CssKnownProperty::LetterSpacing,
        "letter-spacing",
        "#propdef-letter-spacing",
        &[],
    ));
    push_feature(&mut records, CssFeatureMetadata::partial_property(
        "baseline.property.text-wrap",
        CssKnownProperty::TextWrap,
        "text-wrap",
        "#propdef-text-wrap",
        &[],
    ));
    push_feature(&mut records, CssFeatureMetadata::partial_property(
        "baseline.property.white-space",
        CssKnownProperty::WhiteSpace,
        "white-space",
        "#propdef-white-space",
        &[],
    ));
    push_feature(&mut records, CssFeatureMetadata::partial_property(
        "baseline.property.word-break",
        CssKnownProperty::WordBreak,
        "word-break",
        "#propdef-word-break",
        &[],
    ));
    push_feature(&mut records, CssFeatureMetadata::partial_property(
        "baseline.property.overflow-wrap",
        CssKnownProperty::OverflowWrap,
        "overflow-wrap",
        "#propdef-overflow-wrap",
        &[],
    ));
    push_feature(&mut records, CssFeatureMetadata::partial_property(
        "baseline.property.text-overflow",
        CssKnownProperty::TextOverflow,
        "text-overflow",
        "#propdef-text-overflow",
        &[],
    ));
    push_feature(&mut records, CssFeatureMetadata::partial_property(
        "baseline.property.text-decoration",
        CssKnownProperty::TextDecoration,
        "text-decoration",
        "#propdef-text-decoration",
        &[],
    ));
    push_feature(&mut records, CssFeatureMetadata::partial_property(
        "baseline.property.text-decoration-line",
        CssKnownProperty::TextDecorationLine,
        "text-decoration-line",
        "#propdef-text-decoration-line",
        &[],
    ));
    push_feature(&mut records, CssFeatureMetadata::partial_property(
        "baseline.property.text-decoration-color",
        CssKnownProperty::TextDecorationColor,
        "text-decoration-color",
        "#propdef-text-decoration-color",
        &[],
    ));
    push_feature(&mut records, CssFeatureMetadata::partial_property(
        "baseline.property.text-decoration-style",
        CssKnownProperty::TextDecorationStyle,
        "text-decoration-style",
        "#propdef-text-decoration-style",
        &[],
    ));
    push_feature(&mut records, CssFeatureMetadata::partial_property(
        "baseline.property.text-decoration-thickness",
        CssKnownProperty::TextDecorationThickness,
        "text-decoration-thickness",
        "#propdef-text-decoration-thickness",
        &[],
    ));
    push_feature(&mut records, CssFeatureMetadata::partial_property(
        "baseline.property.text-transform",
        CssKnownProperty::TextTransform,
        "text-transform",
        "#propdef-text-transform",
        &[],
    ));
    push_feature(&mut records, CssFeatureMetadata::partial_property(
        "baseline.property.inset",
        CssKnownProperty::Inset,
        "inset",
        "#propdef-inset",
        &[],
    ));
    push_feature(&mut records, CssFeatureMetadata::partial_property(
        "baseline.property.top",
        CssKnownProperty::Top,
        "top",
        "#propdef-top",
        &[],
    ));
    push_feature(&mut records, CssFeatureMetadata::partial_property(
        "baseline.property.right",
        CssKnownProperty::Right,
        "right",
        "#propdef-right",
        &[],
    ));
    push_feature(&mut records, CssFeatureMetadata::partial_property(
        "baseline.property.bottom",
        CssKnownProperty::Bottom,
        "bottom",
        "#propdef-bottom",
        &[],
    ));
    push_feature(&mut records, CssFeatureMetadata::partial_property(
        "baseline.property.left",
        CssKnownProperty::Left,
        "left",
        "#propdef-left",
        &[],
    ));
    push_feature(&mut records, CssFeatureMetadata::partial_property(
        "baseline.property.z-index",
        CssKnownProperty::ZIndex,
        "z-index",
        "#propdef-z-index",
        &[],
    ));
    push_feature(&mut records, CssFeatureMetadata::partial_property(
        "baseline.property.box-decoration-break",
        CssKnownProperty::BoxDecorationBreak,
        "box-decoration-break",
        "#propdef-box-decoration-break",
        &[],
    ));
    push_feature(&mut records, CssFeatureMetadata::partial_property(
        "baseline.property.margin",
        CssKnownProperty::Margin,
        "margin",
        "#propdef-margin",
        &[],
    ));
    push_feature(&mut records, CssFeatureMetadata::partial_property(
        "baseline.property.margin-top",
        CssKnownProperty::MarginTop,
        "margin-top",
        "#propdef-margin-top",
        &[],
    ));
    push_feature(&mut records, CssFeatureMetadata::partial_property(
        "baseline.property.margin-right",
        CssKnownProperty::MarginRight,
        "margin-right",
        "#propdef-margin-right",
        &[],
    ));
    push_feature(&mut records, CssFeatureMetadata::partial_property(
        "baseline.property.margin-bottom",
        CssKnownProperty::MarginBottom,
        "margin-bottom",
        "#propdef-margin-bottom",
        &[],
    ));
    push_feature(&mut records, CssFeatureMetadata::partial_property(
        "baseline.property.margin-left",
        CssKnownProperty::MarginLeft,
        "margin-left",
        "#propdef-margin-left",
        &[],
    ));
    push_feature(&mut records, CssFeatureMetadata::partial_property(
        "baseline.property.padding",
        CssKnownProperty::Padding,
        "padding",
        "#propdef-padding",
        &[],
    ));
    push_feature(&mut records, CssFeatureMetadata::partial_property(
        "baseline.property.padding-top",
        CssKnownProperty::PaddingTop,
        "padding-top",
        "#propdef-padding-top",
        &[],
    ));
    push_feature(&mut records, CssFeatureMetadata::partial_property(
        "baseline.property.padding-right",
        CssKnownProperty::PaddingRight,
        "padding-right",
        "#propdef-padding-right",
        &[],
    ));
    push_feature(&mut records, CssFeatureMetadata::partial_property(
        "baseline.property.padding-bottom",
        CssKnownProperty::PaddingBottom,
        "padding-bottom",
        "#propdef-padding-bottom",
        &[],
    ));
    push_feature(&mut records, CssFeatureMetadata::partial_property(
        "baseline.property.padding-left",
        CssKnownProperty::PaddingLeft,
        "padding-left",
        "#propdef-padding-left",
        &[],
    ));
    push_feature(&mut records, CssFeatureMetadata::complete_property(
        "baseline.property.border",
        CssKnownProperty::Border,
        "border",
        "#propdef-border",
        &[],
    ));
    push_feature(&mut records, CssFeatureMetadata::complete_property(
        "baseline.property.border-top",
        CssKnownProperty::BorderTop,
        "border-top",
        "#propdef-border-top",
        &[],
    ));
    push_feature(&mut records, CssFeatureMetadata::complete_property(
        "baseline.property.border-right",
        CssKnownProperty::BorderRight,
        "border-right",
        "#propdef-border-right",
        &[],
    ));
    push_feature(&mut records, CssFeatureMetadata::complete_property(
        "baseline.property.border-bottom",
        CssKnownProperty::BorderBottom,
        "border-bottom",
        "#propdef-border-bottom",
        &[],
    ));
    push_feature(&mut records, CssFeatureMetadata::complete_property(
        "baseline.property.border-left",
        CssKnownProperty::BorderLeft,
        "border-left",
        "#propdef-border-left",
        &[],
    ));
    push_feature(&mut records, CssFeatureMetadata::complete_property(
        "baseline.property.border-width",
        CssKnownProperty::BorderWidth,
        "border-width",
        "#propdef-border-width",
        &[],
    ));
    push_feature(&mut records, CssFeatureMetadata::complete_property(
        "baseline.property.border-top-width",
        CssKnownProperty::BorderTopWidth,
        "border-top-width",
        "#propdef-border-top-width",
        &[],
    ));
    push_feature(&mut records, CssFeatureMetadata::complete_property(
        "baseline.property.border-right-width",
        CssKnownProperty::BorderRightWidth,
        "border-right-width",
        "#propdef-border-right-width",
        &[],
    ));
    push_feature(&mut records, CssFeatureMetadata::complete_property(
        "baseline.property.border-bottom-width",
        CssKnownProperty::BorderBottomWidth,
        "border-bottom-width",
        "#propdef-border-bottom-width",
        &[],
    ));
    push_feature(&mut records, CssFeatureMetadata::complete_property(
        "baseline.property.border-left-width",
        CssKnownProperty::BorderLeftWidth,
        "border-left-width",
        "#propdef-border-left-width",
        &[],
    ));
    records
}

/// This part of the catalog holds 60 records.
pub proof fn lemma_features_len()
    ensures
        features().len() == 60,
{
    reveal(features);
}

/// The alias records of this part, the atomic targets they name, and the identities of the
/// records those targets name; every other record has no targets.
#[verifier::rlimit(100)]
pub proof fn lemma_alias_facts()
    ensures
        forall|i: int| 0 <= i < features().len() ==> #[trigger] features()[i].spec_baseline_alias_targets().len() == 0,
{
    broadcast use {
        CssFeatureMetadata::lemma_complete_parts,
        CssFeatureMetadata::lemma_partial_parts,
        CssFeatureMetadata::lemma_baseline_alias_parts,
        CssFeatureMetadata::lemma_recognized_unsupported_parts,
        CssFeatureMetadata::lemma_partial_property_parts,
        CssFeatureMetadata::lemma_complete_property_parts,
        CssFeatureMetadata::lemma_partial_property_with_boundary_parts,
    };

    reveal(features);
    assert(features()[0].spec_baseline_alias_targets().len() == 0);
    assert(features()[1].spec_baseline_alias_targets().len() == 0);
    assert(features()[2].spec_baseline_alias_targets().len() == 0);
    assert(features()[3].spec_baseline_alias_targets().len() == 0);
    assert(features()[4].spec_baseline_alias_targets().len() == 0);
    assert(features()[5].spec_baseline_alias_targets().len() == 0);
    assert(features()[6].spec_baseline_alias_targets().len() == 0);
    assert(features()[7].spec_baseline_alias_targets().len() == 0);
    assert(features()[8].spec_baseline_alias_targets().len() == 0);
    assert(features()[9].spec_baseline_alias_targets().len() == 0);
    assert(features()[10].spec_baseline_alias_targets().len() == 0);
    assert(features()[11].spec_baseline_alias_targets().len() == 0);
    assert(features()[12].spec_baseline_alias_targets().len() == 0);
    assert(features()[13].spec_baseline_alias_targets().len() == 0);
    assert(features()[14].spec_baseline_alias_targets().len() == 0);
    assert(features()[15].spec_baseline_alias_targets().len() == 0);
    assert(features()[16].spec_baseline_alias_targets().len() == 0);
    assert(features()[17].spec_baseline_alias_targets().len() == 0);
    assert(features()[18].spec_baseline_alias_targets().len() == 0);
    assert(features()[19].spec_baseline_alias_targets().len() == 0);
    assert(features()[20].spec_baseline_alias_targets().len() == 0);
    assert(features()[21].spec_baseline_alias_targets().len() == 0);
    assert(features()[22].spec_baseline_alias_targets().len() == 0);
    assert(features()[23].spec_baseline_alias_targets().len() == 0);
    assert(features()[24].spec_baseline_alias_targets().len() == 0);
    assert(features()[25].spec_baseline_alias_targets().len() == 0);
    assert(features()[26].spec_baseline_alias_targets().len() == 0);
    assert(features()[27].spec_baseline_alias_targets().len() == 0);
    assert(features()[28].spec_baseline_alias_targets().len() == 0);
    assert(features()[29].spec_baseline_alias_targets().len() == 0);
    assert(features()[30].spec_baseline_alias_targets().len() == 0);
    assert(features()[31].spec_baseline_alias_targets().len() == 0);
    assert(features()[32].spec_baseline_alias_targets().len() == 0);
    assert(features()[33].spec_baseline_alias_targets().len() == 0);
    assert(features()[34].spec_baseline_alias_targets().len() == 0);
    assert(features()[35].spec_baseline_alias_targets().len() == 0);
    assert(features()[36].spec_baseline_alias_targets().len() == 0);
    assert(features()[37].spec_baseline_alias_targets().len() == 0);
    assert(features()[38].spec_baseline_alias_targets().len() == 0);
    assert(features()[39].spec_baseline_alias_targets().len() == 0);
    assert(features()[40].spec_baseline_alias_targets().len() == 0);
    assert(features()[41].spec_baseline_alias_targets().len() == 0);
    assert(features()[42].spec_baseline_alias_targets().len() == 0);
    assert(features()[43].spec_baseline_alias_targets().len() == 0);
    assert(features()[44].spec_baseline_alias_targets().len() == 0);
    assert(features()[45].spec_baseline_alias_targets().len() == 0);
    assert(features()[46].spec_baseline_alias_targets().len() == 0);
    assert(features()[47].spec_baseline_alias_targets().len() == 0);
    assert(features()[48].spec_baseline_alias_targets().len() == 0);
    assert(features()[49].spec_baseline_alias_targets().len() == 0);
    assert(features()[50].spec_baseline_alias_targets().len() == 0);
    assert(features()[51].spec_baseline_alias_targets().len() == 0);
    assert(features()[52].spec_baseline_alias_targets().len() == 0);
    assert(features()[53].spec_baseline_alias_targets().len() == 0);
    assert(features()[54].spec_baseline_alias_targets().len() == 0);
    assert(features()[55].spec_baseline_alias_targets().len() == 0);
    assert(features()[56].spec_baseline_alias_targets().len() == 0);
    assert(features()[57].spec_baseline_alias_targets().len() == 0);
    assert(features()[58].spec_baseline_alias_targets().len() == 0);
    assert(features()[59].spec_baseline_alias_targets().len() == 0);
}

} // verus!
