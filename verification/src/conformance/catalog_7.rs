//! Support-catalog records 361 through 420 in stable inventory order.
use vstd::prelude::*;

use crate::properties::CssKnownProperty;
use super::sources::{o_selectors3, o_writing3};
use crate::error::CssFeatureId;
use super::{texts, push_feature, CssFeatureKind, CssFeatureMetadata};

verus! {

broadcast use super::property_sources::lemma_property_source_wf;

/// The records of this part of the catalog, in stable inventory order.
#[verifier::opaque]
pub open spec fn features() -> Seq<CssFeatureMetadata> {
    seq![
        CssFeatureMetadata::spec_partial_property(
            "baseline.property.mask",
            CssKnownProperty::Mask,
            "mask",
            "#propdef-mask",
            &[],
        ),
        CssFeatureMetadata::spec_partial_property(
            "baseline.property.mask-image",
            CssKnownProperty::MaskImage,
            "mask-image",
            "#propdef-mask-image",
            &[],
        ),
        CssFeatureMetadata::spec_partial_property(
            "baseline.property.mask-size",
            CssKnownProperty::MaskSize,
            "mask-size",
            "#propdef-mask-size",
            &[],
        ),
        CssFeatureMetadata::spec_complete_property(
            "baseline.property.mask-position",
            CssKnownProperty::MaskPosition,
            "mask-position",
            "#propdef-mask-position",
            &[],
        ),
        CssFeatureMetadata::spec_partial_property(
            "baseline.property.mask-repeat",
            CssKnownProperty::MaskRepeat,
            "mask-repeat",
            "#propdef-mask-repeat",
            &[],
        ),
        CssFeatureMetadata::spec_partial_property(
            "baseline.property.transition-property",
            CssKnownProperty::TransitionProperty,
            "transition-property",
            "#propdef-transition-property",
            &[],
        ),
        CssFeatureMetadata::spec_complete_property(
            "baseline.property.transition-duration",
            CssKnownProperty::TransitionDuration,
            "transition-duration",
            "#propdef-transition-duration",
            &[],
        ),
        CssFeatureMetadata::spec_complete_property(
            "baseline.property.transition-delay",
            CssKnownProperty::TransitionDelay,
            "transition-delay",
            "#propdef-transition-delay",
            &[],
        ),
        CssFeatureMetadata::spec_complete_property(
            "baseline.property.transition-timing-function",
            CssKnownProperty::TransitionTimingFunction,
            "transition-timing-function",
            "#propdef-transition-timing-function",
            &[],
        ),
        CssFeatureMetadata::spec_partial_property_with_boundary(
            "baseline.property.transition",
            CssKnownProperty::Transition,
            "transition",
            "#propdef-transition",
            &[],
            texts::timing_subset(),
            texts::timing_remainder(),
        ),
        CssFeatureMetadata::spec_partial_property(
            "baseline.property.animation-name",
            CssKnownProperty::AnimationName,
            "animation-name",
            "#propdef-animation-name",
            &[],
        ),
        CssFeatureMetadata::spec_complete_property(
            "baseline.property.animation-duration",
            CssKnownProperty::AnimationDuration,
            "animation-duration",
            "#propdef-animation-duration",
            &[],
        ),
        CssFeatureMetadata::spec_complete_property(
            "baseline.property.animation-delay",
            CssKnownProperty::AnimationDelay,
            "animation-delay",
            "#propdef-animation-delay",
            &[],
        ),
        CssFeatureMetadata::spec_complete_property(
            "baseline.property.animation-timing-function",
            CssKnownProperty::AnimationTimingFunction,
            "animation-timing-function",
            "#propdef-animation-timing-function",
            &[],
        ),
        CssFeatureMetadata::spec_complete_property(
            "baseline.property.animation-iteration-count",
            CssKnownProperty::AnimationIterationCount,
            "animation-iteration-count",
            "#propdef-animation-iteration-count",
            &[],
        ),
        CssFeatureMetadata::spec_partial_property(
            "baseline.property.animation-direction",
            CssKnownProperty::AnimationDirection,
            "animation-direction",
            "#propdef-animation-direction",
            &[],
        ),
        CssFeatureMetadata::spec_partial_property(
            "baseline.property.animation-fill-mode",
            CssKnownProperty::AnimationFillMode,
            "animation-fill-mode",
            "#propdef-animation-fill-mode",
            &[],
        ),
        CssFeatureMetadata::spec_partial_property(
            "baseline.property.animation-play-state",
            CssKnownProperty::AnimationPlayState,
            "animation-play-state",
            "#propdef-animation-play-state",
            &[],
        ),
        CssFeatureMetadata::spec_partial_property_with_boundary(
            "baseline.property.animation",
            CssKnownProperty::Animation,
            "animation",
            "#propdef-animation",
            &[],
            texts::timing_subset(),
            texts::timing_remainder(),
        ),
        CssFeatureMetadata::spec_complete_property(
            "official.property.border-collapse",
            CssKnownProperty::BorderCollapse,
            "border-collapse",
            "tables.html#propdef-border-collapse",
            &[],
        ),
        CssFeatureMetadata::spec_complete_property(
            "official.property.border-spacing",
            CssKnownProperty::BorderSpacing,
            "border-spacing",
            "tables.html#propdef-border-spacing",
            &[],
        ),
        CssFeatureMetadata::spec_complete_property(
            "official.property.caption-side",
            CssKnownProperty::CaptionSide,
            "caption-side",
            "tables.html#propdef-caption-side",
            &[],
        ),
        CssFeatureMetadata::spec_complete_property(
            "official.property.clip",
            CssKnownProperty::Clip,
            "clip",
            "visufx.html#propdef-clip",
            &[],
        ),
        CssFeatureMetadata::spec_complete_property(
            "official.property.empty-cells",
            CssKnownProperty::EmptyCells,
            "empty-cells",
            "tables.html#propdef-empty-cells",
            &[],
        ),
        CssFeatureMetadata::spec_complete_property(
            "official.property.orphans",
            CssKnownProperty::Orphans,
            "orphans",
            "page.html#propdef-orphans",
            &[],
        ),
        CssFeatureMetadata::spec_complete_property(
            "official.property.page-break-after",
            CssKnownProperty::PageBreakAfter,
            "page-break-after",
            "page.html#propdef-page-break-after",
            &[],
        ),
        CssFeatureMetadata::spec_complete_property(
            "official.property.page-break-before",
            CssKnownProperty::PageBreakBefore,
            "page-break-before",
            "page.html#propdef-page-break-before",
            &[],
        ),
        CssFeatureMetadata::spec_complete_property(
            "official.property.page-break-inside",
            CssKnownProperty::PageBreakInside,
            "page-break-inside",
            "page.html#propdef-page-break-inside",
            &[],
        ),
        CssFeatureMetadata::spec_complete_property(
            "official.property.quotes",
            CssKnownProperty::Quotes,
            "quotes",
            "generate.html#propdef-quotes",
            &[],
        ),
        CssFeatureMetadata::spec_complete_property(
            "official.property.table-layout",
            CssKnownProperty::TableLayout,
            "table-layout",
            "tables.html#propdef-table-layout",
            &[],
        ),
        CssFeatureMetadata::spec_complete_property(
            "official.property.widows",
            CssKnownProperty::Widows,
            "widows",
            "page.html#propdef-widows",
            &[],
        ),
        CssFeatureMetadata::spec_complete_property(
            "official.property.word-spacing",
            CssKnownProperty::WordSpacing,
            "word-spacing",
            "text.html#propdef-word-spacing",
            &[],
        ),
        CssFeatureMetadata::spec_complete_property(
            "official.property.text-combine-upright",
            CssKnownProperty::TextCombineUpright,
            "text-combine-upright",
            "#propdef-text-combine-upright",
            &[],
        ),
        CssFeatureMetadata::spec_complete_property(
            "official.property.text-orientation",
            CssKnownProperty::TextOrientation,
            "text-orientation",
            "#propdef-text-orientation",
            &[],
        ),
        CssFeatureMetadata::spec_complete_property(
            "official.property.unicode-bidi",
            CssKnownProperty::UnicodeBidi,
            "unicode-bidi",
            "#propdef-unicode-bidi",
            &[],
        ),
        CssFeatureMetadata::spec_complete_property(
            "official.property.caret-color",
            CssKnownProperty::CaretColor,
            "caret-color",
            "#propdef-caret-color",
            &[],
        ),
        CssFeatureMetadata::spec_complete_property(
            "official.property.outline-offset",
            CssKnownProperty::OutlineOffset,
            "outline-offset",
            "#propdef-outline-offset",
            &[],
        ),
        CssFeatureMetadata::spec_complete_property(
            "official.property.resize",
            CssKnownProperty::Resize,
            "resize",
            "#propdef-resize",
            &[],
        ),
        CssFeatureMetadata::spec_complete_property(
            "official.property.contain",
            CssKnownProperty::Contain,
            "contain",
            "#propdef-contain",
            &[],
        ),
        CssFeatureMetadata::spec_complete_property(
            "official.property.transform-box",
            CssKnownProperty::TransformBox,
            "transform-box",
            "#propdef-transform-box",
            &[],
        ),
        CssFeatureMetadata::spec_complete_property(
            "official.property.background-blend-mode",
            CssKnownProperty::BackgroundBlendMode,
            "background-blend-mode",
            "#propdef-background-blend-mode",
            &[],
        ),
        CssFeatureMetadata::spec_complete_property(
            "official.property.isolation",
            CssKnownProperty::Isolation,
            "isolation",
            "#propdef-isolation",
            &[],
        ),
        CssFeatureMetadata::spec_complete_property(
            "official.property.mix-blend-mode",
            CssKnownProperty::MixBlendMode,
            "mix-blend-mode",
            "#propdef-mix-blend-mode",
            &[],
        ),
        CssFeatureMetadata::spec_complete(
            "official.property-alias.glyph-orientation-vertical",
            CssFeatureKind::PropertyAlias,
            "glyph-orientation-vertical",
            o_writing3(),
            "#propdef-glyph-orientation-vertical",
        ),
        CssFeatureMetadata::spec_complete(
            "official.selector.group",
            CssFeatureKind::Selector,
            "comma-separated selector groups",
            o_selectors3(),
            "#grouping",
        ),
        CssFeatureMetadata::spec_complete(
            "official.selector.type",
            CssFeatureKind::Selector,
            "type selectors",
            o_selectors3(),
            "#type-selectors",
        ),
        CssFeatureMetadata::spec_complete(
            "official.selector.universal",
            CssFeatureKind::Selector,
            "universal selector *",
            o_selectors3(),
            "#universal-selector",
        ),
        CssFeatureMetadata::spec_complete(
            "official.selector.attribute-presence-value",
            CssFeatureKind::Selector,
            "[attr], [attr=value], [attr~=value], [attr|=value]",
            o_selectors3(),
            "#attribute-representation",
        ),
        CssFeatureMetadata::spec_complete(
            "official.selector.attribute-substring",
            CssFeatureKind::Selector,
            "[attr^=value], [attr$=value], [attr*=value]",
            o_selectors3(),
            "#attribute-substrings",
        ),
        CssFeatureMetadata::spec_complete(
            "official.selector.class",
            CssFeatureKind::Selector,
            ".class",
            o_selectors3(),
            "#class-html",
        ),
        CssFeatureMetadata::spec_complete(
            "official.selector.id",
            CssFeatureKind::Selector,
            "#id",
            o_selectors3(),
            "#id-selectors",
        ),
        CssFeatureMetadata::spec_complete(
            "official.selector.dynamic",
            CssFeatureKind::Selector,
            ":link, :visited, :hover, :active, :focus",
            o_selectors3(),
            "#dynamic-pseudos",
        ),
        CssFeatureMetadata::spec_complete(
            "official.selector.target",
            CssFeatureKind::Selector,
            ":target",
            o_selectors3(),
            "#target-pseudo",
        ),
        CssFeatureMetadata::spec_complete(
            "official.selector.lang",
            CssFeatureKind::Selector,
            ":lang()",
            o_selectors3(),
            "#lang-pseudo",
        ),
        CssFeatureMetadata::spec_complete(
            "official.selector.ui-state",
            CssFeatureKind::Selector,
            ":enabled, :disabled, :checked, :indeterminate",
            o_selectors3(),
            "#UIstates",
        ),
        CssFeatureMetadata::spec_complete(
            "official.selector.structural",
            CssFeatureKind::Selector,
            "Selectors 3 structural pseudo-classes",
            o_selectors3(),
            "#structural-pseudos",
        ),
        CssFeatureMetadata::spec_complete(
            "official.selector.negation",
            CssFeatureKind::Selector,
            ":not()",
            o_selectors3(),
            "#negation",
        ),
        CssFeatureMetadata::spec_complete(
            "official.selector.first-line",
            CssFeatureKind::Selector,
            ":first-line, ::first-line",
            o_selectors3(),
            "#first-line",
        ),
        CssFeatureMetadata::spec_complete(
            "official.selector.first-letter",
            CssFeatureKind::Selector,
            ":first-letter, ::first-letter",
            o_selectors3(),
            "#first-letter",
        ),
        CssFeatureMetadata::spec_complete(
            "official.selector.generated",
            CssFeatureKind::Selector,
            "::before, ::after",
            o_selectors3(),
            "#gen-content",
        ),
    ]
}

/// Builds the records of this part of the catalog; every record is well formed.
#[verifier::rlimit(40)]
pub(crate) fn feature_records() -> (records: Vec<CssFeatureMetadata>)
    ensures
        records@ == features(),
        forall|i: int| 0 <= i < records@.len() ==> (#[trigger] records@[i]).wf(),
{
    proof {
        reveal(features);
    }
    let mut records = Vec::new();
    push_feature(&mut records, CssFeatureMetadata::partial_property(
        "baseline.property.mask",
        CssKnownProperty::Mask,
        "mask",
        "#propdef-mask",
        &[],
    ));
    push_feature(&mut records, CssFeatureMetadata::partial_property(
        "baseline.property.mask-image",
        CssKnownProperty::MaskImage,
        "mask-image",
        "#propdef-mask-image",
        &[],
    ));
    push_feature(&mut records, CssFeatureMetadata::partial_property(
        "baseline.property.mask-size",
        CssKnownProperty::MaskSize,
        "mask-size",
        "#propdef-mask-size",
        &[],
    ));
    push_feature(&mut records, CssFeatureMetadata::complete_property(
        "baseline.property.mask-position",
        CssKnownProperty::MaskPosition,
        "mask-position",
        "#propdef-mask-position",
        &[],
    ));
    push_feature(&mut records, CssFeatureMetadata::partial_property(
        "baseline.property.mask-repeat",
        CssKnownProperty::MaskRepeat,
        "mask-repeat",
        "#propdef-mask-repeat",
        &[],
    ));
    push_feature(&mut records, CssFeatureMetadata::partial_property(
        "baseline.property.transition-property",
        CssKnownProperty::TransitionProperty,
        "transition-property",
        "#propdef-transition-property",
        &[],
    ));
    push_feature(&mut records, CssFeatureMetadata::complete_property(
        "baseline.property.transition-duration",
        CssKnownProperty::TransitionDuration,
        "transition-duration",
        "#propdef-transition-duration",
        &[],
    ));
    push_feature(&mut records, CssFeatureMetadata::complete_property(
        "baseline.property.transition-delay",
        CssKnownProperty::TransitionDelay,
        "transition-delay",
        "#propdef-transition-delay",
        &[],
    ));
    push_feature(&mut records, CssFeatureMetadata::complete_property(
        "baseline.property.transition-timing-function",
        CssKnownProperty::TransitionTimingFunction,
        "transition-timing-function",
        "#propdef-transition-timing-function",
        &[],
    ));
    push_feature(&mut records, CssFeatureMetadata::partial_property_with_boundary(
        "baseline.property.transition",
        CssKnownProperty::Transition,
        "transition",
        "#propdef-transition",
        &[],
        texts::timing_subset(),
        texts::timing_remainder(),
    ));
    push_feature(&mut records, CssFeatureMetadata::partial_property(
        "baseline.property.animation-name",
        CssKnownProperty::AnimationName,
        "animation-name",
        "#propdef-animation-name",
        &[],
    ));
    push_feature(&mut records, CssFeatureMetadata::complete_property(
        "baseline.property.animation-duration",
        CssKnownProperty::AnimationDuration,
        "animation-duration",
        "#propdef-animation-duration",
        &[],
    ));
    push_feature(&mut records, CssFeatureMetadata::complete_property(
        "baseline.property.animation-delay",
        CssKnownProperty::AnimationDelay,
        "animation-delay",
        "#propdef-animation-delay",
        &[],
    ));
    push_feature(&mut records, CssFeatureMetadata::complete_property(
        "baseline.property.animation-timing-function",
        CssKnownProperty::AnimationTimingFunction,
        "animation-timing-function",
        "#propdef-animation-timing-function",
        &[],
    ));
    push_feature(&mut records, CssFeatureMetadata::complete_property(
        "baseline.property.animation-iteration-count",
        CssKnownProperty::AnimationIterationCount,
        "animation-iteration-count",
        "#propdef-animation-iteration-count",
        &[],
    ));
    push_feature(&mut records, CssFeatureMetadata::partial_property(
        "baseline.property.animation-direction",
        CssKnownProperty::AnimationDirection,
        "animation-direction",
        "#propdef-animation-direction",
        &[],
    ));
    push_feature(&mut records, CssFeatureMetadata::partial_property(
        "baseline.property.animation-fill-mode",
        CssKnownProperty::AnimationFillMode,
        "animation-fill-mode",
        "#propdef-animation-fill-mode",
        &[],
    ));
    push_feature(&mut records, CssFeatureMetadata::partial_property(
        "baseline.property.animation-play-state",
        CssKnownProperty::AnimationPlayState,
        "animation-play-state",
        "#propdef-animation-play-state",
        &[],
    ));
    push_feature(&mut records, CssFeatureMetadata::partial_property_with_boundary(
        "baseline.property.animation",
        CssKnownProperty::Animation,
        "animation",
        "#propdef-animation",
        &[],
        texts::timing_subset(),
        texts::timing_remainder(),
    ));
    push_feature(&mut records, CssFeatureMetadata::complete_property(
        "official.property.border-collapse",
        CssKnownProperty::BorderCollapse,
        "border-collapse",
        "tables.html#propdef-border-collapse",
        &[],
    ));
    push_feature(&mut records, CssFeatureMetadata::complete_property(
        "official.property.border-spacing",
        CssKnownProperty::BorderSpacing,
        "border-spacing",
        "tables.html#propdef-border-spacing",
        &[],
    ));
    push_feature(&mut records, CssFeatureMetadata::complete_property(
        "official.property.caption-side",
        CssKnownProperty::CaptionSide,
        "caption-side",
        "tables.html#propdef-caption-side",
        &[],
    ));
    push_feature(&mut records, CssFeatureMetadata::complete_property(
        "official.property.clip",
        CssKnownProperty::Clip,
        "clip",
        "visufx.html#propdef-clip",
        &[],
    ));
    push_feature(&mut records, CssFeatureMetadata::complete_property(
        "official.property.empty-cells",
        CssKnownProperty::EmptyCells,
        "empty-cells",
        "tables.html#propdef-empty-cells",
        &[],
    ));
    push_feature(&mut records, CssFeatureMetadata::complete_property(
        "official.property.orphans",
        CssKnownProperty::Orphans,
        "orphans",
        "page.html#propdef-orphans",
        &[],
    ));
    push_feature(&mut records, CssFeatureMetadata::complete_property(
        "official.property.page-break-after",
        CssKnownProperty::PageBreakAfter,
        "page-break-after",
        "page.html#propdef-page-break-after",
        &[],
    ));
    push_feature(&mut records, CssFeatureMetadata::complete_property(
        "official.property.page-break-before",
        CssKnownProperty::PageBreakBefore,
        "page-break-before",
        "page.html#propdef-page-break-before",
        &[],
    ));
    push_feature(&mut records, CssFeatureMetadata::complete_property(
        "official.property.page-break-inside",
        CssKnownProperty::PageBreakInside,
        "page-break-inside",
        "page.html#propdef-page-break-inside",
        &[],
    ));
    push_feature(&mut records, CssFeatureMetadata::complete_property(
        "official.property.quotes",
        CssKnownProperty::Quotes,
        "quotes",
        "generate.html#propdef-quotes",
        &[],
    ));
    push_feature(&mut records, CssFeatureMetadata::complete_property(
        "official.property.table-layout",
        CssKnownProperty::TableLayout,
        "table-layout",
        "tables.html#propdef-table-layout",
        &[],
    ));
    push_feature(&mut records, CssFeatureMetadata::complete_property(
        "official.property.widows",
        CssKnownProperty::Widows,
        "widows",
        "page.html#propdef-widows",
        &[],
    ));
    push_feature(&mut records, CssFeatureMetadata::complete_property(
        "official.property.word-spacing",
        CssKnownProperty::WordSpacing,
        "word-spacing",
        "text.html#propdef-word-spacing",
        &[],
    ));
    push_feature(&mut records, CssFeatureMetadata::complete_property(
        "official.property.text-combine-upright",
        CssKnownProperty::TextCombineUpright,
        "text-combine-upright",
        "#propdef-text-combine-upright",
        &[],
    ));
    push_feature(&mut records, CssFeatureMetadata::complete_property(
        "official.property.text-orientation",
        CssKnownProperty::TextOrientation,
        "text-orientation",
        "#propdef-text-orientation",
        &[],
    ));
    push_feature(&mut records, CssFeatureMetadata::complete_property(
        "official.property.unicode-bidi",
        CssKnownProperty::UnicodeBidi,
        "unicode-bidi",
        "#propdef-unicode-bidi",
        &[],
    ));
    push_feature(&mut records, CssFeatureMetadata::complete_property(
        "official.property.caret-color",
        CssKnownProperty::CaretColor,
        "caret-color",
        "#propdef-caret-color",
        &[],
    ));
    push_feature(&mut records, CssFeatureMetadata::complete_property(
        "official.property.outline-offset",
        CssKnownProperty::OutlineOffset,
        "outline-offset",
        "#propdef-outline-offset",
        &[],
    ));
    push_feature(&mut records, CssFeatureMetadata::complete_property(
        "official.property.resize",
        CssKnownProperty::Resize,
        "resize",
        "#propdef-resize",
        &[],
    ));
    push_feature(&mut records, CssFeatureMetadata::complete_property(
        "official.property.contain",
        CssKnownProperty::Contain,
        "contain",
        "#propdef-contain",
        &[],
    ));
    push_feature(&mut records, CssFeatureMetadata::complete_property(
        "official.property.transform-box",
        CssKnownProperty::TransformBox,
        "transform-box",
        "#propdef-transform-box",
        &[],
    ));
    push_feature(&mut records, CssFeatureMetadata::complete_property(
        "official.property.background-blend-mode",
        CssKnownProperty::BackgroundBlendMode,
        "background-blend-mode",
        "#propdef-background-blend-mode",
        &[],
    ));
    push_feature(&mut records, CssFeatureMetadata::complete_property(
        "official.property.isolation",
        CssKnownProperty::Isolation,
        "isolation",
        "#propdef-isolation",
        &[],
    ));
    push_feature(&mut records, CssFeatureMetadata::complete_property(
        "official.property.mix-blend-mode",
        CssKnownProperty::MixBlendMode,
        "mix-blend-mode",
        "#propdef-mix-blend-mode",
        &[],
    ));
    push_feature(&mut records, CssFeatureMetadata::complete(
        "official.property-alias.glyph-orientation-vertical",
        CssFeatureKind::PropertyAlias,
        "glyph-orientation-vertical",
        o_writing3(),
        "#propdef-glyph-orientation-vertical",
    ));
    push_feature(&mut records, CssFeatureMetadata::complete(
        "official.selector.group",
        CssFeatureKind::Selector,
        "comma-separated selector groups",
        o_selectors3(),
        "#grouping",
    ));
    push_feature(&mut records, CssFeatureMetadata::complete(
        "official.selector.type",
        CssFeatureKind::Selector,
        "type selectors",
        o_selectors3(),
        "#type-selectors",
    ));
    push_feature(&mut records, CssFeatureMetadata::complete(
        "official.selector.universal",
        CssFeatureKind::Selector,
        "universal selector *",
        o_selectors3(),
        "#universal-selector",
    ));
    push_feature(&mut records, CssFeatureMetadata::complete(
        "official.selector.attribute-presence-value",
        CssFeatureKind::Selector,
        "[attr], [attr=value], [attr~=value], [attr|=value]",
        o_selectors3(),
        "#attribute-representation",
    ));
    push_feature(&mut records, CssFeatureMetadata::complete(
        "official.selector.attribute-substring",
        CssFeatureKind::Selector,
        "[attr^=value], [attr$=value], [attr*=value]",
        o_selectors3(),
        "#attribute-substrings",
    ));
    push_feature(&mut records, CssFeatureMetadata::complete(
        "official.selector.class",
        CssFeatureKind::Selector,
        ".class",
        o_selectors3(),
        "#class-html",
    ));
    push_feature(&mut records, CssFeatureMetadata::complete(
        "official.selector.id",
        CssFeatureKind::Selector,
        "#id",
        o_selectors3(),
        "#id-selectors",
    ));
    push_feature(&mut records, CssFeatureMetadata::complete(
        "official.selector.dynamic",
        CssFeatureKind::Selector,
        ":link, :visited, :hover, :active, :focus",
        o_selectors3(),
        "#dynamic-pseudos",
    ));
    push_feature(&mut records, CssFeatureMetadata::complete(
        "official.selector.target",
        CssFeatureKind::Selector,
        ":target",
        o_selectors3(),
        "#target-pseudo",
    ));
    push_feature(&mut records, CssFeatureMetadata::complete(
        "official.selector.lang",
        CssFeatureKind::Selector,
        ":lang()",
        o_selectors3(),
        "#lang-pseudo",
    ));
    push_feature(&mut records, CssFeatureMetadata::complete(
        "official.selector.ui-state",
        CssFeatureKind::Selector,
        ":enabled, :disabled, :checked, :indeterminate",
        o_selectors3(),
        "#UIstates",
    ));
    push_feature(&mut records, CssFeatureMetadata::complete(
        "official.selector.structural",
        CssFeatureKind::Selector,
        "Selectors 3 structural pseudo-classes",
        o_selectors3(),
        "#structural-pseudos",
    ));
    push_feature(&mut records, CssFeatureMetadata::complete(
        "official.selector.negation",
        CssFeatureKind::Selector,
        ":not()",
        o_selectors3(),
        "#negation",
    ));
    push_feature(&mut records, CssFeatureMetadata::complete(
        "official.selector.first-line",
        CssFeatureKind::Selector,
        ":first-line, ::first-line",
        o_selectors3(),
        "#first-line",
    ));
    push_feature(&mut records, CssFeatureMetadata::complete(
        "official.selector.first-letter",
        CssFeatureKind::Selector,
        ":first-letter, ::first-letter",
        o_selectors3(),
        "#first-letter",
    ));
    push_feature(&mut records, CssFeatureMetadata::complete(
        "official.selector.generated",
        CssFeatureKind::Selector,
        "::before, ::after",
        o_selectors3(),
        "#gen-content",
    ));
    records
}

/// This part of the catalog holds 60 records.
pub proof fn lemma_features_len()
    ensures
        features().len() == 60,
{
    reveal(features);
}

/// The alias records of this part, the atomic targets they name, and the identities of the
/// records those targets name; every other record has no targets.
#[verifier::rlimit(100)]
pub proof fn lemma_alias_facts()
    ensures
        forall|i: int| 0 <= i < features().len() ==> #[trigger] features()[i].spec_baseline_alias_targets().len() == 0,
        features()[59].spec_id() == CssFeatureId::new("official.selector.generated"),
{
    broadcast use {
        CssFeatureMetadata::lemma_complete_parts,
        CssFeatureMetadata::lemma_partial_parts,
        CssFeatureMetadata::lemma_baseline_alias_parts,
        CssFeatureMetadata::lemma_recognized_unsupported_parts,
        CssFeatureMetadata::lemma_partial_property_parts,
        CssFeatureMetadata::lemma_complete_property_parts,
        CssFeatureMetadata::lemma_partial_property_with_boundary_parts,
    };

    reveal(features);
    assert(features()[0].spec_baseline_alias_targets().len() == 0);
    assert(features()[1].spec_baseline_alias_targets().len() == 0);
    assert(features()[2].spec_baseline_alias_targets().len() == 0);
    assert(features()[3].spec_baseline_alias_targets().len() == 0);
    assert(features()[4].spec_baseline_alias_targets().len() == 0);
    assert(features()[5].spec_baseline_alias_targets().len() == 0);
    assert(features()[6].spec_baseline_alias_targets().len() == 0);
    assert(features()[7].spec_baseline_alias_targets().len() == 0);
    assert(features()[8].spec_baseline_alias_targets().len() == 0);
    assert(features()[9].spec_baseline_alias_targets().len() == 0);
    assert(features()[10].spec_baseline_alias_targets().len() == 0);
    assert(features()[11].spec_baseline_alias_targets().len() == 0);
    assert(features()[12].spec_baseline_alias_targets().len() == 0);
    assert(features()[13].spec_baseline_alias_targets().len() == 0);
    assert(features()[14].spec_baseline_alias_targets().len() == 0);
    assert(features()[15].spec_baseline_alias_targets().len() == 0);
    assert(features()[16].spec_baseline_alias_targets().len() == 0);
    assert(features()[17].spec_baseline_alias_targets().len() == 0);
    assert(features()[18].spec_baseline_alias_targets().len() == 0);
    assert(features()[19].spec_baseline_alias_targets().len() == 0);
    assert(features()[20].spec_baseline_alias_targets().len() == 0);
    assert(features()[21].spec_baseline_alias_targets().len() == 0);
    assert(features()[22].spec_baseline_alias_targets().len() == 0);
    assert(features()[23].spec_baseline_alias_targets().len() == 0);
    assert(features()[24].spec_baseline_alias_targets().len() == 0);
    assert(features()[25].spec_baseline_alias_targets().len() == 0);
    assert(features()[26].spec_baseline_alias_targets().len() == 0);
    assert(features()[27].spec_baseline_alias_targets().len() == 0);
    assert(features()[28].spec_baseline_alias_targets().len() == 0);
    assert(features()[29].spec_baseline_alias_targets().len() == 0);
    assert(features()[30].spec_baseline_alias_targets().len() == 0);
    assert(features()[31].spec_baseline_alias_targets().len() == 0);
    assert(features()[32].spec_baseline_alias_targets().len() == 0);
    assert(features()[33].spec_baseline_alias_targets().len() == 0);
    assert(features()[34].spec_baseline_alias_targets().len() == 0);
    assert(features()[35].spec_baseline_alias_targets().len() == 0);
    assert(features()[36].spec_baseline_alias_targets().len() == 0);
    assert(features()[37].spec_baseline_alias_targets().len() == 0);
    assert(features()[38].spec_baseline_alias_targets().len() == 0);
    assert(features()[39].spec_baseline_alias_targets().len() == 0);
    assert(features()[40].spec_baseline_alias_targets().len() == 0);
    assert(features()[41].spec_baseline_alias_targets().len() == 0);
    assert(features()[42].spec_baseline_alias_targets().len() == 0);
    assert(features()[43].spec_baseline_alias_targets().len() == 0);
    assert(features()[44].spec_baseline_alias_targets().len() == 0);
    assert(features()[45].spec_baseline_alias_targets().len() == 0);
    assert(features()[46].spec_baseline_alias_targets().len() == 0);
    assert(features()[47].spec_baseline_alias_targets().len() == 0);
    assert(features()[48].spec_baseline_alias_targets().len() == 0);
    assert(features()[49].spec_baseline_alias_targets().len() == 0);
    assert(features()[50].spec_baseline_alias_targets().len() == 0);
    assert(features()[51].spec_baseline_alias_targets().len() == 0);
    assert(features()[52].spec_baseline_alias_targets().len() == 0);
    assert(features()[53].spec_baseline_alias_targets().len() == 0);
    assert(features()[54].spec_baseline_alias_targets().len() == 0);
    assert(features()[55].spec_baseline_alias_targets().len() == 0);
    assert(features()[56].spec_baseline_alias_targets().len() == 0);
    assert(features()[57].spec_baseline_alias_targets().len() == 0);
    assert(features()[58].spec_baseline_alias_targets().len() == 0);
    assert(features()[59].spec_baseline_alias_targets().len() == 0);
}

} // verus!
