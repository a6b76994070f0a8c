//! Support-catalog records 121 through 180 in stable inventory order.
use vstd::prelude::*;

use crate::error::CssErrorCode;
use super::sources::{baseline_queries, baseline_selectors, i_filter1, i_fonts4, i_nesting1, i_selectors4, o_conditional3, o_counterstyles3, o_css2, o_fonts3, o_media3, o_namespaces3, o_selectors3, o_values3, s_shapes1, x_contain3};
use super::{texts, push_feature, CssFeatureKind, CssFeatureMetadata};
use crate::error::CssFeatureId;

verus! {

broadcast use crate::error::CssFeatureId::lemma_spec_new_literal;

/// The records of this part of the catalog, in stable inventory order.
#[verifier::opaque]
pub open spec fn features() -> Seq<CssFeatureMetadata> {
    seq![
        CssFeatureMetadata::spec_complete(
            "ext.value.filter.hue-rotate",
            CssFeatureKind::Value,
            "hue-rotate()",
            i_filter1(),
            "#funcdef-filter-hue-rotate",
        ),
        CssFeatureMetadata::spec_complete(
            "ext.value.filter.invert",
            CssFeatureKind::Value,
            "invert()",
            i_filter1(),
            "#funcdef-filter-invert",
        ),
        CssFeatureMetadata::spec_complete(
            "ext.value.filter.opacity",
            CssFeatureKind::Value,
            "opacity()",
            i_filter1(),
            "#funcdef-filter-opacity",
        ),
        CssFeatureMetadata::spec_complete(
            "ext.value.filter.saturate",
            CssFeatureKind::Value,
            "saturate()",
            i_filter1(),
            "#funcdef-filter-saturate",
        ),
        CssFeatureMetadata::spec_complete(
            "ext.value.filter.sepia",
            CssFeatureKind::Value,
            "sepia()",
            i_filter1(),
            "#funcdef-filter-sepia",
        ),
        CssFeatureMetadata::spec_complete(
            "ext.value.filter.drop-shadow",
            CssFeatureKind::Value,
            "drop-shadow()",
            i_filter1(),
            "#funcdef-filter-drop-shadow",
        ),
        CssFeatureMetadata::spec_partial(
            "ext.value.basic-shape",
            CssFeatureKind::Value,
            "<basic-shape>",
            s_shapes1(),
            "#typedef-basic-shape",
            texts::basic_shape_subset(),
            texts::basic_shape_remainder(),
        ),
        CssFeatureMetadata::spec_complete(
            "ext.value.basic-shape.inset",
            CssFeatureKind::Value,
            "inset()",
            s_shapes1(),
            "#funcdef-basic-shape-inset",
        ),
        CssFeatureMetadata::spec_complete(
            "ext.value.basic-shape.circle",
            CssFeatureKind::Value,
            "circle()",
            s_shapes1(),
            "#funcdef-basic-shape-circle",
        ),
        CssFeatureMetadata::spec_complete(
            "ext.value.basic-shape.ellipse",
            CssFeatureKind::Value,
            "ellipse()",
            s_shapes1(),
            "#funcdef-basic-shape-ellipse",
        ),
        CssFeatureMetadata::spec_complete(
            "ext.value.basic-shape.polygon",
            CssFeatureKind::Value,
            "polygon()",
            s_shapes1(),
            "#funcdef-basic-shape-polygon",
        ),
        CssFeatureMetadata::spec_partial(
            "official.value.calc",
            CssFeatureKind::Value,
            "calc()",
            o_values3(),
            "#calc-notation,#calc-syntax,#calc-type-checking",
            texts::calc_subset(),
            texts::calc_remainder(),
        ),
        CssFeatureMetadata::spec_complete(
            "later.rule.namespace",
            CssFeatureKind::Rule,
            "@namespace",
            o_namespaces3(),
            "#declaration,#syntax",
        ),
        CssFeatureMetadata::spec_complete(
            "later.rule.supports",
            CssFeatureKind::Rule,
            "@supports",
            o_conditional3(),
            "#at-supports",
        ),
        CssFeatureMetadata::spec_complete(
            "later.rule.counter-style",
            CssFeatureKind::Rule,
            "@counter-style",
            o_counterstyles3(),
            "#the-counter-style-rule",
        ),
        CssFeatureMetadata::spec_complete(
            "official.descriptor.counter-style.system",
            CssFeatureKind::Descriptor,
            "system in @counter-style",
            o_counterstyles3(),
            "#counter-style-system",
        ),
        CssFeatureMetadata::spec_complete(
            "official.descriptor.counter-style.negative",
            CssFeatureKind::Descriptor,
            "negative in @counter-style",
            o_counterstyles3(),
            "#counter-style-negative",
        ),
        CssFeatureMetadata::spec_complete(
            "official.descriptor.counter-style.prefix",
            CssFeatureKind::Descriptor,
            "prefix in @counter-style",
            o_counterstyles3(),
            "#counter-style-prefix",
        ),
        CssFeatureMetadata::spec_complete(
            "official.descriptor.counter-style.suffix",
            CssFeatureKind::Descriptor,
            "suffix in @counter-style",
            o_counterstyles3(),
            "#counter-style-suffix",
        ),
        CssFeatureMetadata::spec_complete(
            "official.descriptor.counter-style.range",
            CssFeatureKind::Descriptor,
            "range in @counter-style",
            o_counterstyles3(),
            "#counter-style-range",
        ),
        CssFeatureMetadata::spec_complete(
            "official.descriptor.counter-style.pad",
            CssFeatureKind::Descriptor,
            "pad in @counter-style",
            o_counterstyles3(),
            "#counter-style-pad",
        ),
        CssFeatureMetadata::spec_complete(
            "official.descriptor.counter-style.fallback",
            CssFeatureKind::Descriptor,
            "fallback in @counter-style",
            o_counterstyles3(),
            "#counter-style-fallback",
        ),
        CssFeatureMetadata::spec_complete(
            "official.descriptor.counter-style.symbols",
            CssFeatureKind::Descriptor,
            "symbols in @counter-style",
            o_counterstyles3(),
            "#counter-style-symbols",
        ),
        CssFeatureMetadata::spec_complete(
            "official.descriptor.counter-style.additive-symbols",
            CssFeatureKind::Descriptor,
            "additive-symbols in @counter-style",
            o_counterstyles3(),
            "#counter-style-symbols",
        ),
        CssFeatureMetadata::spec_complete(
            "official.descriptor.counter-style.speak-as",
            CssFeatureKind::Descriptor,
            "speak-as in @counter-style",
            o_counterstyles3(),
            "#counter-style-speak-as",
        ),
        CssFeatureMetadata::spec_complete(
            "official.value.counter-style",
            CssFeatureKind::Value,
            "<counter-style>",
            o_counterstyles3(),
            "#the-counter-style-rule",
        ),
        CssFeatureMetadata::spec_complete(
            "official.value.counter-style-name",
            CssFeatureKind::Value,
            "<counter-style-name>",
            o_counterstyles3(),
            "#the-counter-style-rule",
        ),
        CssFeatureMetadata::spec_complete(
            "official.value.symbol",
            CssFeatureKind::Value,
            "<symbol>",
            o_counterstyles3(),
            "#counter-style-symbols",
        ),
        CssFeatureMetadata::spec_complete(
            "official.value.symbols-function",
            CssFeatureKind::Value,
            "symbols()",
            o_counterstyles3(),
            "#symbols-function",
        ),
        CssFeatureMetadata::spec_complete(
            "official.value.symbols-type",
            CssFeatureKind::Value,
            "cyclic|numeric|alphabetic|symbolic|fixed",
            o_counterstyles3(),
            "#symbols-function",
        ),
        CssFeatureMetadata::spec_complete(
            "later.rule.page",
            CssFeatureKind::Rule,
            "@page",
            o_css2(),
            "page.html#page-box",
        ),
        CssFeatureMetadata::spec_complete(
            "official.selector.page-pseudo",
            CssFeatureKind::Selector,
            ":left|:right|:first",
            o_css2(),
            "page.html#page-selectors",
        ),
        CssFeatureMetadata::spec_recognized_unsupported(
            "later.rule.font-feature-values",
            CssFeatureKind::Rule,
            "@font-feature-values",
            i_fonts4(),
            "#font-feature-values-rule",
            CssErrorCode::UnsupportedAtRule,
        ),
        CssFeatureMetadata::spec_complete(
            "baseline.descriptor.font-family",
            CssFeatureKind::Descriptor,
            "font-family in @font-face",
            o_fonts3(),
            "#font-family-desc",
        ),
        CssFeatureMetadata::spec_complete(
            "baseline.descriptor.src",
            CssFeatureKind::Descriptor,
            "src in @font-face",
            o_fonts3(),
            "#src-desc",
        ),
        CssFeatureMetadata::spec_complete(
            "baseline.descriptor.font-weight",
            CssFeatureKind::Descriptor,
            "font-weight in @font-face",
            o_fonts3(),
            "#font-prop-desc",
        ),
        CssFeatureMetadata::spec_complete(
            "baseline.descriptor.font-style",
            CssFeatureKind::Descriptor,
            "font-style in @font-face",
            o_fonts3(),
            "#font-prop-desc",
        ),
        CssFeatureMetadata::spec_complete(
            "baseline.descriptor.font-stretch",
            CssFeatureKind::Descriptor,
            "font-stretch in @font-face",
            o_fonts3(),
            "#font-prop-desc",
        ),
        CssFeatureMetadata::spec_complete(
            "baseline.descriptor.font-display",
            CssFeatureKind::Descriptor,
            "font-display in @font-face",
            i_fonts4(),
            "#font-display-desc",
        ),
        CssFeatureMetadata::spec_complete(
            "baseline.descriptor.unicode-range",
            CssFeatureKind::Descriptor,
            "unicode-range in @font-face",
            o_fonts3(),
            "#unicode-range-desc",
        ),
        CssFeatureMetadata::spec_complete(
            "official.descriptor.font-feature-settings",
            CssFeatureKind::Descriptor,
            "font-feature-settings in @font-face",
            o_fonts3(),
            "#font-rend-desc",
        ),
        CssFeatureMetadata::spec_complete(
            "official.value.font-source",
            CssFeatureKind::Value,
            "@font-face source list",
            o_fonts3(),
            "#src-desc",
        ),
        CssFeatureMetadata::spec_complete(
            "official.value.opentype-tag",
            CssFeatureKind::Value,
            "OpenType feature tag",
            o_fonts3(),
            "#font-rend-desc",
        ),
        CssFeatureMetadata::spec_partial(
            "ext.descriptor.font-weight-range",
            CssFeatureKind::Descriptor,
            "font-weight ranges in @font-face",
            i_fonts4(),
            "#font-weight-desc",
            texts::font_face_weight_range_subset(),
            texts::font_face_weight_range_remainder(),
        ),
        CssFeatureMetadata::spec_partial(
            "ext.descriptor.font-style-oblique-range",
            CssFeatureKind::Descriptor,
            "font-style oblique ranges in @font-face",
            i_fonts4(),
            "#font-style-desc",
            texts::font_face_style_range_subset(),
            texts::font_face_style_range_remainder(),
        ),
        CssFeatureMetadata::spec_partial(
            "ext.descriptor.font-stretch-range",
            CssFeatureKind::Descriptor,
            "font-stretch percentage ranges in @font-face",
            i_fonts4(),
            "#font-stretch-desc",
            texts::font_face_stretch_range_subset(),
            texts::font_face_stretch_range_remainder(),
        ),
        CssFeatureMetadata::spec_partial(
            "ext.value.font-source-modern-hints",
            CssFeatureKind::Value,
            "format() keyword and tech() font-source hints",
            i_fonts4(),
            "#font-face-src-parsing",
            texts::font_source_hints_subset(),
            texts::font_source_hints_remainder(),
        ),
        CssFeatureMetadata::spec_partial(
            "baseline.selector.complex",
            CssFeatureKind::Selector,
            "type, universal, ID, class; presence and six valued attribute matchers; descendant, child, next-sibling, subsequent-sibling combinators",
            o_selectors3(),
            "#type-selectors,#universal-selector,#attribute-representation,#attribute-substrings,#class-html,#id-selectors,#descendant-combinators,#child-combinators,#adjacent-sibling-combinators,#general-sibling-combinators",
            "The exact baseline-recognized complex-selector spelling group is supported.",
            texts::selector_remainder(),
        ),
        CssFeatureMetadata::spec_partial(
            "baseline.selector.pseudo-class",
            CssFeatureKind::Selector,
            ":root, :hover, :active, :focus, :disabled, :enabled, :checked, :first-child, :last-child, :only-child, :empty, :first-of-type, :last-of-type, :only-of-type",
            o_selectors3(),
            "#dynamic-pseudos,#UIstates,#structural-pseudos",
            "The exact baseline-recognized pseudo-class spelling group is supported.",
            texts::selector_remainder(),
        ),
        CssFeatureMetadata::spec_partial(
            "baseline.selector.functional",
            CssFeatureKind::Selector,
            ":nth-child(), :nth-last-child(), :nth-of-type(), :nth-last-of-type(), :not()",
            o_selectors3(),
            "#structural-pseudos,#negation",
            "The exact baseline-recognized functional pseudo-class spelling group is supported.",
            texts::selector_remainder(),
        ),
        CssFeatureMetadata::spec_partial(
            "baseline.selector.extension-state",
            CssFeatureKind::Selector,
            ":scope, :focus-visible, :focus-within, :required, :optional, :valid, :invalid, :placeholder-shown, :default, :indeterminate, :read-only, :read-write, :in-range, :out-of-range, :modal, :fullscreen, :popover-open",
            i_selectors4(),
            "#useraction-pseudos,#input-pseudos,#resource-pseudos,#display-state-pseudos",
            "The exact I01 extension-state pseudo-class spelling group is supported.",
            texts::selector_remainder(),
        ),
        CssFeatureMetadata::spec_partial(
            "baseline.selector.extension-functional",
            CssFeatureKind::Selector,
            ":is(), :where(), complex :not(), :has(), and nth-child of lists",
            i_selectors4(),
            "#matches,#zero-matches,#relational,#negation,#the-nth-child-pseudo",
            "The exact I01 extension-functional pseudo-class spelling group is supported.",
            texts::selector_remainder(),
        ),
        CssFeatureMetadata::spec_partial(
            "baseline.selector.attribute-case",
            CssFeatureKind::Selector,
            "i and s attribute-selector modifiers",
            i_selectors4(),
            "#attribute-case",
            "The i and s attribute-selector case modifiers are supported.",
            texts::selector_remainder(),
        ),
        CssFeatureMetadata::spec_baseline_alias(
            "baseline.selector.pseudo-element",
            CssFeatureKind::Selector,
            "::before, ::after, ::marker, ::selection, ::backdrop, and generated ::marker sequences",
            baseline_selectors(),
            "pseudo-element selector",
            ("The exact baseline-recognized pseudo-element spelling group is supported.", texts::selector_remainder()),
            &[CssFeatureId::new("official.selector.generated"), CssFeatureId::new("ext.pseudo-element.marker"), CssFeatureId::new("ext.pseudo-element.selection"), CssFeatureId::new("ext.pseudo-element.backdrop"), CssFeatureId::new("ext.pseudo-element.generated-marker")],
        ),
        CssFeatureMetadata::spec_partial(
            "baseline.selector.nesting",
            CssFeatureKind::Selector,
            "nesting &, scoped selector anchors, and scoped relative selectors",
            i_nesting1(),
            "#nest-selector",
            "Nesting &, scoped selector anchors, and scoped relative selectors are supported.",
            texts::selector_remainder(),
        ),
        CssFeatureMetadata::spec_baseline_alias(
            "baseline.media.query-list",
            CssFeatureKind::MediaQuery,
            "typed/condition query lists, not/only, and/or/not, range and colon forms, and malformed-member Never recovery",
            baseline_queries(),
            "media query list",
            ("The exact baseline-recognized media query-list spelling group and malformed-member Never recovery are supported.", texts::query_remainder()),
            &[CssFeatureId::new("official.media.query-list-core"), CssFeatureId::new("ext.media.condition-syntax"), CssFeatureId::new("ext.media.malformed-member-never")],
        ),
        CssFeatureMetadata::spec_complete(
            "baseline.media.type",
            CssFeatureKind::MediaQuery,
            "all, aural, braille, embossed, handheld, print, projection, screen, speech, tty, tv",
            o_media3(),
            "#media1",
        ),
        CssFeatureMetadata::spec_baseline_alias(
            "baseline.media.range-feature",
            CssFeatureKind::MediaQuery,
            "width, height, resolution, color, monochrome and their min-/max- names",
            baseline_queries(),
            "media range feature",
            ("The exact baseline-recognized media range-feature spelling group is supported.", texts::query_remainder()),
            &[CssFeatureId::new("official.media.feature.width"), CssFeatureId::new("official.media.feature.height"), CssFeatureId::new("official.media.feature.resolution"), CssFeatureId::new("official.media.feature.color"), CssFeatureId::new("official.media.feature.monochrome"), CssFeatureId::new("ext.media.resolution.dppx"), CssFeatureId::new("ext.media.range.width"), CssFeatureId::new("ext.media.range.height"), CssFeatureId::new("ext.media.range.resolution"), CssFeatureId::new("ext.media.range.color"), CssFeatureId::new("ext.media.range.monochrome")],
        ),
        CssFeatureMetadata::spec_baseline_alias(
            "baseline.media.discrete-feature",
            CssFeatureKind::MediaQuery,
            "orientation, prefers-color-scheme, prefers-reduced-motion, prefers-reduced-transparency, prefers-contrast, forced-colors, hover, any-hover, pointer, any-pointer, display-mode",
            baseline_queries(),
            "media discrete feature",
            ("The exact baseline-recognized media discrete-feature spelling group is supported.", texts::query_remainder()),
            &[CssFeatureId::new("official.media.feature.orientation"), CssFeatureId::new("ext.media.hover"), CssFeatureId::new("ext.media.any-hover"), CssFeatureId::new("ext.media.pointer"), CssFeatureId::new("ext.media.any-pointer"), CssFeatureId::new("ext.media.prefers-color-scheme"), CssFeatureId::new("ext.media.prefers-reduced-motion"), CssFeatureId::new("ext.media.prefers-reduced-transparency"), CssFeatureId::new("ext.media.prefers-contrast"), CssFeatureId::new("ext.media.forced-colors"), CssFeatureId::new("ext.media.display-mode")],
        ),
        CssFeatureMetadata::spec_partial(
            "baseline.container.condition",
            CssFeatureKind::ContainerQuery,
            "and/or/not, size features, and custom-property style existence/equality",
            x_contain3(),
            "#container-rule",
            "The exact baseline-recognized container-condition spelling group is supported.",
            texts::query_remainder(),
        ),
    ]
}

/// Builds the records of this part of the catalog; every record is well formed.
#[verifier::rlimit(40)]
pub(crate) fn feature_records() -> (records: Vec<CssFeatureMetadata>)
    ensures
        records@ == features(),
        forall|i: int| 0 <= i < records@.len() ==> (#[trigger] records@[i]).wf(),
{
    proof {
        reveal(features);
    }
    let mut records = Vec::new();
    push_feature(&mut records, CssFeatureMetadata::complete(
        "ext.value.filter.hue-rotate",
        CssFeatureKind::Value,
        "hue-rotate()",
        i_filter1(),
        "#funcdef-filter-hue-rotate",
    ));
    push_feature(&mut records, CssFeatureMetadata::complete(
        "ext.value.filter.invert",
        CssFeatureKind::Value,
        "invert()",
        i_filter1(),
        "#funcdef-filter-invert",
    ));
    push_feature(&mut records, CssFeatureMetadata::complete(
        "ext.value.filter.opacity",
        CssFeatureKind::Value,
        "opacity()",
        i_filter1(),
        "#funcdef-filter-opacity",
    ));
    push_feature(&mut records, CssFeatureMetadata::complete(
        "ext.value.filter.saturate",
        CssFeatureKind::Value,
        "saturate()",
        i_filter1(),
        "#funcdef-filter-saturate",
    ));
    push_feature(&mut records, CssFeatureMetadata::complete(
        "ext.value.filter.sepia",
        CssFeatureKind::Value,
        "sepia()",
        i_filter1(),
        "#funcdef-filter-sepia",
    ));
    push_feature(&mut records, CssFeatureMetadata::complete(
        "ext.value.filter.drop-shadow",
        CssFeatureKind::Value,
        "drop-shadow()",
        i_filter1(),
        "#funcdef-filter-drop-shadow",
    ));
    push_feature(&mut records, CssFeatureMetadata::partial(
        "ext.value.basic-shape",
        CssFeatureKind::Value,
        "<basic-shape>",
        s_shapes1(),
        "#typedef-basic-shape",
        texts::basic_shape_subset(),
        texts::basic_shape_remainder(),
    ));
    push_feature(&mut records, CssFeatureMetadata::complete(
        "ext.value.basic-shape.inset",
        CssFeatureKind::Value,
        "inset()",
        s_shapes1(),
        "#funcdef-basic-shape-inset",
    ));
    push_feature(&mut records, CssFeatureMetadata::complete(
        "ext.value.basic-shape.circle",
        CssFeatureKind::Value,
        "circle()",
        s_shapes1(),
        "#funcdef-basic-shape-circle",
    ));
    push_feature(&mut records, CssFeatureMetadata::complete(
        "ext.value.basic-shape.ellipse",
        CssFeatureKind::Value,
        "ellipse()",
        s_shapes1(),
        "#funcdef-basic-shape-ellipse",
    ));
    push_feature(&mut records, CssFeatureMetadata::complete(
        "ext.value.basic-shape.polygon",
        CssFeatureKind::Value,
        "polygon()",
        s_shapes1(),
        "#funcdef-basic-shape-polygon",
    ));
    push_feature(&mut records, CssFeatureMetadata::partial(
        "official.value.calc",
        CssFeatureKind::Value,
        "calc()",
        o_values3(),
        "#calc-notation,#calc-syntax,#calc-type-checking",
        texts::calc_subset(),
        texts::calc_remainder(),
    ));
    push_feature(&mut records, CssFeatureMetadata::complete(
        "later.rule.namespace",
        CssFeatureKind::Rule,
        "@namespace",
        o_namespaces3(),
        "#declaration,#syntax",
    ));
    push_feature(&mut records, CssFeatureMetadata::complete(
        "later.rule.supports",
        CssFeatureKind::Rule,
        "@supports",
        o_conditional3(),
        "#at-supports",
    ));
    push_feature(&mut records, CssFeatureMetadata::complete(
        "later.rule.counter-style",
        CssFeatureKind::Rule,
        "@counter-style",
        o_counterstyles3(),
        "#the-counter-style-rule",
    ));
    push_feature(&mut records, CssFeatureMetadata::complete(
        "official.descriptor.counter-style.system",
        CssFeatureKind::Descriptor,
        "system in @counter-style",
        o_counterstyles3(),
        "#counter-style-system",
    ));
    push_feature(&mut records, CssFeatureMetadata::complete(
        "official.descriptor.counter-style.negative",
        CssFeatureKind::Descriptor,
        "negative in @counter-style",
        o_counterstyles3(),
        "#counter-style-negative",
    ));
    push_feature(&mut records, CssFeatureMetadata::complete(
        "official.descriptor.counter-style.prefix",
        CssFeatureKind::Descriptor,
        "prefix in @counter-style",
        o_counterstyles3(),
        "#counter-style-prefix",
    ));
    push_feature(&mut records, CssFeatureMetadata::complete(
        "official.descriptor.counter-style.suffix",
        CssFeatureKind::Descriptor,
        "suffix in @counter-style",
        o_counterstyles3(),
        "#counter-style-suffix",
    ));
    push_feature(&mut records, CssFeatureMetadata::complete(
        "official.descriptor.counter-style.range",
        CssFeatureKind::Descriptor,
        "range in @counter-style",
        o_counterstyles3(),
        "#counter-style-range",
    ));
    push_feature(&mut records, CssFeatureMetadata::complete(
        "official.descriptor.counter-style.pad",
        CssFeatureKind::Descriptor,
        "pad in @counter-style",
        o_counterstyles3(),
        "#counter-style-pad",
    ));
    push_feature(&mut records, CssFeatureMetadata::complete(
        "official.descriptor.counter-style.fallback",
        CssFeatureKind::Descriptor,
        "fallback in @counter-style",
        o_counterstyles3(),
        "#counter-style-fallback",
    ));
    push_feature(&mut records, CssFeatureMetadata::complete(
        "official.descriptor.counter-style.symbols",
        CssFeatureKind::Descriptor,
        "symbols in @counter-style",
        o_counterstyles3(),
        "#counter-style-symbols",
    ));
    push_feature(&mut records, CssFeatureMetadata::complete(
        "official.descriptor.counter-style.additive-symbols",
        CssFeatureKind::Descriptor,
        "additive-symbols in @counter-style",
        o_counterstyles3(),
        "#counter-style-symbols",
    ));
    push_feature(&mut records, CssFeatureMetadata::complete(
        "official.descriptor.counter-style.speak-as",
        CssFeatureKind::Descriptor,
        "speak-as in @counter-style",
        o_counterstyles3(),
        "#counter-style-speak-as",
    ));
    push_feature(&mut records, CssFeatureMetadata::complete(
        "official.value.counter-style",
        CssFeatureKind::Value,
        "<counter-style>",
        o_counterstyles3(),
        "#the-counter-style-rule",
    ));
    push_feature(&mut records, CssFeatureMetadata::complete(
        "official.value.counter-style-name",
        CssFeatureKind::Value,
        "<counter-style-name>",
        o_counterstyles3(),
        "#the-counter-style-rule",
    ));
    push_feature(&mut records, CssFeatureMetadata::complete(
        "official.value.symbol",
        CssFeatureKind::Value,
        "<symbol>",
        o_counterstyles3(),
        "#counter-style-symbols",
    ));
    push_feature(&mut records, CssFeatureMetadata::complete(
        "official.value.symbols-function",
        CssFeatureKind::Value,
        "symbols()",
        o_counterstyles3(),
        "#symbols-function",
    ));
    push_feature(&mut records, CssFeatureMetadata::complete(
        "official.value.symbols-type",
        CssFeatureKind::Value,
        "cyclic|numeric|alphabetic|symbolic|fixed",
        o_counterstyles3(),
        "#symbols-function",
    ));
    push_feature(&mut records, CssFeatureMetadata::complete(
        "later.rule.page",
        CssFeatureKind::Rule,
        "@page",
        o_css2(),
        "page.html#page-box",
    ));
    push_feature(&mut records, CssFeatureMetadata::complete(
        "official.selector.page-pseudo",
        CssFeatureKind::Selector,
        ":left|:right|:first",
        o_css2(),
        "page.html#page-selectors",
    ));
    push_feature(&mut records, CssFeatureMetadata::recognized_unsupported(
        "later.rule.font-feature-values",
        CssFeatureKind::Rule,
        "@font-feature-values",
        i_fonts4(),
        "#font-feature-values-rule",
        CssErrorCode::UnsupportedAtRule,
    ));
    push_feature(&mut records, CssFeatureMetadata::complete(
        "baseline.descriptor.font-family",
        CssFeatureKind::Descriptor,
        "font-family in @font-face",
        o_fonts3(),
        "#font-family-desc",
    ));
    push_feature(&mut records, CssFeatureMetadata::complete(
        "baseline.descriptor.src",
        CssFeatureKind::Descriptor,
        "src in @font-face",
        o_fonts3(),
        "#src-desc",
    ));
    push_feature(&mut records, CssFeatureMetadata::complete(
        "baseline.descriptor.font-weight",
        CssFeatureKind::Descriptor,
        "font-weight in @font-face",
        o_fonts3(),
        "#font-prop-desc",
    ));
    push_feature(&mut records, CssFeatureMetadata::complete(
        "baseline.descriptor.font-style",
        CssFeatureKind::Descriptor,
        "font-style in @font-face",
        o_fonts3(),
        "#font-prop-desc",
    ));
    push_feature(&mut records, CssFeatureMetadata::complete(
        "baseline.descriptor.font-stretch",
        CssFeatureKind::Descriptor,
        "font-stretch in @font-face",
        o_fonts3(),
        "#font-prop-desc",
    ));
    push_feature(&mut records, CssFeatureMetadata::complete(
        "baseline.descriptor.font-display",
        CssFeatureKind::Descriptor,
        "font-display in @font-face",
        i_fonts4(),
        "#font-display-desc",
    ));
    push_feature(&mut records, CssFeatureMetadata::complete(
        "baseline.descriptor.unicode-range",
        CssFeatureKind::Descriptor,
        "unicode-range in @font-face",
        o_fonts3(),
        "#unicode-range-desc",
    ));
    push_feature(&mut records, CssFeatureMetadata::complete(
        "official.descriptor.font-feature-settings",
        CssFeatureKind::Descriptor,
        "font-feature-settings in @font-face",
        o_fonts3(),
        "#font-rend-desc",
    ));
    push_feature(&mut records, CssFeatureMetadata::complete(
        "official.value.font-source",
        CssFeatureKind::Value,
        "@font-face source list",
        o_fonts3(),
        "#src-desc",
    ));
    push_feature(&mut records, CssFeatureMetadata::complete(
        "official.value.opentype-tag",
        CssFeatureKind::Value,
        "OpenType feature tag",
        o_fonts3(),
        "#font-rend-desc",
    ));
    push_feature(&mut records, CssFeatureMetadata::partial(
        "ext.descriptor.font-weight-range",
        CssFeatureKind::Descriptor,
        "font-weight ranges in @font-face",
        i_fonts4(),
        "#font-weight-desc",
        texts::font_face_weight_range_subset(),
        texts::font_face_weight_range_remainder(),
    ));
    push_feature(&mut records, CssFeatureMetadata::partial(
        "ext.descriptor.font-style-oblique-range",
        CssFeatureKind::Descriptor,
        "font-style oblique ranges in @font-face",
        i_fonts4(),
        "#font-style-desc",
        texts::font_face_style_range_subset(),
        texts::font_face_style_range_remainder(),
    ));
    push_feature(&mut records, CssFeatureMetadata::partial(
        "ext.descriptor.font-stretch-range",
        CssFeatureKind::Descriptor,
        "font-stretch percentage ranges in @font-face",
        i_fonts4(),
        "#font-stretch-desc",
        texts::font_face_stretch_range_subset(),
        texts::font_face_stretch_range_remainder(),
    ));
    push_feature(&mut records, CssFeatureMetadata::partial(
        "ext.value.font-source-modern-hints",
        CssFeatureKind::Value,
        "format() keyword and tech() font-source hints",
        i_fonts4(),
        "#font-face-src-parsing",
        texts::font_source_hints_subset(),
        texts::font_source_hints_remainder(),
    ));
    push_feature(&mut records, CssFeatureMetadata::partial(
        "baseline.selector.complex",
        CssFeatureKind::Selector,
        "type, universal, ID, class; presence and six valued attribute matchers; descendant, child, next-sibling, subsequent-sibling combinators",
        o_selectors3(),
        "#type-selectors,#universal-selector,#attribute-representation,#attribute-substrings,#class-html,#id-selectors,#descendant-combinators,#child-combinators,#adjacent-sibling-combinators,#general-sibling-combinators",
        "The exact baseline-recognized complex-selector spelling group is supported.",
        texts::selector_remainder(),
    ));
    push_feature(&mut records, CssFeatureMetadata::partial(
        "baseline.selector.pseudo-class",
        CssFeatureKind::Selector,
        ":root, :hover, :active, :focus, :disabled, :enabled, :checked, :first-child, :last-child, :only-child, :empty, :first-of-type, :last-of-type, :only-of-type",
        o_selectors3(),
        "#dynamic-pseudos,#UIstates,#structural-pseudos",
        "The exact baseline-recognized pseudo-class spelling group is supported.",
        texts::selector_remainder(),
    ));
    push_feature(&mut records, CssFeatureMetadata::partial(
        "baseline.selector.functional",
        CssFeatureKind::Selector,
        ":nth-child(), :nth-last-child(), :nth-of-type(), :nth-last-of-type(), :not()",
        o_selectors3(),
        "#structural-pseudos,#negation",
        "The exact baseline-recognized functional pseudo-class spelling group is supported.",
        texts::selector_remainder(),
    ));
    push_feature(&mut records, CssFeatureMetadata::partial(
        "baseline.selector.extension-state",
        CssFeatureKind::Selector,
        ":scope, :focus-visible, :focus-within, :required, :optional, :valid, :invalid, :placeholder-shown, :default, :indeterminate, :read-only, :read-write, :in-range, :out-of-range, :modal, :fullscreen, :popover-open",
        i_selectors4(),
        "#useraction-pseudos,#input-pseudos,#resource-pseudos,#display-state-pseudos",
        "The exact I01 extension-state pseudo-class spelling group is supported.",
        texts::selector_remainder(),
    ));
    push_feature(&mut records, CssFeatureMetadata::partial(
        "baseline.selector.extension-functional",
        CssFeatureKind::Selector,
        ":is(), :where(), complex :not(), :has(), and nth-child of lists",
        i_selectors4(),
        "#matches,#zero-matches,#relational,#negation,#the-nth-child-pseudo",
        "The exact I01 extension-functional pseudo-class spelling group is supported.",
        texts::selector_remainder(),
    ));
    push_feature(&mut records, CssFeatureMetadata::partial(
        "baseline.selector.attribute-case",
        CssFeatureKind::Selector,
        "i and s attribute-selector modifiers",
        i_selectors4(),
        "#attribute-case",
        "The i and s attribute-selector case modifiers are supported.",
        texts::selector_remainder(),
    ));
    push_feature(&mut records, CssFeatureMetadata::baseline_alias(
        "baseline.selector.pseudo-element",
        CssFeatureKind::Selector,
        "::before, ::after, ::marker, ::selection, ::backdrop, and generated ::marker sequences",
        baseline_selectors(),
        "pseudo-element selector",
        ("The exact baseline-recognized pseudo-element spelling group is supported.", texts::selector_remainder()),
        &[CssFeatureId("official.selector.generated"), CssFeatureId("ext.pseudo-element.marker"), CssFeatureId("ext.pseudo-element.selection"), CssFeatureId("ext.pseudo-element.backdrop"), CssFeatureId("ext.pseudo-element.generated-marker")],
    ));
    push_feature(&mut records, CssFeatureMetadata::partial(
        "baseline.selector.nesting",
        CssFeatureKind::Selector,
        "nesting &, scoped selector anchors, and scoped relative selectors",
        i_nesting1(),
        "#nest-selector",
        "Nesting &, scoped selector anchors, and scoped relative selectors are supported.",
        texts::selector_remainder(),
    ));
    push_feature(&mut records, CssFeatureMetadata::baseline_alias(
        "baseline.media.query-list",
        CssFeatureKind::MediaQuery,
        "typed/condition query lists, not/only, and/or/not, range and colon forms, and malformed-member Never recovery",
        baseline_queries(),
        "media query list",
        ("The exact baseline-recognized media query-list spelling group and malformed-member Never recovery are supported.", texts::query_remainder()),
        &[CssFeatureId("official.media.query-list-core"), CssFeatureId("ext.media.condition-syntax"), CssFeatureId("ext.media.malformed-member-never")],
    ));
    push_feature(&mut records, CssFeatureMetadata::complete(
        "baseline.media.type",
        CssFeatureKind::MediaQuery,
        "all, aural, braille, embossed, handheld, print, projection, screen, speech, tty, tv",
        o_media3(),
        "#media1",
    ));
    push_feature(&mut records, CssFeatureMetadata::baseline_alias(
        "baseline.media.range-feature",
        CssFeatureKind::MediaQuery,
        "width, height, resolution, color, monochrome and their min-/max- names",
        baseline_queries(),
        "media range feature",
        ("The exact baseline-recognized media range-feature spelling group is supported.", texts::query_remainder()),
        &[CssFeatureId("official.media.feature.width"), CssFeatureId("official.media.feature.height"), CssFeatureId("official.media.feature.resolution"), CssFeatureId("official.media.feature.color"), CssFeatureId("official.media.feature.monochrome"), CssFeatureId("ext.media.resolution.dppx"), CssFeatureId("ext.media.range.width"), CssFeatureId("ext.media.range.height"), CssFeatureId("ext.media.range.resolution"), CssFeatureId("ext.media.range.color"), CssFeatureId("ext.media.range.monochrome")],
    ));
    push_feature(&mut records, CssFeatureMetadata::baseline_alias(
        "baseline.media.discrete-feature",
        CssFeatureKind::MediaQuery,
        "orientation, prefers-color-scheme, prefers-reduced-motion, prefers-reduced-transparency, prefers-contrast, forced-colors, hover, any-hover, pointer, any-pointer, display-mode",
        baseline_queries(),
        "media discrete feature",
        ("The exact baseline-recognized media discrete-feature spelling group is supported.", texts::query_remainder()),
        &[CssFeatureId("official.media.feature.orientation"), CssFeatureId("ext.media.hover"), CssFeatureId("ext.media.any-hover"), CssFeatureId("ext.media.pointer"), CssFeatureId("ext.media.any-pointer"), CssFeatureId("ext.media.prefers-color-scheme"), CssFeatureId("ext.media.prefers-reduced-motion"), CssFeatureId("ext.media.prefers-reduced-transparency"), CssFeatureId("ext.media.prefers-contrast"), CssFeatureId("ext.media.forced-colors"), CssFeatureId("ext.media.display-mode")],
    ));
    push_feature(&mut records, CssFeatureMetadata::partial(
        "baseline.container.condition",
        CssFeatureKind::ContainerQuery,
        "and/or/not, size features, and custom-property style existence/equality",
        x_contain3(),
        "#container-rule",
        "The exact baseline-recognized container-condition spelling group is supported.",
        texts::query_remainder(),
    ));
    records
}

/// This part of the catalog holds 60 records.
pub proof fn lemma_features_len()
    ensures
        features().len() == 60,
{
    reveal(features);
}

/// The alias records of this part, the atomic targets they name, and the identities of the
/// records those targets name; every other record has no targets.
#[verifier::rlimit(100)]
pub proof fn lemma_alias_facts()
    ensures
        forall|i: int| 0 <= i < features().len() && i != 53 && i != 55 && i != 57 && i != 58 ==> #[trigger] features()[i].spec_baseline_alias_targets().len() == 0,
        features()[53].spec_baseline_alias_targets() == seq![CssFeatureId::new("official.selector.generated"), CssFeatureId::new("ext.pseudo-element.marker"), CssFeatureId::new("ext.pseudo-element.selection"), CssFeatureId::new("ext.pseudo-element.backdrop"), CssFeatureId::new("ext.pseudo-element.generated-marker")],
        features()[55].spec_baseline_alias_targets() == seq![CssFeatureId::new("official.media.query-list-core"), CssFeatureId::new("ext.media.condition-syntax"), CssFeatureId::new("ext.media.malformed-member-never")],
        features()[57].spec_baseline_alias_targets() == seq![CssFeatureId::new("official.media.feature.width"), CssFeatureId::new("official.media.feature.height"), CssFeatureId::new("official.media.feature.resolution"), CssFeatureId::new("official.media.feature.color"), CssFeatureId::new("official.media.feature.monochrome"), CssFeatureId::new("ext.media.resolution.dppx"), CssFeatureId::new("ext.media.range.width"), CssFeatureId::new("ext.media.range.height"), CssFeatureId::new("ext.media.range.resolution"), CssFeatureId::new("ext.media.range.color"), CssFeatureId::new("ext.media.range.monochrome")],
        features()[58].spec_baseline_alias_targets() == seq![CssFeatureId::new("official.media.feature.orientation"), CssFeatureId::new("ext.media.hover"), CssFeatureId::new("ext.media.any-hover"), CssFeatureId::new("ext.media.pointer"), CssFeatureId::new("ext.media.any-pointer"), CssFeatureId::new("ext.media.prefers-color-scheme"), CssFeatureId::new("ext.media.prefers-reduced-motion"), CssFeatureId::new("ext.media.prefers-reduced-transparency"), CssFeatureId::new("ext.media.prefers-contrast"), CssFeatureId::new("ext.media.forced-colors"), CssFeatureId::new("ext.media.display-mode")],
{
    broadcast use {
        CssFeatureMetadata::lemma_complete_parts,
        CssFeatureMetadata::lemma_partial_parts,
        CssFeatureMetadata::lemma_baseline_alias_parts,
        CssFeatureMetadata::lemma_recognized_unsupported_parts,
        CssFeatureMetadata::lemma_partial_property_parts,
        CssFeatureMetadata::lemma_complete_property_parts,
        CssFeatureMetadata::lemma_partial_property_with_boundary_parts,
    };

    reveal(features);
    assert(features()[0].spec_baseline_alias_targets().len() == 0);
    assert(features()[1].spec_baseline_alias_targets().len() == 0);
    assert(features()[2].spec_baseline_alias_targets().len() == 0);
    assert(features()[3].spec_baseline_alias_targets().len() == 0);
    assert(features()[4].spec_baseline_alias_targets().len() == 0);
    assert(features()[5].spec_baseline_alias_targets().len() == 0);
    assert(features()[6].spec_baseline_alias_targets().len() == 0);
    assert(features()[7].spec_baseline_alias_targets().len() == 0);
    assert(features()[8].spec_baseline_alias_targets().len() == 0);
    assert(features()[9].spec_baseline_alias_targets().len() == 0);
    assert(features()[10].spec_baseline_alias_targets().len() == 0);
    assert(features()[11].spec_baseline_alias_targets().len() == 0);
    assert(features()[12].spec_baseline_alias_targets().len() == 0);
    assert(features()[13].spec_baseline_alias_targets().len() == 0);
    assert(features()[14].spec_baseline_alias_targets().len() == 0);
    assert(features()[15].spec_baseline_alias_targets().len() == 0);
    assert(features()[16].spec_baseline_alias_targets().len() == 0);
    assert(features()[17].spec_baseline_alias_targets().len() == 0);
    assert(features()[18].spec_baseline_alias_targets().len() == 0);
    assert(features()[19].spec_baseline_alias_targets().len() == 0);
    assert(features()[20].spec_baseline_alias_targets().len() == 0);
    assert(features()[21].spec_baseline_alias_targets().len() == 0);
    assert(features()[22].spec_baseline_alias_targets().len() == 0);
    assert(features()[23].spec_baseline_alias_targets().len() == 0);
    assert(features()[24].spec_baseline_alias_targets().len() == 0);
    assert(features()[25].spec_baseline_alias_targets().len() == 0);
    assert(features()[26].spec_baseline_alias_targets().len() == 0);
    assert(features()[27].spec_baseline_alias_targets().len() == 0);
    assert(features()[28].spec_baseline_alias_targets().len() == 0);
    assert(features()[29].spec_baseline_alias_targets().len() == 0);
    assert(features()[30].spec_baseline_alias_targets().len() == 0);
    assert(features()[31].spec_baseline_alias_targets().len() == 0);
    assert(features()[32].spec_baseline_alias_targets().len() == 0);
    assert(features()[33].spec_baseline_alias_targets().len() == 0);
    assert(features()[34].spec_baseline_alias_targets().len() == 0);
    assert(features()[35].spec_baseline_alias_targets().len() == 0);
    assert(features()[36].spec_baseline_alias_targets().len() == 0);
    assert(features()[37].spec_baseline_alias_targets().len() == 0);
    assert(features()[38].spec_baseline_alias_targets().len() == 0);
    assert(features()[39].spec_baseline_alias_targets().len() == 0);
    assert(features()[40].spec_baseline_alias_targets().len() == 0);
    assert(features()[41].spec_baseline_alias_targets().len() == 0);
    assert(features()[42].spec_baseline_alias_targets().len() == 0);
    assert(features()[43].spec_baseline_alias_targets().len() == 0);
    assert(features()[44].spec_baseline_alias_targets().len() == 0);
    assert(features()[45].spec_baseline_alias_targets().len() == 0);
    assert(features()[46].spec_baseline_alias_targets().len() == 0);
    assert(features()[47].spec_baseline_alias_targets().len() == 0);
    assert(features()[48].spec_baseline_alias_targets().len() == 0);
    assert(features()[49].spec_baseline_alias_targets().len() == 0);
    assert(features()[50].spec_baseline_alias_targets().len() == 0);
    assert(features()[51].spec_baseline_alias_targets().len() == 0);
    assert(features()[52].spec_baseline_alias_targets().len() == 0);
    assert(features()[53].spec_baseline_alias_targets() =~= seq![CssFeatureId::new("official.selector.generated"), CssFeatureId::new("ext.pseudo-element.marker"), CssFeatureId::new("ext.pseudo-element.selection"), CssFeatureId::new("ext.pseudo-element.backdrop"), CssFeatureId::new("ext.pseudo-element.generated-marker")]);
    assert(features()[54].spec_baseline_alias_targets().len() == 0);
    assert(features()[55].spec_baseline_alias_targets() =~= seq![CssFeatureId::new("official.media.query-list-core"), CssFeatureId::new("ext.media.condition-syntax"), CssFeatureId::new("ext.media.malformed-member-never")]);
    assert(features()[56].spec_baseline_alias_targets().len() == 0);
    assert(features()[57].spec_baseline_alias_targets() =~= seq![CssFeatureId::new("official.media.feature.width"), CssFeatureId::new("official.media.feature.height"), CssFeatureId::new("official.media.feature.resolution"), CssFeatureId::new("official.media.feature.color"), CssFeatureId::new("official.media.feature.monochrome"), CssFeatureId::new("ext.media.resolution.dppx"), CssFeatureId::new("ext.media.range.width"), CssFeatureId::new("ext.media.range.height"), CssFeatureId::new("ext.media.range.resolution"), CssFeatureId::new("ext.media.range.color"), CssFeatureId::new("ext.media.range.monochrome")]);
    assert(features()[58].spec_baseline_alias_targets() =~= seq![CssFeatureId::new("official.media.feature.orientation"), CssFeatureId::new("ext.media.hover"), CssFeatureId::new("ext.media.any-hover"), CssFeatureId::new("ext.media.pointer"), CssFeatureId::new("ext.media.any-pointer"), CssFeatureId::new("ext.media.prefers-color-scheme"), CssFeatureId::new("ext.media.prefers-reduced-motion"), CssFeatureId::new("ext.media.prefers-reduced-transparency"), CssFeatureId::new("ext.media.prefers-contrast"), CssFeatureId::new("ext.media.forced-colors"), CssFeatureId::new("ext.media.display-mode")]);
    assert(features()[59].spec_baseline_alias_targets().len() == 0);
}

} // verus!
