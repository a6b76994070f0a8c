//! Support-catalog records 1 through 60 in stable inventory order.
use vstd::prelude::*;

use super::sources::{i_animations1, i_color5, o_cascade4, o_color4, o_conditional3, o_fonts3, o_style_attr, o_syntax3, o_values3, o_variables1, r_cascade5, x_cascade6, x_contain3};
use crate::error::CssFeatureId;
use super::{texts, push_feature, CssFeatureKind, CssFeatureMetadata};

verus! {

/// The records of this part of the catalog, in stable inventory order.
#[verifier::opaque]
pub open spec fn features() -> Seq<CssFeatureMetadata> {
    seq![
        CssFeatureMetadata::spec_complete(
            "baseline.rule.import",
            CssFeatureKind::Rule,
            "@import",
            o_cascade4(),
            "#at-import",
        ),
        CssFeatureMetadata::spec_complete(
            "ext.import.layer",
            CssFeatureKind::Rule,
            "@import layer or layer() clause",
            r_cascade5(),
            "#at-import",
        ),
        CssFeatureMetadata::spec_complete(
            "ext.stylesheet.prelude-order",
            CssFeatureKind::Rule,
            "initial layer statements, imports, namespaces, and body-rule ordering",
            r_cascade5(),
            "#at-import",
        ),
        CssFeatureMetadata::spec_partial(
            "baseline.rule.layer-statement",
            CssFeatureKind::Rule,
            "@layer ...;",
            r_cascade5(),
            "#layering",
            texts::baseline_rule_subset(),
            texts::baseline_rule_remainder(),
        ),
        CssFeatureMetadata::spec_partial(
            "baseline.rule.layer-block",
            CssFeatureKind::Rule,
            "@layer {...}",
            r_cascade5(),
            "#layering",
            texts::baseline_rule_subset(),
            texts::baseline_rule_remainder(),
        ),
        CssFeatureMetadata::spec_complete(
            "baseline.rule.font-face",
            CssFeatureKind::Rule,
            "@font-face",
            o_fonts3(),
            "#font-face-rule",
        ),
        CssFeatureMetadata::spec_partial(
            "baseline.rule.keyframes",
            CssFeatureKind::Rule,
            "@keyframes",
            i_animations1(),
            "#keyframes",
            texts::keyframes_subset(),
            texts::keyframes_remainder(),
        ),
        CssFeatureMetadata::spec_partial(
            "baseline.rule.style",
            CssFeatureKind::Rule,
            "style and nested qualified rules",
            o_syntax3(),
            "#style-rules",
            texts::baseline_rule_subset(),
            texts::baseline_rule_remainder(),
        ),
        CssFeatureMetadata::spec_complete(
            "official.rule.at-rule",
            CssFeatureKind::Rule,
            "generic at-rule",
            o_syntax3(),
            "#at-rules,#consume-at-rule",
        ),
        CssFeatureMetadata::spec_complete(
            "official.qualified-rule.generic",
            CssFeatureKind::Rule,
            "generic qualified rule",
            o_syntax3(),
            "#consume-qualified-rule",
        ),
        CssFeatureMetadata::spec_complete(
            "baseline.rule.media",
            CssFeatureKind::Rule,
            "@media",
            o_conditional3(),
            "#at-media",
        ),
        CssFeatureMetadata::spec_complete(
            "official.rule.conditional-group-context",
            CssFeatureKind::Rule,
            "conditional group rule contents and placement",
            o_conditional3(),
            "#contents,#placement",
        ),
        CssFeatureMetadata::spec_partial(
            "baseline.rule.container",
            CssFeatureKind::Rule,
            "@container",
            x_contain3(),
            "#container-rule",
            texts::baseline_rule_subset(),
            texts::baseline_rule_remainder(),
        ),
        CssFeatureMetadata::spec_partial(
            "baseline.rule.scope",
            CssFeatureKind::Rule,
            "@scope",
            x_cascade6(),
            "#scope-atrule",
            texts::baseline_rule_subset(),
            texts::baseline_rule_remainder(),
        ),
        CssFeatureMetadata::spec_complete(
            "foundation.encoding.charset",
            CssFeatureKind::Rule,
            "optional leading legacy @charset metadata",
            o_syntax3(),
            "#charset-rule",
        ),
        CssFeatureMetadata::spec_complete(
            "foundation.declaration-list.style-attribute",
            CssFeatureKind::Declaration,
            "style-attribute declaration-list structure",
            o_style_attr(),
            "#syntax",
        ),
        CssFeatureMetadata::spec_complete(
            "foundation.declaration.importance",
            CssFeatureKind::Declaration,
            "terminal declaration !important annotation",
            o_cascade4(),
            "#importance",
        ),
        CssFeatureMetadata::spec_complete(
            "official.declaration.generic",
            CssFeatureKind::Declaration,
            "generic declaration",
            o_syntax3(),
            "#consume-declaration",
        ),
        CssFeatureMetadata::spec_complete(
            "official.value.stylesheet",
            CssFeatureKind::Value,
            "<stylesheet>",
            o_syntax3(),
            "#parser-entry-points",
        ),
        CssFeatureMetadata::spec_complete(
            "official.value.rule-list",
            CssFeatureKind::Value,
            "<rule-list>",
            o_syntax3(),
            "#declaration-rule-list",
        ),
        CssFeatureMetadata::spec_complete(
            "official.value.declaration-list",
            CssFeatureKind::Value,
            "<declaration-list>",
            o_syntax3(),
            "#declaration-rule-list",
        ),
        CssFeatureMetadata::spec_complete(
            "official.value.style-block",
            CssFeatureKind::Value,
            "<style-block>",
            o_syntax3(),
            "#declaration-rule-list",
        ),
        CssFeatureMetadata::spec_partial(
            "baseline.declaration.custom-property",
            CssFeatureKind::Declaration,
            "custom-property names and authored token streams",
            o_variables1(),
            "#defining-variables,#syntax",
            "Baseline custom-property names and authored token streams, including I01 recovery behavior, are supported.",
            "Other valid CSS Variables custom-property declaration forms are outside the I01 subset.",
        ),
        CssFeatureMetadata::spec_partial(
            "baseline.value.substitution-dependent",
            CssFeatureKind::Value,
            "preserved known-property values containing substitution functions",
            o_variables1(),
            "#using-variables",
            "Known-property values with syntactically admissible var() references remain authored and symbolic.",
            "Other valid CSS Variables substitution functions and post-substitution forms are outside the I01 subset.",
        ),
        CssFeatureMetadata::spec_complete(
            "official.value.integer",
            CssFeatureKind::Value,
            "<integer>",
            o_values3(),
            "#integers",
        ),
        CssFeatureMetadata::spec_complete(
            "official.value.number",
            CssFeatureKind::Value,
            "<number>",
            o_values3(),
            "#numbers",
        ),
        CssFeatureMetadata::spec_partial(
            "official.value.dimension",
            CssFeatureKind::Value,
            "<dimension>",
            o_values3(),
            "#dimensions",
            texts::dimension_subset(),
            texts::dimension_remainder(),
        ),
        CssFeatureMetadata::spec_complete(
            "official.value.percentage",
            CssFeatureKind::Value,
            "<percentage>",
            o_values3(),
            "#percentages",
        ),
        CssFeatureMetadata::spec_complete(
            "official.value.length",
            CssFeatureKind::Value,
            "<length>",
            o_values3(),
            "#lengths",
        ),
        CssFeatureMetadata::spec_complete(
            "official.value.length-percentage",
            CssFeatureKind::Value,
            "<length-percentage>",
            o_values3(),
            "#mixed-percentages",
        ),
        CssFeatureMetadata::spec_partial(
            "official.value.angle",
            CssFeatureKind::Value,
            "<angle>",
            o_values3(),
            "#angles",
            texts::angle_subset(),
            texts::angle_remainder(),
        ),
        CssFeatureMetadata::spec_partial(
            "official.value.angle-percentage",
            CssFeatureKind::Value,
            "<angle-percentage>",
            o_values3(),
            "#mixed-percentages",
            texts::angle_percentage_subset(),
            texts::angle_percentage_remainder(),
        ),
        CssFeatureMetadata::spec_complete(
            "official.value.time",
            CssFeatureKind::Value,
            "<time>",
            o_values3(),
            "#time",
        ),
        CssFeatureMetadata::spec_partial(
            "official.value.time-percentage",
            CssFeatureKind::Value,
            "<time-percentage>",
            o_values3(),
            "#mixed-percentages",
            texts::time_percentage_subset(),
            texts::time_percentage_remainder(),
        ),
        CssFeatureMetadata::spec_partial(
            "official.value.frequency",
            CssFeatureKind::Value,
            "<frequency>",
            o_values3(),
            "#frequency",
            texts::frequency_subset(),
            texts::frequency_remainder(),
        ),
        CssFeatureMetadata::spec_partial(
            "official.value.frequency-percentage",
            CssFeatureKind::Value,
            "<frequency-percentage>",
            o_values3(),
            "#mixed-percentages",
            texts::frequency_percentage_subset(),
            texts::frequency_percentage_remainder(),
        ),
        CssFeatureMetadata::spec_complete(
            "official.value.resolution",
            CssFeatureKind::Value,
            "<resolution>",
            o_values3(),
            "#resolution",
        ),
        CssFeatureMetadata::spec_complete(
            "official.value.color",
            CssFeatureKind::Value,
            "<color>",
            o_color4(),
            "#color-type",
        ),
        CssFeatureMetadata::spec_complete(
            "official.value.alpha",
            CssFeatureKind::Value,
            "<alpha-value>",
            o_color4(),
            "#alpha-syntax",
        ),
        CssFeatureMetadata::spec_complete(
            "official.value.hue",
            CssFeatureKind::Value,
            "<hue>",
            o_color4(),
            "#hue-syntax",
        ),
        CssFeatureMetadata::spec_complete(
            "official.value.rgb",
            CssFeatureKind::Value,
            "rgb()/rgba()",
            o_color4(),
            "#rgb-functions",
        ),
        CssFeatureMetadata::spec_complete(
            "official.value.hex-color",
            CssFeatureKind::Value,
            "<hex-color>",
            o_color4(),
            "#hex-notation",
        ),
        CssFeatureMetadata::spec_complete(
            "official.value.named-color",
            CssFeatureKind::Value,
            "<named-color>",
            o_color4(),
            "#named-colors",
        ),
        CssFeatureMetadata::spec_complete(
            "official.value.system-color",
            CssFeatureKind::Value,
            "<system-color>",
            o_color4(),
            "#css-system-colors",
        ),
        CssFeatureMetadata::spec_complete(
            "official.value.deprecated-system-color",
            CssFeatureKind::Value,
            "<deprecated-system-color>",
            o_color4(),
            "#css-system-colors",
        ),
        CssFeatureMetadata::spec_complete(
            "official.value.transparent",
            CssFeatureKind::Value,
            "transparent",
            o_color4(),
            "#transparent-color",
        ),
        CssFeatureMetadata::spec_complete(
            "official.value.currentcolor",
            CssFeatureKind::Value,
            "currentColor",
            o_color4(),
            "#currentcolor-color",
        ),
        CssFeatureMetadata::spec_complete(
            "official.value.hsl",
            CssFeatureKind::Value,
            "hsl()/hsla()",
            o_color4(),
            "#the-hsl-notation",
        ),
        CssFeatureMetadata::spec_complete(
            "official.value.hwb",
            CssFeatureKind::Value,
            "hwb()",
            o_color4(),
            "#the-hwb-notation",
        ),
        CssFeatureMetadata::spec_complete(
            "official.value.lab",
            CssFeatureKind::Value,
            "lab()",
            o_color4(),
            "#specifying-lab-lch",
        ),
        CssFeatureMetadata::spec_complete(
            "official.value.lch",
            CssFeatureKind::Value,
            "lch()",
            o_color4(),
            "#specifying-lab-lch",
        ),
        CssFeatureMetadata::spec_complete(
            "official.value.oklab",
            CssFeatureKind::Value,
            "oklab()",
            o_color4(),
            "#specifying-oklab-oklch",
        ),
        CssFeatureMetadata::spec_complete(
            "official.value.oklch",
            CssFeatureKind::Value,
            "oklch()",
            o_color4(),
            "#specifying-oklab-oklch",
        ),
        CssFeatureMetadata::spec_complete(
            "official.value.predefined-color",
            CssFeatureKind::Value,
            "color()",
            o_color4(),
            "#color-function",
        ),
        CssFeatureMetadata::spec_partial(
            "ext.value.relative-color",
            CssFeatureKind::Value,
            "relative color syntax",
            i_color5(),
            "#relative-colors,#relative-syntax",
            texts::color5_relative_subset(),
            texts::color5_relative_remainder(),
        ),
        CssFeatureMetadata::spec_complete(
            "ext.value.relative-color.rgb",
            CssFeatureKind::Value,
            "relative rgb()/rgba()",
            i_color5(),
            "#relative-RGB",
        ),
        CssFeatureMetadata::spec_complete(
            "ext.value.relative-color.hsl",
            CssFeatureKind::Value,
            "relative hsl()/hsla()",
            i_color5(),
            "#relative-HSL",
        ),
        CssFeatureMetadata::spec_complete(
            "ext.value.relative-color.hwb",
            CssFeatureKind::Value,
            "relative hwb()",
            i_color5(),
            "#relative-HWB",
        ),
        CssFeatureMetadata::spec_complete(
            "ext.value.relative-color.lab",
            CssFeatureKind::Value,
            "relative lab()",
            i_color5(),
            "#relative-Lab",
        ),
        CssFeatureMetadata::spec_complete(
            "ext.value.relative-color.oklab",
            CssFeatureKind::Value,
            "relative oklab()",
            i_color5(),
            "#relative-Oklab",
        ),
    ]
}

/// Builds the records of this part of the catalog; every record is well formed.
#[verifier::rlimit(40)]
pub(crate) fn feature_records() -> (records: Vec<CssFeatureMetadata>)
    ensures
        records@ == features(),
        forall|i: int| 0 <= i < records@.len() ==> (#[trigger] records@[i]).wf(),
{
    proof {
        reveal(features);
    }
    let mut records = Vec::new();
    push_feature(&mut records, CssFeatureMetadata::complete(
        "baseline.rule.import",
        CssFeatureKind::Rule,
        "@import",
        o_cascade4(),
        "#at-import",
    ));
    push_feature(&mut records, CssFeatureMetadata::complete(
        "ext.import.layer",
        CssFeatureKind::Rule,
        "@import layer or layer() clause",
        r_cascade5(),
        "#at-import",
    ));
    push_feature(&mut records, CssFeatureMetadata::complete(
        "ext.stylesheet.prelude-order",
        CssFeatureKind::Rule,
        "initial layer statements, imports, namespaces, and body-rule ordering",
        r_cascade5(),
        "#at-import",
    ));
    push_feature(&mut records, CssFeatureMetadata::partial(
        "baseline.rule.layer-statement",
        CssFeatureKind::Rule,
        "@layer ...;",
        r_cascade5(),
        "#layering",
        texts::baseline_rule_subset(),
        texts::baseline_rule_remainder(),
    ));
    push_feature(&mut records, CssFeatureMetadata::partial(
        "baseline.rule.layer-block",
        CssFeatureKind::Rule,
        "@layer {...}",
        r_cascade5(),
        "#layering",
        texts::baseline_rule_subset(),
        texts::baseline_rule_remainder(),
    ));
    push_feature(&mut records, CssFeatureMetadata::complete(
        "baseline.rule.font-face",
        CssFeatureKind::Rule,
        "@font-face",
        o_fonts3(),
        "#font-face-rule",
    ));
    push_feature(&mut records, CssFeatureMetadata::partial(
        "baseline.rule.keyframes",
        CssFeatureKind::Rule,
        "@keyframes",
        i_animations1(),
        "#keyframes",
        texts::keyframes_subset(),
        texts::keyframes_remainder(),
    ));
    push_feature(&mut records, CssFeatureMetadata::partial(
        "baseline.rule.style",
        CssFeatureKind::Rule,
        "style and nested qualified rules",
        o_syntax3(),
        "#style-rules",
        texts::baseline_rule_subset(),
        texts::baseline_rule_remainder(),
    ));
    push_feature(&mut records, CssFeatureMetadata::complete(
        "official.rule.at-rule",
        CssFeatureKind::Rule,
        "generic at-rule",
        o_syntax3(),
        "#at-rules,#consume-at-rule",
    ));
    push_feature(&mut records, CssFeatureMetadata::complete(
        "official.qualified-rule.generic",
        CssFeatureKind::Rule,
        "generic qualified rule",
        o_syntax3(),
        "#consume-qualified-rule",
    ));
    push_feature(&mut records, CssFeatureMetadata::complete(
        "baseline.rule.media",
        CssFeatureKind::Rule,
        "@media",
        o_conditional3(),
        "#at-media",
    ));
    push_feature(&mut records, CssFeatureMetadata::complete(
        "official.rule.conditional-group-context",
        CssFeatureKind::Rule,
        "conditional group rule contents and placement",
        o_conditional3(),
        "#contents,#placement",
    ));
    push_feature(&mut records, CssFeatureMetadata::partial(
        "baseline.rule.container",
        CssFeatureKind::Rule,
        "@container",
        x_contain3(),
        "#container-rule",
        texts::baseline_rule_subset(),
        texts::baseline_rule_remainder(),
    ));
    push_feature(&mut records, CssFeatureMetadata::partial(
        "baseline.rule.scope",
        CssFeatureKind::Rule,
        "@scope",
        x_cascade6(),
        "#scope-atrule",
        texts::baseline_rule_subset(),
        texts::baseline_rule_remainder(),
    ));
    push_feature(&mut records, CssFeatureMetadata::complete(
        "foundation.encoding.charset",
        CssFeatureKind::Rule,
        "optional leading legacy @charset metadata",
        o_syntax3(),
        "#charset-rule",
    ));
    push_feature(&mut records, CssFeatureMetadata::complete(
        "foundation.declaration-list.style-attribute",
        CssFeatureKind::Declaration,
        "style-attribute declaration-list structure",
        o_style_attr(),
        "#syntax",
    ));
    push_feature(&mut records, CssFeatureMetadata::complete(
        "foundation.declaration.importance",
        CssFeatureKind::Declaration,
        "terminal declaration !important annotation",
        o_cascade4(),
        "#importance",
    ));
    push_feature(&mut records, CssFeatureMetadata::complete(
        "official.declaration.generic",
        CssFeatureKind::Declaration,
        "generic declaration",
        o_syntax3(),
        "#consume-declaration",
    ));
    push_feature(&mut records, CssFeatureMetadata::complete(
        "official.value.stylesheet",
        CssFeatureKind::Value,
        "<stylesheet>",
        o_syntax3(),
        "#parser-entry-points",
    ));
    push_feature(&mut records, CssFeatureMetadata::complete(
        "official.value.rule-list",
        CssFeatureKind::Value,
        "<rule-list>",
        o_syntax3(),
        "#declaration-rule-list",
    ));
    push_feature(&mut records, CssFeatureMetadata::complete(
        "official.value.declaration-list",
        CssFeatureKind::Value,
        "<declaration-list>",
        o_syntax3(),
        "#declaration-rule-list",
    ));
    push_feature(&mut records, CssFeatureMetadata::complete(
        "official.value.style-block",
        CssFeatureKind::Value,
        "<style-block>",
        o_syntax3(),
        "#declaration-rule-list",
    ));
    push_feature(&mut records, CssFeatureMetadata::partial(
        "baseline.declaration.custom-property",
        CssFeatureKind::Declaration,
        "custom-property names and authored token streams",
        o_variables1(),
        "#defining-variables,#syntax",
        "Baseline custom-property names and authored token streams, including I01 recovery behavior, are supported.",
        "Other valid CSS Variables custom-property declaration forms are outside the I01 subset.",
    ));
    push_feature(&mut records, CssFeatureMetadata::partial(
        "baseline.value.substitution-dependent",
        CssFeatureKind::Value,
        "preserved known-property values containing substitution functions",
        o_variables1(),
        "#using-variables",
        "Known-property values with syntactically admissible var() references remain authored and symbolic.",
        "Other valid CSS Variables substitution functions and post-substitution forms are outside the I01 subset.",
    ));
    push_feature(&mut records, CssFeatureMetadata::complete(
        "official.value.integer",
        CssFeatureKind::Value,
        "<integer>",
        o_values3(),
        "#integers",
    ));
    push_feature(&mut records, CssFeatureMetadata::complete(
        "official.value.number",
        CssFeatureKind::Value,
        "<number>",
        o_values3(),
        "#numbers",
    ));
    push_feature(&mut records, CssFeatureMetadata::partial(
        "official.value.dimension",
        CssFeatureKind::Value,
        "<dimension>",
        o_values3(),
        "#dimensions",
        texts::dimension_subset(),
        texts::dimension_remainder(),
    ));
    push_feature(&mut records, CssFeatureMetadata::complete(
        "official.value.percentage",
        CssFeatureKind::Value,
        "<percentage>",
        o_values3(),
        "#percentages",
    ));
    push_feature(&mut records, CssFeatureMetadata::complete(
        "official.value.length",
        CssFeatureKind::Value,
        "<length>",
        o_values3(),
        "#lengths",
    ));
    push_feature(&mut records, CssFeatureMetadata::complete(
        "official.value.length-percentage",
        CssFeatureKind::Value,
        "<length-percentage>",
        o_values3(),
        "#mixed-percentages",
    ));
    push_feature(&mut records, CssFeatureMetadata::partial(
        "official.value.angle",
        CssFeatureKind::Value,
        "<angle>",
        o_values3(),
        "#angles",
        texts::angle_subset(),
        texts::angle_remainder(),
    ));
    push_feature(&mut records, CssFeatureMetadata::partial(
        "official.value.angle-percentage",
        CssFeatureKind::Value,
        "<angle-percentage>",
        o_values3(),
        "#mixed-percentages",
        texts::angle_percentage_subset(),
        texts::angle_percentage_remainder(),
    ));
    push_feature(&mut records, CssFeatureMetadata::complete(
        "official.value.time",
        CssFeatureKind::Value,
        "<time>",
        o_values3(),
        "#time",
    ));
    push_feature(&mut records, CssFeatureMetadata::partial(
        "official.value.time-percentage",
        CssFeatureKind::Value,
        "<time-percentage>",
        o_values3(),
        "#mixed-percentages",
        texts::time_percentage_subset(),
        texts::time_percentage_remainder(),
    ));
    push_feature(&mut records, CssFeatureMetadata::partial(
        "official.value.frequency",
        CssFeatureKind::Value,
        "<frequency>",
        o_values3(),
        "#frequency",
        texts::frequency_subset(),
        texts::frequency_remainder(),
    ));
    push_feature(&mut records, CssFeatureMetadata::partial(
        "official.value.frequency-percentage",
        CssFeatureKind::Value,
        "<frequency-percentage>",
        o_values3(),
        "#mixed-percentages",
        texts::frequency_percentage_subset(),
        texts::frequency_percentage_remainder(),
    ));
    push_feature(&mut records, CssFeatureMetadata::complete(
        "official.value.resolution",
        CssFeatureKind::Value,
        "<resolution>",
        o_values3(),
        "#resolution",
    ));
    push_feature(&mut records, CssFeatureMetadata::complete(
        "official.value.color",
        CssFeatureKind::Value,
        "<color>",
        o_color4(),
        "#color-type",
    ));
    push_feature(&mut records, CssFeatureMetadata::complete(
        "official.value.alpha",
        CssFeatureKind::Value,
        "<alpha-value>",
        o_color4(),
        "#alpha-syntax",
    ));
    push_feature(&mut records, CssFeatureMetadata::complete(
        "official.value.hue",
        CssFeatureKind::Value,
        "<hue>",
        o_color4(),
        "#hue-syntax",
    ));
    push_feature(&mut records, CssFeatureMetadata::complete(
        "official.value.rgb",
        CssFeatureKind::Value,
        "rgb()/rgba()",
        o_color4(),
        "#rgb-functions",
    ));
    push_feature(&mut records, CssFeatureMetadata::complete(
        "official.value.hex-color",
        CssFeatureKind::Value,
        "<hex-color>",
        o_color4(),
        "#hex-notation",
    ));
    push_feature(&mut records, CssFeatureMetadata::complete(
        "official.value.named-color",
        CssFeatureKind::Value,
        "<named-color>",
        o_color4(),
        "#named-colors",
    ));
    push_feature(&mut records, CssFeatureMetadata::complete(
        "official.value.system-color",
        CssFeatureKind::Value,
        "<system-color>",
        o_color4(),
        "#css-system-colors",
    ));
    push_feature(&mut records, CssFeatureMetadata::complete(
        "official.value.deprecated-system-color",
        CssFeatureKind::Value,
        "<deprecated-system-color>",
        o_color4(),
        "#css-system-colors",
    ));
    push_feature(&mut records, CssFeatureMetadata::complete(
        "official.value.transparent",
        CssFeatureKind::Value,
        "transparent",
        o_color4(),
        "#transparent-color",
    ));
    push_feature(&mut records, CssFeatureMetadata::complete(
        "official.value.currentcolor",
        CssFeatureKind::Value,
        "currentColor",
        o_color4(),
        "#currentcolor-color",
    ));
    push_feature(&mut records, CssFeatureMetadata::complete(
        "official.value.hsl",
        CssFeatureKind::Value,
        "hsl()/hsla()",
        o_color4(),
        "#the-hsl-notation",
    ));
    push_feature(&mut records, CssFeatureMetadata::complete(
        "official.value.hwb",
        CssFeatureKind::Value,
        "hwb()",
        o_color4(),
        "#the-hwb-notation",
    ));
    push_feature(&mut records, CssFeatureMetadata::complete(
        "official.value.lab",
        CssFeatureKind::Value,
        "lab()",
        o_color4(),
        "#specifying-lab-lch",
    ));
    push_feature(&mut records, CssFeatureMetadata::complete(
        "official.value.lch",
        CssFeatureKind::Value,
        "lch()",
        o_color4(),
        "#specifying-lab-lch",
    ));
    push_feature(&mut records, CssFeatureMetadata::complete(
        "official.value.oklab",
        CssFeatureKind::Value,
        "oklab()",
        o_color4(),
        "#specifying-oklab-oklch",
    ));
    push_feature(&mut records, CssFeatureMetadata::complete(
        "official.value.oklch",
        CssFeatureKind::Value,
        "oklch()",
        o_color4(),
        "#specifying-oklab-oklch",
    ));
    push_feature(&mut records, CssFeatureMetadata::complete(
        "official.value.predefined-color",
        CssFeatureKind::Value,
        "color()",
        o_color4(),
        "#color-function",
    ));
    push_feature(&mut records, CssFeatureMetadata::partial(
        "ext.value.relative-color",
        CssFeatureKind::Value,
        "relative color syntax",
        i_color5(),
        "#relative-colors,#relative-syntax",
        texts::color5_relative_subset(),
        texts::color5_relative_remainder(),
    ));
    push_feature(&mut records, CssFeatureMetadata::complete(
        "ext.value.relative-color.rgb",
        CssFeatureKind::Value,
        "relative rgb()/rgba()",
        i_color5(),
        "#relative-RGB",
    ));
    push_feature(&mut records, CssFeatureMetadata::complete(
        "ext.value.relative-color.hsl",
        CssFeatureKind::Value,
        "relative hsl()/hsla()",
        i_color5(),
        "#relative-HSL",
    ));
    push_feature(&mut records, CssFeatureMetadata::complete(
        "ext.value.relative-color.hwb",
        CssFeatureKind::Value,
        "relative hwb()",
        i_color5(),
        "#relative-HWB",
    ));
    push_feature(&mut records, CssFeatureMetadata::complete(
        "ext.value.relative-color.lab",
        CssFeatureKind::Value,
        "relative lab()",
        i_color5(),
        "#relative-Lab",
    ));
    push_feature(&mut records, CssFeatureMetadata::complete(
        "ext.value.relative-color.oklab",
        CssFeatureKind::Value,
        "relative oklab()",
        i_color5(),
        "#relative-Oklab",
    ));
    records
}

/// This part of the catalog holds 60 records.
pub proof fn lemma_features_len()
    ensures
        features().len() == 60,
{
    reveal(features);
}

/// The alias records of this part, the atomic targets they name, and the identities of the
/// records those targets name; every other record has no targets.
#[verifier::rlimit(100)]
pub proof fn lemma_alias_facts()
    ensures
        forall|i: int| 0 <= i < features().len() ==> #[trigger] features()[i].spec_baseline_alias_targets().len() == 0,
{
    broadcast use {
        CssFeatureMetadata::lemma_complete_parts,
        CssFeatureMetadata::lemma_partial_parts,
        CssFeatureMetadata::lemma_baseline_alias_parts,
        CssFeatureMetadata::lemma_recognized_unsupported_parts,
        CssFeatureMetadata::lemma_partial_property_parts,
        CssFeatureMetadata::lemma_complete_property_parts,
        CssFeatureMetadata::lemma_partial_property_with_boundary_parts,
    };

    reveal(features);
    assert(features()[0].spec_baseline_alias_targets().len() == 0);
    assert(features()[1].spec_baseline_alias_targets().len() == 0);
    assert(features()[2].spec_baseline_alias_targets().len() == 0);
    assert(features()[3].spec_baseline_alias_targets().len() == 0);
    assert(features()[4].spec_baseline_alias_targets().len() == 0);
    assert(features()[5].spec_baseline_alias_targets().len() == 0);
    assert(features()[6].spec_baseline_alias_targets().len() == 0);
    assert(features()[7].spec_baseline_alias_targets().len() == 0);
    assert(features()[8].spec_baseline_alias_targets().len() == 0);
    assert(features()[9].spec_baseline_alias_targets().len() == 0);
    assert(features()[10].spec_baseline_alias_targets().len() == 0);
    assert(features()[11].spec_baseline_alias_targets().len() == 0);
    assert(features()[12].spec_baseline_alias_targets().len() == 0);
    assert(features()[13].spec_baseline_alias_targets().len() == 0);
    assert(features()[14].spec_baseline_alias_targets().len() == 0);
    assert(features()[15].spec_baseline_alias_targets().len() == 0);
    assert(features()[16].spec_baseline_alias_targets().len() == 0);
    assert(features()[17].spec_baseline_alias_targets().len() == 0);
    assert(features()[18].spec_baseline_alias_targets().len() == 0);
    assert(features()[19].spec_baseline_alias_targets().len() == 0);
    assert(features()[20].spec_baseline_alias_targets().len() == 0);
    assert(features()[21].spec_baseline_alias_targets().len() == 0);
    assert(features()[22].spec_baseline_alias_targets().len() == 0);
    assert(features()[23].spec_baseline_alias_targets().len() == 0);
    assert(features()[24].spec_baseline_alias_targets().len() == 0);
    assert(features()[25].spec_baseline_alias_targets().len() == 0);
    assert(features()[26].spec_baseline_alias_targets().len() == 0);
    assert(features()[27].spec_baseline_alias_targets().len() == 0);
    assert(features()[28].spec_baseline_alias_targets().len() == 0);
    assert(features()[29].spec_baseline_alias_targets().len() == 0);
    assert(features()[30].spec_baseline_alias_targets().len() == 0);
    assert(features()[31].spec_baseline_alias_targets().len() == 0);
    assert(features()[32].spec_baseline_alias_targets().len() == 0);
    assert(features()[33].spec_baseline_alias_targets().len() == 0);
    assert(features()[34].spec_baseline_alias_targets().len() == 0);
    assert(features()[35].spec_baseline_alias_targets().len() == 0);
    assert(features()[36].spec_baseline_alias_targets().len() == 0);
    assert(features()[37].spec_baseline_alias_targets().len() == 0);
    assert(features()[38].spec_baseline_alias_targets().len() == 0);
    assert(features()[39].spec_baseline_alias_targets().len() == 0);
    assert(features()[40].spec_baseline_alias_targets().len() == 0);
    assert(features()[41].spec_baseline_alias_targets().len() == 0);
    assert(features()[42].spec_baseline_alias_targets().len() == 0);
    assert(features()[43].spec_baseline_alias_targets().len() == 0);
    assert(features()[44].spec_baseline_alias_targets().len() == 0);
    assert(features()[45].spec_baseline_alias_targets().len() == 0);
    assert(features()[46].spec_baseline_alias_targets().len() == 0);
    assert(features()[47].spec_baseline_alias_targets().len() == 0);
    assert(features()[48].spec_baseline_alias_targets().len() == 0);
    assert(features()[49].spec_baseline_alias_targets().len() == 0);
    assert(features()[50].spec_baseline_alias_targets().len() == 0);
    assert(features()[51].spec_baseline_alias_targets().len() == 0);
    assert(features()[52].spec_baseline_alias_targets().len() == 0);
    assert(features()[53].spec_baseline_alias_targets().len() == 0);
    assert(features()[54].spec_baseline_alias_targets().len() == 0);
    assert(features()[55].spec_baseline_alias_targets().len() == 0);
    assert(features()[56].spec_baseline_alias_targets().len() == 0);
    assert(features()[57].spec_baseline_alias_targets().len() == 0);
    assert(features()[58].spec_baseline_alias_targets().len() == 0);
    assert(features()[59].spec_baseline_alias_targets().len() == 0);
}

} // verus!
