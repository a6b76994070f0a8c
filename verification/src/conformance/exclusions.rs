//! The official conformance-exclusion registry.
use vstd::prelude::*;

use super::sources::{o_backgrounds3, o_box3, o_cascade4, o_color4, o_compositing1, o_conditional3, o_contain1, o_counterstyles3, o_css2, o_easing1, o_flexbox1, o_fonts3, o_images3, o_media3, o_multicol1, o_namespaces3, o_selectors3, o_style_attr, o_syntax3, o_transforms1, o_ui3, o_values3, o_variables1, o_writing3};
use super::{push_exclusion, texts, CssConformanceSupersedingId, CssExclusionMetadata, CssExclusionReason};

verus! {

broadcast use super::CssConformanceSupersedingId::lemma_spec_new_literal;

/// Exclusions 1 through 60 of the registry.
#[verifier::opaque]
pub open spec fn exclusions_1() -> Seq<CssExclusionMetadata> {
    seq![
        CssExclusionMetadata::spec_new(
            "excluded.O-WRITING3.property.glyph-orientation-horizontal",
            o_writing3(),
            "#propdef-glyph-orientation-horizontal",
            CssExclusionReason::SupersededWithoutCurrentProduction,
            Some(&[CssConformanceSupersedingId::spec_new("official.property.text-orientation")]),
        ),
        CssExclusionMetadata::spec_new(
            "excluded.O-UI3.property.ime-mode",
            o_ui3(),
            "#propdef-ime-mode",
            CssExclusionReason::SupersededWithoutCurrentProduction,
            None,
        ),
        CssExclusionMetadata::spec_new(
            "excluded.O-CSS2.property.margin",
            o_css2(),
            "box.html#propdef-margin",
            CssExclusionReason::SupersededWithoutCurrentProduction,
            Some(&[CssConformanceSupersedingId::spec_new("baseline.property.margin")]),
        ),
        CssExclusionMetadata::spec_new(
            "excluded.O-CSS2.property.margin-bottom",
            o_css2(),
            "box.html#propdef-margin-bottom",
            CssExclusionReason::SupersededWithoutCurrentProduction,
            Some(&[CssConformanceSupersedingId::spec_new("baseline.property.margin-bottom")]),
        ),
        CssExclusionMetadata::spec_new(
            "excluded.O-CSS2.property.margin-left",
            o_css2(),
            "box.html#propdef-margin-left",
            CssExclusionReason::SupersededWithoutCurrentProduction,
            Some(&[CssConformanceSupersedingId::spec_new("baseline.property.margin-left")]),
        ),
        CssExclusionMetadata::spec_new(
            "excluded.O-CSS2.property.margin-right",
            o_css2(),
            "box.html#propdef-margin-right",
            CssExclusionReason::SupersededWithoutCurrentProduction,
            Some(&[CssConformanceSupersedingId::spec_new("baseline.property.margin-right")]),
        ),
        CssExclusionMetadata::spec_new(
            "excluded.O-CSS2.property.margin-top",
            o_css2(),
            "box.html#propdef-margin-top",
            CssExclusionReason::SupersededWithoutCurrentProduction,
            Some(&[CssConformanceSupersedingId::spec_new("baseline.property.margin-top")]),
        ),
        CssExclusionMetadata::spec_new(
            "excluded.O-CSS2.property.padding",
            o_css2(),
            "box.html#propdef-padding",
            CssExclusionReason::SupersededWithoutCurrentProduction,
            Some(&[CssConformanceSupersedingId::spec_new("baseline.property.padding")]),
        ),
        CssExclusionMetadata::spec_new(
            "excluded.O-CSS2.property.padding-bottom",
            o_css2(),
            "box.html#propdef-padding-bottom",
            CssExclusionReason::SupersededWithoutCurrentProduction,
            Some(&[CssConformanceSupersedingId::spec_new("baseline.property.padding-bottom")]),
        ),
        CssExclusionMetadata::spec_new(
            "excluded.O-CSS2.property.padding-left",
            o_css2(),
            "box.html#propdef-padding-left",
            CssExclusionReason::SupersededWithoutCurrentProduction,
            Some(&[CssConformanceSupersedingId::spec_new("baseline.property.padding-left")]),
        ),
        CssExclusionMetadata::spec_new(
            "excluded.O-CSS2.property.padding-right",
            o_css2(),
            "box.html#propdef-padding-right",
            CssExclusionReason::SupersededWithoutCurrentProduction,
            Some(&[CssConformanceSupersedingId::spec_new("baseline.property.padding-right")]),
        ),
        CssExclusionMetadata::spec_new(
            "excluded.O-CSS2.property.padding-top",
            o_css2(),
            "box.html#propdef-padding-top",
            CssExclusionReason::SupersededWithoutCurrentProduction,
            Some(&[CssConformanceSupersedingId::spec_new("baseline.property.padding-top")]),
        ),
        CssExclusionMetadata::spec_new(
            "excluded.O-CSS2.property.color",
            o_css2(),
            "colors.html#propdef-color",
            CssExclusionReason::SupersededWithoutCurrentProduction,
            Some(&[CssConformanceSupersedingId::spec_new("baseline.property.color")]),
        ),
        CssExclusionMetadata::spec_new(
            "excluded.O-CSS2.property.background",
            o_css2(),
            "colors.html#propdef-background",
            CssExclusionReason::SupersededWithoutCurrentProduction,
            Some(&[CssConformanceSupersedingId::spec_new("baseline.property.background")]),
        ),
        CssExclusionMetadata::spec_new(
            "excluded.O-CSS2.property.background-attachment",
            o_css2(),
            "colors.html#propdef-background-attachment",
            CssExclusionReason::SupersededWithoutCurrentProduction,
            Some(&[CssConformanceSupersedingId::spec_new("baseline.property.background-attachment")]),
        ),
        CssExclusionMetadata::spec_new(
            "excluded.O-CSS2.property.background-color",
            o_css2(),
            "colors.html#propdef-background-color",
            CssExclusionReason::SupersededWithoutCurrentProduction,
            Some(&[CssConformanceSupersedingId::spec_new("baseline.property.background-color")]),
        ),
        CssExclusionMetadata::spec_new(
            "excluded.O-CSS2.property.background-image",
            o_css2(),
            "colors.html#propdef-background-image",
            CssExclusionReason::SupersededWithoutCurrentProduction,
            Some(&[CssConformanceSupersedingId::spec_new("baseline.property.background-image")]),
        ),
        CssExclusionMetadata::spec_new(
            "excluded.O-CSS2.property.background-position",
            o_css2(),
            "colors.html#propdef-background-position",
            CssExclusionReason::SupersededWithoutCurrentProduction,
            Some(&[CssConformanceSupersedingId::spec_new("baseline.property.background-position")]),
        ),
        CssExclusionMetadata::spec_new(
            "excluded.O-CSS2.property.background-repeat",
            o_css2(),
            "colors.html#propdef-background-repeat",
            CssExclusionReason::SupersededWithoutCurrentProduction,
            Some(&[CssConformanceSupersedingId::spec_new("baseline.property.background-repeat")]),
        ),
        CssExclusionMetadata::spec_new(
            "excluded.O-CSS2.property.border",
            o_css2(),
            "box.html#propdef-border",
            CssExclusionReason::SupersededWithoutCurrentProduction,
            Some(&[CssConformanceSupersedingId::spec_new("baseline.property.border")]),
        ),
        CssExclusionMetadata::spec_new(
            "excluded.O-CSS2.property.border-bottom",
            o_css2(),
            "box.html#propdef-border-bottom",
            CssExclusionReason::SupersededWithoutCurrentProduction,
            Some(&[CssConformanceSupersedingId::spec_new("baseline.property.border-bottom")]),
        ),
        CssExclusionMetadata::spec_new(
            "excluded.O-CSS2.property.border-bottom-color",
            o_css2(),
            "box.html#propdef-border-bottom-color",
            CssExclusionReason::SupersededWithoutCurrentProduction,
            Some(&[CssConformanceSupersedingId::spec_new("baseline.property.border-bottom-color")]),
        ),
        CssExclusionMetadata::spec_new(
            "excluded.O-CSS2.property.border-bottom-style",
            o_css2(),
            "box.html#propdef-border-bottom-style",
            CssExclusionReason::SupersededWithoutCurrentProduction,
            Some(&[CssConformanceSupersedingId::spec_new("baseline.property.border-bottom-style")]),
        ),
        CssExclusionMetadata::spec_new(
            "excluded.O-CSS2.property.border-bottom-width",
            o_css2(),
            "box.html#propdef-border-bottom-width",
            CssExclusionReason::SupersededWithoutCurrentProduction,
            Some(&[CssConformanceSupersedingId::spec_new("baseline.property.border-bottom-width")]),
        ),
        CssExclusionMetadata::spec_new(
            "excluded.O-CSS2.property.border-color",
            o_css2(),
            "box.html#propdef-border-color",
            CssExclusionReason::SupersededWithoutCurrentProduction,
            Some(&[CssConformanceSupersedingId::spec_new("baseline.property.border-color")]),
        ),
        CssExclusionMetadata::spec_new(
            "excluded.O-CSS2.property.border-left",
            o_css2(),
            "box.html#propdef-border-left",
            CssExclusionReason::SupersededWithoutCurrentProduction,
            Some(&[CssConformanceSupersedingId::spec_new("baseline.property.border-left")]),
        ),
        CssExclusionMetadata::spec_new(
            "excluded.O-CSS2.property.border-left-color",
            o_css2(),
            "box.html#propdef-border-left-color",
            CssExclusionReason::SupersededWithoutCurrentProduction,
            Some(&[CssConformanceSupersedingId::spec_new("baseline.property.border-left-color")]),
        ),
        CssExclusionMetadata::spec_new(
            "excluded.O-CSS2.property.border-left-style",
            o_css2(),
            "box.html#propdef-border-left-style",
            CssExclusionReason::SupersededWithoutCurrentProduction,
            Some(&[CssConformanceSupersedingId::spec_new("baseline.property.border-left-style")]),
        ),
        CssExclusionMetadata::spec_new(
            "excluded.O-CSS2.property.border-left-width",
            o_css2(),
            "box.html#propdef-border-left-width",
            CssExclusionReason::SupersededWithoutCurrentProduction,
            Some(&[CssConformanceSupersedingId::spec_new("baseline.property.border-left-width")]),
        ),
        CssExclusionMetadata::spec_new(
            "excluded.O-CSS2.property.border-right",
            o_css2(),
            "box.html#propdef-border-right",
            CssExclusionReason::SupersededWithoutCurrentProduction,
            Some(&[CssConformanceSupersedingId::spec_new("baseline.property.border-right")]),
        ),
        CssExclusionMetadata::spec_new(
            "excluded.O-CSS2.property.border-right-color",
            o_css2(),
            "box.html#propdef-border-right-color",
            CssExclusionReason::SupersededWithoutCurrentProduction,
            Some(&[CssConformanceSupersedingId::spec_new("baseline.property.border-right-color")]),
        ),
        CssExclusionMetadata::spec_new(
            "excluded.O-CSS2.property.border-right-style",
            o_css2(),
            "box.html#propdef-border-right-style",
            CssExclusionReason::SupersededWithoutCurrentProduction,
            Some(&[CssConformanceSupersedingId::spec_new("baseline.property.border-right-style")]),
        ),
        CssExclusionMetadata::spec_new(
            "excluded.O-CSS2.property.border-right-width",
            o_css2(),
            "box.html#propdef-border-right-width",
            CssExclusionReason::SupersededWithoutCurrentProduction,
            Some(&[CssConformanceSupersedingId::spec_new("baseline.property.border-right-width")]),
        ),
        CssExclusionMetadata::spec_new(
            "excluded.O-CSS2.property.border-style",
            o_css2(),
            "box.html#propdef-border-style",
            CssExclusionReason::SupersededWithoutCurrentProduction,
            Some(&[CssConformanceSupersedingId::spec_new("baseline.property.border-style")]),
        ),
        CssExclusionMetadata::spec_new(
            "excluded.O-CSS2.property.border-top",
            o_css2(),
            "box.html#propdef-border-top",
            CssExclusionReason::SupersededWithoutCurrentProduction,
            Some(&[CssConformanceSupersedingId::spec_new("baseline.property.border-top")]),
        ),
        CssExclusionMetadata::spec_new(
            "excluded.O-CSS2.property.border-top-color",
            o_css2(),
            "box.html#propdef-border-top-color",
            CssExclusionReason::SupersededWithoutCurrentProduction,
            Some(&[CssConformanceSupersedingId::spec_new("baseline.property.border-top-color")]),
        ),
        CssExclusionMetadata::spec_new(
            "excluded.O-CSS2.property.border-top-style",
            o_css2(),
            "box.html#propdef-border-top-style",
            CssExclusionReason::SupersededWithoutCurrentProduction,
            Some(&[CssConformanceSupersedingId::spec_new("baseline.property.border-top-style")]),
        ),
        CssExclusionMetadata::spec_new(
            "excluded.O-CSS2.property.border-top-width",
            o_css2(),
            "box.html#propdef-border-top-width",
            CssExclusionReason::SupersededWithoutCurrentProduction,
            Some(&[CssConformanceSupersedingId::spec_new("baseline.property.border-top-width")]),
        ),
        CssExclusionMetadata::spec_new(
            "excluded.O-CSS2.property.border-width",
            o_css2(),
            "box.html#propdef-border-width",
            CssExclusionReason::SupersededWithoutCurrentProduction,
            Some(&[CssConformanceSupersedingId::spec_new("baseline.property.border-width")]),
        ),
        CssExclusionMetadata::spec_new(
            "excluded.O-CSS2.property.font",
            o_css2(),
            "fonts.html#propdef-font",
            CssExclusionReason::SupersededWithoutCurrentProduction,
            Some(&[CssConformanceSupersedingId::spec_new("baseline.property.font")]),
        ),
        CssExclusionMetadata::spec_new(
            "excluded.O-CSS2.property.font-family",
            o_css2(),
            "fonts.html#propdef-font-family",
            CssExclusionReason::SupersededWithoutCurrentProduction,
            Some(&[CssConformanceSupersedingId::spec_new("baseline.property.font-family")]),
        ),
        CssExclusionMetadata::spec_new(
            "excluded.O-CSS2.property.font-size",
            o_css2(),
            "fonts.html#propdef-font-size",
            CssExclusionReason::SupersededWithoutCurrentProduction,
            Some(&[CssConformanceSupersedingId::spec_new("baseline.property.font-size")]),
        ),
        CssExclusionMetadata::spec_new(
            "excluded.O-CSS2.property.font-style",
            o_css2(),
            "fonts.html#propdef-font-style",
            CssExclusionReason::SupersededWithoutCurrentProduction,
            Some(&[CssConformanceSupersedingId::spec_new("baseline.property.font-style")]),
        ),
        CssExclusionMetadata::spec_new(
            "excluded.O-CSS2.property.font-variant",
            o_css2(),
            "fonts.html#propdef-font-variant",
            CssExclusionReason::SupersededWithoutCurrentProduction,
            Some(&[CssConformanceSupersedingId::spec_new("baseline.property.font-variant")]),
        ),
        CssExclusionMetadata::spec_new(
            "excluded.O-CSS2.property.font-weight",
            o_css2(),
            "fonts.html#propdef-font-weight",
            CssExclusionReason::SupersededWithoutCurrentProduction,
            Some(&[CssConformanceSupersedingId::spec_new("baseline.property.font-weight")]),
        ),
        CssExclusionMetadata::spec_new(
            "excluded.O-CSS2.property.direction",
            o_css2(),
            "visuren.html#propdef-direction",
            CssExclusionReason::SupersededWithoutCurrentProduction,
            Some(&[CssConformanceSupersedingId::spec_new("baseline.property.direction")]),
        ),
        CssExclusionMetadata::spec_new(
            "excluded.O-CSS2.property.unicode-bidi",
            o_css2(),
            "visuren.html#propdef-unicode-bidi",
            CssExclusionReason::SupersededWithoutCurrentProduction,
            Some(&[CssConformanceSupersedingId::spec_new("official.property.unicode-bidi")]),
        ),
        CssExclusionMetadata::spec_new(
            "excluded.O-CSS2.property.cursor",
            o_css2(),
            "ui.html#propdef-cursor",
            CssExclusionReason::SupersededWithoutCurrentProduction,
            Some(&[CssConformanceSupersedingId::spec_new("baseline.property.cursor")]),
        ),
        CssExclusionMetadata::spec_new(
            "excluded.O-CSS2.property.outline",
            o_css2(),
            "ui.html#propdef-outline",
            CssExclusionReason::SupersededWithoutCurrentProduction,
            Some(&[CssConformanceSupersedingId::spec_new("baseline.property.outline")]),
        ),
        CssExclusionMetadata::spec_new(
            "excluded.O-CSS2.property.outline-color",
            o_css2(),
            "ui.html#propdef-outline-color",
            CssExclusionReason::SupersededWithoutCurrentProduction,
            Some(&[CssConformanceSupersedingId::spec_new("baseline.property.outline-color")]),
        ),
        CssExclusionMetadata::spec_new(
            "excluded.O-CSS2.property.outline-style",
            o_css2(),
            "ui.html#propdef-outline-style",
            CssExclusionReason::SupersededWithoutCurrentProduction,
            Some(&[CssConformanceSupersedingId::spec_new("baseline.property.outline-style")]),
        ),
        CssExclusionMetadata::spec_new(
            "excluded.O-CSS2.property.outline-width",
            o_css2(),
            "ui.html#propdef-outline-width",
            CssExclusionReason::SupersededWithoutCurrentProduction,
            Some(&[CssConformanceSupersedingId::spec_new("baseline.property.outline-width")]),
        ),
        CssExclusionMetadata::spec_new(
            "excluded.O-CSS2.informative-property.azimuth",
            o_css2(),
            "aural.html#propdef-azimuth",
            CssExclusionReason::InformativeOnly,
            None,
        ),
        CssExclusionMetadata::spec_new(
            "excluded.O-CSS2.informative-property.cue",
            o_css2(),
            "aural.html#propdef-cue",
            CssExclusionReason::InformativeOnly,
            None,
        ),
        CssExclusionMetadata::spec_new(
            "excluded.O-CSS2.informative-property.cue-after",
            o_css2(),
            "aural.html#propdef-cue-after",
            CssExclusionReason::InformativeOnly,
            None,
        ),
        CssExclusionMetadata::spec_new(
            "excluded.O-CSS2.informative-property.cue-before",
            o_css2(),
            "aural.html#propdef-cue-before",
            CssExclusionReason::InformativeOnly,
            None,
        ),
        CssExclusionMetadata::spec_new(
            "excluded.O-CSS2.informative-property.elevation",
            o_css2(),
            "aural.html#propdef-elevation",
            CssExclusionReason::InformativeOnly,
            None,
        ),
        CssExclusionMetadata::spec_new(
            "excluded.O-CSS2.informative-property.pause",
            o_css2(),
            "aural.html#propdef-pause",
            CssExclusionReason::InformativeOnly,
            None,
        ),
        CssExclusionMetadata::spec_new(
            "excluded.O-CSS2.informative-property.pause-after",
            o_css2(),
            "aural.html#propdef-pause-after",
            CssExclusionReason::InformativeOnly,
            None,
        ),
        CssExclusionMetadata::spec_new(
            "excluded.O-CSS2.informative-property.pause-before",
            o_css2(),
            "aural.html#propdef-pause-before",
            CssExclusionReason::InformativeOnly,
            None,
        ),
    ]
}

/// Builds exclusions 1 through 60 of the registry; every entry is well formed.
#[verifier::rlimit(40)]
fn exclusion_records_1() -> (exclusions: Vec<CssExclusionMetadata>)
    ensures
        exclusions@ == exclusions_1(),
        forall|i: int| 0 <= i < exclusions@.len() ==> (#[trigger] exclusions@[i]).wf(),
{
    proof {
        reveal(exclusions_1);
    }
    let mut exclusions = Vec::new();
    push_exclusion(&mut exclusions, CssExclusionMetadata::new(
        "excluded.O-WRITING3.property.glyph-orientation-horizontal",
        o_writing3(),
        "#propdef-glyph-orientation-horizontal",
        CssExclusionReason::SupersededWithoutCurrentProduction,
        Some(&[CssConformanceSupersedingId("official.property.text-orientation")]),
    ));
    push_exclusion(&mut exclusions, CssExclusionMetadata::new(
        "excluded.O-UI3.property.ime-mode",
        o_ui3(),
        "#propdef-ime-mode",
        CssExclusionReason::SupersededWithoutCurrentProduction,
        None,
    ));
    push_exclusion(&mut exclusions, CssExclusionMetadata::new(
        "excluded.O-CSS2.property.margin",
        o_css2(),
        "box.html#propdef-margin",
        CssExclusionReason::SupersededWithoutCurrentProduction,
        Some(&[CssConformanceSupersedingId("baseline.property.margin")]),
    ));
    push_exclusion(&mut exclusions, CssExclusionMetadata::new(
        "excluded.O-CSS2.property.margin-bottom",
        o_css2(),
        "box.html#propdef-margin-bottom",
        CssExclusionReason::SupersededWithoutCurrentProduction,
        Some(&[CssConformanceSupersedingId("baseline.property.margin-bottom")]),
    ));
    push_exclusion(&mut exclusions, CssExclusionMetadata::new(
        "excluded.O-CSS2.property.margin-left",
        o_css2(),
        "box.html#propdef-margin-left",
        CssExclusionReason::SupersededWithoutCurrentProduction,
        Some(&[CssConformanceSupersedingId("baseline.property.margin-left")]),
    ));
    push_exclusion(&mut exclusions, CssExclusionMetadata::new(
        "excluded.O-CSS2.property.margin-right",
        o_css2(),
        "box.html#propdef-margin-right",
        CssExclusionReason::SupersededWithoutCurrentProduction,
        Some(&[CssConformanceSupersedingId("baseline.property.margin-right")]),
    ));
    push_exclusion(&mut exclusions, CssExclusionMetadata::new(
        "excluded.O-CSS2.property.margin-top",
        o_css2(),
        "box.html#propdef-margin-top",
        CssExclusionReason::SupersededWithoutCurrentProduction,
        Some(&[CssConformanceSupersedingId("baseline.property.margin-top")]),
    ));
    push_exclusion(&mut exclusions, CssExclusionMetadata::new(
        "excluded.O-CSS2.property.padding",
        o_css2(),
        "box.html#propdef-padding",
        CssExclusionReason::SupersededWithoutCurrentProduction,
        Some(&[CssConformanceSupersedingId("baseline.property.padding")]),
    ));
    push_exclusion(&mut exclusions, CssExclusionMetadata::new(
        "excluded.O-CSS2.property.padding-bottom",
        o_css2(),
        "box.html#propdef-padding-bottom",
        CssExclusionReason::SupersededWithoutCurrentProduction,
        Some(&[CssConformanceSupersedingId("baseline.property.padding-bottom")]),
    ));
    push_exclusion(&mut exclusions, CssExclusionMetadata::new(
        "excluded.O-CSS2.property.padding-left",
        o_css2(),
        "box.html#propdef-padding-left",
        CssExclusionReason::SupersededWithoutCurrentProduction,
        Some(&[CssConformanceSupersedingId("baseline.property.padding-left")]),
    ));
    push_exclusion(&mut exclusions, CssExclusionMetadata::new(
        "excluded.O-CSS2.property.padding-right",
        o_css2(),
        "box.html#propdef-padding-right",
        CssExclusionReason::SupersededWithoutCurrentProduction,
        Some(&[CssConformanceSupersedingId("baseline.property.padding-right")]),
    ));
    push_exclusion(&mut exclusions, CssExclusionMetadata::new(
        "excluded.O-CSS2.property.padding-top",
        o_css2(),
        "box.html#propdef-padding-top",
        CssExclusionReason::SupersededWithoutCurrentProduction,
        Some(&[CssConformanceSupersedingId("baseline.property.padding-top")]),
    ));
    push_exclusion(&mut exclusions, CssExclusionMetadata::new(
        "excluded.O-CSS2.property.color",
        o_css2(),
        "colors.html#propdef-color",
        CssExclusionReason::SupersededWithoutCurrentProduction,
        Some(&[CssConformanceSupersedingId("baseline.property.color")]),
    ));
    push_exclusion(&mut exclusions, CssExclusionMetadata::new(
        "excluded.O-CSS2.property.background",
        o_css2(),
        "colors.html#propdef-background",
        CssExclusionReason::SupersededWithoutCurrentProduction,
        Some(&[CssConformanceSupersedingId("baseline.property.background")]),
    ));
    push_exclusion(&mut exclusions, CssExclusionMetadata::new(
        "excluded.O-CSS2.property.background-attachment",
        o_css2(),
        "colors.html#propdef-background-attachment",
        CssExclusionReason::SupersededWithoutCurrentProduction,
        Some(&[CssConformanceSupersedingId("baseline.property.background-attachment")]),
    ));
    push_exclusion(&mut exclusions, CssExclusionMetadata::new(
        "excluded.O-CSS2.property.background-color",
        o_css2(),
        "colors.html#propdef-background-color",
        CssExclusionReason::SupersededWithoutCurrentProduction,
        Some(&[CssConformanceSupersedingId("baseline.property.background-color")]),
    ));
    push_exclusion(&mut exclusions, CssExclusionMetadata::new(
        "excluded.O-CSS2.property.background-image",
        o_css2(),
        "colors.html#propdef-background-image",
        CssExclusionReason::SupersededWithoutCurrentProduction,
        Some(&[CssConformanceSupersedingId("baseline.property.background-image")]),
    ));
    push_exclusion(&mut exclusions, CssExclusionMetadata::new(
        "excluded.O-CSS2.property.background-position",
        o_css2(),
        "colors.html#propdef-background-position",
        CssExclusionReason::SupersededWithoutCurrentProduction,
        Some(&[CssConformanceSupersedingId("baseline.property.background-position")]),
    ));
    push_exclusion(&mut exclusions, CssExclusionMetadata::new(
        "excluded.O-CSS2.property.background-repeat",
        o_css2(),
        "colors.html#propdef-background-repeat",
        CssExclusionReason::SupersededWithoutCurrentProduction,
        Some(&[CssConformanceSupersedingId("baseline.property.background-repeat")]),
    ));
    push_exclusion(&mut exclusions, CssExclusionMetadata::new(
        "excluded.O-CSS2.property.border",
        o_css2(),
        "box.html#propdef-border",
        CssExclusionReason::SupersededWithoutCurrentProduction,
        Some(&[CssConformanceSupersedingId("baseline.property.border")]),
    ));
    push_exclusion(&mut exclusions, CssExclusionMetadata::new(
        "excluded.O-CSS2.property.border-bottom",
        o_css2(),
        "box.html#propdef-border-bottom",
        CssExclusionReason::SupersededWithoutCurrentProduction,
        Some(&[CssConformanceSupersedingId("baseline.property.border-bottom")]),
    ));
    push_exclusion(&mut exclusions, CssExclusionMetadata::new(
        "excluded.O-CSS2.property.border-bottom-color",
        o_css2(),
        "box.html#propdef-border-bottom-color",
        CssExclusionReason::SupersededWithoutCurrentProduction,
        Some(&[CssConformanceSupersedingId("baseline.property.border-bottom-color")]),
    ));
    push_exclusion(&mut exclusions, CssExclusionMetadata::new(
        "excluded.O-CSS2.property.border-bottom-style",
        o_css2(),
        "box.html#propdef-border-bottom-style",
        CssExclusionReason::SupersededWithoutCurrentProduction,
        Some(&[CssConformanceSupersedingId("baseline.property.border-bottom-style")]),
    ));
    push_exclusion(&mut exclusions, CssExclusionMetadata::new(
        "excluded.O-CSS2.property.border-bottom-width",
        o_css2(),
        "box.html#propdef-border-bottom-width",
        CssExclusionReason::SupersededWithoutCurrentProduction,
        Some(&[CssConformanceSupersedingId("baseline.property.border-bottom-width")]),
    ));
    push_exclusion(&mut exclusions, CssExclusionMetadata::new(
        "excluded.O-CSS2.property.border-color",
        o_css2(),
        "box.html#propdef-border-color",
        CssExclusionReason::SupersededWithoutCurrentProduction,
        Some(&[CssConformanceSupersedingId("baseline.property.border-color")]),
    ));
    push_exclusion(&mut exclusions, CssExclusionMetadata::new(
        "excluded.O-CSS2.property.border-left",
        o_css2(),
        "box.html#propdef-border-left",
        CssExclusionReason::SupersededWithoutCurrentProduction,
        Some(&[CssConformanceSupersedingId("baseline.property.border-left")]),
    ));
    push_exclusion(&mut exclusions, CssExclusionMetadata::new(
        "excluded.O-CSS2.property.border-left-color",
        o_css2(),
        "box.html#propdef-border-left-color",
        CssExclusionReason::SupersededWithoutCurrentProduction,
        Some(&[CssConformanceSupersedingId("baseline.property.border-left-color")]),
    ));
    push_exclusion(&mut exclusions, CssExclusionMetadata::new(
        "excluded.O-CSS2.property.border-left-style",
        o_css2(),
        "box.html#propdef-border-left-style",
        CssExclusionReason::SupersededWithoutCurrentProduction,
        Some(&[CssConformanceSupersedingId("baseline.property.border-left-style")]),
    ));
    push_exclusion(&mut exclusions, CssExclusionMetadata::new(
        "excluded.O-CSS2.property.border-left-width",
        o_css2(),
        "box.html#propdef-border-left-width",
        CssExclusionReason::SupersededWithoutCurrentProduction,
        Some(&[CssConformanceSupersedingId("baseline.property.border-left-width")]),
    ));
    push_exclusion(&mut exclusions, CssExclusionMetadata::new(
        "excluded.O-CSS2.property.border-right",
        o_css2(),
        "box.html#propdef-border-right",
        CssExclusionReason::SupersededWithoutCurrentProduction,
        Some(&[CssConformanceSupersedingId("baseline.property.border-right")]),
    ));
    push_exclusion(&mut exclusions, CssExclusionMetadata::new(
        "excluded.O-CSS2.property.border-right-color",
        o_css2(),
        "box.html#propdef-border-right-color",
        CssExclusionReason::SupersededWithoutCurrentProduction,
        Some(&[CssConformanceSupersedingId("baseline.property.border-right-color")]),
    ));
    push_exclusion(&mut exclusions, CssExclusionMetadata::new(
        "excluded.O-CSS2.property.border-right-style",
        o_css2(),
        "box.html#propdef-border-right-style",
        CssExclusionReason::SupersededWithoutCurrentProduction,
        Some(&[CssConformanceSupersedingId("baseline.property.border-right-style")]),
    ));
    push_exclusion(&mut exclusions, CssExclusionMetadata::new(
        "excluded.O-CSS2.property.border-right-width",
        o_css2(),
        "box.html#propdef-border-right-width",
        CssExclusionReason::SupersededWithoutCurrentProduction,
        Some(&[CssConformanceSupersedingId("baseline.property.border-right-width")]),
    ));
    push_exclusion(&mut exclusions, CssExclusionMetadata::new(
        "excluded.O-CSS2.property.border-style",
        o_css2(),
        "box.html#propdef-border-style",
        CssExclusionReason::SupersededWithoutCurrentProduction,
        Some(&[CssConformanceSupersedingId("baseline.property.border-style")]),
    ));
    push_exclusion(&mut exclusions, CssExclusionMetadata::new(
        "excluded.O-CSS2.property.border-top",
        o_css2(),
        "box.html#propdef-border-top",
        CssExclusionReason::SupersededWithoutCurrentProduction,
        Some(&[CssConformanceSupersedingId("baseline.property.border-top")]),
    ));
    push_exclusion(&mut exclusions, CssExclusionMetadata::new(
        "excluded.O-CSS2.property.border-top-color",
        o_css2(),
        "box.html#propdef-border-top-color",
        CssExclusionReason::SupersededWithoutCurrentProduction,
        Some(&[CssConformanceSupersedingId("baseline.property.border-top-color")]),
    ));
    push_exclusion(&mut exclusions, CssExclusionMetadata::new(
        "excluded.O-CSS2.property.border-top-style",
        o_css2(),
        "box.html#propdef-border-top-style",
        CssExclusionReason::SupersededWithoutCurrentProduction,
        Some(&[CssConformanceSupersedingId("baseline.property.border-top-style")]),
    ));
    push_exclusion(&mut exclusions, CssExclusionMetadata::new(
        "excluded.O-CSS2.property.border-top-width",
        o_css2(),
        "box.html#propdef-border-top-width",
        CssExclusionReason::SupersededWithoutCurrentProduction,
        Some(&[CssConformanceSupersedingId("baseline.property.border-top-width")]),
    ));
    push_exclusion(&mut exclusions, CssExclusionMetadata::new(
        "excluded.O-CSS2.property.border-width",
        o_css2(),
        "box.html#propdef-border-width",
        CssExclusionReason::SupersededWithoutCurrentProduction,
        Some(&[CssConformanceSupersedingId("baseline.property.border-width")]),
    ));
    push_exclusion(&mut exclusions, CssExclusionMetadata::new(
        "excluded.O-CSS2.property.font",
        o_css2(),
        "fonts.html#propdef-font",
        CssExclusionReason::SupersededWithoutCurrentProduction,
        Some(&[CssConformanceSupersedingId("baseline.property.font")]),
    ));
    push_exclusion(&mut exclusions, CssExclusionMetadata::new(
        "excluded.O-CSS2.property.font-family",
        o_css2(),
        "fonts.html#propdef-font-family",
        CssExclusionReason::SupersededWithoutCurrentProduction,
        Some(&[CssConformanceSupersedingId("baseline.property.font-family")]),
    ));
    push_exclusion(&mut exclusions, CssExclusionMetadata::new(
        "excluded.O-CSS2.property.font-size",
        o_css2(),
        "fonts.html#propdef-font-size",
        CssExclusionReason::SupersededWithoutCurrentProduction,
        Some(&[CssConformanceSupersedingId("baseline.property.font-size")]),
    ));
    push_exclusion(&mut exclusions, CssExclusionMetadata::new(
        "excluded.O-CSS2.property.font-style",
        o_css2(),
        "fonts.html#propdef-font-style",
        CssExclusionReason::SupersededWithoutCurrentProduction,
        Some(&[CssConformanceSupersedingId("baseline.property.font-style")]),
    ));
    push_exclusion(&mut exclusions, CssExclusionMetadata::new(
        "excluded.O-CSS2.property.font-variant",
        o_css2(),
        "fonts.html#propdef-font-variant",
        CssExclusionReason::SupersededWithoutCurrentProduction,
        Some(&[CssConformanceSupersedingId("baseline.property.font-variant")]),
    ));
    push_exclusion(&mut exclusions, CssExclusionMetadata::new(
        "excluded.O-CSS2.property.font-weight",
        o_css2(),
        "fonts.html#propdef-font-weight",
        CssExclusionReason::SupersededWithoutCurrentProduction,
        Some(&[CssConformanceSupersedingId("baseline.property.font-weight")]),
    ));
    push_exclusion(&mut exclusions, CssExclusionMetadata::new(
        "excluded.O-CSS2.property.direction",
        o_css2(),
        "visuren.html#propdef-direction",
        CssExclusionReason::SupersededWithoutCurrentProduction,
        Some(&[CssConformanceSupersedingId("baseline.property.direction")]),
    ));
    push_exclusion(&mut exclusions, CssExclusionMetadata::new(
        "excluded.O-CSS2.property.unicode-bidi",
        o_css2(),
        "visuren.html#propdef-unicode-bidi",
        CssExclusionReason::SupersededWithoutCurrentProduction,
        Some(&[CssConformanceSupersedingId("official.property.unicode-bidi")]),
    ));
    push_exclusion(&mut exclusions, CssExclusionMetadata::new(
        "excluded.O-CSS2.property.cursor",
        o_css2(),
        "ui.html#propdef-cursor",
        CssExclusionReason::SupersededWithoutCurrentProduction,
        Some(&[CssConformanceSupersedingId("baseline.property.cursor")]),
    ));
    push_exclusion(&mut exclusions, CssExclusionMetadata::new(
        "excluded.O-CSS2.property.outline",
        o_css2(),
        "ui.html#propdef-outline",
        CssExclusionReason::SupersededWithoutCurrentProduction,
        Some(&[CssConformanceSupersedingId("baseline.property.outline")]),
    ));
    push_exclusion(&mut exclusions, CssExclusionMetadata::new(
        "excluded.O-CSS2.property.outline-color",
        o_css2(),
        "ui.html#propdef-outline-color",
        CssExclusionReason::SupersededWithoutCurrentProduction,
        Some(&[CssConformanceSupersedingId("baseline.property.outline-color")]),
    ));
    push_exclusion(&mut exclusions, CssExclusionMetadata::new(
        "excluded.O-CSS2.property.outline-style",
        o_css2(),
        "ui.html#propdef-outline-style",
        CssExclusionReason::SupersededWithoutCurrentProduction,
        Some(&[CssConformanceSupersedingId("baseline.property.outline-style")]),
    ));
    push_exclusion(&mut exclusions, CssExclusionMetadata::new(
        "excluded.O-CSS2.property.outline-width",
        o_css2(),
        "ui.html#propdef-outline-width",
        CssExclusionReason::SupersededWithoutCurrentProduction,
        Some(&[CssConformanceSupersedingId("baseline.property.outline-width")]),
    ));
    push_exclusion(&mut exclusions, CssExclusionMetadata::new(
        "excluded.O-CSS2.informative-property.azimuth",
        o_css2(),
        "aural.html#propdef-azimuth",
        CssExclusionReason::InformativeOnly,
        None,
    ));
    push_exclusion(&mut exclusions, CssExclusionMetadata::new(
        "excluded.O-CSS2.informative-property.cue",
        o_css2(),
        "aural.html#propdef-cue",
        CssExclusionReason::InformativeOnly,
        None,
    ));
    push_exclusion(&mut exclusions, CssExclusionMetadata::new(
        "excluded.O-CSS2.informative-property.cue-after",
        o_css2(),
        "aural.html#propdef-cue-after",
        CssExclusionReason::InformativeOnly,
        None,
    ));
    push_exclusion(&mut exclusions, CssExclusionMetadata::new(
        "excluded.O-CSS2.informative-property.cue-before",
        o_css2(),
        "aural.html#propdef-cue-before",
        CssExclusionReason::InformativeOnly,
        None,
    ));
    push_exclusion(&mut exclusions, CssExclusionMetadata::new(
        "excluded.O-CSS2.informative-property.elevation",
        o_css2(),
        "aural.html#propdef-elevation",
        CssExclusionReason::InformativeOnly,
        None,
    ));
    push_exclusion(&mut exclusions, CssExclusionMetadata::new(
        "excluded.O-CSS2.informative-property.pause",
        o_css2(),
        "aural.html#propdef-pause",
        CssExclusionReason::InformativeOnly,
        None,
    ));
    push_exclusion(&mut exclusions, CssExclusionMetadata::new(
        "excluded.O-CSS2.informative-property.pause-after",
        o_css2(),
        "aural.html#propdef-pause-after",
        CssExclusionReason::InformativeOnly,
        None,
    ));
    push_exclusion(&mut exclusions, CssExclusionMetadata::new(
        "excluded.O-CSS2.informative-property.pause-before",
        o_css2(),
        "aural.html#propdef-pause-before",
        CssExclusionReason::InformativeOnly,
        None,
    ));
    exclusions
}

/// Exclusions 61 through 120 of the registry.
#[verifier::opaque]
pub open spec fn exclusions_2() -> Seq<CssExclusionMetadata> {
    seq![
        CssExclusionMetadata::spec_new(
            "excluded.O-CSS2.informative-property.pitch",
            o_css2(),
            "aural.html#propdef-pitch",
            CssExclusionReason::InformativeOnly,
            None,
        ),
        CssExclusionMetadata::spec_new(
            "excluded.O-CSS2.informative-property.pitch-range",
            o_css2(),
            "aural.html#propdef-pitch-range",
            CssExclusionReason::InformativeOnly,
            None,
        ),
        CssExclusionMetadata::spec_new(
            "excluded.O-CSS2.informative-property.play-during",
            o_css2(),
            "aural.html#propdef-play-during",
            CssExclusionReason::InformativeOnly,
            None,
        ),
        CssExclusionMetadata::spec_new(
            "excluded.O-CSS2.informative-property.richness",
            o_css2(),
            "aural.html#propdef-richness",
            CssExclusionReason::InformativeOnly,
            None,
        ),
        CssExclusionMetadata::spec_new(
            "excluded.O-CSS2.informative-property.speak",
            o_css2(),
            "aural.html#propdef-speak",
            CssExclusionReason::InformativeOnly,
            None,
        ),
        CssExclusionMetadata::spec_new(
            "excluded.O-CSS2.informative-property.speak-header",
            o_css2(),
            "aural.html#propdef-speak-header",
            CssExclusionReason::InformativeOnly,
            None,
        ),
        CssExclusionMetadata::spec_new(
            "excluded.O-CSS2.informative-property.speak-numeral",
            o_css2(),
            "aural.html#propdef-speak-numeral",
            CssExclusionReason::InformativeOnly,
            None,
        ),
        CssExclusionMetadata::spec_new(
            "excluded.O-CSS2.informative-property.speak-punctuation",
            o_css2(),
            "aural.html#propdef-speak-punctuation",
            CssExclusionReason::InformativeOnly,
            None,
        ),
        CssExclusionMetadata::spec_new(
            "excluded.O-CSS2.informative-property.speech-rate",
            o_css2(),
            "aural.html#propdef-speech-rate",
            CssExclusionReason::InformativeOnly,
            None,
        ),
        CssExclusionMetadata::spec_new(
            "excluded.O-CSS2.informative-property.stress",
            o_css2(),
            "aural.html#propdef-stress",
            CssExclusionReason::InformativeOnly,
            None,
        ),
        CssExclusionMetadata::spec_new(
            "excluded.O-CSS2.informative-property.voice-family",
            o_css2(),
            "aural.html#propdef-voice-family",
            CssExclusionReason::InformativeOnly,
            None,
        ),
        CssExclusionMetadata::spec_new(
            "excluded.O-CSS2.informative-property.volume",
            o_css2(),
            "aural.html#propdef-volume",
            CssExclusionReason::InformativeOnly,
            None,
        ),
        CssExclusionMetadata::spec_new(
            "excluded.O-CSS2.superseded-syntax",
            o_css2(),
            "syndata.html;grammar.html",
            CssExclusionReason::SupersededWithoutCurrentProduction,
            Some(&[CssConformanceSupersedingId::spec_new("O-SYNTAX3")]),
        ),
        CssExclusionMetadata::spec_new(
            "excluded.O-CSS2.superseded-media",
            o_css2(),
            "media.html",
            CssExclusionReason::SupersededWithoutCurrentProduction,
            Some(&[CssConformanceSupersedingId::spec_new("O-MEDIA3"), CssConformanceSupersedingId::spec_new("O-CONDITIONAL3")]),
        ),
        CssExclusionMetadata::spec_new(
            "excluded.O-CSS2.superseded-selectors",
            o_css2(),
            "selector.html",
            CssExclusionReason::SupersededWithoutCurrentProduction,
            Some(&[CssConformanceSupersedingId::spec_new("O-SELECTORS3"), CssConformanceSupersedingId::spec_new("O-NAMESPACES3")]),
        ),
        CssExclusionMetadata::spec_new(
            "excluded.O-CSS2.superseded-cascade-values",
            o_css2(),
            "cascade.html;syndata.html",
            CssExclusionReason::SupersededWithoutCurrentProduction,
            Some(&[CssConformanceSupersedingId::spec_new("O-CASCADE4"), CssConformanceSupersedingId::spec_new("O-VALUES3"), CssConformanceSupersedingId::spec_new("O-VARIABLES1")]),
        ),
        CssExclusionMetadata::spec_new(
            "excluded.O-CSS2.non-authored-semantics",
            o_css2(),
            "visuren.html;visufx.html;tables.html;page.html#outside-page-box,#page-breaks,#page-cascade",
            CssExclusionReason::OutsideAuthoredSyntaxBoundary,
            None,
        ),
        CssExclusionMetadata::spec_new(
            "excluded.O-SYNTAX3.fragment-api",
            o_syntax3(),
            "#parse-rule,#parse-declaration,#parse-component-value,#parse-list-of-component-values,#parse-comma-separated-list-of-component-values",
            CssExclusionReason::OutsideAuthoredSyntaxBoundary,
            None,
        ),
        CssExclusionMetadata::spec_new(
            "excluded.O-SYNTAX3.serialization",
            o_syntax3(),
            "#serialization",
            CssExclusionReason::OutsideAuthoredSyntaxBoundary,
            None,
        ),
        CssExclusionMetadata::spec_new(
            "excluded.O-STYLE-ATTR.interpretation",
            o_style_attr(),
            "#interpret",
            CssExclusionReason::OutsideAuthoredSyntaxBoundary,
            None,
        ),
        CssExclusionMetadata::spec_new(
            "excluded.O-MEDIA3.evaluation",
            o_media3(),
            "#media0,#media1 evaluation portions",
            CssExclusionReason::OutsideAuthoredSyntaxBoundary,
            None,
        ),
        CssExclusionMetadata::spec_new(
            "excluded.O-CONDITIONAL3.evaluation-api",
            o_conditional3(),
            "#processing,#the-cssmediarule-interface,#the-csssupportsrule-interface,#apis",
            CssExclusionReason::OutsideAuthoredSyntaxBoundary,
            None,
        ),
        CssExclusionMetadata::spec_new(
            "excluded.O-SELECTORS3.matching-specificity",
            o_selectors3(),
            "#selectors,#specificity,#first-formatted-line,#application-in-css",
            CssExclusionReason::OutsideAuthoredSyntaxBoundary,
            None,
        ),
        CssExclusionMetadata::spec_new(
            "excluded.O-NAMESPACES3.uri-matching",
            o_namespaces3(),
            "semantic portions of #scope,#css-qnames",
            CssExclusionReason::OutsideAuthoredSyntaxBoundary,
            None,
        ),
        CssExclusionMetadata::spec_new(
            "excluded.O-CASCADE4.processing",
            o_cascade4(),
            "#import-processing,#value-stages,#filtering,#cascading,#initial-values,#inheriting",
            CssExclusionReason::OutsideAuthoredSyntaxBoundary,
            None,
        ),
        CssExclusionMetadata::spec_new(
            "excluded.O-VALUES3.metasyntax",
            o_values3(),
            "#value-defs",
            CssExclusionReason::OutsideAuthoredSyntaxBoundary,
            None,
        ),
        CssExclusionMetadata::spec_new(
            "excluded.O-VALUES3.computation",
            o_values3(),
            "#calc-computed-value,#calc-range,#calc-serialize,#relative-urls",
            CssExclusionReason::OutsideAuthoredSyntaxBoundary,
            None,
        ),
        CssExclusionMetadata::spec_new(
            "excluded.O-VARIABLES1.substitution",
            o_variables1(),
            "#cycles,#invalid-variables,#variables-in-shorthands,#apis",
            CssExclusionReason::OutsideAuthoredSyntaxBoundary,
            None,
        ),
        CssExclusionMetadata::spec_new(
            "excluded.O-BOX3.layout",
            o_box3(),
            "#box-model,#fragmentation",
            CssExclusionReason::OutsideAuthoredSyntaxBoundary,
            None,
        ),
        CssExclusionMetadata::spec_new(
            "excluded.O-COLOR4.color5-syntax",
            o_color4(),
            "Color 5 references",
            CssExclusionReason::SupersededWithoutCurrentProduction,
            Some(&[CssConformanceSupersedingId::spec_new("I-COLOR5")]),
        ),
        CssExclusionMetadata::spec_new(
            "excluded.O-COLOR4.quirky-color",
            o_color4(),
            "#quirky-color",
            CssExclusionReason::OutsideAuthoredSyntaxBoundary,
            None,
        ),
        CssExclusionMetadata::spec_new(
            "excluded.O-COLOR4.processing",
            o_color4(),
            "conversion/interpolation/gamut/resolution/serialization/sample-code sections",
            CssExclusionReason::OutsideAuthoredSyntaxBoundary,
            None,
        ),
        CssExclusionMetadata::spec_new(
            "excluded.O-BACKGROUNDS3.painting",
            o_backgrounds3(),
            "serialization/painting/corner/border-image/shadow algorithms",
            CssExclusionReason::OutsideAuthoredSyntaxBoundary,
            None,
        ),
        CssExclusionMetadata::spec_new(
            "excluded.O-IMAGES3.processing",
            o_images3(),
            "object negotiation/sizing/interpolation/serialization algorithms",
            CssExclusionReason::OutsideAuthoredSyntaxBoundary,
            None,
        ),
        CssExclusionMetadata::spec_new(
            "excluded.O-FONTS3.processing",
            o_fonts3(),
            "loading/fetching/matching/feature-resolution/object-model sections",
            CssExclusionReason::OutsideAuthoredSyntaxBoundary,
            None,
        ),
        CssExclusionMetadata::spec_new(
            "excluded.O-FONTS3.font-display",
            o_fonts3(),
            "no Fonts 3 production",
            CssExclusionReason::SupersededWithoutCurrentProduction,
            Some(&[CssConformanceSupersedingId::spec_new("baseline.descriptor.font-display")]),
        ),
        CssExclusionMetadata::spec_new(
            "excluded.O-FONTS3.font-feature-values",
            o_fonts3(),
            "no Fonts 3 production",
            CssExclusionReason::SupersededWithoutCurrentProduction,
            Some(&[CssConformanceSupersedingId::spec_new("later.rule.font-feature-values")]),
        ),
        CssExclusionMetadata::spec_new(
            "excluded.O-WRITING3.layout",
            o_writing3(),
            "bidi/inline/abstract/principal-flow/text-combine algorithms",
            CssExclusionReason::OutsideAuthoredSyntaxBoundary,
            None,
        ),
        CssExclusionMetadata::spec_new(
            "excluded.O-MULTICOL1.layout",
            o_multicol1(),
            "model/pseudo-algorithm/stacking/overflow sections",
            CssExclusionReason::OutsideAuthoredSyntaxBoundary,
            None,
        ),
        CssExclusionMetadata::spec_new(
            "excluded.O-FLEXBOX1.layout",
            o_flexbox1(),
            "box/items/lines/layout/pagination/axis algorithms",
            CssExclusionReason::OutsideAuthoredSyntaxBoundary,
            None,
        ),
        CssExclusionMetadata::spec_new(
            "excluded.O-FLEXBOX1.webkit-legacy",
            o_flexbox1(),
            "#webkit-aliases",
            CssExclusionReason::SupersededWithoutCurrentProduction,
            None,
        ),
        CssExclusionMetadata::spec_new(
            "excluded.O-UI3.behavior",
            o_ui3(),
            "ellipsis/input/default-style behavior sections",
            CssExclusionReason::OutsideAuthoredSyntaxBoundary,
            None,
        ),
        CssExclusionMetadata::spec_new(
            "excluded.O-CONTAIN1.semantics",
            o_contain1(),
            "containment-type/optimization sections",
            CssExclusionReason::OutsideAuthoredSyntaxBoundary,
            None,
        ),
        CssExclusionMetadata::spec_new(
            "excluded.O-TRANSFORMS1.processing",
            o_transforms1(),
            "rendering/SVG/animation/interpolation/matrix algorithms",
            CssExclusionReason::OutsideAuthoredSyntaxBoundary,
            None,
        ),
        CssExclusionMetadata::spec_new(
            "excluded.O-COMPOSITING1.processing",
            o_compositing1(),
            "Canvas/formula/backdrop/group/advanced-compositing sections",
            CssExclusionReason::OutsideAuthoredSyntaxBoundary,
            None,
        ),
        CssExclusionMetadata::spec_new(
            "excluded.O-EASING1.evaluation",
            o_easing1(),
            "easing output/serialization sections",
            CssExclusionReason::OutsideAuthoredSyntaxBoundary,
            None,
        ),
        CssExclusionMetadata::spec_new(
            "excluded.O-COUNTERSTYLES3.processing",
            o_counterstyles3(),
            "counter algorithms/predefined rendering/APIs/sample sheet",
            CssExclusionReason::OutsideAuthoredSyntaxBoundary,
            None,
        ),
        CssExclusionMetadata::spec_new(
            "excluded.O-CSS2.informative-audit",
            o_css2(),
            texts::informative_source_audit(),
            CssExclusionReason::InformativeOnly,
            None,
        ),
        CssExclusionMetadata::spec_new(
            "excluded.O-SYNTAX3.informative-audit",
            o_syntax3(),
            texts::informative_source_audit(),
            CssExclusionReason::InformativeOnly,
            None,
        ),
        CssExclusionMetadata::spec_new(
            "excluded.O-STYLE-ATTR.informative-audit",
            o_style_attr(),
            texts::informative_source_audit(),
            CssExclusionReason::InformativeOnly,
            None,
        ),
        CssExclusionMetadata::spec_new(
            "excluded.O-MEDIA3.informative-audit",
            o_media3(),
            texts::informative_source_audit(),
            CssExclusionReason::InformativeOnly,
            None,
        ),
        CssExclusionMetadata::spec_new(
            "excluded.O-CONDITIONAL3.informative-audit",
            o_conditional3(),
            texts::informative_source_audit(),
            CssExclusionReason::InformativeOnly,
            None,
        ),
        CssExclusionMetadata::spec_new(
            "excluded.O-SELECTORS3.informative-audit",
            o_selectors3(),
            texts::informative_source_audit(),
            CssExclusionReason::InformativeOnly,
            None,
        ),
        CssExclusionMetadata::spec_new(
            "excluded.O-NAMESPACES3.informative-audit",
            o_namespaces3(),
            texts::informative_source_audit(),
            CssExclusionReason::InformativeOnly,
            None,
        ),
        CssExclusionMetadata::spec_new(
            "excluded.O-CASCADE4.informative-audit",
            o_cascade4(),
            texts::informative_source_audit(),
            CssExclusionReason::InformativeOnly,
            None,
        ),
        CssExclusionMetadata::spec_new(
            "excluded.O-VALUES3.informative-audit",
            o_values3(),
            texts::informative_source_audit(),
            CssExclusionReason::InformativeOnly,
            None,
        ),
        CssExclusionMetadata::spec_new(
            "excluded.O-VARIABLES1.informative-audit",
            o_variables1(),
            texts::informative_source_audit(),
            CssExclusionReason::InformativeOnly,
            None,
        ),
        CssExclusionMetadata::spec_new(
            "excluded.O-BOX3.informative-audit",
            o_box3(),
            texts::informative_source_audit(),
            CssExclusionReason::InformativeOnly,
            None,
        ),
        CssExclusionMetadata::spec_new(
            "excluded.O-COLOR4.informative-audit",
            o_color4(),
            texts::informative_source_audit(),
            CssExclusionReason::InformativeOnly,
            None,
        ),
        CssExclusionMetadata::spec_new(
            "excluded.O-BACKGROUNDS3.informative-audit",
            o_backgrounds3(),
            texts::informative_source_audit(),
            CssExclusionReason::InformativeOnly,
            None,
        ),
    ]
}

/// Builds exclusions 61 through 120 of the registry; every entry is well formed.
#[verifier::rlimit(40)]
fn exclusion_records_2() -> (exclusions: Vec<CssExclusionMetadata>)
    ensures
        exclusions@ == exclusions_2(),
        forall|i: int| 0 <= i < exclusions@.len() ==> (#[trigger] exclusions@[i]).wf(),
{
    proof {
        reveal(exclusions_2);
    }
    let mut exclusions = Vec::new();
    push_exclusion(&mut exclusions, CssExclusionMetadata::new(
        "excluded.O-CSS2.informative-property.pitch",
        o_css2(),
        "aural.html#propdef-pitch",
        CssExclusionReason::InformativeOnly,
        None,
    ));
    push_exclusion(&mut exclusions, CssExclusionMetadata::new(
        "excluded.O-CSS2.informative-property.pitch-range",
        o_css2(),
        "aural.html#propdef-pitch-range",
        CssExclusionReason::InformativeOnly,
        None,
    ));
    push_exclusion(&mut exclusions, CssExclusionMetadata::new(
        "excluded.O-CSS2.informative-property.play-during",
        o_css2(),
        "aural.html#propdef-play-during",
        CssExclusionReason::InformativeOnly,
        None,
    ));
    push_exclusion(&mut exclusions, CssExclusionMetadata::new(
        "excluded.O-CSS2.informative-property.richness",
        o_css2(),
        "aural.html#propdef-richness",
        CssExclusionReason::InformativeOnly,
        None,
    ));
    push_exclusion(&mut exclusions, CssExclusionMetadata::new(
        "excluded.O-CSS2.informative-property.speak",
        o_css2(),
        "aural.html#propdef-speak",
        CssExclusionReason::InformativeOnly,
        None,
    ));
    push_exclusion(&mut exclusions, CssExclusionMetadata::new(
        "excluded.O-CSS2.informative-property.speak-header",
        o_css2(),
        "aural.html#propdef-speak-header",
        CssExclusionReason::InformativeOnly,
        None,
    ));
    push_exclusion(&mut exclusions, CssExclusionMetadata::new(
        "excluded.O-CSS2.informative-property.speak-numeral",
        o_css2(),
        "aural.html#propdef-speak-numeral",
        CssExclusionReason::InformativeOnly,
        None,
    ));
    push_exclusion(&mut exclusions, CssExclusionMetadata::new(
        "excluded.O-CSS2.informative-property.speak-punctuation",
        o_css2(),
        "aural.html#propdef-speak-punctuation",
        CssExclusionReason::InformativeOnly,
        None,
    ));
    push_exclusion(&mut exclusions, CssExclusionMetadata::new(
        "excluded.O-CSS2.informative-property.speech-rate",
        o_css2(),
        "aural.html#propdef-speech-rate",
        CssExclusionReason::InformativeOnly,
        None,
    ));
    push_exclusion(&mut exclusions, CssExclusionMetadata::new(
        "excluded.O-CSS2.informative-property.stress",
        o_css2(),
        "aural.html#propdef-stress",
        CssExclusionReason::InformativeOnly,
        None,
    ));
    push_exclusion(&mut exclusions, CssExclusionMetadata::new(
        "excluded.O-CSS2.informative-property.voice-family",
        o_css2(),
        "aural.html#propdef-voice-family",
        CssExclusionReason::InformativeOnly,
        None,
    ));
    push_exclusion(&mut exclusions, CssExclusionMetadata::new(
        "excluded.O-CSS2.informative-property.volume",
        o_css2(),
        "aural.html#propdef-volume",
        CssExclusionReason::InformativeOnly,
        None,
    ));
    push_exclusion(&mut exclusions, CssExclusionMetadata::new(
        "excluded.O-CSS2.superseded-syntax",
        o_css2(),
        "syndata.html;grammar.html",
        CssExclusionReason::SupersededWithoutCurrentProduction,
        Some(&[CssConformanceSupersedingId("O-SYNTAX3")]),
    ));
    push_exclusion(&mut exclusions, CssExclusionMetadata::new(
        "excluded.O-CSS2.superseded-media",
        o_css2(),
        "media.html",
        CssExclusionReason::SupersededWithoutCurrentProduction,
        Some(&[CssConformanceSupersedingId("O-MEDIA3"), CssConformanceSupersedingId("O-CONDITIONAL3")]),
    ));
    push_exclusion(&mut exclusions, CssExclusionMetadata::new(
        "excluded.O-CSS2.superseded-selectors",
        o_css2(),
        "selector.html",
        CssExclusionReason::SupersededWithoutCurrentProduction,
        Some(&[CssConformanceSupersedingId("O-SELECTORS3"), CssConformanceSupersedingId("O-NAMESPACES3")]),
    ));
    push_exclusion(&mut exclusions, CssExclusionMetadata::new(
        "excluded.O-CSS2.superseded-cascade-values",
        o_css2(),
        "cascade.html;syndata.html",
        CssExclusionReason::SupersededWithoutCurrentProduction,
        Some(&[CssConformanceSupersedingId("O-CASCADE4"), CssConformanceSupersedingId("O-VALUES3"), CssConformanceSupersedingId("O-VARIABLES1")]),
    ));
    push_exclusion(&mut exclusions, CssExclusionMetadata::new(
        "excluded.O-CSS2.non-authored-semantics",
        o_css2(),
        "visuren.html;visufx.html;tables.html;page.html#outside-page-box,#page-breaks,#page-cascade",
        CssExclusionReason::OutsideAuthoredSyntaxBoundary,
        None,
    ));
    push_exclusion(&mut exclusions, CssExclusionMetadata::new(
        "excluded.O-SYNTAX3.fragment-api",
        o_syntax3(),
        "#parse-rule,#parse-declaration,#parse-component-value,#parse-list-of-component-values,#parse-comma-separated-list-of-component-values",
        CssExclusionReason::OutsideAuthoredSyntaxBoundary,
        None,
    ));
    push_exclusion(&mut exclusions, CssExclusionMetadata::new(
        "excluded.O-SYNTAX3.serialization",
        o_syntax3(),
        "#serialization",
        CssExclusionReason::OutsideAuthoredSyntaxBoundary,
        None,
    ));
    push_exclusion(&mut exclusions, CssExclusionMetadata::new(
        "excluded.O-STYLE-ATTR.interpretation",
        o_style_attr(),
        "#interpret",
        CssExclusionReason::OutsideAuthoredSyntaxBoundary,
        None,
    ));
    push_exclusion(&mut exclusions, CssExclusionMetadata::new(
        "excluded.O-MEDIA3.evaluation",
        o_media3(),
        "#media0,#media1 evaluation portions",
        CssExclusionReason::OutsideAuthoredSyntaxBoundary,
        None,
    ));
    push_exclusion(&mut exclusions, CssExclusionMetadata::new(
        "excluded.O-CONDITIONAL3.evaluation-api",
        o_conditional3(),
        "#processing,#the-cssmediarule-interface,#the-csssupportsrule-interface,#apis",
        CssExclusionReason::OutsideAuthoredSyntaxBoundary,
        None,
    ));
    push_exclusion(&mut exclusions, CssExclusionMetadata::new(
        "excluded.O-SELECTORS3.matching-specificity",
        o_selectors3(),
        "#selectors,#specificity,#first-formatted-line,#application-in-css",
        CssExclusionReason::OutsideAuthoredSyntaxBoundary,
        None,
    ));
    push_exclusion(&mut exclusions, CssExclusionMetadata::new(
        "excluded.O-NAMESPACES3.uri-matching",
        o_namespaces3(),
        "semantic portions of #scope,#css-qnames",
        CssExclusionReason::OutsideAuthoredSyntaxBoundary,
        None,
    ));
    push_exclusion(&mut exclusions, CssExclusionMetadata::new(
        "excluded.O-CASCADE4.processing",
        o_cascade4(),
        "#import-processing,#value-stages,#filtering,#cascading,#initial-values,#inheriting",
        CssExclusionReason::OutsideAuthoredSyntaxBoundary,
        None,
    ));
    push_exclusion(&mut exclusions, CssExclusionMetadata::new(
        "excluded.O-VALUES3.metasyntax",
        o_values3(),
        "#value-defs",
        CssExclusionReason::OutsideAuthoredSyntaxBoundary,
        None,
    ));
    push_exclusion(&mut exclusions, CssExclusionMetadata::new(
        "excluded.O-VALUES3.computation",
        o_values3(),
        "#calc-computed-value,#calc-range,#calc-serialize,#relative-urls",
        CssExclusionReason::OutsideAuthoredSyntaxBoundary,
        None,
    ));
    push_exclusion(&mut exclusions, CssExclusionMetadata::new(
        "excluded.O-VARIABLES1.substitution",
        o_variables1(),
        "#cycles,#invalid-variables,#variables-in-shorthands,#apis",
        CssExclusionReason::OutsideAuthoredSyntaxBoundary,
        None,
    ));
    push_exclusion(&mut exclusions, CssExclusionMetadata::new(
        "excluded.O-BOX3.layout",
        o_box3(),
        "#box-model,#fragmentation",
        CssExclusionReason::OutsideAuthoredSyntaxBoundary,
        None,
    ));
    push_exclusion(&mut exclusions, CssExclusionMetadata::new(
        "excluded.O-COLOR4.color5-syntax",
        o_color4(),
        "Color 5 references",
        CssExclusionReason::SupersededWithoutCurrentProduction,
        Some(&[CssConformanceSupersedingId("I-COLOR5")]),
    ));
    push_exclusion(&mut exclusions, CssExclusionMetadata::new(
        "excluded.O-COLOR4.quirky-color",
        o_color4(),
        "#quirky-color",
        CssExclusionReason::OutsideAuthoredSyntaxBoundary,
        None,
    ));
    push_exclusion(&mut exclusions, CssExclusionMetadata::new(
        "excluded.O-COLOR4.processing",
        o_color4(),
        "conversion/interpolation/gamut/resolution/serialization/sample-code sections",
        CssExclusionReason::OutsideAuthoredSyntaxBoundary,
        None,
    ));
    push_exclusion(&mut exclusions, CssExclusionMetadata::new(
        "excluded.O-BACKGROUNDS3.painting",
        o_backgrounds3(),
        "serialization/painting/corner/border-image/shadow algorithms",
        CssExclusionReason::OutsideAuthoredSyntaxBoundary,
        None,
    ));
    push_exclusion(&mut exclusions, CssExclusionMetadata::new(
        "excluded.O-IMAGES3.processing",
        o_images3(),
        "object negotiation/sizing/interpolation/serialization algorithms",
        CssExclusionReason::OutsideAuthoredSyntaxBoundary,
        None,
    ));
    push_exclusion(&mut exclusions, CssExclusionMetadata::new(
        "excluded.O-FONTS3.processing",
        o_fonts3(),
        "loading/fetching/matching/feature-resolution/object-model sections",
        CssExclusionReason::OutsideAuthoredSyntaxBoundary,
        None,
    ));
    push_exclusion(&mut exclusions, CssExclusionMetadata::new(
        "excluded.O-FONTS3.font-display",
        o_fonts3(),
        "no Fonts 3 production",
        CssExclusionReason::SupersededWithoutCurrentProduction,
        Some(&[CssConformanceSupersedingId("baseline.descriptor.font-display")]),
    ));
    push_exclusion(&mut exclusions, CssExclusionMetadata::new(
        "excluded.O-FONTS3.font-feature-values",
        o_fonts3(),
        "no Fonts 3 production",
        CssExclusionReason::SupersededWithoutCurrentProduction,
        Some(&[CssConformanceSupersedingId("later.rule.font-feature-values")]),
    ));
    push_exclusion(&mut exclusions, CssExclusionMetadata::new(
        "excluded.O-WRITING3.layout",
        o_writing3(),
        "bidi/inline/abstract/principal-flow/text-combine algorithms",
        CssExclusionReason::OutsideAuthoredSyntaxBoundary,
        None,
    ));
    push_exclusion(&mut exclusions, CssExclusionMetadata::new(
        "excluded.O-MULTICOL1.layout",
        o_multicol1(),
        "model/pseudo-algorithm/stacking/overflow sections",
        CssExclusionReason::OutsideAuthoredSyntaxBoundary,
        None,
    ));
    push_exclusion(&mut exclusions, CssExclusionMetadata::new(
        "excluded.O-FLEXBOX1.layout",
        o_flexbox1(),
        "box/items/lines/layout/pagination/axis algorithms",
        CssExclusionReason::OutsideAuthoredSyntaxBoundary,
        None,
    ));
    push_exclusion(&mut exclusions, CssExclusionMetadata::new(
        "excluded.O-FLEXBOX1.webkit-legacy",
        o_flexbox1(),
        "#webkit-aliases",
        CssExclusionReason::SupersededWithoutCurrentProduction,
        None,
    ));
    push_exclusion(&mut exclusions, CssExclusionMetadata::new(
        "excluded.O-UI3.behavior",
        o_ui3(),
        "ellipsis/input/default-style behavior sections",
        CssExclusionReason::OutsideAuthoredSyntaxBoundary,
        None,
    ));
    push_exclusion(&mut exclusions, CssExclusionMetadata::new(
        "excluded.O-CONTAIN1.semantics",
        o_contain1(),
        "containment-type/optimization sections",
        CssExclusionReason::OutsideAuthoredSyntaxBoundary,
        None,
    ));
    push_exclusion(&mut exclusions, CssExclusionMetadata::new(
        "excluded.O-TRANSFORMS1.processing",
        o_transforms1(),
        "rendering/SVG/animation/interpolation/matrix algorithms",
        CssExclusionReason::OutsideAuthoredSyntaxBoundary,
        None,
    ));
    push_exclusion(&mut exclusions, CssExclusionMetadata::new(
        "excluded.O-COMPOSITING1.processing",
        o_compositing1(),
        "Canvas/formula/backdrop/group/advanced-compositing sections",
        CssExclusionReason::OutsideAuthoredSyntaxBoundary,
        None,
    ));
    push_exclusion(&mut exclusions, CssExclusionMetadata::new(
        "excluded.O-EASING1.evaluation",
        o_easing1(),
        "easing output/serialization sections",
        CssExclusionReason::OutsideAuthoredSyntaxBoundary,
        None,
    ));
    push_exclusion(&mut exclusions, CssExclusionMetadata::new(
        "excluded.O-COUNTERSTYLES3.processing",
        o_counterstyles3(),
        "counter algorithms/predefined rendering/APIs/sample sheet",
        CssExclusionReason::OutsideAuthoredSyntaxBoundary,
        None,
    ));
    push_exclusion(&mut exclusions, CssExclusionMetadata::new(
        "excluded.O-CSS2.informative-audit",
        o_css2(),
        texts::informative_source_audit(),
        CssExclusionReason::InformativeOnly,
        None,
    ));
    push_exclusion(&mut exclusions, CssExclusionMetadata::new(
        "excluded.O-SYNTAX3.informative-audit",
        o_syntax3(),
        texts::informative_source_audit(),
        CssExclusionReason::InformativeOnly,
        None,
    ));
    push_exclusion(&mut exclusions, CssExclusionMetadata::new(
        "excluded.O-STYLE-ATTR.informative-audit",
        o_style_attr(),
        texts::informative_source_audit(),
        CssExclusionReason::InformativeOnly,
        None,
    ));
    push_exclusion(&mut exclusions, CssExclusionMetadata::new(
        "excluded.O-MEDIA3.informative-audit",
        o_media3(),
        texts::informative_source_audit(),
        CssExclusionReason::InformativeOnly,
        None,
    ));
    push_exclusion(&mut exclusions, CssExclusionMetadata::new(
        "excluded.O-CONDITIONAL3.informative-audit",
        o_conditional3(),
        texts::informative_source_audit(),
        CssExclusionReason::InformativeOnly,
        None,
    ));
    push_exclusion(&mut exclusions, CssExclusionMetadata::new(
        "excluded.O-SELECTORS3.informative-audit",
        o_selectors3(),
        texts::informative_source_audit(),
        CssExclusionReason::InformativeOnly,
        None,
    ));
    push_exclusion(&mut exclusions, CssExclusionMetadata::new(
        "excluded.O-NAMESPACES3.informative-audit",
        o_namespaces3(),
        texts::informative_source_audit(),
        CssExclusionReason::InformativeOnly,
        None,
    ));
    push_exclusion(&mut exclusions, CssExclusionMetadata::new(
        "excluded.O-CASCADE4.informative-audit",
        o_cascade4(),
        texts::informative_source_audit(),
        CssExclusionReason::InformativeOnly,
        None,
    ));
    push_exclusion(&mut exclusions, CssExclusionMetadata::new(
        "excluded.O-VALUES3.informative-audit",
        o_values3(),
        texts::informative_source_audit(),
        CssExclusionReason::InformativeOnly,
        None,
    ));
    push_exclusion(&mut exclusions, CssExclusionMetadata::new(
        "excluded.O-VARIABLES1.informative-audit",
        o_variables1(),
        texts::informative_source_audit(),
        CssExclusionReason::InformativeOnly,
        None,
    ));
    push_exclusion(&mut exclusions, CssExclusionMetadata::new(
        "excluded.O-BOX3.informative-audit",
        o_box3(),
        texts::informative_source_audit(),
        CssExclusionReason::InformativeOnly,
        None,
    ));
    push_exclusion(&mut exclusions, CssExclusionMetadata::new(
        "excluded.O-COLOR4.informative-audit",
        o_color4(),
        texts::informative_source_audit(),
        CssExclusionReason::InformativeOnly,
        None,
    ));
    push_exclusion(&mut exclusions, CssExclusionMetadata::new(
        "excluded.O-BACKGROUNDS3.informative-audit",
        o_backgrounds3(),
        texts::informative_source_audit(),
        CssExclusionReason::InformativeOnly,
        None,
    ));
    exclusions
}

/// Exclusions 121 through 131 of the registry.
#[verifier::opaque]
pub open spec fn exclusions_3() -> Seq<CssExclusionMetadata> {
    seq![
        CssExclusionMetadata::spec_new(
            "excluded.O-IMAGES3.informative-audit",
            o_images3(),
            texts::informative_source_audit(),
            CssExclusionReason::InformativeOnly,
            None,
        ),
        CssExclusionMetadata::spec_new(
            "excluded.O-FONTS3.informative-audit",
            o_fonts3(),
            texts::informative_source_audit(),
            CssExclusionReason::InformativeOnly,
            None,
        ),
        CssExclusionMetadata::spec_new(
            "excluded.O-WRITING3.informative-audit",
            o_writing3(),
            texts::informative_source_audit(),
            CssExclusionReason::InformativeOnly,
            None,
        ),
        CssExclusionMetadata::spec_new(
            "excluded.O-MULTICOL1.informative-audit",
            o_multicol1(),
            texts::informative_source_audit(),
            CssExclusionReason::InformativeOnly,
            None,
        ),
        CssExclusionMetadata::spec_new(
            "excluded.O-FLEXBOX1.informative-audit",
            o_flexbox1(),
            texts::informative_source_audit(),
            CssExclusionReason::InformativeOnly,
            None,
        ),
        CssExclusionMetadata::spec_new(
            "excluded.O-UI3.informative-audit",
            o_ui3(),
            texts::informative_source_audit(),
            CssExclusionReason::InformativeOnly,
            None,
        ),
        CssExclusionMetadata::spec_new(
            "excluded.O-CONTAIN1.informative-audit",
            o_contain1(),
            texts::informative_source_audit(),
            CssExclusionReason::InformativeOnly,
            None,
        ),
        CssExclusionMetadata::spec_new(
            "excluded.O-TRANSFORMS1.informative-audit",
            o_transforms1(),
            texts::informative_source_audit(),
            CssExclusionReason::InformativeOnly,
            None,
        ),
        CssExclusionMetadata::spec_new(
            "excluded.O-COMPOSITING1.informative-audit",
            o_compositing1(),
            texts::informative_source_audit(),
            CssExclusionReason::InformativeOnly,
            None,
        ),
        CssExclusionMetadata::spec_new(
            "excluded.O-EASING1.informative-audit",
            o_easing1(),
            texts::informative_source_audit(),
            CssExclusionReason::InformativeOnly,
            None,
        ),
        CssExclusionMetadata::spec_new(
            "excluded.O-COUNTERSTYLES3.informative-audit",
            o_counterstyles3(),
            texts::informative_source_audit(),
            CssExclusionReason::InformativeOnly,
            None,
        ),
    ]
}

/// Builds exclusions 121 through 131 of the registry; every entry is well formed.
#[verifier::rlimit(40)]
fn exclusion_records_3() -> (exclusions: Vec<CssExclusionMetadata>)
    ensures
        exclusions@ == exclusions_3(),
        forall|i: int| 0 <= i < exclusions@.len() ==> (#[trigger] exclusions@[i]).wf(),
{
    proof {
        reveal(exclusions_3);
    }
    let mut exclusions = Vec::new();
    push_exclusion(&mut exclusions, CssExclusionMetadata::new(
        "excluded.O-IMAGES3.informative-audit",
        o_images3(),
        texts::informative_source_audit(),
        CssExclusionReason::InformativeOnly,
        None,
    ));
    push_exclusion(&mut exclusions, CssExclusionMetadata::new(
        "excluded.O-FONTS3.informative-audit",
        o_fonts3(),
        texts::informative_source_audit(),
        CssExclusionReason::InformativeOnly,
        None,
    ));
    push_exclusion(&mut exclusions, CssExclusionMetadata::new(
        "excluded.O-WRITING3.informative-audit",
        o_writing3(),
        texts::informative_source_audit(),
        CssExclusionReason::InformativeOnly,
        None,
    ));
    push_exclusion(&mut exclusions, CssExclusionMetadata::new(
        "excluded.O-MULTICOL1.informative-audit",
        o_multicol1(),
        texts::informative_source_audit(),
        CssExclusionReason::InformativeOnly,
        None,
    ));
    push_exclusion(&mut exclusions, CssExclusionMetadata::new(
        "excluded.O-FLEXBOX1.informative-audit",
        o_flexbox1(),
        texts::informative_source_audit(),
        CssExclusionReason::InformativeOnly,
        None,
    ));
    push_exclusion(&mut exclusions, CssExclusionMetadata::new(
        "excluded.O-UI3.informative-audit",
        o_ui3(),
        texts::informative_source_audit(),
        CssExclusionReason::InformativeOnly,
        None,
    ));
    push_exclusion(&mut exclusions, CssExclusionMetadata::new(
        "excluded.O-CONTAIN1.informative-audit",
        o_contain1(),
        texts::informative_source_audit(),
        CssExclusionReason::InformativeOnly,
        None,
    ));
    push_exclusion(&mut exclusions, CssExclusionMetadata::new(
        "excluded.O-TRANSFORMS1.informative-audit",
        o_transforms1(),
        texts::informative_source_audit(),
        CssExclusionReason::InformativeOnly,
        None,
    ));
    push_exclusion(&mut exclusions, CssExclusionMetadata::new(
        "excluded.O-COMPOSITING1.informative-audit",
        o_compositing1(),
        texts::informative_source_audit(),
        CssExclusionReason::InformativeOnly,
        None,
    ));
    push_exclusion(&mut exclusions, CssExclusionMetadata::new(
        "excluded.O-EASING1.informative-audit",
        o_easing1(),
        texts::informative_source_audit(),
        CssExclusionReason::InformativeOnly,
        None,
    ));
    push_exclusion(&mut exclusions, CssExclusionMetadata::new(
        "excluded.O-COUNTERSTYLES3.informative-audit",
        o_counterstyles3(),
        texts::informative_source_audit(),
        CssExclusionReason::InformativeOnly,
        None,
    ));
    exclusions
}

/// The exclusion registry in stable declaration order.
#[verifier::opaque]
pub open spec fn exclusion_list() -> Seq<CssExclusionMetadata> {
    exclusions_1() + exclusions_2() + exclusions_3()
}

/// Builds the exclusion registry in stable declaration order; every entry is well formed.
pub(crate) fn exclusion_registry() -> (exclusions: Vec<CssExclusionMetadata>)
    ensures
        exclusions@ == exclusion_list(),
        forall|i: int| 0 <= i < exclusions@.len() ==> (#[trigger] exclusions@[i]).wf(),
{
    proof {
        reveal(exclusion_list);
    }
    let mut exclusions = exclusion_records_1();
    let mut part = exclusion_records_2();
    exclusions.append(&mut part);
    let mut part = exclusion_records_3();
    exclusions.append(&mut part);
    exclusions
}

/// Part 1 of the registry holds 60 exclusions.
pub proof fn lemma_exclusions_1_len()
    ensures
        exclusions_1().len() == 60,
{
    reveal(exclusions_1);
}

/// Part 2 of the registry holds 60 exclusions.
pub proof fn lemma_exclusions_2_len()
    ensures
        exclusions_2().len() == 60,
{
    reveal(exclusions_2);
}

/// Part 3 of the registry holds 11 exclusions.
pub proof fn lemma_exclusions_3_len()
    ensures
        exclusions_3().len() == 11,
{
    reveal(exclusions_3);
}

} // verus!
