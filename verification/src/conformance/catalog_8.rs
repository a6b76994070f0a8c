//! Support-catalog records 421 through 463 in stable inventory order.
use vstd::prelude::*;

use super::sources::{o_media3, o_namespaces3, o_selectors3, r_conditional4, r_media4, x_display_mode_base, x_media5, x_pseudo4, x_values4};
use crate::error::CssFeatureId;
use super::{texts, push_feature, CssFeatureKind, CssFeatureMetadata};

verus! {

/// The records of this part of the catalog, in stable inventory order.
#[verifier::opaque]
pub open spec fn features() -> Seq<CssFeatureMetadata> {
    seq![
        CssFeatureMetadata::spec_complete(
            "official.selector.combinator.descendant",
            CssFeatureKind::Selector,
            "descendant combinator",
            o_selectors3(),
            "#descendant-combinators",
        ),
        CssFeatureMetadata::spec_complete(
            "official.selector.combinator.child",
            CssFeatureKind::Selector,
            "child combinator >",
            o_selectors3(),
            "#child-combinators",
        ),
        CssFeatureMetadata::spec_complete(
            "official.selector.combinator.next-sibling",
            CssFeatureKind::Selector,
            "next-sibling combinator +",
            o_selectors3(),
            "#adjacent-sibling-combinators",
        ),
        CssFeatureMetadata::spec_complete(
            "official.selector.combinator.subsequent-sibling",
            CssFeatureKind::Selector,
            "subsequent-sibling combinator ~",
            o_selectors3(),
            "#general-sibling-combinators",
        ),
        CssFeatureMetadata::spec_complete(
            "official.selector.namespace-qualified-name",
            CssFeatureKind::Selector,
            "default, explicit-none, any, and named selector namespace constraints",
            o_namespaces3(),
            "#scope,#prefixes,#css-qnames",
        ),
        CssFeatureMetadata::spec_complete(
            "ext.pseudo-element.marker",
            CssFeatureKind::Selector,
            "::marker",
            x_pseudo4(),
            "#marker-pseudo",
        ),
        CssFeatureMetadata::spec_complete(
            "ext.pseudo-element.selection",
            CssFeatureKind::Selector,
            "::selection",
            x_pseudo4(),
            "#selectordef-selection",
        ),
        CssFeatureMetadata::spec_complete(
            "ext.pseudo-element.backdrop",
            CssFeatureKind::Selector,
            "::backdrop",
            x_pseudo4(),
            "#selectordef-backdrop",
        ),
        CssFeatureMetadata::spec_complete(
            "ext.pseudo-element.generated-marker",
            CssFeatureKind::Selector,
            "::before::marker, ::after::marker",
            x_pseudo4(),
            "#marker-pseudo",
        ),
        CssFeatureMetadata::spec_complete(
            "official.media.query-list-core",
            CssFeatureKind::MediaQuery,
            "Media Queries 3 query-list core",
            o_media3(),
            "#syntax",
        ),
        CssFeatureMetadata::spec_complete(
            "ext.media.condition-syntax",
            CssFeatureKind::MediaQuery,
            "not, and, and comma-separated condition syntax",
            r_media4(),
            "#mq-syntax",
        ),
        CssFeatureMetadata::spec_complete(
            "ext.media.malformed-member-never",
            CssFeatureKind::MediaQuery,
            "malformed query-list members become Never",
            r_media4(),
            "#mq-invalid",
        ),
        CssFeatureMetadata::spec_complete(
            "official.media.feature.width",
            CssFeatureKind::MediaQuery,
            "width, min-width, max-width, including boolean forms where permitted",
            o_media3(),
            "#width",
        ),
        CssFeatureMetadata::spec_complete(
            "official.media.feature.height",
            CssFeatureKind::MediaQuery,
            "height, min-height, max-height, including boolean forms where permitted",
            o_media3(),
            "#height",
        ),
        CssFeatureMetadata::spec_complete(
            "official.media.feature.device-width",
            CssFeatureKind::MediaQuery,
            "device-width, min-device-width, max-device-width, including boolean forms where permitted",
            o_media3(),
            "#device-width",
        ),
        CssFeatureMetadata::spec_complete(
            "official.media.feature.device-height",
            CssFeatureKind::MediaQuery,
            "device-height, min-device-height, max-device-height, including boolean forms where permitted",
            o_media3(),
            "#device-height",
        ),
        CssFeatureMetadata::spec_complete(
            "official.media.feature.aspect-ratio",
            CssFeatureKind::MediaQuery,
            "aspect-ratio, min-aspect-ratio, max-aspect-ratio, including boolean forms where permitted",
            o_media3(),
            "#aspect-ratio",
        ),
        CssFeatureMetadata::spec_complete(
            "official.media.feature.device-aspect-ratio",
            CssFeatureKind::MediaQuery,
            "device-aspect-ratio, min-device-aspect-ratio, max-device-aspect-ratio, including boolean forms where permitted",
            o_media3(),
            "#device-aspect-ratio",
        ),
        CssFeatureMetadata::spec_complete(
            "official.media.feature.resolution",
            CssFeatureKind::MediaQuery,
            "resolution, min-resolution, max-resolution with dpi and dpcm, including boolean forms where permitted",
            o_media3(),
            "#resolution",
        ),
        CssFeatureMetadata::spec_complete(
            "official.media.feature.color",
            CssFeatureKind::MediaQuery,
            "color, min-color, max-color, including boolean forms where permitted",
            o_media3(),
            "#color",
        ),
        CssFeatureMetadata::spec_complete(
            "official.media.feature.color-index",
            CssFeatureKind::MediaQuery,
            "color-index, min-color-index, max-color-index, including boolean forms where permitted",
            o_media3(),
            "#color-index",
        ),
        CssFeatureMetadata::spec_complete(
            "official.media.feature.monochrome",
            CssFeatureKind::MediaQuery,
            "monochrome, min-monochrome, max-monochrome, including boolean forms where permitted",
            o_media3(),
            "#monochrome",
        ),
        CssFeatureMetadata::spec_complete(
            "official.media.feature.scan",
            CssFeatureKind::MediaQuery,
            "scan, including its boolean form",
            o_media3(),
            "#scan",
        ),
        CssFeatureMetadata::spec_complete(
            "official.media.feature.grid",
            CssFeatureKind::MediaQuery,
            "grid, including its boolean form",
            o_media3(),
            "#grid",
        ),
        CssFeatureMetadata::spec_complete(
            "ext.media.resolution.dppx",
            CssFeatureKind::MediaQuery,
            "dppx resolution unit",
            r_media4(),
            "#resolution",
        ),
        CssFeatureMetadata::spec_complete(
            "ext.supports.general-enclosed",
            CssFeatureKind::Value,
            "general-enclosed supports condition",
            x_values4(),
            "css-values-4/Overview.bs#general-enclosed",
        ),
        CssFeatureMetadata::spec_partial(
            "ext.supports.selector",
            CssFeatureKind::Selector,
            "selector() supports test",
            r_conditional4(),
            "#at-supports",
            texts::supports_selector_subset(),
            texts::supports_selector_remainder(),
        ),
        CssFeatureMetadata::spec_partial(
            "ext.media.range.width",
            CssFeatureKind::MediaQuery,
            "width comparison form",
            r_media4(),
            "#width",
            "One-sided finite authored length comparisons are supported.",
            "Other valid Media Queries 4 width range forms are outside the I01 subset.",
        ),
        CssFeatureMetadata::spec_partial(
            "ext.media.range.height",
            CssFeatureKind::MediaQuery,
            "height comparison form",
            r_media4(),
            "#height",
            "One-sided finite authored length comparisons are supported.",
            "Other valid Media Queries 4 height range forms are outside the I01 subset.",
        ),
        CssFeatureMetadata::spec_partial(
            "ext.media.range.resolution",
            CssFeatureKind::MediaQuery,
            "resolution comparison form",
            r_media4(),
            "#resolution",
            "One-sided finite positive resolution comparisons are supported.",
            "Other valid Media Queries 4 resolution range forms are outside the I01 subset.",
        ),
        CssFeatureMetadata::spec_partial(
            "ext.media.range.color",
            CssFeatureKind::MediaQuery,
            "color comparison form",
            r_media4(),
            "#color",
            "One-sided non-negative integer color comparisons are supported.",
            "Other valid Media Queries 4 color range forms are outside the I01 subset.",
        ),
        CssFeatureMetadata::spec_partial(
            "ext.media.range.monochrome",
            CssFeatureKind::MediaQuery,
            "monochrome comparison form",
            r_media4(),
            "#monochrome",
            "One-sided non-negative integer monochrome comparisons are supported.",
            "Other valid Media Queries 4 monochrome range forms are outside the I01 subset.",
        ),
        CssFeatureMetadata::spec_complete(
            "official.media.feature.orientation",
            CssFeatureKind::MediaQuery,
            "orientation",
            o_media3(),
            "#orientation",
        ),
        CssFeatureMetadata::spec_complete(
            "ext.media.hover",
            CssFeatureKind::MediaQuery,
            "hover",
            r_media4(),
            "#hover",
        ),
        CssFeatureMetadata::spec_complete(
            "ext.media.any-hover",
            CssFeatureKind::MediaQuery,
            "any-hover",
            r_media4(),
            "#any-hover",
        ),
        CssFeatureMetadata::spec_complete(
            "ext.media.pointer",
            CssFeatureKind::MediaQuery,
            "pointer",
            r_media4(),
            "#pointer",
        ),
        CssFeatureMetadata::spec_complete(
            "ext.media.any-pointer",
            CssFeatureKind::MediaQuery,
            "any-pointer",
            r_media4(),
            "#any-pointer",
        ),
        CssFeatureMetadata::spec_complete(
            "ext.media.prefers-color-scheme",
            CssFeatureKind::MediaQuery,
            "prefers-color-scheme",
            x_media5(),
            "#prefers-color-scheme",
        ),
        CssFeatureMetadata::spec_complete(
            "ext.media.prefers-reduced-motion",
            CssFeatureKind::MediaQuery,
            "prefers-reduced-motion",
            x_media5(),
            "#prefers-reduced-motion",
        ),
        CssFeatureMetadata::spec_complete(
            "ext.media.prefers-reduced-transparency",
            CssFeatureKind::MediaQuery,
            "prefers-reduced-transparency",
            x_media5(),
            "#prefers-reduced-transparency",
        ),
        CssFeatureMetadata::spec_complete(
            "ext.media.prefers-contrast",
            CssFeatureKind::MediaQuery,
            "prefers-contrast",
            x_media5(),
            "#prefers-contrast",
        ),
        CssFeatureMetadata::spec_complete(
            "ext.media.forced-colors",
            CssFeatureKind::MediaQuery,
            "forced-colors",
            x_media5(),
            "#forced-colors",
        ),
        CssFeatureMetadata::spec_complete(
            "ext.media.display-mode",
            CssFeatureKind::MediaQuery,
            "display-mode",
            x_display_mode_base(),
            "display-mode baseline subset",
        ),
    ]
}

/// Builds the records of this part of the catalog; every record is well formed.
#[verifier::rlimit(40)]
pub(crate) fn feature_records() -> (records: Vec<CssFeatureMetadata>)
    ensures
        records@ == features(),
        forall|i: int| 0 <= i < records@.len() ==> (#[trigger] records@[i]).wf(),
{
    proof {
        reveal(features);
    }
    let mut records = Vec::new();
    push_feature(&mut records, CssFeatureMetadata::complete(
        "official.selector.combinator.descendant",
        CssFeatureKind::Selector,
        "descendant combinator",
        o_selectors3(),
        "#descendant-combinators",
    ));
    push_feature(&mut records, CssFeatureMetadata::complete(
        "official.selector.combinator.child",
        CssFeatureKind::Selector,
        "child combinator >",
        o_selectors3(),
        "#child-combinators",
    ));
    push_feature(&mut records, CssFeatureMetadata::complete(
        "official.selector.combinator.next-sibling",
        CssFeatureKind::Selector,
        "next-sibling combinator +",
        o_selectors3(),
        "#adjacent-sibling-combinators",
    ));
    push_feature(&mut records, CssFeatureMetadata::complete(
        "official.selector.combinator.subsequent-sibling",
        CssFeatureKind::Selector,
        "subsequent-sibling combinator ~",
        o_selectors3(),
        "#general-sibling-combinators",
    ));
    push_feature(&mut records, CssFeatureMetadata::complete(
        "official.selector.namespace-qualified-name",
        CssFeatureKind::Selector,
        "default, explicit-none, any, and named selector namespace constraints",
        o_namespaces3(),
        "#scope,#prefixes,#css-qnames",
    ));
    push_feature(&mut records, CssFeatureMetadata::complete(
        "ext.pseudo-element.marker",
        CssFeatureKind::Selector,
        "::marker",
        x_pseudo4(),
        "#marker-pseudo",
    ));
    push_feature(&mut records, CssFeatureMetadata::complete(
        "ext.pseudo-element.selection",
        CssFeatureKind::Selector,
        "::selection",
        x_pseudo4(),
        "#selectordef-selection",
    ));
    push_feature(&mut records, CssFeatureMetadata::complete(
        "ext.pseudo-element.backdrop",
        CssFeatureKind::Selector,
        "::backdrop",
        x_pseudo4(),
        "#selectordef-backdrop",
    ));
    push_feature(&mut records, CssFeatureMetadata::complete(
        "ext.pseudo-element.generated-marker",
        CssFeatureKind::Selector,
        "::before::marker, ::after::marker",
        x_pseudo4(),
        "#marker-pseudo",
    ));
    push_feature(&mut records, CssFeatureMetadata::complete(
        "official.media.query-list-core",
        CssFeatureKind::MediaQuery,
        "Media Queries 3 query-list core",
        o_media3(),
        "#syntax",
    ));
    push_feature(&mut records, CssFeatureMetadata::complete(
        "ext.media.condition-syntax",
        CssFeatureKind::MediaQuery,
        "not, and, and comma-separated condition syntax",
        r_media4(),
        "#mq-syntax",
    ));
    push_feature(&mut records, CssFeatureMetadata::complete(
        "ext.media.malformed-member-never",
        CssFeatureKind::MediaQuery,
        "malformed query-list members become Never",
        r_media4(),
        "#mq-invalid",
    ));
    push_feature(&mut records, CssFeatureMetadata::complete(
        "official.media.feature.width",
        CssFeatureKind::MediaQuery,
        "width, min-width, max-width, including boolean forms where permitted",
        o_media3(),
        "#width",
    ));
    push_feature(&mut records, CssFeatureMetadata::complete(
        "official.media.feature.height",
        CssFeatureKind::MediaQuery,
        "height, min-height, max-height, including boolean forms where permitted",
        o_media3(),
        "#height",
    ));
    push_feature(&mut records, CssFeatureMetadata::complete(
        "official.media.feature.device-width",
        CssFeatureKind::MediaQuery,
        "device-width, min-device-width, max-device-width, including boolean forms where permitted",
        o_media3(),
        "#device-width",
    ));
    push_feature(&mut records, CssFeatureMetadata::complete(
        "official.media.feature.device-height",
        CssFeatureKind::MediaQuery,
        "device-height, min-device-height, max-device-height, including boolean forms where permitted",
        o_media3(),
        "#device-height",
    ));
    push_feature(&mut records, CssFeatureMetadata::complete(
        "official.media.feature.aspect-ratio",
        CssFeatureKind::MediaQuery,
        "aspect-ratio, min-aspect-ratio, max-aspect-ratio, including boolean forms where permitted",
        o_media3(),
        "#aspect-ratio",
    ));
    push_feature(&mut records, CssFeatureMetadata::complete(
        "official.media.feature.device-aspect-ratio",
        CssFeatureKind::MediaQuery,
        "device-aspect-ratio, min-device-aspect-ratio, max-device-aspect-ratio, including boolean forms where permitted",
        o_media3(),
        "#device-aspect-ratio",
    ));
    push_feature(&mut records, CssFeatureMetadata::complete(
        "official.media.feature.resolution",
        CssFeatureKind::MediaQuery,
        "resolution, min-resolution, max-resolution with dpi and dpcm, including boolean forms where permitted",
        o_media3(),
        "#resolution",
    ));
    push_feature(&mut records, CssFeatureMetadata::complete(
        "official.media.feature.color",
        CssFeatureKind::MediaQuery,
        "color, min-color, max-color, including boolean forms where permitted",
        o_media3(),
        "#color",
    ));
    push_feature(&mut records, CssFeatureMetadata::complete(
        "official.media.feature.color-index",
        CssFeatureKind::MediaQuery,
        "color-index, min-color-index, max-color-index, including boolean forms where permitted",
        o_media3(),
        "#color-index",
    ));
    push_feature(&mut records, CssFeatureMetadata::complete(
        "official.media.feature.monochrome",
        CssFeatureKind::MediaQuery,
        "monochrome, min-monochrome, max-monochrome, including boolean forms where permitted",
        o_media3(),
        "#monochrome",
    ));
    push_feature(&mut records, CssFeatureMetadata::complete(
        "official.media.feature.scan",
        CssFeatureKind::MediaQuery,
        "scan, including its boolean form",
        o_media3(),
        "#scan",
    ));
    push_feature(&mut records, CssFeatureMetadata::complete(
        "official.media.feature.grid",
        CssFeatureKind::MediaQuery,
        "grid, including its boolean form",
        o_media3(),
        "#grid",
    ));
    push_feature(&mut records, CssFeatureMetadata::complete(
        "ext.media.resolution.dppx",
        CssFeatureKind::MediaQuery,
        "dppx resolution unit",
        r_media4(),
        "#resolution",
    ));
    push_feature(&mut records, CssFeatureMetadata::complete(
        "ext.supports.general-enclosed",
        CssFeatureKind::Value,
        "general-enclosed supports condition",
        x_values4(),
        "css-values-4/Overview.bs#general-enclosed",
    ));
    push_feature(&mut records, CssFeatureMetadata::partial(
        "ext.supports.selector",
        CssFeatureKind::Selector,
        "selector() supports test",
        r_conditional4(),
        "#at-supports",
        texts::supports_selector_subset(),
        texts::supports_selector_remainder(),
    ));
    push_feature(&mut records, CssFeatureMetadata::partial(
        "ext.media.range.width",
        CssFeatureKind::MediaQuery,
        "width comparison form",
        r_media4(),
        "#width",
        "One-sided finite authored length comparisons are supported.",
        "Other valid Media Queries 4 width range forms are outside the I01 subset.",
    ));
    push_feature(&mut records, CssFeatureMetadata::partial(
        "ext.media.range.height",
        CssFeatureKind::MediaQuery,
        "height comparison form",
        r_media4(),
        "#height",
        "One-sided finite authored length comparisons are supported.",
        "Other valid Media Queries 4 height range forms are outside the I01 subset.",
    ));
    push_feature(&mut records, CssFeatureMetadata::partial(
        "ext.media.range.resolution",
        CssFeatureKind::MediaQuery,
        "resolution comparison form",
        r_media4(),
        "#resolution",
        "One-sided finite positive resolution comparisons are supported.",
        "Other valid Media Queries 4 resolution range forms are outside the I01 subset.",
    ));
    push_feature(&mut records, CssFeatureMetadata::partial(
        "ext.media.range.color",
        CssFeatureKind::MediaQuery,
        "color comparison form",
        r_media4(),
        "#color",
        "One-sided non-negative integer color comparisons are supported.",
        "Other valid Media Queries 4 color range forms are outside the I01 subset.",
    ));
    push_feature(&mut records, CssFeatureMetadata::partial(
        "ext.media.range.monochrome",
        CssFeatureKind::MediaQuery,
        "monochrome comparison form",
        r_media4(),
        "#monochrome",
        "One-sided non-negative integer monochrome comparisons are supported.",
        "Other valid Media Queries 4 monochrome range forms are outside the I01 subset.",
    ));
    push_feature(&mut records, CssFeatureMetadata::complete(
        "official.media.feature.orientation",
        CssFeatureKind::MediaQuery,
        "orientation",
        o_media3(),
        "#orientation",
    ));
    push_feature(&mut records, CssFeatureMetadata::complete(
        "ext.media.hover",
        CssFeatureKind::MediaQuery,
        "hover",
        r_media4(),
        "#hover",
    ));
    push_feature(&mut records, CssFeatureMetadata::complete(
        "ext.media.any-hover",
        CssFeatureKind::MediaQuery,
        "any-hover",
        r_media4(),
        "#any-hover",
    ));
    push_feature(&mut records, CssFeatureMetadata::complete(
        "ext.media.pointer",
        CssFeatureKind::MediaQuery,
        "pointer",
        r_media4(),
        "#pointer",
    ));
    push_feature(&mut records, CssFeatureMetadata::complete(
        "ext.media.any-pointer",
        CssFeatureKind::MediaQuery,
        "any-pointer",
        r_media4(),
        "#any-pointer",
    ));
    push_feature(&mut records, CssFeatureMetadata::complete(
        "ext.media.prefers-color-scheme",
        CssFeatureKind::MediaQuery,
        "prefers-color-scheme",
        x_media5(),
        "#prefers-color-scheme",
    ));
    push_feature(&mut records, CssFeatureMetadata::complete(
        "ext.media.prefers-reduced-motion",
        CssFeatureKind::MediaQuery,
        "prefers-reduced-motion",
        x_media5(),
        "#prefers-reduced-motion",
    ));
    push_feature(&mut records, CssFeatureMetadata::complete(
        "ext.media.prefers-reduced-transparency",
        CssFeatureKind::MediaQuery,
        "prefers-reduced-transparency",
        x_media5(),
        "#prefers-reduced-transparency",
    ));
    push_feature(&mut records, CssFeatureMetadata::complete(
        "ext.media.prefers-contrast",
        CssFeatureKind::MediaQuery,
        "prefers-contrast",
        x_media5(),
        "#prefers-contrast",
    ));
    push_feature(&mut records, CssFeatureMetadata::complete(
        "ext.media.forced-colors",
        CssFeatureKind::MediaQuery,
        "forced-colors",
        x_media5(),
        "#forced-colors",
    ));
    push_feature(&mut records, CssFeatureMetadata::complete(
        "ext.media.display-mode",
        CssFeatureKind::MediaQuery,
        "display-mode",
        x_display_mode_base(),
        "display-mode baseline subset",
    ));
    records
}

/// This part of the catalog holds 43 records.
pub proof fn lemma_features_len()
    ensures
        features().len() == 43,
{
    reveal(features);
}

/// The alias records of this part, the atomic targets they name, and the identities of the
/// records those targets name; every other record has no targets.
#[verifier::rlimit(100)]
pub proof fn lemma_alias_facts()
    ensures
        forall|i: int| 0 <= i < features().len() ==> #[trigger] features()[i].spec_baseline_alias_targets().len() == 0,
        features()[5].spec_id() == CssFeatureId::new("ext.pseudo-element.marker"),
        features()[6].spec_id() == CssFeatureId::new("ext.pseudo-element.selection"),
        features()[7].spec_id() == CssFeatureId::new("ext.pseudo-element.backdrop"),
        features()[8].spec_id() == CssFeatureId::new("ext.pseudo-element.generated-marker"),
        features()[9].spec_id() == CssFeatureId::new("official.media.query-list-core"),
        features()[10].spec_id() == CssFeatureId::new("ext.media.condition-syntax"),
        features()[11].spec_id() == CssFeatureId::new("ext.media.malformed-member-never"),
        features()[12].spec_id() == CssFeatureId::new("official.media.feature.width"),
        features()[13].spec_id() == CssFeatureId::new("official.media.feature.height"),
        features()[18].spec_id() == CssFeatureId::new("official.media.feature.resolution"),
        features()[19].spec_id() == CssFeatureId::new("official.media.feature.color"),
        features()[21].spec_id() == CssFeatureId::new("official.media.feature.monochrome"),
        features()[24].spec_id() == CssFeatureId::new("ext.media.resolution.dppx"),
        features()[27].spec_id() == CssFeatureId::new("ext.media.range.width"),
        features()[28].spec_id() == CssFeatureId::new("ext.media.range.height"),
        features()[29].spec_id() == CssFeatureId::new("ext.media.range.resolution"),
        features()[30].spec_id() == CssFeatureId::new("ext.media.range.color"),
        features()[31].spec_id() == CssFeatureId::new("ext.media.range.monochrome"),
        features()[32].spec_id() == CssFeatureId::new("official.media.feature.orientation"),
        features()[33].spec_id() == CssFeatureId::new("ext.media.hover"),
        features()[34].spec_id() == CssFeatureId::new("ext.media.any-hover"),
        features()[35].spec_id() == CssFeatureId::new("ext.media.pointer"),
        features()[36].spec_id() == CssFeatureId::new("ext.media.any-pointer"),
        features()[37].spec_id() == CssFeatureId::new("ext.media.prefers-color-scheme"),
        features()[38].spec_id() == CssFeatureId::new("ext.media.prefers-reduced-motion"),
        features()[39].spec_id() == CssFeatureId::new("ext.media.prefers-reduced-transparency"),
        features()[40].spec_id() == CssFeatureId::new("ext.media.prefers-contrast"),
        features()[41].spec_id() == CssFeatureId::new("ext.media.forced-colors"),
        features()[42].spec_id() == CssFeatureId::new("ext.media.display-mode"),
{
    broadcast use {
        CssFeatureMetadata::lemma_complete_parts,
        CssFeatureMetadata::lemma_partial_parts,
        CssFeatureMetadata::lemma_baseline_alias_parts,
        CssFeatureMetadata::lemma_recognized_unsupported_parts,
        CssFeatureMetadata::lemma_partial_property_parts,
        CssFeatureMetadata::lemma_complete_property_parts,
        CssFeatureMetadata::lemma_partial_property_with_boundary_parts,
    };

    reveal(features);
    assert(features()[0].spec_baseline_alias_targets().len() == 0);
    assert(features()[1].spec_baseline_alias_targets().len() == 0);
    assert(features()[2].spec_baseline_alias_targets().len() == 0);
    assert(features()[3].spec_baseline_alias_targets().len() == 0);
    assert(features()[4].spec_baseline_alias_targets().len() == 0);
    assert(features()[5].spec_baseline_alias_targets().len() == 0);
    assert(features()[6].spec_baseline_alias_targets().len() == 0);
    assert(features()[7].spec_baseline_alias_targets().len() == 0);
    assert(features()[8].spec_baseline_alias_targets().len() == 0);
    assert(features()[9].spec_baseline_alias_targets().len() == 0);
    assert(features()[10].spec_baseline_alias_targets().len() == 0);
    assert(features()[11].spec_baseline_alias_targets().len() == 0);
    assert(features()[12].spec_baseline_alias_targets().len() == 0);
    assert(features()[13].spec_baseline_alias_targets().len() == 0);
    assert(features()[14].spec_baseline_alias_targets().len() == 0);
    assert(features()[15].spec_baseline_alias_targets().len() == 0);
    assert(features()[16].spec_baseline_alias_targets().len() == 0);
    assert(features()[17].spec_baseline_alias_targets().len() == 0);
    assert(features()[18].spec_baseline_alias_targets().len() == 0);
    assert(features()[19].spec_baseline_alias_targets().len() == 0);
    assert(features()[20].spec_baseline_alias_targets().len() == 0);
    assert(features()[21].spec_baseline_alias_targets().len() == 0);
    assert(features()[22].spec_baseline_alias_targets().len() == 0);
    assert(features()[23].spec_baseline_alias_targets().len() == 0);
    assert(features()[24].spec_baseline_alias_targets().len() == 0);
    assert(features()[25].spec_baseline_alias_targets().len() == 0);
    assert(features()[26].spec_baseline_alias_targets().len() == 0);
    assert(features()[27].spec_baseline_alias_targets().len() == 0);
    assert(features()[28].spec_baseline_alias_targets().len() == 0);
    assert(features()[29].spec_baseline_alias_targets().len() == 0);
    assert(features()[30].spec_baseline_alias_targets().len() == 0);
    assert(features()[31].spec_baseline_alias_targets().len() == 0);
    assert(features()[32].spec_baseline_alias_targets().len() == 0);
    assert(features()[33].spec_baseline_alias_targets().len() == 0);
    assert(features()[34].spec_baseline_alias_targets().len() == 0);
    assert(features()[35].spec_baseline_alias_targets().len() == 0);
    assert(features()[36].spec_baseline_alias_targets().len() == 0);
    assert(features()[37].spec_baseline_alias_targets().len() == 0);
    assert(features()[38].spec_baseline_alias_targets().len() == 0);
    assert(features()[39].spec_baseline_alias_targets().len() == 0);
    assert(features()[40].spec_baseline_alias_targets().len() == 0);
    assert(features()[41].spec_baseline_alias_targets().len() == 0);
    assert(features()[42].spec_baseline_alias_targets().len() == 0);
}

} // verus!
