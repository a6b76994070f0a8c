//! Laws that hold of every record of the support catalog.
use vstd::prelude::*;

use super::property_sources::{spec_property_production, spec_property_source};
use super::sources::{baseline_queries, baseline_selectors, i_animations1, i_color5, i_contain2, i_filter1, i_fonts4, i_lists3, i_nesting1, i_position3, i_selectors4, i_sizing3, i_transforms2, i_transitions1, o_backgrounds3, o_box3, o_cascade4, o_color4, o_compositing1, o_conditional3, o_contain1, o_counterstyles3, o_css2, o_easing1, o_flexbox1, o_fonts3, o_images3, o_media3, o_multicol1, o_namespaces3, o_selectors3, o_style_attr, o_syntax3, o_transforms1, o_ui3, o_values3, o_variables1, o_writing3, r_cascade5, r_conditional4, r_grid2, r_media4, r_scrollbars1, s_align3, s_break3, s_display3, s_masking1, s_shapes1, s_text3, s_textdecor3, x_cascade6, x_contain3, x_display_mode_base, x_filter2_base, x_grid_tolerance_base, x_media5, x_overflow3, x_pseudo4, x_text4, x_textdecor4, x_ui4, x_values4};
use super::{catalog_1, catalog_2, catalog_3, catalog_4, catalog_5, catalog_6, catalog_7, catalog_8, sources, spec_feature_catalog, spec_specification_sources, has_prefix, CssFeatureMetadata, CssSpecificationSource};
use crate::error::CssFeatureId;
use crate::properties::CssKnownProperty;

verus! {

/// Whether the record cites a source of the specification-source registry.
pub open spec fn feature_cites_registered_source(feature: CssFeatureMetadata) -> bool {
    spec_specification_sources().contains(feature.spec_source())
}

/// Whether each support-boundary description the record gives is non-empty.
pub open spec fn boundary_descriptions_non_empty(feature: CssFeatureMetadata) -> bool {
    &&& match feature.spec_supported_subset() {
        Some(subset) => subset@.len() > 0,
        None => true,
    }
    &&& match feature.spec_unsupported_remainder() {
        Some(remainder) => remainder@.len() > 0,
        None => true,
    }
}

/// Whether the record's identity does not begin with `excluded.`, the mark of an exclusion.
pub open spec fn feature_id_unmarked(feature: CssFeatureMetadata) -> bool {
    !has_prefix(feature.spec_id()@, "excluded."@)
}

/// Whether the record's identity begins with a lowercase ASCII letter, as feature identities do
/// and source identities do not.
pub open spec fn feature_id_starts_lowercase(feature: CssFeatureMetadata) -> bool {
    &&& feature.spec_id()@.len() > 0
    &&& 'a' <= feature.spec_id()@[0] <= 'z'
}

/// Whether a property record cites the fragment `#propdef-` and its canonical spelling, after a
/// chapter file exactly when the property is defined in CSS 2.1.
pub open spec fn property_production_names_spelling(feature: CssFeatureMetadata) -> bool {
    let production = feature.spec_production()@;
    let fragment = "#propdef-"@ + feature.spec_spelling()@;
    feature.spec_property() is Some ==> {
        &&& production.len() >= fragment.len()
        &&& production.skip(production.len() - fragment.len()) == fragment
        &&& (production.len() > fragment.len() <==> feature.spec_source() == o_css2())
    }
}

/// Whether the record's identity holds a dot, as every dotted feature path does.
pub open spec fn feature_id_dotted(feature: CssFeatureMetadata) -> bool {
    feature.spec_id()@.contains('.')
}

/// Whether the record lists no reviewed property aliases.
pub open spec fn feature_lists_no_aliases(feature: CssFeatureMetadata) -> bool {
    feature.spec_property_aliases().len() == 0
}

/// The record laws of the catalog.
pub open spec fn feature_record_laws(feature: CssFeatureMetadata) -> bool {
    &&& feature_id_dotted(feature)
    &&& feature_lists_no_aliases(feature)
    &&& feature_cites_registered_source(feature)
    &&& boundary_descriptions_non_empty(feature)
    &&& feature_id_unmarked(feature)
    &&& feature_id_starts_lowercase(feature)
    &&& property_production_names_spelling(feature)
}

/// The specification of every known property is registered.
pub proof fn lemma_property_sources_registered()
    ensures
        forall|property: CssKnownProperty|
            spec_specification_sources().contains(#[trigger] spec_property_source(property)),
{
    reveal(spec_property_source);
    reveal(spec_specification_sources);
    reveal(sources::source_list);
    assert(sources::source_list()[39] == i_animations1());
    assert(sources::source_list()[48] == i_contain2());
    assert(sources::source_list()[40] == i_filter1());
    assert(sources::source_list()[43] == i_lists3());
    assert(sources::source_list()[44] == i_position3());
    assert(sources::source_list()[41] == i_sizing3());
    assert(sources::source_list()[42] == i_transforms2());
    assert(sources::source_list()[38] == i_transitions1());
    assert(sources::source_list()[12] == o_backgrounds3());
    assert(sources::source_list()[10] == o_box3());
    assert(sources::source_list()[7] == o_cascade4());
    assert(sources::source_list()[11] == o_color4());
    assert(sources::source_list()[21] == o_compositing1());
    assert(sources::source_list()[19] == o_contain1());
    assert(sources::source_list()[0] == o_css2());
    assert(sources::source_list()[17] == o_flexbox1());
    assert(sources::source_list()[14] == o_fonts3());
    assert(sources::source_list()[13] == o_images3());
    assert(sources::source_list()[16] == o_multicol1());
    assert(sources::source_list()[20] == o_transforms1());
    assert(sources::source_list()[18] == o_ui3());
    assert(sources::source_list()[15] == o_writing3());
    assert(sources::source_list()[27] == r_grid2());
    assert(sources::source_list()[25] == r_scrollbars1());
    assert(sources::source_list()[33] == s_align3());
    assert(sources::source_list()[32] == s_break3());
    assert(sources::source_list()[30] == s_display3());
    assert(sources::source_list()[37] == s_masking1());
    assert(sources::source_list()[35] == s_text3());
    assert(sources::source_list()[36] == s_textdecor3());
    assert(sources::source_list()[63] == x_filter2_base());
    assert(sources::source_list()[65] == x_grid_tolerance_base());
    assert(sources::source_list()[56] == x_overflow3());
    assert(sources::source_list()[58] == x_text4());
    assert(sources::source_list()[59] == x_textdecor4());
    assert(sources::source_list()[60] == x_ui4());
    assert forall|property: CssKnownProperty|
        spec_specification_sources().contains(#[trigger] spec_property_source(property)) by {
        let source = spec_property_source(property);
    }
}

#[verifier::rlimit(100)]
proof fn lemma_catalog_1_laws()
    ensures
        forall|i: int| 0 <= i < catalog_1::features().len() ==> feature_record_laws(#[trigger] catalog_1::features()[i]),
{
    broadcast use {CssFeatureMetadata::lemma_complete_parts, CssFeatureMetadata::lemma_partial_parts, CssFeatureMetadata::lemma_baseline_alias_parts, CssFeatureMetadata::lemma_recognized_unsupported_parts, CssFeatureMetadata::lemma_partial_property_parts, CssFeatureMetadata::lemma_complete_property_parts, CssFeatureMetadata::lemma_partial_property_with_boundary_parts};

    reveal(catalog_1::features);
    reveal(spec_specification_sources);
    reveal(sources::source_list);
    reveal(spec_property_source);
    reveal(spec_property_production);
    lemma_property_sources_registered();
    reveal_strlit("#propdef-");
    assert(sources::source_list()[39] == i_animations1());
    assert(sources::source_list()[46] == i_color5());
    assert(sources::source_list()[7] == o_cascade4());
    assert(sources::source_list()[11] == o_color4());
    assert(sources::source_list()[4] == o_conditional3());
    assert(sources::source_list()[14] == o_fonts3());
    assert(sources::source_list()[2] == o_style_attr());
    assert(sources::source_list()[1] == o_syntax3());
    assert(sources::source_list()[8] == o_values3());
    assert(sources::source_list()[9] == o_variables1());
    assert(sources::source_list()[28] == r_cascade5());
    assert(sources::source_list()[52] == x_cascade6());
    assert(sources::source_list()[50] == x_contain3());
    reveal_strlit("The property-specific parser behavior at 4b288d6:src/parser/mod.rs, plus whole-value CSS-wide keywords and syntactically admissible substitution-dependent authored values, is supported.");
    reveal_strlit("Other valid forms of the cited property production are outside the I01 subset.");
    reveal_strlit("excluded.");
    reveal_strlit("baseline.rule.import");
    reveal_strlit("@import");
    reveal_strlit("#at-import");
    CssFeatureId::lemma_spec_new_parts("baseline.rule.import");
    assert(catalog_1::features()[0].spec_id()@[8] == '.');
    assert(catalog_1::features()[0].spec_id()@[0] != "excluded."@[0]);
    assert(feature_record_laws(catalog_1::features()[0]));
    reveal_strlit("ext.import.layer");
    reveal_strlit("@import layer or layer() clause");
    CssFeatureId::lemma_spec_new_parts("ext.import.layer");
    assert(catalog_1::features()[1].spec_id()@[3] == '.');
    assert(catalog_1::features()[1].spec_id()@[2] != "excluded."@[2]);
    assert(feature_record_laws(catalog_1::features()[1]));
    reveal_strlit("ext.stylesheet.prelude-order");
    reveal_strlit("initial layer statements, imports, namespaces, and body-rule ordering");
    CssFeatureId::lemma_spec_new_parts("ext.stylesheet.prelude-order");
    assert(catalog_1::features()[2].spec_id()@[3] == '.');
    assert(catalog_1::features()[2].spec_id()@[2] != "excluded."@[2]);
    assert(feature_record_laws(catalog_1::features()[2]));
    reveal_strlit("The baseline parser spelling and the I01 recovery extensions are supported.");
    reveal_strlit("Other valid forms of the cited rule production are outside the I01 subset.");
    reveal_strlit("baseline.rule.layer-statement");
    reveal_strlit("@layer ...;");
    reveal_strlit("#layering");
    CssFeatureId::lemma_spec_new_parts("baseline.rule.layer-statement");
    assert(catalog_1::features()[3].spec_id()@[8] == '.');
    assert(catalog_1::features()[3].spec_id()@[0] != "excluded."@[0]);
    assert(feature_record_laws(catalog_1::features()[3]));
    reveal_strlit("baseline.rule.layer-block");
    reveal_strlit("@layer {...}");
    CssFeatureId::lemma_spec_new_parts("baseline.rule.layer-block");
    assert(catalog_1::features()[4].spec_id()@[8] == '.');
    assert(catalog_1::features()[4].spec_id()@[0] != "excluded."@[0]);
    assert(feature_record_laws(catalog_1::features()[4]));
    reveal_strlit("baseline.rule.font-face");
    reveal_strlit("@font-face");
    reveal_strlit("#font-face-rule");
    CssFeatureId::lemma_spec_new_parts("baseline.rule.font-face");
    assert(catalog_1::features()[5].spec_id()@[8] == '.');
    assert(catalog_1::features()[5].spec_id()@[0] != "excluded."@[0]);
    assert(feature_record_laws(catalog_1::features()[5]));
    reveal_strlit("Keyframe names, literal selectors, empty rules and blocks, duplicate selectors and blocks in authored order, and supported declarations with recovery are supported.");
    reveal_strlit("Calculation selectors, string names, and declaration-processing grammar not selected by C07 remain unsupported.");
    reveal_strlit("baseline.rule.keyframes");
    reveal_strlit("@keyframes");
    reveal_strlit("#keyframes");
    CssFeatureId::lemma_spec_new_parts("baseline.rule.keyframes");
    assert(catalog_1::features()[6].spec_id()@[8] == '.');
    assert(catalog_1::features()[6].spec_id()@[0] != "excluded."@[0]);
    assert(feature_record_laws(catalog_1::features()[6]));
    reveal_strlit("baseline.rule.style");
    reveal_strlit("style and nested qualified rules");
    reveal_strlit("#style-rules");
    CssFeatureId::lemma_spec_new_parts("baseline.rule.style");
    assert(catalog_1::features()[7].spec_id()@[8] == '.');
    assert(catalog_1::features()[7].spec_id()@[0] != "excluded."@[0]);
    assert(feature_record_laws(catalog_1::features()[7]));
    reveal_strlit("official.rule.at-rule");
    reveal_strlit("generic at-rule");
    reveal_strlit("#at-rules,#consume-at-rule");
    CssFeatureId::lemma_spec_new_parts("official.rule.at-rule");
    assert(catalog_1::features()[8].spec_id()@[8] == '.');
    assert(catalog_1::features()[8].spec_id()@[0] != "excluded."@[0]);
    assert(feature_record_laws(catalog_1::features()[8]));
    reveal_strlit("official.qualified-rule.generic");
    reveal_strlit("generic qualified rule");
    reveal_strlit("#consume-qualified-rule");
    CssFeatureId::lemma_spec_new_parts("official.qualified-rule.generic");
    assert(catalog_1::features()[9].spec_id()@[8] == '.');
    assert(catalog_1::features()[9].spec_id()@[0] != "excluded."@[0]);
    assert(feature_record_laws(catalog_1::features()[9]));
    reveal_strlit("baseline.rule.media");
    reveal_strlit("@media");
    reveal_strlit("#at-media");
    CssFeatureId::lemma_spec_new_parts("baseline.rule.media");
    assert(catalog_1::features()[10].spec_id()@[8] == '.');
    assert(catalog_1::features()[10].spec_id()@[0] != "excluded."@[0]);
    assert(feature_record_laws(catalog_1::features()[10]));
    reveal_strlit("official.rule.conditional-group-context");
    reveal_strlit("conditional group rule contents and placement");
    reveal_strlit("#contents,#placement");
    CssFeatureId::lemma_spec_new_parts("official.rule.conditional-group-context");
    assert(catalog_1::features()[11].spec_id()@[8] == '.');
    assert(catalog_1::features()[11].spec_id()@[0] != "excluded."@[0]);
    assert(feature_record_laws(catalog_1::features()[11]));
    reveal_strlit("baseline.rule.container");
    reveal_strlit("@container");
    reveal_strlit("#container-rule");
    CssFeatureId::lemma_spec_new_parts("baseline.rule.container");
    assert(catalog_1::features()[12].spec_id()@[8] == '.');
    assert(catalog_1::features()[12].spec_id()@[0] != "excluded."@[0]);
    assert(feature_record_laws(catalog_1::features()[12]));
    reveal_strlit("baseline.rule.scope");
    reveal_strlit("@scope");
    reveal_strlit("#scope-atrule");
    CssFeatureId::lemma_spec_new_parts("baseline.rule.scope");
    assert(catalog_1::features()[13].spec_id()@[8] == '.');
    assert(catalog_1::features()[13].spec_id()@[0] != "excluded."@[0]);
    assert(feature_record_laws(catalog_1::features()[13]));
    reveal_strlit("foundation.encoding.charset");
    reveal_strlit("optional leading legacy @charset metadata");
    reveal_strlit("#charset-rule");
    CssFeatureId::lemma_spec_new_parts("foundation.encoding.charset");
    assert(catalog_1::features()[14].spec_id()@[10] == '.');
    assert(catalog_1::features()[14].spec_id()@[0] != "excluded."@[0]);
    assert(feature_record_laws(catalog_1::features()[14]));
    reveal_strlit("foundation.declaration-list.style-attribute");
    reveal_strlit("style-attribute declaration-list structure");
    reveal_strlit("#syntax");
    CssFeatureId::lemma_spec_new_parts("foundation.declaration-list.style-attribute");
    assert(catalog_1::features()[15].spec_id()@[10] == '.');
    assert(catalog_1::features()[15].spec_id()@[0] != "excluded."@[0]);
    assert(feature_record_laws(catalog_1::features()[15]));
    reveal_strlit("foundation.declaration.importance");
    reveal_strlit("terminal declaration !important annotation");
    reveal_strlit("#importance");
    CssFeatureId::lemma_spec_new_parts("foundation.declaration.importance");
    assert(catalog_1::features()[16].spec_id()@[10] == '.');
    assert(catalog_1::features()[16].spec_id()@[0] != "excluded."@[0]);
    assert(feature_record_laws(catalog_1::features()[16]));
    reveal_strlit("official.declaration.generic");
    reveal_strlit("generic declaration");
    reveal_strlit("#consume-declaration");
    CssFeatureId::lemma_spec_new_parts("official.declaration.generic");
    assert(catalog_1::features()[17].spec_id()@[8] == '.');
    assert(catalog_1::features()[17].spec_id()@[0] != "excluded."@[0]);
    assert(feature_record_laws(catalog_1::features()[17]));
    reveal_strlit("official.value.stylesheet");
    reveal_strlit("<stylesheet>");
    reveal_strlit("#parser-entry-points");
    CssFeatureId::lemma_spec_new_parts("official.value.stylesheet");
    assert(catalog_1::features()[18].spec_id()@[8] == '.');
    assert(catalog_1::features()[18].spec_id()@[0] != "excluded."@[0]);
    assert(feature_record_laws(catalog_1::features()[18]));
    reveal_strlit("official.value.rule-list");
    reveal_strlit("<rule-list>");
    reveal_strlit("#declaration-rule-list");
    CssFeatureId::lemma_spec_new_parts("official.value.rule-list");
    assert(catalog_1::features()[19].spec_id()@[8] == '.');
    assert(catalog_1::features()[19].spec_id()@[0] != "excluded."@[0]);
    assert(feature_record_laws(catalog_1::features()[19]));
    reveal_strlit("official.value.declaration-list");
    reveal_strlit("<declaration-list>");
    CssFeatureId::lemma_spec_new_parts("official.value.declaration-list");
    assert(catalog_1::features()[20].spec_id()@[8] == '.');
    assert(catalog_1::features()[20].spec_id()@[0] != "excluded."@[0]);
    assert(feature_record_laws(catalog_1::features()[20]));
    reveal_strlit("official.value.style-block");
    reveal_strlit("<style-block>");
    CssFeatureId::lemma_spec_new_parts("official.value.style-block");
    assert(catalog_1::features()[21].spec_id()@[8] == '.');
    assert(catalog_1::features()[21].spec_id()@[0] != "excluded."@[0]);
    assert(feature_record_laws(catalog_1::features()[21]));
    reveal_strlit("baseline.declaration.custom-property");
    reveal_strlit("custom-property names and authored token streams");
    reveal_strlit("#defining-variables,#syntax");
    reveal_strlit("Baseline custom-property names and authored token streams, including I01 recovery behavior, are supported.");
    reveal_strlit("Other valid CSS Variables custom-property declaration forms are outside the I01 subset.");
    CssFeatureId::lemma_spec_new_parts("baseline.declaration.custom-property");
    assert(catalog_1::features()[22].spec_id()@[8] == '.');
    assert(catalog_1::features()[22].spec_id()@[0] != "excluded."@[0]);
    assert(feature_record_laws(catalog_1::features()[22]));
    reveal_strlit("baseline.value.substitution-dependent");
    reveal_strlit("preserved known-property values containing substitution functions");
    reveal_strlit("#using-variables");
    reveal_strlit("Known-property values with syntactically admissible var() references remain authored and symbolic.");
    reveal_strlit("Other valid CSS Variables substitution functions and post-substitution forms are outside the I01 subset.");
    CssFeatureId::lemma_spec_new_parts("baseline.value.substitution-dependent");
    assert(catalog_1::features()[23].spec_id()@[8] == '.');
    assert(catalog_1::features()[23].spec_id()@[0] != "excluded."@[0]);
    assert(feature_record_laws(catalog_1::features()[23]));
    reveal_strlit("official.value.integer");
    reveal_strlit("<integer>");
    reveal_strlit("#integers");
    CssFeatureId::lemma_spec_new_parts("official.value.integer");
    assert(catalog_1::features()[24].spec_id()@[8] == '.');
    assert(catalog_1::features()[24].spec_id()@[0] != "excluded."@[0]);
    assert(feature_record_laws(catalog_1::features()[24]));
    reveal_strlit("official.value.number");
    reveal_strlit("<number>");
    reveal_strlit("#numbers");
    CssFeatureId::lemma_spec_new_parts("official.value.number");
    assert(catalog_1::features()[25].spec_id()@[8] == '.');
    assert(catalog_1::features()[25].spec_id()@[0] != "excluded."@[0]);
    assert(feature_record_laws(catalog_1::features()[25]));
    reveal_strlit("Selected typed length, angle, time, frequency, and resolution dimensions are supported.");
    reveal_strlit("Other valid CSS dimension families remain for their owning later grammar cycles.");
    reveal_strlit("official.value.dimension");
    reveal_strlit("<dimension>");
    reveal_strlit("#dimensions");
    CssFeatureId::lemma_spec_new_parts("official.value.dimension");
    assert(catalog_1::features()[26].spec_id()@[8] == '.');
    assert(catalog_1::features()[26].spec_id()@[0] != "excluded."@[0]);
    assert(feature_record_laws(catalog_1::features()[26]));
    reveal_strlit("official.value.percentage");
    reveal_strlit("<percentage>");
    reveal_strlit("#percentages");
    CssFeatureId::lemma_spec_new_parts("official.value.percentage");
    assert(catalog_1::features()[27].spec_id()@[8] == '.');
    assert(catalog_1::features()[27].spec_id()@[0] != "excluded."@[0]);
    assert(feature_record_laws(catalog_1::features()[27]));
    reveal_strlit("official.value.length");
    reveal_strlit("<length>");
    reveal_strlit("#lengths");
    CssFeatureId::lemma_spec_new_parts("official.value.length");
    assert(catalog_1::features()[28].spec_id()@[8] == '.');
    assert(catalog_1::features()[28].spec_id()@[0] != "excluded."@[0]);
    assert(feature_record_laws(catalog_1::features()[28]));
    reveal_strlit("official.value.length-percentage");
    reveal_strlit("<length-percentage>");
    reveal_strlit("#mixed-percentages");
    CssFeatureId::lemma_spec_new_parts("official.value.length-percentage");
    assert(catalog_1::features()[29].spec_id()@[8] == '.');
    assert(catalog_1::features()[29].spec_id()@[0] != "excluded."@[0]);
    assert(feature_record_laws(catalog_1::features()[29]));
    reveal_strlit("The public typed angle model and calculation root are supported.");
    reveal_strlit("Angle property consumers remain for their owning later grammar cycles.");
    reveal_strlit("official.value.angle");
    reveal_strlit("<angle>");
    reveal_strlit("#angles");
    CssFeatureId::lemma_spec_new_parts("official.value.angle");
    assert(catalog_1::features()[30].spec_id()@[8] == '.');
    assert(catalog_1::features()[30].spec_id()@[0] != "excluded."@[0]);
    assert(feature_record_laws(catalog_1::features()[30]));
    reveal_strlit("The public typed angle and percentage calculation models are supported.");
    reveal_strlit("Angle-percentage property consumers remain for their owning later grammar cycles.");
    reveal_strlit("official.value.angle-percentage");
    reveal_strlit("<angle-percentage>");
    CssFeatureId::lemma_spec_new_parts("official.value.angle-percentage");
    assert(catalog_1::features()[31].spec_id()@[8] == '.');
    assert(catalog_1::features()[31].spec_id()@[0] != "excluded."@[0]);
    assert(feature_record_laws(catalog_1::features()[31]));
    reveal_strlit("official.value.time");
    reveal_strlit("<time>");
    reveal_strlit("#time");
    CssFeatureId::lemma_spec_new_parts("official.value.time");
    assert(catalog_1::features()[32].spec_id()@[8] == '.');
    assert(catalog_1::features()[32].spec_id()@[0] != "excluded."@[0]);
    assert(feature_record_laws(catalog_1::features()[32]));
    reveal_strlit("The public typed time and percentage calculation models are supported.");
    reveal_strlit("Time-percentage property consumers remain for their owning later grammar cycles.");
    reveal_strlit("official.value.time-percentage");
    reveal_strlit("<time-percentage>");
    CssFeatureId::lemma_spec_new_parts("official.value.time-percentage");
    assert(catalog_1::features()[33].spec_id()@[8] == '.');
    assert(catalog_1::features()[33].spec_id()@[0] != "excluded."@[0]);
    assert(feature_record_laws(catalog_1::features()[33]));
    reveal_strlit("The public typed frequency model and calculation root are supported.");
    reveal_strlit("Frequency property consumers remain for their owning later grammar cycles.");
    reveal_strlit("official.value.frequency");
    reveal_strlit("<frequency>");
    reveal_strlit("#frequency");
    CssFeatureId::lemma_spec_new_parts("official.value.frequency");
    assert(catalog_1::features()[34].spec_id()@[8] == '.');
    assert(catalog_1::features()[34].spec_id()@[0] != "excluded."@[0]);
    assert(feature_record_laws(catalog_1::features()[34]));
    reveal_strlit("The public typed frequency and percentage calculation models are supported.");
    reveal_strlit("Frequency-percentage property consumers remain for their owning later grammar cycles.");
    reveal_strlit("official.value.frequency-percentage");
    reveal_strlit("<frequency-percentage>");
    CssFeatureId::lemma_spec_new_parts("official.value.frequency-percentage");
    assert(catalog_1::features()[35].spec_id()@[8] == '.');
    assert(catalog_1::features()[35].spec_id()@[0] != "excluded."@[0]);
    assert(feature_record_laws(catalog_1::features()[35]));
    reveal_strlit("official.value.resolution");
    reveal_strlit("<resolution>");
    reveal_strlit("#resolution");
    CssFeatureId::lemma_spec_new_parts("official.value.resolution");
    assert(catalog_1::features()[36].spec_id()@[8] == '.');
    assert(catalog_1::features()[36].spec_id()@[0] != "excluded."@[0]);
    assert(feature_record_laws(catalog_1::features()[36]));
    reveal_strlit("official.value.color");
    reveal_strlit("<color>");
    reveal_strlit("#color-type");
    CssFeatureId::lemma_spec_new_parts("official.value.color");
    assert(catalog_1::features()[37].spec_id()@[8] == '.');
    assert(catalog_1::features()[37].spec_id()@[0] != "excluded."@[0]);
    assert(feature_record_laws(catalog_1::features()[37]));
    reveal_strlit("official.value.alpha");
    reveal_strlit("<alpha-value>");
    reveal_strlit("#alpha-syntax");
    CssFeatureId::lemma_spec_new_parts("official.value.alpha");
    assert(catalog_1::features()[38].spec_id()@[8] == '.');
    assert(catalog_1::features()[38].spec_id()@[0] != "excluded."@[0]);
    assert(feature_record_laws(catalog_1::features()[38]));
    reveal_strlit("official.value.hue");
    reveal_strlit("<hue>");
    reveal_strlit("#hue-syntax");
    CssFeatureId::lemma_spec_new_parts("official.value.hue");
    assert(catalog_1::features()[39].spec_id()@[8] == '.');
    assert(catalog_1::features()[39].spec_id()@[0] != "excluded."@[0]);
    assert(feature_record_laws(catalog_1::features()[39]));
    reveal_strlit("official.value.rgb");
    reveal_strlit("rgb()/rgba()");
    reveal_strlit("#rgb-functions");
    CssFeatureId::lemma_spec_new_parts("official.value.rgb");
    assert(catalog_1::features()[40].spec_id()@[8] == '.');
    assert(catalog_1::features()[40].spec_id()@[0] != "excluded."@[0]);
    assert(feature_record_laws(catalog_1::features()[40]));
    reveal_strlit("official.value.hex-color");
    reveal_strlit("<hex-color>");
    reveal_strlit("#hex-notation");
    CssFeatureId::lemma_spec_new_parts("official.value.hex-color");
    assert(catalog_1::features()[41].spec_id()@[8] == '.');
    assert(catalog_1::features()[41].spec_id()@[0] != "excluded."@[0]);
    assert(feature_record_laws(catalog_1::features()[41]));
    reveal_strlit("official.value.named-color");
    reveal_strlit("<named-color>");
    reveal_strlit("#named-colors");
    CssFeatureId::lemma_spec_new_parts("official.value.named-color");
    assert(catalog_1::features()[42].spec_id()@[8] == '.');
    assert(catalog_1::features()[42].spec_id()@[0] != "excluded."@[0]);
    assert(feature_record_laws(catalog_1::features()[42]));
    reveal_strlit("official.value.system-color");
    reveal_strlit("<system-color>");
    reveal_strlit("#css-system-colors");
    CssFeatureId::lemma_spec_new_parts("official.value.system-color");
    assert(catalog_1::features()[43].spec_id()@[8] == '.');
    assert(catalog_1::features()[43].spec_id()@[0] != "excluded."@[0]);
    assert(feature_record_laws(catalog_1::features()[43]));
    reveal_strlit("official.value.deprecated-system-color");
    reveal_strlit("<deprecated-system-color>");
    CssFeatureId::lemma_spec_new_parts("official.value.deprecated-system-color");
    assert(catalog_1::features()[44].spec_id()@[8] == '.');
    assert(catalog_1::features()[44].spec_id()@[0] != "excluded."@[0]);
    assert(feature_record_laws(catalog_1::features()[44]));
    reveal_strlit("official.value.transparent");
    reveal_strlit("transparent");
    reveal_strlit("#transparent-color");
    CssFeatureId::lemma_spec_new_parts("official.value.transparent");
    assert(catalog_1::features()[45].spec_id()@[8] == '.');
    assert(catalog_1::features()[45].spec_id()@[0] != "excluded."@[0]);
    assert(feature_record_laws(catalog_1::features()[45]));
    reveal_strlit("official.value.currentcolor");
    reveal_strlit("currentColor");
    reveal_strlit("#currentcolor-color");
    CssFeatureId::lemma_spec_new_parts("official.value.currentcolor");
    assert(catalog_1::features()[46].spec_id()@[8] == '.');
    assert(catalog_1::features()[46].spec_id()@[0] != "excluded."@[0]);
    assert(feature_record_laws(catalog_1::features()[46]));
    reveal_strlit("official.value.hsl");
    reveal_strlit("hsl()/hsla()");
    reveal_strlit("#the-hsl-notation");
    CssFeatureId::lemma_spec_new_parts("official.value.hsl");
    assert(catalog_1::features()[47].spec_id()@[8] == '.');
    assert(catalog_1::features()[47].spec_id()@[0] != "excluded."@[0]);
    assert(feature_record_laws(catalog_1::features()[47]));
    reveal_strlit("official.value.hwb");
    reveal_strlit("hwb()");
    reveal_strlit("#the-hwb-notation");
    CssFeatureId::lemma_spec_new_parts("official.value.hwb");
    assert(catalog_1::features()[48].spec_id()@[8] == '.');
    assert(catalog_1::features()[48].spec_id()@[0] != "excluded."@[0]);
    assert(feature_record_laws(catalog_1::features()[48]));
    reveal_strlit("official.value.lab");
    reveal_strlit("lab()");
    reveal_strlit("#specifying-lab-lch");
    CssFeatureId::lemma_spec_new_parts("official.value.lab");
    assert(catalog_1::features()[49].spec_id()@[8] == '.');
    assert(catalog_1::features()[49].spec_id()@[0] != "excluded."@[0]);
    assert(feature_record_laws(catalog_1::features()[49]));
    reveal_strlit("official.value.lch");
    reveal_strlit("lch()");
    CssFeatureId::lemma_spec_new_parts("official.value.lch");
    assert(catalog_1::features()[50].spec_id()@[8] == '.');
    assert(catalog_1::features()[50].spec_id()@[0] != "excluded."@[0]);
    assert(feature_record_laws(catalog_1::features()[50]));
    reveal_strlit("official.value.oklab");
    reveal_strlit("oklab()");
    reveal_strlit("#specifying-oklab-oklch");
    CssFeatureId::lemma_spec_new_parts("official.value.oklab");
    assert(catalog_1::features()[51].spec_id()@[8] == '.');
    assert(catalog_1::features()[51].spec_id()@[0] != "excluded."@[0]);
    assert(feature_record_laws(catalog_1::features()[51]));
    reveal_strlit("official.value.oklch");
    reveal_strlit("oklch()");
    CssFeatureId::lemma_spec_new_parts("official.value.oklch");
    assert(catalog_1::features()[52].spec_id()@[8] == '.');
    assert(catalog_1::features()[52].spec_id()@[0] != "excluded."@[0]);
    assert(feature_record_laws(catalog_1::features()[52]));
    reveal_strlit("official.value.predefined-color");
    reveal_strlit("color()");
    reveal_strlit("#color-function");
    CssFeatureId::lemma_spec_new_parts("official.value.predefined-color");
    assert(catalog_1::features()[53].spec_id()@[8] == '.');
    assert(catalog_1::features()[53].spec_id()@[0] != "excluded."@[0]);
    assert(feature_record_laws(catalog_1::features()[53]));
    reveal_strlit("The eight preserved relative-color families are supported: rgb()/rgba(), hsl()/hsla(), hwb(), lab(), lch(), oklab(), oklch(), and color() in a predefined RGB or XYZ space.");
    reveal_strlit("alpha(), custom-profile parameters, and other unselected CSS Color 5 color functions remain unsupported.");
    reveal_strlit("ext.value.relative-color");
    reveal_strlit("relative color syntax");
    reveal_strlit("#relative-colors,#relative-syntax");
    CssFeatureId::lemma_spec_new_parts("ext.value.relative-color");
    assert(catalog_1::features()[54].spec_id()@[3] == '.');
    assert(catalog_1::features()[54].spec_id()@[2] != "excluded."@[2]);
    assert(feature_record_laws(catalog_1::features()[54]));
    reveal_strlit("ext.value.relative-color.rgb");
    reveal_strlit("relative rgb()/rgba()");
    reveal_strlit("#relative-RGB");
    CssFeatureId::lemma_spec_new_parts("ext.value.relative-color.rgb");
    assert(catalog_1::features()[55].spec_id()@[3] == '.');
    assert(catalog_1::features()[55].spec_id()@[2] != "excluded."@[2]);
    assert(feature_record_laws(catalog_1::features()[55]));
    reveal_strlit("ext.value.relative-color.hsl");
    reveal_strlit("relative hsl()/hsla()");
    reveal_strlit("#relative-HSL");
    CssFeatureId::lemma_spec_new_parts("ext.value.relative-color.hsl");
    assert(catalog_1::features()[56].spec_id()@[3] == '.');
    assert(catalog_1::features()[56].spec_id()@[2] != "excluded."@[2]);
    assert(feature_record_laws(catalog_1::features()[56]));
    reveal_strlit("ext.value.relative-color.hwb");
    reveal_strlit("relative hwb()");
    reveal_strlit("#relative-HWB");
    CssFeatureId::lemma_spec_new_parts("ext.value.relative-color.hwb");
    assert(catalog_1::features()[57].spec_id()@[3] == '.');
    assert(catalog_1::features()[57].spec_id()@[2] != "excluded."@[2]);
    assert(feature_record_laws(catalog_1::features()[57]));
    reveal_strlit("ext.value.relative-color.lab");
    reveal_strlit("relative lab()");
    reveal_strlit("#relative-Lab");
    CssFeatureId::lemma_spec_new_parts("ext.value.relative-color.lab");
    assert(catalog_1::features()[58].spec_id()@[3] == '.');
    assert(catalog_1::features()[58].spec_id()@[2] != "excluded."@[2]);
    assert(feature_record_laws(catalog_1::features()[58]));
    reveal_strlit("ext.value.relative-color.oklab");
    reveal_strlit("relative oklab()");
    reveal_strlit("#relative-Oklab");
    CssFeatureId::lemma_spec_new_parts("ext.value.relative-color.oklab");
    assert(catalog_1::features()[59].spec_id()@[3] == '.');
    assert(catalog_1::features()[59].spec_id()@[2] != "excluded."@[2]);
    assert(feature_record_laws(catalog_1::features()[59]));
}

#[verifier::rlimit(100)]
proof fn lemma_catalog_2_laws()
    ensures
        forall|i: int| 0 <= i < catalog_2::features().len() ==> feature_record_laws(#[trigger] catalog_2::features()[i]),
{
    broadcast use {CssFeatureMetadata::lemma_complete_parts, CssFeatureMetadata::lemma_partial_parts, CssFeatureMetadata::lemma_baseline_alias_parts, CssFeatureMetadata::lemma_recognized_unsupported_parts, CssFeatureMetadata::lemma_partial_property_parts, CssFeatureMetadata::lemma_complete_property_parts, CssFeatureMetadata::lemma_partial_property_with_boundary_parts};

    reveal(catalog_2::features);
    reveal(spec_specification_sources);
    reveal(sources::source_list);
    reveal(spec_property_source);
    reveal(spec_property_production);
    lemma_property_sources_registered();
    reveal_strlit("#propdef-");
    assert(sources::source_list()[46] == i_color5());
    assert(sources::source_list()[40] == i_filter1());
    assert(sources::source_list()[42] == i_transforms2());
    assert(sources::source_list()[12] == o_backgrounds3());
    assert(sources::source_list()[10] == o_box3());
    assert(sources::source_list()[21] == o_compositing1());
    assert(sources::source_list()[22] == o_easing1());
    assert(sources::source_list()[13] == o_images3());
    assert(sources::source_list()[20] == o_transforms1());
    assert(sources::source_list()[8] == o_values3());
    assert(sources::source_list()[27] == r_grid2());
    reveal_strlit("The property-specific parser behavior at 4b288d6:src/parser/mod.rs, plus whole-value CSS-wide keywords and syntactically admissible substitution-dependent authored values, is supported.");
    reveal_strlit("Other valid forms of the cited property production are outside the I01 subset.");
    reveal_strlit("excluded.");
    reveal_strlit("ext.value.relative-color.lch");
    reveal_strlit("relative lch()");
    reveal_strlit("#relative-LCH");
    CssFeatureId::lemma_spec_new_parts("ext.value.relative-color.lch");
    assert(catalog_2::features()[0].spec_id()@[3] == '.');
    assert(catalog_2::features()[0].spec_id()@[2] != "excluded."@[2]);
    assert(feature_record_laws(catalog_2::features()[0]));
    reveal_strlit("ext.value.relative-color.oklch");
    reveal_strlit("relative oklch()");
    reveal_strlit("#relative-OkLCh");
    CssFeatureId::lemma_spec_new_parts("ext.value.relative-color.oklch");
    assert(catalog_2::features()[1].spec_id()@[3] == '.');
    assert(catalog_2::features()[1].spec_id()@[2] != "excluded."@[2]);
    assert(feature_record_laws(catalog_2::features()[1]));
    reveal_strlit("ext.value.relative-color.predefined");
    reveal_strlit("relative color()");
    reveal_strlit("#relative-color-function");
    CssFeatureId::lemma_spec_new_parts("ext.value.relative-color.predefined");
    assert(catalog_2::features()[2].spec_id()@[3] == '.');
    assert(catalog_2::features()[2].spec_id()@[2] != "excluded."@[2]);
    assert(feature_record_laws(catalog_2::features()[2]));
    reveal_strlit("The preserved color-mix() subset requires an interpolation method, exactly two colors, optional trailing percentages, and a predefined or polar color space.");
    reveal_strlit("Other valid forms of the dated CSS Color 5 color-mix() production remain unsupported.");
    reveal_strlit("ext.value.color-mix");
    reveal_strlit("color-mix()");
    reveal_strlit("#funcdef-color-mix");
    CssFeatureId::lemma_spec_new_parts("ext.value.color-mix");
    assert(catalog_2::features()[3].spec_id()@[3] == '.');
    assert(catalog_2::features()[3].spec_id()@[2] != "excluded."@[2]);
    assert(feature_record_laws(catalog_2::features()[3]));
    reveal_strlit("Non-recursive integer track and fixed repeats, plus one fixed-size automatic repeat where the consumer permits it, are supported.");
    reveal_strlit("Subgrid name-repeat and other unselected Grid 2 forms remain unsupported.");
    reveal_strlit("ext.value.grid-repeat");
    reveal_strlit("repeat()");
    reveal_strlit("#repeat-notation");
    CssFeatureId::lemma_spec_new_parts("ext.value.grid-repeat");
    assert(catalog_2::features()[4].spec_id()@[3] == '.');
    assert(catalog_2::features()[4].spec_id()@[2] != "excluded."@[2]);
    assert(feature_record_laws(catalog_2::features()[4]));
    reveal_strlit("official.value.position");
    reveal_strlit("<position>");
    reveal_strlit("#position");
    CssFeatureId::lemma_spec_new_parts("official.value.position");
    assert(catalog_2::features()[5].spec_id()@[8] == '.');
    assert(catalog_2::features()[5].spec_id()@[0] != "excluded."@[0]);
    assert(feature_record_laws(catalog_2::features()[5]));
    reveal_strlit("official.value.box-edge-keywords");
    reveal_strlit("content-box|padding-box|border-box|margin-box|fill-box|stroke-box|view-box");
    reveal_strlit("#keywords");
    CssFeatureId::lemma_spec_new_parts("official.value.box-edge-keywords");
    assert(catalog_2::features()[6].spec_id()@[8] == '.');
    assert(catalog_2::features()[6].spec_id()@[0] != "excluded."@[0]);
    assert(feature_record_laws(catalog_2::features()[6]));
    reveal_strlit("official.value.background-layer");
    reveal_strlit("<bg-layer>");
    reveal_strlit("#layering");
    CssFeatureId::lemma_spec_new_parts("official.value.background-layer");
    assert(catalog_2::features()[7].spec_id()@[8] == '.');
    assert(catalog_2::features()[7].spec_id()@[0] != "excluded."@[0]);
    assert(feature_record_laws(catalog_2::features()[7]));
    reveal_strlit("official.value.background-image");
    reveal_strlit("<bg-image>");
    reveal_strlit("#background-image");
    CssFeatureId::lemma_spec_new_parts("official.value.background-image");
    assert(catalog_2::features()[8].spec_id()@[8] == '.');
    assert(catalog_2::features()[8].spec_id()@[0] != "excluded."@[0]);
    assert(feature_record_laws(catalog_2::features()[8]));
    reveal_strlit("official.value.repeat-style");
    reveal_strlit("<repeat-style>");
    reveal_strlit("#background-repeat");
    CssFeatureId::lemma_spec_new_parts("official.value.repeat-style");
    assert(catalog_2::features()[9].spec_id()@[8] == '.');
    assert(catalog_2::features()[9].spec_id()@[0] != "excluded."@[0]);
    assert(feature_record_laws(catalog_2::features()[9]));
    reveal_strlit("official.value.background-attachment");
    reveal_strlit("<attachment>");
    reveal_strlit("#background-attachment");
    CssFeatureId::lemma_spec_new_parts("official.value.background-attachment");
    assert(catalog_2::features()[10].spec_id()@[8] == '.');
    assert(catalog_2::features()[10].spec_id()@[0] != "excluded."@[0]);
    assert(feature_record_laws(catalog_2::features()[10]));
    reveal_strlit("official.value.background-position");
    reveal_strlit("<bg-position>#");
    reveal_strlit("#background-position");
    CssFeatureId::lemma_spec_new_parts("official.value.background-position");
    assert(catalog_2::features()[11].spec_id()@[8] == '.');
    assert(catalog_2::features()[11].spec_id()@[0] != "excluded."@[0]);
    assert(feature_record_laws(catalog_2::features()[11]));
    reveal_strlit("official.value.background-size");
    reveal_strlit("<bg-size>");
    reveal_strlit("#background-size");
    CssFeatureId::lemma_spec_new_parts("official.value.background-size");
    assert(catalog_2::features()[12].spec_id()@[8] == '.');
    assert(catalog_2::features()[12].spec_id()@[0] != "excluded."@[0]);
    assert(feature_record_laws(catalog_2::features()[12]));
    reveal_strlit("official.value.line-style");
    reveal_strlit("<line-style>");
    reveal_strlit("#border-style");
    CssFeatureId::lemma_spec_new_parts("official.value.line-style");
    assert(catalog_2::features()[13].spec_id()@[8] == '.');
    assert(catalog_2::features()[13].spec_id()@[0] != "excluded."@[0]);
    assert(feature_record_laws(catalog_2::features()[13]));
    reveal_strlit("official.value.line-width");
    reveal_strlit("<line-width>");
    reveal_strlit("#border-width");
    CssFeatureId::lemma_spec_new_parts("official.value.line-width");
    assert(catalog_2::features()[14].spec_id()@[8] == '.');
    assert(catalog_2::features()[14].spec_id()@[0] != "excluded."@[0]);
    assert(feature_record_laws(catalog_2::features()[14]));
    reveal_strlit("official.value.image");
    reveal_strlit("<image>");
    reveal_strlit("#image-values");
    CssFeatureId::lemma_spec_new_parts("official.value.image");
    assert(catalog_2::features()[15].spec_id()@[8] == '.');
    assert(catalog_2::features()[15].spec_id()@[0] != "excluded."@[0]);
    assert(feature_record_laws(catalog_2::features()[15]));
    reveal_strlit("official.value.gradient");
    reveal_strlit("<gradient>");
    reveal_strlit("#gradients");
    CssFeatureId::lemma_spec_new_parts("official.value.gradient");
    assert(catalog_2::features()[16].spec_id()@[8] == '.');
    assert(catalog_2::features()[16].spec_id()@[0] != "excluded."@[0]);
    assert(feature_record_laws(catalog_2::features()[16]));
    reveal_strlit("official.value.linear-gradient");
    reveal_strlit("linear-gradient()");
    reveal_strlit("#linear-gradients");
    CssFeatureId::lemma_spec_new_parts("official.value.linear-gradient");
    assert(catalog_2::features()[17].spec_id()@[8] == '.');
    assert(catalog_2::features()[17].spec_id()@[0] != "excluded."@[0]);
    assert(feature_record_laws(catalog_2::features()[17]));
    reveal_strlit("official.value.radial-gradient");
    reveal_strlit("radial-gradient()");
    reveal_strlit("#radial-gradients");
    CssFeatureId::lemma_spec_new_parts("official.value.radial-gradient");
    assert(catalog_2::features()[18].spec_id()@[8] == '.');
    assert(catalog_2::features()[18].spec_id()@[0] != "excluded."@[0]);
    assert(feature_record_laws(catalog_2::features()[18]));
    reveal_strlit("official.value.repeating-linear-gradient");
    reveal_strlit("repeating-linear-gradient()");
    reveal_strlit("#repeating-gradients");
    CssFeatureId::lemma_spec_new_parts("official.value.repeating-linear-gradient");
    assert(catalog_2::features()[19].spec_id()@[8] == '.');
    assert(catalog_2::features()[19].spec_id()@[0] != "excluded."@[0]);
    assert(feature_record_laws(catalog_2::features()[19]));
    reveal_strlit("official.value.repeating-radial-gradient");
    reveal_strlit("repeating-radial-gradient()");
    CssFeatureId::lemma_spec_new_parts("official.value.repeating-radial-gradient");
    assert(catalog_2::features()[20].spec_id()@[8] == '.');
    assert(catalog_2::features()[20].spec_id()@[0] != "excluded."@[0]);
    assert(feature_record_laws(catalog_2::features()[20]));
    reveal_strlit("official.value.color-stop-list");
    reveal_strlit("<color-stop-list>");
    reveal_strlit("#color-stop-syntax");
    CssFeatureId::lemma_spec_new_parts("official.value.color-stop-list");
    assert(catalog_2::features()[21].spec_id()@[8] == '.');
    assert(catalog_2::features()[21].spec_id()@[0] != "excluded."@[0]);
    assert(feature_record_laws(catalog_2::features()[21]));
    reveal_strlit("official.value.side-or-corner");
    reveal_strlit("<side-or-corner>");
    CssFeatureId::lemma_spec_new_parts("official.value.side-or-corner");
    assert(catalog_2::features()[22].spec_id()@[8] == '.');
    assert(catalog_2::features()[22].spec_id()@[0] != "excluded."@[0]);
    assert(feature_record_laws(catalog_2::features()[22]));
    reveal_strlit("official.value.radial-shape");
    reveal_strlit("<radial-shape>");
    CssFeatureId::lemma_spec_new_parts("official.value.radial-shape");
    assert(catalog_2::features()[23].spec_id()@[8] == '.');
    assert(catalog_2::features()[23].spec_id()@[0] != "excluded."@[0]);
    assert(feature_record_laws(catalog_2::features()[23]));
    reveal_strlit("official.value.radial-size");
    reveal_strlit("<radial-size>");
    CssFeatureId::lemma_spec_new_parts("official.value.radial-size");
    assert(catalog_2::features()[24].spec_id()@[8] == '.');
    assert(catalog_2::features()[24].spec_id()@[0] != "excluded."@[0]);
    assert(feature_record_laws(catalog_2::features()[24]));
    reveal_strlit("official.value.radial-extent");
    reveal_strlit("<radial-extent>");
    CssFeatureId::lemma_spec_new_parts("official.value.radial-extent");
    assert(catalog_2::features()[25].spec_id()@[8] == '.');
    assert(catalog_2::features()[25].spec_id()@[0] != "excluded."@[0]);
    assert(feature_record_laws(catalog_2::features()[25]));
    reveal_strlit("official.value.transform-list");
    reveal_strlit("<transform-list>");
    reveal_strlit("#transform-function-lists");
    CssFeatureId::lemma_spec_new_parts("official.value.transform-list");
    assert(catalog_2::features()[26].spec_id()@[8] == '.');
    assert(catalog_2::features()[26].spec_id()@[0] != "excluded."@[0]);
    assert(feature_record_laws(catalog_2::features()[26]));
    reveal_strlit("official.value.transform-function");
    reveal_strlit("<transform-function>");
    reveal_strlit("#transform-functions");
    CssFeatureId::lemma_spec_new_parts("official.value.transform-function");
    assert(catalog_2::features()[27].spec_id()@[8] == '.');
    assert(catalog_2::features()[27].spec_id()@[0] != "excluded."@[0]);
    assert(feature_record_laws(catalog_2::features()[27]));
    reveal_strlit("official.value.transform.matrix");
    reveal_strlit("matrix()");
    reveal_strlit("#two-d-transform-functions");
    CssFeatureId::lemma_spec_new_parts("official.value.transform.matrix");
    assert(catalog_2::features()[28].spec_id()@[8] == '.');
    assert(catalog_2::features()[28].spec_id()@[0] != "excluded."@[0]);
    assert(feature_record_laws(catalog_2::features()[28]));
    reveal_strlit("official.value.transform.translate");
    reveal_strlit("translate()");
    CssFeatureId::lemma_spec_new_parts("official.value.transform.translate");
    assert(catalog_2::features()[29].spec_id()@[8] == '.');
    assert(catalog_2::features()[29].spec_id()@[0] != "excluded."@[0]);
    assert(feature_record_laws(catalog_2::features()[29]));
    reveal_strlit("official.value.transform.translate-x");
    reveal_strlit("translateX()");
    CssFeatureId::lemma_spec_new_parts("official.value.transform.translate-x");
    assert(catalog_2::features()[30].spec_id()@[8] == '.');
    assert(catalog_2::features()[30].spec_id()@[0] != "excluded."@[0]);
    assert(feature_record_laws(catalog_2::features()[30]));
    reveal_strlit("official.value.transform.translate-y");
    reveal_strlit("translateY()");
    CssFeatureId::lemma_spec_new_parts("official.value.transform.translate-y");
    assert(catalog_2::features()[31].spec_id()@[8] == '.');
    assert(catalog_2::features()[31].spec_id()@[0] != "excluded."@[0]);
    assert(feature_record_laws(catalog_2::features()[31]));
    reveal_strlit("official.value.transform.scale");
    reveal_strlit("scale()");
    CssFeatureId::lemma_spec_new_parts("official.value.transform.scale");
    assert(catalog_2::features()[32].spec_id()@[8] == '.');
    assert(catalog_2::features()[32].spec_id()@[0] != "excluded."@[0]);
    assert(feature_record_laws(catalog_2::features()[32]));
    reveal_strlit("official.value.transform.scale-x");
    reveal_strlit("scaleX()");
    CssFeatureId::lemma_spec_new_parts("official.value.transform.scale-x");
    assert(catalog_2::features()[33].spec_id()@[8] == '.');
    assert(catalog_2::features()[33].spec_id()@[0] != "excluded."@[0]);
    assert(feature_record_laws(catalog_2::features()[33]));
    reveal_strlit("official.value.transform.scale-y");
    reveal_strlit("scaleY()");
    CssFeatureId::lemma_spec_new_parts("official.value.transform.scale-y");
    assert(catalog_2::features()[34].spec_id()@[8] == '.');
    assert(catalog_2::features()[34].spec_id()@[0] != "excluded."@[0]);
    assert(feature_record_laws(catalog_2::features()[34]));
    reveal_strlit("official.value.transform.rotate");
    reveal_strlit("rotate()");
    CssFeatureId::lemma_spec_new_parts("official.value.transform.rotate");
    assert(catalog_2::features()[35].spec_id()@[8] == '.');
    assert(catalog_2::features()[35].spec_id()@[0] != "excluded."@[0]);
    assert(feature_record_laws(catalog_2::features()[35]));
    reveal_strlit("official.value.transform.skew");
    reveal_strlit("skew()");
    CssFeatureId::lemma_spec_new_parts("official.value.transform.skew");
    assert(catalog_2::features()[36].spec_id()@[8] == '.');
    assert(catalog_2::features()[36].spec_id()@[0] != "excluded."@[0]);
    assert(feature_record_laws(catalog_2::features()[36]));
    reveal_strlit("official.value.transform.skew-x");
    reveal_strlit("skewX()");
    CssFeatureId::lemma_spec_new_parts("official.value.transform.skew-x");
    assert(catalog_2::features()[37].spec_id()@[8] == '.');
    assert(catalog_2::features()[37].spec_id()@[0] != "excluded."@[0]);
    assert(feature_record_laws(catalog_2::features()[37]));
    reveal_strlit("official.value.transform.skew-y");
    reveal_strlit("skewY()");
    CssFeatureId::lemma_spec_new_parts("official.value.transform.skew-y");
    assert(catalog_2::features()[38].spec_id()@[8] == '.');
    assert(catalog_2::features()[38].spec_id()@[0] != "excluded."@[0]);
    assert(feature_record_laws(catalog_2::features()[38]));
    reveal_strlit("official.value.blend-mode");
    reveal_strlit("normal|multiply|screen|overlay|darken|lighten|color-dodge|color-burn|hard-light|soft-light|difference|exclusion|hue|saturation|color|luminosity");
    reveal_strlit("#blending,#blendingseparable,#blendingnonseparable");
    CssFeatureId::lemma_spec_new_parts("official.value.blend-mode");
    assert(catalog_2::features()[39].spec_id()@[8] == '.');
    assert(catalog_2::features()[39].spec_id()@[0] != "excluded."@[0]);
    assert(feature_record_laws(catalog_2::features()[39]));
    reveal_strlit("official.value.easing-function");
    reveal_strlit("<easing-function>");
    reveal_strlit("#easing-functions");
    CssFeatureId::lemma_spec_new_parts("official.value.easing-function");
    assert(catalog_2::features()[40].spec_id()@[8] == '.');
    assert(catalog_2::features()[40].spec_id()@[0] != "excluded."@[0]);
    assert(feature_record_laws(catalog_2::features()[40]));
    reveal_strlit("official.value.cubic-bezier-easing");
    reveal_strlit("cubic-bezier()");
    reveal_strlit("#cubic-bezier-easing-functions");
    CssFeatureId::lemma_spec_new_parts("official.value.cubic-bezier-easing");
    assert(catalog_2::features()[41].spec_id()@[8] == '.');
    assert(catalog_2::features()[41].spec_id()@[0] != "excluded."@[0]);
    assert(feature_record_laws(catalog_2::features()[41]));
    reveal_strlit("official.value.step-easing");
    reveal_strlit("steps()");
    reveal_strlit("#step-easing-functions");
    CssFeatureId::lemma_spec_new_parts("official.value.step-easing");
    assert(catalog_2::features()[42].spec_id()@[8] == '.');
    assert(catalog_2::features()[42].spec_id()@[0] != "excluded."@[0]);
    assert(feature_record_laws(catalog_2::features()[42]));
    reveal_strlit("official.value.step-position");
    reveal_strlit("<step-position>");
    CssFeatureId::lemma_spec_new_parts("official.value.step-position");
    assert(catalog_2::features()[43].spec_id()@[8] == '.');
    assert(catalog_2::features()[43].spec_id()@[0] != "excluded."@[0]);
    assert(feature_record_laws(catalog_2::features()[43]));
    reveal_strlit("official.value.shadow");
    reveal_strlit("<shadow>");
    reveal_strlit("#box-shadow");
    CssFeatureId::lemma_spec_new_parts("official.value.shadow");
    assert(catalog_2::features()[44].spec_id()@[8] == '.');
    assert(catalog_2::features()[44].spec_id()@[0] != "excluded."@[0]);
    assert(feature_record_laws(catalog_2::features()[44]));
    reveal_strlit("ext.value.transform.matrix3d");
    reveal_strlit("matrix3d()");
    reveal_strlit("#funcdef-matrix3d");
    CssFeatureId::lemma_spec_new_parts("ext.value.transform.matrix3d");
    assert(catalog_2::features()[45].spec_id()@[3] == '.');
    assert(catalog_2::features()[45].spec_id()@[2] != "excluded."@[2]);
    assert(feature_record_laws(catalog_2::features()[45]));
    reveal_strlit("ext.value.transform.perspective");
    reveal_strlit("perspective()");
    reveal_strlit("#funcdef-perspective");
    CssFeatureId::lemma_spec_new_parts("ext.value.transform.perspective");
    assert(catalog_2::features()[46].spec_id()@[3] == '.');
    assert(catalog_2::features()[46].spec_id()@[2] != "excluded."@[2]);
    assert(feature_record_laws(catalog_2::features()[46]));
    reveal_strlit("ext.value.transform.rotate3d");
    reveal_strlit("rotate3d()");
    reveal_strlit("#funcdef-rotate3d");
    CssFeatureId::lemma_spec_new_parts("ext.value.transform.rotate3d");
    assert(catalog_2::features()[47].spec_id()@[3] == '.');
    assert(catalog_2::features()[47].spec_id()@[2] != "excluded."@[2]);
    assert(feature_record_laws(catalog_2::features()[47]));
    reveal_strlit("ext.value.transform.rotate-x");
    reveal_strlit("rotateX()");
    reveal_strlit("#funcdef-rotatex");
    CssFeatureId::lemma_spec_new_parts("ext.value.transform.rotate-x");
    assert(catalog_2::features()[48].spec_id()@[3] == '.');
    assert(catalog_2::features()[48].spec_id()@[2] != "excluded."@[2]);
    assert(feature_record_laws(catalog_2::features()[48]));
    reveal_strlit("ext.value.transform.rotate-y");
    reveal_strlit("rotateY()");
    reveal_strlit("#funcdef-rotatey");
    CssFeatureId::lemma_spec_new_parts("ext.value.transform.rotate-y");
    assert(catalog_2::features()[49].spec_id()@[3] == '.');
    assert(catalog_2::features()[49].spec_id()@[2] != "excluded."@[2]);
    assert(feature_record_laws(catalog_2::features()[49]));
    reveal_strlit("ext.value.transform.rotate-z");
    reveal_strlit("rotateZ()");
    reveal_strlit("#funcdef-rotatez");
    CssFeatureId::lemma_spec_new_parts("ext.value.transform.rotate-z");
    assert(catalog_2::features()[50].spec_id()@[3] == '.');
    assert(catalog_2::features()[50].spec_id()@[2] != "excluded."@[2]);
    assert(feature_record_laws(catalog_2::features()[50]));
    reveal_strlit("ext.value.transform.scale3d");
    reveal_strlit("scale3d()");
    reveal_strlit("#funcdef-scale3d");
    CssFeatureId::lemma_spec_new_parts("ext.value.transform.scale3d");
    assert(catalog_2::features()[51].spec_id()@[3] == '.');
    assert(catalog_2::features()[51].spec_id()@[2] != "excluded."@[2]);
    assert(feature_record_laws(catalog_2::features()[51]));
    reveal_strlit("ext.value.transform.scale-z");
    reveal_strlit("scaleZ()");
    reveal_strlit("#funcdef-scalez");
    CssFeatureId::lemma_spec_new_parts("ext.value.transform.scale-z");
    assert(catalog_2::features()[52].spec_id()@[3] == '.');
    assert(catalog_2::features()[52].spec_id()@[2] != "excluded."@[2]);
    assert(feature_record_laws(catalog_2::features()[52]));
    reveal_strlit("ext.value.transform.translate3d");
    reveal_strlit("translate3d()");
    reveal_strlit("#funcdef-translate3d");
    CssFeatureId::lemma_spec_new_parts("ext.value.transform.translate3d");
    assert(catalog_2::features()[53].spec_id()@[3] == '.');
    assert(catalog_2::features()[53].spec_id()@[2] != "excluded."@[2]);
    assert(feature_record_laws(catalog_2::features()[53]));
    reveal_strlit("ext.value.transform.translate-z");
    reveal_strlit("translateZ()");
    reveal_strlit("#funcdef-translatez");
    CssFeatureId::lemma_spec_new_parts("ext.value.transform.translate-z");
    assert(catalog_2::features()[54].spec_id()@[3] == '.');
    assert(catalog_2::features()[54].spec_id()@[2] != "excluded."@[2]);
    assert(feature_record_laws(catalog_2::features()[54]));
    reveal_strlit("ext.value.filter-function-list");
    reveal_strlit("<filter-function-list>");
    reveal_strlit("#FilterProperty");
    CssFeatureId::lemma_spec_new_parts("ext.value.filter-function-list");
    assert(catalog_2::features()[55].spec_id()@[3] == '.');
    assert(catalog_2::features()[55].spec_id()@[2] != "excluded."@[2]);
    assert(feature_record_laws(catalog_2::features()[55]));
    reveal_strlit("ext.value.filter.blur");
    reveal_strlit("blur()");
    reveal_strlit("#funcdef-filter-blur");
    CssFeatureId::lemma_spec_new_parts("ext.value.filter.blur");
    assert(catalog_2::features()[56].spec_id()@[3] == '.');
    assert(catalog_2::features()[56].spec_id()@[2] != "excluded."@[2]);
    assert(feature_record_laws(catalog_2::features()[56]));
    reveal_strlit("ext.value.filter.brightness");
    reveal_strlit("brightness()");
    reveal_strlit("#funcdef-filter-brightness");
    CssFeatureId::lemma_spec_new_parts("ext.value.filter.brightness");
    assert(catalog_2::features()[57].spec_id()@[3] == '.');
    assert(catalog_2::features()[57].spec_id()@[2] != "excluded."@[2]);
    assert(feature_record_laws(catalog_2::features()[57]));
    reveal_strlit("ext.value.filter.contrast");
    reveal_strlit("contrast()");
    reveal_strlit("#funcdef-filter-contrast");
    CssFeatureId::lemma_spec_new_parts("ext.value.filter.contrast");
    assert(catalog_2::features()[58].spec_id()@[3] == '.');
    assert(catalog_2::features()[58].spec_id()@[2] != "excluded."@[2]);
    assert(feature_record_laws(catalog_2::features()[58]));
    reveal_strlit("ext.value.filter.grayscale");
    reveal_strlit("grayscale()");
    reveal_strlit("#funcdef-filter-grayscale");
    CssFeatureId::lemma_spec_new_parts("ext.value.filter.grayscale");
    assert(catalog_2::features()[59].spec_id()@[3] == '.');
    assert(catalog_2::features()[59].spec_id()@[2] != "excluded."@[2]);
    assert(feature_record_laws(catalog_2::features()[59]));
}

#[verifier::rlimit(100)]
proof fn lemma_catalog_3_laws()
    ensures
        forall|i: int| 0 <= i < catalog_3::features().len() ==> feature_record_laws(#[trigger] catalog_3::features()[i]),
{
    broadcast use {CssFeatureMetadata::lemma_complete_parts, CssFeatureMetadata::lemma_partial_parts, CssFeatureMetadata::lemma_baseline_alias_parts, CssFeatureMetadata::lemma_recognized_unsupported_parts, CssFeatureMetadata::lemma_partial_property_parts, CssFeatureMetadata::lemma_complete_property_parts, CssFeatureMetadata::lemma_partial_property_with_boundary_parts};

    reveal(catalog_3::features);
    reveal(spec_specification_sources);
    reveal(sources::source_list);
    reveal(spec_property_source);
    reveal(spec_property_production);
    lemma_property_sources_registered();
    reveal_strlit("#propdef-");
    assert(sources::source_list()[67] == baseline_queries());
    assert(sources::source_list()[66] == baseline_selectors());
    assert(sources::source_list()[40] == i_filter1());
    assert(sources::source_list()[45] == i_fonts4());
    assert(sources::source_list()[49] == i_nesting1());
    assert(sources::source_list()[47] == i_selectors4());
    assert(sources::source_list()[4] == o_conditional3());
    assert(sources::source_list()[23] == o_counterstyles3());
    assert(sources::source_list()[0] == o_css2());
    assert(sources::source_list()[14] == o_fonts3());
    assert(sources::source_list()[3] == o_media3());
    assert(sources::source_list()[6] == o_namespaces3());
    assert(sources::source_list()[5] == o_selectors3());
    assert(sources::source_list()[8] == o_values3());
    assert(sources::source_list()[34] == s_shapes1());
    assert(sources::source_list()[50] == x_contain3());
    reveal_strlit("The property-specific parser behavior at 4b288d6:src/parser/mod.rs, plus whole-value CSS-wide keywords and syntactically admissible substitution-dependent authored values, is supported.");
    reveal_strlit("Other valid forms of the cited property production are outside the I01 subset.");
    reveal_strlit("excluded.");
    reveal_strlit("ext.value.filter.hue-rotate");
    reveal_strlit("hue-rotate()");
    reveal_strlit("#funcdef-filter-hue-rotate");
    CssFeatureId::lemma_spec_new_parts("ext.value.filter.hue-rotate");
    assert(catalog_3::features()[0].spec_id()@[3] == '.');
    assert(catalog_3::features()[0].spec_id()@[2] != "excluded."@[2]);
    assert(feature_record_laws(catalog_3::features()[0]));
    reveal_strlit("ext.value.filter.invert");
    reveal_strlit("invert()");
    reveal_strlit("#funcdef-filter-invert");
    CssFeatureId::lemma_spec_new_parts("ext.value.filter.invert");
    assert(catalog_3::features()[1].spec_id()@[3] == '.');
    assert(catalog_3::features()[1].spec_id()@[2] != "excluded."@[2]);
    assert(feature_record_laws(catalog_3::features()[1]));
    reveal_strlit("ext.value.filter.opacity");
    reveal_strlit("opacity()");
    reveal_strlit("#funcdef-filter-opacity");
    CssFeatureId::lemma_spec_new_parts("ext.value.filter.opacity");
    assert(catalog_3::features()[2].spec_id()@[3] == '.');
    assert(catalog_3::features()[2].spec_id()@[2] != "excluded."@[2]);
    assert(feature_record_laws(catalog_3::features()[2]));
    reveal_strlit("ext.value.filter.saturate");
    reveal_strlit("saturate()");
    reveal_strlit("#funcdef-filter-saturate");
    CssFeatureId::lemma_spec_new_parts("ext.value.filter.saturate");
    assert(catalog_3::features()[3].spec_id()@[3] == '.');
    assert(catalog_3::features()[3].spec_id()@[2] != "excluded."@[2]);
    assert(feature_record_laws(catalog_3::features()[3]));
    reveal_strlit("ext.value.filter.sepia");
    reveal_strlit("sepia()");
    reveal_strlit("#funcdef-filter-sepia");
    CssFeatureId::lemma_spec_new_parts("ext.value.filter.sepia");
    assert(catalog_3::features()[4].spec_id()@[3] == '.');
    assert(catalog_3::features()[4].spec_id()@[2] != "excluded."@[2]);
    assert(feature_record_laws(catalog_3::features()[4]));
    reveal_strlit("ext.value.filter.drop-shadow");
    reveal_strlit("drop-shadow()");
    reveal_strlit("#funcdef-filter-drop-shadow");
    CssFeatureId::lemma_spec_new_parts("ext.value.filter.drop-shadow");
    assert(catalog_3::features()[5].spec_id()@[3] == '.');
    assert(catalog_3::features()[5].spec_id()@[2] != "excluded."@[2]);
    assert(feature_record_laws(catalog_3::features()[5]));
    reveal_strlit("Typed inset(), circle(), ellipse(), and polygon() functions are supported.");
    reveal_strlit("path(), shape(), rect(), and xywh() remain unsupported.");
    reveal_strlit("ext.value.basic-shape");
    reveal_strlit("<basic-shape>");
    reveal_strlit("#typedef-basic-shape");
    CssFeatureId::lemma_spec_new_parts("ext.value.basic-shape");
    assert(catalog_3::features()[6].spec_id()@[3] == '.');
    assert(catalog_3::features()[6].spec_id()@[2] != "excluded."@[2]);
    assert(feature_record_laws(catalog_3::features()[6]));
    reveal_strlit("ext.value.basic-shape.inset");
    reveal_strlit("inset()");
    reveal_strlit("#funcdef-basic-shape-inset");
    CssFeatureId::lemma_spec_new_parts("ext.value.basic-shape.inset");
    assert(catalog_3::features()[7].spec_id()@[3] == '.');
    assert(catalog_3::features()[7].spec_id()@[2] != "excluded."@[2]);
    assert(feature_record_laws(catalog_3::features()[7]));
    reveal_strlit("ext.value.basic-shape.circle");
    reveal_strlit("circle()");
    reveal_strlit("#funcdef-basic-shape-circle");
    CssFeatureId::lemma_spec_new_parts("ext.value.basic-shape.circle");
    assert(catalog_3::features()[8].spec_id()@[3] == '.');
    assert(catalog_3::features()[8].spec_id()@[2] != "excluded."@[2]);
    assert(feature_record_laws(catalog_3::features()[8]));
    reveal_strlit("ext.value.basic-shape.ellipse");
    reveal_strlit("ellipse()");
    reveal_strlit("#funcdef-basic-shape-ellipse");
    CssFeatureId::lemma_spec_new_parts("ext.value.basic-shape.ellipse");
    assert(catalog_3::features()[9].spec_id()@[3] == '.');
    assert(catalog_3::features()[9].spec_id()@[2] != "excluded."@[2]);
    assert(feature_record_laws(catalog_3::features()[9]));
    reveal_strlit("ext.value.basic-shape.polygon");
    reveal_strlit("polygon()");
    reveal_strlit("#funcdef-basic-shape-polygon");
    CssFeatureId::lemma_spec_new_parts("ext.value.basic-shape.polygon");
    assert(catalog_3::features()[10].spec_id()@[3] == '.');
    assert(catalog_3::features()[10].spec_id()@[2] != "excluded."@[2]);
    assert(feature_record_laws(catalog_3::features()[10]));
    reveal_strlit("Typed sum, product, division, negation, grouping, and nested calc() trees are supported for the C03 roots and integrated property consumers.");
    reveal_strlit("Angle, frequency, Media resolution, keyframe percentage, font-feature numeric, and C05 function-owned consumer integrations remain for their owning later cycles.");
    reveal_strlit("official.value.calc");
    reveal_strlit("calc()");
    reveal_strlit("#calc-notation,#calc-syntax,#calc-type-checking");
    CssFeatureId::lemma_spec_new_parts("official.value.calc");
    assert(catalog_3::features()[11].spec_id()@[8] == '.');
    assert(catalog_3::features()[11].spec_id()@[0] != "excluded."@[0]);
    assert(feature_record_laws(catalog_3::features()[11]));
    reveal_strlit("later.rule.namespace");
    reveal_strlit("@namespace");
    reveal_strlit("#declaration,#syntax");
    CssFeatureId::lemma_spec_new_parts("later.rule.namespace");
    assert(catalog_3::features()[12].spec_id()@[5] == '.');
    assert(catalog_3::features()[12].spec_id()@[0] != "excluded."@[0]);
    assert(feature_record_laws(catalog_3::features()[12]));
    reveal_strlit("later.rule.supports");
    reveal_strlit("@supports");
    reveal_strlit("#at-supports");
    CssFeatureId::lemma_spec_new_parts("later.rule.supports");
    assert(catalog_3::features()[13].spec_id()@[5] == '.');
    assert(catalog_3::features()[13].spec_id()@[0] != "excluded."@[0]);
    assert(feature_record_laws(catalog_3::features()[13]));
    reveal_strlit("later.rule.counter-style");
    reveal_strlit("@counter-style");
    reveal_strlit("#the-counter-style-rule");
    CssFeatureId::lemma_spec_new_parts("later.rule.counter-style");
    assert(catalog_3::features()[14].spec_id()@[5] == '.');
    assert(catalog_3::features()[14].spec_id()@[0] != "excluded."@[0]);
    assert(feature_record_laws(catalog_3::features()[14]));
    reveal_strlit("official.descriptor.counter-style.system");
    reveal_strlit("system in @counter-style");
    reveal_strlit("#counter-style-system");
    CssFeatureId::lemma_spec_new_parts("official.descriptor.counter-style.system");
    assert(catalog_3::features()[15].spec_id()@[8] == '.');
    assert(catalog_3::features()[15].spec_id()@[0] != "excluded."@[0]);
    assert(feature_record_laws(catalog_3::features()[15]));
    reveal_strlit("official.descriptor.counter-style.negative");
    reveal_strlit("negative in @counter-style");
    reveal_strlit("#counter-style-negative");
    CssFeatureId::lemma_spec_new_parts("official.descriptor.counter-style.negative");
    assert(catalog_3::features()[16].spec_id()@[8] == '.');
    assert(catalog_3::features()[16].spec_id()@[0] != "excluded."@[0]);
    assert(feature_record_laws(catalog_3::features()[16]));
    reveal_strlit("official.descriptor.counter-style.prefix");
    reveal_strlit("prefix in @counter-style");
    reveal_strlit("#counter-style-prefix");
    CssFeatureId::lemma_spec_new_parts("official.descriptor.counter-style.prefix");
    assert(catalog_3::features()[17].spec_id()@[8] == '.');
    assert(catalog_3::features()[17].spec_id()@[0] != "excluded."@[0]);
    assert(feature_record_laws(catalog_3::features()[17]));
    reveal_strlit("official.descriptor.counter-style.suffix");
    reveal_strlit("suffix in @counter-style");
    reveal_strlit("#counter-style-suffix");
    CssFeatureId::lemma_spec_new_parts("official.descriptor.counter-style.suffix");
    assert(catalog_3::features()[18].spec_id()@[8] == '.');
    assert(catalog_3::features()[18].spec_id()@[0] != "excluded."@[0]);
    assert(feature_record_laws(catalog_3::features()[18]));
    reveal_strlit("official.descriptor.counter-style.range");
    reveal_strlit("range in @counter-style");
    reveal_strlit("#counter-style-range");
    CssFeatureId::lemma_spec_new_parts("official.descriptor.counter-style.range");
    assert(catalog_3::features()[19].spec_id()@[8] == '.');
    assert(catalog_3::features()[19].spec_id()@[0] != "excluded."@[0]);
    assert(feature_record_laws(catalog_3::features()[19]));
    reveal_strlit("official.descriptor.counter-style.pad");
    reveal_strlit("pad in @counter-style");
    reveal_strlit("#counter-style-pad");
    CssFeatureId::lemma_spec_new_parts("official.descriptor.counter-style.pad");
    assert(catalog_3::features()[20].spec_id()@[8] == '.');
    assert(catalog_3::features()[20].spec_id()@[0] != "excluded."@[0]);
    assert(feature_record_laws(catalog_3::features()[20]));
    reveal_strlit("official.descriptor.counter-style.fallback");
    reveal_strlit("fallback in @counter-style");
    reveal_strlit("#counter-style-fallback");
    CssFeatureId::lemma_spec_new_parts("official.descriptor.counter-style.fallback");
    assert(catalog_3::features()[21].spec_id()@[8] == '.');
    assert(catalog_3::features()[21].spec_id()@[0] != "excluded."@[0]);
    assert(feature_record_laws(catalog_3::features()[21]));
    reveal_strlit("official.descriptor.counter-style.symbols");
    reveal_strlit("symbols in @counter-style");
    reveal_strlit("#counter-style-symbols");
    CssFeatureId::lemma_spec_new_parts("official.descriptor.counter-style.symbols");
    assert(catalog_3::features()[22].spec_id()@[8] == '.');
    assert(catalog_3::features()[22].spec_id()@[0] != "excluded."@[0]);
    assert(feature_record_laws(catalog_3::features()[22]));
    reveal_strlit("official.descriptor.counter-style.additive-symbols");
    reveal_strlit("additive-symbols in @counter-style");
    CssFeatureId::lemma_spec_new_parts("official.descriptor.counter-style.additive-symbols");
    assert(catalog_3::features()[23].spec_id()@[8] == '.');
    assert(catalog_3::features()[23].spec_id()@[0] != "excluded."@[0]);
    assert(feature_record_laws(catalog_3::features()[23]));
    reveal_strlit("official.descriptor.counter-style.speak-as");
    reveal_strlit("speak-as in @counter-style");
    reveal_strlit("#counter-style-speak-as");
    CssFeatureId::lemma_spec_new_parts("official.descriptor.counter-style.speak-as");
    assert(catalog_3::features()[24].spec_id()@[8] == '.');
    assert(catalog_3::features()[24].spec_id()@[0] != "excluded."@[0]);
    assert(feature_record_laws(catalog_3::features()[24]));
    reveal_strlit("official.value.counter-style");
    reveal_strlit("<counter-style>");
    CssFeatureId::lemma_spec_new_parts("official.value.counter-style");
    assert(catalog_3::features()[25].spec_id()@[8] == '.');
    assert(catalog_3::features()[25].spec_id()@[0] != "excluded."@[0]);
    assert(feature_record_laws(catalog_3::features()[25]));
    reveal_strlit("official.value.counter-style-name");
    reveal_strlit("<counter-style-name>");
    CssFeatureId::lemma_spec_new_parts("official.value.counter-style-name");
    assert(catalog_3::features()[26].spec_id()@[8] == '.');
    assert(catalog_3::features()[26].spec_id()@[0] != "excluded."@[0]);
    assert(feature_record_laws(catalog_3::features()[26]));
    reveal_strlit("official.value.symbol");
    reveal_strlit("<symbol>");
    CssFeatureId::lemma_spec_new_parts("official.value.symbol");
    assert(catalog_3::features()[27].spec_id()@[8] == '.');
    assert(catalog_3::features()[27].spec_id()@[0] != "excluded."@[0]);
    assert(feature_record_laws(catalog_3::features()[27]));
    reveal_strlit("official.value.symbols-function");
    reveal_strlit("symbols()");
    reveal_strlit("#symbols-function");
    CssFeatureId::lemma_spec_new_parts("official.value.symbols-function");
    assert(catalog_3::features()[28].spec_id()@[8] == '.');
    assert(catalog_3::features()[28].spec_id()@[0] != "excluded."@[0]);
    assert(feature_record_laws(catalog_3::features()[28]));
    reveal_strlit("official.value.symbols-type");
    reveal_strlit("cyclic|numeric|alphabetic|symbolic|fixed");
    CssFeatureId::lemma_spec_new_parts("official.value.symbols-type");
    assert(catalog_3::features()[29].spec_id()@[8] == '.');
    assert(catalog_3::features()[29].spec_id()@[0] != "excluded."@[0]);
    assert(feature_record_laws(catalog_3::features()[29]));
    reveal_strlit("later.rule.page");
    reveal_strlit("@page");
    reveal_strlit("page.html#page-box");
    CssFeatureId::lemma_spec_new_parts("later.rule.page");
    assert(catalog_3::features()[30].spec_id()@[5] == '.');
    assert(catalog_3::features()[30].spec_id()@[0] != "excluded."@[0]);
    assert(feature_record_laws(catalog_3::features()[30]));
    reveal_strlit("official.selector.page-pseudo");
    reveal_strlit(":left|:right|:first");
    reveal_strlit("page.html#page-selectors");
    CssFeatureId::lemma_spec_new_parts("official.selector.page-pseudo");
    assert(catalog_3::features()[31].spec_id()@[8] == '.');
    assert(catalog_3::features()[31].spec_id()@[0] != "excluded."@[0]);
    assert(feature_record_laws(catalog_3::features()[31]));
    reveal_strlit("later.rule.font-feature-values");
    reveal_strlit("@font-feature-values");
    reveal_strlit("#font-feature-values-rule");
    CssFeatureId::lemma_spec_new_parts("later.rule.font-feature-values");
    assert(catalog_3::features()[32].spec_id()@[5] == '.');
    assert(catalog_3::features()[32].spec_id()@[0] != "excluded."@[0]);
    assert(feature_record_laws(catalog_3::features()[32]));
    reveal_strlit("baseline.descriptor.font-family");
    reveal_strlit("font-family in @font-face");
    reveal_strlit("#font-family-desc");
    CssFeatureId::lemma_spec_new_parts("baseline.descriptor.font-family");
    assert(catalog_3::features()[33].spec_id()@[8] == '.');
    assert(catalog_3::features()[33].spec_id()@[0] != "excluded."@[0]);
    assert(feature_record_laws(catalog_3::features()[33]));
    reveal_strlit("baseline.descriptor.src");
    reveal_strlit("src in @font-face");
    reveal_strlit("#src-desc");
    CssFeatureId::lemma_spec_new_parts("baseline.descriptor.src");
    assert(catalog_3::features()[34].spec_id()@[8] == '.');
    assert(catalog_3::features()[34].spec_id()@[0] != "excluded."@[0]);
    assert(feature_record_laws(catalog_3::features()[34]));
    reveal_strlit("baseline.descriptor.font-weight");
    reveal_strlit("font-weight in @font-face");
    reveal_strlit("#font-prop-desc");
    CssFeatureId::lemma_spec_new_parts("baseline.descriptor.font-weight");
    assert(catalog_3::features()[35].spec_id()@[8] == '.');
    assert(catalog_3::features()[35].spec_id()@[0] != "excluded."@[0]);
    assert(feature_record_laws(catalog_3::features()[35]));
    reveal_strlit("baseline.descriptor.font-style");
    reveal_strlit("font-style in @font-face");
    CssFeatureId::lemma_spec_new_parts("baseline.descriptor.font-style");
    assert(catalog_3::features()[36].spec_id()@[8] == '.');
    assert(catalog_3::features()[36].spec_id()@[0] != "excluded."@[0]);
    assert(feature_record_laws(catalog_3::features()[36]));
    reveal_strlit("baseline.descriptor.font-stretch");
    reveal_strlit("font-stretch in @font-face");
    CssFeatureId::lemma_spec_new_parts("baseline.descriptor.font-stretch");
    assert(catalog_3::features()[37].spec_id()@[8] == '.');
    assert(catalog_3::features()[37].spec_id()@[0] != "excluded."@[0]);
    assert(feature_record_laws(catalog_3::features()[37]));
    reveal_strlit("baseline.descriptor.font-display");
    reveal_strlit("font-display in @font-face");
    reveal_strlit("#font-display-desc");
    CssFeatureId::lemma_spec_new_parts("baseline.descriptor.font-display");
    assert(catalog_3::features()[38].spec_id()@[8] == '.');
    assert(catalog_3::features()[38].spec_id()@[0] != "excluded."@[0]);
    assert(feature_record_laws(catalog_3::features()[38]));
    reveal_strlit("baseline.descriptor.unicode-range");
    reveal_strlit("unicode-range in @font-face");
    reveal_strlit("#unicode-range-desc");
    CssFeatureId::lemma_spec_new_parts("baseline.descriptor.unicode-range");
    assert(catalog_3::features()[39].spec_id()@[8] == '.');
    assert(catalog_3::features()[39].spec_id()@[0] != "excluded."@[0]);
    assert(feature_record_laws(catalog_3::features()[39]));
    reveal_strlit("official.descriptor.font-feature-settings");
    reveal_strlit("font-feature-settings in @font-face");
    reveal_strlit("#font-rend-desc");
    CssFeatureId::lemma_spec_new_parts("official.descriptor.font-feature-settings");
    assert(catalog_3::features()[40].spec_id()@[8] == '.');
    assert(catalog_3::features()[40].spec_id()@[0] != "excluded."@[0]);
    assert(feature_record_laws(catalog_3::features()[40]));
    reveal_strlit("official.value.font-source");
    reveal_strlit("@font-face source list");
    CssFeatureId::lemma_spec_new_parts("official.value.font-source");
    assert(catalog_3::features()[41].spec_id()@[8] == '.');
    assert(catalog_3::features()[41].spec_id()@[0] != "excluded."@[0]);
    assert(feature_record_laws(catalog_3::features()[41]));
    reveal_strlit("official.value.opentype-tag");
    reveal_strlit("OpenType feature tag");
    CssFeatureId::lemma_spec_new_parts("official.value.opentype-tag");
    assert(catalog_3::features()[42].spec_id()@[8] == '.');
    assert(catalog_3::features()[42].spec_id()@[0] != "excluded."@[0]);
    assert(feature_record_laws(catalog_3::features()[42]));
    reveal_strlit("Font-face font-weight numbers from 1 through 1000 and increasing two-value ranges are supported.");
    reveal_strlit("Other unselected Fonts 4 font-weight descriptor grammar remains unsupported.");
    reveal_strlit("ext.descriptor.font-weight-range");
    reveal_strlit("font-weight ranges in @font-face");
    reveal_strlit("#font-weight-desc");
    CssFeatureId::lemma_spec_new_parts("ext.descriptor.font-weight-range");
    assert(catalog_3::features()[43].spec_id()@[3] == '.');
    assert(catalog_3::features()[43].spec_id()@[2] != "excluded."@[2]);
    assert(feature_record_laws(catalog_3::features()[43]));
    reveal_strlit("Font-face oblique style with one or two increasing -90deg through 90deg angles is supported.");
    reveal_strlit("Other unselected Fonts 4 font-style descriptor grammar remains unsupported.");
    reveal_strlit("ext.descriptor.font-style-oblique-range");
    reveal_strlit("font-style oblique ranges in @font-face");
    reveal_strlit("#font-style-desc");
    CssFeatureId::lemma_spec_new_parts("ext.descriptor.font-style-oblique-range");
    assert(catalog_3::features()[44].spec_id()@[3] == '.');
    assert(catalog_3::features()[44].spec_id()@[2] != "excluded."@[2]);
    assert(feature_record_laws(catalog_3::features()[44]));
    reveal_strlit("Font-face non-negative percentage stretch values and increasing two-value ranges are supported.");
    reveal_strlit("Other unselected Fonts 4 font-stretch descriptor grammar remains unsupported.");
    reveal_strlit("ext.descriptor.font-stretch-range");
    reveal_strlit("font-stretch percentage ranges in @font-face");
    reveal_strlit("#font-stretch-desc");
    CssFeatureId::lemma_spec_new_parts("ext.descriptor.font-stretch-range");
    assert(catalog_3::features()[45].spec_id()@[3] == '.');
    assert(catalog_3::features()[45].spec_id()@[2] != "excluded."@[2]);
    assert(feature_record_laws(catalog_3::features()[45]));
    reveal_strlit("The woff, woff2, truetype, opentype, collection, embedded-opentype, and svg format() hints and the variations, color-colrv0, color-colrv1, color-svg, color-sbix, color-cbdt, features-opentype, features-aat, features-graphite, and incremental tech() hints are supported.");
    reveal_strlit("Other unselected Fonts 4 font source format and technology hints remain unsupported.");
    reveal_strlit("ext.value.font-source-modern-hints");
    reveal_strlit("format() keyword and tech() font-source hints");
    reveal_strlit("#font-face-src-parsing");
    CssFeatureId::lemma_spec_new_parts("ext.value.font-source-modern-hints");
    assert(catalog_3::features()[46].spec_id()@[3] == '.');
    assert(catalog_3::features()[46].spec_id()@[2] != "excluded."@[2]);
    assert(feature_record_laws(catalog_3::features()[46]));
    reveal_strlit("Other valid forms of the cited Selectors production are outside the I01 subset.");
    reveal_strlit("baseline.selector.complex");
    reveal_strlit("type, universal, ID, class; presence and six valued attribute matchers; descendant, child, next-sibling, subsequent-sibling combinators");
    reveal_strlit("#type-selectors,#universal-selector,#attribute-representation,#attribute-substrings,#class-html,#id-selectors,#descendant-combinators,#child-combinators,#adjacent-sibling-combinators,#general-sibling-combinators");
    reveal_strlit("The exact baseline-recognized complex-selector spelling group is supported.");
    CssFeatureId::lemma_spec_new_parts("baseline.selector.complex");
    assert(catalog_3::features()[47].spec_id()@[8] == '.');
    assert(catalog_3::features()[47].spec_id()@[0] != "excluded."@[0]);
    assert(feature_record_laws(catalog_3::features()[47]));
    reveal_strlit("baseline.selector.pseudo-class");
    reveal_strlit(":root, :hover, :active, :focus, :disabled, :enabled, :checked, :first-child, :last-child, :only-child, :empty, :first-of-type, :last-of-type, :only-of-type");
    reveal_strlit("#dynamic-pseudos,#UIstates,#structural-pseudos");
    reveal_strlit("The exact baseline-recognized pseudo-class spelling group is supported.");
    CssFeatureId::lemma_spec_new_parts("baseline.selector.pseudo-class");
    assert(catalog_3::features()[48].spec_id()@[8] == '.');
    assert(catalog_3::features()[48].spec_id()@[0] != "excluded."@[0]);
    assert(feature_record_laws(catalog_3::features()[48]));
    reveal_strlit("baseline.selector.functional");
    reveal_strlit(":nth-child(), :nth-last-child(), :nth-of-type(), :nth-last-of-type(), :not()");
    reveal_strlit("#structural-pseudos,#negation");
    reveal_strlit("The exact baseline-recognized functional pseudo-class spelling group is supported.");
    CssFeatureId::lemma_spec_new_parts("baseline.selector.functional");
    assert(catalog_3::features()[49].spec_id()@[8] == '.');
    assert(catalog_3::features()[49].spec_id()@[0] != "excluded."@[0]);
    assert(feature_record_laws(catalog_3::features()[49]));
    reveal_strlit("baseline.selector.extension-state");
    reveal_strlit(":scope, :focus-visible, :focus-within, :required, :optional, :valid, :invalid, :placeholder-shown, :default, :indeterminate, :read-only, :read-write, :in-range, :out-of-range, :modal, :fullscreen, :popover-open");
    reveal_strlit("#useraction-pseudos,#input-pseudos,#resource-pseudos,#display-state-pseudos");
    reveal_strlit("The exact I01 extension-state pseudo-class spelling group is supported.");
    CssFeatureId::lemma_spec_new_parts("baseline.selector.extension-state");
    assert(catalog_3::features()[50].spec_id()@[8] == '.');
    assert(catalog_3::features()[50].spec_id()@[0] != "excluded."@[0]);
    assert(feature_record_laws(catalog_3::features()[50]));
    reveal_strlit("baseline.selector.extension-functional");
    reveal_strlit(":is(), :where(), complex :not(), :has(), and nth-child of lists");
    reveal_strlit("#matches,#zero-matches,#relational,#negation,#the-nth-child-pseudo");
    reveal_strlit("The exact I01 extension-functional pseudo-class spelling group is supported.");
    CssFeatureId::lemma_spec_new_parts("baseline.selector.extension-functional");
    assert(catalog_3::features()[51].spec_id()@[8] == '.');
    assert(catalog_3::features()[51].spec_id()@[0] != "excluded."@[0]);
    assert(feature_record_laws(catalog_3::features()[51]));
    reveal_strlit("baseline.selector.attribute-case");
    reveal_strlit("i and s attribute-selector modifiers");
    reveal_strlit("#attribute-case");
    reveal_strlit("The i and s attribute-selector case modifiers are supported.");
    CssFeatureId::lemma_spec_new_parts("baseline.selector.attribute-case");
    assert(catalog_3::features()[52].spec_id()@[8] == '.');
    assert(catalog_3::features()[52].spec_id()@[0] != "excluded."@[0]);
    assert(feature_record_laws(catalog_3::features()[52]));
    reveal_strlit("baseline.selector.pseudo-element");
    reveal_strlit("::before, ::after, ::marker, ::selection, ::backdrop, and generated ::marker sequences");
    reveal_strlit("pseudo-element selector");
    reveal_strlit("The exact baseline-recognized pseudo-element spelling group is supported.");
    reveal_strlit("official.selector.generated");
    reveal_strlit("ext.pseudo-element.marker");
    reveal_strlit("ext.pseudo-element.selection");
    reveal_strlit("ext.pseudo-element.backdrop");
    reveal_strlit("ext.pseudo-element.generated-marker");
    CssFeatureId::lemma_spec_new_parts("baseline.selector.pseudo-element");
    assert(catalog_3::features()[53].spec_id()@[8] == '.');
    assert(catalog_3::features()[53].spec_id()@[0] != "excluded."@[0]);
    assert(feature_record_laws(catalog_3::features()[53]));
    reveal_strlit("baseline.selector.nesting");
    reveal_strlit("nesting &, scoped selector anchors, and scoped relative selectors");
    reveal_strlit("#nest-selector");
    reveal_strlit("Nesting &, scoped selector anchors, and scoped relative selectors are supported.");
    CssFeatureId::lemma_spec_new_parts("baseline.selector.nesting");
    assert(catalog_3::features()[54].spec_id()@[8] == '.');
    assert(catalog_3::features()[54].spec_id()@[0] != "excluded."@[0]);
    assert(feature_record_laws(catalog_3::features()[54]));
    reveal_strlit("Other valid forms of the cited query production are outside the I01 subset.");
    reveal_strlit("baseline.media.query-list");
    reveal_strlit("typed/condition query lists, not/only, and/or/not, range and colon forms, and malformed-member Never recovery");
    reveal_strlit("media query list");
    reveal_strlit("The exact baseline-recognized media query-list spelling group and malformed-member Never recovery are supported.");
    reveal_strlit("official.media.query-list-core");
    reveal_strlit("ext.media.condition-syntax");
    reveal_strlit("ext.media.malformed-member-never");
    CssFeatureId::lemma_spec_new_parts("baseline.media.query-list");
    assert(catalog_3::features()[55].spec_id()@[8] == '.');
    assert(catalog_3::features()[55].spec_id()@[0] != "excluded."@[0]);
    assert(feature_record_laws(catalog_3::features()[55]));
    reveal_strlit("baseline.media.type");
    reveal_strlit("all, aural, braille, embossed, handheld, print, projection, screen, speech, tty, tv");
    reveal_strlit("#media1");
    CssFeatureId::lemma_spec_new_parts("baseline.media.type");
    assert(catalog_3::features()[56].spec_id()@[8] == '.');
    assert(catalog_3::features()[56].spec_id()@[0] != "excluded."@[0]);
    assert(feature_record_laws(catalog_3::features()[56]));
    reveal_strlit("baseline.media.range-feature");
    reveal_strlit("width, height, resolution, color, monochrome and their min-/max- names");
    reveal_strlit("media range feature");
    reveal_strlit("The exact baseline-recognized media range-feature spelling group is supported.");
    reveal_strlit("official.media.feature.width");
    reveal_strlit("official.media.feature.height");
    reveal_strlit("official.media.feature.resolution");
    reveal_strlit("official.media.feature.color");
    reveal_strlit("official.media.feature.monochrome");
    reveal_strlit("ext.media.resolution.dppx");
    reveal_strlit("ext.media.range.width");
    reveal_strlit("ext.media.range.height");
    reveal_strlit("ext.media.range.resolution");
    reveal_strlit("ext.media.range.color");
    reveal_strlit("ext.media.range.monochrome");
    CssFeatureId::lemma_spec_new_parts("baseline.media.range-feature");
    assert(catalog_3::features()[57].spec_id()@[8] == '.');
    assert(catalog_3::features()[57].spec_id()@[0] != "excluded."@[0]);
    assert(feature_record_laws(catalog_3::features()[57]));
    reveal_strlit("baseline.media.discrete-feature");
    reveal_strlit("orientation, prefers-color-scheme, prefers-reduced-motion, prefers-reduced-transparency, prefers-contrast, forced-colors, hover, any-hover, pointer, any-pointer, display-mode");
    reveal_strlit("media discrete feature");
    reveal_strlit("The exact baseline-recognized media discrete-feature spelling group is supported.");
    reveal_strlit("official.media.feature.orientation");
    reveal_strlit("ext.media.hover");
    reveal_strlit("ext.media.any-hover");
    reveal_strlit("ext.media.pointer");
    reveal_strlit("ext.media.any-pointer");
    reveal_strlit("ext.media.prefers-color-scheme");
    reveal_strlit("ext.media.prefers-reduced-motion");
    reveal_strlit("ext.media.prefers-reduced-transparency");
    reveal_strlit("ext.media.prefers-contrast");
    reveal_strlit("ext.media.forced-colors");
    reveal_strlit("ext.media.display-mode");
    CssFeatureId::lemma_spec_new_parts("baseline.media.discrete-feature");
    assert(catalog_3::features()[58].spec_id()@[8] == '.');
    assert(catalog_3::features()[58].spec_id()@[0] != "excluded."@[0]);
    assert(feature_record_laws(catalog_3::features()[58]));
    reveal_strlit("baseline.container.condition");
    reveal_strlit("and/or/not, size features, and custom-property style existence/equality");
    reveal_strlit("#container-rule");
    reveal_strlit("The exact baseline-recognized container-condition spelling group is supported.");
    CssFeatureId::lemma_spec_new_parts("baseline.container.condition");
    assert(catalog_3::features()[59].spec_id()@[8] == '.');
    assert(catalog_3::features()[59].spec_id()@[0] != "excluded."@[0]);
    assert(feature_record_laws(catalog_3::features()[59]));
}

#[verifier::rlimit(100)]
proof fn lemma_catalog_4_laws()
    ensures
        forall|i: int| 0 <= i < catalog_4::features().len() ==> feature_record_laws(#[trigger] catalog_4::features()[i]),
{
    broadcast use {CssFeatureMetadata::lemma_complete_parts, CssFeatureMetadata::lemma_partial_parts, CssFeatureMetadata::lemma_baseline_alias_parts, CssFeatureMetadata::lemma_recognized_unsupported_parts, CssFeatureMetadata::lemma_partial_property_parts, CssFeatureMetadata::lemma_complete_property_parts, CssFeatureMetadata::lemma_partial_property_with_boundary_parts};

    reveal(catalog_4::features);
    reveal(spec_specification_sources);
    reveal(sources::source_list);
    reveal(spec_property_source);
    reveal(spec_property_production);
    lemma_property_sources_registered();
    reveal_strlit("#propdef-");
    assert(sources::source_list()[50] == x_contain3());
    reveal_strlit("The property-specific parser behavior at 4b288d6:src/parser/mod.rs, plus whole-value CSS-wide keywords and syntactically admissible substitution-dependent authored values, is supported.");
    reveal_strlit("Other valid forms of the cited property production are outside the I01 subset.");
    reveal_strlit("excluded.");
    reveal_strlit("Other valid forms of the cited query production are outside the I01 subset.");
    reveal_strlit("baseline.container.size-feature");
    reveal_strlit("width, height, inline-size, block-size, aspect-ratio, orientation and applicable min-/max- names");
    reveal_strlit("#size-container");
    reveal_strlit("The exact baseline-recognized container size-feature spelling group is supported.");
    CssFeatureId::lemma_spec_new_parts("baseline.container.size-feature");
    assert(catalog_4::features()[0].spec_id()@[8] == '.');
    assert(catalog_4::features()[0].spec_id()@[0] != "excluded."@[0]);
    assert(feature_record_laws(catalog_4::features()[0]));
    reveal_strlit("baseline.property.all");
    reveal_strlit("all");
    reveal_strlit("#propdef-all");
    CssFeatureId::lemma_spec_new_parts("baseline.property.all");
    assert(catalog_4::features()[1].spec_id()@[8] == '.');
    assert(catalog_4::features()[1].spec_id()@[0] != "excluded."@[0]);
    assert("#propdef-all"@.skip(0) =~= "#propdef-"@ + "all"@);
    assert(feature_record_laws(catalog_4::features()[1]));
    reveal_strlit("baseline.property.display");
    reveal_strlit("display");
    reveal_strlit("#propdef-display");
    CssFeatureId::lemma_spec_new_parts("baseline.property.display");
    assert(catalog_4::features()[2].spec_id()@[8] == '.');
    assert(catalog_4::features()[2].spec_id()@[0] != "excluded."@[0]);
    reveal_strlit("visuren.html#propdef-display");
    assert("visuren.html#propdef-display"@.skip(12) =~= "#propdef-"@ + "display"@);
    assert(feature_record_laws(catalog_4::features()[2]));
    reveal_strlit("baseline.property.box-sizing");
    reveal_strlit("box-sizing");
    reveal_strlit("#propdef-box-sizing");
    CssFeatureId::lemma_spec_new_parts("baseline.property.box-sizing");
    assert(catalog_4::features()[3].spec_id()@[8] == '.');
    assert(catalog_4::features()[3].spec_id()@[0] != "excluded."@[0]);
    assert("#propdef-box-sizing"@.skip(0) =~= "#propdef-"@ + "box-sizing"@);
    assert(feature_record_laws(catalog_4::features()[3]));
    reveal_strlit("baseline.property.position");
    reveal_strlit("position");
    reveal_strlit("#propdef-position");
    CssFeatureId::lemma_spec_new_parts("baseline.property.position");
    assert(catalog_4::features()[4].spec_id()@[8] == '.');
    assert(catalog_4::features()[4].spec_id()@[0] != "excluded."@[0]);
    reveal_strlit("visuren.html#propdef-position");
    assert("visuren.html#propdef-position"@.skip(12) =~= "#propdef-"@ + "position"@);
    assert(feature_record_laws(catalog_4::features()[4]));
    reveal_strlit("baseline.property.direction");
    reveal_strlit("direction");
    reveal_strlit("#propdef-direction");
    CssFeatureId::lemma_spec_new_parts("baseline.property.direction");
    assert(catalog_4::features()[5].spec_id()@[8] == '.');
    assert(catalog_4::features()[5].spec_id()@[0] != "excluded."@[0]);
    assert("#propdef-direction"@.skip(0) =~= "#propdef-"@ + "direction"@);
    assert(feature_record_laws(catalog_4::features()[5]));
    reveal_strlit("baseline.property.overflow");
    reveal_strlit("overflow");
    reveal_strlit("#propdef-overflow");
    CssFeatureId::lemma_spec_new_parts("baseline.property.overflow");
    assert(catalog_4::features()[6].spec_id()@[8] == '.');
    assert(catalog_4::features()[6].spec_id()@[0] != "excluded."@[0]);
    reveal_strlit("visufx.html#propdef-overflow");
    assert("visufx.html#propdef-overflow"@.skip(11) =~= "#propdef-"@ + "overflow"@);
    assert(feature_record_laws(catalog_4::features()[6]));
    reveal_strlit("baseline.property.overflow-x");
    reveal_strlit("overflow-x");
    reveal_strlit("#propdef-overflow-x");
    CssFeatureId::lemma_spec_new_parts("baseline.property.overflow-x");
    assert(catalog_4::features()[7].spec_id()@[8] == '.');
    assert(catalog_4::features()[7].spec_id()@[0] != "excluded."@[0]);
    assert("#propdef-overflow-x"@.skip(0) =~= "#propdef-"@ + "overflow-x"@);
    assert(feature_record_laws(catalog_4::features()[7]));
    reveal_strlit("baseline.property.overflow-y");
    reveal_strlit("overflow-y");
    reveal_strlit("#propdef-overflow-y");
    CssFeatureId::lemma_spec_new_parts("baseline.property.overflow-y");
    assert(catalog_4::features()[8].spec_id()@[8] == '.');
    assert(catalog_4::features()[8].spec_id()@[0] != "excluded."@[0]);
    assert("#propdef-overflow-y"@.skip(0) =~= "#propdef-"@ + "overflow-y"@);
    assert(feature_record_laws(catalog_4::features()[8]));
    reveal_strlit("baseline.property.flex-direction");
    reveal_strlit("flex-direction");
    reveal_strlit("#propdef-flex-direction");
    CssFeatureId::lemma_spec_new_parts("baseline.property.flex-direction");
    assert(catalog_4::features()[9].spec_id()@[8] == '.');
    assert(catalog_4::features()[9].spec_id()@[0] != "excluded."@[0]);
    assert("#propdef-flex-direction"@.skip(0) =~= "#propdef-"@ + "flex-direction"@);
    assert(feature_record_laws(catalog_4::features()[9]));
    reveal_strlit("baseline.property.flex-wrap");
    reveal_strlit("flex-wrap");
    reveal_strlit("#propdef-flex-wrap");
    CssFeatureId::lemma_spec_new_parts("baseline.property.flex-wrap");
    assert(catalog_4::features()[10].spec_id()@[8] == '.');
    assert(catalog_4::features()[10].spec_id()@[0] != "excluded."@[0]);
    assert("#propdef-flex-wrap"@.skip(0) =~= "#propdef-"@ + "flex-wrap"@);
    assert(feature_record_laws(catalog_4::features()[10]));
    reveal_strlit("baseline.property.float");
    reveal_strlit("float");
    reveal_strlit("#propdef-float");
    CssFeatureId::lemma_spec_new_parts("baseline.property.float");
    assert(catalog_4::features()[11].spec_id()@[8] == '.');
    assert(catalog_4::features()[11].spec_id()@[0] != "excluded."@[0]);
    reveal_strlit("visuren.html#propdef-float");
    assert("visuren.html#propdef-float"@.skip(12) =~= "#propdef-"@ + "float"@);
    assert(feature_record_laws(catalog_4::features()[11]));
    reveal_strlit("baseline.property.clear");
    reveal_strlit("clear");
    reveal_strlit("#propdef-clear");
    CssFeatureId::lemma_spec_new_parts("baseline.property.clear");
    assert(catalog_4::features()[12].spec_id()@[8] == '.');
    assert(catalog_4::features()[12].spec_id()@[0] != "excluded."@[0]);
    reveal_strlit("visuren.html#propdef-clear");
    assert("visuren.html#propdef-clear"@.skip(12) =~= "#propdef-"@ + "clear"@);
    assert(feature_record_laws(catalog_4::features()[12]));
    reveal_strlit("baseline.property.align-content");
    reveal_strlit("align-content");
    reveal_strlit("#propdef-align-content");
    CssFeatureId::lemma_spec_new_parts("baseline.property.align-content");
    assert(catalog_4::features()[13].spec_id()@[8] == '.');
    assert(catalog_4::features()[13].spec_id()@[0] != "excluded."@[0]);
    assert("#propdef-align-content"@.skip(0) =~= "#propdef-"@ + "align-content"@);
    assert(feature_record_laws(catalog_4::features()[13]));
    reveal_strlit("baseline.property.justify-content");
    reveal_strlit("justify-content");
    reveal_strlit("#propdef-justify-content");
    CssFeatureId::lemma_spec_new_parts("baseline.property.justify-content");
    assert(catalog_4::features()[14].spec_id()@[8] == '.');
    assert(catalog_4::features()[14].spec_id()@[0] != "excluded."@[0]);
    assert("#propdef-justify-content"@.skip(0) =~= "#propdef-"@ + "justify-content"@);
    assert(feature_record_laws(catalog_4::features()[14]));
    reveal_strlit("baseline.property.align-items");
    reveal_strlit("align-items");
    reveal_strlit("#propdef-align-items");
    CssFeatureId::lemma_spec_new_parts("baseline.property.align-items");
    assert(catalog_4::features()[15].spec_id()@[8] == '.');
    assert(catalog_4::features()[15].spec_id()@[0] != "excluded."@[0]);
    assert("#propdef-align-items"@.skip(0) =~= "#propdef-"@ + "align-items"@);
    assert(feature_record_laws(catalog_4::features()[15]));
    reveal_strlit("baseline.property.align-self");
    reveal_strlit("align-self");
    reveal_strlit("#propdef-align-self");
    CssFeatureId::lemma_spec_new_parts("baseline.property.align-self");
    assert(catalog_4::features()[16].spec_id()@[8] == '.');
    assert(catalog_4::features()[16].spec_id()@[0] != "excluded."@[0]);
    assert("#propdef-align-self"@.skip(0) =~= "#propdef-"@ + "align-self"@);
    assert(feature_record_laws(catalog_4::features()[16]));
    reveal_strlit("baseline.property.justify-items");
    reveal_strlit("justify-items");
    reveal_strlit("#propdef-justify-items");
    CssFeatureId::lemma_spec_new_parts("baseline.property.justify-items");
    assert(catalog_4::features()[17].spec_id()@[8] == '.');
    assert(catalog_4::features()[17].spec_id()@[0] != "excluded."@[0]);
    assert("#propdef-justify-items"@.skip(0) =~= "#propdef-"@ + "justify-items"@);
    assert(feature_record_laws(catalog_4::features()[17]));
    reveal_strlit("baseline.property.justify-self");
    reveal_strlit("justify-self");
    reveal_strlit("#propdef-justify-self");
    CssFeatureId::lemma_spec_new_parts("baseline.property.justify-self");
    assert(catalog_4::features()[18].spec_id()@[8] == '.');
    assert(catalog_4::features()[18].spec_id()@[0] != "excluded."@[0]);
    assert("#propdef-justify-self"@.skip(0) =~= "#propdef-"@ + "justify-self"@);
    assert(feature_record_laws(catalog_4::features()[18]));
    reveal_strlit("baseline.property.place-content");
    reveal_strlit("place-content");
    reveal_strlit("#propdef-place-content");
    CssFeatureId::lemma_spec_new_parts("baseline.property.place-content");
    assert(catalog_4::features()[19].spec_id()@[8] == '.');
    assert(catalog_4::features()[19].spec_id()@[0] != "excluded."@[0]);
    assert("#propdef-place-content"@.skip(0) =~= "#propdef-"@ + "place-content"@);
    assert(feature_record_laws(catalog_4::features()[19]));
    reveal_strlit("baseline.property.place-items");
    reveal_strlit("place-items");
    reveal_strlit("#propdef-place-items");
    CssFeatureId::lemma_spec_new_parts("baseline.property.place-items");
    assert(catalog_4::features()[20].spec_id()@[8] == '.');
    assert(catalog_4::features()[20].spec_id()@[0] != "excluded."@[0]);
    assert("#propdef-place-items"@.skip(0) =~= "#propdef-"@ + "place-items"@);
    assert(feature_record_laws(catalog_4::features()[20]));
    reveal_strlit("baseline.property.place-self");
    reveal_strlit("place-self");
    reveal_strlit("#propdef-place-self");
    CssFeatureId::lemma_spec_new_parts("baseline.property.place-self");
    assert(catalog_4::features()[21].spec_id()@[8] == '.');
    assert(catalog_4::features()[21].spec_id()@[0] != "excluded."@[0]);
    assert("#propdef-place-self"@.skip(0) =~= "#propdef-"@ + "place-self"@);
    assert(feature_record_laws(catalog_4::features()[21]));
    reveal_strlit("baseline.property.visibility");
    reveal_strlit("visibility");
    reveal_strlit("#propdef-visibility");
    CssFeatureId::lemma_spec_new_parts("baseline.property.visibility");
    assert(catalog_4::features()[22].spec_id()@[8] == '.');
    assert(catalog_4::features()[22].spec_id()@[0] != "excluded."@[0]);
    reveal_strlit("visufx.html#propdef-visibility");
    assert("visufx.html#propdef-visibility"@.skip(11) =~= "#propdef-"@ + "visibility"@);
    assert(feature_record_laws(catalog_4::features()[22]));
    reveal_strlit("baseline.property.content");
    reveal_strlit("content");
    reveal_strlit("#propdef-content");
    CssFeatureId::lemma_spec_new_parts("baseline.property.content");
    assert(catalog_4::features()[23].spec_id()@[8] == '.');
    assert(catalog_4::features()[23].spec_id()@[0] != "excluded."@[0]);
    reveal_strlit("generate.html#propdef-content");
    assert("generate.html#propdef-content"@.skip(13) =~= "#propdef-"@ + "content"@);
    assert(feature_record_laws(catalog_4::features()[23]));
    reveal_strlit("baseline.property.content-visibility");
    reveal_strlit("content-visibility");
    reveal_strlit("#propdef-content-visibility");
    CssFeatureId::lemma_spec_new_parts("baseline.property.content-visibility");
    assert(catalog_4::features()[24].spec_id()@[8] == '.');
    assert(catalog_4::features()[24].spec_id()@[0] != "excluded."@[0]);
    assert("#propdef-content-visibility"@.skip(0) =~= "#propdef-"@ + "content-visibility"@);
    assert(feature_record_laws(catalog_4::features()[24]));
    reveal_strlit("baseline.property.list-style-type");
    reveal_strlit("list-style-type");
    reveal_strlit("#propdef-list-style-type");
    CssFeatureId::lemma_spec_new_parts("baseline.property.list-style-type");
    assert(catalog_4::features()[25].spec_id()@[8] == '.');
    assert(catalog_4::features()[25].spec_id()@[0] != "excluded."@[0]);
    reveal_strlit("generate.html#propdef-list-style-type");
    assert("generate.html#propdef-list-style-type"@.skip(13) =~= "#propdef-"@ + "list-style-type"@);
    assert(feature_record_laws(catalog_4::features()[25]));
    reveal_strlit("baseline.property.list-style-position");
    reveal_strlit("list-style-position");
    reveal_strlit("#propdef-list-style-position");
    CssFeatureId::lemma_spec_new_parts("baseline.property.list-style-position");
    assert(catalog_4::features()[26].spec_id()@[8] == '.');
    assert(catalog_4::features()[26].spec_id()@[0] != "excluded."@[0]);
    reveal_strlit("generate.html#propdef-list-style-position");
    assert("generate.html#propdef-list-style-position"@.skip(13) =~= "#propdef-"@ + "list-style-position"@);
    assert(feature_record_laws(catalog_4::features()[26]));
    reveal_strlit("baseline.property.list-style-image");
    reveal_strlit("list-style-image");
    reveal_strlit("#propdef-list-style-image");
    CssFeatureId::lemma_spec_new_parts("baseline.property.list-style-image");
    assert(catalog_4::features()[27].spec_id()@[8] == '.');
    assert(catalog_4::features()[27].spec_id()@[0] != "excluded."@[0]);
    reveal_strlit("generate.html#propdef-list-style-image");
    assert("generate.html#propdef-list-style-image"@.skip(13) =~= "#propdef-"@ + "list-style-image"@);
    assert(feature_record_laws(catalog_4::features()[27]));
    reveal_strlit("baseline.property.list-style");
    reveal_strlit("list-style");
    reveal_strlit("#propdef-list-style");
    CssFeatureId::lemma_spec_new_parts("baseline.property.list-style");
    assert(catalog_4::features()[28].spec_id()@[8] == '.');
    assert(catalog_4::features()[28].spec_id()@[0] != "excluded."@[0]);
    reveal_strlit("generate.html#propdef-list-style");
    assert("generate.html#propdef-list-style"@.skip(13) =~= "#propdef-"@ + "list-style"@);
    assert(feature_record_laws(catalog_4::features()[28]));
    reveal_strlit("baseline.property.counter-reset");
    reveal_strlit("counter-reset");
    reveal_strlit("#propdef-counter-reset");
    CssFeatureId::lemma_spec_new_parts("baseline.property.counter-reset");
    assert(catalog_4::features()[29].spec_id()@[8] == '.');
    assert(catalog_4::features()[29].spec_id()@[0] != "excluded."@[0]);
    reveal_strlit("generate.html#propdef-counter-reset");
    assert("generate.html#propdef-counter-reset"@.skip(13) =~= "#propdef-"@ + "counter-reset"@);
    assert(feature_record_laws(catalog_4::features()[29]));
    reveal_strlit("baseline.property.counter-increment");
    reveal_strlit("counter-increment");
    reveal_strlit("#propdef-counter-increment");
    CssFeatureId::lemma_spec_new_parts("baseline.property.counter-increment");
    assert(catalog_4::features()[30].spec_id()@[8] == '.');
    assert(catalog_4::features()[30].spec_id()@[0] != "excluded."@[0]);
    reveal_strlit("generate.html#propdef-counter-increment");
    assert("generate.html#propdef-counter-increment"@.skip(13) =~= "#propdef-"@ + "counter-increment"@);
    assert(feature_record_laws(catalog_4::features()[30]));
    reveal_strlit("baseline.property.counter-set");
    reveal_strlit("counter-set");
    reveal_strlit("#propdef-counter-set");
    CssFeatureId::lemma_spec_new_parts("baseline.property.counter-set");
    assert(catalog_4::features()[31].spec_id()@[8] == '.');
    assert(catalog_4::features()[31].spec_id()@[0] != "excluded."@[0]);
    assert("#propdef-counter-set"@.skip(0) =~= "#propdef-"@ + "counter-set"@);
    assert(feature_record_laws(catalog_4::features()[31]));
    reveal_strlit("baseline.property.width");
    reveal_strlit("width");
    reveal_strlit("#propdef-width");
    CssFeatureId::lemma_spec_new_parts("baseline.property.width");
    assert(catalog_4::features()[32].spec_id()@[8] == '.');
    assert(catalog_4::features()[32].spec_id()@[0] != "excluded."@[0]);
    reveal_strlit("visudet.html#propdef-width");
    assert("visudet.html#propdef-width"@.skip(12) =~= "#propdef-"@ + "width"@);
    assert(feature_record_laws(catalog_4::features()[32]));
    reveal_strlit("baseline.property.height");
    reveal_strlit("height");
    reveal_strlit("#propdef-height");
    CssFeatureId::lemma_spec_new_parts("baseline.property.height");
    assert(catalog_4::features()[33].spec_id()@[8] == '.');
    assert(catalog_4::features()[33].spec_id()@[0] != "excluded."@[0]);
    reveal_strlit("visudet.html#propdef-height");
    assert("visudet.html#propdef-height"@.skip(12) =~= "#propdef-"@ + "height"@);
    assert(feature_record_laws(catalog_4::features()[33]));
    reveal_strlit("baseline.property.min-width");
    reveal_strlit("min-width");
    reveal_strlit("#propdef-min-width");
    CssFeatureId::lemma_spec_new_parts("baseline.property.min-width");
    assert(catalog_4::features()[34].spec_id()@[8] == '.');
    assert(catalog_4::features()[34].spec_id()@[0] != "excluded."@[0]);
    reveal_strlit("visudet.html#propdef-min-width");
    assert("visudet.html#propdef-min-width"@.skip(12) =~= "#propdef-"@ + "min-width"@);
    assert(feature_record_laws(catalog_4::features()[34]));
    reveal_strlit("baseline.property.min-height");
    reveal_strlit("min-height");
    reveal_strlit("#propdef-min-height");
    CssFeatureId::lemma_spec_new_parts("baseline.property.min-height");
    assert(catalog_4::features()[35].spec_id()@[8] == '.');
    assert(catalog_4::features()[35].spec_id()@[0] != "excluded."@[0]);
    reveal_strlit("visudet.html#propdef-min-height");
    assert("visudet.html#propdef-min-height"@.skip(12) =~= "#propdef-"@ + "min-height"@);
    assert(feature_record_laws(catalog_4::features()[35]));
    reveal_strlit("baseline.property.max-width");
    reveal_strlit("max-width");
    reveal_strlit("#propdef-max-width");
    CssFeatureId::lemma_spec_new_parts("baseline.property.max-width");
    assert(catalog_4::features()[36].spec_id()@[8] == '.');
    assert(catalog_4::features()[36].spec_id()@[0] != "excluded."@[0]);
    reveal_strlit("visudet.html#propdef-max-width");
    assert("visudet.html#propdef-max-width"@.skip(12) =~= "#propdef-"@ + "max-width"@);
    assert(feature_record_laws(catalog_4::features()[36]));
    reveal_strlit("baseline.property.max-height");
    reveal_strlit("max-height");
    reveal_strlit("#propdef-max-height");
    CssFeatureId::lemma_spec_new_parts("baseline.property.max-height");
    assert(catalog_4::features()[37].spec_id()@[8] == '.');
    assert(catalog_4::features()[37].spec_id()@[0] != "excluded."@[0]);
    reveal_strlit("visudet.html#propdef-max-height");
    assert("visudet.html#propdef-max-height"@.skip(12) =~= "#propdef-"@ + "max-height"@);
    assert(feature_record_laws(catalog_4::features()[37]));
    reveal_strlit("baseline.property.flex-basis");
    reveal_strlit("flex-basis");
    reveal_strlit("#propdef-flex-basis");
    CssFeatureId::lemma_spec_new_parts("baseline.property.flex-basis");
    assert(catalog_4::features()[38].spec_id()@[8] == '.');
    assert(catalog_4::features()[38].spec_id()@[0] != "excluded."@[0]);
    assert("#propdef-flex-basis"@.skip(0) =~= "#propdef-"@ + "flex-basis"@);
    assert(feature_record_laws(catalog_4::features()[38]));
    reveal_strlit("baseline.property.gap");
    reveal_strlit("gap");
    reveal_strlit("#propdef-gap");
    CssFeatureId::lemma_spec_new_parts("baseline.property.gap");
    assert(catalog_4::features()[39].spec_id()@[8] == '.');
    assert(catalog_4::features()[39].spec_id()@[0] != "excluded."@[0]);
    assert("#propdef-gap"@.skip(0) =~= "#propdef-"@ + "gap"@);
    assert(feature_record_laws(catalog_4::features()[39]));
    reveal_strlit("baseline.property.row-gap");
    reveal_strlit("row-gap");
    reveal_strlit("#propdef-row-gap");
    CssFeatureId::lemma_spec_new_parts("baseline.property.row-gap");
    assert(catalog_4::features()[40].spec_id()@[8] == '.');
    assert(catalog_4::features()[40].spec_id()@[0] != "excluded."@[0]);
    assert("#propdef-row-gap"@.skip(0) =~= "#propdef-"@ + "row-gap"@);
    assert(feature_record_laws(catalog_4::features()[40]));
    reveal_strlit("baseline.property.column-gap");
    reveal_strlit("column-gap");
    reveal_strlit("#propdef-column-gap");
    CssFeatureId::lemma_spec_new_parts("baseline.property.column-gap");
    assert(catalog_4::features()[41].spec_id()@[8] == '.');
    assert(catalog_4::features()[41].spec_id()@[0] != "excluded."@[0]);
    assert("#propdef-column-gap"@.skip(0) =~= "#propdef-"@ + "column-gap"@);
    assert(feature_record_laws(catalog_4::features()[41]));
    reveal_strlit("baseline.property.grid-flow-tolerance");
    reveal_strlit("grid-flow-tolerance");
    reveal_strlit("#propdef-grid-flow-tolerance");
    CssFeatureId::lemma_spec_new_parts("baseline.property.grid-flow-tolerance");
    assert(catalog_4::features()[42].spec_id()@[8] == '.');
    assert(catalog_4::features()[42].spec_id()@[0] != "excluded."@[0]);
    assert("#propdef-grid-flow-tolerance"@.skip(0) =~= "#propdef-"@ + "grid-flow-tolerance"@);
    assert(feature_record_laws(catalog_4::features()[42]));
    reveal_strlit("The C07 structural grammar supports non-recursive integer track and fixed repeats, one fixed-size automatic repeat where permitted, and repeat-free automatic track-size lists.");
    reveal_strlit("Subgrid name-repeat and other unselected Grid 2 property grammar remain unsupported.");
    reveal_strlit("baseline.property.grid-template-rows");
    reveal_strlit("grid-template-rows");
    reveal_strlit("#propdef-grid-template-rows");
    CssFeatureId::lemma_spec_new_parts("baseline.property.grid-template-rows");
    assert(catalog_4::features()[43].spec_id()@[8] == '.');
    assert(catalog_4::features()[43].spec_id()@[0] != "excluded."@[0]);
    assert("#propdef-grid-template-rows"@.skip(0) =~= "#propdef-"@ + "grid-template-rows"@);
    assert(feature_record_laws(catalog_4::features()[43]));
    reveal_strlit("baseline.property.grid-template-columns");
    reveal_strlit("grid-template-columns");
    reveal_strlit("#propdef-grid-template-columns");
    CssFeatureId::lemma_spec_new_parts("baseline.property.grid-template-columns");
    assert(catalog_4::features()[44].spec_id()@[8] == '.');
    assert(catalog_4::features()[44].spec_id()@[0] != "excluded."@[0]);
    assert("#propdef-grid-template-columns"@.skip(0) =~= "#propdef-"@ + "grid-template-columns"@);
    assert(feature_record_laws(catalog_4::features()[44]));
    reveal_strlit("baseline.property.grid-template-areas");
    reveal_strlit("grid-template-areas");
    reveal_strlit("#propdef-grid-template-areas");
    CssFeatureId::lemma_spec_new_parts("baseline.property.grid-template-areas");
    assert(catalog_4::features()[45].spec_id()@[8] == '.');
    assert(catalog_4::features()[45].spec_id()@[0] != "excluded."@[0]);
    assert("#propdef-grid-template-areas"@.skip(0) =~= "#propdef-"@ + "grid-template-areas"@);
    assert(feature_record_laws(catalog_4::features()[45]));
    reveal_strlit("baseline.property.grid-template");
    reveal_strlit("grid-template");
    reveal_strlit("#propdef-grid-template");
    CssFeatureId::lemma_spec_new_parts("baseline.property.grid-template");
    assert(catalog_4::features()[46].spec_id()@[8] == '.');
    assert(catalog_4::features()[46].spec_id()@[0] != "excluded."@[0]);
    assert("#propdef-grid-template"@.skip(0) =~= "#propdef-"@ + "grid-template"@);
    assert(feature_record_laws(catalog_4::features()[46]));
    reveal_strlit("baseline.property.grid-auto-rows");
    reveal_strlit("grid-auto-rows");
    reveal_strlit("#propdef-grid-auto-rows");
    CssFeatureId::lemma_spec_new_parts("baseline.property.grid-auto-rows");
    assert(catalog_4::features()[47].spec_id()@[8] == '.');
    assert(catalog_4::features()[47].spec_id()@[0] != "excluded."@[0]);
    assert("#propdef-grid-auto-rows"@.skip(0) =~= "#propdef-"@ + "grid-auto-rows"@);
    assert(feature_record_laws(catalog_4::features()[47]));
    reveal_strlit("baseline.property.grid-auto-columns");
    reveal_strlit("grid-auto-columns");
    reveal_strlit("#propdef-grid-auto-columns");
    CssFeatureId::lemma_spec_new_parts("baseline.property.grid-auto-columns");
    assert(catalog_4::features()[48].spec_id()@[8] == '.');
    assert(catalog_4::features()[48].spec_id()@[0] != "excluded."@[0]);
    assert("#propdef-grid-auto-columns"@.skip(0) =~= "#propdef-"@ + "grid-auto-columns"@);
    assert(feature_record_laws(catalog_4::features()[48]));
    reveal_strlit("baseline.property.grid-auto-flow");
    reveal_strlit("grid-auto-flow");
    reveal_strlit("#propdef-grid-auto-flow");
    CssFeatureId::lemma_spec_new_parts("baseline.property.grid-auto-flow");
    assert(catalog_4::features()[49].spec_id()@[8] == '.');
    assert(catalog_4::features()[49].spec_id()@[0] != "excluded."@[0]);
    assert("#propdef-grid-auto-flow"@.skip(0) =~= "#propdef-"@ + "grid-auto-flow"@);
    assert(feature_record_laws(catalog_4::features()[49]));
    reveal_strlit("baseline.property.grid-row-start");
    reveal_strlit("grid-row-start");
    reveal_strlit("#propdef-grid-row-start");
    CssFeatureId::lemma_spec_new_parts("baseline.property.grid-row-start");
    assert(catalog_4::features()[50].spec_id()@[8] == '.');
    assert(catalog_4::features()[50].spec_id()@[0] != "excluded."@[0]);
    assert("#propdef-grid-row-start"@.skip(0) =~= "#propdef-"@ + "grid-row-start"@);
    assert(feature_record_laws(catalog_4::features()[50]));
    reveal_strlit("baseline.property.grid-row-end");
    reveal_strlit("grid-row-end");
    reveal_strlit("#propdef-grid-row-end");
    CssFeatureId::lemma_spec_new_parts("baseline.property.grid-row-end");
    assert(catalog_4::features()[51].spec_id()@[8] == '.');
    assert(catalog_4::features()[51].spec_id()@[0] != "excluded."@[0]);
    assert("#propdef-grid-row-end"@.skip(0) =~= "#propdef-"@ + "grid-row-end"@);
    assert(feature_record_laws(catalog_4::features()[51]));
    reveal_strlit("baseline.property.grid-column-start");
    reveal_strlit("grid-column-start");
    reveal_strlit("#propdef-grid-column-start");
    CssFeatureId::lemma_spec_new_parts("baseline.property.grid-column-start");
    assert(catalog_4::features()[52].spec_id()@[8] == '.');
    assert(catalog_4::features()[52].spec_id()@[0] != "excluded."@[0]);
    assert("#propdef-grid-column-start"@.skip(0) =~= "#propdef-"@ + "grid-column-start"@);
    assert(feature_record_laws(catalog_4::features()[52]));
    reveal_strlit("baseline.property.grid-column-end");
    reveal_strlit("grid-column-end");
    reveal_strlit("#propdef-grid-column-end");
    CssFeatureId::lemma_spec_new_parts("baseline.property.grid-column-end");
    assert(catalog_4::features()[53].spec_id()@[8] == '.');
    assert(catalog_4::features()[53].spec_id()@[0] != "excluded."@[0]);
    assert("#propdef-grid-column-end"@.skip(0) =~= "#propdef-"@ + "grid-column-end"@);
    assert(feature_record_laws(catalog_4::features()[53]));
    reveal_strlit("baseline.property.grid-row");
    reveal_strlit("grid-row");
    reveal_strlit("#propdef-grid-row");
    CssFeatureId::lemma_spec_new_parts("baseline.property.grid-row");
    assert(catalog_4::features()[54].spec_id()@[8] == '.');
    assert(catalog_4::features()[54].spec_id()@[0] != "excluded."@[0]);
    assert("#propdef-grid-row"@.skip(0) =~= "#propdef-"@ + "grid-row"@);
    assert(feature_record_laws(catalog_4::features()[54]));
    reveal_strlit("baseline.property.grid-column");
    reveal_strlit("grid-column");
    reveal_strlit("#propdef-grid-column");
    CssFeatureId::lemma_spec_new_parts("baseline.property.grid-column");
    assert(catalog_4::features()[55].spec_id()@[8] == '.');
    assert(catalog_4::features()[55].spec_id()@[0] != "excluded."@[0]);
    assert("#propdef-grid-column"@.skip(0) =~= "#propdef-"@ + "grid-column"@);
    assert(feature_record_laws(catalog_4::features()[55]));
    reveal_strlit("baseline.property.grid-area");
    reveal_strlit("grid-area");
    reveal_strlit("#propdef-grid-area");
    CssFeatureId::lemma_spec_new_parts("baseline.property.grid-area");
    assert(catalog_4::features()[56].spec_id()@[8] == '.');
    assert(catalog_4::features()[56].spec_id()@[0] != "excluded."@[0]);
    assert("#propdef-grid-area"@.skip(0) =~= "#propdef-"@ + "grid-area"@);
    assert(feature_record_laws(catalog_4::features()[56]));
    reveal_strlit("baseline.property.grid");
    reveal_strlit("grid");
    reveal_strlit("#propdef-grid");
    CssFeatureId::lemma_spec_new_parts("baseline.property.grid");
    assert(catalog_4::features()[57].spec_id()@[8] == '.');
    assert(catalog_4::features()[57].spec_id()@[0] != "excluded."@[0]);
    assert("#propdef-grid"@.skip(0) =~= "#propdef-"@ + "grid"@);
    assert(feature_record_laws(catalog_4::features()[57]));
    reveal_strlit("baseline.property.font-size");
    reveal_strlit("font-size");
    reveal_strlit("#propdef-font-size");
    CssFeatureId::lemma_spec_new_parts("baseline.property.font-size");
    assert(catalog_4::features()[58].spec_id()@[8] == '.');
    assert(catalog_4::features()[58].spec_id()@[0] != "excluded."@[0]);
    assert("#propdef-font-size"@.skip(0) =~= "#propdef-"@ + "font-size"@);
    assert(feature_record_laws(catalog_4::features()[58]));
    reveal_strlit("baseline.property.line-height");
    reveal_strlit("line-height");
    reveal_strlit("#propdef-line-height");
    CssFeatureId::lemma_spec_new_parts("baseline.property.line-height");
    assert(catalog_4::features()[59].spec_id()@[8] == '.');
    assert(catalog_4::features()[59].spec_id()@[0] != "excluded."@[0]);
    reveal_strlit("visudet.html#propdef-line-height");
    assert("visudet.html#propdef-line-height"@.skip(12) =~= "#propdef-"@ + "line-height"@);
    assert(feature_record_laws(catalog_4::features()[59]));
}

#[verifier::rlimit(100)]
proof fn lemma_catalog_5_laws()
    ensures
        forall|i: int| 0 <= i < catalog_5::features().len() ==> feature_record_laws(#[trigger] catalog_5::features()[i]),
{
    broadcast use {CssFeatureMetadata::lemma_complete_parts, CssFeatureMetadata::lemma_partial_parts, CssFeatureMetadata::lemma_baseline_alias_parts, CssFeatureMetadata::lemma_recognized_unsupported_parts, CssFeatureMetadata::lemma_partial_property_parts, CssFeatureMetadata::lemma_complete_property_parts, CssFeatureMetadata::lemma_partial_property_with_boundary_parts};

    reveal(catalog_5::features);
    reveal(spec_specification_sources);
    reveal(sources::source_list);
    reveal(spec_property_source);
    reveal(spec_property_production);
    lemma_property_sources_registered();
    reveal_strlit("#propdef-");
    assert(sources::source_list()[45] == i_fonts4());
    reveal_strlit("The property-specific parser behavior at 4b288d6:src/parser/mod.rs, plus whole-value CSS-wide keywords and syntactically admissible substitution-dependent authored values, is supported.");
    reveal_strlit("Other valid forms of the cited property production are outside the I01 subset.");
    reveal_strlit("excluded.");
    reveal_strlit("baseline.property.writing-mode");
    reveal_strlit("writing-mode");
    reveal_strlit("#propdef-writing-mode");
    CssFeatureId::lemma_spec_new_parts("baseline.property.writing-mode");
    assert(catalog_5::features()[0].spec_id()@[8] == '.');
    assert(catalog_5::features()[0].spec_id()@[0] != "excluded."@[0]);
    assert("#propdef-writing-mode"@.skip(0) =~= "#propdef-"@ + "writing-mode"@);
    assert(feature_record_laws(catalog_5::features()[0]));
    reveal_strlit("baseline.property.text-align");
    reveal_strlit("text-align");
    reveal_strlit("#propdef-text-align");
    CssFeatureId::lemma_spec_new_parts("baseline.property.text-align");
    assert(catalog_5::features()[1].spec_id()@[8] == '.');
    assert(catalog_5::features()[1].spec_id()@[0] != "excluded."@[0]);
    reveal_strlit("text.html#propdef-text-align");
    assert("text.html#propdef-text-align"@.skip(9) =~= "#propdef-"@ + "text-align"@);
    assert(feature_record_laws(catalog_5::features()[1]));
    reveal_strlit("baseline.property.text-align-last");
    reveal_strlit("text-align-last");
    reveal_strlit("#propdef-text-align-last");
    CssFeatureId::lemma_spec_new_parts("baseline.property.text-align-last");
    assert(catalog_5::features()[2].spec_id()@[8] == '.');
    assert(catalog_5::features()[2].spec_id()@[0] != "excluded."@[0]);
    assert("#propdef-text-align-last"@.skip(0) =~= "#propdef-"@ + "text-align-last"@);
    assert(feature_record_laws(catalog_5::features()[2]));
    reveal_strlit("baseline.property.text-indent");
    reveal_strlit("text-indent");
    reveal_strlit("#propdef-text-indent");
    CssFeatureId::lemma_spec_new_parts("baseline.property.text-indent");
    assert(catalog_5::features()[3].spec_id()@[8] == '.');
    assert(catalog_5::features()[3].spec_id()@[0] != "excluded."@[0]);
    reveal_strlit("text.html#propdef-text-indent");
    assert("text.html#propdef-text-indent"@.skip(9) =~= "#propdef-"@ + "text-indent"@);
    assert(feature_record_laws(catalog_5::features()[3]));
    reveal_strlit("baseline.property.vertical-align");
    reveal_strlit("vertical-align");
    reveal_strlit("#propdef-vertical-align");
    CssFeatureId::lemma_spec_new_parts("baseline.property.vertical-align");
    assert(catalog_5::features()[4].spec_id()@[8] == '.');
    assert(catalog_5::features()[4].spec_id()@[0] != "excluded."@[0]);
    reveal_strlit("visudet.html#propdef-vertical-align");
    assert("visudet.html#propdef-vertical-align"@.skip(12) =~= "#propdef-"@ + "vertical-align"@);
    assert(feature_record_laws(catalog_5::features()[4]));
    reveal_strlit("baseline.property.font-family");
    reveal_strlit("font-family");
    reveal_strlit("#propdef-font-family");
    CssFeatureId::lemma_spec_new_parts("baseline.property.font-family");
    assert(catalog_5::features()[5].spec_id()@[8] == '.');
    assert(catalog_5::features()[5].spec_id()@[0] != "excluded."@[0]);
    assert("#propdef-font-family"@.skip(0) =~= "#propdef-"@ + "font-family"@);
    assert(feature_record_laws(catalog_5::features()[5]));
    reveal_strlit("baseline.property.font");
    reveal_strlit("font");
    reveal_strlit("#propdef-font");
    CssFeatureId::lemma_spec_new_parts("baseline.property.font");
    assert(catalog_5::features()[6].spec_id()@[8] == '.');
    assert(catalog_5::features()[6].spec_id()@[0] != "excluded."@[0]);
    assert("#propdef-font"@.skip(0) =~= "#propdef-"@ + "font"@);
    assert(feature_record_laws(catalog_5::features()[6]));
    reveal_strlit("baseline.property.font-weight");
    reveal_strlit("font-weight");
    reveal_strlit("#propdef-font-weight");
    CssFeatureId::lemma_spec_new_parts("baseline.property.font-weight");
    assert(catalog_5::features()[7].spec_id()@[8] == '.');
    assert(catalog_5::features()[7].spec_id()@[0] != "excluded."@[0]);
    assert("#propdef-font-weight"@.skip(0) =~= "#propdef-"@ + "font-weight"@);
    assert(feature_record_laws(catalog_5::features()[7]));
    reveal_strlit("baseline.property.font-style");
    reveal_strlit("font-style");
    reveal_strlit("#propdef-font-style");
    CssFeatureId::lemma_spec_new_parts("baseline.property.font-style");
    assert(catalog_5::features()[8].spec_id()@[8] == '.');
    assert(catalog_5::features()[8].spec_id()@[0] != "excluded."@[0]);
    assert("#propdef-font-style"@.skip(0) =~= "#propdef-"@ + "font-style"@);
    assert(feature_record_laws(catalog_5::features()[8]));
    reveal_strlit("baseline.property.font-stretch");
    reveal_strlit("font-stretch");
    reveal_strlit("#propdef-font-stretch");
    CssFeatureId::lemma_spec_new_parts("baseline.property.font-stretch");
    assert(catalog_5::features()[9].spec_id()@[8] == '.');
    assert(catalog_5::features()[9].spec_id()@[0] != "excluded."@[0]);
    assert("#propdef-font-stretch"@.skip(0) =~= "#propdef-"@ + "font-stretch"@);
    assert(feature_record_laws(catalog_5::features()[9]));
    reveal_strlit("baseline.property.font-variant");
    reveal_strlit("font-variant");
    reveal_strlit("#propdef-font-variant");
    CssFeatureId::lemma_spec_new_parts("baseline.property.font-variant");
    assert(catalog_5::features()[10].spec_id()@[8] == '.');
    assert(catalog_5::features()[10].spec_id()@[0] != "excluded."@[0]);
    assert("#propdef-font-variant"@.skip(0) =~= "#propdef-"@ + "font-variant"@);
    assert(feature_record_laws(catalog_5::features()[10]));
    reveal_strlit("official.property.font-variant-caps");
    reveal_strlit("font-variant-caps");
    reveal_strlit("#propdef-font-variant-caps");
    CssFeatureId::lemma_spec_new_parts("official.property.font-variant-caps");
    assert(catalog_5::features()[11].spec_id()@[8] == '.');
    assert(catalog_5::features()[11].spec_id()@[0] != "excluded."@[0]);
    assert("#propdef-font-variant-caps"@.skip(0) =~= "#propdef-"@ + "font-variant-caps"@);
    assert(feature_record_laws(catalog_5::features()[11]));
    reveal_strlit("official.property.font-variant-east-asian");
    reveal_strlit("font-variant-east-asian");
    reveal_strlit("#propdef-font-variant-east-asian");
    CssFeatureId::lemma_spec_new_parts("official.property.font-variant-east-asian");
    assert(catalog_5::features()[12].spec_id()@[8] == '.');
    assert(catalog_5::features()[12].spec_id()@[0] != "excluded."@[0]);
    assert("#propdef-font-variant-east-asian"@.skip(0) =~= "#propdef-"@ + "font-variant-east-asian"@);
    assert(feature_record_laws(catalog_5::features()[12]));
    reveal_strlit("official.property.font-variant-ligatures");
    reveal_strlit("font-variant-ligatures");
    reveal_strlit("#propdef-font-variant-ligatures");
    CssFeatureId::lemma_spec_new_parts("official.property.font-variant-ligatures");
    assert(catalog_5::features()[13].spec_id()@[8] == '.');
    assert(catalog_5::features()[13].spec_id()@[0] != "excluded."@[0]);
    assert("#propdef-font-variant-ligatures"@.skip(0) =~= "#propdef-"@ + "font-variant-ligatures"@);
    assert(feature_record_laws(catalog_5::features()[13]));
    reveal_strlit("official.property.font-variant-numeric");
    reveal_strlit("font-variant-numeric");
    reveal_strlit("#propdef-font-variant-numeric");
    CssFeatureId::lemma_spec_new_parts("official.property.font-variant-numeric");
    assert(catalog_5::features()[14].spec_id()@[8] == '.');
    assert(catalog_5::features()[14].spec_id()@[0] != "excluded."@[0]);
    assert("#propdef-font-variant-numeric"@.skip(0) =~= "#propdef-"@ + "font-variant-numeric"@);
    assert(feature_record_laws(catalog_5::features()[14]));
    reveal_strlit("official.property.font-variant-position");
    reveal_strlit("font-variant-position");
    reveal_strlit("#propdef-font-variant-position");
    CssFeatureId::lemma_spec_new_parts("official.property.font-variant-position");
    assert(catalog_5::features()[15].spec_id()@[8] == '.');
    assert(catalog_5::features()[15].spec_id()@[0] != "excluded."@[0]);
    assert("#propdef-font-variant-position"@.skip(0) =~= "#propdef-"@ + "font-variant-position"@);
    assert(feature_record_laws(catalog_5::features()[15]));
    reveal_strlit("baseline.property.font-feature-settings");
    reveal_strlit("font-feature-settings");
    reveal_strlit("#propdef-font-feature-settings");
    CssFeatureId::lemma_spec_new_parts("baseline.property.font-feature-settings");
    assert(catalog_5::features()[16].spec_id()@[8] == '.');
    assert(catalog_5::features()[16].spec_id()@[0] != "excluded."@[0]);
    assert("#propdef-font-feature-settings"@.skip(0) =~= "#propdef-"@ + "font-feature-settings"@);
    assert(feature_record_laws(catalog_5::features()[16]));
    reveal_strlit("official.property.font-kerning");
    reveal_strlit("font-kerning");
    reveal_strlit("#propdef-font-kerning");
    CssFeatureId::lemma_spec_new_parts("official.property.font-kerning");
    assert(catalog_5::features()[17].spec_id()@[8] == '.');
    assert(catalog_5::features()[17].spec_id()@[0] != "excluded."@[0]);
    assert("#propdef-font-kerning"@.skip(0) =~= "#propdef-"@ + "font-kerning"@);
    assert(feature_record_laws(catalog_5::features()[17]));
    reveal_strlit("official.property.font-size-adjust");
    reveal_strlit("font-size-adjust");
    reveal_strlit("#propdef-font-size-adjust");
    CssFeatureId::lemma_spec_new_parts("official.property.font-size-adjust");
    assert(catalog_5::features()[18].spec_id()@[8] == '.');
    assert(catalog_5::features()[18].spec_id()@[0] != "excluded."@[0]);
    assert("#propdef-font-size-adjust"@.skip(0) =~= "#propdef-"@ + "font-size-adjust"@);
    assert(feature_record_laws(catalog_5::features()[18]));
    reveal_strlit("official.property.font-synthesis");
    reveal_strlit("font-synthesis");
    reveal_strlit("#propdef-font-synthesis");
    CssFeatureId::lemma_spec_new_parts("official.property.font-synthesis");
    assert(catalog_5::features()[19].spec_id()@[8] == '.');
    assert(catalog_5::features()[19].spec_id()@[0] != "excluded."@[0]);
    assert("#propdef-font-synthesis"@.skip(0) =~= "#propdef-"@ + "font-synthesis"@);
    assert(feature_record_laws(catalog_5::features()[19]));
    reveal_strlit("Integer font-weight values from 1 through 1000 are supported.");
    reveal_strlit("Other unselected Fonts 4 font-weight property grammar remains unsupported.");
    reveal_strlit("ext.property.font-weight-range");
    reveal_strlit("font-weight numeric range");
    reveal_strlit("#font-weight-prop");
    CssFeatureId::lemma_spec_new_parts("ext.property.font-weight-range");
    assert(catalog_5::features()[20].spec_id()@[3] == '.');
    assert(catalog_5::features()[20].spec_id()@[2] != "excluded."@[2]);
    assert(feature_record_laws(catalog_5::features()[20]));
    reveal_strlit("baseline.property.letter-spacing");
    reveal_strlit("letter-spacing");
    reveal_strlit("#propdef-letter-spacing");
    CssFeatureId::lemma_spec_new_parts("baseline.property.letter-spacing");
    assert(catalog_5::features()[21].spec_id()@[8] == '.');
    assert(catalog_5::features()[21].spec_id()@[0] != "excluded."@[0]);
    reveal_strlit("text.html#propdef-letter-spacing");
    assert("text.html#propdef-letter-spacing"@.skip(9) =~= "#propdef-"@ + "letter-spacing"@);
    assert(feature_record_laws(catalog_5::features()[21]));
    reveal_strlit("baseline.property.text-wrap");
    reveal_strlit("text-wrap");
    reveal_strlit("#propdef-text-wrap");
    CssFeatureId::lemma_spec_new_parts("baseline.property.text-wrap");
    assert(catalog_5::features()[22].spec_id()@[8] == '.');
    assert(catalog_5::features()[22].spec_id()@[0] != "excluded."@[0]);
    assert("#propdef-text-wrap"@.skip(0) =~= "#propdef-"@ + "text-wrap"@);
    assert(feature_record_laws(catalog_5::features()[22]));
    reveal_strlit("baseline.property.white-space");
    reveal_strlit("white-space");
    reveal_strlit("#propdef-white-space");
    CssFeatureId::lemma_spec_new_parts("baseline.property.white-space");
    assert(catalog_5::features()[23].spec_id()@[8] == '.');
    assert(catalog_5::features()[23].spec_id()@[0] != "excluded."@[0]);
    reveal_strlit("text.html#propdef-white-space");
    assert("text.html#propdef-white-space"@.skip(9) =~= "#propdef-"@ + "white-space"@);
    assert(feature_record_laws(catalog_5::features()[23]));
    reveal_strlit("baseline.property.word-break");
    reveal_strlit("word-break");
    reveal_strlit("#propdef-word-break");
    CssFeatureId::lemma_spec_new_parts("baseline.property.word-break");
    assert(catalog_5::features()[24].spec_id()@[8] == '.');
    assert(catalog_5::features()[24].spec_id()@[0] != "excluded."@[0]);
    assert("#propdef-word-break"@.skip(0) =~= "#propdef-"@ + "word-break"@);
    assert(feature_record_laws(catalog_5::features()[24]));
    reveal_strlit("baseline.property.overflow-wrap");
    reveal_strlit("overflow-wrap");
    reveal_strlit("#propdef-overflow-wrap");
    CssFeatureId::lemma_spec_new_parts("baseline.property.overflow-wrap");
    assert(catalog_5::features()[25].spec_id()@[8] == '.');
    assert(catalog_5::features()[25].spec_id()@[0] != "excluded."@[0]);
    assert("#propdef-overflow-wrap"@.skip(0) =~= "#propdef-"@ + "overflow-wrap"@);
    assert(feature_record_laws(catalog_5::features()[25]));
    reveal_strlit("baseline.property.text-overflow");
    reveal_strlit("text-overflow");
    reveal_strlit("#propdef-text-overflow");
    CssFeatureId::lemma_spec_new_parts("baseline.property.text-overflow");
    assert(catalog_5::features()[26].spec_id()@[8] == '.');
    assert(catalog_5::features()[26].spec_id()@[0] != "excluded."@[0]);
    assert("#propdef-text-overflow"@.skip(0) =~= "#propdef-"@ + "text-overflow"@);
    assert(feature_record_laws(catalog_5::features()[26]));
    reveal_strlit("baseline.property.text-decoration");
    reveal_strlit("text-decoration");
    reveal_strlit("#propdef-text-decoration");
    CssFeatureId::lemma_spec_new_parts("baseline.property.text-decoration");
    assert(catalog_5::features()[27].spec_id()@[8] == '.');
    assert(catalog_5::features()[27].spec_id()@[0] != "excluded."@[0]);
    reveal_strlit("text.html#propdef-text-decoration");
    assert("text.html#propdef-text-decoration"@.skip(9) =~= "#propdef-"@ + "text-decoration"@);
    assert(feature_record_laws(catalog_5::features()[27]));
    reveal_strlit("baseline.property.text-decoration-line");
    reveal_strlit("text-decoration-line");
    reveal_strlit("#propdef-text-decoration-line");
    CssFeatureId::lemma_spec_new_parts("baseline.property.text-decoration-line");
    assert(catalog_5::features()[28].spec_id()@[8] == '.');
    assert(catalog_5::features()[28].spec_id()@[0] != "excluded."@[0]);
    assert("#propdef-text-decoration-line"@.skip(0) =~= "#propdef-"@ + "text-decoration-line"@);
    assert(feature_record_laws(catalog_5::features()[28]));
    reveal_strlit("baseline.property.text-decoration-color");
    reveal_strlit("text-decoration-color");
    reveal_strlit("#propdef-text-decoration-color");
    CssFeatureId::lemma_spec_new_parts("baseline.property.text-decoration-color");
    assert(catalog_5::features()[29].spec_id()@[8] == '.');
    assert(catalog_5::features()[29].spec_id()@[0] != "excluded."@[0]);
    assert("#propdef-text-decoration-color"@.skip(0) =~= "#propdef-"@ + "text-decoration-color"@);
    assert(feature_record_laws(catalog_5::features()[29]));
    reveal_strlit("baseline.property.text-decoration-style");
    reveal_strlit("text-decoration-style");
    reveal_strlit("#propdef-text-decoration-style");
    CssFeatureId::lemma_spec_new_parts("baseline.property.text-decoration-style");
    assert(catalog_5::features()[30].spec_id()@[8] == '.');
    assert(catalog_5::features()[30].spec_id()@[0] != "excluded."@[0]);
    assert("#propdef-text-decoration-style"@.skip(0) =~= "#propdef-"@ + "text-decoration-style"@);
    assert(feature_record_laws(catalog_5::features()[30]));
    reveal_strlit("baseline.property.text-decoration-thickness");
    reveal_strlit("text-decoration-thickness");
    reveal_strlit("#propdef-text-decoration-thickness");
    CssFeatureId::lemma_spec_new_parts("baseline.property.text-decoration-thickness");
    assert(catalog_5::features()[31].spec_id()@[8] == '.');
    assert(catalog_5::features()[31].spec_id()@[0] != "excluded."@[0]);
    assert("#propdef-text-decoration-thickness"@.skip(0) =~= "#propdef-"@ + "text-decoration-thickness"@);
    assert(feature_record_laws(catalog_5::features()[31]));
    reveal_strlit("baseline.property.text-transform");
    reveal_strlit("text-transform");
    reveal_strlit("#propdef-text-transform");
    CssFeatureId::lemma_spec_new_parts("baseline.property.text-transform");
    assert(catalog_5::features()[32].spec_id()@[8] == '.');
    assert(catalog_5::features()[32].spec_id()@[0] != "excluded."@[0]);
    reveal_strlit("text.html#propdef-text-transform");
    assert("text.html#propdef-text-transform"@.skip(9) =~= "#propdef-"@ + "text-transform"@);
    assert(feature_record_laws(catalog_5::features()[32]));
    reveal_strlit("baseline.property.inset");
    reveal_strlit("inset");
    reveal_strlit("#propdef-inset");
    CssFeatureId::lemma_spec_new_parts("baseline.property.inset");
    assert(catalog_5::features()[33].spec_id()@[8] == '.');
    assert(catalog_5::features()[33].spec_id()@[0] != "excluded."@[0]);
    assert("#propdef-inset"@.skip(0) =~= "#propdef-"@ + "inset"@);
    assert(feature_record_laws(catalog_5::features()[33]));
    reveal_strlit("baseline.property.top");
    reveal_strlit("top");
    reveal_strlit("#propdef-top");
    CssFeatureId::lemma_spec_new_parts("baseline.property.top");
    assert(catalog_5::features()[34].spec_id()@[8] == '.');
    assert(catalog_5::features()[34].spec_id()@[0] != "excluded."@[0]);
    reveal_strlit("visuren.html#propdef-top");
    assert("visuren.html#propdef-top"@.skip(12) =~= "#propdef-"@ + "top"@);
    assert(feature_record_laws(catalog_5::features()[34]));
    reveal_strlit("baseline.property.right");
    reveal_strlit("right");
    reveal_strlit("#propdef-right");
    CssFeatureId::lemma_spec_new_parts("baseline.property.right");
    assert(catalog_5::features()[35].spec_id()@[8] == '.');
    assert(catalog_5::features()[35].spec_id()@[0] != "excluded."@[0]);
    reveal_strlit("visuren.html#propdef-right");
    assert("visuren.html#propdef-right"@.skip(12) =~= "#propdef-"@ + "right"@);
    assert(feature_record_laws(catalog_5::features()[35]));
    reveal_strlit("baseline.property.bottom");
    reveal_strlit("bottom");
    reveal_strlit("#propdef-bottom");
    CssFeatureId::lemma_spec_new_parts("baseline.property.bottom");
    assert(catalog_5::features()[36].spec_id()@[8] == '.');
    assert(catalog_5::features()[36].spec_id()@[0] != "excluded."@[0]);
    reveal_strlit("visuren.html#propdef-bottom");
    assert("visuren.html#propdef-bottom"@.skip(12) =~= "#propdef-"@ + "bottom"@);
    assert(feature_record_laws(catalog_5::features()[36]));
    reveal_strlit("baseline.property.left");
    reveal_strlit("left");
    reveal_strlit("#propdef-left");
    CssFeatureId::lemma_spec_new_parts("baseline.property.left");
    assert(catalog_5::features()[37].spec_id()@[8] == '.');
    assert(catalog_5::features()[37].spec_id()@[0] != "excluded."@[0]);
    reveal_strlit("visuren.html#propdef-left");
    assert("visuren.html#propdef-left"@.skip(12) =~= "#propdef-"@ + "left"@);
    assert(feature_record_laws(catalog_5::features()[37]));
    reveal_strlit("baseline.property.z-index");
    reveal_strlit("z-index");
    reveal_strlit("#propdef-z-index");
    CssFeatureId::lemma_spec_new_parts("baseline.property.z-index");
    assert(catalog_5::features()[38].spec_id()@[8] == '.');
    assert(catalog_5::features()[38].spec_id()@[0] != "excluded."@[0]);
    reveal_strlit("visuren.html#propdef-z-index");
    assert("visuren.html#propdef-z-index"@.skip(12) =~= "#propdef-"@ + "z-index"@);
    assert(feature_record_laws(catalog_5::features()[38]));
    reveal_strlit("baseline.property.box-decoration-break");
    reveal_strlit("box-decoration-break");
    reveal_strlit("#propdef-box-decoration-break");
    CssFeatureId::lemma_spec_new_parts("baseline.property.box-decoration-break");
    assert(catalog_5::features()[39].spec_id()@[8] == '.');
    assert(catalog_5::features()[39].spec_id()@[0] != "excluded."@[0]);
    assert("#propdef-box-decoration-break"@.skip(0) =~= "#propdef-"@ + "box-decoration-break"@);
    assert(feature_record_laws(catalog_5::features()[39]));
    reveal_strlit("baseline.property.margin");
    reveal_strlit("margin");
    reveal_strlit("#propdef-margin");
    CssFeatureId::lemma_spec_new_parts("baseline.property.margin");
    assert(catalog_5::features()[40].spec_id()@[8] == '.');
    assert(catalog_5::features()[40].spec_id()@[0] != "excluded."@[0]);
    assert("#propdef-margin"@.skip(0) =~= "#propdef-"@ + "margin"@);
    assert(feature_record_laws(catalog_5::features()[40]));
    reveal_strlit("baseline.property.margin-top");
    reveal_strlit("margin-top");
    reveal_strlit("#propdef-margin-top");
    CssFeatureId::lemma_spec_new_parts("baseline.property.margin-top");
    assert(catalog_5::features()[41].spec_id()@[8] == '.');
    assert(catalog_5::features()[41].spec_id()@[0] != "excluded."@[0]);
    assert("#propdef-margin-top"@.skip(0) =~= "#propdef-"@ + "margin-top"@);
    assert(feature_record_laws(catalog_5::features()[41]));
    reveal_strlit("baseline.property.margin-right");
    reveal_strlit("margin-right");
    reveal_strlit("#propdef-margin-right");
    CssFeatureId::lemma_spec_new_parts("baseline.property.margin-right");
    assert(catalog_5::features()[42].spec_id()@[8] == '.');
    assert(catalog_5::features()[42].spec_id()@[0] != "excluded."@[0]);
    assert("#propdef-margin-right"@.skip(0) =~= "#propdef-"@ + "margin-right"@);
    assert(feature_record_laws(catalog_5::features()[42]));
    reveal_strlit("baseline.property.margin-bottom");
    reveal_strlit("margin-bottom");
    reveal_strlit("#propdef-margin-bottom");
    CssFeatureId::lemma_spec_new_parts("baseline.property.margin-bottom");
    assert(catalog_5::features()[43].spec_id()@[8] == '.');
    assert(catalog_5::features()[43].spec_id()@[0] != "excluded."@[0]);
    assert("#propdef-margin-bottom"@.skip(0) =~= "#propdef-"@ + "margin-bottom"@);
    assert(feature_record_laws(catalog_5::features()[43]));
    reveal_strlit("baseline.property.margin-left");
    reveal_strlit("margin-left");
    reveal_strlit("#propdef-margin-left");
    CssFeatureId::lemma_spec_new_parts("baseline.property.margin-left");
    assert(catalog_5::features()[44].spec_id()@[8] == '.');
    assert(catalog_5::features()[44].spec_id()@[0] != "excluded."@[0]);
    assert("#propdef-margin-left"@.skip(0) =~= "#propdef-"@ + "margin-left"@);
    assert(feature_record_laws(catalog_5::features()[44]));
    reveal_strlit("baseline.property.padding");
    reveal_strlit("padding");
    reveal_strlit("#propdef-padding");
    CssFeatureId::lemma_spec_new_parts("baseline.property.padding");
    assert(catalog_5::features()[45].spec_id()@[8] == '.');
    assert(catalog_5::features()[45].spec_id()@[0] != "excluded."@[0]);
    assert("#propdef-padding"@.skip(0) =~= "#propdef-"@ + "padding"@);
    assert(feature_record_laws(catalog_5::features()[45]));
    reveal_strlit("baseline.property.padding-top");
    reveal_strlit("padding-top");
    reveal_strlit("#propdef-padding-top");
    CssFeatureId::lemma_spec_new_parts("baseline.property.padding-top");
    assert(catalog_5::features()[46].spec_id()@[8] == '.');
    assert(catalog_5::features()[46].spec_id()@[0] != "excluded."@[0]);
    assert("#propdef-padding-top"@.skip(0) =~= "#propdef-"@ + "padding-top"@);
    assert(feature_record_laws(catalog_5::features()[46]));
    reveal_strlit("baseline.property.padding-right");
    reveal_strlit("padding-right");
    reveal_strlit("#propdef-padding-right");
    CssFeatureId::lemma_spec_new_parts("baseline.property.padding-right");
    assert(catalog_5::features()[47].spec_id()@[8] == '.');
    assert(catalog_5::features()[47].spec_id()@[0] != "excluded."@[0]);
    assert("#propdef-padding-right"@.skip(0) =~= "#propdef-"@ + "padding-right"@);
    assert(feature_record_laws(catalog_5::features()[47]));
    reveal_strlit("baseline.property.padding-bottom");
    reveal_strlit("padding-bottom");
    reveal_strlit("#propdef-padding-bottom");
    CssFeatureId::lemma_spec_new_parts("baseline.property.padding-bottom");
    assert(catalog_5::features()[48].spec_id()@[8] == '.');
    assert(catalog_5::features()[48].spec_id()@[0] != "excluded."@[0]);
    assert("#propdef-padding-bottom"@.skip(0) =~= "#propdef-"@ + "padding-bottom"@);
    assert(feature_record_laws(catalog_5::features()[48]));
    reveal_strlit("baseline.property.padding-left");
    reveal_strlit("padding-left");
    reveal_strlit("#propdef-padding-left");
    CssFeatureId::lemma_spec_new_parts("baseline.property.padding-left");
    assert(catalog_5::features()[49].spec_id()@[8] == '.');
    assert(catalog_5::features()[49].spec_id()@[0] != "excluded."@[0]);
    assert("#propdef-padding-left"@.skip(0) =~= "#propdef-"@ + "padding-left"@);
    assert(feature_record_laws(catalog_5::features()[49]));
    reveal_strlit("baseline.property.border");
    reveal_strlit("border");
    reveal_strlit("#propdef-border");
    CssFeatureId::lemma_spec_new_parts("baseline.property.border");
    assert(catalog_5::features()[50].spec_id()@[8] == '.');
    assert(catalog_5::features()[50].spec_id()@[0] != "excluded."@[0]);
    assert("#propdef-border"@.skip(0) =~= "#propdef-"@ + "border"@);
    assert(feature_record_laws(catalog_5::features()[50]));
    reveal_strlit("baseline.property.border-top");
    reveal_strlit("border-top");
    reveal_strlit("#propdef-border-top");
    CssFeatureId::lemma_spec_new_parts("baseline.property.border-top");
    assert(catalog_5::features()[51].spec_id()@[8] == '.');
    assert(catalog_5::features()[51].spec_id()@[0] != "excluded."@[0]);
    assert("#propdef-border-top"@.skip(0) =~= "#propdef-"@ + "border-top"@);
    assert(feature_record_laws(catalog_5::features()[51]));
    reveal_strlit("baseline.property.border-right");
    reveal_strlit("border-right");
    reveal_strlit("#propdef-border-right");
    CssFeatureId::lemma_spec_new_parts("baseline.property.border-right");
    assert(catalog_5::features()[52].spec_id()@[8] == '.');
    assert(catalog_5::features()[52].spec_id()@[0] != "excluded."@[0]);
    assert("#propdef-border-right"@.skip(0) =~= "#propdef-"@ + "border-right"@);
    assert(feature_record_laws(catalog_5::features()[52]));
    reveal_strlit("baseline.property.border-bottom");
    reveal_strlit("border-bottom");
    reveal_strlit("#propdef-border-bottom");
    CssFeatureId::lemma_spec_new_parts("baseline.property.border-bottom");
    assert(catalog_5::features()[53].spec_id()@[8] == '.');
    assert(catalog_5::features()[53].spec_id()@[0] != "excluded."@[0]);
    assert("#propdef-border-bottom"@.skip(0) =~= "#propdef-"@ + "border-bottom"@);
    assert(feature_record_laws(catalog_5::features()[53]));
    reveal_strlit("baseline.property.border-left");
    reveal_strlit("border-left");
    reveal_strlit("#propdef-border-left");
    CssFeatureId::lemma_spec_new_parts("baseline.property.border-left");
    assert(catalog_5::features()[54].spec_id()@[8] == '.');
    assert(catalog_5::features()[54].spec_id()@[0] != "excluded."@[0]);
    assert("#propdef-border-left"@.skip(0) =~= "#propdef-"@ + "border-left"@);
    assert(feature_record_laws(catalog_5::features()[54]));
    reveal_strlit("baseline.property.border-width");
    reveal_strlit("border-width");
    reveal_strlit("#propdef-border-width");
    CssFeatureId::lemma_spec_new_parts("baseline.property.border-width");
    assert(catalog_5::features()[55].spec_id()@[8] == '.');
    assert(catalog_5::features()[55].spec_id()@[0] != "excluded."@[0]);
    assert("#propdef-border-width"@.skip(0) =~= "#propdef-"@ + "border-width"@);
    assert(feature_record_laws(catalog_5::features()[55]));
    reveal_strlit("baseline.property.border-top-width");
    reveal_strlit("border-top-width");
    reveal_strlit("#propdef-border-top-width");
    CssFeatureId::lemma_spec_new_parts("baseline.property.border-top-width");
    assert(catalog_5::features()[56].spec_id()@[8] == '.');
    assert(catalog_5::features()[56].spec_id()@[0] != "excluded."@[0]);
    assert("#propdef-border-top-width"@.skip(0) =~= "#propdef-"@ + "border-top-width"@);
    assert(feature_record_laws(catalog_5::features()[56]));
    reveal_strlit("baseline.property.border-right-width");
    reveal_strlit("border-right-width");
    reveal_strlit("#propdef-border-right-width");
    CssFeatureId::lemma_spec_new_parts("baseline.property.border-right-width");
    assert(catalog_5::features()[57].spec_id()@[8] == '.');
    assert(catalog_5::features()[57].spec_id()@[0] != "excluded."@[0]);
    assert("#propdef-border-right-width"@.skip(0) =~= "#propdef-"@ + "border-right-width"@);
    assert(feature_record_laws(catalog_5::features()[57]));
    reveal_strlit("baseline.property.border-bottom-width");
    reveal_strlit("border-bottom-width");
    reveal_strlit("#propdef-border-bottom-width");
    CssFeatureId::lemma_spec_new_parts("baseline.property.border-bottom-width");
    assert(catalog_5::features()[58].spec_id()@[8] == '.');
    assert(catalog_5::features()[58].spec_id()@[0] != "excluded."@[0]);
    assert("#propdef-border-bottom-width"@.skip(0) =~= "#propdef-"@ + "border-bottom-width"@);
    assert(feature_record_laws(catalog_5::features()[58]));
    reveal_strlit("baseline.property.border-left-width");
    reveal_strlit("border-left-width");
    reveal_strlit("#propdef-border-left-width");
    CssFeatureId::lemma_spec_new_parts("baseline.property.border-left-width");
    assert(catalog_5::features()[59].spec_id()@[8] == '.');
    assert(catalog_5::features()[59].spec_id()@[0] != "excluded."@[0]);
    assert("#propdef-border-left-width"@.skip(0) =~= "#propdef-"@ + "border-left-width"@);
    assert(feature_record_laws(catalog_5::features()[59]));
}

#[verifier::rlimit(100)]
proof fn lemma_catalog_6_laws()
    ensures
        forall|i: int| 0 <= i < catalog_6::features().len() ==> feature_record_laws(#[trigger] catalog_6::features()[i]),
{
    broadcast use {CssFeatureMetadata::lemma_complete_parts, CssFeatureMetadata::lemma_partial_parts, CssFeatureMetadata::lemma_baseline_alias_parts, CssFeatureMetadata::lemma_recognized_unsupported_parts, CssFeatureMetadata::lemma_partial_property_parts, CssFeatureMetadata::lemma_complete_property_parts, CssFeatureMetadata::lemma_partial_property_with_boundary_parts};

    reveal(catalog_6::features);
    reveal(spec_specification_sources);
    reveal(sources::source_list);
    reveal(spec_property_source);
    reveal(spec_property_production);
    lemma_property_sources_registered();
    reveal_strlit("#propdef-");
    reveal_strlit("The property-specific parser behavior at 4b288d6:src/parser/mod.rs, plus whole-value CSS-wide keywords and syntactically admissible substitution-dependent authored values, is supported.");
    reveal_strlit("Other valid forms of the cited property production are outside the I01 subset.");
    reveal_strlit("excluded.");
    reveal_strlit("official.property.border-image");
    reveal_strlit("border-image");
    reveal_strlit("#propdef-border-image");
    CssFeatureId::lemma_spec_new_parts("official.property.border-image");
    assert(catalog_6::features()[0].spec_id()@[8] == '.');
    assert(catalog_6::features()[0].spec_id()@[0] != "excluded."@[0]);
    assert("#propdef-border-image"@.skip(0) =~= "#propdef-"@ + "border-image"@);
    assert(feature_record_laws(catalog_6::features()[0]));
    reveal_strlit("official.property.border-image-outset");
    reveal_strlit("border-image-outset");
    reveal_strlit("#propdef-border-image-outset");
    CssFeatureId::lemma_spec_new_parts("official.property.border-image-outset");
    assert(catalog_6::features()[1].spec_id()@[8] == '.');
    assert(catalog_6::features()[1].spec_id()@[0] != "excluded."@[0]);
    assert("#propdef-border-image-outset"@.skip(0) =~= "#propdef-"@ + "border-image-outset"@);
    assert(feature_record_laws(catalog_6::features()[1]));
    reveal_strlit("official.property.border-image-repeat");
    reveal_strlit("border-image-repeat");
    reveal_strlit("#propdef-border-image-repeat");
    CssFeatureId::lemma_spec_new_parts("official.property.border-image-repeat");
    assert(catalog_6::features()[2].spec_id()@[8] == '.');
    assert(catalog_6::features()[2].spec_id()@[0] != "excluded."@[0]);
    assert("#propdef-border-image-repeat"@.skip(0) =~= "#propdef-"@ + "border-image-repeat"@);
    assert(feature_record_laws(catalog_6::features()[2]));
    reveal_strlit("official.property.border-image-slice");
    reveal_strlit("border-image-slice");
    reveal_strlit("#propdef-border-image-slice");
    CssFeatureId::lemma_spec_new_parts("official.property.border-image-slice");
    assert(catalog_6::features()[3].spec_id()@[8] == '.');
    assert(catalog_6::features()[3].spec_id()@[0] != "excluded."@[0]);
    assert("#propdef-border-image-slice"@.skip(0) =~= "#propdef-"@ + "border-image-slice"@);
    assert(feature_record_laws(catalog_6::features()[3]));
    reveal_strlit("official.property.border-image-source");
    reveal_strlit("border-image-source");
    reveal_strlit("#propdef-border-image-source");
    CssFeatureId::lemma_spec_new_parts("official.property.border-image-source");
    assert(catalog_6::features()[4].spec_id()@[8] == '.');
    assert(catalog_6::features()[4].spec_id()@[0] != "excluded."@[0]);
    assert("#propdef-border-image-source"@.skip(0) =~= "#propdef-"@ + "border-image-source"@);
    assert(feature_record_laws(catalog_6::features()[4]));
    reveal_strlit("official.property.border-image-width");
    reveal_strlit("border-image-width");
    reveal_strlit("#propdef-border-image-width");
    CssFeatureId::lemma_spec_new_parts("official.property.border-image-width");
    assert(catalog_6::features()[5].spec_id()@[8] == '.');
    assert(catalog_6::features()[5].spec_id()@[0] != "excluded."@[0]);
    assert("#propdef-border-image-width"@.skip(0) =~= "#propdef-"@ + "border-image-width"@);
    assert(feature_record_laws(catalog_6::features()[5]));
    reveal_strlit("baseline.property.color");
    reveal_strlit("color");
    reveal_strlit("#propdef-color");
    CssFeatureId::lemma_spec_new_parts("baseline.property.color");
    assert(catalog_6::features()[6].spec_id()@[8] == '.');
    assert(catalog_6::features()[6].spec_id()@[0] != "excluded."@[0]);
    assert("#propdef-color"@.skip(0) =~= "#propdef-"@ + "color"@);
    assert(feature_record_laws(catalog_6::features()[6]));
    reveal_strlit("baseline.property.background");
    reveal_strlit("background");
    reveal_strlit("#propdef-background");
    CssFeatureId::lemma_spec_new_parts("baseline.property.background");
    assert(catalog_6::features()[7].spec_id()@[8] == '.');
    assert(catalog_6::features()[7].spec_id()@[0] != "excluded."@[0]);
    assert("#propdef-background"@.skip(0) =~= "#propdef-"@ + "background"@);
    assert(feature_record_laws(catalog_6::features()[7]));
    reveal_strlit("baseline.property.background-color");
    reveal_strlit("background-color");
    reveal_strlit("#propdef-background-color");
    CssFeatureId::lemma_spec_new_parts("baseline.property.background-color");
    assert(catalog_6::features()[8].spec_id()@[8] == '.');
    assert(catalog_6::features()[8].spec_id()@[0] != "excluded."@[0]);
    assert("#propdef-background-color"@.skip(0) =~= "#propdef-"@ + "background-color"@);
    assert(feature_record_laws(catalog_6::features()[8]));
    reveal_strlit("baseline.property.border-color");
    reveal_strlit("border-color");
    reveal_strlit("#propdef-border-color");
    CssFeatureId::lemma_spec_new_parts("baseline.property.border-color");
    assert(catalog_6::features()[9].spec_id()@[8] == '.');
    assert(catalog_6::features()[9].spec_id()@[0] != "excluded."@[0]);
    assert("#propdef-border-color"@.skip(0) =~= "#propdef-"@ + "border-color"@);
    assert(feature_record_laws(catalog_6::features()[9]));
    reveal_strlit("baseline.property.border-top-color");
    reveal_strlit("border-top-color");
    reveal_strlit("#propdef-border-top-color");
    CssFeatureId::lemma_spec_new_parts("baseline.property.border-top-color");
    assert(catalog_6::features()[10].spec_id()@[8] == '.');
    assert(catalog_6::features()[10].spec_id()@[0] != "excluded."@[0]);
    assert("#propdef-border-top-color"@.skip(0) =~= "#propdef-"@ + "border-top-color"@);
    assert(feature_record_laws(catalog_6::features()[10]));
    reveal_strlit("baseline.property.border-right-color");
    reveal_strlit("border-right-color");
    reveal_strlit("#propdef-border-right-color");
    CssFeatureId::lemma_spec_new_parts("baseline.property.border-right-color");
    assert(catalog_6::features()[11].spec_id()@[8] == '.');
    assert(catalog_6::features()[11].spec_id()@[0] != "excluded."@[0]);
    assert("#propdef-border-right-color"@.skip(0) =~= "#propdef-"@ + "border-right-color"@);
    assert(feature_record_laws(catalog_6::features()[11]));
    reveal_strlit("baseline.property.border-bottom-color");
    reveal_strlit("border-bottom-color");
    reveal_strlit("#propdef-border-bottom-color");
    CssFeatureId::lemma_spec_new_parts("baseline.property.border-bottom-color");
    assert(catalog_6::features()[12].spec_id()@[8] == '.');
    assert(catalog_6::features()[12].spec_id()@[0] != "excluded."@[0]);
    assert("#propdef-border-bottom-color"@.skip(0) =~= "#propdef-"@ + "border-bottom-color"@);
    assert(feature_record_laws(catalog_6::features()[12]));
    reveal_strlit("baseline.property.border-left-color");
    reveal_strlit("border-left-color");
    reveal_strlit("#propdef-border-left-color");
    CssFeatureId::lemma_spec_new_parts("baseline.property.border-left-color");
    assert(catalog_6::features()[13].spec_id()@[8] == '.');
    assert(catalog_6::features()[13].spec_id()@[0] != "excluded."@[0]);
    assert("#propdef-border-left-color"@.skip(0) =~= "#propdef-"@ + "border-left-color"@);
    assert(feature_record_laws(catalog_6::features()[13]));
    reveal_strlit("baseline.property.background-image");
    reveal_strlit("background-image");
    reveal_strlit("#propdef-background-image");
    CssFeatureId::lemma_spec_new_parts("baseline.property.background-image");
    assert(catalog_6::features()[14].spec_id()@[8] == '.');
    assert(catalog_6::features()[14].spec_id()@[0] != "excluded."@[0]);
    assert("#propdef-background-image"@.skip(0) =~= "#propdef-"@ + "background-image"@);
    assert(feature_record_laws(catalog_6::features()[14]));
    reveal_strlit("baseline.property.background-position");
    reveal_strlit("background-position");
    reveal_strlit("#propdef-background-position");
    CssFeatureId::lemma_spec_new_parts("baseline.property.background-position");
    assert(catalog_6::features()[15].spec_id()@[8] == '.');
    assert(catalog_6::features()[15].spec_id()@[0] != "excluded."@[0]);
    assert("#propdef-background-position"@.skip(0) =~= "#propdef-"@ + "background-position"@);
    assert(feature_record_laws(catalog_6::features()[15]));
    reveal_strlit("official.property.object-position");
    reveal_strlit("object-position");
    reveal_strlit("#propdef-object-position");
    CssFeatureId::lemma_spec_new_parts("official.property.object-position");
    assert(catalog_6::features()[16].spec_id()@[8] == '.');
    assert(catalog_6::features()[16].spec_id()@[0] != "excluded."@[0]);
    assert("#propdef-object-position"@.skip(0) =~= "#propdef-"@ + "object-position"@);
    assert(feature_record_laws(catalog_6::features()[16]));
    reveal_strlit("official.property.image-orientation");
    reveal_strlit("image-orientation");
    reveal_strlit("#propdef-image-orientation");
    CssFeatureId::lemma_spec_new_parts("official.property.image-orientation");
    assert(catalog_6::features()[17].spec_id()@[8] == '.');
    assert(catalog_6::features()[17].spec_id()@[0] != "excluded."@[0]);
    assert("#propdef-image-orientation"@.skip(0) =~= "#propdef-"@ + "image-orientation"@);
    assert(feature_record_laws(catalog_6::features()[17]));
    reveal_strlit("official.property.image-rendering");
    reveal_strlit("image-rendering");
    reveal_strlit("#propdef-image-rendering");
    CssFeatureId::lemma_spec_new_parts("official.property.image-rendering");
    assert(catalog_6::features()[18].spec_id()@[8] == '.');
    assert(catalog_6::features()[18].spec_id()@[0] != "excluded."@[0]);
    assert("#propdef-image-rendering"@.skip(0) =~= "#propdef-"@ + "image-rendering"@);
    assert(feature_record_laws(catalog_6::features()[18]));
    reveal_strlit("official.property.object-fit");
    reveal_strlit("object-fit");
    reveal_strlit("#propdef-object-fit");
    CssFeatureId::lemma_spec_new_parts("official.property.object-fit");
    assert(catalog_6::features()[19].spec_id()@[8] == '.');
    assert(catalog_6::features()[19].spec_id()@[0] != "excluded."@[0]);
    assert("#propdef-object-fit"@.skip(0) =~= "#propdef-"@ + "object-fit"@);
    assert(feature_record_laws(catalog_6::features()[19]));
    reveal_strlit("baseline.property.background-size");
    reveal_strlit("background-size");
    reveal_strlit("#propdef-background-size");
    CssFeatureId::lemma_spec_new_parts("baseline.property.background-size");
    assert(catalog_6::features()[20].spec_id()@[8] == '.');
    assert(catalog_6::features()[20].spec_id()@[0] != "excluded."@[0]);
    assert("#propdef-background-size"@.skip(0) =~= "#propdef-"@ + "background-size"@);
    assert(feature_record_laws(catalog_6::features()[20]));
    reveal_strlit("baseline.property.background-repeat");
    reveal_strlit("background-repeat");
    reveal_strlit("#propdef-background-repeat");
    CssFeatureId::lemma_spec_new_parts("baseline.property.background-repeat");
    assert(catalog_6::features()[21].spec_id()@[8] == '.');
    assert(catalog_6::features()[21].spec_id()@[0] != "excluded."@[0]);
    assert("#propdef-background-repeat"@.skip(0) =~= "#propdef-"@ + "background-repeat"@);
    assert(feature_record_laws(catalog_6::features()[21]));
    reveal_strlit("baseline.property.background-origin");
    reveal_strlit("background-origin");
    reveal_strlit("#propdef-background-origin");
    CssFeatureId::lemma_spec_new_parts("baseline.property.background-origin");
    assert(catalog_6::features()[22].spec_id()@[8] == '.');
    assert(catalog_6::features()[22].spec_id()@[0] != "excluded."@[0]);
    assert("#propdef-background-origin"@.skip(0) =~= "#propdef-"@ + "background-origin"@);
    assert(feature_record_laws(catalog_6::features()[22]));
    reveal_strlit("baseline.property.background-clip");
    reveal_strlit("background-clip");
    reveal_strlit("#propdef-background-clip");
    CssFeatureId::lemma_spec_new_parts("baseline.property.background-clip");
    assert(catalog_6::features()[23].spec_id()@[8] == '.');
    assert(catalog_6::features()[23].spec_id()@[0] != "excluded."@[0]);
    assert("#propdef-background-clip"@.skip(0) =~= "#propdef-"@ + "background-clip"@);
    assert(feature_record_laws(catalog_6::features()[23]));
    reveal_strlit("baseline.property.background-attachment");
    reveal_strlit("background-attachment");
    reveal_strlit("#propdef-background-attachment");
    CssFeatureId::lemma_spec_new_parts("baseline.property.background-attachment");
    assert(catalog_6::features()[24].spec_id()@[8] == '.');
    assert(catalog_6::features()[24].spec_id()@[0] != "excluded."@[0]);
    assert("#propdef-background-attachment"@.skip(0) =~= "#propdef-"@ + "background-attachment"@);
    assert(feature_record_laws(catalog_6::features()[24]));
    reveal_strlit("baseline.property.border-style");
    reveal_strlit("border-style");
    reveal_strlit("#propdef-border-style");
    CssFeatureId::lemma_spec_new_parts("baseline.property.border-style");
    assert(catalog_6::features()[25].spec_id()@[8] == '.');
    assert(catalog_6::features()[25].spec_id()@[0] != "excluded."@[0]);
    assert("#propdef-border-style"@.skip(0) =~= "#propdef-"@ + "border-style"@);
    assert(feature_record_laws(catalog_6::features()[25]));
    reveal_strlit("baseline.property.border-top-style");
    reveal_strlit("border-top-style");
    reveal_strlit("#propdef-border-top-style");
    CssFeatureId::lemma_spec_new_parts("baseline.property.border-top-style");
    assert(catalog_6::features()[26].spec_id()@[8] == '.');
    assert(catalog_6::features()[26].spec_id()@[0] != "excluded."@[0]);
    assert("#propdef-border-top-style"@.skip(0) =~= "#propdef-"@ + "border-top-style"@);
    assert(feature_record_laws(catalog_6::features()[26]));
    reveal_strlit("baseline.property.border-right-style");
    reveal_strlit("border-right-style");
    reveal_strlit("#propdef-border-right-style");
    CssFeatureId::lemma_spec_new_parts("baseline.property.border-right-style");
    assert(catalog_6::features()[27].spec_id()@[8] == '.');
    assert(catalog_6::features()[27].spec_id()@[0] != "excluded."@[0]);
    assert("#propdef-border-right-style"@.skip(0) =~= "#propdef-"@ + "border-right-style"@);
    assert(feature_record_laws(catalog_6::features()[27]));
    reveal_strlit("baseline.property.border-bottom-style");
    reveal_strlit("border-bottom-style");
    reveal_strlit("#propdef-border-bottom-style");
    CssFeatureId::lemma_spec_new_parts("baseline.property.border-bottom-style");
    assert(catalog_6::features()[28].spec_id()@[8] == '.');
    assert(catalog_6::features()[28].spec_id()@[0] != "excluded."@[0]);
    assert("#propdef-border-bottom-style"@.skip(0) =~= "#propdef-"@ + "border-bottom-style"@);
    assert(feature_record_laws(catalog_6::features()[28]));
    reveal_strlit("baseline.property.border-left-style");
    reveal_strlit("border-left-style");
    reveal_strlit("#propdef-border-left-style");
    CssFeatureId::lemma_spec_new_parts("baseline.property.border-left-style");
    assert(catalog_6::features()[29].spec_id()@[8] == '.');
    assert(catalog_6::features()[29].spec_id()@[0] != "excluded."@[0]);
    assert("#propdef-border-left-style"@.skip(0) =~= "#propdef-"@ + "border-left-style"@);
    assert(feature_record_laws(catalog_6::features()[29]));
    reveal_strlit("baseline.property.border-radius");
    reveal_strlit("border-radius");
    reveal_strlit("#propdef-border-radius");
    CssFeatureId::lemma_spec_new_parts("baseline.property.border-radius");
    assert(catalog_6::features()[30].spec_id()@[8] == '.');
    assert(catalog_6::features()[30].spec_id()@[0] != "excluded."@[0]);
    assert("#propdef-border-radius"@.skip(0) =~= "#propdef-"@ + "border-radius"@);
    assert(feature_record_laws(catalog_6::features()[30]));
    reveal_strlit("baseline.property.border-top-left-radius");
    reveal_strlit("border-top-left-radius");
    reveal_strlit("#propdef-border-top-left-radius");
    CssFeatureId::lemma_spec_new_parts("baseline.property.border-top-left-radius");
    assert(catalog_6::features()[31].spec_id()@[8] == '.');
    assert(catalog_6::features()[31].spec_id()@[0] != "excluded."@[0]);
    assert("#propdef-border-top-left-radius"@.skip(0) =~= "#propdef-"@ + "border-top-left-radius"@);
    assert(feature_record_laws(catalog_6::features()[31]));
    reveal_strlit("baseline.property.border-top-right-radius");
    reveal_strlit("border-top-right-radius");
    reveal_strlit("#propdef-border-top-right-radius");
    CssFeatureId::lemma_spec_new_parts("baseline.property.border-top-right-radius");
    assert(catalog_6::features()[32].spec_id()@[8] == '.');
    assert(catalog_6::features()[32].spec_id()@[0] != "excluded."@[0]);
    assert("#propdef-border-top-right-radius"@.skip(0) =~= "#propdef-"@ + "border-top-right-radius"@);
    assert(feature_record_laws(catalog_6::features()[32]));
    reveal_strlit("baseline.property.border-bottom-right-radius");
    reveal_strlit("border-bottom-right-radius");
    reveal_strlit("#propdef-border-bottom-right-radius");
    CssFeatureId::lemma_spec_new_parts("baseline.property.border-bottom-right-radius");
    assert(catalog_6::features()[33].spec_id()@[8] == '.');
    assert(catalog_6::features()[33].spec_id()@[0] != "excluded."@[0]);
    assert("#propdef-border-bottom-right-radius"@.skip(0) =~= "#propdef-"@ + "border-bottom-right-radius"@);
    assert(feature_record_laws(catalog_6::features()[33]));
    reveal_strlit("baseline.property.border-bottom-left-radius");
    reveal_strlit("border-bottom-left-radius");
    reveal_strlit("#propdef-border-bottom-left-radius");
    CssFeatureId::lemma_spec_new_parts("baseline.property.border-bottom-left-radius");
    assert(catalog_6::features()[34].spec_id()@[8] == '.');
    assert(catalog_6::features()[34].spec_id()@[0] != "excluded."@[0]);
    assert("#propdef-border-bottom-left-radius"@.skip(0) =~= "#propdef-"@ + "border-bottom-left-radius"@);
    assert(feature_record_laws(catalog_6::features()[34]));
    reveal_strlit("baseline.property.box-shadow");
    reveal_strlit("box-shadow");
    reveal_strlit("#propdef-box-shadow");
    CssFeatureId::lemma_spec_new_parts("baseline.property.box-shadow");
    assert(catalog_6::features()[35].spec_id()@[8] == '.');
    assert(catalog_6::features()[35].spec_id()@[0] != "excluded."@[0]);
    assert("#propdef-box-shadow"@.skip(0) =~= "#propdef-"@ + "box-shadow"@);
    assert(feature_record_laws(catalog_6::features()[35]));
    reveal_strlit("baseline.property.opacity");
    reveal_strlit("opacity");
    reveal_strlit("#propdef-opacity");
    CssFeatureId::lemma_spec_new_parts("baseline.property.opacity");
    assert(catalog_6::features()[36].spec_id()@[8] == '.');
    assert(catalog_6::features()[36].spec_id()@[0] != "excluded."@[0]);
    assert("#propdef-opacity"@.skip(0) =~= "#propdef-"@ + "opacity"@);
    assert(feature_record_laws(catalog_6::features()[36]));
    reveal_strlit("baseline.property.flex-grow");
    reveal_strlit("flex-grow");
    reveal_strlit("#propdef-flex-grow");
    CssFeatureId::lemma_spec_new_parts("baseline.property.flex-grow");
    assert(catalog_6::features()[37].spec_id()@[8] == '.');
    assert(catalog_6::features()[37].spec_id()@[0] != "excluded."@[0]);
    assert("#propdef-flex-grow"@.skip(0) =~= "#propdef-"@ + "flex-grow"@);
    assert(feature_record_laws(catalog_6::features()[37]));
    reveal_strlit("baseline.property.flex-shrink");
    reveal_strlit("flex-shrink");
    reveal_strlit("#propdef-flex-shrink");
    CssFeatureId::lemma_spec_new_parts("baseline.property.flex-shrink");
    assert(catalog_6::features()[38].spec_id()@[8] == '.');
    assert(catalog_6::features()[38].spec_id()@[0] != "excluded."@[0]);
    assert("#propdef-flex-shrink"@.skip(0) =~= "#propdef-"@ + "flex-shrink"@);
    assert(feature_record_laws(catalog_6::features()[38]));
    reveal_strlit("baseline.property.order");
    reveal_strlit("order");
    reveal_strlit("#propdef-order");
    CssFeatureId::lemma_spec_new_parts("baseline.property.order");
    assert(catalog_6::features()[39].spec_id()@[8] == '.');
    assert(catalog_6::features()[39].spec_id()@[0] != "excluded."@[0]);
    assert("#propdef-order"@.skip(0) =~= "#propdef-"@ + "order"@);
    assert(feature_record_laws(catalog_6::features()[39]));
    reveal_strlit("baseline.property.flex");
    reveal_strlit("flex");
    reveal_strlit("#propdef-flex");
    CssFeatureId::lemma_spec_new_parts("baseline.property.flex");
    assert(catalog_6::features()[40].spec_id()@[8] == '.');
    assert(catalog_6::features()[40].spec_id()@[0] != "excluded."@[0]);
    assert("#propdef-flex"@.skip(0) =~= "#propdef-"@ + "flex"@);
    assert(feature_record_laws(catalog_6::features()[40]));
    reveal_strlit("baseline.property.justify-tracks");
    reveal_strlit("justify-tracks");
    reveal_strlit("#propdef-justify-tracks");
    CssFeatureId::lemma_spec_new_parts("baseline.property.justify-tracks");
    assert(catalog_6::features()[41].spec_id()@[8] == '.');
    assert(catalog_6::features()[41].spec_id()@[0] != "excluded."@[0]);
    assert("#propdef-justify-tracks"@.skip(0) =~= "#propdef-"@ + "justify-tracks"@);
    assert(feature_record_laws(catalog_6::features()[41]));
    reveal_strlit("baseline.property.align-tracks");
    reveal_strlit("align-tracks");
    reveal_strlit("#propdef-align-tracks");
    CssFeatureId::lemma_spec_new_parts("baseline.property.align-tracks");
    assert(catalog_6::features()[42].spec_id()@[8] == '.');
    assert(catalog_6::features()[42].spec_id()@[0] != "excluded."@[0]);
    assert("#propdef-align-tracks"@.skip(0) =~= "#propdef-"@ + "align-tracks"@);
    assert(feature_record_laws(catalog_6::features()[42]));
    reveal_strlit("baseline.property.aspect-ratio");
    reveal_strlit("aspect-ratio");
    reveal_strlit("#propdef-aspect-ratio");
    CssFeatureId::lemma_spec_new_parts("baseline.property.aspect-ratio");
    assert(catalog_6::features()[43].spec_id()@[8] == '.');
    assert(catalog_6::features()[43].spec_id()@[0] != "excluded."@[0]);
    assert("#propdef-aspect-ratio"@.skip(0) =~= "#propdef-"@ + "aspect-ratio"@);
    assert(feature_record_laws(catalog_6::features()[43]));
    reveal_strlit("baseline.property.scrollbar-width");
    reveal_strlit("scrollbar-width");
    reveal_strlit("#propdef-scrollbar-width");
    CssFeatureId::lemma_spec_new_parts("baseline.property.scrollbar-width");
    assert(catalog_6::features()[44].spec_id()@[8] == '.');
    assert(catalog_6::features()[44].spec_id()@[0] != "excluded."@[0]);
    assert("#propdef-scrollbar-width"@.skip(0) =~= "#propdef-"@ + "scrollbar-width"@);
    assert(feature_record_laws(catalog_6::features()[44]));
    reveal_strlit("baseline.property.cursor");
    reveal_strlit("cursor");
    reveal_strlit("#propdef-cursor");
    CssFeatureId::lemma_spec_new_parts("baseline.property.cursor");
    assert(catalog_6::features()[45].spec_id()@[8] == '.');
    assert(catalog_6::features()[45].spec_id()@[0] != "excluded."@[0]);
    assert("#propdef-cursor"@.skip(0) =~= "#propdef-"@ + "cursor"@);
    assert(feature_record_laws(catalog_6::features()[45]));
    reveal_strlit("baseline.property.pointer-events");
    reveal_strlit("pointer-events");
    reveal_strlit("#propdef-pointer-events");
    CssFeatureId::lemma_spec_new_parts("baseline.property.pointer-events");
    assert(catalog_6::features()[46].spec_id()@[8] == '.');
    assert(catalog_6::features()[46].spec_id()@[0] != "excluded."@[0]);
    assert("#propdef-pointer-events"@.skip(0) =~= "#propdef-"@ + "pointer-events"@);
    assert(feature_record_laws(catalog_6::features()[46]));
    reveal_strlit("baseline.property.user-select");
    reveal_strlit("user-select");
    reveal_strlit("#propdef-user-select");
    CssFeatureId::lemma_spec_new_parts("baseline.property.user-select");
    assert(catalog_6::features()[47].spec_id()@[8] == '.');
    assert(catalog_6::features()[47].spec_id()@[0] != "excluded."@[0]);
    assert("#propdef-user-select"@.skip(0) =~= "#propdef-"@ + "user-select"@);
    assert(feature_record_laws(catalog_6::features()[47]));
    reveal_strlit("baseline.property.outline");
    reveal_strlit("outline");
    reveal_strlit("#propdef-outline");
    CssFeatureId::lemma_spec_new_parts("baseline.property.outline");
    assert(catalog_6::features()[48].spec_id()@[8] == '.');
    assert(catalog_6::features()[48].spec_id()@[0] != "excluded."@[0]);
    assert("#propdef-outline"@.skip(0) =~= "#propdef-"@ + "outline"@);
    assert(feature_record_laws(catalog_6::features()[48]));
    reveal_strlit("baseline.property.outline-color");
    reveal_strlit("outline-color");
    reveal_strlit("#propdef-outline-color");
    CssFeatureId::lemma_spec_new_parts("baseline.property.outline-color");
    assert(catalog_6::features()[49].spec_id()@[8] == '.');
    assert(catalog_6::features()[49].spec_id()@[0] != "excluded."@[0]);
    assert("#propdef-outline-color"@.skip(0) =~= "#propdef-"@ + "outline-color"@);
    assert(feature_record_laws(catalog_6::features()[49]));
    reveal_strlit("baseline.property.outline-style");
    reveal_strlit("outline-style");
    reveal_strlit("#propdef-outline-style");
    CssFeatureId::lemma_spec_new_parts("baseline.property.outline-style");
    assert(catalog_6::features()[50].spec_id()@[8] == '.');
    assert(catalog_6::features()[50].spec_id()@[0] != "excluded."@[0]);
    assert("#propdef-outline-style"@.skip(0) =~= "#propdef-"@ + "outline-style"@);
    assert(feature_record_laws(catalog_6::features()[50]));
    reveal_strlit("baseline.property.outline-width");
    reveal_strlit("outline-width");
    reveal_strlit("#propdef-outline-width");
    CssFeatureId::lemma_spec_new_parts("baseline.property.outline-width");
    assert(catalog_6::features()[51].spec_id()@[8] == '.');
    assert(catalog_6::features()[51].spec_id()@[0] != "excluded."@[0]);
    assert("#propdef-outline-width"@.skip(0) =~= "#propdef-"@ + "outline-width"@);
    assert(feature_record_laws(catalog_6::features()[51]));
    reveal_strlit("baseline.property.transform");
    reveal_strlit("transform");
    reveal_strlit("#propdef-transform");
    CssFeatureId::lemma_spec_new_parts("baseline.property.transform");
    assert(catalog_6::features()[52].spec_id()@[8] == '.');
    assert(catalog_6::features()[52].spec_id()@[0] != "excluded."@[0]);
    assert("#propdef-transform"@.skip(0) =~= "#propdef-"@ + "transform"@);
    assert(feature_record_laws(catalog_6::features()[52]));
    reveal_strlit("baseline.property.transform-origin");
    reveal_strlit("transform-origin");
    reveal_strlit("#propdef-transform-origin");
    CssFeatureId::lemma_spec_new_parts("baseline.property.transform-origin");
    assert(catalog_6::features()[53].spec_id()@[8] == '.');
    assert(catalog_6::features()[53].spec_id()@[0] != "excluded."@[0]);
    assert("#propdef-transform-origin"@.skip(0) =~= "#propdef-"@ + "transform-origin"@);
    assert(feature_record_laws(catalog_6::features()[53]));
    reveal_strlit("baseline.property.translate");
    reveal_strlit("translate");
    reveal_strlit("#propdef-translate");
    CssFeatureId::lemma_spec_new_parts("baseline.property.translate");
    assert(catalog_6::features()[54].spec_id()@[8] == '.');
    assert(catalog_6::features()[54].spec_id()@[0] != "excluded."@[0]);
    assert("#propdef-translate"@.skip(0) =~= "#propdef-"@ + "translate"@);
    assert(feature_record_laws(catalog_6::features()[54]));
    reveal_strlit("baseline.property.rotate");
    reveal_strlit("rotate");
    reveal_strlit("#propdef-rotate");
    CssFeatureId::lemma_spec_new_parts("baseline.property.rotate");
    assert(catalog_6::features()[55].spec_id()@[8] == '.');
    assert(catalog_6::features()[55].spec_id()@[0] != "excluded."@[0]);
    assert("#propdef-rotate"@.skip(0) =~= "#propdef-"@ + "rotate"@);
    assert(feature_record_laws(catalog_6::features()[55]));
    reveal_strlit("baseline.property.scale");
    reveal_strlit("scale");
    reveal_strlit("#propdef-scale");
    CssFeatureId::lemma_spec_new_parts("baseline.property.scale");
    assert(catalog_6::features()[56].spec_id()@[8] == '.');
    assert(catalog_6::features()[56].spec_id()@[0] != "excluded."@[0]);
    assert("#propdef-scale"@.skip(0) =~= "#propdef-"@ + "scale"@);
    assert(feature_record_laws(catalog_6::features()[56]));
    reveal_strlit("baseline.property.filter");
    reveal_strlit("filter");
    reveal_strlit("#propdef-filter");
    CssFeatureId::lemma_spec_new_parts("baseline.property.filter");
    assert(catalog_6::features()[57].spec_id()@[8] == '.');
    assert(catalog_6::features()[57].spec_id()@[0] != "excluded."@[0]);
    assert("#propdef-filter"@.skip(0) =~= "#propdef-"@ + "filter"@);
    assert(feature_record_laws(catalog_6::features()[57]));
    reveal_strlit("The exact I01 filter-function-list subset preserved at bc5394f:src/parser/effects.rs is supported with typed current values.");
    reveal_strlit("Every Filter Effects 2 behavior absent from that preserved baseline subset remains unsupported.");
    reveal_strlit("baseline.property.backdrop-filter");
    reveal_strlit("backdrop-filter");
    reveal_strlit("#propdef-backdrop-filter");
    CssFeatureId::lemma_spec_new_parts("baseline.property.backdrop-filter");
    assert(catalog_6::features()[58].spec_id()@[8] == '.');
    assert(catalog_6::features()[58].spec_id()@[0] != "excluded."@[0]);
    assert("#propdef-backdrop-filter"@.skip(0) =~= "#propdef-"@ + "backdrop-filter"@);
    assert(feature_record_laws(catalog_6::features()[58]));
    reveal_strlit("none, URL, and typed inset(), circle(), ellipse(), and polygon() functions are supported.");
    reveal_strlit("Reference-box combinations and path(), shape(), rect(), and xywh() remain unsupported.");
    reveal_strlit("baseline.property.clip-path");
    reveal_strlit("clip-path");
    reveal_strlit("#propdef-clip-path");
    CssFeatureId::lemma_spec_new_parts("baseline.property.clip-path");
    assert(catalog_6::features()[59].spec_id()@[8] == '.');
    assert(catalog_6::features()[59].spec_id()@[0] != "excluded."@[0]);
    assert("#propdef-clip-path"@.skip(0) =~= "#propdef-"@ + "clip-path"@);
    assert(feature_record_laws(catalog_6::features()[59]));
}

#[verifier::rlimit(100)]
proof fn lemma_catalog_7_laws()
    ensures
        forall|i: int| 0 <= i < catalog_7::features().len() ==> feature_record_laws(#[trigger] catalog_7::features()[i]),
{
    broadcast use {CssFeatureMetadata::lemma_complete_parts, CssFeatureMetadata::lemma_partial_parts, CssFeatureMetadata::lemma_baseline_alias_parts, CssFeatureMetadata::lemma_recognized_unsupported_parts, CssFeatureMetadata::lemma_partial_property_parts, CssFeatureMetadata::lemma_complete_property_parts, CssFeatureMetadata::lemma_partial_property_with_boundary_parts};

    reveal(catalog_7::features);
    reveal(spec_specification_sources);
    reveal(sources::source_list);
    reveal(spec_property_source);
    reveal(spec_property_production);
    lemma_property_sources_registered();
    reveal_strlit("#propdef-");
    assert(sources::source_list()[5] == o_selectors3());
    assert(sources::source_list()[15] == o_writing3());
    reveal_strlit("The property-specific parser behavior at 4b288d6:src/parser/mod.rs, plus whole-value CSS-wide keywords and syntactically admissible substitution-dependent authored values, is supported.");
    reveal_strlit("Other valid forms of the cited property production are outside the I01 subset.");
    reveal_strlit("excluded.");
    reveal_strlit("baseline.property.mask");
    reveal_strlit("mask");
    reveal_strlit("#propdef-mask");
    CssFeatureId::lemma_spec_new_parts("baseline.property.mask");
    assert(catalog_7::features()[0].spec_id()@[8] == '.');
    assert(catalog_7::features()[0].spec_id()@[0] != "excluded."@[0]);
    assert("#propdef-mask"@.skip(0) =~= "#propdef-"@ + "mask"@);
    assert(feature_record_laws(catalog_7::features()[0]));
    reveal_strlit("baseline.property.mask-image");
    reveal_strlit("mask-image");
    reveal_strlit("#propdef-mask-image");
    CssFeatureId::lemma_spec_new_parts("baseline.property.mask-image");
    assert(catalog_7::features()[1].spec_id()@[8] == '.');
    assert(catalog_7::features()[1].spec_id()@[0] != "excluded."@[0]);
    assert("#propdef-mask-image"@.skip(0) =~= "#propdef-"@ + "mask-image"@);
    assert(feature_record_laws(catalog_7::features()[1]));
    reveal_strlit("baseline.property.mask-size");
    reveal_strlit("mask-size");
    reveal_strlit("#propdef-mask-size");
    CssFeatureId::lemma_spec_new_parts("baseline.property.mask-size");
    assert(catalog_7::features()[2].spec_id()@[8] == '.');
    assert(catalog_7::features()[2].spec_id()@[0] != "excluded."@[0]);
    assert("#propdef-mask-size"@.skip(0) =~= "#propdef-"@ + "mask-size"@);
    assert(feature_record_laws(catalog_7::features()[2]));
    reveal_strlit("baseline.property.mask-position");
    reveal_strlit("mask-position");
    reveal_strlit("#propdef-mask-position");
    CssFeatureId::lemma_spec_new_parts("baseline.property.mask-position");
    assert(catalog_7::features()[3].spec_id()@[8] == '.');
    assert(catalog_7::features()[3].spec_id()@[0] != "excluded."@[0]);
    assert("#propdef-mask-position"@.skip(0) =~= "#propdef-"@ + "mask-position"@);
    assert(feature_record_laws(catalog_7::features()[3]));
    reveal_strlit("baseline.property.mask-repeat");
    reveal_strlit("mask-repeat");
    reveal_strlit("#propdef-mask-repeat");
    CssFeatureId::lemma_spec_new_parts("baseline.property.mask-repeat");
    assert(catalog_7::features()[4].spec_id()@[8] == '.');
    assert(catalog_7::features()[4].spec_id()@[0] != "excluded."@[0]);
    assert("#propdef-mask-repeat"@.skip(0) =~= "#propdef-"@ + "mask-repeat"@);
    assert(feature_record_laws(catalog_7::features()[4]));
    reveal_strlit("baseline.property.transition-property");
    reveal_strlit("transition-property");
    reveal_strlit("#propdef-transition-property");
    CssFeatureId::lemma_spec_new_parts("baseline.property.transition-property");
    assert(catalog_7::features()[5].spec_id()@[8] == '.');
    assert(catalog_7::features()[5].spec_id()@[0] != "excluded."@[0]);
    assert("#propdef-transition-property"@.skip(0) =~= "#propdef-"@ + "transition-property"@);
    assert(feature_record_laws(catalog_7::features()[5]));
    reveal_strlit("baseline.property.transition-duration");
    reveal_strlit("transition-duration");
    reveal_strlit("#propdef-transition-duration");
    CssFeatureId::lemma_spec_new_parts("baseline.property.transition-duration");
    assert(catalog_7::features()[6].spec_id()@[8] == '.');
    assert(catalog_7::features()[6].spec_id()@[0] != "excluded."@[0]);
    assert("#propdef-transition-duration"@.skip(0) =~= "#propdef-"@ + "transition-duration"@);
    assert(feature_record_laws(catalog_7::features()[6]));
    reveal_strlit("baseline.property.transition-delay");
    reveal_strlit("transition-delay");
    reveal_strlit("#propdef-transition-delay");
    CssFeatureId::lemma_spec_new_parts("baseline.property.transition-delay");
    assert(catalog_7::features()[7].spec_id()@[8] == '.');
    assert(catalog_7::features()[7].spec_id()@[0] != "excluded."@[0]);
    assert("#propdef-transition-delay"@.skip(0) =~= "#propdef-"@ + "transition-delay"@);
    assert(feature_record_laws(catalog_7::features()[7]));
    reveal_strlit("baseline.property.transition-timing-function");
    reveal_strlit("transition-timing-function");
    reveal_strlit("#propdef-transition-timing-function");
    CssFeatureId::lemma_spec_new_parts("baseline.property.transition-timing-function");
    assert(catalog_7::features()[8].spec_id()@[8] == '.');
    assert(catalog_7::features()[8].spec_id()@[0] != "excluded."@[0]);
    assert("#propdef-transition-timing-function"@.skip(0) =~= "#propdef-"@ + "transition-timing-function"@);
    assert(feature_record_laws(catalog_7::features()[8]));
    reveal_strlit("The I01 shorthand components plus C03 duration, signed delay, iteration, and typed calculation syntax and C05 easing functions are supported.");
    reveal_strlit("Other valid forms of the cited shorthand production remain unsupported.");
    reveal_strlit("baseline.property.transition");
    reveal_strlit("transition");
    reveal_strlit("#propdef-transition");
    CssFeatureId::lemma_spec_new_parts("baseline.property.transition");
    assert(catalog_7::features()[9].spec_id()@[8] == '.');
    assert(catalog_7::features()[9].spec_id()@[0] != "excluded."@[0]);
    assert("#propdef-transition"@.skip(0) =~= "#propdef-"@ + "transition"@);
    assert(feature_record_laws(catalog_7::features()[9]));
    reveal_strlit("baseline.property.animation-name");
    reveal_strlit("animation-name");
    reveal_strlit("#propdef-animation-name");
    CssFeatureId::lemma_spec_new_parts("baseline.property.animation-name");
    assert(catalog_7::features()[10].spec_id()@[8] == '.');
    assert(catalog_7::features()[10].spec_id()@[0] != "excluded."@[0]);
    assert("#propdef-animation-name"@.skip(0) =~= "#propdef-"@ + "animation-name"@);
    assert(feature_record_laws(catalog_7::features()[10]));
    reveal_strlit("baseline.property.animation-duration");
    reveal_strlit("animation-duration");
    reveal_strlit("#propdef-animation-duration");
    CssFeatureId::lemma_spec_new_parts("baseline.property.animation-duration");
    assert(catalog_7::features()[11].spec_id()@[8] == '.');
    assert(catalog_7::features()[11].spec_id()@[0] != "excluded."@[0]);
    assert("#propdef-animation-duration"@.skip(0) =~= "#propdef-"@ + "animation-duration"@);
    assert(feature_record_laws(catalog_7::features()[11]));
    reveal_strlit("baseline.property.animation-delay");
    reveal_strlit("animation-delay");
    reveal_strlit("#propdef-animation-delay");
    CssFeatureId::lemma_spec_new_parts("baseline.property.animation-delay");
    assert(catalog_7::features()[12].spec_id()@[8] == '.');
    assert(catalog_7::features()[12].spec_id()@[0] != "excluded."@[0]);
    assert("#propdef-animation-delay"@.skip(0) =~= "#propdef-"@ + "animation-delay"@);
    assert(feature_record_laws(catalog_7::features()[12]));
    reveal_strlit("baseline.property.animation-timing-function");
    reveal_strlit("animation-timing-function");
    reveal_strlit("#propdef-animation-timing-function");
    CssFeatureId::lemma_spec_new_parts("baseline.property.animation-timing-function");
    assert(catalog_7::features()[13].spec_id()@[8] == '.');
    assert(catalog_7::features()[13].spec_id()@[0] != "excluded."@[0]);
    assert("#propdef-animation-timing-function"@.skip(0) =~= "#propdef-"@ + "animation-timing-function"@);
    assert(feature_record_laws(catalog_7::features()[13]));
    reveal_strlit("baseline.property.animation-iteration-count");
    reveal_strlit("animation-iteration-count");
    reveal_strlit("#propdef-animation-iteration-count");
    CssFeatureId::lemma_spec_new_parts("baseline.property.animation-iteration-count");
    assert(catalog_7::features()[14].spec_id()@[8] == '.');
    assert(catalog_7::features()[14].spec_id()@[0] != "excluded."@[0]);
    assert("#propdef-animation-iteration-count"@.skip(0) =~= "#propdef-"@ + "animation-iteration-count"@);
    assert(feature_record_laws(catalog_7::features()[14]));
    reveal_strlit("baseline.property.animation-direction");
    reveal_strlit("animation-direction");
    reveal_strlit("#propdef-animation-direction");
    CssFeatureId::lemma_spec_new_parts("baseline.property.animation-direction");
    assert(catalog_7::features()[15].spec_id()@[8] == '.');
    assert(catalog_7::features()[15].spec_id()@[0] != "excluded."@[0]);
    assert("#propdef-animation-direction"@.skip(0) =~= "#propdef-"@ + "animation-direction"@);
    assert(feature_record_laws(catalog_7::features()[15]));
    reveal_strlit("baseline.property.animation-fill-mode");
    reveal_strlit("animation-fill-mode");
    reveal_strlit("#propdef-animation-fill-mode");
    CssFeatureId::lemma_spec_new_parts("baseline.property.animation-fill-mode");
    assert(catalog_7::features()[16].spec_id()@[8] == '.');
    assert(catalog_7::features()[16].spec_id()@[0] != "excluded."@[0]);
    assert("#propdef-animation-fill-mode"@.skip(0) =~= "#propdef-"@ + "animation-fill-mode"@);
    assert(feature_record_laws(catalog_7::features()[16]));
    reveal_strlit("baseline.property.animation-play-state");
    reveal_strlit("animation-play-state");
    reveal_strlit("#propdef-animation-play-state");
    CssFeatureId::lemma_spec_new_parts("baseline.property.animation-play-state");
    assert(catalog_7::features()[17].spec_id()@[8] == '.');
    assert(catalog_7::features()[17].spec_id()@[0] != "excluded."@[0]);
    assert("#propdef-animation-play-state"@.skip(0) =~= "#propdef-"@ + "animation-play-state"@);
    assert(feature_record_laws(catalog_7::features()[17]));
    reveal_strlit("baseline.property.animation");
    reveal_strlit("animation");
    reveal_strlit("#propdef-animation");
    CssFeatureId::lemma_spec_new_parts("baseline.property.animation");
    assert(catalog_7::features()[18].spec_id()@[8] == '.');
    assert(catalog_7::features()[18].spec_id()@[0] != "excluded."@[0]);
    assert("#propdef-animation"@.skip(0) =~= "#propdef-"@ + "animation"@);
    assert(feature_record_laws(catalog_7::features()[18]));
    reveal_strlit("official.property.border-collapse");
    reveal_strlit("border-collapse");
    reveal_strlit("tables.html#propdef-border-collapse");
    CssFeatureId::lemma_spec_new_parts("official.property.border-collapse");
    assert(catalog_7::features()[19].spec_id()@[8] == '.');
    assert(catalog_7::features()[19].spec_id()@[0] != "excluded."@[0]);
    assert("tables.html#propdef-border-collapse"@.skip(11) =~= "#propdef-"@ + "border-collapse"@);
    assert(feature_record_laws(catalog_7::features()[19]));
    reveal_strlit("official.property.border-spacing");
    reveal_strlit("border-spacing");
    reveal_strlit("tables.html#propdef-border-spacing");
    CssFeatureId::lemma_spec_new_parts("official.property.border-spacing");
    assert(catalog_7::features()[20].spec_id()@[8] == '.');
    assert(catalog_7::features()[20].spec_id()@[0] != "excluded."@[0]);
    assert("tables.html#propdef-border-spacing"@.skip(11) =~= "#propdef-"@ + "border-spacing"@);
    assert(feature_record_laws(catalog_7::features()[20]));
    reveal_strlit("official.property.caption-side");
    reveal_strlit("caption-side");
    reveal_strlit("tables.html#propdef-caption-side");
    CssFeatureId::lemma_spec_new_parts("official.property.caption-side");
    assert(catalog_7::features()[21].spec_id()@[8] == '.');
    assert(catalog_7::features()[21].spec_id()@[0] != "excluded."@[0]);
    assert("tables.html#propdef-caption-side"@.skip(11) =~= "#propdef-"@ + "caption-side"@);
    assert(feature_record_laws(catalog_7::features()[21]));
    reveal_strlit("official.property.clip");
    reveal_strlit("clip");
    reveal_strlit("visufx.html#propdef-clip");
    CssFeatureId::lemma_spec_new_parts("official.property.clip");
    assert(catalog_7::features()[22].spec_id()@[8] == '.');
    assert(catalog_7::features()[22].spec_id()@[0] != "excluded."@[0]);
    assert("visufx.html#propdef-clip"@.skip(11) =~= "#propdef-"@ + "clip"@);
    assert(feature_record_laws(catalog_7::features()[22]));
    reveal_strlit("official.property.empty-cells");
    reveal_strlit("empty-cells");
    reveal_strlit("tables.html#propdef-empty-cells");
    CssFeatureId::lemma_spec_new_parts("official.property.empty-cells");
    assert(catalog_7::features()[23].spec_id()@[8] == '.');
    assert(catalog_7::features()[23].spec_id()@[0] != "excluded."@[0]);
    assert("tables.html#propdef-empty-cells"@.skip(11) =~= "#propdef-"@ + "empty-cells"@);
    assert(feature_record_laws(catalog_7::features()[23]));
    reveal_strlit("official.property.orphans");
    reveal_strlit("orphans");
    reveal_strlit("page.html#propdef-orphans");
    CssFeatureId::lemma_spec_new_parts("official.property.orphans");
    assert(catalog_7::features()[24].spec_id()@[8] == '.');
    assert(catalog_7::features()[24].spec_id()@[0] != "excluded."@[0]);
    assert("page.html#propdef-orphans"@.skip(9) =~= "#propdef-"@ + "orphans"@);
    assert(feature_record_laws(catalog_7::features()[24]));
    reveal_strlit("official.property.page-break-after");
    reveal_strlit("page-break-after");
    reveal_strlit("page.html#propdef-page-break-after");
    CssFeatureId::lemma_spec_new_parts("official.property.page-break-after");
    assert(catalog_7::features()[25].spec_id()@[8] == '.');
    assert(catalog_7::features()[25].spec_id()@[0] != "excluded."@[0]);
    assert("page.html#propdef-page-break-after"@.skip(9) =~= "#propdef-"@ + "page-break-after"@);
    assert(feature_record_laws(catalog_7::features()[25]));
    reveal_strlit("official.property.page-break-before");
    reveal_strlit("page-break-before");
    reveal_strlit("page.html#propdef-page-break-before");
    CssFeatureId::lemma_spec_new_parts("official.property.page-break-before");
    assert(catalog_7::features()[26].spec_id()@[8] == '.');
    assert(catalog_7::features()[26].spec_id()@[0] != "excluded."@[0]);
    assert("page.html#propdef-page-break-before"@.skip(9) =~= "#propdef-"@ + "page-break-before"@);
    assert(feature_record_laws(catalog_7::features()[26]));
    reveal_strlit("official.property.page-break-inside");
    reveal_strlit("page-break-inside");
    reveal_strlit("page.html#propdef-page-break-inside");
    CssFeatureId::lemma_spec_new_parts("official.property.page-break-inside");
    assert(catalog_7::features()[27].spec_id()@[8] == '.');
    assert(catalog_7::features()[27].spec_id()@[0] != "excluded."@[0]);
    assert("page.html#propdef-page-break-inside"@.skip(9) =~= "#propdef-"@ + "page-break-inside"@);
    assert(feature_record_laws(catalog_7::features()[27]));
    reveal_strlit("official.property.quotes");
    reveal_strlit("quotes");
    reveal_strlit("generate.html#propdef-quotes");
    CssFeatureId::lemma_spec_new_parts("official.property.quotes");
    assert(catalog_7::features()[28].spec_id()@[8] == '.');
    assert(catalog_7::features()[28].spec_id()@[0] != "excluded."@[0]);
    assert("generate.html#propdef-quotes"@.skip(13) =~= "#propdef-"@ + "quotes"@);
    assert(feature_record_laws(catalog_7::features()[28]));
    reveal_strlit("official.property.table-layout");
    reveal_strlit("table-layout");
    reveal_strlit("tables.html#propdef-table-layout");
    CssFeatureId::lemma_spec_new_parts("official.property.table-layout");
    assert(catalog_7::features()[29].spec_id()@[8] == '.');
    assert(catalog_7::features()[29].spec_id()@[0] != "excluded."@[0]);
    assert("tables.html#propdef-table-layout"@.skip(11) =~= "#propdef-"@ + "table-layout"@);
    assert(feature_record_laws(catalog_7::features()[29]));
    reveal_strlit("official.property.widows");
    reveal_strlit("widows");
    reveal_strlit("page.html#propdef-widows");
    CssFeatureId::lemma_spec_new_parts("official.property.widows");
    assert(catalog_7::features()[30].spec_id()@[8] == '.');
    assert(catalog_7::features()[30].spec_id()@[0] != "excluded."@[0]);
    assert("page.html#propdef-widows"@.skip(9) =~= "#propdef-"@ + "widows"@);
    assert(feature_record_laws(catalog_7::features()[30]));
    reveal_strlit("official.property.word-spacing");
    reveal_strlit("word-spacing");
    reveal_strlit("text.html#propdef-word-spacing");
    CssFeatureId::lemma_spec_new_parts("official.property.word-spacing");
    assert(catalog_7::features()[31].spec_id()@[8] == '.');
    assert(catalog_7::features()[31].spec_id()@[0] != "excluded."@[0]);
    assert("text.html#propdef-word-spacing"@.skip(9) =~= "#propdef-"@ + "word-spacing"@);
    assert(feature_record_laws(catalog_7::features()[31]));
    reveal_strlit("official.property.text-combine-upright");
    reveal_strlit("text-combine-upright");
    reveal_strlit("#propdef-text-combine-upright");
    CssFeatureId::lemma_spec_new_parts("official.property.text-combine-upright");
    assert(catalog_7::features()[32].spec_id()@[8] == '.');
    assert(catalog_7::features()[32].spec_id()@[0] != "excluded."@[0]);
    assert("#propdef-text-combine-upright"@.skip(0) =~= "#propdef-"@ + "text-combine-upright"@);
    assert(feature_record_laws(catalog_7::features()[32]));
    reveal_strlit("official.property.text-orientation");
    reveal_strlit("text-orientation");
    reveal_strlit("#propdef-text-orientation");
    CssFeatureId::lemma_spec_new_parts("official.property.text-orientation");
    assert(catalog_7::features()[33].spec_id()@[8] == '.');
    assert(catalog_7::features()[33].spec_id()@[0] != "excluded."@[0]);
    assert("#propdef-text-orientation"@.skip(0) =~= "#propdef-"@ + "text-orientation"@);
    assert(feature_record_laws(catalog_7::features()[33]));
    reveal_strlit("official.property.unicode-bidi");
    reveal_strlit("unicode-bidi");
    reveal_strlit("#propdef-unicode-bidi");
    CssFeatureId::lemma_spec_new_parts("official.property.unicode-bidi");
    assert(catalog_7::features()[34].spec_id()@[8] == '.');
    assert(catalog_7::features()[34].spec_id()@[0] != "excluded."@[0]);
    assert("#propdef-unicode-bidi"@.skip(0) =~= "#propdef-"@ + "unicode-bidi"@);
    assert(feature_record_laws(catalog_7::features()[34]));
    reveal_strlit("official.property.caret-color");
    reveal_strlit("caret-color");
    reveal_strlit("#propdef-caret-color");
    CssFeatureId::lemma_spec_new_parts("official.property.caret-color");
    assert(catalog_7::features()[35].spec_id()@[8] == '.');
    assert(catalog_7::features()[35].spec_id()@[0] != "excluded."@[0]);
    assert("#propdef-caret-color"@.skip(0) =~= "#propdef-"@ + "caret-color"@);
    assert(feature_record_laws(catalog_7::features()[35]));
    reveal_strlit("official.property.outline-offset");
    reveal_strlit("outline-offset");
    reveal_strlit("#propdef-outline-offset");
    CssFeatureId::lemma_spec_new_parts("official.property.outline-offset");
    assert(catalog_7::features()[36].spec_id()@[8] == '.');
    assert(catalog_7::features()[36].spec_id()@[0] != "excluded."@[0]);
    assert("#propdef-outline-offset"@.skip(0) =~= "#propdef-"@ + "outline-offset"@);
    assert(feature_record_laws(catalog_7::features()[36]));
    reveal_strlit("official.property.resize");
    reveal_strlit("resize");
    reveal_strlit("#propdef-resize");
    CssFeatureId::lemma_spec_new_parts("official.property.resize");
    assert(catalog_7::features()[37].spec_id()@[8] == '.');
    assert(catalog_7::features()[37].spec_id()@[0] != "excluded."@[0]);
    assert("#propdef-resize"@.skip(0) =~= "#propdef-"@ + "resize"@);
    assert(feature_record_laws(catalog_7::features()[37]));
    reveal_strlit("official.property.contain");
    reveal_strlit("contain");
    reveal_strlit("#propdef-contain");
    CssFeatureId::lemma_spec_new_parts("official.property.contain");
    assert(catalog_7::features()[38].spec_id()@[8] == '.');
    assert(catalog_7::features()[38].spec_id()@[0] != "excluded."@[0]);
    assert("#propdef-contain"@.skip(0) =~= "#propdef-"@ + "contain"@);
    assert(feature_record_laws(catalog_7::features()[38]));
    reveal_strlit("official.property.transform-box");
    reveal_strlit("transform-box");
    reveal_strlit("#propdef-transform-box");
    CssFeatureId::lemma_spec_new_parts("official.property.transform-box");
    assert(catalog_7::features()[39].spec_id()@[8] == '.');
    assert(catalog_7::features()[39].spec_id()@[0] != "excluded."@[0]);
    assert("#propdef-transform-box"@.skip(0) =~= "#propdef-"@ + "transform-box"@);
    assert(feature_record_laws(catalog_7::features()[39]));
    reveal_strlit("official.property.background-blend-mode");
    reveal_strlit("background-blend-mode");
    reveal_strlit("#propdef-background-blend-mode");
    CssFeatureId::lemma_spec_new_parts("official.property.background-blend-mode");
    assert(catalog_7::features()[40].spec_id()@[8] == '.');
    assert(catalog_7::features()[40].spec_id()@[0] != "excluded."@[0]);
    assert("#propdef-background-blend-mode"@.skip(0) =~= "#propdef-"@ + "background-blend-mode"@);
    assert(feature_record_laws(catalog_7::features()[40]));
    reveal_strlit("official.property.isolation");
    reveal_strlit("isolation");
    reveal_strlit("#propdef-isolation");
    CssFeatureId::lemma_spec_new_parts("official.property.isolation");
    assert(catalog_7::features()[41].spec_id()@[8] == '.');
    assert(catalog_7::features()[41].spec_id()@[0] != "excluded."@[0]);
    assert("#propdef-isolation"@.skip(0) =~= "#propdef-"@ + "isolation"@);
    assert(feature_record_laws(catalog_7::features()[41]));
    reveal_strlit("official.property.mix-blend-mode");
    reveal_strlit("mix-blend-mode");
    reveal_strlit("#propdef-mix-blend-mode");
    CssFeatureId::lemma_spec_new_parts("official.property.mix-blend-mode");
    assert(catalog_7::features()[42].spec_id()@[8] == '.');
    assert(catalog_7::features()[42].spec_id()@[0] != "excluded."@[0]);
    assert("#propdef-mix-blend-mode"@.skip(0) =~= "#propdef-"@ + "mix-blend-mode"@);
    assert(feature_record_laws(catalog_7::features()[42]));
    reveal_strlit("official.property-alias.glyph-orientation-vertical");
    reveal_strlit("glyph-orientation-vertical");
    reveal_strlit("#propdef-glyph-orientation-vertical");
    CssFeatureId::lemma_spec_new_parts("official.property-alias.glyph-orientation-vertical");
    assert(catalog_7::features()[43].spec_id()@[8] == '.');
    assert(catalog_7::features()[43].spec_id()@[0] != "excluded."@[0]);
    assert(feature_record_laws(catalog_7::features()[43]));
    reveal_strlit("official.selector.group");
    reveal_strlit("comma-separated selector groups");
    reveal_strlit("#grouping");
    CssFeatureId::lemma_spec_new_parts("official.selector.group");
    assert(catalog_7::features()[44].spec_id()@[8] == '.');
    assert(catalog_7::features()[44].spec_id()@[0] != "excluded."@[0]);
    assert(feature_record_laws(catalog_7::features()[44]));
    reveal_strlit("official.selector.type");
    reveal_strlit("type selectors");
    reveal_strlit("#type-selectors");
    CssFeatureId::lemma_spec_new_parts("official.selector.type");
    assert(catalog_7::features()[45].spec_id()@[8] == '.');
    assert(catalog_7::features()[45].spec_id()@[0] != "excluded."@[0]);
    assert(feature_record_laws(catalog_7::features()[45]));
    reveal_strlit("official.selector.universal");
    reveal_strlit("universal selector *");
    reveal_strlit("#universal-selector");
    CssFeatureId::lemma_spec_new_parts("official.selector.universal");
    assert(catalog_7::features()[46].spec_id()@[8] == '.');
    assert(catalog_7::features()[46].spec_id()@[0] != "excluded."@[0]);
    assert(feature_record_laws(catalog_7::features()[46]));
    reveal_strlit("official.selector.attribute-presence-value");
    reveal_strlit("[attr], [attr=value], [attr~=value], [attr|=value]");
    reveal_strlit("#attribute-representation");
    CssFeatureId::lemma_spec_new_parts("official.selector.attribute-presence-value");
    assert(catalog_7::features()[47].spec_id()@[8] == '.');
    assert(catalog_7::features()[47].spec_id()@[0] != "excluded."@[0]);
    assert(feature_record_laws(catalog_7::features()[47]));
    reveal_strlit("official.selector.attribute-substring");
    reveal_strlit("[attr^=value], [attr$=value], [attr*=value]");
    reveal_strlit("#attribute-substrings");
    CssFeatureId::lemma_spec_new_parts("official.selector.attribute-substring");
    assert(catalog_7::features()[48].spec_id()@[8] == '.');
    assert(catalog_7::features()[48].spec_id()@[0] != "excluded."@[0]);
    assert(feature_record_laws(catalog_7::features()[48]));
    reveal_strlit("official.selector.class");
    reveal_strlit(".class");
    reveal_strlit("#class-html");
    CssFeatureId::lemma_spec_new_parts("official.selector.class");
    assert(catalog_7::features()[49].spec_id()@[8] == '.');
    assert(catalog_7::features()[49].spec_id()@[0] != "excluded."@[0]);
    assert(feature_record_laws(catalog_7::features()[49]));
    reveal_strlit("official.selector.id");
    reveal_strlit("#id");
    reveal_strlit("#id-selectors");
    CssFeatureId::lemma_spec_new_parts("official.selector.id");
    assert(catalog_7::features()[50].spec_id()@[8] == '.');
    assert(catalog_7::features()[50].spec_id()@[0] != "excluded."@[0]);
    assert(feature_record_laws(catalog_7::features()[50]));
    reveal_strlit("official.selector.dynamic");
    reveal_strlit(":link, :visited, :hover, :active, :focus");
    reveal_strlit("#dynamic-pseudos");
    CssFeatureId::lemma_spec_new_parts("official.selector.dynamic");
    assert(catalog_7::features()[51].spec_id()@[8] == '.');
    assert(catalog_7::features()[51].spec_id()@[0] != "excluded."@[0]);
    assert(feature_record_laws(catalog_7::features()[51]));
    reveal_strlit("official.selector.target");
    reveal_strlit(":target");
    reveal_strlit("#target-pseudo");
    CssFeatureId::lemma_spec_new_parts("official.selector.target");
    assert(catalog_7::features()[52].spec_id()@[8] == '.');
    assert(catalog_7::features()[52].spec_id()@[0] != "excluded."@[0]);
    assert(feature_record_laws(catalog_7::features()[52]));
    reveal_strlit("official.selector.lang");
    reveal_strlit(":lang()");
    reveal_strlit("#lang-pseudo");
    CssFeatureId::lemma_spec_new_parts("official.selector.lang");
    assert(catalog_7::features()[53].spec_id()@[8] == '.');
    assert(catalog_7::features()[53].spec_id()@[0] != "excluded."@[0]);
    assert(feature_record_laws(catalog_7::features()[53]));
    reveal_strlit("official.selector.ui-state");
    reveal_strlit(":enabled, :disabled, :checked, :indeterminate");
    reveal_strlit("#UIstates");
    CssFeatureId::lemma_spec_new_parts("official.selector.ui-state");
    assert(catalog_7::features()[54].spec_id()@[8] == '.');
    assert(catalog_7::features()[54].spec_id()@[0] != "excluded."@[0]);
    assert(feature_record_laws(catalog_7::features()[54]));
    reveal_strlit("official.selector.structural");
    reveal_strlit("Selectors 3 structural pseudo-classes");
    reveal_strlit("#structural-pseudos");
    CssFeatureId::lemma_spec_new_parts("official.selector.structural");
    assert(catalog_7::features()[55].spec_id()@[8] == '.');
    assert(catalog_7::features()[55].spec_id()@[0] != "excluded."@[0]);
    assert(feature_record_laws(catalog_7::features()[55]));
    reveal_strlit("official.selector.negation");
    reveal_strlit(":not()");
    reveal_strlit("#negation");
    CssFeatureId::lemma_spec_new_parts("official.selector.negation");
    assert(catalog_7::features()[56].spec_id()@[8] == '.');
    assert(catalog_7::features()[56].spec_id()@[0] != "excluded."@[0]);
    assert(feature_record_laws(catalog_7::features()[56]));
    reveal_strlit("official.selector.first-line");
    reveal_strlit(":first-line, ::first-line");
    reveal_strlit("#first-line");
    CssFeatureId::lemma_spec_new_parts("official.selector.first-line");
    assert(catalog_7::features()[57].spec_id()@[8] == '.');
    assert(catalog_7::features()[57].spec_id()@[0] != "excluded."@[0]);
    assert(feature_record_laws(catalog_7::features()[57]));
    reveal_strlit("official.selector.first-letter");
    reveal_strlit(":first-letter, ::first-letter");
    reveal_strlit("#first-letter");
    CssFeatureId::lemma_spec_new_parts("official.selector.first-letter");
    assert(catalog_7::features()[58].spec_id()@[8] == '.');
    assert(catalog_7::features()[58].spec_id()@[0] != "excluded."@[0]);
    assert(feature_record_laws(catalog_7::features()[58]));
    reveal_strlit("official.selector.generated");
    reveal_strlit("::before, ::after");
    reveal_strlit("#gen-content");
    CssFeatureId::lemma_spec_new_parts("official.selector.generated");
    assert(catalog_7::features()[59].spec_id()@[8] == '.');
    assert(catalog_7::features()[59].spec_id()@[0] != "excluded."@[0]);
    assert(feature_record_laws(catalog_7::features()[59]));
}

#[verifier::rlimit(100)]
proof fn lemma_catalog_8_laws()
    ensures
        forall|i: int| 0 <= i < catalog_8::features().len() ==> feature_record_laws(#[trigger] catalog_8::features()[i]),
{
    broadcast use {CssFeatureMetadata::lemma_complete_parts, CssFeatureMetadata::lemma_partial_parts, CssFeatureMetadata::lemma_baseline_alias_parts, CssFeatureMetadata::lemma_recognized_unsupported_parts, CssFeatureMetadata::lemma_partial_property_parts, CssFeatureMetadata::lemma_complete_property_parts, CssFeatureMetadata::lemma_partial_property_with_boundary_parts};

    reveal(catalog_8::features);
    reveal(spec_specification_sources);
    reveal(sources::source_list);
    reveal(spec_property_source);
    reveal(spec_property_production);
    lemma_property_sources_registered();
    reveal_strlit("#propdef-");
    assert(sources::source_list()[3] == o_media3());
    assert(sources::source_list()[6] == o_namespaces3());
    assert(sources::source_list()[5] == o_selectors3());
    assert(sources::source_list()[29] == r_conditional4());
    assert(sources::source_list()[24] == r_media4());
    assert(sources::source_list()[64] == x_display_mode_base());
    assert(sources::source_list()[55] == x_media5());
    assert(sources::source_list()[53] == x_pseudo4());
    assert(sources::source_list()[54] == x_values4());
    reveal_strlit("The property-specific parser behavior at 4b288d6:src/parser/mod.rs, plus whole-value CSS-wide keywords and syntactically admissible substitution-dependent authored values, is supported.");
    reveal_strlit("Other valid forms of the cited property production are outside the I01 subset.");
    reveal_strlit("excluded.");
    reveal_strlit("official.selector.combinator.descendant");
    reveal_strlit("descendant combinator");
    reveal_strlit("#descendant-combinators");
    CssFeatureId::lemma_spec_new_parts("official.selector.combinator.descendant");
    assert(catalog_8::features()[0].spec_id()@[8] == '.');
    assert(catalog_8::features()[0].spec_id()@[0] != "excluded."@[0]);
    assert(feature_record_laws(catalog_8::features()[0]));
    reveal_strlit("official.selector.combinator.child");
    reveal_strlit("child combinator >");
    reveal_strlit("#child-combinators");
    CssFeatureId::lemma_spec_new_parts("official.selector.combinator.child");
    assert(catalog_8::features()[1].spec_id()@[8] == '.');
    assert(catalog_8::features()[1].spec_id()@[0] != "excluded."@[0]);
    assert(feature_record_laws(catalog_8::features()[1]));
    reveal_strlit("official.selector.combinator.next-sibling");
    reveal_strlit("next-sibling combinator +");
    reveal_strlit("#adjacent-sibling-combinators");
    CssFeatureId::lemma_spec_new_parts("official.selector.combinator.next-sibling");
    assert(catalog_8::features()[2].spec_id()@[8] == '.');
    assert(catalog_8::features()[2].spec_id()@[0] != "excluded."@[0]);
    assert(feature_record_laws(catalog_8::features()[2]));
    reveal_strlit("official.selector.combinator.subsequent-sibling");
    reveal_strlit("subsequent-sibling combinator ~");
    reveal_strlit("#general-sibling-combinators");
    CssFeatureId::lemma_spec_new_parts("official.selector.combinator.subsequent-sibling");
    assert(catalog_8::features()[3].spec_id()@[8] == '.');
    assert(catalog_8::features()[3].spec_id()@[0] != "excluded."@[0]);
    assert(feature_record_laws(catalog_8::features()[3]));
    reveal_strlit("official.selector.namespace-qualified-name");
    reveal_strlit("default, explicit-none, any, and named selector namespace constraints");
    reveal_strlit("#scope,#prefixes,#css-qnames");
    CssFeatureId::lemma_spec_new_parts("official.selector.namespace-qualified-name");
    assert(catalog_8::features()[4].spec_id()@[8] == '.');
    assert(catalog_8::features()[4].spec_id()@[0] != "excluded."@[0]);
    assert(feature_record_laws(catalog_8::features()[4]));
    reveal_strlit("ext.pseudo-element.marker");
    reveal_strlit("::marker");
    reveal_strlit("#marker-pseudo");
    CssFeatureId::lemma_spec_new_parts("ext.pseudo-element.marker");
    assert(catalog_8::features()[5].spec_id()@[3] == '.');
    assert(catalog_8::features()[5].spec_id()@[2] != "excluded."@[2]);
    assert(feature_record_laws(catalog_8::features()[5]));
    reveal_strlit("ext.pseudo-element.selection");
    reveal_strlit("::selection");
    reveal_strlit("#selectordef-selection");
    CssFeatureId::lemma_spec_new_parts("ext.pseudo-element.selection");
    assert(catalog_8::features()[6].spec_id()@[3] == '.');
    assert(catalog_8::features()[6].spec_id()@[2] != "excluded."@[2]);
    assert(feature_record_laws(catalog_8::features()[6]));
    reveal_strlit("ext.pseudo-element.backdrop");
    reveal_strlit("::backdrop");
    reveal_strlit("#selectordef-backdrop");
    CssFeatureId::lemma_spec_new_parts("ext.pseudo-element.backdrop");
    assert(catalog_8::features()[7].spec_id()@[3] == '.');
    assert(catalog_8::features()[7].spec_id()@[2] != "excluded."@[2]);
    assert(feature_record_laws(catalog_8::features()[7]));
    reveal_strlit("ext.pseudo-element.generated-marker");
    reveal_strlit("::before::marker, ::after::marker");
    CssFeatureId::lemma_spec_new_parts("ext.pseudo-element.generated-marker");
    assert(catalog_8::features()[8].spec_id()@[3] == '.');
    assert(catalog_8::features()[8].spec_id()@[2] != "excluded."@[2]);
    assert(feature_record_laws(catalog_8::features()[8]));
    reveal_strlit("official.media.query-list-core");
    reveal_strlit("Media Queries 3 query-list core");
    reveal_strlit("#syntax");
    CssFeatureId::lemma_spec_new_parts("official.media.query-list-core");
    assert(catalog_8::features()[9].spec_id()@[8] == '.');
    assert(catalog_8::features()[9].spec_id()@[0] != "excluded."@[0]);
    assert(feature_record_laws(catalog_8::features()[9]));
    reveal_strlit("ext.media.condition-syntax");
    reveal_strlit("not, and, and comma-separated condition syntax");
    reveal_strlit("#mq-syntax");
    CssFeatureId::lemma_spec_new_parts("ext.media.condition-syntax");
    assert(catalog_8::features()[10].spec_id()@[3] == '.');
    assert(catalog_8::features()[10].spec_id()@[2] != "excluded."@[2]);
    assert(feature_record_laws(catalog_8::features()[10]));
    reveal_strlit("ext.media.malformed-member-never");
    reveal_strlit("malformed query-list members become Never");
    reveal_strlit("#mq-invalid");
    CssFeatureId::lemma_spec_new_parts("ext.media.malformed-member-never");
    assert(catalog_8::features()[11].spec_id()@[3] == '.');
    assert(catalog_8::features()[11].spec_id()@[2] != "excluded."@[2]);
    assert(feature_record_laws(catalog_8::features()[11]));
    reveal_strlit("official.media.feature.width");
    reveal_strlit("width, min-width, max-width, including boolean forms where permitted");
    reveal_strlit("#width");
    CssFeatureId::lemma_spec_new_parts("official.media.feature.width");
    assert(catalog_8::features()[12].spec_id()@[8] == '.');
    assert(catalog_8::features()[12].spec_id()@[0] != "excluded."@[0]);
    assert(feature_record_laws(catalog_8::features()[12]));
    reveal_strlit("official.media.feature.height");
    reveal_strlit("height, min-height, max-height, including boolean forms where permitted");
    reveal_strlit("#height");
    CssFeatureId::lemma_spec_new_parts("official.media.feature.height");
    assert(catalog_8::features()[13].spec_id()@[8] == '.');
    assert(catalog_8::features()[13].spec_id()@[0] != "excluded."@[0]);
    assert(feature_record_laws(catalog_8::features()[13]));
    reveal_strlit("official.media.feature.device-width");
    reveal_strlit("device-width, min-device-width, max-device-width, including boolean forms where permitted");
    reveal_strlit("#device-width");
    CssFeatureId::lemma_spec_new_parts("official.media.feature.device-width");
    assert(catalog_8::features()[14].spec_id()@[8] == '.');
    assert(catalog_8::features()[14].spec_id()@[0] != "excluded."@[0]);
    assert(feature_record_laws(catalog_8::features()[14]));
    reveal_strlit("official.media.feature.device-height");
    reveal_strlit("device-height, min-device-height, max-device-height, including boolean forms where permitted");
    reveal_strlit("#device-height");
    CssFeatureId::lemma_spec_new_parts("official.media.feature.device-height");
    assert(catalog_8::features()[15].spec_id()@[8] == '.');
    assert(catalog_8::features()[15].spec_id()@[0] != "excluded."@[0]);
    assert(feature_record_laws(catalog_8::features()[15]));
    reveal_strlit("official.media.feature.aspect-ratio");
    reveal_strlit("aspect-ratio, min-aspect-ratio, max-aspect-ratio, including boolean forms where permitted");
    reveal_strlit("#aspect-ratio");
    CssFeatureId::lemma_spec_new_parts("official.media.feature.aspect-ratio");
    assert(catalog_8::features()[16].spec_id()@[8] == '.');
    assert(catalog_8::features()[16].spec_id()@[0] != "excluded."@[0]);
    assert(feature_record_laws(catalog_8::features()[16]));
    reveal_strlit("official.media.feature.device-aspect-ratio");
    reveal_strlit("device-aspect-ratio, min-device-aspect-ratio, max-device-aspect-ratio, including boolean forms where permitted");
    reveal_strlit("#device-aspect-ratio");
    CssFeatureId::lemma_spec_new_parts("official.media.feature.device-aspect-ratio");
    assert(catalog_8::features()[17].spec_id()@[8] == '.');
    assert(catalog_8::features()[17].spec_id()@[0] != "excluded."@[0]);
    assert(feature_record_laws(catalog_8::features()[17]));
    reveal_strlit("official.media.feature.resolution");
    reveal_strlit("resolution, min-resolution, max-resolution with dpi and dpcm, including boolean forms where permitted");
    reveal_strlit("#resolution");
    CssFeatureId::lemma_spec_new_parts("official.media.feature.resolution");
    assert(catalog_8::features()[18].spec_id()@[8] == '.');
    assert(catalog_8::features()[18].spec_id()@[0] != "excluded."@[0]);
    assert(feature_record_laws(catalog_8::features()[18]));
    reveal_strlit("official.media.feature.color");
    reveal_strlit("color, min-color, max-color, including boolean forms where permitted");
    reveal_strlit("#color");
    CssFeatureId::lemma_spec_new_parts("official.media.feature.color");
    assert(catalog_8::features()[19].spec_id()@[8] == '.');
    assert(catalog_8::features()[19].spec_id()@[0] != "excluded."@[0]);
    assert(feature_record_laws(catalog_8::features()[19]));
    reveal_strlit("official.media.feature.color-index");
    reveal_strlit("color-index, min-color-index, max-color-index, including boolean forms where permitted");
    reveal_strlit("#color-index");
    CssFeatureId::lemma_spec_new_parts("official.media.feature.color-index");
    assert(catalog_8::features()[20].spec_id()@[8] == '.');
    assert(catalog_8::features()[20].spec_id()@[0] != "excluded."@[0]);
    assert(feature_record_laws(catalog_8::features()[20]));
    reveal_strlit("official.media.feature.monochrome");
    reveal_strlit("monochrome, min-monochrome, max-monochrome, including boolean forms where permitted");
    reveal_strlit("#monochrome");
    CssFeatureId::lemma_spec_new_parts("official.media.feature.monochrome");
    assert(catalog_8::features()[21].spec_id()@[8] == '.');
    assert(catalog_8::features()[21].spec_id()@[0] != "excluded."@[0]);
    assert(feature_record_laws(catalog_8::features()[21]));
    reveal_strlit("official.media.feature.scan");
    reveal_strlit("scan, including its boolean form");
    reveal_strlit("#scan");
    CssFeatureId::lemma_spec_new_parts("official.media.feature.scan");
    assert(catalog_8::features()[22].spec_id()@[8] == '.');
    assert(catalog_8::features()[22].spec_id()@[0] != "excluded."@[0]);
    assert(feature_record_laws(catalog_8::features()[22]));
    reveal_strlit("official.media.feature.grid");
    reveal_strlit("grid, including its boolean form");
    reveal_strlit("#grid");
    CssFeatureId::lemma_spec_new_parts("official.media.feature.grid");
    assert(catalog_8::features()[23].spec_id()@[8] == '.');
    assert(catalog_8::features()[23].spec_id()@[0] != "excluded."@[0]);
    assert(feature_record_laws(catalog_8::features()[23]));
    reveal_strlit("ext.media.resolution.dppx");
    reveal_strlit("dppx resolution unit");
    CssFeatureId::lemma_spec_new_parts("ext.media.resolution.dppx");
    assert(catalog_8::features()[24].spec_id()@[3] == '.');
    assert(catalog_8::features()[24].spec_id()@[2] != "excluded."@[2]);
    assert(feature_record_laws(catalog_8::features()[24]));
    reveal_strlit("ext.supports.general-enclosed");
    reveal_strlit("general-enclosed supports condition");
    reveal_strlit("css-values-4/Overview.bs#general-enclosed");
    CssFeatureId::lemma_spec_new_parts("ext.supports.general-enclosed");
    assert(catalog_8::features()[25].spec_id()@[3] == '.');
    assert(catalog_8::features()[25].spec_id()@[2] != "excluded."@[2]);
    assert(feature_record_laws(catalog_8::features()[25]));
    reveal_strlit("selector() accepts complete Selectors 3 plus the selected I01 extensions: i and s attribute modifiers; :scope, :focus-visible, :focus-within, :required, :optional, :valid, :invalid, :placeholder-shown, :modal, :fullscreen, :popover-open, :default, :indeterminate, :read-only, :read-write, :in-range, and :out-of-range; :is(), :where(), :has(), selector-list :not(), and nth-child of lists; and ::marker, ::selection, ::backdrop, and generated-marker sequences.");
    reveal_strlit("The || combinator, unselected Selectors 4 pseudo-classes and pseudo-elements, and syntax outside those atomic extension rows remain outside the typed subset; balanced content is preserved as general-enclosed authored syntax.");
    reveal_strlit("ext.supports.selector");
    reveal_strlit("selector() supports test");
    reveal_strlit("#at-supports");
    CssFeatureId::lemma_spec_new_parts("ext.supports.selector");
    assert(catalog_8::features()[26].spec_id()@[3] == '.');
    assert(catalog_8::features()[26].spec_id()@[2] != "excluded."@[2]);
    assert(feature_record_laws(catalog_8::features()[26]));
    reveal_strlit("ext.media.range.width");
    reveal_strlit("width comparison form");
    reveal_strlit("One-sided finite authored length comparisons are supported.");
    reveal_strlit("Other valid Media Queries 4 width range forms are outside the I01 subset.");
    CssFeatureId::lemma_spec_new_parts("ext.media.range.width");
    assert(catalog_8::features()[27].spec_id()@[3] == '.');
    assert(catalog_8::features()[27].spec_id()@[2] != "excluded."@[2]);
    assert(feature_record_laws(catalog_8::features()[27]));
    reveal_strlit("ext.media.range.height");
    reveal_strlit("height comparison form");
    reveal_strlit("Other valid Media Queries 4 height range forms are outside the I01 subset.");
    CssFeatureId::lemma_spec_new_parts("ext.media.range.height");
    assert(catalog_8::features()[28].spec_id()@[3] == '.');
    assert(catalog_8::features()[28].spec_id()@[2] != "excluded."@[2]);
    assert(feature_record_laws(catalog_8::features()[28]));
    reveal_strlit("ext.media.range.resolution");
    reveal_strlit("resolution comparison form");
    reveal_strlit("One-sided finite positive resolution comparisons are supported.");
    reveal_strlit("Other valid Media Queries 4 resolution range forms are outside the I01 subset.");
    CssFeatureId::lemma_spec_new_parts("ext.media.range.resolution");
    assert(catalog_8::features()[29].spec_id()@[3] == '.');
    assert(catalog_8::features()[29].spec_id()@[2] != "excluded."@[2]);
    assert(feature_record_laws(catalog_8::features()[29]));
    reveal_strlit("ext.media.range.color");
    reveal_strlit("color comparison form");
    reveal_strlit("One-sided non-negative integer color comparisons are supported.");
    reveal_strlit("Other valid Media Queries 4 color range forms are outside the I01 subset.");
    CssFeatureId::lemma_spec_new_parts("ext.media.range.color");
    assert(catalog_8::features()[30].spec_id()@[3] == '.');
    assert(catalog_8::features()[30].spec_id()@[2] != "excluded."@[2]);
    assert(feature_record_laws(catalog_8::features()[30]));
    reveal_strlit("ext.media.range.monochrome");
    reveal_strlit("monochrome comparison form");
    reveal_strlit("One-sided non-negative integer monochrome comparisons are supported.");
    reveal_strlit("Other valid Media Queries 4 monochrome range forms are outside the I01 subset.");
    CssFeatureId::lemma_spec_new_parts("ext.media.range.monochrome");
    assert(catalog_8::features()[31].spec_id()@[3] == '.');
    assert(catalog_8::features()[31].spec_id()@[2] != "excluded."@[2]);
    assert(feature_record_laws(catalog_8::features()[31]));
    reveal_strlit("official.media.feature.orientation");
    reveal_strlit("orientation");
    reveal_strlit("#orientation");
    CssFeatureId::lemma_spec_new_parts("official.media.feature.orientation");
    assert(catalog_8::features()[32].spec_id()@[8] == '.');
    assert(catalog_8::features()[32].spec_id()@[0] != "excluded."@[0]);
    assert(feature_record_laws(catalog_8::features()[32]));
    reveal_strlit("ext.media.hover");
    reveal_strlit("hover");
    reveal_strlit("#hover");
    CssFeatureId::lemma_spec_new_parts("ext.media.hover");
    assert(catalog_8::features()[33].spec_id()@[3] == '.');
    assert(catalog_8::features()[33].spec_id()@[2] != "excluded."@[2]);
    assert(feature_record_laws(catalog_8::features()[33]));
    reveal_strlit("ext.media.any-hover");
    reveal_strlit("any-hover");
    reveal_strlit("#any-hover");
    CssFeatureId::lemma_spec_new_parts("ext.media.any-hover");
    assert(catalog_8::features()[34].spec_id()@[3] == '.');
    assert(catalog_8::features()[34].spec_id()@[2] != "excluded."@[2]);
    assert(feature_record_laws(catalog_8::features()[34]));
    reveal_strlit("ext.media.pointer");
    reveal_strlit("pointer");
    reveal_strlit("#pointer");
    CssFeatureId::lemma_spec_new_parts("ext.media.pointer");
    assert(catalog_8::features()[35].spec_id()@[3] == '.');
    assert(catalog_8::features()[35].spec_id()@[2] != "excluded."@[2]);
    assert(feature_record_laws(catalog_8::features()[35]));
    reveal_strlit("ext.media.any-pointer");
    reveal_strlit("any-pointer");
    reveal_strlit("#any-pointer");
    CssFeatureId::lemma_spec_new_parts("ext.media.any-pointer");
    assert(catalog_8::features()[36].spec_id()@[3] == '.');
    assert(catalog_8::features()[36].spec_id()@[2] != "excluded."@[2]);
    assert(feature_record_laws(catalog_8::features()[36]));
    reveal_strlit("ext.media.prefers-color-scheme");
    reveal_strlit("prefers-color-scheme");
    reveal_strlit("#prefers-color-scheme");
    CssFeatureId::lemma_spec_new_parts("ext.media.prefers-color-scheme");
    assert(catalog_8::features()[37].spec_id()@[3] == '.');
    assert(catalog_8::features()[37].spec_id()@[2] != "excluded."@[2]);
    assert(feature_record_laws(catalog_8::features()[37]));
    reveal_strlit("ext.media.prefers-reduced-motion");
    reveal_strlit("prefers-reduced-motion");
    reveal_strlit("#prefers-reduced-motion");
    CssFeatureId::lemma_spec_new_parts("ext.media.prefers-reduced-motion");
    assert(catalog_8::features()[38].spec_id()@[3] == '.');
    assert(catalog_8::features()[38].spec_id()@[2] != "excluded."@[2]);
    assert(feature_record_laws(catalog_8::features()[38]));
    reveal_strlit("ext.media.prefers-reduced-transparency");
    reveal_strlit("prefers-reduced-transparency");
    reveal_strlit("#prefers-reduced-transparency");
    CssFeatureId::lemma_spec_new_parts("ext.media.prefers-reduced-transparency");
    assert(catalog_8::features()[39].spec_id()@[3] == '.');
    assert(catalog_8::features()[39].spec_id()@[2] != "excluded."@[2]);
    assert(feature_record_laws(catalog_8::features()[39]));
    reveal_strlit("ext.media.prefers-contrast");
    reveal_strlit("prefers-contrast");
    reveal_strlit("#prefers-contrast");
    CssFeatureId::lemma_spec_new_parts("ext.media.prefers-contrast");
    assert(catalog_8::features()[40].spec_id()@[3] == '.');
    assert(catalog_8::features()[40].spec_id()@[2] != "excluded."@[2]);
    assert(feature_record_laws(catalog_8::features()[40]));
    reveal_strlit("ext.media.forced-colors");
    reveal_strlit("forced-colors");
    reveal_strlit("#forced-colors");
    CssFeatureId::lemma_spec_new_parts("ext.media.forced-colors");
    assert(catalog_8::features()[41].spec_id()@[3] == '.');
    assert(catalog_8::features()[41].spec_id()@[2] != "excluded."@[2]);
    assert(feature_record_laws(catalog_8::features()[41]));
    reveal_strlit("ext.media.display-mode");
    reveal_strlit("display-mode");
    reveal_strlit("display-mode baseline subset");
    CssFeatureId::lemma_spec_new_parts("ext.media.display-mode");
    assert(catalog_8::features()[42].spec_id()@[3] == '.');
    assert(catalog_8::features()[42].spec_id()@[2] != "excluded."@[2]);
    assert(feature_record_laws(catalog_8::features()[42]));
}

/// Every record of the catalog cites a registered source, every support-boundary description it
/// gives is non-empty, its identity holds a dot and begins with a lowercase letter and not with
/// `excluded.`, it lists no property aliases, and a
/// property record cites `#propdef-` and its spelling, after a chapter file exactly for CSS 2.1
/// properties.
pub proof fn lemma_feature_records_lawful()
    ensures
        forall|i: int|
            0 <= i < spec_feature_catalog().len() ==> feature_record_laws(#[trigger] spec_feature_catalog()[i]),
{
    reveal(spec_feature_catalog);
    catalog_1::lemma_features_len();
    lemma_catalog_1_laws();
    catalog_2::lemma_features_len();
    lemma_catalog_2_laws();
    catalog_3::lemma_features_len();
    lemma_catalog_3_laws();
    catalog_4::lemma_features_len();
    lemma_catalog_4_laws();
    catalog_5::lemma_features_len();
    lemma_catalog_5_laws();
    catalog_6::lemma_features_len();
    lemma_catalog_6_laws();
    catalog_7::lemma_features_len();
    lemma_catalog_7_laws();
    catalog_8::lemma_features_len();
    lemma_catalog_8_laws();
    let c = spec_feature_catalog();
    assert forall|i: int| 0 <= i < 60 implies feature_record_laws(#[trigger] c[i]) by {
        assert(c[i] == catalog_1::features()[i - 0]);
    }
    assert forall|i: int| 60 <= i < 120 implies feature_record_laws(#[trigger] c[i]) by {
        assert(c[i] == catalog_2::features()[i - 60]);
    }
    assert forall|i: int| 120 <= i < 180 implies feature_record_laws(#[trigger] c[i]) by {
        assert(c[i] == catalog_3::features()[i - 120]);
    }
    assert forall|i: int| 180 <= i < 240 implies feature_record_laws(#[trigger] c[i]) by {
        assert(c[i] == catalog_4::features()[i - 180]);
    }
    assert forall|i: int| 240 <= i < 300 implies feature_record_laws(#[trigger] c[i]) by {
        assert(c[i] == catalog_5::features()[i - 240]);
    }
    assert forall|i: int| 300 <= i < 360 implies feature_record_laws(#[trigger] c[i]) by {
        assert(c[i] == catalog_6::features()[i - 300]);
    }
    assert forall|i: int| 360 <= i < 420 implies feature_record_laws(#[trigger] c[i]) by {
        assert(c[i] == catalog_7::features()[i - 360]);
    }
    assert forall|i: int| 420 <= i < 463 implies feature_record_laws(#[trigger] c[i]) by {
        assert(c[i] == catalog_8::features()[i - 420]);
    }
}

} // verus!
