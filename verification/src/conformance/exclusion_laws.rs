//! Laws that hold of every record of the conformance-exclusion registry.
use vstd::prelude::*;

use super::sources::{o_backgrounds3, o_box3, o_cascade4, o_color4, o_compositing1, o_conditional3, o_contain1, o_counterstyles3, o_css2, o_easing1, o_flexbox1, o_fonts3, o_images3, o_media3, o_multicol1, o_namespaces3, o_selectors3, o_style_attr, o_syntax3, o_transforms1, o_ui3, o_values3, o_variables1, o_writing3};
use super::catalog_laws::{feature_record_laws, lemma_feature_records_lawful};
use super::{exclusions, has_prefix, sources, spec_conformance_exclusions, spec_feature_catalog, spec_specification_sources, CssExclusionMetadata, CssExclusionReason, CssSpecificationSource, CssSpecificationTier};

verus! {

/// The prefix `excluded.<source>.` of the identity of an exclusion drawn from the source whose
/// identity is `source_id`.
pub open spec fn exclusion_id_prefix(source_id: Seq<char>) -> Seq<char> {
    "excluded."@ + source_id + "."@
}

/// Whether the exclusion cites a registered official source, and its identity begins with
/// `excluded.`, that source's identity and a dot.
pub open spec fn exclusion_cites_registered_official_source(exclusion: CssExclusionMetadata) -> bool {
    &&& exclusion.spec_source().spec_tier() == CssSpecificationTier::Snapshot2026Official
    &&& spec_specification_sources().contains(exclusion.spec_source())
    &&& has_prefix(exclusion.spec_id()@, exclusion_id_prefix(exclusion.spec_source().spec_id()@))
}

/// Whether the exclusion names superseding identities only when the item was superseded, and
/// then names at least one.
pub open spec fn superseding_ids_well_formed(exclusion: CssExclusionMetadata) -> bool {
    match exclusion.spec_superseding_ids() {
        None => true,
        Some(ids) => ids@.len() >= 1 && exclusion.spec_reason()
            == CssExclusionReason::SupersededWithoutCurrentProduction,
    }
}

/// Both record laws of the registry.
pub open spec fn exclusion_record_laws(exclusion: CssExclusionMetadata) -> bool {
    exclusion_cites_registered_official_source(exclusion) && superseding_ids_well_formed(exclusion)
}

#[verifier::rlimit(100)]
proof fn lemma_exclusions_1_laws()
    ensures
        forall|i: int| 0 <= i < exclusions::exclusions_1().len() ==> exclusion_record_laws(#[trigger] exclusions::exclusions_1()[i]),
{
    broadcast use {CssExclusionMetadata::lemma_new_parts, CssSpecificationSource::lemma_from_url_parts, CssSpecificationSource::lemma_from_repository_parts};

    reveal(exclusions::exclusions_1);
    reveal(spec_specification_sources);
    reveal(sources::source_list);
    reveal_strlit("excluded.");
    reveal_strlit(".");
    reveal_strlit("O-CSS2");
    assert(sources::source_list()[0] == o_css2());
    reveal_strlit("O-UI3");
    assert(sources::source_list()[18] == o_ui3());
    reveal_strlit("O-WRITING3");
    assert(sources::source_list()[15] == o_writing3());
    reveal_strlit("excluded.O-WRITING3.property.glyph-orientation-horizontal");
    assert(exclusion_record_laws(exclusions::exclusions_1()[0]));
    reveal_strlit("excluded.O-UI3.property.ime-mode");
    assert(exclusion_record_laws(exclusions::exclusions_1()[1]));
    reveal_strlit("excluded.O-CSS2.property.margin");
    assert(exclusion_record_laws(exclusions::exclusions_1()[2]));
    reveal_strlit("excluded.O-CSS2.property.margin-bottom");
    assert(exclusion_record_laws(exclusions::exclusions_1()[3]));
    reveal_strlit("excluded.O-CSS2.property.margin-left");
    assert(exclusion_record_laws(exclusions::exclusions_1()[4]));
    reveal_strlit("excluded.O-CSS2.property.margin-right");
    assert(exclusion_record_laws(exclusions::exclusions_1()[5]));
    reveal_strlit("excluded.O-CSS2.property.margin-top");
    assert(exclusion_record_laws(exclusions::exclusions_1()[6]));
    reveal_strlit("excluded.O-CSS2.property.padding");
    assert(exclusion_record_laws(exclusions::exclusions_1()[7]));
    reveal_strlit("excluded.O-CSS2.property.padding-bottom");
    assert(exclusion_record_laws(exclusions::exclusions_1()[8]));
    reveal_strlit("excluded.O-CSS2.property.padding-left");
    assert(exclusion_record_laws(exclusions::exclusions_1()[9]));
    reveal_strlit("excluded.O-CSS2.property.padding-right");
    assert(exclusion_record_laws(exclusions::exclusions_1()[10]));
    reveal_strlit("excluded.O-CSS2.property.padding-top");
    assert(exclusion_record_laws(exclusions::exclusions_1()[11]));
    reveal_strlit("excluded.O-CSS2.property.color");
    assert(exclusion_record_laws(exclusions::exclusions_1()[12]));
    reveal_strlit("excluded.O-CSS2.property.background");
    assert(exclusion_record_laws(exclusions::exclusions_1()[13]));
    reveal_strlit("excluded.O-CSS2.property.background-attachment");
    assert(exclusion_record_laws(exclusions::exclusions_1()[14]));
    reveal_strlit("excluded.O-CSS2.property.background-color");
    assert(exclusion_record_laws(exclusions::exclusions_1()[15]));
    reveal_strlit("excluded.O-CSS2.property.background-image");
    assert(exclusion_record_laws(exclusions::exclusions_1()[16]));
    reveal_strlit("excluded.O-CSS2.property.background-position");
    assert(exclusion_record_laws(exclusions::exclusions_1()[17]));
    reveal_strlit("excluded.O-CSS2.property.background-repeat");
    assert(exclusion_record_laws(exclusions::exclusions_1()[18]));
    reveal_strlit("excluded.O-CSS2.property.border");
    assert(exclusion_record_laws(exclusions::exclusions_1()[19]));
    reveal_strlit("excluded.O-CSS2.property.border-bottom");
    assert(exclusion_record_laws(exclusions::exclusions_1()[20]));
    reveal_strlit("excluded.O-CSS2.property.border-bottom-color");
    assert(exclusion_record_laws(exclusions::exclusions_1()[21]));
    reveal_strlit("excluded.O-CSS2.property.border-bottom-style");
    assert(exclusion_record_laws(exclusions::exclusions_1()[22]));
    reveal_strlit("excluded.O-CSS2.property.border-bottom-width");
    assert(exclusion_record_laws(exclusions::exclusions_1()[23]));
    reveal_strlit("excluded.O-CSS2.property.border-color");
    assert(exclusion_record_laws(exclusions::exclusions_1()[24]));
    reveal_strlit("excluded.O-CSS2.property.border-left");
    assert(exclusion_record_laws(exclusions::exclusions_1()[25]));
    reveal_strlit("excluded.O-CSS2.property.border-left-color");
    assert(exclusion_record_laws(exclusions::exclusions_1()[26]));
    reveal_strlit("excluded.O-CSS2.property.border-left-style");
    assert(exclusion_record_laws(exclusions::exclusions_1()[27]));
    reveal_strlit("excluded.O-CSS2.property.border-left-width");
    assert(exclusion_record_laws(exclusions::exclusions_1()[28]));
    reveal_strlit("excluded.O-CSS2.property.border-right");
    assert(exclusion_record_laws(exclusions::exclusions_1()[29]));
    reveal_strlit("excluded.O-CSS2.property.border-right-color");
    assert(exclusion_record_laws(exclusions::exclusions_1()[30]));
    reveal_strlit("excluded.O-CSS2.property.border-right-style");
    assert(exclusion_record_laws(exclusions::exclusions_1()[31]));
    reveal_strlit("excluded.O-CSS2.property.border-right-width");
    assert(exclusion_record_laws(exclusions::exclusions_1()[32]));
    reveal_strlit("excluded.O-CSS2.property.border-style");
    assert(exclusion_record_laws(exclusions::exclusions_1()[33]));
    reveal_strlit("excluded.O-CSS2.property.border-top");
    assert(exclusion_record_laws(exclusions::exclusions_1()[34]));
    reveal_strlit("excluded.O-CSS2.property.border-top-color");
    assert(exclusion_record_laws(exclusions::exclusions_1()[35]));
    reveal_strlit("excluded.O-CSS2.property.border-top-style");
    assert(exclusion_record_laws(exclusions::exclusions_1()[36]));
    reveal_strlit("excluded.O-CSS2.property.border-top-width");
    assert(exclusion_record_laws(exclusions::exclusions_1()[37]));
    reveal_strlit("excluded.O-CSS2.property.border-width");
    assert(exclusion_record_laws(exclusions::exclusions_1()[38]));
    reveal_strlit("excluded.O-CSS2.property.font");
    assert(exclusion_record_laws(exclusions::exclusions_1()[39]));
    reveal_strlit("excluded.O-CSS2.property.font-family");
    assert(exclusion_record_laws(exclusions::exclusions_1()[40]));
    reveal_strlit("excluded.O-CSS2.property.font-size");
    assert(exclusion_record_laws(exclusions::exclusions_1()[41]));
    reveal_strlit("excluded.O-CSS2.property.font-style");
    assert(exclusion_record_laws(exclusions::exclusions_1()[42]));
    reveal_strlit("excluded.O-CSS2.property.font-variant");
    assert(exclusion_record_laws(exclusions::exclusions_1()[43]));
    reveal_strlit("excluded.O-CSS2.property.font-weight");
    assert(exclusion_record_laws(exclusions::exclusions_1()[44]));
    reveal_strlit("excluded.O-CSS2.property.direction");
    assert(exclusion_record_laws(exclusions::exclusions_1()[45]));
    reveal_strlit("excluded.O-CSS2.property.unicode-bidi");
    assert(exclusion_record_laws(exclusions::exclusions_1()[46]));
    reveal_strlit("excluded.O-CSS2.property.cursor");
    assert(exclusion_record_laws(exclusions::exclusions_1()[47]));
    reveal_strlit("excluded.O-CSS2.property.outline");
    assert(exclusion_record_laws(exclusions::exclusions_1()[48]));
    reveal_strlit("excluded.O-CSS2.property.outline-color");
    assert(exclusion_record_laws(exclusions::exclusions_1()[49]));
    reveal_strlit("excluded.O-CSS2.property.outline-style");
    assert(exclusion_record_laws(exclusions::exclusions_1()[50]));
    reveal_strlit("excluded.O-CSS2.property.outline-width");
    assert(exclusion_record_laws(exclusions::exclusions_1()[51]));
    reveal_strlit("excluded.O-CSS2.informative-property.azimuth");
    assert(exclusion_record_laws(exclusions::exclusions_1()[52]));
    reveal_strlit("excluded.O-CSS2.informative-property.cue");
    assert(exclusion_record_laws(exclusions::exclusions_1()[53]));
    reveal_strlit("excluded.O-CSS2.informative-property.cue-after");
    assert(exclusion_record_laws(exclusions::exclusions_1()[54]));
    reveal_strlit("excluded.O-CSS2.informative-property.cue-before");
    assert(exclusion_record_laws(exclusions::exclusions_1()[55]));
    reveal_strlit("excluded.O-CSS2.informative-property.elevation");
    assert(exclusion_record_laws(exclusions::exclusions_1()[56]));
    reveal_strlit("excluded.O-CSS2.informative-property.pause");
    assert(exclusion_record_laws(exclusions::exclusions_1()[57]));
    reveal_strlit("excluded.O-CSS2.informative-property.pause-after");
    assert(exclusion_record_laws(exclusions::exclusions_1()[58]));
    reveal_strlit("excluded.O-CSS2.informative-property.pause-before");
    assert(exclusion_record_laws(exclusions::exclusions_1()[59]));
}

#[verifier::rlimit(100)]
proof fn lemma_exclusions_2_laws()
    ensures
        forall|i: int| 0 <= i < exclusions::exclusions_2().len() ==> exclusion_record_laws(#[trigger] exclusions::exclusions_2()[i]),
{
    broadcast use {CssExclusionMetadata::lemma_new_parts, CssSpecificationSource::lemma_from_url_parts, CssSpecificationSource::lemma_from_repository_parts};

    reveal(exclusions::exclusions_2);
    reveal(spec_specification_sources);
    reveal(sources::source_list);
    reveal_strlit("excluded.");
    reveal_strlit(".");
    reveal_strlit("O-BACKGROUNDS3");
    assert(sources::source_list()[12] == o_backgrounds3());
    reveal_strlit("O-BOX3");
    assert(sources::source_list()[10] == o_box3());
    reveal_strlit("O-CASCADE4");
    assert(sources::source_list()[7] == o_cascade4());
    reveal_strlit("O-COLOR4");
    assert(sources::source_list()[11] == o_color4());
    reveal_strlit("O-COMPOSITING1");
    assert(sources::source_list()[21] == o_compositing1());
    reveal_strlit("O-CONDITIONAL3");
    assert(sources::source_list()[4] == o_conditional3());
    reveal_strlit("O-CONTAIN1");
    assert(sources::source_list()[19] == o_contain1());
    reveal_strlit("O-COUNTERSTYLES3");
    assert(sources::source_list()[23] == o_counterstyles3());
    reveal_strlit("O-CSS2");
    assert(sources::source_list()[0] == o_css2());
    reveal_strlit("O-EASING1");
    assert(sources::source_list()[22] == o_easing1());
    reveal_strlit("O-FLEXBOX1");
    assert(sources::source_list()[17] == o_flexbox1());
    reveal_strlit("O-FONTS3");
    assert(sources::source_list()[14] == o_fonts3());
    reveal_strlit("O-IMAGES3");
    assert(sources::source_list()[13] == o_images3());
    reveal_strlit("O-MEDIA3");
    assert(sources::source_list()[3] == o_media3());
    reveal_strlit("O-MULTICOL1");
    assert(sources::source_list()[16] == o_multicol1());
    reveal_strlit("O-NAMESPACES3");
    assert(sources::source_list()[6] == o_namespaces3());
    reveal_strlit("O-SELECTORS3");
    assert(sources::source_list()[5] == o_selectors3());
    reveal_strlit("O-STYLE-ATTR");
    assert(sources::source_list()[2] == o_style_attr());
    reveal_strlit("O-SYNTAX3");
    assert(sources::source_list()[1] == o_syntax3());
    reveal_strlit("O-TRANSFORMS1");
    assert(sources::source_list()[20] == o_transforms1());
    reveal_strlit("O-UI3");
    assert(sources::source_list()[18] == o_ui3());
    reveal_strlit("O-VALUES3");
    assert(sources::source_list()[8] == o_values3());
    reveal_strlit("O-VARIABLES1");
    assert(sources::source_list()[9] == o_variables1());
    reveal_strlit("O-WRITING3");
    assert(sources::source_list()[15] == o_writing3());
    reveal_strlit("excluded.O-CSS2.informative-property.pitch");
    assert(exclusion_record_laws(exclusions::exclusions_2()[0]));
    reveal_strlit("excluded.O-CSS2.informative-property.pitch-range");
    assert(exclusion_record_laws(exclusions::exclusions_2()[1]));
    reveal_strlit("excluded.O-CSS2.informative-property.play-during");
    assert(exclusion_record_laws(exclusions::exclusions_2()[2]));
    reveal_strlit("excluded.O-CSS2.informative-property.richness");
    assert(exclusion_record_laws(exclusions::exclusions_2()[3]));
    reveal_strlit("excluded.O-CSS2.informative-property.speak");
    assert(exclusion_record_laws(exclusions::exclusions_2()[4]));
    reveal_strlit("excluded.O-CSS2.informative-property.speak-header");
    assert(exclusion_record_laws(exclusions::exclusions_2()[5]));
    reveal_strlit("excluded.O-CSS2.informative-property.speak-numeral");
    assert(exclusion_record_laws(exclusions::exclusions_2()[6]));
    reveal_strlit("excluded.O-CSS2.informative-property.speak-punctuation");
    assert(exclusion_record_laws(exclusions::exclusions_2()[7]));
    reveal_strlit("excluded.O-CSS2.informative-property.speech-rate");
    assert(exclusion_record_laws(exclusions::exclusions_2()[8]));
    reveal_strlit("excluded.O-CSS2.informative-property.stress");
    assert(exclusion_record_laws(exclusions::exclusions_2()[9]));
    reveal_strlit("excluded.O-CSS2.informative-property.voice-family");
    assert(exclusion_record_laws(exclusions::exclusions_2()[10]));
    reveal_strlit("excluded.O-CSS2.informative-property.volume");
    assert(exclusion_record_laws(exclusions::exclusions_2()[11]));
    reveal_strlit("excluded.O-CSS2.superseded-syntax");
    assert(exclusion_record_laws(exclusions::exclusions_2()[12]));
    reveal_strlit("excluded.O-CSS2.superseded-media");
    assert(exclusion_record_laws(exclusions::exclusions_2()[13]));
    reveal_strlit("excluded.O-CSS2.superseded-selectors");
    assert(exclusion_record_laws(exclusions::exclusions_2()[14]));
    reveal_strlit("excluded.O-CSS2.superseded-cascade-values");
    assert(exclusion_record_laws(exclusions::exclusions_2()[15]));
    reveal_strlit("excluded.O-CSS2.non-authored-semantics");
    assert(exclusion_record_laws(exclusions::exclusions_2()[16]));
    reveal_strlit("excluded.O-SYNTAX3.fragment-api");
    assert(exclusion_record_laws(exclusions::exclusions_2()[17]));
    reveal_strlit("excluded.O-SYNTAX3.serialization");
    assert(exclusion_record_laws(exclusions::exclusions_2()[18]));
    reveal_strlit("excluded.O-STYLE-ATTR.interpretation");
    assert(exclusion_record_laws(exclusions::exclusions_2()[19]));
    reveal_strlit("excluded.O-MEDIA3.evaluation");
    assert(exclusion_record_laws(exclusions::exclusions_2()[20]));
    reveal_strlit("excluded.O-CONDITIONAL3.evaluation-api");
    assert(exclusion_record_laws(exclusions::exclusions_2()[21]));
    reveal_strlit("excluded.O-SELECTORS3.matching-specificity");
    assert(exclusion_record_laws(exclusions::exclusions_2()[22]));
    reveal_strlit("excluded.O-NAMESPACES3.uri-matching");
    assert(exclusion_record_laws(exclusions::exclusions_2()[23]));
    reveal_strlit("excluded.O-CASCADE4.processing");
    assert(exclusion_record_laws(exclusions::exclusions_2()[24]));
    reveal_strlit("excluded.O-VALUES3.metasyntax");
    assert(exclusion_record_laws(exclusions::exclusions_2()[25]));
    reveal_strlit("excluded.O-VALUES3.computation");
    assert(exclusion_record_laws(exclusions::exclusions_2()[26]));
    reveal_strlit("excluded.O-VARIABLES1.substitution");
    assert(exclusion_record_laws(exclusions::exclusions_2()[27]));
    reveal_strlit("excluded.O-BOX3.layout");
    assert(exclusion_record_laws(exclusions::exclusions_2()[28]));
    reveal_strlit("excluded.O-COLOR4.color5-syntax");
    assert(exclusion_record_laws(exclusions::exclusions_2()[29]));
    reveal_strlit("excluded.O-COLOR4.quirky-color");
    assert(exclusion_record_laws(exclusions::exclusions_2()[30]));
    reveal_strlit("excluded.O-COLOR4.processing");
    assert(exclusion_record_laws(exclusions::exclusions_2()[31]));
    reveal_strlit("excluded.O-BACKGROUNDS3.painting");
    assert(exclusion_record_laws(exclusions::exclusions_2()[32]));
    reveal_strlit("excluded.O-IMAGES3.processing");
    assert(exclusion_record_laws(exclusions::exclusions_2()[33]));
    reveal_strlit("excluded.O-FONTS3.processing");
    assert(exclusion_record_laws(exclusions::exclusions_2()[34]));
    reveal_strlit("excluded.O-FONTS3.font-display");
    assert(exclusion_record_laws(exclusions::exclusions_2()[35]));
    reveal_strlit("excluded.O-FONTS3.font-feature-values");
    assert(exclusion_record_laws(exclusions::exclusions_2()[36]));
    reveal_strlit("excluded.O-WRITING3.layout");
    assert(exclusion_record_laws(exclusions::exclusions_2()[37]));
    reveal_strlit("excluded.O-MULTICOL1.layout");
    assert(exclusion_record_laws(exclusions::exclusions_2()[38]));
    reveal_strlit("excluded.O-FLEXBOX1.layout");
    assert(exclusion_record_laws(exclusions::exclusions_2()[39]));
    reveal_strlit("excluded.O-FLEXBOX1.webkit-legacy");
    assert(exclusion_record_laws(exclusions::exclusions_2()[40]));
    reveal_strlit("excluded.O-UI3.behavior");
    assert(exclusion_record_laws(exclusions::exclusions_2()[41]));
    reveal_strlit("excluded.O-CONTAIN1.semantics");
    assert(exclusion_record_laws(exclusions::exclusions_2()[42]));
    reveal_strlit("excluded.O-TRANSFORMS1.processing");
    assert(exclusion_record_laws(exclusions::exclusions_2()[43]));
    reveal_strlit("excluded.O-COMPOSITING1.processing");
    assert(exclusion_record_laws(exclusions::exclusions_2()[44]));
    reveal_strlit("excluded.O-EASING1.evaluation");
    assert(exclusion_record_laws(exclusions::exclusions_2()[45]));
    reveal_strlit("excluded.O-COUNTERSTYLES3.processing");
    assert(exclusion_record_laws(exclusions::exclusions_2()[46]));
    reveal_strlit("excluded.O-CSS2.informative-audit");
    assert(exclusion_record_laws(exclusions::exclusions_2()[47]));
    reveal_strlit("excluded.O-SYNTAX3.informative-audit");
    assert(exclusion_record_laws(exclusions::exclusions_2()[48]));
    reveal_strlit("excluded.O-STYLE-ATTR.informative-audit");
    assert(exclusion_record_laws(exclusions::exclusions_2()[49]));
    reveal_strlit("excluded.O-MEDIA3.informative-audit");
    assert(exclusion_record_laws(exclusions::exclusions_2()[50]));
    reveal_strlit("excluded.O-CONDITIONAL3.informative-audit");
    assert(exclusion_record_laws(exclusions::exclusions_2()[51]));
    reveal_strlit("excluded.O-SELECTORS3.informative-audit");
    assert(exclusion_record_laws(exclusions::exclusions_2()[52]));
    reveal_strlit("excluded.O-NAMESPACES3.informative-audit");
    assert(exclusion_record_laws(exclusions::exclusions_2()[53]));
    reveal_strlit("excluded.O-CASCADE4.informative-audit");
    assert(exclusion_record_laws(exclusions::exclusions_2()[54]));
    reveal_strlit("excluded.O-VALUES3.informative-audit");
    assert(exclusion_record_laws(exclusions::exclusions_2()[55]));
    reveal_strlit("excluded.O-VARIABLES1.informative-audit");
    assert(exclusion_record_laws(exclusions::exclusions_2()[56]));
    reveal_strlit("excluded.O-BOX3.informative-audit");
    assert(exclusion_record_laws(exclusions::exclusions_2()[57]));
    reveal_strlit("excluded.O-COLOR4.informative-audit");
    assert(exclusion_record_laws(exclusions::exclusions_2()[58]));
    reveal_strlit("excluded.O-BACKGROUNDS3.informative-audit");
    assert(exclusion_record_laws(exclusions::exclusions_2()[59]));
}

#[verifier::rlimit(100)]
proof fn lemma_exclusions_3_laws()
    ensures
        forall|i: int| 0 <= i < exclusions::exclusions_3().len() ==> exclusion_record_laws(#[trigger] exclusions::exclusions_3()[i]),
{
    broadcast use {CssExclusionMetadata::lemma_new_parts, CssSpecificationSource::lemma_from_url_parts, CssSpecificationSource::lemma_from_repository_parts};

    reveal(exclusions::exclusions_3);
    reveal(spec_specification_sources);
    reveal(sources::source_list);
    reveal_strlit("excluded.");
    reveal_strlit(".");
    reveal_strlit("O-COMPOSITING1");
    assert(sources::source_list()[21] == o_compositing1());
    reveal_strlit("O-CONTAIN1");
    assert(sources::source_list()[19] == o_contain1());
    reveal_strlit("O-COUNTERSTYLES3");
    assert(sources::source_list()[23] == o_counterstyles3());
    reveal_strlit("O-EASING1");
    assert(sources::source_list()[22] == o_easing1());
    reveal_strlit("O-FLEXBOX1");
    assert(sources::source_list()[17] == o_flexbox1());
    reveal_strlit("O-FONTS3");
    assert(sources::source_list()[14] == o_fonts3());
    reveal_strlit("O-IMAGES3");
    assert(sources::source_list()[13] == o_images3());
    reveal_strlit("O-MULTICOL1");
    assert(sources::source_list()[16] == o_multicol1());
    reveal_strlit("O-TRANSFORMS1");
    assert(sources::source_list()[20] == o_transforms1());
    reveal_strlit("O-UI3");
    assert(sources::source_list()[18] == o_ui3());
    reveal_strlit("O-WRITING3");
    assert(sources::source_list()[15] == o_writing3());
    reveal_strlit("excluded.O-IMAGES3.informative-audit");
    assert(exclusion_record_laws(exclusions::exclusions_3()[0]));
    reveal_strlit("excluded.O-FONTS3.informative-audit");
    assert(exclusion_record_laws(exclusions::exclusions_3()[1]));
    reveal_strlit("excluded.O-WRITING3.informative-audit");
    assert(exclusion_record_laws(exclusions::exclusions_3()[2]));
    reveal_strlit("excluded.O-MULTICOL1.informative-audit");
    assert(exclusion_record_laws(exclusions::exclusions_3()[3]));
    reveal_strlit("excluded.O-FLEXBOX1.informative-audit");
    assert(exclusion_record_laws(exclusions::exclusions_3()[4]));
    reveal_strlit("excluded.O-UI3.informative-audit");
    assert(exclusion_record_laws(exclusions::exclusions_3()[5]));
    reveal_strlit("excluded.O-CONTAIN1.informative-audit");
    assert(exclusion_record_laws(exclusions::exclusions_3()[6]));
    reveal_strlit("excluded.O-TRANSFORMS1.informative-audit");
    assert(exclusion_record_laws(exclusions::exclusions_3()[7]));
    reveal_strlit("excluded.O-COMPOSITING1.informative-audit");
    assert(exclusion_record_laws(exclusions::exclusions_3()[8]));
    reveal_strlit("excluded.O-EASING1.informative-audit");
    assert(exclusion_record_laws(exclusions::exclusions_3()[9]));
    reveal_strlit("excluded.O-COUNTERSTYLES3.informative-audit");
    assert(exclusion_record_laws(exclusions::exclusions_3()[10]));
}

/// Every exclusion cites a registered official source and carries that source's identity in its
/// own, and names superseding identities only when the item was superseded, then at least one.
pub proof fn lemma_exclusion_records_lawful()
    ensures
        forall|i: int|
            0 <= i < spec_conformance_exclusions().len() ==> exclusion_record_laws(
                #[trigger] spec_conformance_exclusions()[i],
            ),
{
    reveal(spec_conformance_exclusions);
    reveal(exclusions::exclusion_list);
    exclusions::lemma_exclusions_1_len();
    exclusions::lemma_exclusions_2_len();
    exclusions::lemma_exclusions_3_len();
    lemma_exclusions_1_laws();
    lemma_exclusions_2_laws();
    lemma_exclusions_3_laws();
    let c = spec_conformance_exclusions();
    assert forall|i: int| 0 <= i < 60 implies c[i] == exclusions::exclusions_1()[i] by {}
    assert forall|i: int| 60 <= i < 120 implies c[i] == exclusions::exclusions_2()[i - 60] by {}
    assert forall|i: int| 120 <= i < 131 implies c[i] == exclusions::exclusions_3()[i - 120] by {}
    assert forall|i: int| 0 <= i < c.len() implies exclusion_record_laws(#[trigger] c[i]) by {
        if i < 60 {
            assert(exclusion_record_laws(exclusions::exclusions_1()[i]));
        } else if i < 120 {
            assert(exclusion_record_laws(exclusions::exclusions_2()[i - 60]));
        } else {
            assert(exclusion_record_laws(exclusions::exclusions_3()[i - 120]));
        }
    }
}

/// No exclusion carries the identity of a support-catalog record: every exclusion identity begins
/// with `excluded.` and no catalog identity does.
pub proof fn lemma_exclusion_ids_outside_catalog()
    ensures
        forall|i: int, j: int|
            0 <= i < spec_feature_catalog().len() && 0 <= j < spec_conformance_exclusions().len()
                ==> (#[trigger] spec_feature_catalog()[i]).spec_id()@
                != (#[trigger] spec_conformance_exclusions()[j]).spec_id()@,
{
    lemma_feature_records_lawful();
    lemma_exclusion_records_lawful();
    assert forall|i: int, j: int|
        0 <= i < spec_feature_catalog().len() && 0 <= j < spec_conformance_exclusions().len()
            implies (#[trigger] spec_feature_catalog()[i]).spec_id()@
            != (#[trigger] spec_conformance_exclusions()[j]).spec_id()@ by {
        let f = spec_feature_catalog()[i];
        let e = spec_conformance_exclusions()[j];
        assert(feature_record_laws(f));
        assert(exclusion_record_laws(e));
        let whole = exclusion_id_prefix(e.spec_source().spec_id()@);
        assert forall|k: int| 0 <= k < "excluded."@.len() implies whole[k] == "excluded."@[k] by {}
        if f.spec_id()@ == e.spec_id()@ {
            assert(has_prefix(f.spec_id()@, "excluded."@));
        }
    }
}

} // verus!
