//! CSS 2.1 items that later official modules superseded are cited from those modules.
use vstd::prelude::*;

use super::catalog_laws::{feature_record_laws, lemma_feature_records_lawful};
use super::feature_ids::{lemma_feature_lookup_finds_record};
use super::property_sources::spec_property_source;
use super::sources::{o_backgrounds3, o_box3, o_color4, o_css2, o_fonts3, o_ui3, o_writing3};
use super::{lemma_registry_sizes, catalog_1, catalog_2, catalog_3, catalog_4, catalog_5, catalog_6, catalog_7, catalog_8, exclusions, feature_has_id, spec_conformance_exclusions, spec_feature_catalog, CssConformanceSupersedingId, CssExclusionMetadata, CssFeatureKind, CssFeatureMetadata, CssSpecificationSource, CssSpecificationTier};
use crate::error::CssFeatureId;

verus! {

/// Whether, for an exclusion drawn from CSS 2.1, every superseding identity that names a property
/// record of the catalog names one cited from an official source other than CSS 2.1.
pub open spec fn css2_supersession_cites_later_official(exclusion: CssExclusionMetadata) -> bool {
    exclusion.spec_source() == o_css2() ==> match exclusion.spec_superseding_ids() {
        None => true,
        Some(ids) => forall|t: int, j: int|
            0 <= t < ids@.len() && 0 <= j < spec_feature_catalog().len() && (
            #[trigger] spec_feature_catalog()[j]).spec_id()@ == (#[trigger] ids@[t])@
                && spec_feature_catalog()[j].spec_kind() == CssFeatureKind::Property
                ==> spec_feature_catalog()[j].spec_source().spec_tier()
                == CssSpecificationTier::Snapshot2026Official && spec_feature_catalog()[j].spec_source()
                != o_css2(),
    }
}

/// The property records that CSS 2.1 exclusions name as superseding, with their sources.
#[verifier::rlimit(100)]
proof fn lemma_superseding_property_records()
    ensures
        spec_feature_catalog()[185].spec_id()@ == "baseline.property.direction"@ && spec_feature_catalog()[185].spec_kind() == CssFeatureKind::Property && spec_feature_catalog()[185].spec_source() == o_writing3(),
        spec_feature_catalog()[238].spec_id()@ == "baseline.property.font-size"@ && spec_feature_catalog()[238].spec_kind() == CssFeatureKind::Property && spec_feature_catalog()[238].spec_source() == o_fonts3(),
        spec_feature_catalog()[245].spec_id()@ == "baseline.property.font-family"@ && spec_feature_catalog()[245].spec_kind() == CssFeatureKind::Property && spec_feature_catalog()[245].spec_source() == o_fonts3(),
        spec_feature_catalog()[246].spec_id()@ == "baseline.property.font"@ && spec_feature_catalog()[246].spec_kind() == CssFeatureKind::Property && spec_feature_catalog()[246].spec_source() == o_fonts3(),
        spec_feature_catalog()[247].spec_id()@ == "baseline.property.font-weight"@ && spec_feature_catalog()[247].spec_kind() == CssFeatureKind::Property && spec_feature_catalog()[247].spec_source() == o_fonts3(),
        spec_feature_catalog()[248].spec_id()@ == "baseline.property.font-style"@ && spec_feature_catalog()[248].spec_kind() == CssFeatureKind::Property && spec_feature_catalog()[248].spec_source() == o_fonts3(),
        spec_feature_catalog()[250].spec_id()@ == "baseline.property.font-variant"@ && spec_feature_catalog()[250].spec_kind() == CssFeatureKind::Property && spec_feature_catalog()[250].spec_source() == o_fonts3(),
        spec_feature_catalog()[280].spec_id()@ == "baseline.property.margin"@ && spec_feature_catalog()[280].spec_kind() == CssFeatureKind::Property && spec_feature_catalog()[280].spec_source() == o_box3(),
        spec_feature_catalog()[281].spec_id()@ == "baseline.property.margin-top"@ && spec_feature_catalog()[281].spec_kind() == CssFeatureKind::Property && spec_feature_catalog()[281].spec_source() == o_box3(),
        spec_feature_catalog()[282].spec_id()@ == "baseline.property.margin-right"@ && spec_feature_catalog()[282].spec_kind() == CssFeatureKind::Property && spec_feature_catalog()[282].spec_source() == o_box3(),
        spec_feature_catalog()[283].spec_id()@ == "baseline.property.margin-bottom"@ && spec_feature_catalog()[283].spec_kind() == CssFeatureKind::Property && spec_feature_catalog()[283].spec_source() == o_box3(),
        spec_feature_catalog()[284].spec_id()@ == "baseline.property.margin-left"@ && spec_feature_catalog()[284].spec_kind() == CssFeatureKind::Property && spec_feature_catalog()[284].spec_source() == o_box3(),
        spec_feature_catalog()[285].spec_id()@ == "baseline.property.padding"@ && spec_feature_catalog()[285].spec_kind() == CssFeatureKind::Property && spec_feature_catalog()[285].spec_source() == o_box3(),
        spec_feature_catalog()[286].spec_id()@ == "baseline.property.padding-top"@ && spec_feature_catalog()[286].spec_kind() == CssFeatureKind::Property && spec_feature_catalog()[286].spec_source() == o_box3(),
        spec_feature_catalog()[287].spec_id()@ == "baseline.property.padding-right"@ && spec_feature_catalog()[287].spec_kind() == CssFeatureKind::Property && spec_feature_catalog()[287].spec_source() == o_box3(),
        spec_feature_catalog()[288].spec_id()@ == "baseline.property.padding-bottom"@ && spec_feature_catalog()[288].spec_kind() == CssFeatureKind::Property && spec_feature_catalog()[288].spec_source() == o_box3(),
        spec_feature_catalog()[289].spec_id()@ == "baseline.property.padding-left"@ && spec_feature_catalog()[289].spec_kind() == CssFeatureKind::Property && spec_feature_catalog()[289].spec_source() == o_box3(),
        spec_feature_catalog()[290].spec_id()@ == "baseline.property.border"@ && spec_feature_catalog()[290].spec_kind() == CssFeatureKind::Property && spec_feature_catalog()[290].spec_source() == o_backgrounds3(),
        spec_feature_catalog()[291].spec_id()@ == "baseline.property.border-top"@ && spec_feature_catalog()[291].spec_kind() == CssFeatureKind::Property && spec_feature_catalog()[291].spec_source() == o_backgrounds3(),
        spec_feature_catalog()[292].spec_id()@ == "baseline.property.border-right"@ && spec_feature_catalog()[292].spec_kind() == CssFeatureKind::Property && spec_feature_catalog()[292].spec_source() == o_backgrounds3(),
        spec_feature_catalog()[293].spec_id()@ == "baseline.property.border-bottom"@ && spec_feature_catalog()[293].spec_kind() == CssFeatureKind::Property && spec_feature_catalog()[293].spec_source() == o_backgrounds3(),
        spec_feature_catalog()[294].spec_id()@ == "baseline.property.border-left"@ && spec_feature_catalog()[294].spec_kind() == CssFeatureKind::Property && spec_feature_catalog()[294].spec_source() == o_backgrounds3(),
        spec_feature_catalog()[295].spec_id()@ == "baseline.property.border-width"@ && spec_feature_catalog()[295].spec_kind() == CssFeatureKind::Property && spec_feature_catalog()[295].spec_source() == o_backgrounds3(),
        spec_feature_catalog()[296].spec_id()@ == "baseline.property.border-top-width"@ && spec_feature_catalog()[296].spec_kind() == CssFeatureKind::Property && spec_feature_catalog()[296].spec_source() == o_backgrounds3(),
        spec_feature_catalog()[297].spec_id()@ == "baseline.property.border-right-width"@ && spec_feature_catalog()[297].spec_kind() == CssFeatureKind::Property && spec_feature_catalog()[297].spec_source() == o_backgrounds3(),
        spec_feature_catalog()[298].spec_id()@ == "baseline.property.border-bottom-width"@ && spec_feature_catalog()[298].spec_kind() == CssFeatureKind::Property && spec_feature_catalog()[298].spec_source() == o_backgrounds3(),
        spec_feature_catalog()[299].spec_id()@ == "baseline.property.border-left-width"@ && spec_feature_catalog()[299].spec_kind() == CssFeatureKind::Property && spec_feature_catalog()[299].spec_source() == o_backgrounds3(),
        spec_feature_catalog()[306].spec_id()@ == "baseline.property.color"@ && spec_feature_catalog()[306].spec_kind() == CssFeatureKind::Property && spec_feature_catalog()[306].spec_source() == o_color4(),
        spec_feature_catalog()[307].spec_id()@ == "baseline.property.background"@ && spec_feature_catalog()[307].spec_kind() == CssFeatureKind::Property && spec_feature_catalog()[307].spec_source() == o_backgrounds3(),
        spec_feature_catalog()[308].spec_id()@ == "baseline.property.background-color"@ && spec_feature_catalog()[308].spec_kind() == CssFeatureKind::Property && spec_feature_catalog()[308].spec_source() == o_backgrounds3(),
        spec_feature_catalog()[309].spec_id()@ == "baseline.property.border-color"@ && spec_feature_catalog()[309].spec_kind() == CssFeatureKind::Property && spec_feature_catalog()[309].spec_source() == o_backgrounds3(),
        spec_feature_catalog()[310].spec_id()@ == "baseline.property.border-top-color"@ && spec_feature_catalog()[310].spec_kind() == CssFeatureKind::Property && spec_feature_catalog()[310].spec_source() == o_backgrounds3(),
        spec_feature_catalog()[311].spec_id()@ == "baseline.property.border-right-color"@ && spec_feature_catalog()[311].spec_kind() == CssFeatureKind::Property && spec_feature_catalog()[311].spec_source() == o_backgrounds3(),
        spec_feature_catalog()[312].spec_id()@ == "baseline.property.border-bottom-color"@ && spec_feature_catalog()[312].spec_kind() == CssFeatureKind::Property && spec_feature_catalog()[312].spec_source() == o_backgrounds3(),
        spec_feature_catalog()[313].spec_id()@ == "baseline.property.border-left-color"@ && spec_feature_catalog()[313].spec_kind() == CssFeatureKind::Property && spec_feature_catalog()[313].spec_source() == o_backgrounds3(),
        spec_feature_catalog()[314].spec_id()@ == "baseline.property.background-image"@ && spec_feature_catalog()[314].spec_kind() == CssFeatureKind::Property && spec_feature_catalog()[314].spec_source() == o_backgrounds3(),
        spec_feature_catalog()[315].spec_id()@ == "baseline.property.background-position"@ && spec_feature_catalog()[315].spec_kind() == CssFeatureKind::Property && spec_feature_catalog()[315].spec_source() == o_backgrounds3(),
        spec_feature_catalog()[321].spec_id()@ == "baseline.property.background-repeat"@ && spec_feature_catalog()[321].spec_kind() == CssFeatureKind::Property && spec_feature_catalog()[321].spec_source() == o_backgrounds3(),
        spec_feature_catalog()[324].spec_id()@ == "baseline.property.background-attachment"@ && spec_feature_catalog()[324].spec_kind() == CssFeatureKind::Property && spec_feature_catalog()[324].spec_source() == o_backgrounds3(),
        spec_feature_catalog()[325].spec_id()@ == "baseline.property.border-style"@ && spec_feature_catalog()[325].spec_kind() == CssFeatureKind::Property && spec_feature_catalog()[325].spec_source() == o_backgrounds3(),
        spec_feature_catalog()[326].spec_id()@ == "baseline.property.border-top-style"@ && spec_feature_catalog()[326].spec_kind() == CssFeatureKind::Property && spec_feature_catalog()[326].spec_source() == o_backgrounds3(),
        spec_feature_catalog()[327].spec_id()@ == "baseline.property.border-right-style"@ && spec_feature_catalog()[327].spec_kind() == CssFeatureKind::Property && spec_feature_catalog()[327].spec_source() == o_backgrounds3(),
        spec_feature_catalog()[328].spec_id()@ == "baseline.property.border-bottom-style"@ && spec_feature_catalog()[328].spec_kind() == CssFeatureKind::Property && spec_feature_catalog()[328].spec_source() == o_backgrounds3(),
        spec_feature_catalog()[329].spec_id()@ == "baseline.property.border-left-style"@ && spec_feature_catalog()[329].spec_kind() == CssFeatureKind::Property && spec_feature_catalog()[329].spec_source() == o_backgrounds3(),
        spec_feature_catalog()[345].spec_id()@ == "baseline.property.cursor"@ && spec_feature_catalog()[345].spec_kind() == CssFeatureKind::Property && spec_feature_catalog()[345].spec_source() == o_ui3(),
        spec_feature_catalog()[348].spec_id()@ == "baseline.property.outline"@ && spec_feature_catalog()[348].spec_kind() == CssFeatureKind::Property && spec_feature_catalog()[348].spec_source() == o_ui3(),
        spec_feature_catalog()[349].spec_id()@ == "baseline.property.outline-color"@ && spec_feature_catalog()[349].spec_kind() == CssFeatureKind::Property && spec_feature_catalog()[349].spec_source() == o_ui3(),
        spec_feature_catalog()[350].spec_id()@ == "baseline.property.outline-style"@ && spec_feature_catalog()[350].spec_kind() == CssFeatureKind::Property && spec_feature_catalog()[350].spec_source() == o_ui3(),
        spec_feature_catalog()[351].spec_id()@ == "baseline.property.outline-width"@ && spec_feature_catalog()[351].spec_kind() == CssFeatureKind::Property && spec_feature_catalog()[351].spec_source() == o_ui3(),
        spec_feature_catalog()[394].spec_id()@ == "official.property.unicode-bidi"@ && spec_feature_catalog()[394].spec_kind() == CssFeatureKind::Property && spec_feature_catalog()[394].spec_source() == o_writing3(),
{
    broadcast use {CssFeatureMetadata::lemma_complete_parts, CssFeatureMetadata::lemma_partial_parts, CssFeatureMetadata::lemma_baseline_alias_parts, CssFeatureMetadata::lemma_recognized_unsupported_parts, CssFeatureMetadata::lemma_partial_property_parts, CssFeatureMetadata::lemma_complete_property_parts, CssFeatureMetadata::lemma_partial_property_with_boundary_parts};

    reveal(spec_feature_catalog);
    reveal(spec_property_source);
    catalog_1::lemma_features_len();
    catalog_2::lemma_features_len();
    catalog_3::lemma_features_len();
    catalog_4::lemma_features_len();
    catalog_5::lemma_features_len();
    catalog_6::lemma_features_len();
    catalog_7::lemma_features_len();
    catalog_8::lemma_features_len();
    reveal(catalog_4::features);
    reveal(catalog_5::features);
    reveal(catalog_6::features);
    reveal(catalog_7::features);
    let c = spec_feature_catalog();
    CssFeatureId::lemma_spec_new_parts("baseline.property.direction");
    assert(c[185] == catalog_4::features()[5]);
    CssFeatureId::lemma_spec_new_parts("baseline.property.font-size");
    assert(c[238] == catalog_4::features()[58]);
    CssFeatureId::lemma_spec_new_parts("baseline.property.font-family");
    assert(c[245] == catalog_5::features()[5]);
    CssFeatureId::lemma_spec_new_parts("baseline.property.font");
    assert(c[246] == catalog_5::features()[6]);
    CssFeatureId::lemma_spec_new_parts("baseline.property.font-weight");
    assert(c[247] == catalog_5::features()[7]);
    CssFeatureId::lemma_spec_new_parts("baseline.property.font-style");
    assert(c[248] == catalog_5::features()[8]);
    CssFeatureId::lemma_spec_new_parts("baseline.property.font-variant");
    assert(c[250] == catalog_5::features()[10]);
    CssFeatureId::lemma_spec_new_parts("baseline.property.margin");
    assert(c[280] == catalog_5::features()[40]);
    CssFeatureId::lemma_spec_new_parts("baseline.property.margin-top");
    assert(c[281] == catalog_5::features()[41]);
    CssFeatureId::lemma_spec_new_parts("baseline.property.margin-right");
    assert(c[282] == catalog_5::features()[42]);
    CssFeatureId::lemma_spec_new_parts("baseline.property.margin-bottom");
    assert(c[283] == catalog_5::features()[43]);
    CssFeatureId::lemma_spec_new_parts("baseline.property.margin-left");
    assert(c[284] == catalog_5::features()[44]);
    CssFeatureId::lemma_spec_new_parts("baseline.property.padding");
    assert(c[285] == catalog_5::features()[45]);
    CssFeatureId::lemma_spec_new_parts("baseline.property.padding-top");
    assert(c[286] == catalog_5::features()[46]);
    CssFeatureId::lemma_spec_new_parts("baseline.property.padding-right");
    assert(c[287] == catalog_5::features()[47]);
    CssFeatureId::lemma_spec_new_parts("baseline.property.padding-bottom");
    assert(c[288] == catalog_5::features()[48]);
    CssFeatureId::lemma_spec_new_parts("baseline.property.padding-left");
    assert(c[289] == catalog_5::features()[49]);
    CssFeatureId::lemma_spec_new_parts("baseline.property.border");
    assert(c[290] == catalog_5::features()[50]);
    CssFeatureId::lemma_spec_new_parts("baseline.property.border-top");
    assert(c[291] == catalog_5::features()[51]);
    CssFeatureId::lemma_spec_new_parts("baseline.property.border-right");
    assert(c[292] == catalog_5::features()[52]);
    CssFeatureId::lemma_spec_new_parts("baseline.property.border-bottom");
    assert(c[293] == catalog_5::features()[53]);
    CssFeatureId::lemma_spec_new_parts("baseline.property.border-left");
    assert(c[294] == catalog_5::features()[54]);
    CssFeatureId::lemma_spec_new_parts("baseline.property.border-width");
    assert(c[295] == catalog_5::features()[55]);
    CssFeatureId::lemma_spec_new_parts("baseline.property.border-top-width");
    assert(c[296] == catalog_5::features()[56]);
    CssFeatureId::lemma_spec_new_parts("baseline.property.border-right-width");
    assert(c[297] == catalog_5::features()[57]);
    CssFeatureId::lemma_spec_new_parts("baseline.property.border-bottom-width");
    assert(c[298] == catalog_5::features()[58]);
    CssFeatureId::lemma_spec_new_parts("baseline.property.border-left-width");
    assert(c[299] == catalog_5::features()[59]);
    CssFeatureId::lemma_spec_new_parts("baseline.property.color");
    assert(c[306] == catalog_6::features()[6]);
    CssFeatureId::lemma_spec_new_parts("baseline.property.background");
    assert(c[307] == catalog_6::features()[7]);
    CssFeatureId::lemma_spec_new_parts("baseline.property.background-color");
    assert(c[308] == catalog_6::features()[8]);
    CssFeatureId::lemma_spec_new_parts("baseline.property.border-color");
    assert(c[309] == catalog_6::features()[9]);
    CssFeatureId::lemma_spec_new_parts("baseline.property.border-top-color");
    assert(c[310] == catalog_6::features()[10]);
    CssFeatureId::lemma_spec_new_parts("baseline.property.border-right-color");
    assert(c[311] == catalog_6::features()[11]);
    CssFeatureId::lemma_spec_new_parts("baseline.property.border-bottom-color");
    assert(c[312] == catalog_6::features()[12]);
    CssFeatureId::lemma_spec_new_parts("baseline.property.border-left-color");
    assert(c[313] == catalog_6::features()[13]);
    CssFeatureId::lemma_spec_new_parts("baseline.property.background-image");
    assert(c[314] == catalog_6::features()[14]);
    CssFeatureId::lemma_spec_new_parts("baseline.property.background-position");
    assert(c[315] == catalog_6::features()[15]);
    CssFeatureId::lemma_spec_new_parts("baseline.property.background-repeat");
    assert(c[321] == catalog_6::features()[21]);
    CssFeatureId::lemma_spec_new_parts("baseline.property.background-attachment");
    assert(c[324] == catalog_6::features()[24]);
    CssFeatureId::lemma_spec_new_parts("baseline.property.border-style");
    assert(c[325] == catalog_6::features()[25]);
    CssFeatureId::lemma_spec_new_parts("baseline.property.border-top-style");
    assert(c[326] == catalog_6::features()[26]);
    CssFeatureId::lemma_spec_new_parts("baseline.property.border-right-style");
    assert(c[327] == catalog_6::features()[27]);
    CssFeatureId::lemma_spec_new_parts("baseline.property.border-bottom-style");
    assert(c[328] == catalog_6::features()[28]);
    CssFeatureId::lemma_spec_new_parts("baseline.property.border-left-style");
    assert(c[329] == catalog_6::features()[29]);
    CssFeatureId::lemma_spec_new_parts("baseline.property.cursor");
    assert(c[345] == catalog_6::features()[45]);
    CssFeatureId::lemma_spec_new_parts("baseline.property.outline");
    assert(c[348] == catalog_6::features()[48]);
    CssFeatureId::lemma_spec_new_parts("baseline.property.outline-color");
    assert(c[349] == catalog_6::features()[49]);
    CssFeatureId::lemma_spec_new_parts("baseline.property.outline-style");
    assert(c[350] == catalog_6::features()[50]);
    CssFeatureId::lemma_spec_new_parts("baseline.property.outline-width");
    assert(c[351] == catalog_6::features()[51]);
    CssFeatureId::lemma_spec_new_parts("official.property.unicode-bidi");
    assert(c[394] == catalog_7::features()[34]);
}

#[verifier::rlimit(100)]
proof fn lemma_exclusions_1_supersession()
    ensures
        forall|i: int| 0 <= i < exclusions::exclusions_1().len() ==> css2_supersession_cites_later_official(#[trigger] exclusions::exclusions_1()[i]),
{
    broadcast use {CssExclusionMetadata::lemma_new_parts, CssConformanceSupersedingId::lemma_spec_new_parts, CssSpecificationSource::lemma_from_url_parts, CssSpecificationSource::lemma_from_repository_parts};

    reveal(exclusions::exclusions_1);
    lemma_superseding_property_records();
    lemma_registry_sizes();
    reveal_strlit("O-BACKGROUNDS3");
    reveal_strlit("O-BOX3");
    reveal_strlit("O-COLOR4");
    reveal_strlit("O-CSS2");
    reveal_strlit("O-FONTS3");
    reveal_strlit("O-UI3");
    reveal_strlit("O-WRITING3");
    lemma_feature_records_lawful();
    lemma_feature_lookup_finds_record(185);
    lemma_feature_lookup_finds_record(238);
    lemma_feature_lookup_finds_record(245);
    lemma_feature_lookup_finds_record(246);
    lemma_feature_lookup_finds_record(247);
    lemma_feature_lookup_finds_record(248);
    lemma_feature_lookup_finds_record(250);
    lemma_feature_lookup_finds_record(280);
    lemma_feature_lookup_finds_record(281);
    lemma_feature_lookup_finds_record(282);
    lemma_feature_lookup_finds_record(283);
    lemma_feature_lookup_finds_record(284);
    lemma_feature_lookup_finds_record(285);
    lemma_feature_lookup_finds_record(286);
    lemma_feature_lookup_finds_record(287);
    lemma_feature_lookup_finds_record(288);
    lemma_feature_lookup_finds_record(289);
    lemma_feature_lookup_finds_record(290);
    lemma_feature_lookup_finds_record(291);
    lemma_feature_lookup_finds_record(292);
    lemma_feature_lookup_finds_record(293);
    lemma_feature_lookup_finds_record(294);
    lemma_feature_lookup_finds_record(295);
    lemma_feature_lookup_finds_record(296);
    lemma_feature_lookup_finds_record(297);
    lemma_feature_lookup_finds_record(298);
    lemma_feature_lookup_finds_record(299);
    lemma_feature_lookup_finds_record(306);
    lemma_feature_lookup_finds_record(307);
    lemma_feature_lookup_finds_record(308);
    lemma_feature_lookup_finds_record(309);
    lemma_feature_lookup_finds_record(310);
    lemma_feature_lookup_finds_record(311);
    lemma_feature_lookup_finds_record(312);
    lemma_feature_lookup_finds_record(313);
    lemma_feature_lookup_finds_record(314);
    lemma_feature_lookup_finds_record(315);
    lemma_feature_lookup_finds_record(321);
    lemma_feature_lookup_finds_record(324);
    lemma_feature_lookup_finds_record(325);
    lemma_feature_lookup_finds_record(326);
    lemma_feature_lookup_finds_record(327);
    lemma_feature_lookup_finds_record(328);
    lemma_feature_lookup_finds_record(329);
    lemma_feature_lookup_finds_record(345);
    lemma_feature_lookup_finds_record(348);
    lemma_feature_lookup_finds_record(349);
    lemma_feature_lookup_finds_record(350);
    lemma_feature_lookup_finds_record(351);
    lemma_feature_lookup_finds_record(394);
    assert(css2_supersession_cites_later_official(exclusions::exclusions_1()[0]));
    assert(css2_supersession_cites_later_official(exclusions::exclusions_1()[1]));
    assert(forall|j: int| 0 <= j < spec_feature_catalog().len() && #[trigger] spec_feature_catalog()[j].spec_id()@ == "baseline.property.margin"@ ==> feature_has_id(spec_feature_catalog()[j], spec_feature_catalog()[280].spec_id()@));
    assert(css2_supersession_cites_later_official(exclusions::exclusions_1()[2]));
    assert(forall|j: int| 0 <= j < spec_feature_catalog().len() && #[trigger] spec_feature_catalog()[j].spec_id()@ == "baseline.property.margin-bottom"@ ==> feature_has_id(spec_feature_catalog()[j], spec_feature_catalog()[283].spec_id()@));
    assert(css2_supersession_cites_later_official(exclusions::exclusions_1()[3]));
    assert(forall|j: int| 0 <= j < spec_feature_catalog().len() && #[trigger] spec_feature_catalog()[j].spec_id()@ == "baseline.property.margin-left"@ ==> feature_has_id(spec_feature_catalog()[j], spec_feature_catalog()[284].spec_id()@));
    assert(css2_supersession_cites_later_official(exclusions::exclusions_1()[4]));
    assert(forall|j: int| 0 <= j < spec_feature_catalog().len() && #[trigger] spec_feature_catalog()[j].spec_id()@ == "baseline.property.margin-right"@ ==> feature_has_id(spec_feature_catalog()[j], spec_feature_catalog()[282].spec_id()@));
    assert(css2_supersession_cites_later_official(exclusions::exclusions_1()[5]));
    assert(forall|j: int| 0 <= j < spec_feature_catalog().len() && #[trigger] spec_feature_catalog()[j].spec_id()@ == "baseline.property.margin-top"@ ==> feature_has_id(spec_feature_catalog()[j], spec_feature_catalog()[281].spec_id()@));
    assert(css2_supersession_cites_later_official(exclusions::exclusions_1()[6]));
    assert(forall|j: int| 0 <= j < spec_feature_catalog().len() && #[trigger] spec_feature_catalog()[j].spec_id()@ == "baseline.property.padding"@ ==> feature_has_id(spec_feature_catalog()[j], spec_feature_catalog()[285].spec_id()@));
    assert(css2_supersession_cites_later_official(exclusions::exclusions_1()[7]));
    assert(forall|j: int| 0 <= j < spec_feature_catalog().len() && #[trigger] spec_feature_catalog()[j].spec_id()@ == "baseline.property.padding-bottom"@ ==> feature_has_id(spec_feature_catalog()[j], spec_feature_catalog()[288].spec_id()@));
    assert(css2_supersession_cites_later_official(exclusions::exclusions_1()[8]));
    assert(forall|j: int| 0 <= j < spec_feature_catalog().len() && #[trigger] spec_feature_catalog()[j].spec_id()@ == "baseline.property.padding-left"@ ==> feature_has_id(spec_feature_catalog()[j], spec_feature_catalog()[289].spec_id()@));
    assert(css2_supersession_cites_later_official(exclusions::exclusions_1()[9]));
    assert(forall|j: int| 0 <= j < spec_feature_catalog().len() && #[trigger] spec_feature_catalog()[j].spec_id()@ == "baseline.property.padding-right"@ ==> feature_has_id(spec_feature_catalog()[j], spec_feature_catalog()[287].spec_id()@));
    assert(css2_supersession_cites_later_official(exclusions::exclusions_1()[10]));
    assert(forall|j: int| 0 <= j < spec_feature_catalog().len() && #[trigger] spec_feature_catalog()[j].spec_id()@ == "baseline.property.padding-top"@ ==> feature_has_id(spec_feature_catalog()[j], spec_feature_catalog()[286].spec_id()@));
    assert(css2_supersession_cites_later_official(exclusions::exclusions_1()[11]));
    assert(forall|j: int| 0 <= j < spec_feature_catalog().len() && #[trigger] spec_feature_catalog()[j].spec_id()@ == "baseline.property.color"@ ==> feature_has_id(spec_feature_catalog()[j], spec_feature_catalog()[306].spec_id()@));
    assert(css2_supersession_cites_later_official(exclusions::exclusions_1()[12]));
    assert(forall|j: int| 0 <= j < spec_feature_catalog().len() && #[trigger] spec_feature_catalog()[j].spec_id()@ == "baseline.property.background"@ ==> feature_has_id(spec_feature_catalog()[j], spec_feature_catalog()[307].spec_id()@));
    assert(css2_supersession_cites_later_official(exclusions::exclusions_1()[13]));
    assert(forall|j: int| 0 <= j < spec_feature_catalog().len() && #[trigger] spec_feature_catalog()[j].spec_id()@ == "baseline.property.background-attachment"@ ==> feature_has_id(spec_feature_catalog()[j], spec_feature_catalog()[324].spec_id()@));
    assert(css2_supersession_cites_later_official(exclusions::exclusions_1()[14]));
    assert(forall|j: int| 0 <= j < spec_feature_catalog().len() && #[trigger] spec_feature_catalog()[j].spec_id()@ == "baseline.property.background-color"@ ==> feature_has_id(spec_feature_catalog()[j], spec_feature_catalog()[308].spec_id()@));
    assert(css2_supersession_cites_later_official(exclusions::exclusions_1()[15]));
    assert(forall|j: int| 0 <= j < spec_feature_catalog().len() && #[trigger] spec_feature_catalog()[j].spec_id()@ == "baseline.property.background-image"@ ==> feature_has_id(spec_feature_catalog()[j], spec_feature_catalog()[314].spec_id()@));
    assert(css2_supersession_cites_later_official(exclusions::exclusions_1()[16]));
    assert(forall|j: int| 0 <= j < spec_feature_catalog().len() && #[trigger] spec_feature_catalog()[j].spec_id()@ == "baseline.property.background-position"@ ==> feature_has_id(spec_feature_catalog()[j], spec_feature_catalog()[315].spec_id()@));
    assert(css2_supersession_cites_later_official(exclusions::exclusions_1()[17]));
    assert(forall|j: int| 0 <= j < spec_feature_catalog().len() && #[trigger] spec_feature_catalog()[j].spec_id()@ == "baseline.property.background-repeat"@ ==> feature_has_id(spec_feature_catalog()[j], spec_feature_catalog()[321].spec_id()@));
    assert(css2_supersession_cites_later_official(exclusions::exclusions_1()[18]));
    assert(forall|j: int| 0 <= j < spec_feature_catalog().len() && #[trigger] spec_feature_catalog()[j].spec_id()@ == "baseline.property.border"@ ==> feature_has_id(spec_feature_catalog()[j], spec_feature_catalog()[290].spec_id()@));
    assert(css2_supersession_cites_later_official(exclusions::exclusions_1()[19]));
    assert(forall|j: int| 0 <= j < spec_feature_catalog().len() && #[trigger] spec_feature_catalog()[j].spec_id()@ == "baseline.property.border-bottom"@ ==> feature_has_id(spec_feature_catalog()[j], spec_feature_catalog()[293].spec_id()@));
    assert(css2_supersession_cites_later_official(exclusions::exclusions_1()[20]));
    assert(forall|j: int| 0 <= j < spec_feature_catalog().len() && #[trigger] spec_feature_catalog()[j].spec_id()@ == "baseline.property.border-bottom-color"@ ==> feature_has_id(spec_feature_catalog()[j], spec_feature_catalog()[312].spec_id()@));
    assert(css2_supersession_cites_later_official(exclusions::exclusions_1()[21]));
    assert(forall|j: int| 0 <= j < spec_feature_catalog().len() && #[trigger] spec_feature_catalog()[j].spec_id()@ == "baseline.property.border-bottom-style"@ ==> feature_has_id(spec_feature_catalog()[j], spec_feature_catalog()[328].spec_id()@));
    assert(css2_supersession_cites_later_official(exclusions::exclusions_1()[22]));
    assert(forall|j: int| 0 <= j < spec_feature_catalog().len() && #[trigger] spec_feature_catalog()[j].spec_id()@ == "baseline.property.border-bottom-width"@ ==> feature_has_id(spec_feature_catalog()[j], spec_feature_catalog()[298].spec_id()@));
    assert(css2_supersession_cites_later_official(exclusions::exclusions_1()[23]));
    assert(forall|j: int| 0 <= j < spec_feature_catalog().len() && #[trigger] spec_feature_catalog()[j].spec_id()@ == "baseline.property.border-color"@ ==> feature_has_id(spec_feature_catalog()[j], spec_feature_catalog()[309].spec_id()@));
    assert(css2_supersession_cites_later_official(exclusions::exclusions_1()[24]));
    assert(forall|j: int| 0 <= j < spec_feature_catalog().len() && #[trigger] spec_feature_catalog()[j].spec_id()@ == "baseline.property.border-left"@ ==> feature_has_id(spec_feature_catalog()[j], spec_feature_catalog()[294].spec_id()@));
    assert(css2_supersession_cites_later_official(exclusions::exclusions_1()[25]));
    assert(forall|j: int| 0 <= j < spec_feature_catalog().len() && #[trigger] spec_feature_catalog()[j].spec_id()@ == "baseline.property.border-left-color"@ ==> feature_has_id(spec_feature_catalog()[j], spec_feature_catalog()[313].spec_id()@));
    assert(css2_supersession_cites_later_official(exclusions::exclusions_1()[26]));
    assert(forall|j: int| 0 <= j < spec_feature_catalog().len() && #[trigger] spec_feature_catalog()[j].spec_id()@ == "baseline.property.border-left-style"@ ==> feature_has_id(spec_feature_catalog()[j], spec_feature_catalog()[329].spec_id()@));
    assert(css2_supersession_cites_later_official(exclusions::exclusions_1()[27]));
    assert(forall|j: int| 0 <= j < spec_feature_catalog().len() && #[trigger] spec_feature_catalog()[j].spec_id()@ == "baseline.property.border-left-width"@ ==> feature_has_id(spec_feature_catalog()[j], spec_feature_catalog()[299].spec_id()@));
    assert(css2_supersession_cites_later_official(exclusions::exclusions_1()[28]));
    assert(forall|j: int| 0 <= j < spec_feature_catalog().len() && #[trigger] spec_feature_catalog()[j].spec_id()@ == "baseline.property.border-right"@ ==> feature_has_id(spec_feature_catalog()[j], spec_feature_catalog()[292].spec_id()@));
    assert(css2_supersession_cites_later_official(exclusions::exclusions_1()[29]));
    assert(forall|j: int| 0 <= j < spec_feature_catalog().len() && #[trigger] spec_feature_catalog()[j].spec_id()@ == "baseline.property.border-right-color"@ ==> feature_has_id(spec_feature_catalog()[j], spec_feature_catalog()[311].spec_id()@));
    assert(css2_supersession_cites_later_official(exclusions::exclusions_1()[30]));
    assert(forall|j: int| 0 <= j < spec_feature_catalog().len() && #[trigger] spec_feature_catalog()[j].spec_id()@ == "baseline.property.border-right-style"@ ==> feature_has_id(spec_feature_catalog()[j], spec_feature_catalog()[327].spec_id()@));
    assert(css2_supersession_cites_later_official(exclusions::exclusions_1()[31]));
    assert(forall|j: int| 0 <= j < spec_feature_catalog().len() && #[trigger] spec_feature_catalog()[j].spec_id()@ == "baseline.property.border-right-width"@ ==> feature_has_id(spec_feature_catalog()[j], spec_feature_catalog()[297].spec_id()@));
    assert(css2_supersession_cites_later_official(exclusions::exclusions_1()[32]));
    assert(forall|j: int| 0 <= j < spec_feature_catalog().len() && #[trigger] spec_feature_catalog()[j].spec_id()@ == "baseline.property.border-style"@ ==> feature_has_id(spec_feature_catalog()[j], spec_feature_catalog()[325].spec_id()@));
    assert(css2_supersession_cites_later_official(exclusions::exclusions_1()[33]));
    assert(forall|j: int| 0 <= j < spec_feature_catalog().len() && #[trigger] spec_feature_catalog()[j].spec_id()@ == "baseline.property.border-top"@ ==> feature_has_id(spec_feature_catalog()[j], spec_feature_catalog()[291].spec_id()@));
    assert(css2_supersession_cites_later_official(exclusions::exclusions_1()[34]));
    assert(forall|j: int| 0 <= j < spec_feature_catalog().len() && #[trigger] spec_feature_catalog()[j].spec_id()@ == "baseline.property.border-top-color"@ ==> feature_has_id(spec_feature_catalog()[j], spec_feature_catalog()[310].spec_id()@));
    assert(css2_supersession_cites_later_official(exclusions::exclusions_1()[35]));
    assert(forall|j: int| 0 <= j < spec_feature_catalog().len() && #[trigger] spec_feature_catalog()[j].spec_id()@ == "baseline.property.border-top-style"@ ==> feature_has_id(spec_feature_catalog()[j], spec_feature_catalog()[326].spec_id()@));
    assert(css2_supersession_cites_later_official(exclusions::exclusions_1()[36]));
    assert(forall|j: int| 0 <= j < spec_feature_catalog().len() && #[trigger] spec_feature_catalog()[j].spec_id()@ == "baseline.property.border-top-width"@ ==> feature_has_id(spec_feature_catalog()[j], spec_feature_catalog()[296].spec_id()@));
    assert(css2_supersession_cites_later_official(exclusions::exclusions_1()[37]));
    assert(forall|j: int| 0 <= j < spec_feature_catalog().len() && #[trigger] spec_feature_catalog()[j].spec_id()@ == "baseline.property.border-width"@ ==> feature_has_id(spec_feature_catalog()[j], spec_feature_catalog()[295].spec_id()@));
    assert(css2_supersession_cites_later_official(exclusions::exclusions_1()[38]));
    assert(forall|j: int| 0 <= j < spec_feature_catalog().len() && #[trigger] spec_feature_catalog()[j].spec_id()@ == "baseline.property.font"@ ==> feature_has_id(spec_feature_catalog()[j], spec_feature_catalog()[246].spec_id()@));
    assert(css2_supersession_cites_later_official(exclusions::exclusions_1()[39]));
    assert(forall|j: int| 0 <= j < spec_feature_catalog().len() && #[trigger] spec_feature_catalog()[j].spec_id()@ == "baseline.property.font-family"@ ==> feature_has_id(spec_feature_catalog()[j], spec_feature_catalog()[245].spec_id()@));
    assert(css2_supersession_cites_later_official(exclusions::exclusions_1()[40]));
    assert(forall|j: int| 0 <= j < spec_feature_catalog().len() && #[trigger] spec_feature_catalog()[j].spec_id()@ == "baseline.property.font-size"@ ==> feature_has_id(spec_feature_catalog()[j], spec_feature_catalog()[238].spec_id()@));
    assert(css2_supersession_cites_later_official(exclusions::exclusions_1()[41]));
    assert(forall|j: int| 0 <= j < spec_feature_catalog().len() && #[trigger] spec_feature_catalog()[j].spec_id()@ == "baseline.property.font-style"@ ==> feature_has_id(spec_feature_catalog()[j], spec_feature_catalog()[248].spec_id()@));
    assert(css2_supersession_cites_later_official(exclusions::exclusions_1()[42]));
    assert(forall|j: int| 0 <= j < spec_feature_catalog().len() && #[trigger] spec_feature_catalog()[j].spec_id()@ == "baseline.property.font-variant"@ ==> feature_has_id(spec_feature_catalog()[j], spec_feature_catalog()[250].spec_id()@));
    assert(css2_supersession_cites_later_official(exclusions::exclusions_1()[43]));
    assert(forall|j: int| 0 <= j < spec_feature_catalog().len() && #[trigger] spec_feature_catalog()[j].spec_id()@ == "baseline.property.font-weight"@ ==> feature_has_id(spec_feature_catalog()[j], spec_feature_catalog()[247].spec_id()@));
    assert(css2_supersession_cites_later_official(exclusions::exclusions_1()[44]));
    assert(forall|j: int| 0 <= j < spec_feature_catalog().len() && #[trigger] spec_feature_catalog()[j].spec_id()@ == "baseline.property.direction"@ ==> feature_has_id(spec_feature_catalog()[j], spec_feature_catalog()[185].spec_id()@));
    assert(css2_supersession_cites_later_official(exclusions::exclusions_1()[45]));
    assert(forall|j: int| 0 <= j < spec_feature_catalog().len() && #[trigger] spec_feature_catalog()[j].spec_id()@ == "official.property.unicode-bidi"@ ==> feature_has_id(spec_feature_catalog()[j], spec_feature_catalog()[394].spec_id()@));
    assert(css2_supersession_cites_later_official(exclusions::exclusions_1()[46]));
    assert(forall|j: int| 0 <= j < spec_feature_catalog().len() && #[trigger] spec_feature_catalog()[j].spec_id()@ == "baseline.property.cursor"@ ==> feature_has_id(spec_feature_catalog()[j], spec_feature_catalog()[345].spec_id()@));
    assert(css2_supersession_cites_later_official(exclusions::exclusions_1()[47]));
    assert(forall|j: int| 0 <= j < spec_feature_catalog().len() && #[trigger] spec_feature_catalog()[j].spec_id()@ == "baseline.property.outline"@ ==> feature_has_id(spec_feature_catalog()[j], spec_feature_catalog()[348].spec_id()@));
    assert(css2_supersession_cites_later_official(exclusions::exclusions_1()[48]));
    assert(forall|j: int| 0 <= j < spec_feature_catalog().len() && #[trigger] spec_feature_catalog()[j].spec_id()@ == "baseline.property.outline-color"@ ==> feature_has_id(spec_feature_catalog()[j], spec_feature_catalog()[349].spec_id()@));
    assert(css2_supersession_cites_later_official(exclusions::exclusions_1()[49]));
    assert(forall|j: int| 0 <= j < spec_feature_catalog().len() && #[trigger] spec_feature_catalog()[j].spec_id()@ == "baseline.property.outline-style"@ ==> feature_has_id(spec_feature_catalog()[j], spec_feature_catalog()[350].spec_id()@));
    assert(css2_supersession_cites_later_official(exclusions::exclusions_1()[50]));
    assert(forall|j: int| 0 <= j < spec_feature_catalog().len() && #[trigger] spec_feature_catalog()[j].spec_id()@ == "baseline.property.outline-width"@ ==> feature_has_id(spec_feature_catalog()[j], spec_feature_catalog()[351].spec_id()@));
    assert(css2_supersession_cites_later_official(exclusions::exclusions_1()[51]));
    assert(css2_supersession_cites_later_official(exclusions::exclusions_1()[52]));
    assert(css2_supersession_cites_later_official(exclusions::exclusions_1()[53]));
    assert(css2_supersession_cites_later_official(exclusions::exclusions_1()[54]));
    assert(css2_supersession_cites_later_official(exclusions::exclusions_1()[55]));
    assert(css2_supersession_cites_later_official(exclusions::exclusions_1()[56]));
    assert(css2_supersession_cites_later_official(exclusions::exclusions_1()[57]));
    assert(css2_supersession_cites_later_official(exclusions::exclusions_1()[58]));
    assert(css2_supersession_cites_later_official(exclusions::exclusions_1()[59]));
}

#[verifier::rlimit(100)]
proof fn lemma_exclusions_2_supersession()
    ensures
        forall|i: int| 0 <= i < exclusions::exclusions_2().len() ==> css2_supersession_cites_later_official(#[trigger] exclusions::exclusions_2()[i]),
{
    broadcast use {CssExclusionMetadata::lemma_new_parts, CssConformanceSupersedingId::lemma_spec_new_parts, CssSpecificationSource::lemma_from_url_parts, CssSpecificationSource::lemma_from_repository_parts};

    reveal(exclusions::exclusions_2);
    lemma_superseding_property_records();
    lemma_registry_sizes();
    reveal_strlit("O-BACKGROUNDS3");
    reveal_strlit("O-BOX3");
    reveal_strlit("O-COLOR4");
    reveal_strlit("O-CSS2");
    reveal_strlit("O-FONTS3");
    reveal_strlit("O-UI3");
    reveal_strlit("O-WRITING3");
    lemma_feature_records_lawful();
    reveal_strlit("O-SYNTAX3");
    reveal_strlit("O-MEDIA3");
    reveal_strlit("O-CONDITIONAL3");
    reveal_strlit("O-SELECTORS3");
    reveal_strlit("O-NAMESPACES3");
    reveal_strlit("O-CASCADE4");
    reveal_strlit("O-VALUES3");
    reveal_strlit("O-VARIABLES1");
    assert(css2_supersession_cites_later_official(exclusions::exclusions_2()[0]));
    assert(css2_supersession_cites_later_official(exclusions::exclusions_2()[1]));
    assert(css2_supersession_cites_later_official(exclusions::exclusions_2()[2]));
    assert(css2_supersession_cites_later_official(exclusions::exclusions_2()[3]));
    assert(css2_supersession_cites_later_official(exclusions::exclusions_2()[4]));
    assert(css2_supersession_cites_later_official(exclusions::exclusions_2()[5]));
    assert(css2_supersession_cites_later_official(exclusions::exclusions_2()[6]));
    assert(css2_supersession_cites_later_official(exclusions::exclusions_2()[7]));
    assert(css2_supersession_cites_later_official(exclusions::exclusions_2()[8]));
    assert(css2_supersession_cites_later_official(exclusions::exclusions_2()[9]));
    assert(css2_supersession_cites_later_official(exclusions::exclusions_2()[10]));
    assert(css2_supersession_cites_later_official(exclusions::exclusions_2()[11]));
    assert(css2_supersession_cites_later_official(exclusions::exclusions_2()[12]));
    assert(css2_supersession_cites_later_official(exclusions::exclusions_2()[13]));
    assert(css2_supersession_cites_later_official(exclusions::exclusions_2()[14]));
    assert(css2_supersession_cites_later_official(exclusions::exclusions_2()[15]));
    assert(css2_supersession_cites_later_official(exclusions::exclusions_2()[16]));
    assert(css2_supersession_cites_later_official(exclusions::exclusions_2()[17]));
    assert(css2_supersession_cites_later_official(exclusions::exclusions_2()[18]));
    assert(css2_supersession_cites_later_official(exclusions::exclusions_2()[19]));
    assert(css2_supersession_cites_later_official(exclusions::exclusions_2()[20]));
    assert(css2_supersession_cites_later_official(exclusions::exclusions_2()[21]));
    assert(css2_supersession_cites_later_official(exclusions::exclusions_2()[22]));
    assert(css2_supersession_cites_later_official(exclusions::exclusions_2()[23]));
    assert(css2_supersession_cites_later_official(exclusions::exclusions_2()[24]));
    assert(css2_supersession_cites_later_official(exclusions::exclusions_2()[25]));
    assert(css2_supersession_cites_later_official(exclusions::exclusions_2()[26]));
    assert(css2_supersession_cites_later_official(exclusions::exclusions_2()[27]));
    assert(css2_supersession_cites_later_official(exclusions::exclusions_2()[28]));
    assert(css2_supersession_cites_later_official(exclusions::exclusions_2()[29]));
    assert(css2_supersession_cites_later_official(exclusions::exclusions_2()[30]));
    assert(css2_supersession_cites_later_official(exclusions::exclusions_2()[31]));
    assert(css2_supersession_cites_later_official(exclusions::exclusions_2()[32]));
    assert(css2_supersession_cites_later_official(exclusions::exclusions_2()[33]));
    assert(css2_supersession_cites_later_official(exclusions::exclusions_2()[34]));
    assert(css2_supersession_cites_later_official(exclusions::exclusions_2()[35]));
    assert(css2_supersession_cites_later_official(exclusions::exclusions_2()[36]));
    assert(css2_supersession_cites_later_official(exclusions::exclusions_2()[37]));
    assert(css2_supersession_cites_later_official(exclusions::exclusions_2()[38]));
    assert(css2_supersession_cites_later_official(exclusions::exclusions_2()[39]));
    assert(css2_supersession_cites_later_official(exclusions::exclusions_2()[40]));
    assert(css2_supersession_cites_later_official(exclusions::exclusions_2()[41]));
    assert(css2_supersession_cites_later_official(exclusions::exclusions_2()[42]));
    assert(css2_supersession_cites_later_official(exclusions::exclusions_2()[43]));
    assert(css2_supersession_cites_later_official(exclusions::exclusions_2()[44]));
    assert(css2_supersession_cites_later_official(exclusions::exclusions_2()[45]));
    assert(css2_supersession_cites_later_official(exclusions::exclusions_2()[46]));
    assert(css2_supersession_cites_later_official(exclusions::exclusions_2()[47]));
    assert(css2_supersession_cites_later_official(exclusions::exclusions_2()[48]));
    assert(css2_supersession_cites_later_official(exclusions::exclusions_2()[49]));
    assert(css2_supersession_cites_later_official(exclusions::exclusions_2()[50]));
    assert(css2_supersession_cites_later_official(exclusions::exclusions_2()[51]));
    assert(css2_supersession_cites_later_official(exclusions::exclusions_2()[52]));
    assert(css2_supersession_cites_later_official(exclusions::exclusions_2()[53]));
    assert(css2_supersession_cites_later_official(exclusions::exclusions_2()[54]));
    assert(css2_supersession_cites_later_official(exclusions::exclusions_2()[55]));
    assert(css2_supersession_cites_later_official(exclusions::exclusions_2()[56]));
    assert(css2_supersession_cites_later_official(exclusions::exclusions_2()[57]));
    assert(css2_supersession_cites_later_official(exclusions::exclusions_2()[58]));
    assert(css2_supersession_cites_later_official(exclusions::exclusions_2()[59]));
}

#[verifier::rlimit(100)]
proof fn lemma_exclusions_3_supersession()
    ensures
        forall|i: int| 0 <= i < exclusions::exclusions_3().len() ==> css2_supersession_cites_later_official(#[trigger] exclusions::exclusions_3()[i]),
{
    broadcast use {CssExclusionMetadata::lemma_new_parts, CssConformanceSupersedingId::lemma_spec_new_parts, CssSpecificationSource::lemma_from_url_parts, CssSpecificationSource::lemma_from_repository_parts};

    reveal(exclusions::exclusions_3);
    lemma_superseding_property_records();
    lemma_registry_sizes();
    reveal_strlit("O-BACKGROUNDS3");
    reveal_strlit("O-BOX3");
    reveal_strlit("O-COLOR4");
    reveal_strlit("O-CSS2");
    reveal_strlit("O-FONTS3");
    reveal_strlit("O-UI3");
    reveal_strlit("O-WRITING3");
    lemma_feature_records_lawful();
    assert(css2_supersession_cites_later_official(exclusions::exclusions_3()[0]));
    assert(css2_supersession_cites_later_official(exclusions::exclusions_3()[1]));
    assert(css2_supersession_cites_later_official(exclusions::exclusions_3()[2]));
    assert(css2_supersession_cites_later_official(exclusions::exclusions_3()[3]));
    assert(css2_supersession_cites_later_official(exclusions::exclusions_3()[4]));
    assert(css2_supersession_cites_later_official(exclusions::exclusions_3()[5]));
    assert(css2_supersession_cites_later_official(exclusions::exclusions_3()[6]));
    assert(css2_supersession_cites_later_official(exclusions::exclusions_3()[7]));
    assert(css2_supersession_cites_later_official(exclusions::exclusions_3()[8]));
    assert(css2_supersession_cites_later_official(exclusions::exclusions_3()[9]));
    assert(css2_supersession_cites_later_official(exclusions::exclusions_3()[10]));
}

/// Every CSS 2.1 exclusion whose superseding identity names a property record of the catalog
/// names one that the catalog cites from a later official module, not from CSS 2.1.
pub proof fn lemma_css2_supersessions_cite_later_official()
    ensures
        forall|i: int|
            0 <= i < spec_conformance_exclusions().len() ==> css2_supersession_cites_later_official(
                #[trigger] spec_conformance_exclusions()[i],
            ),
{
    reveal(spec_conformance_exclusions);
    reveal(exclusions::exclusion_list);
    exclusions::lemma_exclusions_1_len();
    exclusions::lemma_exclusions_2_len();
    exclusions::lemma_exclusions_3_len();
    lemma_exclusions_1_supersession();
    lemma_exclusions_2_supersession();
    lemma_exclusions_3_supersession();
    let c = spec_conformance_exclusions();
    assert forall|i: int| 0 <= i < c.len() implies css2_supersession_cites_later_official(#[trigger] c[i]) by {
        if i < 60 {
            assert(c[i] == exclusions::exclusions_1()[i]);
        } else if i < 120 {
            assert(c[i] == exclusions::exclusions_2()[i - 60]);
        } else {
            assert(c[i] == exclusions::exclusions_3()[i - 120]);
        }
    }
}

} // verus!
