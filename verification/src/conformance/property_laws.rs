//! Laws of property lookup and of the productions cited for properties.
use vstd::prelude::*;

use super::catalog_laws::{feature_record_laws, lemma_feature_records_lawful};
use super::property_sources::{lemma_production_follows_css2_source, spec_property_production, spec_property_source};
use super::sources::o_css2;
use super::{catalog_1, catalog_2, catalog_3, catalog_4, catalog_5, catalog_6, catalog_7, catalog_8, feature_has_id, spec_feature_catalog, CssFeatureMetadata};
use crate::diagnostics::property_record_of;
use crate::properties::CssKnownProperty;

verus! {

/// A spelling without a dot is the identity of no catalog record, so its exact lookup finds
/// nothing (a property name such as `display` is no feature identity).
pub proof fn lemma_catalog_lacks_undotted_ids(id: Seq<char>)
    requires
        !id.contains('.'),
    ensures
        forall|i: int|
            0 <= i < spec_feature_catalog().len() ==> !feature_has_id(#[trigger] spec_feature_catalog()[i], id),
{
    lemma_feature_records_lawful();
    assert forall|i: int| 0 <= i < spec_feature_catalog().len() implies !feature_has_id(
        #[trigger] spec_feature_catalog()[i],
        id,
    ) by {
        assert(feature_record_laws(spec_feature_catalog()[i]));
    }
}

/// Every reviewed alias of a catalog record looks that record up by property name. No record of
/// the catalog lists an alias, so the law holds of every record.
pub proof fn lemma_property_aliases_round_trip()
    ensures
        forall|i: int, k: int|
            0 <= i < spec_feature_catalog().len() && 0 <= k < spec_feature_catalog()[i].spec_property_aliases().len()
                ==> property_record_of(#[trigger] spec_feature_catalog()[i].spec_property_aliases()[k]) == Some(spec_feature_catalog()[i]),
{
    lemma_feature_records_lawful();
    assert forall|i: int, k: int|
        0 <= i < spec_feature_catalog().len() && 0 <= k < spec_feature_catalog()[i].spec_property_aliases().len()
            implies property_record_of(#[trigger] spec_feature_catalog()[i].spec_property_aliases()[k]) == Some(spec_feature_catalog()[i]) by {
        assert(feature_record_laws(spec_feature_catalog()[i]));
    }
}

/// The catalog record of each property defined in CSS 2.1, with the production it cites.
#[verifier::rlimit(100)]
proof fn lemma_css2_property_records()
    ensures
        spec_feature_catalog()[182].spec_property() == Some(CssKnownProperty::Display) && spec_feature_catalog()[182].spec_production() == spec_property_production(CssKnownProperty::Display, "#propdef-display") && spec_feature_catalog()[182].spec_source() == spec_property_source(CssKnownProperty::Display),
        spec_feature_catalog()[184].spec_property() == Some(CssKnownProperty::Position) && spec_feature_catalog()[184].spec_production() == spec_property_production(CssKnownProperty::Position, "#propdef-position") && spec_feature_catalog()[184].spec_source() == spec_property_source(CssKnownProperty::Position),
        spec_feature_catalog()[186].spec_property() == Some(CssKnownProperty::Overflow) && spec_feature_catalog()[186].spec_production() == spec_property_production(CssKnownProperty::Overflow, "#propdef-overflow") && spec_feature_catalog()[186].spec_source() == spec_property_source(CssKnownProperty::Overflow),
        spec_feature_catalog()[191].spec_property() == Some(CssKnownProperty::Float) && spec_feature_catalog()[191].spec_production() == spec_property_production(CssKnownProperty::Float, "#propdef-float") && spec_feature_catalog()[191].spec_source() == spec_property_source(CssKnownProperty::Float),
        spec_feature_catalog()[192].spec_property() == Some(CssKnownProperty::Clear) && spec_feature_catalog()[192].spec_production() == spec_property_production(CssKnownProperty::Clear, "#propdef-clear") && spec_feature_catalog()[192].spec_source() == spec_property_source(CssKnownProperty::Clear),
        spec_feature_catalog()[202].spec_property() == Some(CssKnownProperty::Visibility) && spec_feature_catalog()[202].spec_production() == spec_property_production(CssKnownProperty::Visibility, "#propdef-visibility") && spec_feature_catalog()[202].spec_source() == spec_property_source(CssKnownProperty::Visibility),
        spec_feature_catalog()[203].spec_property() == Some(CssKnownProperty::Content) && spec_feature_catalog()[203].spec_production() == spec_property_production(CssKnownProperty::Content, "#propdef-content") && spec_feature_catalog()[203].spec_source() == spec_property_source(CssKnownProperty::Content),
        spec_feature_catalog()[205].spec_property() == Some(CssKnownProperty::ListStyleType) && spec_feature_catalog()[205].spec_production() == spec_property_production(CssKnownProperty::ListStyleType, "#propdef-list-style-type") && spec_feature_catalog()[205].spec_source() == spec_property_source(CssKnownProperty::ListStyleType),
        spec_feature_catalog()[206].spec_property() == Some(CssKnownProperty::ListStylePosition) && spec_feature_catalog()[206].spec_production() == spec_property_production(CssKnownProperty::ListStylePosition, "#propdef-list-style-position") && spec_feature_catalog()[206].spec_source() == spec_property_source(CssKnownProperty::ListStylePosition),
        spec_feature_catalog()[207].spec_property() == Some(CssKnownProperty::ListStyleImage) && spec_feature_catalog()[207].spec_production() == spec_property_production(CssKnownProperty::ListStyleImage, "#propdef-list-style-image") && spec_feature_catalog()[207].spec_source() == spec_property_source(CssKnownProperty::ListStyleImage),
        spec_feature_catalog()[208].spec_property() == Some(CssKnownProperty::ListStyle) && spec_feature_catalog()[208].spec_production() == spec_property_production(CssKnownProperty::ListStyle, "#propdef-list-style") && spec_feature_catalog()[208].spec_source() == spec_property_source(CssKnownProperty::ListStyle),
        spec_feature_catalog()[209].spec_property() == Some(CssKnownProperty::CounterReset) && spec_feature_catalog()[209].spec_production() == spec_property_production(CssKnownProperty::CounterReset, "#propdef-counter-reset") && spec_feature_catalog()[209].spec_source() == spec_property_source(CssKnownProperty::CounterReset),
        spec_feature_catalog()[210].spec_property() == Some(CssKnownProperty::CounterIncrement) && spec_feature_catalog()[210].spec_production() == spec_property_production(CssKnownProperty::CounterIncrement, "#propdef-counter-increment") && spec_feature_catalog()[210].spec_source() == spec_property_source(CssKnownProperty::CounterIncrement),
        spec_feature_catalog()[212].spec_property() == Some(CssKnownProperty::Width) && spec_feature_catalog()[212].spec_production() == spec_property_production(CssKnownProperty::Width, "#propdef-width") && spec_feature_catalog()[212].spec_source() == spec_property_source(CssKnownProperty::Width),
        spec_feature_catalog()[213].spec_property() == Some(CssKnownProperty::Height) && spec_feature_catalog()[213].spec_production() == spec_property_production(CssKnownProperty::Height, "#propdef-height") && spec_feature_catalog()[213].spec_source() == spec_property_source(CssKnownProperty::Height),
        spec_feature_catalog()[214].spec_property() == Some(CssKnownProperty::MinWidth) && spec_feature_catalog()[214].spec_production() == spec_property_production(CssKnownProperty::MinWidth, "#propdef-min-width") && spec_feature_catalog()[214].spec_source() == spec_property_source(CssKnownProperty::MinWidth),
        spec_feature_catalog()[215].spec_property() == Some(CssKnownProperty::MinHeight) && spec_feature_catalog()[215].spec_production() == spec_property_production(CssKnownProperty::MinHeight, "#propdef-min-height") && spec_feature_catalog()[215].spec_source() == spec_property_source(CssKnownProperty::MinHeight),
        spec_feature_catalog()[216].spec_property() == Some(CssKnownProperty::MaxWidth) && spec_feature_catalog()[216].spec_production() == spec_property_production(CssKnownProperty::MaxWidth, "#propdef-max-width") && spec_feature_catalog()[216].spec_source() == spec_property_source(CssKnownProperty::MaxWidth),
        spec_feature_catalog()[217].spec_property() == Some(CssKnownProperty::MaxHeight) && spec_feature_catalog()[217].spec_production() == spec_property_production(CssKnownProperty::MaxHeight, "#propdef-max-height") && spec_feature_catalog()[217].spec_source() == spec_property_source(CssKnownProperty::MaxHeight),
        spec_feature_catalog()[239].spec_property() == Some(CssKnownProperty::LineHeight) && spec_feature_catalog()[239].spec_production() == spec_property_production(CssKnownProperty::LineHeight, "#propdef-line-height") && spec_feature_catalog()[239].spec_source() == spec_property_source(CssKnownProperty::LineHeight),
        spec_feature_catalog()[241].spec_property() == Some(CssKnownProperty::TextAlign) && spec_feature_catalog()[241].spec_production() == spec_property_production(CssKnownProperty::TextAlign, "#propdef-text-align") && spec_feature_catalog()[241].spec_source() == spec_property_source(CssKnownProperty::TextAlign),
        spec_feature_catalog()[243].spec_property() == Some(CssKnownProperty::TextIndent) && spec_feature_catalog()[243].spec_production() == spec_property_production(CssKnownProperty::TextIndent, "#propdef-text-indent") && spec_feature_catalog()[243].spec_source() == spec_property_source(CssKnownProperty::TextIndent),
        spec_feature_catalog()[244].spec_property() == Some(CssKnownProperty::VerticalAlign) && spec_feature_catalog()[244].spec_production() == spec_property_production(CssKnownProperty::VerticalAlign, "#propdef-vertical-align") && spec_feature_catalog()[244].spec_source() == spec_property_source(CssKnownProperty::VerticalAlign),
        spec_feature_catalog()[261].spec_property() == Some(CssKnownProperty::LetterSpacing) && spec_feature_catalog()[261].spec_production() == spec_property_production(CssKnownProperty::LetterSpacing, "#propdef-letter-spacing") && spec_feature_catalog()[261].spec_source() == spec_property_source(CssKnownProperty::LetterSpacing),
        spec_feature_catalog()[263].spec_property() == Some(CssKnownProperty::WhiteSpace) && spec_feature_catalog()[263].spec_production() == spec_property_production(CssKnownProperty::WhiteSpace, "#propdef-white-space") && spec_feature_catalog()[263].spec_source() == spec_property_source(CssKnownProperty::WhiteSpace),
        spec_feature_catalog()[267].spec_property() == Some(CssKnownProperty::TextDecoration) && spec_feature_catalog()[267].spec_production() == spec_property_production(CssKnownProperty::TextDecoration, "#propdef-text-decoration") && spec_feature_catalog()[267].spec_source() == spec_property_source(CssKnownProperty::TextDecoration),
        spec_feature_catalog()[272].spec_property() == Some(CssKnownProperty::TextTransform) && spec_feature_catalog()[272].spec_production() == spec_property_production(CssKnownProperty::TextTransform, "#propdef-text-transform") && spec_feature_catalog()[272].spec_source() == spec_property_source(CssKnownProperty::TextTransform),
        spec_feature_catalog()[274].spec_property() == Some(CssKnownProperty::Top) && spec_feature_catalog()[274].spec_production() == spec_property_production(CssKnownProperty::Top, "#propdef-top") && spec_feature_catalog()[274].spec_source() == spec_property_source(CssKnownProperty::Top),
        spec_feature_catalog()[275].spec_property() == Some(CssKnownProperty::Right) && spec_feature_catalog()[275].spec_production() == spec_property_production(CssKnownProperty::Right, "#propdef-right") && spec_feature_catalog()[275].spec_source() == spec_property_source(CssKnownProperty::Right),
        spec_feature_catalog()[276].spec_property() == Some(CssKnownProperty::Bottom) && spec_feature_catalog()[276].spec_production() == spec_property_production(CssKnownProperty::Bottom, "#propdef-bottom") && spec_feature_catalog()[276].spec_source() == spec_property_source(CssKnownProperty::Bottom),
        spec_feature_catalog()[277].spec_property() == Some(CssKnownProperty::Left) && spec_feature_catalog()[277].spec_production() == spec_property_production(CssKnownProperty::Left, "#propdef-left") && spec_feature_catalog()[277].spec_source() == spec_property_source(CssKnownProperty::Left),
        spec_feature_catalog()[278].spec_property() == Some(CssKnownProperty::ZIndex) && spec_feature_catalog()[278].spec_production() == spec_property_production(CssKnownProperty::ZIndex, "#propdef-z-index") && spec_feature_catalog()[278].spec_source() == spec_property_source(CssKnownProperty::ZIndex),
        spec_feature_catalog()[379].spec_property() == Some(CssKnownProperty::BorderCollapse) && spec_feature_catalog()[379].spec_production() == spec_property_production(CssKnownProperty::BorderCollapse, "tables.html#propdef-border-collapse") && spec_feature_catalog()[379].spec_source() == spec_property_source(CssKnownProperty::BorderCollapse),
        spec_feature_catalog()[380].spec_property() == Some(CssKnownProperty::BorderSpacing) && spec_feature_catalog()[380].spec_production() == spec_property_production(CssKnownProperty::BorderSpacing, "tables.html#propdef-border-spacing") && spec_feature_catalog()[380].spec_source() == spec_property_source(CssKnownProperty::BorderSpacing),
        spec_feature_catalog()[381].spec_property() == Some(CssKnownProperty::CaptionSide) && spec_feature_catalog()[381].spec_production() == spec_property_production(CssKnownProperty::CaptionSide, "tables.html#propdef-caption-side") && spec_feature_catalog()[381].spec_source() == spec_property_source(CssKnownProperty::CaptionSide),
        spec_feature_catalog()[382].spec_property() == Some(CssKnownProperty::Clip) && spec_feature_catalog()[382].spec_production() == spec_property_production(CssKnownProperty::Clip, "visufx.html#propdef-clip") && spec_feature_catalog()[382].spec_source() == spec_property_source(CssKnownProperty::Clip),
        spec_feature_catalog()[383].spec_property() == Some(CssKnownProperty::EmptyCells) && spec_feature_catalog()[383].spec_production() == spec_property_production(CssKnownProperty::EmptyCells, "tables.html#propdef-empty-cells") && spec_feature_catalog()[383].spec_source() == spec_property_source(CssKnownProperty::EmptyCells),
        spec_feature_catalog()[384].spec_property() == Some(CssKnownProperty::Orphans) && spec_feature_catalog()[384].spec_production() == spec_property_production(CssKnownProperty::Orphans, "page.html#propdef-orphans") && spec_feature_catalog()[384].spec_source() == spec_property_source(CssKnownProperty::Orphans),
        spec_feature_catalog()[385].spec_property() == Some(CssKnownProperty::PageBreakAfter) && spec_feature_catalog()[385].spec_production() == spec_property_production(CssKnownProperty::PageBreakAfter, "page.html#propdef-page-break-after") && spec_feature_catalog()[385].spec_source() == spec_property_source(CssKnownProperty::PageBreakAfter),
        spec_feature_catalog()[386].spec_property() == Some(CssKnownProperty::PageBreakBefore) && spec_feature_catalog()[386].spec_production() == spec_property_production(CssKnownProperty::PageBreakBefore, "page.html#propdef-page-break-before") && spec_feature_catalog()[386].spec_source() == spec_property_source(CssKnownProperty::PageBreakBefore),
        spec_feature_catalog()[387].spec_property() == Some(CssKnownProperty::PageBreakInside) && spec_feature_catalog()[387].spec_production() == spec_property_production(CssKnownProperty::PageBreakInside, "page.html#propdef-page-break-inside") && spec_feature_catalog()[387].spec_source() == spec_property_source(CssKnownProperty::PageBreakInside),
        spec_feature_catalog()[388].spec_property() == Some(CssKnownProperty::Quotes) && spec_feature_catalog()[388].spec_production() == spec_property_production(CssKnownProperty::Quotes, "generate.html#propdef-quotes") && spec_feature_catalog()[388].spec_source() == spec_property_source(CssKnownProperty::Quotes),
        spec_feature_catalog()[389].spec_property() == Some(CssKnownProperty::TableLayout) && spec_feature_catalog()[389].spec_production() == spec_property_production(CssKnownProperty::TableLayout, "tables.html#propdef-table-layout") && spec_feature_catalog()[389].spec_source() == spec_property_source(CssKnownProperty::TableLayout),
        spec_feature_catalog()[390].spec_property() == Some(CssKnownProperty::Widows) && spec_feature_catalog()[390].spec_production() == spec_property_production(CssKnownProperty::Widows, "page.html#propdef-widows") && spec_feature_catalog()[390].spec_source() == spec_property_source(CssKnownProperty::Widows),
        spec_feature_catalog()[391].spec_property() == Some(CssKnownProperty::WordSpacing) && spec_feature_catalog()[391].spec_production() == spec_property_production(CssKnownProperty::WordSpacing, "text.html#propdef-word-spacing") && spec_feature_catalog()[391].spec_source() == spec_property_source(CssKnownProperty::WordSpacing),
{
    broadcast use {CssFeatureMetadata::lemma_complete_parts, CssFeatureMetadata::lemma_partial_parts, CssFeatureMetadata::lemma_baseline_alias_parts, CssFeatureMetadata::lemma_recognized_unsupported_parts, CssFeatureMetadata::lemma_partial_property_parts, CssFeatureMetadata::lemma_complete_property_parts, CssFeatureMetadata::lemma_partial_property_with_boundary_parts};

    reveal(spec_feature_catalog);
    catalog_1::lemma_features_len();
    catalog_2::lemma_features_len();
    catalog_3::lemma_features_len();
    catalog_4::lemma_features_len();
    catalog_5::lemma_features_len();
    catalog_6::lemma_features_len();
    catalog_7::lemma_features_len();
    catalog_8::lemma_features_len();
    reveal(catalog_4::features);
    reveal(catalog_5::features);
    reveal(catalog_7::features);
    let c = spec_feature_catalog();
    assert(c[182] == catalog_4::features()[2]);
    assert(c[184] == catalog_4::features()[4]);
    assert(c[186] == catalog_4::features()[6]);
    assert(c[191] == catalog_4::features()[11]);
    assert(c[192] == catalog_4::features()[12]);
    assert(c[202] == catalog_4::features()[22]);
    assert(c[203] == catalog_4::features()[23]);
    assert(c[205] == catalog_4::features()[25]);
    assert(c[206] == catalog_4::features()[26]);
    assert(c[207] == catalog_4::features()[27]);
    assert(c[208] == catalog_4::features()[28]);
    assert(c[209] == catalog_4::features()[29]);
    assert(c[210] == catalog_4::features()[30]);
    assert(c[212] == catalog_4::features()[32]);
    assert(c[213] == catalog_4::features()[33]);
    assert(c[214] == catalog_4::features()[34]);
    assert(c[215] == catalog_4::features()[35]);
    assert(c[216] == catalog_4::features()[36]);
    assert(c[217] == catalog_4::features()[37]);
    assert(c[239] == catalog_4::features()[59]);
    assert(c[241] == catalog_5::features()[1]);
    assert(c[243] == catalog_5::features()[3]);
    assert(c[244] == catalog_5::features()[4]);
    assert(c[261] == catalog_5::features()[21]);
    assert(c[263] == catalog_5::features()[23]);
    assert(c[267] == catalog_5::features()[27]);
    assert(c[272] == catalog_5::features()[32]);
    assert(c[274] == catalog_5::features()[34]);
    assert(c[275] == catalog_5::features()[35]);
    assert(c[276] == catalog_5::features()[36]);
    assert(c[277] == catalog_5::features()[37]);
    assert(c[278] == catalog_5::features()[38]);
    assert(c[379] == catalog_7::features()[19]);
    assert(c[380] == catalog_7::features()[20]);
    assert(c[381] == catalog_7::features()[21]);
    assert(c[382] == catalog_7::features()[22]);
    assert(c[383] == catalog_7::features()[23]);
    assert(c[384] == catalog_7::features()[24]);
    assert(c[385] == catalog_7::features()[25]);
    assert(c[386] == catalog_7::features()[26]);
    assert(c[387] == catalog_7::features()[27]);
    assert(c[388] == catalog_7::features()[28]);
    assert(c[389] == catalog_7::features()[29]);
    assert(c[390] == catalog_7::features()[30]);
    assert(c[391] == catalog_7::features()[31]);
}

/// Whether `production` cites the fragment `#propdef-` and `spelling` after a non-empty chapter.
pub open spec fn cites_chapter_fragment(production: Seq<char>, spelling: Seq<char>) -> bool {
    let fragment = "#propdef-"@ + spelling;
    &&& production.len() > fragment.len()
    &&& production.skip(production.len() - fragment.len()) == fragment
}

/// Every property whose specification is CSS 2.1 cites, whatever the fallback, a chapter file
/// followed by `#propdef-` and the canonical spelling of its catalog record.
pub proof fn lemma_css2_production_form(property: CssKnownProperty, default: &'static str)
    requires
        spec_property_source(property) == o_css2(),
    ensures
        exists|j: int|
            0 <= j < spec_feature_catalog().len() && (#[trigger] spec_feature_catalog()[j]).spec_property()
                == Some(property) && cites_chapter_fragment(
                spec_property_production(property, default)@,
                spec_feature_catalog()[j].spec_spelling()@,
            ),
{
    reveal(spec_property_source);
    lemma_css2_property_records();
    lemma_feature_records_lawful();
    super::lemma_registry_sizes();
    match property {
        CssKnownProperty::Display => {
            let f = spec_feature_catalog()[182];
            assert(feature_record_laws(f));
            lemma_production_follows_css2_source(property, default, "#propdef-display");
            assert(cites_chapter_fragment(spec_property_production(property, default)@, f.spec_spelling()@));
        },
        CssKnownProperty::Position => {
            let f = spec_feature_catalog()[184];
            assert(feature_record_laws(f));
            lemma_production_follows_css2_source(property, default, "#propdef-position");
            assert(cites_chapter_fragment(spec_property_production(property, default)@, f.spec_spelling()@));
        },
        CssKnownProperty::Overflow => {
            let f = spec_feature_catalog()[186];
            assert(feature_record_laws(f));
            lemma_production_follows_css2_source(property, default, "#propdef-overflow");
            assert(cites_chapter_fragment(spec_property_production(property, default)@, f.spec_spelling()@));
        },
        CssKnownProperty::Float => {
            let f = spec_feature_catalog()[191];
            assert(feature_record_laws(f));
            lemma_production_follows_css2_source(property, default, "#propdef-float");
            assert(cites_chapter_fragment(spec_property_production(property, default)@, f.spec_spelling()@));
        },
        CssKnownProperty::Clear => {
            let f = spec_feature_catalog()[192];
            assert(feature_record_laws(f));
            lemma_production_follows_css2_source(property, default, "#propdef-clear");
            assert(cites_chapter_fragment(spec_property_production(property, default)@, f.spec_spelling()@));
        },
        CssKnownProperty::Visibility => {
            let f = spec_feature_catalog()[202];
            assert(feature_record_laws(f));
            lemma_production_follows_css2_source(property, default, "#propdef-visibility");
            assert(cites_chapter_fragment(spec_property_production(property, default)@, f.spec_spelling()@));
        },
        CssKnownProperty::Content => {
            let f = spec_feature_catalog()[203];
            assert(feature_record_laws(f));
            lemma_production_follows_css2_source(property, default, "#propdef-content");
            assert(cites_chapter_fragment(spec_property_production(property, default)@, f.spec_spelling()@));
        },
        CssKnownProperty::ListStyleType => {
            let f = spec_feature_catalog()[205];
            assert(feature_record_laws(f));
            lemma_production_follows_css2_source(property, default, "#propdef-list-style-type");
            assert(cites_chapter_fragment(spec_property_production(property, default)@, f.spec_spelling()@));
        },
        CssKnownProperty::ListStylePosition => {
            let f = spec_feature_catalog()[206];
            assert(feature_record_laws(f));
            lemma_production_follows_css2_source(property, default, "#propdef-list-style-position");
            assert(cites_chapter_fragment(spec_property_production(property, default)@, f.spec_spelling()@));
        },
        CssKnownProperty::ListStyleImage => {
            let f = spec_feature_catalog()[207];
            assert(feature_record_laws(f));
            lemma_production_follows_css2_source(property, default, "#propdef-list-style-image");
            assert(cites_chapter_fragment(spec_property_production(property, default)@, f.spec_spelling()@));
        },
        CssKnownProperty::ListStyle => {
            let f = spec_feature_catalog()[208];
            assert(feature_record_laws(f));
            lemma_production_follows_css2_source(property, default, "#propdef-list-style");
            assert(cites_chapter_fragment(spec_property_production(property, default)@, f.spec_spelling()@));
        },
        CssKnownProperty::CounterReset => {
            let f = spec_feature_catalog()[209];
            assert(feature_record_laws(f));
            lemma_production_follows_css2_source(property, default, "#propdef-counter-reset");
            assert(cites_chapter_fragment(spec_property_production(property, default)@, f.spec_spelling()@));
        },
        CssKnownProperty::CounterIncrement => {
            let f = spec_feature_catalog()[210];
            assert(feature_record_laws(f));
            lemma_production_follows_css2_source(property, default, "#propdef-counter-increment");
            assert(cites_chapter_fragment(spec_property_production(property, default)@, f.spec_spelling()@));
        },
        CssKnownProperty::Width => {
            let f = spec_feature_catalog()[212];
            assert(feature_record_laws(f));
            lemma_production_follows_css2_source(property, default, "#propdef-width");
            assert(cites_chapter_fragment(spec_property_production(property, default)@, f.spec_spelling()@));
        },
        CssKnownProperty::Height => {
            let f = spec_feature_catalog()[213];
            assert(feature_record_laws(f));
            lemma_production_follows_css2_source(property, default, "#propdef-height");
            assert(cites_chapter_fragment(spec_property_production(property, default)@, f.spec_spelling()@));
        },
        CssKnownProperty::MinWidth => {
            let f = spec_feature_catalog()[214];
            assert(feature_record_laws(f));
            lemma_production_follows_css2_source(property, default, "#propdef-min-width");
            assert(cites_chapter_fragment(spec_property_production(property, default)@, f.spec_spelling()@));
        },
        CssKnownProperty::MinHeight => {
            let f = spec_feature_catalog()[215];
            assert(feature_record_laws(f));
            lemma_production_follows_css2_source(property, default, "#propdef-min-height");
            assert(cites_chapter_fragment(spec_property_production(property, default)@, f.spec_spelling()@));
        },
        CssKnownProperty::MaxWidth => {
            let f = spec_feature_catalog()[216];
            assert(feature_record_laws(f));
            lemma_production_follows_css2_source(property, default, "#propdef-max-width");
            assert(cites_chapter_fragment(spec_property_production(property, default)@, f.spec_spelling()@));
        },
        CssKnownProperty::MaxHeight => {
            let f = spec_feature_catalog()[217];
            assert(feature_record_laws(f));
            lemma_production_follows_css2_source(property, default, "#propdef-max-height");
            assert(cites_chapter_fragment(spec_property_production(property, default)@, f.spec_spelling()@));
        },
        CssKnownProperty::LineHeight => {
            let f = spec_feature_catalog()[239];
            assert(feature_record_laws(f));
            lemma_production_follows_css2_source(property, default, "#propdef-line-height");
            assert(cites_chapter_fragment(spec_property_production(property, default)@, f.spec_spelling()@));
        },
        CssKnownProperty::TextAlign => {
            let f = spec_feature_catalog()[241];
            assert(feature_record_laws(f));
            lemma_production_follows_css2_source(property, default, "#propdef-text-align");
            assert(cites_chapter_fragment(spec_property_production(property, default)@, f.spec_spelling()@));
        },
        CssKnownProperty::TextIndent => {
            let f = spec_feature_catalog()[243];
            assert(feature_record_laws(f));
            lemma_production_follows_css2_source(property, default, "#propdef-text-indent");
            assert(cites_chapter_fragment(spec_property_production(property, default)@, f.spec_spelling()@));
        },
        CssKnownProperty::VerticalAlign => {
            let f = spec_feature_catalog()[244];
            assert(feature_record_laws(f));
            lemma_production_follows_css2_source(property, default, "#propdef-vertical-align");
            assert(cites_chapter_fragment(spec_property_production(property, default)@, f.spec_spelling()@));
        },
        CssKnownProperty::LetterSpacing => {
            let f = spec_feature_catalog()[261];
            assert(feature_record_laws(f));
            lemma_production_follows_css2_source(property, default, "#propdef-letter-spacing");
            assert(cites_chapter_fragment(spec_property_production(property, default)@, f.spec_spelling()@));
        },
        CssKnownProperty::WhiteSpace => {
            let f = spec_feature_catalog()[263];
            assert(feature_record_laws(f));
            lemma_production_follows_css2_source(property, default, "#propdef-white-space");
            assert(cites_chapter_fragment(spec_property_production(property, default)@, f.spec_spelling()@));
        },
        CssKnownProperty::TextDecoration => {
            let f = spec_feature_catalog()[267];
            assert(feature_record_laws(f));
            lemma_production_follows_css2_source(property, default, "#propdef-text-decoration");
            assert(cites_chapter_fragment(spec_property_production(property, default)@, f.spec_spelling()@));
        },
        CssKnownProperty::TextTransform => {
            let f = spec_feature_catalog()[272];
            assert(feature_record_laws(f));
            lemma_production_follows_css2_source(property, default, "#propdef-text-transform");
            assert(cites_chapter_fragment(spec_property_production(property, default)@, f.spec_spelling()@));
        },
        CssKnownProperty::Top => {
            let f = spec_feature_catalog()[274];
            assert(feature_record_laws(f));
            lemma_production_follows_css2_source(property, default, "#propdef-top");
            assert(cites_chapter_fragment(spec_property_production(property, default)@, f.spec_spelling()@));
        },
        CssKnownProperty::Right => {
            let f = spec_feature_catalog()[275];
            assert(feature_record_laws(f));
            lemma_production_follows_css2_source(property, default, "#propdef-right");
            assert(cites_chapter_fragment(spec_property_production(property, default)@, f.spec_spelling()@));
        },
        CssKnownProperty::Bottom => {
            let f = spec_feature_catalog()[276];
            assert(feature_record_laws(f));
            lemma_production_follows_css2_source(property, default, "#propdef-bottom");
            assert(cites_chapter_fragment(spec_property_production(property, default)@, f.spec_spelling()@));
        },
        CssKnownProperty::Left => {
            let f = spec_feature_catalog()[277];
            assert(feature_record_laws(f));
            lemma_production_follows_css2_source(property, default, "#propdef-left");
            assert(cites_chapter_fragment(spec_property_production(property, default)@, f.spec_spelling()@));
        },
        CssKnownProperty::ZIndex => {
            let f = spec_feature_catalog()[278];
            assert(feature_record_laws(f));
            lemma_production_follows_css2_source(property, default, "#propdef-z-index");
            assert(cites_chapter_fragment(spec_property_production(property, default)@, f.spec_spelling()@));
        },
        CssKnownProperty::BorderCollapse => {
            let f = spec_feature_catalog()[379];
            assert(feature_record_laws(f));
            lemma_production_follows_css2_source(property, default, "tables.html#propdef-border-collapse");
            assert(cites_chapter_fragment(spec_property_production(property, default)@, f.spec_spelling()@));
        },
        CssKnownProperty::BorderSpacing => {
            let f = spec_feature_catalog()[380];
            assert(feature_record_laws(f));
            lemma_production_follows_css2_source(property, default, "tables.html#propdef-border-spacing");
            assert(cites_chapter_fragment(spec_property_production(property, default)@, f.spec_spelling()@));
        },
        CssKnownProperty::CaptionSide => {
            let f = spec_feature_catalog()[381];
            assert(feature_record_laws(f));
            lemma_production_follows_css2_source(property, default, "tables.html#propdef-caption-side");
            assert(cites_chapter_fragment(spec_property_production(property, default)@, f.spec_spelling()@));
        },
        CssKnownProperty::Clip => {
            let f = spec_feature_catalog()[382];
            assert(feature_record_laws(f));
            lemma_production_follows_css2_source(property, default, "visufx.html#propdef-clip");
            assert(cites_chapter_fragment(spec_property_production(property, default)@, f.spec_spelling()@));
        },
        CssKnownProperty::EmptyCells => {
            let f = spec_feature_catalog()[383];
            assert(feature_record_laws(f));
            lemma_production_follows_css2_source(property, default, "tables.html#propdef-empty-cells");
            assert(cites_chapter_fragment(spec_property_production(property, default)@, f.spec_spelling()@));
        },
        CssKnownProperty::Orphans => {
            let f = spec_feature_catalog()[384];
            assert(feature_record_laws(f));
            lemma_production_follows_css2_source(property, default, "page.html#propdef-orphans");
            assert(cites_chapter_fragment(spec_property_production(property, default)@, f.spec_spelling()@));
        },
        CssKnownProperty::PageBreakAfter => {
            let f = spec_feature_catalog()[385];
            assert(feature_record_laws(f));
            lemma_production_follows_css2_source(property, default, "page.html#propdef-page-break-after");
            assert(cites_chapter_fragment(spec_property_production(property, default)@, f.spec_spelling()@));
        },
        CssKnownProperty::PageBreakBefore => {
            let f = spec_feature_catalog()[386];
            assert(feature_record_laws(f));
            lemma_production_follows_css2_source(property, default, "page.html#propdef-page-break-before");
            assert(cites_chapter_fragment(spec_property_production(property, default)@, f.spec_spelling()@));
        },
        CssKnownProperty::PageBreakInside => {
            let f = spec_feature_catalog()[387];
            assert(feature_record_laws(f));
            lemma_production_follows_css2_source(property, default, "page.html#propdef-page-break-inside");
            assert(cites_chapter_fragment(spec_property_production(property, default)@, f.spec_spelling()@));
        },
        CssKnownProperty::Quotes => {
            let f = spec_feature_catalog()[388];
            assert(feature_record_laws(f));
            lemma_production_follows_css2_source(property, default, "generate.html#propdef-quotes");
            assert(cites_chapter_fragment(spec_property_production(property, default)@, f.spec_spelling()@));
        },
        CssKnownProperty::TableLayout => {
            let f = spec_feature_catalog()[389];
            assert(feature_record_laws(f));
            lemma_production_follows_css2_source(property, default, "tables.html#propdef-table-layout");
            assert(cites_chapter_fragment(spec_property_production(property, default)@, f.spec_spelling()@));
        },
        CssKnownProperty::Widows => {
            let f = spec_feature_catalog()[390];
            assert(feature_record_laws(f));
            lemma_production_follows_css2_source(property, default, "page.html#propdef-widows");
            assert(cites_chapter_fragment(spec_property_production(property, default)@, f.spec_spelling()@));
        },
        CssKnownProperty::WordSpacing => {
            let f = spec_feature_catalog()[391];
            assert(feature_record_laws(f));
            lemma_production_follows_css2_source(property, default, "text.html#propdef-word-spacing");
            assert(cites_chapter_fragment(spec_property_production(property, default)@, f.spec_spelling()@));
        },
        _ => {},
    }
}

} // verus!
