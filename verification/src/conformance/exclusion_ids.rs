//! Every conformance exclusion carries its own stable identity.
use vstd::prelude::*;

use super::identities::{lemma_sorted_order_distinct, sorts_before, sorts_before_at};
use super::{exclusions, exclusion_has_id, spec_conformance_exclusions, CssExclusionMetadata};
use crate::search::{first_match, is_first_match, lemma_first_match_at};

verus! {

/// The stable identities of one part of the registry, in registry order.
#[verifier::opaque]
pub open spec fn exclusion_id_chunk_1() -> Seq<&'static str> {
    seq![
        "excluded.O-WRITING3.property.glyph-orientation-horizontal",
        "excluded.O-UI3.property.ime-mode",
        "excluded.O-CSS2.property.margin",
        "excluded.O-CSS2.property.margin-bottom",
        "excluded.O-CSS2.property.margin-left",
        "excluded.O-CSS2.property.margin-right",
        "excluded.O-CSS2.property.margin-top",
        "excluded.O-CSS2.property.padding",
        "excluded.O-CSS2.property.padding-bottom",
        "excluded.O-CSS2.property.padding-left",
        "excluded.O-CSS2.property.padding-right",
        "excluded.O-CSS2.property.padding-top",
        "excluded.O-CSS2.property.color",
        "excluded.O-CSS2.property.background",
        "excluded.O-CSS2.property.background-attachment",
        "excluded.O-CSS2.property.background-color",
        "excluded.O-CSS2.property.background-image",
        "excluded.O-CSS2.property.background-position",
        "excluded.O-CSS2.property.background-repeat",
        "excluded.O-CSS2.property.border",
        "excluded.O-CSS2.property.border-bottom",
        "excluded.O-CSS2.property.border-bottom-color",
        "excluded.O-CSS2.property.border-bottom-style",
        "excluded.O-CSS2.property.border-bottom-width",
        "excluded.O-CSS2.property.border-color",
        "excluded.O-CSS2.property.border-left",
        "excluded.O-CSS2.property.border-left-color",
        "excluded.O-CSS2.property.border-left-style",
        "excluded.O-CSS2.property.border-left-width",
        "excluded.O-CSS2.property.border-right",
        "excluded.O-CSS2.property.border-right-color",
        "excluded.O-CSS2.property.border-right-style",
        "excluded.O-CSS2.property.border-right-width",
        "excluded.O-CSS2.property.border-style",
        "excluded.O-CSS2.property.border-top",
        "excluded.O-CSS2.property.border-top-color",
        "excluded.O-CSS2.property.border-top-style",
        "excluded.O-CSS2.property.border-top-width",
        "excluded.O-CSS2.property.border-width",
        "excluded.O-CSS2.property.font",
        "excluded.O-CSS2.property.font-family",
        "excluded.O-CSS2.property.font-size",
        "excluded.O-CSS2.property.font-style",
        "excluded.O-CSS2.property.font-variant",
        "excluded.O-CSS2.property.font-weight",
        "excluded.O-CSS2.property.direction",
        "excluded.O-CSS2.property.unicode-bidi",
        "excluded.O-CSS2.property.cursor",
        "excluded.O-CSS2.property.outline",
        "excluded.O-CSS2.property.outline-color",
        "excluded.O-CSS2.property.outline-style",
        "excluded.O-CSS2.property.outline-width",
        "excluded.O-CSS2.informative-property.azimuth",
        "excluded.O-CSS2.informative-property.cue",
        "excluded.O-CSS2.informative-property.cue-after",
        "excluded.O-CSS2.informative-property.cue-before",
        "excluded.O-CSS2.informative-property.elevation",
        "excluded.O-CSS2.informative-property.pause",
        "excluded.O-CSS2.informative-property.pause-after",
        "excluded.O-CSS2.informative-property.pause-before",
    ]
}

#[verifier::opaque]
spec fn exclusion_order_chunk_1() -> Seq<int> {
    seq![119, 92, 117, 88, 114, 84, 89, 118, 91, 90, 128, 104, 81, 111, 126, 102, 130, 106, 107, 52, 53, 54, 55, 56, 57, 58, 59, 60, 61, 62, 63, 64, 65, 66, 67, 68, 69, 70, 71, 76, 13, 14, 15, 16, 17, 18, 19, 20, 21, 22, 23, 24, 25, 26, 27, 28, 29, 30, 31, 32]
}

#[verifier::opaque]
spec fn exclusion_rank_chunk_1() -> Seq<int> {
    seq![130, 122, 75, 76, 77, 78, 79, 84, 85, 86, 87, 88, 66, 40, 41, 42, 43, 44, 45, 46, 47, 48, 49, 50, 51, 52, 53, 54, 55, 56, 57, 58, 59, 60, 61, 62, 63, 64, 65, 69, 70, 71, 72, 73, 74, 68, 89, 67, 80, 81, 82, 83, 19, 20, 21, 22, 23, 24, 25, 26]
}

/// The stable identities of one part of the registry, in registry order.
#[verifier::opaque]
pub open spec fn exclusion_id_chunk_2() -> Seq<&'static str> {
    seq![
        "excluded.O-CSS2.informative-property.pitch",
        "excluded.O-CSS2.informative-property.pitch-range",
        "excluded.O-CSS2.informative-property.play-during",
        "excluded.O-CSS2.informative-property.richness",
        "excluded.O-CSS2.informative-property.speak",
        "excluded.O-CSS2.informative-property.speak-header",
        "excluded.O-CSS2.informative-property.speak-numeral",
        "excluded.O-CSS2.informative-property.speak-punctuation",
        "excluded.O-CSS2.informative-property.speech-rate",
        "excluded.O-CSS2.informative-property.stress",
        "excluded.O-CSS2.informative-property.voice-family",
        "excluded.O-CSS2.informative-property.volume",
        "excluded.O-CSS2.superseded-syntax",
        "excluded.O-CSS2.superseded-media",
        "excluded.O-CSS2.superseded-selectors",
        "excluded.O-CSS2.superseded-cascade-values",
        "excluded.O-CSS2.non-authored-semantics",
        "excluded.O-SYNTAX3.fragment-api",
        "excluded.O-SYNTAX3.serialization",
        "excluded.O-STYLE-ATTR.interpretation",
        "excluded.O-MEDIA3.evaluation",
        "excluded.O-CONDITIONAL3.evaluation-api",
        "excluded.O-SELECTORS3.matching-specificity",
        "excluded.O-NAMESPACES3.uri-matching",
        "excluded.O-CASCADE4.processing",
        "excluded.O-VALUES3.metasyntax",
        "excluded.O-VALUES3.computation",
        "excluded.O-VARIABLES1.substitution",
        "excluded.O-BOX3.layout",
        "excluded.O-COLOR4.color5-syntax",
        "excluded.O-COLOR4.quirky-color",
        "excluded.O-COLOR4.processing",
        "excluded.O-BACKGROUNDS3.painting",
        "excluded.O-IMAGES3.processing",
        "excluded.O-FONTS3.processing",
        "excluded.O-FONTS3.font-display",
        "excluded.O-FONTS3.font-feature-values",
        "excluded.O-WRITING3.layout",
        "excluded.O-MULTICOL1.layout",
        "excluded.O-FLEXBOX1.layout",
        "excluded.O-FLEXBOX1.webkit-legacy",
        "excluded.O-UI3.behavior",
        "excluded.O-CONTAIN1.semantics",
        "excluded.O-TRANSFORMS1.processing",
        "excluded.O-COMPOSITING1.processing",
        "excluded.O-EASING1.evaluation",
        "excluded.O-COUNTERSTYLES3.processing",
        "excluded.O-CSS2.informative-audit",
        "excluded.O-SYNTAX3.informative-audit",
        "excluded.O-STYLE-ATTR.informative-audit",
        "excluded.O-MEDIA3.informative-audit",
        "excluded.O-CONDITIONAL3.informative-audit",
        "excluded.O-SELECTORS3.informative-audit",
        "excluded.O-NAMESPACES3.informative-audit",
        "excluded.O-CASCADE4.informative-audit",
        "excluded.O-VALUES3.informative-audit",
        "excluded.O-VARIABLES1.informative-audit",
        "excluded.O-BOX3.informative-audit",
        "excluded.O-COLOR4.informative-audit",
        "excluded.O-BACKGROUNDS3.informative-audit",
    ]
}

#[verifier::opaque]
spec fn exclusion_order_chunk_2() -> Seq<int> {
    seq![33, 34, 35, 36, 37, 38, 12, 47, 45, 39, 40, 41, 42, 43, 44, 2, 3, 4, 5, 6, 48, 49, 50, 51, 7, 8, 9, 10, 11, 46, 75, 73, 74, 72, 105, 129, 124, 99, 100, 95, 96, 121, 94, 120, 93, 80, 110, 123, 98, 113, 83, 112, 82, 109, 79, 77, 108, 78, 127, 103]
}

#[verifier::opaque]
spec fn exclusion_rank_chunk_2() -> Seq<int> {
    seq![27, 28, 29, 30, 31, 32, 33, 34, 35, 36, 37, 38, 93, 91, 92, 90, 39, 115, 117, 114, 105, 12, 112, 110, 5, 125, 123, 127, 3, 6, 9, 8, 1, 104, 102, 99, 100, 129, 108, 97, 98, 120, 15, 119, 11, 94, 17, 18, 116, 113, 106, 13, 111, 109, 4, 124, 126, 2, 7, 0]
}

/// The stable identities of one part of the registry, in registry order.
#[verifier::opaque]
pub open spec fn exclusion_id_chunk_3() -> Seq<&'static str> {
    seq![
        "excluded.O-IMAGES3.informative-audit",
        "excluded.O-FONTS3.informative-audit",
        "excluded.O-WRITING3.informative-audit",
        "excluded.O-MULTICOL1.informative-audit",
        "excluded.O-FLEXBOX1.informative-audit",
        "excluded.O-UI3.informative-audit",
        "excluded.O-CONTAIN1.informative-audit",
        "excluded.O-TRANSFORMS1.informative-audit",
        "excluded.O-COMPOSITING1.informative-audit",
        "excluded.O-EASING1.informative-audit",
        "excluded.O-COUNTERSTYLES3.informative-audit",
    ]
}

#[verifier::opaque]
spec fn exclusion_order_chunk_3() -> Seq<int> {
    seq![101, 125, 1, 86, 115, 85, 116, 87, 122, 97, 0]
}

#[verifier::opaque]
spec fn exclusion_rank_chunk_3() -> Seq<int> {
    seq![103, 101, 128, 107, 96, 121, 14, 118, 10, 95, 16]
}

/// The stable identity of record `k` of the registry, spelled out.
pub open spec fn exclusion_id_literal(k: int) -> &'static str {
    if k < 60 {
        exclusion_id_chunk_1()[k - 0]
    } else if k < 120 {
        exclusion_id_chunk_2()[k - 60]
    } else {
        exclusion_id_chunk_3()[k - 120]
    }
}

spec fn exclusion_order(k: int) -> int {
    if k < 60 {
        exclusion_order_chunk_1()[k - 0]
    } else if k < 120 {
        exclusion_order_chunk_2()[k - 60]
    } else {
        exclusion_order_chunk_3()[k - 120]
    }
}

spec fn exclusion_rank(k: int) -> int {
    if k < 60 {
        exclusion_rank_chunk_1()[k - 0]
    } else if k < 120 {
        exclusion_rank_chunk_2()[k - 60]
    } else {
        exclusion_rank_chunk_3()[k - 120]
    }
}

proof fn lemma_exclusion_chunk_1_ids()
    ensures
        forall|i: int| 0 <= i < 60 ==> #[trigger] exclusions::exclusions_1()[i].spec_id()@ == exclusion_id_chunk_1()[i]@,
{
    broadcast use {CssExclusionMetadata::lemma_new_parts};

    reveal(exclusions::exclusions_1);
    reveal(exclusion_id_chunk_1);
    assert(exclusions::exclusions_1()[0].spec_id()@ == exclusion_id_chunk_1()[0]@);
    assert(exclusions::exclusions_1()[1].spec_id()@ == exclusion_id_chunk_1()[1]@);
    assert(exclusions::exclusions_1()[2].spec_id()@ == exclusion_id_chunk_1()[2]@);
    assert(exclusions::exclusions_1()[3].spec_id()@ == exclusion_id_chunk_1()[3]@);
    assert(exclusions::exclusions_1()[4].spec_id()@ == exclusion_id_chunk_1()[4]@);
    assert(exclusions::exclusions_1()[5].spec_id()@ == exclusion_id_chunk_1()[5]@);
    assert(exclusions::exclusions_1()[6].spec_id()@ == exclusion_id_chunk_1()[6]@);
    assert(exclusions::exclusions_1()[7].spec_id()@ == exclusion_id_chunk_1()[7]@);
    assert(exclusions::exclusions_1()[8].spec_id()@ == exclusion_id_chunk_1()[8]@);
    assert(exclusions::exclusions_1()[9].spec_id()@ == exclusion_id_chunk_1()[9]@);
    assert(exclusions::exclusions_1()[10].spec_id()@ == exclusion_id_chunk_1()[10]@);
    assert(exclusions::exclusions_1()[11].spec_id()@ == exclusion_id_chunk_1()[11]@);
    assert(exclusions::exclusions_1()[12].spec_id()@ == exclusion_id_chunk_1()[12]@);
    assert(exclusions::exclusions_1()[13].spec_id()@ == exclusion_id_chunk_1()[13]@);
    assert(exclusions::exclusions_1()[14].spec_id()@ == exclusion_id_chunk_1()[14]@);
    assert(exclusions::exclusions_1()[15].spec_id()@ == exclusion_id_chunk_1()[15]@);
    assert(exclusions::exclusions_1()[16].spec_id()@ == exclusion_id_chunk_1()[16]@);
    assert(exclusions::exclusions_1()[17].spec_id()@ == exclusion_id_chunk_1()[17]@);
    assert(exclusions::exclusions_1()[18].spec_id()@ == exclusion_id_chunk_1()[18]@);
    assert(exclusions::exclusions_1()[19].spec_id()@ == exclusion_id_chunk_1()[19]@);
    assert(exclusions::exclusions_1()[20].spec_id()@ == exclusion_id_chunk_1()[20]@);
    assert(exclusions::exclusions_1()[21].spec_id()@ == exclusion_id_chunk_1()[21]@);
    assert(exclusions::exclusions_1()[22].spec_id()@ == exclusion_id_chunk_1()[22]@);
    assert(exclusions::exclusions_1()[23].spec_id()@ == exclusion_id_chunk_1()[23]@);
    assert(exclusions::exclusions_1()[24].spec_id()@ == exclusion_id_chunk_1()[24]@);
    assert(exclusions::exclusions_1()[25].spec_id()@ == exclusion_id_chunk_1()[25]@);
    assert(exclusions::exclusions_1()[26].spec_id()@ == exclusion_id_chunk_1()[26]@);
    assert(exclusions::exclusions_1()[27].spec_id()@ == exclusion_id_chunk_1()[27]@);
    assert(exclusions::exclusions_1()[28].spec_id()@ == exclusion_id_chunk_1()[28]@);
    assert(exclusions::exclusions_1()[29].spec_id()@ == exclusion_id_chunk_1()[29]@);
    assert(exclusions::exclusions_1()[30].spec_id()@ == exclusion_id_chunk_1()[30]@);
    assert(exclusions::exclusions_1()[31].spec_id()@ == exclusion_id_chunk_1()[31]@);
    assert(exclusions::exclusions_1()[32].spec_id()@ == exclusion_id_chunk_1()[32]@);
    assert(exclusions::exclusions_1()[33].spec_id()@ == exclusion_id_chunk_1()[33]@);
    assert(exclusions::exclusions_1()[34].spec_id()@ == exclusion_id_chunk_1()[34]@);
    assert(exclusions::exclusions_1()[35].spec_id()@ == exclusion_id_chunk_1()[35]@);
    assert(exclusions::exclusions_1()[36].spec_id()@ == exclusion_id_chunk_1()[36]@);
    assert(exclusions::exclusions_1()[37].spec_id()@ == exclusion_id_chunk_1()[37]@);
    assert(exclusions::exclusions_1()[38].spec_id()@ == exclusion_id_chunk_1()[38]@);
    assert(exclusions::exclusions_1()[39].spec_id()@ == exclusion_id_chunk_1()[39]@);
    assert(exclusions::exclusions_1()[40].spec_id()@ == exclusion_id_chunk_1()[40]@);
    assert(exclusions::exclusions_1()[41].spec_id()@ == exclusion_id_chunk_1()[41]@);
    assert(exclusions::exclusions_1()[42].spec_id()@ == exclusion_id_chunk_1()[42]@);
    assert(exclusions::exclusions_1()[43].spec_id()@ == exclusion_id_chunk_1()[43]@);
    assert(exclusions::exclusions_1()[44].spec_id()@ == exclusion_id_chunk_1()[44]@);
    assert(exclusions::exclusions_1()[45].spec_id()@ == exclusion_id_chunk_1()[45]@);
    assert(exclusions::exclusions_1()[46].spec_id()@ == exclusion_id_chunk_1()[46]@);
    assert(exclusions::exclusions_1()[47].spec_id()@ == exclusion_id_chunk_1()[47]@);
    assert(exclusions::exclusions_1()[48].spec_id()@ == exclusion_id_chunk_1()[48]@);
    assert(exclusions::exclusions_1()[49].spec_id()@ == exclusion_id_chunk_1()[49]@);
    assert(exclusions::exclusions_1()[50].spec_id()@ == exclusion_id_chunk_1()[50]@);
    assert(exclusions::exclusions_1()[51].spec_id()@ == exclusion_id_chunk_1()[51]@);
    assert(exclusions::exclusions_1()[52].spec_id()@ == exclusion_id_chunk_1()[52]@);
    assert(exclusions::exclusions_1()[53].spec_id()@ == exclusion_id_chunk_1()[53]@);
    assert(exclusions::exclusions_1()[54].spec_id()@ == exclusion_id_chunk_1()[54]@);
    assert(exclusions::exclusions_1()[55].spec_id()@ == exclusion_id_chunk_1()[55]@);
    assert(exclusions::exclusions_1()[56].spec_id()@ == exclusion_id_chunk_1()[56]@);
    assert(exclusions::exclusions_1()[57].spec_id()@ == exclusion_id_chunk_1()[57]@);
    assert(exclusions::exclusions_1()[58].spec_id()@ == exclusion_id_chunk_1()[58]@);
    assert(exclusions::exclusions_1()[59].spec_id()@ == exclusion_id_chunk_1()[59]@);
}

proof fn lemma_exclusion_chunk_2_ids()
    ensures
        forall|i: int| 0 <= i < 60 ==> #[trigger] exclusions::exclusions_2()[i].spec_id()@ == exclusion_id_chunk_2()[i]@,
{
    broadcast use {CssExclusionMetadata::lemma_new_parts};

    reveal(exclusions::exclusions_2);
    reveal(exclusion_id_chunk_2);
    assert(exclusions::exclusions_2()[0].spec_id()@ == exclusion_id_chunk_2()[0]@);
    assert(exclusions::exclusions_2()[1].spec_id()@ == exclusion_id_chunk_2()[1]@);
    assert(exclusions::exclusions_2()[2].spec_id()@ == exclusion_id_chunk_2()[2]@);
    assert(exclusions::exclusions_2()[3].spec_id()@ == exclusion_id_chunk_2()[3]@);
    assert(exclusions::exclusions_2()[4].spec_id()@ == exclusion_id_chunk_2()[4]@);
    assert(exclusions::exclusions_2()[5].spec_id()@ == exclusion_id_chunk_2()[5]@);
    assert(exclusions::exclusions_2()[6].spec_id()@ == exclusion_id_chunk_2()[6]@);
    assert(exclusions::exclusions_2()[7].spec_id()@ == exclusion_id_chunk_2()[7]@);
    assert(exclusions::exclusions_2()[8].spec_id()@ == exclusion_id_chunk_2()[8]@);
    assert(exclusions::exclusions_2()[9].spec_id()@ == exclusion_id_chunk_2()[9]@);
    assert(exclusions::exclusions_2()[10].spec_id()@ == exclusion_id_chunk_2()[10]@);
    assert(exclusions::exclusions_2()[11].spec_id()@ == exclusion_id_chunk_2()[11]@);
    assert(exclusions::exclusions_2()[12].spec_id()@ == exclusion_id_chunk_2()[12]@);
    assert(exclusions::exclusions_2()[13].spec_id()@ == exclusion_id_chunk_2()[13]@);
    assert(exclusions::exclusions_2()[14].spec_id()@ == exclusion_id_chunk_2()[14]@);
    assert(exclusions::exclusions_2()[15].spec_id()@ == exclusion_id_chunk_2()[15]@);
    assert(exclusions::exclusions_2()[16].spec_id()@ == exclusion_id_chunk_2()[16]@);
    assert(exclusions::exclusions_2()[17].spec_id()@ == exclusion_id_chunk_2()[17]@);
    assert(exclusions::exclusions_2()[18].spec_id()@ == exclusion_id_chunk_2()[18]@);
    assert(exclusions::exclusions_2()[19].spec_id()@ == exclusion_id_chunk_2()[19]@);
    assert(exclusions::exclusions_2()[20].spec_id()@ == exclusion_id_chunk_2()[20]@);
    assert(exclusions::exclusions_2()[21].spec_id()@ == exclusion_id_chunk_2()[21]@);
    assert(exclusions::exclusions_2()[22].spec_id()@ == exclusion_id_chunk_2()[22]@);
    assert(exclusions::exclusions_2()[23].spec_id()@ == exclusion_id_chunk_2()[23]@);
    assert(exclusions::exclusions_2()[24].spec_id()@ == exclusion_id_chunk_2()[24]@);
    assert(exclusions::exclusions_2()[25].spec_id()@ == exclusion_id_chunk_2()[25]@);
    assert(exclusions::exclusions_2()[26].spec_id()@ == exclusion_id_chunk_2()[26]@);
    assert(exclusions::exclusions_2()[27].spec_id()@ == exclusion_id_chunk_2()[27]@);
    assert(exclusions::exclusions_2()[28].spec_id()@ == exclusion_id_chunk_2()[28]@);
    assert(exclusions::exclusions_2()[29].spec_id()@ == exclusion_id_chunk_2()[29]@);
    assert(exclusions::exclusions_2()[30].spec_id()@ == exclusion_id_chunk_2()[30]@);
    assert(exclusions::exclusions_2()[31].spec_id()@ == exclusion_id_chunk_2()[31]@);
    assert(exclusions::exclusions_2()[32].spec_id()@ == exclusion_id_chunk_2()[32]@);
    assert(exclusions::exclusions_2()[33].spec_id()@ == exclusion_id_chunk_2()[33]@);
    assert(exclusions::exclusions_2()[34].spec_id()@ == exclusion_id_chunk_2()[34]@);
    assert(exclusions::exclusions_2()[35].spec_id()@ == exclusion_id_chunk_2()[35]@);
    assert(exclusions::exclusions_2()[36].spec_id()@ == exclusion_id_chunk_2()[36]@);
    assert(exclusions::exclusions_2()[37].spec_id()@ == exclusion_id_chunk_2()[37]@);
    assert(exclusions::exclusions_2()[38].spec_id()@ == exclusion_id_chunk_2()[38]@);
    assert(exclusions::exclusions_2()[39].spec_id()@ == exclusion_id_chunk_2()[39]@);
    assert(exclusions::exclusions_2()[40].spec_id()@ == exclusion_id_chunk_2()[40]@);
    assert(exclusions::exclusions_2()[41].spec_id()@ == exclusion_id_chunk_2()[41]@);
    assert(exclusions::exclusions_2()[42].spec_id()@ == exclusion_id_chunk_2()[42]@);
    assert(exclusions::exclusions_2()[43].spec_id()@ == exclusion_id_chunk_2()[43]@);
    assert(exclusions::exclusions_2()[44].spec_id()@ == exclusion_id_chunk_2()[44]@);
    assert(exclusions::exclusions_2()[45].spec_id()@ == exclusion_id_chunk_2()[45]@);
    assert(exclusions::exclusions_2()[46].spec_id()@ == exclusion_id_chunk_2()[46]@);
    assert(exclusions::exclusions_2()[47].spec_id()@ == exclusion_id_chunk_2()[47]@);
    assert(exclusions::exclusions_2()[48].spec_id()@ == exclusion_id_chunk_2()[48]@);
    assert(exclusions::exclusions_2()[49].spec_id()@ == exclusion_id_chunk_2()[49]@);
    assert(exclusions::exclusions_2()[50].spec_id()@ == exclusion_id_chunk_2()[50]@);
    assert(exclusions::exclusions_2()[51].spec_id()@ == exclusion_id_chunk_2()[51]@);
    assert(exclusions::exclusions_2()[52].spec_id()@ == exclusion_id_chunk_2()[52]@);
    assert(exclusions::exclusions_2()[53].spec_id()@ == exclusion_id_chunk_2()[53]@);
    assert(exclusions::exclusions_2()[54].spec_id()@ == exclusion_id_chunk_2()[54]@);
    assert(exclusions::exclusions_2()[55].spec_id()@ == exclusion_id_chunk_2()[55]@);
    assert(exclusions::exclusions_2()[56].spec_id()@ == exclusion_id_chunk_2()[56]@);
    assert(exclusions::exclusions_2()[57].spec_id()@ == exclusion_id_chunk_2()[57]@);
    assert(exclusions::exclusions_2()[58].spec_id()@ == exclusion_id_chunk_2()[58]@);
    assert(exclusions::exclusions_2()[59].spec_id()@ == exclusion_id_chunk_2()[59]@);
}

proof fn lemma_exclusion_chunk_3_ids()
    ensures
        forall|i: int| 0 <= i < 11 ==> #[trigger] exclusions::exclusions_3()[i].spec_id()@ == exclusion_id_chunk_3()[i]@,
{
    broadcast use {CssExclusionMetadata::lemma_new_parts};

    reveal(exclusions::exclusions_3);
    reveal(exclusion_id_chunk_3);
    assert(exclusions::exclusions_3()[0].spec_id()@ == exclusion_id_chunk_3()[0]@);
    assert(exclusions::exclusions_3()[1].spec_id()@ == exclusion_id_chunk_3()[1]@);
    assert(exclusions::exclusions_3()[2].spec_id()@ == exclusion_id_chunk_3()[2]@);
    assert(exclusions::exclusions_3()[3].spec_id()@ == exclusion_id_chunk_3()[3]@);
    assert(exclusions::exclusions_3()[4].spec_id()@ == exclusion_id_chunk_3()[4]@);
    assert(exclusions::exclusions_3()[5].spec_id()@ == exclusion_id_chunk_3()[5]@);
    assert(exclusions::exclusions_3()[6].spec_id()@ == exclusion_id_chunk_3()[6]@);
    assert(exclusions::exclusions_3()[7].spec_id()@ == exclusion_id_chunk_3()[7]@);
    assert(exclusions::exclusions_3()[8].spec_id()@ == exclusion_id_chunk_3()[8]@);
    assert(exclusions::exclusions_3()[9].spec_id()@ == exclusion_id_chunk_3()[9]@);
    assert(exclusions::exclusions_3()[10].spec_id()@ == exclusion_id_chunk_3()[10]@);
}

proof fn lemma_exclusion_rank_1()
    ensures
        forall|m: int| 0 <= m < 60 ==> 0 <= #[trigger] exclusion_rank(m) < 131 && exclusion_order(exclusion_rank(m)) == m,
        forall|k: int| 0 <= k < 60 ==> 0 <= #[trigger] exclusion_order(k) < 131,
{
    reveal(exclusion_rank_chunk_1);
    reveal(exclusion_order_chunk_1);
    reveal(exclusion_order_chunk_2);
    reveal(exclusion_order_chunk_3);
    assert(exclusion_rank(0) == 130 && exclusion_order(130) == 0);
    assert(exclusion_rank(1) == 122 && exclusion_order(122) == 1);
    assert(exclusion_rank(2) == 75 && exclusion_order(75) == 2);
    assert(exclusion_rank(3) == 76 && exclusion_order(76) == 3);
    assert(exclusion_rank(4) == 77 && exclusion_order(77) == 4);
    assert(exclusion_rank(5) == 78 && exclusion_order(78) == 5);
    assert(exclusion_rank(6) == 79 && exclusion_order(79) == 6);
    assert(exclusion_rank(7) == 84 && exclusion_order(84) == 7);
    assert(exclusion_rank(8) == 85 && exclusion_order(85) == 8);
    assert(exclusion_rank(9) == 86 && exclusion_order(86) == 9);
    assert(exclusion_rank(10) == 87 && exclusion_order(87) == 10);
    assert(exclusion_rank(11) == 88 && exclusion_order(88) == 11);
    assert(exclusion_rank(12) == 66 && exclusion_order(66) == 12);
    assert(exclusion_rank(13) == 40 && exclusion_order(40) == 13);
    assert(exclusion_rank(14) == 41 && exclusion_order(41) == 14);
    assert(exclusion_rank(15) == 42 && exclusion_order(42) == 15);
    assert(exclusion_rank(16) == 43 && exclusion_order(43) == 16);
    assert(exclusion_rank(17) == 44 && exclusion_order(44) == 17);
    assert(exclusion_rank(18) == 45 && exclusion_order(45) == 18);
    assert(exclusion_rank(19) == 46 && exclusion_order(46) == 19);
    assert(exclusion_rank(20) == 47 && exclusion_order(47) == 20);
    assert(exclusion_rank(21) == 48 && exclusion_order(48) == 21);
    assert(exclusion_rank(22) == 49 && exclusion_order(49) == 22);
    assert(exclusion_rank(23) == 50 && exclusion_order(50) == 23);
    assert(exclusion_rank(24) == 51 && exclusion_order(51) == 24);
    assert(exclusion_rank(25) == 52 && exclusion_order(52) == 25);
    assert(exclusion_rank(26) == 53 && exclusion_order(53) == 26);
    assert(exclusion_rank(27) == 54 && exclusion_order(54) == 27);
    assert(exclusion_rank(28) == 55 && exclusion_order(55) == 28);
    assert(exclusion_rank(29) == 56 && exclusion_order(56) == 29);
    assert(exclusion_rank(30) == 57 && exclusion_order(57) == 30);
    assert(exclusion_rank(31) == 58 && exclusion_order(58) == 31);
    assert(exclusion_rank(32) == 59 && exclusion_order(59) == 32);
    assert(exclusion_rank(33) == 60 && exclusion_order(60) == 33);
    assert(exclusion_rank(34) == 61 && exclusion_order(61) == 34);
    assert(exclusion_rank(35) == 62 && exclusion_order(62) == 35);
    assert(exclusion_rank(36) == 63 && exclusion_order(63) == 36);
    assert(exclusion_rank(37) == 64 && exclusion_order(64) == 37);
    assert(exclusion_rank(38) == 65 && exclusion_order(65) == 38);
    assert(exclusion_rank(39) == 69 && exclusion_order(69) == 39);
    assert(exclusion_rank(40) == 70 && exclusion_order(70) == 40);
    assert(exclusion_rank(41) == 71 && exclusion_order(71) == 41);
    assert(exclusion_rank(42) == 72 && exclusion_order(72) == 42);
    assert(exclusion_rank(43) == 73 && exclusion_order(73) == 43);
    assert(exclusion_rank(44) == 74 && exclusion_order(74) == 44);
    assert(exclusion_rank(45) == 68 && exclusion_order(68) == 45);
    assert(exclusion_rank(46) == 89 && exclusion_order(89) == 46);
    assert(exclusion_rank(47) == 67 && exclusion_order(67) == 47);
    assert(exclusion_rank(48) == 80 && exclusion_order(80) == 48);
    assert(exclusion_rank(49) == 81 && exclusion_order(81) == 49);
    assert(exclusion_rank(50) == 82 && exclusion_order(82) == 50);
    assert(exclusion_rank(51) == 83 && exclusion_order(83) == 51);
    assert(exclusion_rank(52) == 19 && exclusion_order(19) == 52);
    assert(exclusion_rank(53) == 20 && exclusion_order(20) == 53);
    assert(exclusion_rank(54) == 21 && exclusion_order(21) == 54);
    assert(exclusion_rank(55) == 22 && exclusion_order(22) == 55);
    assert(exclusion_rank(56) == 23 && exclusion_order(23) == 56);
    assert(exclusion_rank(57) == 24 && exclusion_order(24) == 57);
    assert(exclusion_rank(58) == 25 && exclusion_order(25) == 58);
    assert(exclusion_rank(59) == 26 && exclusion_order(26) == 59);
    assert(0 <= exclusion_order(0) < 131);
    assert(0 <= exclusion_order(1) < 131);
    assert(0 <= exclusion_order(2) < 131);
    assert(0 <= exclusion_order(3) < 131);
    assert(0 <= exclusion_order(4) < 131);
    assert(0 <= exclusion_order(5) < 131);
    assert(0 <= exclusion_order(6) < 131);
    assert(0 <= exclusion_order(7) < 131);
    assert(0 <= exclusion_order(8) < 131);
    assert(0 <= exclusion_order(9) < 131);
    assert(0 <= exclusion_order(10) < 131);
    assert(0 <= exclusion_order(11) < 131);
    assert(0 <= exclusion_order(12) < 131);
    assert(0 <= exclusion_order(13) < 131);
    assert(0 <= exclusion_order(14) < 131);
    assert(0 <= exclusion_order(15) < 131);
    assert(0 <= exclusion_order(16) < 131);
    assert(0 <= exclusion_order(17) < 131);
    assert(0 <= exclusion_order(18) < 131);
    assert(0 <= exclusion_order(19) < 131);
    assert(0 <= exclusion_order(20) < 131);
    assert(0 <= exclusion_order(21) < 131);
    assert(0 <= exclusion_order(22) < 131);
    assert(0 <= exclusion_order(23) < 131);
    assert(0 <= exclusion_order(24) < 131);
    assert(0 <= exclusion_order(25) < 131);
    assert(0 <= exclusion_order(26) < 131);
    assert(0 <= exclusion_order(27) < 131);
    assert(0 <= exclusion_order(28) < 131);
    assert(0 <= exclusion_order(29) < 131);
    assert(0 <= exclusion_order(30) < 131);
    assert(0 <= exclusion_order(31) < 131);
    assert(0 <= exclusion_order(32) < 131);
    assert(0 <= exclusion_order(33) < 131);
    assert(0 <= exclusion_order(34) < 131);
    assert(0 <= exclusion_order(35) < 131);
    assert(0 <= exclusion_order(36) < 131);
    assert(0 <= exclusion_order(37) < 131);
    assert(0 <= exclusion_order(38) < 131);
    assert(0 <= exclusion_order(39) < 131);
    assert(0 <= exclusion_order(40) < 131);
    assert(0 <= exclusion_order(41) < 131);
    assert(0 <= exclusion_order(42) < 131);
    assert(0 <= exclusion_order(43) < 131);
    assert(0 <= exclusion_order(44) < 131);
    assert(0 <= exclusion_order(45) < 131);
    assert(0 <= exclusion_order(46) < 131);
    assert(0 <= exclusion_order(47) < 131);
    assert(0 <= exclusion_order(48) < 131);
    assert(0 <= exclusion_order(49) < 131);
    assert(0 <= exclusion_order(50) < 131);
    assert(0 <= exclusion_order(51) < 131);
    assert(0 <= exclusion_order(52) < 131);
    assert(0 <= exclusion_order(53) < 131);
    assert(0 <= exclusion_order(54) < 131);
    assert(0 <= exclusion_order(55) < 131);
    assert(0 <= exclusion_order(56) < 131);
    assert(0 <= exclusion_order(57) < 131);
    assert(0 <= exclusion_order(58) < 131);
    assert(0 <= exclusion_order(59) < 131);
}

proof fn lemma_exclusion_rank_2()
    ensures
        forall|m: int| 60 <= m < 120 ==> 0 <= #[trigger] exclusion_rank(m) < 131 && exclusion_order(exclusion_rank(m)) == m,
        forall|k: int| 60 <= k < 120 ==> 0 <= #[trigger] exclusion_order(k) < 131,
{
    reveal(exclusion_rank_chunk_2);
    reveal(exclusion_order_chunk_1);
    reveal(exclusion_order_chunk_2);
    reveal(exclusion_order_chunk_3);
    assert(exclusion_rank(60) == 27 && exclusion_order(27) == 60);
    assert(exclusion_rank(61) == 28 && exclusion_order(28) == 61);
    assert(exclusion_rank(62) == 29 && exclusion_order(29) == 62);
    assert(exclusion_rank(63) == 30 && exclusion_order(30) == 63);
    assert(exclusion_rank(64) == 31 && exclusion_order(31) == 64);
    assert(exclusion_rank(65) == 32 && exclusion_order(32) == 65);
    assert(exclusion_rank(66) == 33 && exclusion_order(33) == 66);
    assert(exclusion_rank(67) == 34 && exclusion_order(34) == 67);
    assert(exclusion_rank(68) == 35 && exclusion_order(35) == 68);
    assert(exclusion_rank(69) == 36 && exclusion_order(36) == 69);
    assert(exclusion_rank(70) == 37 && exclusion_order(37) == 70);
    assert(exclusion_rank(71) == 38 && exclusion_order(38) == 71);
    assert(exclusion_rank(72) == 93 && exclusion_order(93) == 72);
    assert(exclusion_rank(73) == 91 && exclusion_order(91) == 73);
    assert(exclusion_rank(74) == 92 && exclusion_order(92) == 74);
    assert(exclusion_rank(75) == 90 && exclusion_order(90) == 75);
    assert(exclusion_rank(76) == 39 && exclusion_order(39) == 76);
    assert(exclusion_rank(77) == 115 && exclusion_order(115) == 77);
    assert(exclusion_rank(78) == 117 && exclusion_order(117) == 78);
    assert(exclusion_rank(79) == 114 && exclusion_order(114) == 79);
    assert(exclusion_rank(80) == 105 && exclusion_order(105) == 80);
    assert(exclusion_rank(81) == 12 && exclusion_order(12) == 81);
    assert(exclusion_rank(82) == 112 && exclusion_order(112) == 82);
    assert(exclusion_rank(83) == 110 && exclusion_order(110) == 83);
    assert(exclusion_rank(84) == 5 && exclusion_order(5) == 84);
    assert(exclusion_rank(85) == 125 && exclusion_order(125) == 85);
    assert(exclusion_rank(86) == 123 && exclusion_order(123) == 86);
    assert(exclusion_rank(87) == 127 && exclusion_order(127) == 87);
    assert(exclusion_rank(88) == 3 && exclusion_order(3) == 88);
    assert(exclusion_rank(89) == 6 && exclusion_order(6) == 89);
    assert(exclusion_rank(90) == 9 && exclusion_order(9) == 90);
    assert(exclusion_rank(91) == 8 && exclusion_order(8) == 91);
    assert(exclusion_rank(92) == 1 && exclusion_order(1) == 92);
    assert(exclusion_rank(93) == 104 && exclusion_order(104) == 93);
    assert(exclusion_rank(94) == 102 && exclusion_order(102) == 94);
    assert(exclusion_rank(95) == 99 && exclusion_order(99) == 95);
    assert(exclusion_rank(96) == 100 && exclusion_order(100) == 96);
    assert(exclusion_rank(97) == 129 && exclusion_order(129) == 97);
    assert(exclusion_rank(98) == 108 && exclusion_order(108) == 98);
    assert(exclusion_rank(99) == 97 && exclusion_order(97) == 99);
    assert(exclusion_rank(100) == 98 && exclusion_order(98) == 100);
    assert(exclusion_rank(101) == 120 && exclusion_order(120) == 101);
    assert(exclusion_rank(102) == 15 && exclusion_order(15) == 102);
    assert(exclusion_rank(103) == 119 && exclusion_order(119) == 103);
    assert(exclusion_rank(104) == 11 && exclusion_order(11) == 104);
    assert(exclusion_rank(105) == 94 && exclusion_order(94) == 105);
    assert(exclusion_rank(106) == 17 && exclusion_order(17) == 106);
    assert(exclusion_rank(107) == 18 && exclusion_order(18) == 107);
    assert(exclusion_rank(108) == 116 && exclusion_order(116) == 108);
    assert(exclusion_rank(109) == 113 && exclusion_order(113) == 109);
    assert(exclusion_rank(110) == 106 && exclusion_order(106) == 110);
    assert(exclusion_rank(111) == 13 && exclusion_order(13) == 111);
    assert(exclusion_rank(112) == 111 && exclusion_order(111) == 112);
    assert(exclusion_rank(113) == 109 && exclusion_order(109) == 113);
    assert(exclusion_rank(114) == 4 && exclusion_order(4) == 114);
    assert(exclusion_rank(115) == 124 && exclusion_order(124) == 115);
    assert(exclusion_rank(116) == 126 && exclusion_order(126) == 116);
    assert(exclusion_rank(117) == 2 && exclusion_order(2) == 117);
    assert(exclusion_rank(118) == 7 && exclusion_order(7) == 118);
    assert(exclusion_rank(119) == 0 && exclusion_order(0) == 119);
    assert(0 <= exclusion_order(60) < 131);
    assert(0 <= exclusion_order(61) < 131);
    assert(0 <= exclusion_order(62) < 131);
    assert(0 <= exclusion_order(63) < 131);
    assert(0 <= exclusion_order(64) < 131);
    assert(0 <= exclusion_order(65) < 131);
    assert(0 <= exclusion_order(66) < 131);
    assert(0 <= exclusion_order(67) < 131);
    assert(0 <= exclusion_order(68) < 131);
    assert(0 <= exclusion_order(69) < 131);
    assert(0 <= exclusion_order(70) < 131);
    assert(0 <= exclusion_order(71) < 131);
    assert(0 <= exclusion_order(72) < 131);
    assert(0 <= exclusion_order(73) < 131);
    assert(0 <= exclusion_order(74) < 131);
    assert(0 <= exclusion_order(75) < 131);
    assert(0 <= exclusion_order(76) < 131);
    assert(0 <= exclusion_order(77) < 131);
    assert(0 <= exclusion_order(78) < 131);
    assert(0 <= exclusion_order(79) < 131);
    assert(0 <= exclusion_order(80) < 131);
    assert(0 <= exclusion_order(81) < 131);
    assert(0 <= exclusion_order(82) < 131);
    assert(0 <= exclusion_order(83) < 131);
    assert(0 <= exclusion_order(84) < 131);
    assert(0 <= exclusion_order(85) < 131);
    assert(0 <= exclusion_order(86) < 131);
    assert(0 <= exclusion_order(87) < 131);
    assert(0 <= exclusion_order(88) < 131);
    assert(0 <= exclusion_order(89) < 131);
    assert(0 <= exclusion_order(90) < 131);
    assert(0 <= exclusion_order(91) < 131);
    assert(0 <= exclusion_order(92) < 131);
    assert(0 <= exclusion_order(93) < 131);
    assert(0 <= exclusion_order(94) < 131);
    assert(0 <= exclusion_order(95) < 131);
    assert(0 <= exclusion_order(96) < 131);
    assert(0 <= exclusion_order(97) < 131);
    assert(0 <= exclusion_order(98) < 131);
    assert(0 <= exclusion_order(99) < 131);
    assert(0 <= exclusion_order(100) < 131);
    assert(0 <= exclusion_order(101) < 131);
    assert(0 <= exclusion_order(102) < 131);
    assert(0 <= exclusion_order(103) < 131);
    assert(0 <= exclusion_order(104) < 131);
    assert(0 <= exclusion_order(105) < 131);
    assert(0 <= exclusion_order(106) < 131);
    assert(0 <= exclusion_order(107) < 131);
    assert(0 <= exclusion_order(108) < 131);
    assert(0 <= exclusion_order(109) < 131);
    assert(0 <= exclusion_order(110) < 131);
    assert(0 <= exclusion_order(111) < 131);
    assert(0 <= exclusion_order(112) < 131);
    assert(0 <= exclusion_order(113) < 131);
    assert(0 <= exclusion_order(114) < 131);
    assert(0 <= exclusion_order(115) < 131);
    assert(0 <= exclusion_order(116) < 131);
    assert(0 <= exclusion_order(117) < 131);
    assert(0 <= exclusion_order(118) < 131);
    assert(0 <= exclusion_order(119) < 131);
}

proof fn lemma_exclusion_rank_3()
    ensures
        forall|m: int| 120 <= m < 131 ==> 0 <= #[trigger] exclusion_rank(m) < 131 && exclusion_order(exclusion_rank(m)) == m,
        forall|k: int| 120 <= k < 131 ==> 0 <= #[trigger] exclusion_order(k) < 131,
{
    reveal(exclusion_rank_chunk_3);
    reveal(exclusion_order_chunk_1);
    reveal(exclusion_order_chunk_2);
    reveal(exclusion_order_chunk_3);
    assert(exclusion_rank(120) == 103 && exclusion_order(103) == 120);
    assert(exclusion_rank(121) == 101 && exclusion_order(101) == 121);
    assert(exclusion_rank(122) == 128 && exclusion_order(128) == 122);
    assert(exclusion_rank(123) == 107 && exclusion_order(107) == 123);
    assert(exclusion_rank(124) == 96 && exclusion_order(96) == 124);
    assert(exclusion_rank(125) == 121 && exclusion_order(121) == 125);
    assert(exclusion_rank(126) == 14 && exclusion_order(14) == 126);
    assert(exclusion_rank(127) == 118 && exclusion_order(118) == 127);
    assert(exclusion_rank(128) == 10 && exclusion_order(10) == 128);
    assert(exclusion_rank(129) == 95 && exclusion_order(95) == 129);
    assert(exclusion_rank(130) == 16 && exclusion_order(16) == 130);
    assert(0 <= exclusion_order(120) < 131);
    assert(0 <= exclusion_order(121) < 131);
    assert(0 <= exclusion_order(122) < 131);
    assert(0 <= exclusion_order(123) < 131);
    assert(0 <= exclusion_order(124) < 131);
    assert(0 <= exclusion_order(125) < 131);
    assert(0 <= exclusion_order(126) < 131);
    assert(0 <= exclusion_order(127) < 131);
    assert(0 <= exclusion_order(128) < 131);
    assert(0 <= exclusion_order(129) < 131);
    assert(0 <= exclusion_order(130) < 131);
}

#[verifier::rlimit(100)]
proof fn lemma_exclusion_sorted_1()
    ensures
        forall|k: int| 0 <= k < 60 ==> sorts_before(
            exclusion_id_literal(#[trigger] exclusion_order(k))@,
            exclusion_id_literal(exclusion_order(k + 1))@,
        ),
{
    reveal(exclusion_order_chunk_1);
    reveal(exclusion_order_chunk_2);
    reveal(exclusion_id_chunk_1);
    reveal(exclusion_id_chunk_2);
    reveal(exclusion_id_chunk_3);
    assert(exclusion_order(0) == 119 && exclusion_id_literal(119) == "excluded.O-BACKGROUNDS3.informative-audit");
    reveal_strlit("excluded.O-BACKGROUNDS3.informative-audit");
    reveal_strlit("excluded.O-BACKGROUNDS3.painting");
    assert("excluded.O-BACKGROUNDS3.informative-audit"@.take(24) =~= "excluded.O-BACKGROUNDS3.painting"@.take(24));
    assert(sorts_before_at("excluded.O-BACKGROUNDS3.informative-audit"@, "excluded.O-BACKGROUNDS3.painting"@, 24));
    assert(exclusion_order(1) == 92 && exclusion_id_literal(92) == "excluded.O-BACKGROUNDS3.painting");
    reveal_strlit("excluded.O-BACKGROUNDS3.painting");
    reveal_strlit("excluded.O-BOX3.informative-audit");
    assert("excluded.O-BACKGROUNDS3.painting"@.take(12) =~= "excluded.O-BOX3.informative-audit"@.take(12));
    assert(sorts_before_at("excluded.O-BACKGROUNDS3.painting"@, "excluded.O-BOX3.informative-audit"@, 12));
    assert(exclusion_order(2) == 117 && exclusion_id_literal(117) == "excluded.O-BOX3.informative-audit");
    reveal_strlit("excluded.O-BOX3.informative-audit");
    reveal_strlit("excluded.O-BOX3.layout");
    assert("excluded.O-BOX3.informative-audit"@.take(16) =~= "excluded.O-BOX3.layout"@.take(16));
    assert(sorts_before_at("excluded.O-BOX3.informative-audit"@, "excluded.O-BOX3.layout"@, 16));
    assert(exclusion_order(3) == 88 && exclusion_id_literal(88) == "excluded.O-BOX3.layout");
    reveal_strlit("excluded.O-BOX3.layout");
    reveal_strlit("excluded.O-CASCADE4.informative-audit");
    assert("excluded.O-BOX3.layout"@.take(11) =~= "excluded.O-CASCADE4.informative-audit"@.take(11));
    assert(sorts_before_at("excluded.O-BOX3.layout"@, "excluded.O-CASCADE4.informative-audit"@, 11));
    assert(exclusion_order(4) == 114 && exclusion_id_literal(114) == "excluded.O-CASCADE4.informative-audit");
    reveal_strlit("excluded.O-CASCADE4.informative-audit");
    reveal_strlit("excluded.O-CASCADE4.processing");
    assert("excluded.O-CASCADE4.informative-audit"@.take(20) =~= "excluded.O-CASCADE4.processing"@.take(20));
    assert(sorts_before_at("excluded.O-CASCADE4.informative-audit"@, "excluded.O-CASCADE4.processing"@, 20));
    assert(exclusion_order(5) == 84 && exclusion_id_literal(84) == "excluded.O-CASCADE4.processing");
    reveal_strlit("excluded.O-CASCADE4.processing");
    reveal_strlit("excluded.O-COLOR4.color5-syntax");
    assert("excluded.O-CASCADE4.processing"@.take(12) =~= "excluded.O-COLOR4.color5-syntax"@.take(12));
    assert(sorts_before_at("excluded.O-CASCADE4.processing"@, "excluded.O-COLOR4.color5-syntax"@, 12));
    assert(exclusion_order(6) == 89 && exclusion_id_literal(89) == "excluded.O-COLOR4.color5-syntax");
    reveal_strlit("excluded.O-COLOR4.color5-syntax");
    reveal_strlit("excluded.O-COLOR4.informative-audit");
    assert("excluded.O-COLOR4.color5-syntax"@.take(18) =~= "excluded.O-COLOR4.informative-audit"@.take(18));
    assert(sorts_before_at("excluded.O-COLOR4.color5-syntax"@, "excluded.O-COLOR4.informative-audit"@, 18));
    assert(exclusion_order(7) == 118 && exclusion_id_literal(118) == "excluded.O-COLOR4.informative-audit");
    reveal_strlit("excluded.O-COLOR4.informative-audit");
    reveal_strlit("excluded.O-COLOR4.processing");
    assert("excluded.O-COLOR4.informative-audit"@.take(18) =~= "excluded.O-COLOR4.processing"@.take(18));
    assert(sorts_before_at("excluded.O-COLOR4.informative-audit"@, "excluded.O-COLOR4.processing"@, 18));
    assert(exclusion_order(8) == 91 && exclusion_id_literal(91) == "excluded.O-COLOR4.processing");
    reveal_strlit("excluded.O-COLOR4.processing");
    reveal_strlit("excluded.O-COLOR4.quirky-color");
    assert("excluded.O-COLOR4.processing"@.take(18) =~= "excluded.O-COLOR4.quirky-color"@.take(18));
    assert(sorts_before_at("excluded.O-COLOR4.processing"@, "excluded.O-COLOR4.quirky-color"@, 18));
    assert(exclusion_order(9) == 90 && exclusion_id_literal(90) == "excluded.O-COLOR4.quirky-color");
    reveal_strlit("excluded.O-COLOR4.quirky-color");
    reveal_strlit("excluded.O-COMPOSITING1.informative-audit");
    assert("excluded.O-COLOR4.quirky-color"@.take(13) =~= "excluded.O-COMPOSITING1.informative-audit"@.take(13));
    assert(sorts_before_at("excluded.O-COLOR4.quirky-color"@, "excluded.O-COMPOSITING1.informative-audit"@, 13));
    assert(exclusion_order(10) == 128 && exclusion_id_literal(128) == "excluded.O-COMPOSITING1.informative-audit");
    reveal_strlit("excluded.O-COMPOSITING1.informative-audit");
    reveal_strlit("excluded.O-COMPOSITING1.processing");
    assert("excluded.O-COMPOSITING1.informative-audit"@.take(24) =~= "excluded.O-COMPOSITING1.processing"@.take(24));
    assert(sorts_before_at("excluded.O-COMPOSITING1.informative-audit"@, "excluded.O-COMPOSITING1.processing"@, 24));
    assert(exclusion_order(11) == 104 && exclusion_id_literal(104) == "excluded.O-COMPOSITING1.processing");
    reveal_strlit("excluded.O-COMPOSITING1.processing");
    reveal_strlit("excluded.O-CONDITIONAL3.evaluation-api");
    assert("excluded.O-COMPOSITING1.processing"@.take(13) =~= "excluded.O-CONDITIONAL3.evaluation-api"@.take(13));
    assert(sorts_before_at("excluded.O-COMPOSITING1.processing"@, "excluded.O-CONDITIONAL3.evaluation-api"@, 13));
    assert(exclusion_order(12) == 81 && exclusion_id_literal(81) == "excluded.O-CONDITIONAL3.evaluation-api");
    reveal_strlit("excluded.O-CONDITIONAL3.evaluation-api");
    reveal_strlit("excluded.O-CONDITIONAL3.informative-audit");
    assert("excluded.O-CONDITIONAL3.evaluation-api"@.take(24) =~= "excluded.O-CONDITIONAL3.informative-audit"@.take(24));
    assert(sorts_before_at("excluded.O-CONDITIONAL3.evaluation-api"@, "excluded.O-CONDITIONAL3.informative-audit"@, 24));
    assert(exclusion_order(13) == 111 && exclusion_id_literal(111) == "excluded.O-CONDITIONAL3.informative-audit");
    reveal_strlit("excluded.O-CONDITIONAL3.informative-audit");
    reveal_strlit("excluded.O-CONTAIN1.informative-audit");
    assert("excluded.O-CONDITIONAL3.informative-audit"@.take(14) =~= "excluded.O-CONTAIN1.informative-audit"@.take(14));
    assert(sorts_before_at("excluded.O-CONDITIONAL3.informative-audit"@, "excluded.O-CONTAIN1.informative-audit"@, 14));
    assert(exclusion_order(14) == 126 && exclusion_id_literal(126) == "excluded.O-CONTAIN1.informative-audit");
    reveal_strlit("excluded.O-CONTAIN1.informative-audit");
    reveal_strlit("excluded.O-CONTAIN1.semantics");
    assert("excluded.O-CONTAIN1.informative-audit"@.take(20) =~= "excluded.O-CONTAIN1.semantics"@.take(20));
    assert(sorts_before_at("excluded.O-CONTAIN1.informative-audit"@, "excluded.O-CONTAIN1.semantics"@, 20));
    assert(exclusion_order(15) == 102 && exclusion_id_literal(102) == "excluded.O-CONTAIN1.semantics");
    reveal_strlit("excluded.O-CONTAIN1.semantics");
    reveal_strlit("excluded.O-COUNTERSTYLES3.informative-audit");
    assert("excluded.O-CONTAIN1.semantics"@.take(13) =~= "excluded.O-COUNTERSTYLES3.informative-audit"@.take(13));
    assert(sorts_before_at("excluded.O-CONTAIN1.semantics"@, "excluded.O-COUNTERSTYLES3.informative-audit"@, 13));
    assert(exclusion_order(16) == 130 && exclusion_id_literal(130) == "excluded.O-COUNTERSTYLES3.informative-audit");
    reveal_strlit("excluded.O-COUNTERSTYLES3.informative-audit");
    reveal_strlit("excluded.O-COUNTERSTYLES3.processing");
    assert("excluded.O-COUNTERSTYLES3.informative-audit"@.take(26) =~= "excluded.O-COUNTERSTYLES3.processing"@.take(26));
    assert(sorts_before_at("excluded.O-COUNTERSTYLES3.informative-audit"@, "excluded.O-COUNTERSTYLES3.processing"@, 26));
    assert(exclusion_order(17) == 106 && exclusion_id_literal(106) == "excluded.O-COUNTERSTYLES3.processing");
    reveal_strlit("excluded.O-COUNTERSTYLES3.processing");
    reveal_strlit("excluded.O-CSS2.informative-audit");
    assert("excluded.O-COUNTERSTYLES3.processing"@.take(12) =~= "excluded.O-CSS2.informative-audit"@.take(12));
    assert(sorts_before_at("excluded.O-COUNTERSTYLES3.processing"@, "excluded.O-CSS2.informative-audit"@, 12));
    assert(exclusion_order(18) == 107 && exclusion_id_literal(107) == "excluded.O-CSS2.informative-audit");
    reveal_strlit("excluded.O-CSS2.informative-audit");
    reveal_strlit("excluded.O-CSS2.informative-property.azimuth");
    assert("excluded.O-CSS2.informative-audit"@.take(28) =~= "excluded.O-CSS2.informative-property.azimuth"@.take(28));
    assert(sorts_before_at("excluded.O-CSS2.informative-audit"@, "excluded.O-CSS2.informative-property.azimuth"@, 28));
    assert(exclusion_order(19) == 52 && exclusion_id_literal(52) == "excluded.O-CSS2.informative-property.azimuth");
    reveal_strlit("excluded.O-CSS2.informative-property.azimuth");
    reveal_strlit("excluded.O-CSS2.informative-property.cue");
    assert("excluded.O-CSS2.informative-property.azimuth"@.take(37) =~= "excluded.O-CSS2.informative-property.cue"@.take(37));
    assert(sorts_before_at("excluded.O-CSS2.informative-property.azimuth"@, "excluded.O-CSS2.informative-property.cue"@, 37));
    assert(exclusion_order(20) == 53 && exclusion_id_literal(53) == "excluded.O-CSS2.informative-property.cue");
    reveal_strlit("excluded.O-CSS2.informative-property.cue");
    reveal_strlit("excluded.O-CSS2.informative-property.cue-after");
    assert("excluded.O-CSS2.informative-property.cue"@.take(40) =~= "excluded.O-CSS2.informative-property.cue-after"@.take(40));
    assert(sorts_before_at("excluded.O-CSS2.informative-property.cue"@, "excluded.O-CSS2.informative-property.cue-after"@, 40));
    assert(exclusion_order(21) == 54 && exclusion_id_literal(54) == "excluded.O-CSS2.informative-property.cue-after");
    reveal_strlit("excluded.O-CSS2.informative-property.cue-after");
    reveal_strlit("excluded.O-CSS2.informative-property.cue-before");
    assert("excluded.O-CSS2.informative-property.cue-after"@.take(41) =~= "excluded.O-CSS2.informative-property.cue-before"@.take(41));
    assert(sorts_before_at("excluded.O-CSS2.informative-property.cue-after"@, "excluded.O-CSS2.informative-property.cue-before"@, 41));
    assert(exclusion_order(22) == 55 && exclusion_id_literal(55) == "excluded.O-CSS2.informative-property.cue-before");
    reveal_strlit("excluded.O-CSS2.informative-property.cue-before");
    reveal_strlit("excluded.O-CSS2.informative-property.elevation");
    assert("excluded.O-CSS2.informative-property.cue-before"@.take(37) =~= "excluded.O-CSS2.informative-property.elevation"@.take(37));
    assert(sorts_before_at("excluded.O-CSS2.informative-property.cue-before"@, "excluded.O-CSS2.informative-property.elevation"@, 37));
    assert(exclusion_order(23) == 56 && exclusion_id_literal(56) == "excluded.O-CSS2.informative-property.elevation");
    reveal_strlit("excluded.O-CSS2.informative-property.elevation");
    reveal_strlit("excluded.O-CSS2.informative-property.pause");
    assert("excluded.O-CSS2.informative-property.elevation"@.take(37) =~= "excluded.O-CSS2.informative-property.pause"@.take(37));
    assert(sorts_before_at("excluded.O-CSS2.informative-property.elevation"@, "excluded.O-CSS2.informative-property.pause"@, 37));
    assert(exclusion_order(24) == 57 && exclusion_id_literal(57) == "excluded.O-CSS2.informative-property.pause");
    reveal_strlit("excluded.O-CSS2.informative-property.pause");
    reveal_strlit("excluded.O-CSS2.informative-property.pause-after");
    assert("excluded.O-CSS2.informative-property.pause"@.take(42) =~= "excluded.O-CSS2.informative-property.pause-after"@.take(42));
    assert(sorts_before_at("excluded.O-CSS2.informative-property.pause"@, "excluded.O-CSS2.informative-property.pause-after"@, 42));
    assert(exclusion_order(25) == 58 && exclusion_id_literal(58) == "excluded.O-CSS2.informative-property.pause-after");
    reveal_strlit("excluded.O-CSS2.informative-property.pause-after");
    reveal_strlit("excluded.O-CSS2.informative-property.pause-before");
    assert("excluded.O-CSS2.informative-property.pause-after"@.take(43) =~= "excluded.O-CSS2.informative-property.pause-before"@.take(43));
    assert(sorts_before_at("excluded.O-CSS2.informative-property.pause-after"@, "excluded.O-CSS2.informative-property.pause-before"@, 43));
    assert(exclusion_order(26) == 59 && exclusion_id_literal(59) == "excluded.O-CSS2.informative-property.pause-before");
    reveal_strlit("excluded.O-CSS2.informative-property.pause-before");
    reveal_strlit("excluded.O-CSS2.informative-property.pitch");
    assert("excluded.O-CSS2.informative-property.pause-before"@.take(38) =~= "excluded.O-CSS2.informative-property.pitch"@.take(38));
    assert(sorts_before_at("excluded.O-CSS2.informative-property.pause-before"@, "excluded.O-CSS2.informative-property.pitch"@, 38));
    assert(exclusion_order(27) == 60 && exclusion_id_literal(60) == "excluded.O-CSS2.informative-property.pitch");
    reveal_strlit("excluded.O-CSS2.informative-property.pitch");
    reveal_strlit("excluded.O-CSS2.informative-property.pitch-range");
    assert("excluded.O-CSS2.informative-property.pitch"@.take(42) =~= "excluded.O-CSS2.informative-property.pitch-range"@.take(42));
    assert(sorts_before_at("excluded.O-CSS2.informative-property.pitch"@, "excluded.O-CSS2.informative-property.pitch-range"@, 42));
    assert(exclusion_order(28) == 61 && exclusion_id_literal(61) == "excluded.O-CSS2.informative-property.pitch-range");
    reveal_strlit("excluded.O-CSS2.informative-property.pitch-range");
    reveal_strlit("excluded.O-CSS2.informative-property.play-during");
    assert("excluded.O-CSS2.informative-property.pitch-range"@.take(38) =~= "excluded.O-CSS2.informative-property.play-during"@.take(38));
    assert(sorts_before_at("excluded.O-CSS2.informative-property.pitch-range"@, "excluded.O-CSS2.informative-property.play-during"@, 38));
    assert(exclusion_order(29) == 62 && exclusion_id_literal(62) == "excluded.O-CSS2.informative-property.play-during");
    reveal_strlit("excluded.O-CSS2.informative-property.play-during");
    reveal_strlit("excluded.O-CSS2.informative-property.richness");
    assert("excluded.O-CSS2.informative-property.play-during"@.take(37) =~= "excluded.O-CSS2.informative-property.richness"@.take(37));
    assert(sorts_before_at("excluded.O-CSS2.informative-property.play-during"@, "excluded.O-CSS2.informative-property.richness"@, 37));
    assert(exclusion_order(30) == 63 && exclusion_id_literal(63) == "excluded.O-CSS2.informative-property.richness");
    reveal_strlit("excluded.O-CSS2.informative-property.richness");
    reveal_strlit("excluded.O-CSS2.informative-property.speak");
    assert("excluded.O-CSS2.informative-property.richness"@.take(37) =~= "excluded.O-CSS2.informative-property.speak"@.take(37));
    assert(sorts_before_at("excluded.O-CSS2.informative-property.richness"@, "excluded.O-CSS2.informative-property.speak"@, 37));
    assert(exclusion_order(31) == 64 && exclusion_id_literal(64) == "excluded.O-CSS2.informative-property.speak");
    reveal_strlit("excluded.O-CSS2.informative-property.speak");
    reveal_strlit("excluded.O-CSS2.informative-property.speak-header");
    assert("excluded.O-CSS2.informative-property.speak"@.take(42) =~= "excluded.O-CSS2.informative-property.speak-header"@.take(42));
    assert(sorts_before_at("excluded.O-CSS2.informative-property.speak"@, "excluded.O-CSS2.informative-property.speak-header"@, 42));
    assert(exclusion_order(32) == 65 && exclusion_id_literal(65) == "excluded.O-CSS2.informative-property.speak-header");
    reveal_strlit("excluded.O-CSS2.informative-property.speak-header");
    reveal_strlit("excluded.O-CSS2.informative-property.speak-numeral");
    assert("excluded.O-CSS2.informative-property.speak-header"@.take(43) =~= "excluded.O-CSS2.informative-property.speak-numeral"@.take(43));
    assert(sorts_before_at("excluded.O-CSS2.informative-property.speak-header"@, "excluded.O-CSS2.informative-property.speak-numeral"@, 43));
    assert(exclusion_order(33) == 66 && exclusion_id_literal(66) == "excluded.O-CSS2.informative-property.speak-numeral");
    reveal_strlit("excluded.O-CSS2.informative-property.speak-numeral");
    reveal_strlit("excluded.O-CSS2.informative-property.speak-punctuation");
    assert("excluded.O-CSS2.informative-property.speak-numeral"@.take(43) =~= "excluded.O-CSS2.informative-property.speak-punctuation"@.take(43));
    assert(sorts_before_at("excluded.O-CSS2.informative-property.speak-numeral"@, "excluded.O-CSS2.informative-property.speak-punctuation"@, 43));
    assert(exclusion_order(34) == 67 && exclusion_id_literal(67) == "excluded.O-CSS2.informative-property.speak-punctuation");
    reveal_strlit("excluded.O-CSS2.informative-property.speak-punctuation");
    reveal_strlit("excluded.O-CSS2.informative-property.speech-rate");
    assert("excluded.O-CSS2.informative-property.speak-punctuation"@.take(40) =~= "excluded.O-CSS2.informative-property.speech-rate"@.take(40));
    assert(sorts_before_at("excluded.O-CSS2.informative-property.speak-punctuation"@, "excluded.O-CSS2.informative-property.speech-rate"@, 40));
    assert(exclusion_order(35) == 68 && exclusion_id_literal(68) == "excluded.O-CSS2.informative-property.speech-rate");
    reveal_strlit("excluded.O-CSS2.informative-property.speech-rate");
    reveal_strlit("excluded.O-CSS2.informative-property.stress");
    assert("excluded.O-CSS2.informative-property.speech-rate"@.take(38) =~= "excluded.O-CSS2.informative-property.stress"@.take(38));
    assert(sorts_before_at("excluded.O-CSS2.informative-property.speech-rate"@, "excluded.O-CSS2.informative-property.stress"@, 38));
    assert(exclusion_order(36) == 69 && exclusion_id_literal(69) == "excluded.O-CSS2.informative-property.stress");
    reveal_strlit("excluded.O-CSS2.informative-property.stress");
    reveal_strlit("excluded.O-CSS2.informative-property.voice-family");
    assert("excluded.O-CSS2.informative-property.stress"@.take(37) =~= "excluded.O-CSS2.informative-property.voice-family"@.take(37));
    assert(sorts_before_at("excluded.O-CSS2.informative-property.stress"@, "excluded.O-CSS2.informative-property.voice-family"@, 37));
    assert(exclusion_order(37) == 70 && exclusion_id_literal(70) == "excluded.O-CSS2.informative-property.voice-family");
    reveal_strlit("excluded.O-CSS2.informative-property.voice-family");
    reveal_strlit("excluded.O-CSS2.informative-property.volume");
    assert("excluded.O-CSS2.informative-property.voice-family"@.take(39) =~= "excluded.O-CSS2.informative-property.volume"@.take(39));
    assert(sorts_before_at("excluded.O-CSS2.informative-property.voice-family"@, "excluded.O-CSS2.informative-property.volume"@, 39));
    assert(exclusion_order(38) == 71 && exclusion_id_literal(71) == "excluded.O-CSS2.informative-property.volume");
    reveal_strlit("excluded.O-CSS2.informative-property.volume");
    reveal_strlit("excluded.O-CSS2.non-authored-semantics");
    assert("excluded.O-CSS2.informative-property.volume"@.take(16) =~= "excluded.O-CSS2.non-authored-semantics"@.take(16));
    assert(sorts_before_at("excluded.O-CSS2.informative-property.volume"@, "excluded.O-CSS2.non-authored-semantics"@, 16));
    assert(exclusion_order(39) == 76 && exclusion_id_literal(76) == "excluded.O-CSS2.non-authored-semantics");
    reveal_strlit("excluded.O-CSS2.non-authored-semantics");
    reveal_strlit("excluded.O-CSS2.property.background");
    assert("excluded.O-CSS2.non-authored-semantics"@.take(16) =~= "excluded.O-CSS2.property.background"@.take(16));
    assert(sorts_before_at("excluded.O-CSS2.non-authored-semantics"@, "excluded.O-CSS2.property.background"@, 16));
    assert(exclusion_order(40) == 13 && exclusion_id_literal(13) == "excluded.O-CSS2.property.background");
    reveal_strlit("excluded.O-CSS2.property.background");
    reveal_strlit("excluded.O-CSS2.property.background-attachment");
    assert("excluded.O-CSS2.property.background"@.take(35) =~= "excluded.O-CSS2.property.background-attachment"@.take(35));
    assert(sorts_before_at("excluded.O-CSS2.property.background"@, "excluded.O-CSS2.property.background-attachment"@, 35));
    assert(exclusion_order(41) == 14 && exclusion_id_literal(14) == "excluded.O-CSS2.property.background-attachment");
    reveal_strlit("excluded.O-CSS2.property.background-attachment");
    reveal_strlit("excluded.O-CSS2.property.background-color");
    assert("excluded.O-CSS2.property.background-attachment"@.take(36) =~= "excluded.O-CSS2.property.background-color"@.take(36));
    assert(sorts_before_at("excluded.O-CSS2.property.background-attachment"@, "excluded.O-CSS2.property.background-color"@, 36));
    assert(exclusion_order(42) == 15 && exclusion_id_literal(15) == "excluded.O-CSS2.property.background-color");
    reveal_strlit("excluded.O-CSS2.property.background-color");
    reveal_strlit("excluded.O-CSS2.property.background-image");
    assert("excluded.O-CSS2.property.background-color"@.take(36) =~= "excluded.O-CSS2.property.background-image"@.take(36));
    assert(sorts_before_at("excluded.O-CSS2.property.background-color"@, "excluded.O-CSS2.property.background-image"@, 36));
    assert(exclusion_order(43) == 16 && exclusion_id_literal(16) == "excluded.O-CSS2.property.background-image");
    reveal_strlit("excluded.O-CSS2.property.background-image");
    reveal_strlit("excluded.O-CSS2.property.background-position");
    assert("excluded.O-CSS2.property.background-image"@.take(36) =~= "excluded.O-CSS2.property.background-position"@.take(36));
    assert(sorts_before_at("excluded.O-CSS2.property.background-image"@, "excluded.O-CSS2.property.background-position"@, 36));
    assert(exclusion_order(44) == 17 && exclusion_id_literal(17) == "excluded.O-CSS2.property.background-position");
    reveal_strlit("excluded.O-CSS2.property.background-position");
    reveal_strlit("excluded.O-CSS2.property.background-repeat");
    assert("excluded.O-CSS2.property.background-position"@.take(36) =~= "excluded.O-CSS2.property.background-repeat"@.take(36));
    assert(sorts_before_at("excluded.O-CSS2.property.background-position"@, "excluded.O-CSS2.property.background-repeat"@, 36));
    assert(exclusion_order(45) == 18 && exclusion_id_literal(18) == "excluded.O-CSS2.property.background-repeat");
    reveal_strlit("excluded.O-CSS2.property.background-repeat");
    reveal_strlit("excluded.O-CSS2.property.border");
    assert("excluded.O-CSS2.property.background-repeat"@.take(26) =~= "excluded.O-CSS2.property.border"@.take(26));
    assert(sorts_before_at("excluded.O-CSS2.property.background-repeat"@, "excluded.O-CSS2.property.border"@, 26));
    assert(exclusion_order(46) == 19 && exclusion_id_literal(19) == "excluded.O-CSS2.property.border");
    reveal_strlit("excluded.O-CSS2.property.border");
    reveal_strlit("excluded.O-CSS2.property.border-bottom");
    assert("excluded.O-CSS2.property.border"@.take(31) =~= "excluded.O-CSS2.property.border-bottom"@.take(31));
    assert(sorts_before_at("excluded.O-CSS2.property.border"@, "excluded.O-CSS2.property.border-bottom"@, 31));
    assert(exclusion_order(47) == 20 && exclusion_id_literal(20) == "excluded.O-CSS2.property.border-bottom");
    reveal_strlit("excluded.O-CSS2.property.border-bottom");
    reveal_strlit("excluded.O-CSS2.property.border-bottom-color");
    assert("excluded.O-CSS2.property.border-bottom"@.take(38) =~= "excluded.O-CSS2.property.border-bottom-color"@.take(38));
    assert(sorts_before_at("excluded.O-CSS2.property.border-bottom"@, "excluded.O-CSS2.property.border-bottom-color"@, 38));
    assert(exclusion_order(48) == 21 && exclusion_id_literal(21) == "excluded.O-CSS2.property.border-bottom-color");
    reveal_strlit("excluded.O-CSS2.property.border-bottom-color");
    reveal_strlit("excluded.O-CSS2.property.border-bottom-style");
    assert("excluded.O-CSS2.property.border-bottom-color"@.take(39) =~= "excluded.O-CSS2.property.border-bottom-style"@.take(39));
    assert(sorts_before_at("excluded.O-CSS2.property.border-bottom-color"@, "excluded.O-CSS2.property.border-bottom-style"@, 39));
    assert(exclusion_order(49) == 22 && exclusion_id_literal(22) == "excluded.O-CSS2.property.border-bottom-style");
    reveal_strlit("excluded.O-CSS2.property.border-bottom-style");
    reveal_strlit("excluded.O-CSS2.property.border-bottom-width");
    assert("excluded.O-CSS2.property.border-bottom-style"@.take(39) =~= "excluded.O-CSS2.property.border-bottom-width"@.take(39));
    assert(sorts_before_at("excluded.O-CSS2.property.border-bottom-style"@, "excluded.O-CSS2.property.border-bottom-width"@, 39));
    assert(exclusion_order(50) == 23 && exclusion_id_literal(23) == "excluded.O-CSS2.property.border-bottom-width");
    reveal_strlit("excluded.O-CSS2.property.border-bottom-width");
    reveal_strlit("excluded.O-CSS2.property.border-color");
    assert("excluded.O-CSS2.property.border-bottom-width"@.take(32) =~= "excluded.O-CSS2.property.border-color"@.take(32));
    assert(sorts_before_at("excluded.O-CSS2.property.border-bottom-width"@, "excluded.O-CSS2.property.border-color"@, 32));
    assert(exclusion_order(51) == 24 && exclusion_id_literal(24) == "excluded.O-CSS2.property.border-color");
    reveal_strlit("excluded.O-CSS2.property.border-color");
    reveal_strlit("excluded.O-CSS2.property.border-left");
    assert("excluded.O-CSS2.property.border-color"@.take(32) =~= "excluded.O-CSS2.property.border-left"@.take(32));
    assert(sorts_before_at("excluded.O-CSS2.property.border-color"@, "excluded.O-CSS2.property.border-left"@, 32));
    assert(exclusion_order(52) == 25 && exclusion_id_literal(25) == "excluded.O-CSS2.property.border-left");
    reveal_strlit("excluded.O-CSS2.property.border-left");
    reveal_strlit("excluded.O-CSS2.property.border-left-color");
    assert("excluded.O-CSS2.property.border-left"@.take(36) =~= "excluded.O-CSS2.property.border-left-color"@.take(36));
    assert(sorts_before_at("excluded.O-CSS2.property.border-left"@, "excluded.O-CSS2.property.border-left-color"@, 36));
    assert(exclusion_order(53) == 26 && exclusion_id_literal(26) == "excluded.O-CSS2.property.border-left-color");
    reveal_strlit("excluded.O-CSS2.property.border-left-color");
    reveal_strlit("excluded.O-CSS2.property.border-left-style");
    assert("excluded.O-CSS2.property.border-left-color"@.take(37) =~= "excluded.O-CSS2.property.border-left-style"@.take(37));
    assert(sorts_before_at("excluded.O-CSS2.property.border-left-color"@, "excluded.O-CSS2.property.border-left-style"@, 37));
    assert(exclusion_order(54) == 27 && exclusion_id_literal(27) == "excluded.O-CSS2.property.border-left-style");
    reveal_strlit("excluded.O-CSS2.property.border-left-style");
    reveal_strlit("excluded.O-CSS2.property.border-left-width");
    assert("excluded.O-CSS2.property.border-left-style"@.take(37) =~= "excluded.O-CSS2.property.border-left-width"@.take(37));
    assert(sorts_before_at("excluded.O-CSS2.property.border-left-style"@, "excluded.O-CSS2.property.border-left-width"@, 37));
    assert(exclusion_order(55) == 28 && exclusion_id_literal(28) == "excluded.O-CSS2.property.border-left-width");
    reveal_strlit("excluded.O-CSS2.property.border-left-width");
    reveal_strlit("excluded.O-CSS2.property.border-right");
    assert("excluded.O-CSS2.property.border-left-width"@.take(32) =~= "excluded.O-CSS2.property.border-right"@.take(32));
    assert(sorts_before_at("excluded.O-CSS2.property.border-left-width"@, "excluded.O-CSS2.property.border-right"@, 32));
    assert(exclusion_order(56) == 29 && exclusion_id_literal(29) == "excluded.O-CSS2.property.border-right");
    reveal_strlit("excluded.O-CSS2.property.border-right");
    reveal_strlit("excluded.O-CSS2.property.border-right-color");
    assert("excluded.O-CSS2.property.border-right"@.take(37) =~= "excluded.O-CSS2.property.border-right-color"@.take(37));
    assert(sorts_before_at("excluded.O-CSS2.property.border-right"@, "excluded.O-CSS2.property.border-right-color"@, 37));
    assert(exclusion_order(57) == 30 && exclusion_id_literal(30) == "excluded.O-CSS2.property.border-right-color");
    reveal_strlit("excluded.O-CSS2.property.border-right-color");
    reveal_strlit("excluded.O-CSS2.property.border-right-style");
    assert("excluded.O-CSS2.property.border-right-color"@.take(38) =~= "excluded.O-CSS2.property.border-right-style"@.take(38));
    assert(sorts_before_at("excluded.O-CSS2.property.border-right-color"@, "excluded.O-CSS2.property.border-right-style"@, 38));
    assert(exclusion_order(58) == 31 && exclusion_id_literal(31) == "excluded.O-CSS2.property.border-right-style");
    reveal_strlit("excluded.O-CSS2.property.border-right-style");
    reveal_strlit("excluded.O-CSS2.property.border-right-width");
    assert("excluded.O-CSS2.property.border-right-style"@.take(38) =~= "excluded.O-CSS2.property.border-right-width"@.take(38));
    assert(sorts_before_at("excluded.O-CSS2.property.border-right-style"@, "excluded.O-CSS2.property.border-right-width"@, 38));
    assert(exclusion_order(59) == 32 && exclusion_id_literal(32) == "excluded.O-CSS2.property.border-right-width");
    assert(exclusion_order(60) == 33 && exclusion_id_literal(33) == "excluded.O-CSS2.property.border-style");
    reveal_strlit("excluded.O-CSS2.property.border-right-width");
    reveal_strlit("excluded.O-CSS2.property.border-style");
    assert("excluded.O-CSS2.property.border-right-width"@.take(32) =~= "excluded.O-CSS2.property.border-style"@.take(32));
    assert(sorts_before_at("excluded.O-CSS2.property.border-right-width"@, "excluded.O-CSS2.property.border-style"@, 32));
}

#[verifier::rlimit(100)]
proof fn lemma_exclusion_sorted_2()
    ensures
        forall|k: int| 60 <= k < 120 ==> sorts_before(
            exclusion_id_literal(#[trigger] exclusion_order(k))@,
            exclusion_id_literal(exclusion_order(k + 1))@,
        ),
{
    reveal(exclusion_order_chunk_2);
    reveal(exclusion_order_chunk_3);
    reveal(exclusion_id_chunk_1);
    reveal(exclusion_id_chunk_2);
    reveal(exclusion_id_chunk_3);
    assert(exclusion_order(60) == 33 && exclusion_id_literal(33) == "excluded.O-CSS2.property.border-style");
    reveal_strlit("excluded.O-CSS2.property.border-style");
    reveal_strlit("excluded.O-CSS2.property.border-top");
    assert("excluded.O-CSS2.property.border-style"@.take(32) =~= "excluded.O-CSS2.property.border-top"@.take(32));
    assert(sorts_before_at("excluded.O-CSS2.property.border-style"@, "excluded.O-CSS2.property.border-top"@, 32));
    assert(exclusion_order(61) == 34 && exclusion_id_literal(34) == "excluded.O-CSS2.property.border-top");
    reveal_strlit("excluded.O-CSS2.property.border-top");
    reveal_strlit("excluded.O-CSS2.property.border-top-color");
    assert("excluded.O-CSS2.property.border-top"@.take(35) =~= "excluded.O-CSS2.property.border-top-color"@.take(35));
    assert(sorts_before_at("excluded.O-CSS2.property.border-top"@, "excluded.O-CSS2.property.border-top-color"@, 35));
    assert(exclusion_order(62) == 35 && exclusion_id_literal(35) == "excluded.O-CSS2.property.border-top-color");
    reveal_strlit("excluded.O-CSS2.property.border-top-color");
    reveal_strlit("excluded.O-CSS2.property.border-top-style");
    assert("excluded.O-CSS2.property.border-top-color"@.take(36) =~= "excluded.O-CSS2.property.border-top-style"@.take(36));
    assert(sorts_before_at("excluded.O-CSS2.property.border-top-color"@, "excluded.O-CSS2.property.border-top-style"@, 36));
    assert(exclusion_order(63) == 36 && exclusion_id_literal(36) == "excluded.O-CSS2.property.border-top-style");
    reveal_strlit("excluded.O-CSS2.property.border-top-style");
    reveal_strlit("excluded.O-CSS2.property.border-top-width");
    assert("excluded.O-CSS2.property.border-top-style"@.take(36) =~= "excluded.O-CSS2.property.border-top-width"@.take(36));
    assert(sorts_before_at("excluded.O-CSS2.property.border-top-style"@, "excluded.O-CSS2.property.border-top-width"@, 36));
    assert(exclusion_order(64) == 37 && exclusion_id_literal(37) == "excluded.O-CSS2.property.border-top-width");
    reveal_strlit("excluded.O-CSS2.property.border-top-width");
    reveal_strlit("excluded.O-CSS2.property.border-width");
    assert("excluded.O-CSS2.property.border-top-width"@.take(32) =~= "excluded.O-CSS2.property.border-width"@.take(32));
    assert(sorts_before_at("excluded.O-CSS2.property.border-top-width"@, "excluded.O-CSS2.property.border-width"@, 32));
    assert(exclusion_order(65) == 38 && exclusion_id_literal(38) == "excluded.O-CSS2.property.border-width");
    reveal_strlit("excluded.O-CSS2.property.border-width");
    reveal_strlit("excluded.O-CSS2.property.color");
    assert("excluded.O-CSS2.property.border-width"@.take(25) =~= "excluded.O-CSS2.property.color"@.take(25));
    assert(sorts_before_at("excluded.O-CSS2.property.border-width"@, "excluded.O-CSS2.property.color"@, 25));
    assert(exclusion_order(66) == 12 && exclusion_id_literal(12) == "excluded.O-CSS2.property.color");
    reveal_strlit("excluded.O-CSS2.property.color");
    reveal_strlit("excluded.O-CSS2.property.cursor");
    assert("excluded.O-CSS2.property.color"@.take(26) =~= "excluded.O-CSS2.property.cursor"@.take(26));
    assert(sorts_before_at("excluded.O-CSS2.property.color"@, "excluded.O-CSS2.property.cursor"@, 26));
    assert(exclusion_order(67) == 47 && exclusion_id_literal(47) == "excluded.O-CSS2.property.cursor");
    reveal_strlit("excluded.O-CSS2.property.cursor");
    reveal_strlit("excluded.O-CSS2.property.direction");
    assert("excluded.O-CSS2.property.cursor"@.take(25) =~= "excluded.O-CSS2.property.direction"@.take(25));
    assert(sorts_before_at("excluded.O-CSS2.property.cursor"@, "excluded.O-CSS2.property.direction"@, 25));
    assert(exclusion_order(68) == 45 && exclusion_id_literal(45) == "excluded.O-CSS2.property.direction");
    reveal_strlit("excluded.O-CSS2.property.direction");
    reveal_strlit("excluded.O-CSS2.property.font");
    assert("excluded.O-CSS2.property.direction"@.take(25) =~= "excluded.O-CSS2.property.font"@.take(25));
    assert(sorts_before_at("excluded.O-CSS2.property.direction"@, "excluded.O-CSS2.property.font"@, 25));
    assert(exclusion_order(69) == 39 && exclusion_id_literal(39) == "excluded.O-CSS2.property.font");
    reveal_strlit("excluded.O-CSS2.property.font");
    reveal_strlit("excluded.O-CSS2.property.font-family");
    assert("excluded.O-CSS2.property.font"@.take(29) =~= "excluded.O-CSS2.property.font-family"@.take(29));
    assert(sorts_before_at("excluded.O-CSS2.property.font"@, "excluded.O-CSS2.property.font-family"@, 29));
    assert(exclusion_order(70) == 40 && exclusion_id_literal(40) == "excluded.O-CSS2.property.font-family");
    reveal_strlit("excluded.O-CSS2.property.font-family");
    reveal_strlit("excluded.O-CSS2.property.font-size");
    assert("excluded.O-CSS2.property.font-family"@.take(30) =~= "excluded.O-CSS2.property.font-size"@.take(30));
    assert(sorts_before_at("excluded.O-CSS2.property.font-family"@, "excluded.O-CSS2.property.font-size"@, 30));
    assert(exclusion_order(71) == 41 && exclusion_id_literal(41) == "excluded.O-CSS2.property.font-size");
    reveal_strlit("excluded.O-CSS2.property.font-size");
    reveal_strlit("excluded.O-CSS2.property.font-style");
    assert("excluded.O-CSS2.property.font-size"@.take(31) =~= "excluded.O-CSS2.property.font-style"@.take(31));
    assert(sorts_before_at("excluded.O-CSS2.property.font-size"@, "excluded.O-CSS2.property.font-style"@, 31));
    assert(exclusion_order(72) == 42 && exclusion_id_literal(42) == "excluded.O-CSS2.property.font-style");
    reveal_strlit("excluded.O-CSS2.property.font-style");
    reveal_strlit("excluded.O-CSS2.property.font-variant");
    assert("excluded.O-CSS2.property.font-style"@.take(30) =~= "excluded.O-CSS2.property.font-variant"@.take(30));
    assert(sorts_before_at("excluded.O-CSS2.property.font-style"@, "excluded.O-CSS2.property.font-variant"@, 30));
    assert(exclusion_order(73) == 43 && exclusion_id_literal(43) == "excluded.O-CSS2.property.font-variant");
    reveal_strlit("excluded.O-CSS2.property.font-variant");
    reveal_strlit("excluded.O-CSS2.property.font-weight");
    assert("excluded.O-CSS2.property.font-variant"@.take(30) =~= "excluded.O-CSS2.property.font-weight"@.take(30));
    assert(sorts_before_at("excluded.O-CSS2.property.font-variant"@, "excluded.O-CSS2.property.font-weight"@, 30));
    assert(exclusion_order(74) == 44 && exclusion_id_literal(44) == "excluded.O-CSS2.property.font-weight");
    reveal_strlit("excluded.O-CSS2.property.font-weight");
    reveal_strlit("excluded.O-CSS2.property.margin");
    assert("excluded.O-CSS2.property.font-weight"@.take(25) =~= "excluded.O-CSS2.property.margin"@.take(25));
    assert(sorts_before_at("excluded.O-CSS2.property.font-weight"@, "excluded.O-CSS2.property.margin"@, 25));
    assert(exclusion_order(75) == 2 && exclusion_id_literal(2) == "excluded.O-CSS2.property.margin");
    reveal_strlit("excluded.O-CSS2.property.margin");
    reveal_strlit("excluded.O-CSS2.property.margin-bottom");
    assert("excluded.O-CSS2.property.margin"@.take(31) =~= "excluded.O-CSS2.property.margin-bottom"@.take(31));
    assert(sorts_before_at("excluded.O-CSS2.property.margin"@, "excluded.O-CSS2.property.margin-bottom"@, 31));
    assert(exclusion_order(76) == 3 && exclusion_id_literal(3) == "excluded.O-CSS2.property.margin-bottom");
    reveal_strlit("excluded.O-CSS2.property.margin-bottom");
    reveal_strlit("excluded.O-CSS2.property.margin-left");
    assert("excluded.O-CSS2.property.margin-bottom"@.take(32) =~= "excluded.O-CSS2.property.margin-left"@.take(32));
    assert(sorts_before_at("excluded.O-CSS2.property.margin-bottom"@, "excluded.O-CSS2.property.margin-left"@, 32));
    assert(exclusion_order(77) == 4 && exclusion_id_literal(4) == "excluded.O-CSS2.property.margin-left");
    reveal_strlit("excluded.O-CSS2.property.margin-left");
    reveal_strlit("excluded.O-CSS2.property.margin-right");
    assert("excluded.O-CSS2.property.margin-left"@.take(32) =~= "excluded.O-CSS2.property.margin-right"@.take(32));
    assert(sorts_before_at("excluded.O-CSS2.property.margin-left"@, "excluded.O-CSS2.property.margin-right"@, 32));
    assert(exclusion_order(78) == 5 && exclusion_id_literal(5) == "excluded.O-CSS2.property.margin-right");
    reveal_strlit("excluded.O-CSS2.property.margin-right");
    reveal_strlit("excluded.O-CSS2.property.margin-top");
    assert("excluded.O-CSS2.property.margin-right"@.take(32) =~= "excluded.O-CSS2.property.margin-top"@.take(32));
    assert(sorts_before_at("excluded.O-CSS2.property.margin-right"@, "excluded.O-CSS2.property.margin-top"@, 32));
    assert(exclusion_order(79) == 6 && exclusion_id_literal(6) == "excluded.O-CSS2.property.margin-top");
    reveal_strlit("excluded.O-CSS2.property.margin-top");
    reveal_strlit("excluded.O-CSS2.property.outline");
    assert("excluded.O-CSS2.property.margin-top"@.take(25) =~= "excluded.O-CSS2.property.outline"@.take(25));
    assert(sorts_before_at("excluded.O-CSS2.property.margin-top"@, "excluded.O-CSS2.property.outline"@, 25));
    assert(exclusion_order(80) == 48 && exclusion_id_literal(48) == "excluded.O-CSS2.property.outline");
    reveal_strlit("excluded.O-CSS2.property.outline");
    reveal_strlit("excluded.O-CSS2.property.outline-color");
    assert("excluded.O-CSS2.property.outline"@.take(32) =~= "excluded.O-CSS2.property.outline-color"@.take(32));
    assert(sorts_before_at("excluded.O-CSS2.property.outline"@, "excluded.O-CSS2.property.outline-color"@, 32));
    assert(exclusion_order(81) == 49 && exclusion_id_literal(49) == "excluded.O-CSS2.property.outline-color");
    reveal_strlit("excluded.O-CSS2.property.outline-color");
    reveal_strlit("excluded.O-CSS2.property.outline-style");
    assert("excluded.O-CSS2.property.outline-color"@.take(33) =~= "excluded.O-CSS2.property.outline-style"@.take(33));
    assert(sorts_before_at("excluded.O-CSS2.property.outline-color"@, "excluded.O-CSS2.property.outline-style"@, 33));
    assert(exclusion_order(82) == 50 && exclusion_id_literal(50) == "excluded.O-CSS2.property.outline-style");
    reveal_strlit("excluded.O-CSS2.property.outline-style");
    reveal_strlit("excluded.O-CSS2.property.outline-width");
    assert("excluded.O-CSS2.property.outline-style"@.take(33) =~= "excluded.O-CSS2.property.outline-width"@.take(33));
    assert(sorts_before_at("excluded.O-CSS2.property.outline-style"@, "excluded.O-CSS2.property.outline-width"@, 33));
    assert(exclusion_order(83) == 51 && exclusion_id_literal(51) == "excluded.O-CSS2.property.outline-width");
    reveal_strlit("excluded.O-CSS2.property.outline-width");
    reveal_strlit("excluded.O-CSS2.property.padding");
    assert("excluded.O-CSS2.property.outline-width"@.take(25) =~= "excluded.O-CSS2.property.padding"@.take(25));
    assert(sorts_before_at("excluded.O-CSS2.property.outline-width"@, "excluded.O-CSS2.property.padding"@, 25));
    assert(exclusion_order(84) == 7 && exclusion_id_literal(7) == "excluded.O-CSS2.property.padding");
    reveal_strlit("excluded.O-CSS2.property.padding");
    reveal_strlit("excluded.O-CSS2.property.padding-bottom");
    assert("excluded.O-CSS2.property.padding"@.take(32) =~= "excluded.O-CSS2.property.padding-bottom"@.take(32));
    assert(sorts_before_at("excluded.O-CSS2.property.padding"@, "excluded.O-CSS2.property.padding-bottom"@, 32));
    assert(exclusion_order(85) == 8 && exclusion_id_literal(8) == "excluded.O-CSS2.property.padding-bottom");
    reveal_strlit("excluded.O-CSS2.property.padding-bottom");
    reveal_strlit("excluded.O-CSS2.property.padding-left");
    assert("excluded.O-CSS2.property.padding-bottom"@.take(33) =~= "excluded.O-CSS2.property.padding-left"@.take(33));
    assert(sorts_before_at("excluded.O-CSS2.property.padding-bottom"@, "excluded.O-CSS2.property.padding-left"@, 33));
    assert(exclusion_order(86) == 9 && exclusion_id_literal(9) == "excluded.O-CSS2.property.padding-left");
    reveal_strlit("excluded.O-CSS2.property.padding-left");
    reveal_strlit("excluded.O-CSS2.property.padding-right");
    assert("excluded.O-CSS2.property.padding-left"@.take(33) =~= "excluded.O-CSS2.property.padding-right"@.take(33));
    assert(sorts_before_at("excluded.O-CSS2.property.padding-left"@, "excluded.O-CSS2.property.padding-right"@, 33));
    assert(exclusion_order(87) == 10 && exclusion_id_literal(10) == "excluded.O-CSS2.property.padding-right");
    reveal_strlit("excluded.O-CSS2.property.padding-right");
    reveal_strlit("excluded.O-CSS2.property.padding-top");
    assert("excluded.O-CSS2.property.padding-right"@.take(33) =~= "excluded.O-CSS2.property.padding-top"@.take(33));
    assert(sorts_before_at("excluded.O-CSS2.property.padding-right"@, "excluded.O-CSS2.property.padding-top"@, 33));
    assert(exclusion_order(88) == 11 && exclusion_id_literal(11) == "excluded.O-CSS2.property.padding-top");
    reveal_strlit("excluded.O-CSS2.property.padding-top");
    reveal_strlit("excluded.O-CSS2.property.unicode-bidi");
    assert("excluded.O-CSS2.property.padding-top"@.take(25) =~= "excluded.O-CSS2.property.unicode-bidi"@.take(25));
    assert(sorts_before_at("excluded.O-CSS2.property.padding-top"@, "excluded.O-CSS2.property.unicode-bidi"@, 25));
    assert(exclusion_order(89) == 46 && exclusion_id_literal(46) == "excluded.O-CSS2.property.unicode-bidi");
    reveal_strlit("excluded.O-CSS2.property.unicode-bidi");
    reveal_strlit("excluded.O-CSS2.superseded-cascade-values");
    assert("excluded.O-CSS2.property.unicode-bidi"@.take(16) =~= "excluded.O-CSS2.superseded-cascade-values"@.take(16));
    assert(sorts_before_at("excluded.O-CSS2.property.unicode-bidi"@, "excluded.O-CSS2.superseded-cascade-values"@, 16));
    assert(exclusion_order(90) == 75 && exclusion_id_literal(75) == "excluded.O-CSS2.superseded-cascade-values");
    reveal_strlit("excluded.O-CSS2.superseded-cascade-values");
    reveal_strlit("excluded.O-CSS2.superseded-media");
    assert("excluded.O-CSS2.superseded-cascade-values"@.take(27) =~= "excluded.O-CSS2.superseded-media"@.take(27));
    assert(sorts_before_at("excluded.O-CSS2.superseded-cascade-values"@, "excluded.O-CSS2.superseded-media"@, 27));
    assert(exclusion_order(91) == 73 && exclusion_id_literal(73) == "excluded.O-CSS2.superseded-media");
    reveal_strlit("excluded.O-CSS2.superseded-media");
    reveal_strlit("excluded.O-CSS2.superseded-selectors");
    assert("excluded.O-CSS2.superseded-media"@.take(27) =~= "excluded.O-CSS2.superseded-selectors"@.take(27));
    assert(sorts_before_at("excluded.O-CSS2.superseded-media"@, "excluded.O-CSS2.superseded-selectors"@, 27));
    assert(exclusion_order(92) == 74 && exclusion_id_literal(74) == "excluded.O-CSS2.superseded-selectors");
    reveal_strlit("excluded.O-CSS2.superseded-selectors");
    reveal_strlit("excluded.O-CSS2.superseded-syntax");
    assert("excluded.O-CSS2.superseded-selectors"@.take(28) =~= "excluded.O-CSS2.superseded-syntax"@.take(28));
    assert(sorts_before_at("excluded.O-CSS2.superseded-selectors"@, "excluded.O-CSS2.superseded-syntax"@, 28));
    assert(exclusion_order(93) == 72 && exclusion_id_literal(72) == "excluded.O-CSS2.superseded-syntax");
    reveal_strlit("excluded.O-CSS2.superseded-syntax");
    reveal_strlit("excluded.O-EASING1.evaluation");
    assert("excluded.O-CSS2.superseded-syntax"@.take(11) =~= "excluded.O-EASING1.evaluation"@.take(11));
    assert(sorts_before_at("excluded.O-CSS2.superseded-syntax"@, "excluded.O-EASING1.evaluation"@, 11));
    assert(exclusion_order(94) == 105 && exclusion_id_literal(105) == "excluded.O-EASING1.evaluation");
    reveal_strlit("excluded.O-EASING1.evaluation");
    reveal_strlit("excluded.O-EASING1.informative-audit");
    assert("excluded.O-EASING1.evaluation"@.take(19) =~= "excluded.O-EASING1.informative-audit"@.take(19));
    assert(sorts_before_at("excluded.O-EASING1.evaluation"@, "excluded.O-EASING1.informative-audit"@, 19));
    assert(exclusion_order(95) == 129 && exclusion_id_literal(129) == "excluded.O-EASING1.informative-audit");
    reveal_strlit("excluded.O-EASING1.informative-audit");
    reveal_strlit("excluded.O-FLEXBOX1.informative-audit");
    assert("excluded.O-EASING1.informative-audit"@.take(11) =~= "excluded.O-FLEXBOX1.informative-audit"@.take(11));
    assert(sorts_before_at("excluded.O-EASING1.informative-audit"@, "excluded.O-FLEXBOX1.informative-audit"@, 11));
    assert(exclusion_order(96) == 124 && exclusion_id_literal(124) == "excluded.O-FLEXBOX1.informative-audit");
    reveal_strlit("excluded.O-FLEXBOX1.informative-audit");
    reveal_strlit("excluded.O-FLEXBOX1.layout");
    assert("excluded.O-FLEXBOX1.informative-audit"@.take(20) =~= "excluded.O-FLEXBOX1.layout"@.take(20));
    assert(sorts_before_at("excluded.O-FLEXBOX1.informative-audit"@, "excluded.O-FLEXBOX1.layout"@, 20));
    assert(exclusion_order(97) == 99 && exclusion_id_literal(99) == "excluded.O-FLEXBOX1.layout");
    reveal_strlit("excluded.O-FLEXBOX1.layout");
    reveal_strlit("excluded.O-FLEXBOX1.webkit-legacy");
    assert("excluded.O-FLEXBOX1.layout"@.take(20) =~= "excluded.O-FLEXBOX1.webkit-legacy"@.take(20));
    assert(sorts_before_at("excluded.O-FLEXBOX1.layout"@, "excluded.O-FLEXBOX1.webkit-legacy"@, 20));
    assert(exclusion_order(98) == 100 && exclusion_id_literal(100) == "excluded.O-FLEXBOX1.webkit-legacy");
    reveal_strlit("excluded.O-FLEXBOX1.webkit-legacy");
    reveal_strlit("excluded.O-FONTS3.font-display");
    assert("excluded.O-FLEXBOX1.webkit-legacy"@.take(12) =~= "excluded.O-FONTS3.font-display"@.take(12));
    assert(sorts_before_at("excluded.O-FLEXBOX1.webkit-legacy"@, "excluded.O-FONTS3.font-display"@, 12));
    assert(exclusion_order(99) == 95 && exclusion_id_literal(95) == "excluded.O-FONTS3.font-display");
    reveal_strlit("excluded.O-FONTS3.font-display");
    reveal_strlit("excluded.O-FONTS3.font-feature-values");
    assert("excluded.O-FONTS3.font-display"@.take(23) =~= "excluded.O-FONTS3.font-feature-values"@.take(23));
    assert(sorts_before_at("excluded.O-FONTS3.font-display"@, "excluded.O-FONTS3.font-feature-values"@, 23));
    assert(exclusion_order(100) == 96 && exclusion_id_literal(96) == "excluded.O-FONTS3.font-feature-values");
    reveal_strlit("excluded.O-FONTS3.font-feature-values");
    reveal_strlit("excluded.O-FONTS3.informative-audit");
    assert("excluded.O-FONTS3.font-feature-values"@.take(18) =~= "excluded.O-FONTS3.informative-audit"@.take(18));
    assert(sorts_before_at("excluded.O-FONTS3.font-feature-values"@, "excluded.O-FONTS3.informative-audit"@, 18));
    assert(exclusion_order(101) == 121 && exclusion_id_literal(121) == "excluded.O-FONTS3.informative-audit");
    reveal_strlit("excluded.O-FONTS3.informative-audit");
    reveal_strlit("excluded.O-FONTS3.processing");
    assert("excluded.O-FONTS3.informative-audit"@.take(18) =~= "excluded.O-FONTS3.processing"@.take(18));
    assert(sorts_before_at("excluded.O-FONTS3.informative-audit"@, "excluded.O-FONTS3.processing"@, 18));
    assert(exclusion_order(102) == 94 && exclusion_id_literal(94) == "excluded.O-FONTS3.processing");
    reveal_strlit("excluded.O-FONTS3.processing");
    reveal_strlit("excluded.O-IMAGES3.informative-audit");
    assert("excluded.O-FONTS3.processing"@.take(11) =~= "excluded.O-IMAGES3.informative-audit"@.take(11));
    assert(sorts_before_at("excluded.O-FONTS3.processing"@, "excluded.O-IMAGES3.informative-audit"@, 11));
    assert(exclusion_order(103) == 120 && exclusion_id_literal(120) == "excluded.O-IMAGES3.informative-audit");
    reveal_strlit("excluded.O-IMAGES3.informative-audit");
    reveal_strlit("excluded.O-IMAGES3.processing");
    assert("excluded.O-IMAGES3.informative-audit"@.take(19) =~= "excluded.O-IMAGES3.processing"@.take(19));
    assert(sorts_before_at("excluded.O-IMAGES3.informative-audit"@, "excluded.O-IMAGES3.processing"@, 19));
    assert(exclusion_order(104) == 93 && exclusion_id_literal(93) == "excluded.O-IMAGES3.processing");
    reveal_strlit("excluded.O-IMAGES3.processing");
    reveal_strlit("excluded.O-MEDIA3.evaluation");
    assert("excluded.O-IMAGES3.processing"@.take(11) =~= "excluded.O-MEDIA3.evaluation"@.take(11));
    assert(sorts_before_at("excluded.O-IMAGES3.processing"@, "excluded.O-MEDIA3.evaluation"@, 11));
    assert(exclusion_order(105) == 80 && exclusion_id_literal(80) == "excluded.O-MEDIA3.evaluation");
    reveal_strlit("excluded.O-MEDIA3.evaluation");
    reveal_strlit("excluded.O-MEDIA3.informative-audit");
    assert("excluded.O-MEDIA3.evaluation"@.take(18) =~= "excluded.O-MEDIA3.informative-audit"@.take(18));
    assert(sorts_before_at("excluded.O-MEDIA3.evaluation"@, "excluded.O-MEDIA3.informative-audit"@, 18));
    assert(exclusion_order(106) == 110 && exclusion_id_literal(110) == "excluded.O-MEDIA3.informative-audit");
    reveal_strlit("excluded.O-MEDIA3.informative-audit");
    reveal_strlit("excluded.O-MULTICOL1.informative-audit");
    assert("excluded.O-MEDIA3.informative-audit"@.take(12) =~= "excluded.O-MULTICOL1.informative-audit"@.take(12));
    assert(sorts_before_at("excluded.O-MEDIA3.informative-audit"@, "excluded.O-MULTICOL1.informative-audit"@, 12));
    assert(exclusion_order(107) == 123 && exclusion_id_literal(123) == "excluded.O-MULTICOL1.informative-audit");
    reveal_strlit("excluded.O-MULTICOL1.informative-audit");
    reveal_strlit("excluded.O-MULTICOL1.layout");
    assert("excluded.O-MULTICOL1.informative-audit"@.take(21) =~= "excluded.O-MULTICOL1.layout"@.take(21));
    assert(sorts_before_at("excluded.O-MULTICOL1.informative-audit"@, "excluded.O-MULTICOL1.layout"@, 21));
    assert(exclusion_order(108) == 98 && exclusion_id_literal(98) == "excluded.O-MULTICOL1.layout");
    reveal_strlit("excluded.O-MULTICOL1.layout");
    reveal_strlit("excluded.O-NAMESPACES3.informative-audit");
    assert("excluded.O-MULTICOL1.layout"@.take(11) =~= "excluded.O-NAMESPACES3.informative-audit"@.take(11));
    assert(sorts_before_at("excluded.O-MULTICOL1.layout"@, "excluded.O-NAMESPACES3.informative-audit"@, 11));
    assert(exclusion_order(109) == 113 && exclusion_id_literal(113) == "excluded.O-NAMESPACES3.informative-audit");
    reveal_strlit("excluded.O-NAMESPACES3.informative-audit");
    reveal_strlit("excluded.O-NAMESPACES3.uri-matching");
    assert("excluded.O-NAMESPACES3.informative-audit"@.take(23) =~= "excluded.O-NAMESPACES3.uri-matching"@.take(23));
    assert(sorts_before_at("excluded.O-NAMESPACES3.informative-audit"@, "excluded.O-NAMESPACES3.uri-matching"@, 23));
    assert(exclusion_order(110) == 83 && exclusion_id_literal(83) == "excluded.O-NAMESPACES3.uri-matching");
    reveal_strlit("excluded.O-NAMESPACES3.uri-matching");
    reveal_strlit("excluded.O-SELECTORS3.informative-audit");
    assert("excluded.O-NAMESPACES3.uri-matching"@.take(11) =~= "excluded.O-SELECTORS3.informative-audit"@.take(11));
    assert(sorts_before_at("excluded.O-NAMESPACES3.uri-matching"@, "excluded.O-SELECTORS3.informative-audit"@, 11));
    assert(exclusion_order(111) == 112 && exclusion_id_literal(112) == "excluded.O-SELECTORS3.informative-audit");
    reveal_strlit("excluded.O-SELECTORS3.informative-audit");
    reveal_strlit("excluded.O-SELECTORS3.matching-specificity");
    assert("excluded.O-SELECTORS3.informative-audit"@.take(22) =~= "excluded.O-SELECTORS3.matching-specificity"@.take(22));
    assert(sorts_before_at("excluded.O-SELECTORS3.informative-audit"@, "excluded.O-SELECTORS3.matching-specificity"@, 22));
    assert(exclusion_order(112) == 82 && exclusion_id_literal(82) == "excluded.O-SELECTORS3.matching-specificity");
    reveal_strlit("excluded.O-SELECTORS3.matching-specificity");
    reveal_strlit("excluded.O-STYLE-ATTR.informative-audit");
    assert("excluded.O-SELECTORS3.matching-specificity"@.take(12) =~= "excluded.O-STYLE-ATTR.informative-audit"@.take(12));
    assert(sorts_before_at("excluded.O-SELECTORS3.matching-specificity"@, "excluded.O-STYLE-ATTR.informative-audit"@, 12));
    assert(exclusion_order(113) == 109 && exclusion_id_literal(109) == "excluded.O-STYLE-ATTR.informative-audit");
    reveal_strlit("excluded.O-STYLE-ATTR.informative-audit");
    reveal_strlit("excluded.O-STYLE-ATTR.interpretation");
    assert("excluded.O-STYLE-ATTR.informative-audit"@.take(24) =~= "excluded.O-STYLE-ATTR.interpretation"@.take(24));
    assert(sorts_before_at("excluded.O-STYLE-ATTR.informative-audit"@, "excluded.O-STYLE-ATTR.interpretation"@, 24));
    assert(exclusion_order(114) == 79 && exclusion_id_literal(79) == "excluded.O-STYLE-ATTR.interpretation");
    reveal_strlit("excluded.O-STYLE-ATTR.interpretation");
    reveal_strlit("excluded.O-SYNTAX3.fragment-api");
    assert("excluded.O-STYLE-ATTR.interpretation"@.take(12) =~= "excluded.O-SYNTAX3.fragment-api"@.take(12));
    assert(sorts_before_at("excluded.O-STYLE-ATTR.interpretation"@, "excluded.O-SYNTAX3.fragment-api"@, 12));
    assert(exclusion_order(115) == 77 && exclusion_id_literal(77) == "excluded.O-SYNTAX3.fragment-api");
    reveal_strlit("excluded.O-SYNTAX3.fragment-api");
    reveal_strlit("excluded.O-SYNTAX3.informative-audit");
    assert("excluded.O-SYNTAX3.fragment-api"@.take(19) =~= "excluded.O-SYNTAX3.informative-audit"@.take(19));
    assert(sorts_before_at("excluded.O-SYNTAX3.fragment-api"@, "excluded.O-SYNTAX3.informative-audit"@, 19));
    assert(exclusion_order(116) == 108 && exclusion_id_literal(108) == "excluded.O-SYNTAX3.informative-audit");
    reveal_strlit("excluded.O-SYNTAX3.informative-audit");
    reveal_strlit("excluded.O-SYNTAX3.serialization");
    assert("excluded.O-SYNTAX3.informative-audit"@.take(19) =~= "excluded.O-SYNTAX3.serialization"@.take(19));
    assert(sorts_before_at("excluded.O-SYNTAX3.informative-audit"@, "excluded.O-SYNTAX3.serialization"@, 19));
    assert(exclusion_order(117) == 78 && exclusion_id_literal(78) == "excluded.O-SYNTAX3.serialization");
    reveal_strlit("excluded.O-SYNTAX3.serialization");
    reveal_strlit("excluded.O-TRANSFORMS1.informative-audit");
    assert("excluded.O-SYNTAX3.serialization"@.take(11) =~= "excluded.O-TRANSFORMS1.informative-audit"@.take(11));
    assert(sorts_before_at("excluded.O-SYNTAX3.serialization"@, "excluded.O-TRANSFORMS1.informative-audit"@, 11));
    assert(exclusion_order(118) == 127 && exclusion_id_literal(127) == "excluded.O-TRANSFORMS1.informative-audit");
    reveal_strlit("excluded.O-TRANSFORMS1.informative-audit");
    reveal_strlit("excluded.O-TRANSFORMS1.processing");
    assert("excluded.O-TRANSFORMS1.informative-audit"@.take(23) =~= "excluded.O-TRANSFORMS1.processing"@.take(23));
    assert(sorts_before_at("excluded.O-TRANSFORMS1.informative-audit"@, "excluded.O-TRANSFORMS1.processing"@, 23));
    assert(exclusion_order(119) == 103 && exclusion_id_literal(103) == "excluded.O-TRANSFORMS1.processing");
    assert(exclusion_order(120) == 101 && exclusion_id_literal(101) == "excluded.O-UI3.behavior");
    reveal_strlit("excluded.O-TRANSFORMS1.processing");
    reveal_strlit("excluded.O-UI3.behavior");
    assert("excluded.O-TRANSFORMS1.processing"@.take(11) =~= "excluded.O-UI3.behavior"@.take(11));
    assert(sorts_before_at("excluded.O-TRANSFORMS1.processing"@, "excluded.O-UI3.behavior"@, 11));
}

#[verifier::rlimit(100)]
proof fn lemma_exclusion_sorted_3()
    ensures
        forall|k: int| 120 <= k < 130 ==> sorts_before(
            exclusion_id_literal(#[trigger] exclusion_order(k))@,
            exclusion_id_literal(exclusion_order(k + 1))@,
        ),
{
    reveal(exclusion_order_chunk_3);
    reveal(exclusion_id_chunk_1);
    reveal(exclusion_id_chunk_2);
    reveal(exclusion_id_chunk_3);
    assert(exclusion_order(120) == 101 && exclusion_id_literal(101) == "excluded.O-UI3.behavior");
    reveal_strlit("excluded.O-UI3.behavior");
    reveal_strlit("excluded.O-UI3.informative-audit");
    assert("excluded.O-UI3.behavior"@.take(15) =~= "excluded.O-UI3.informative-audit"@.take(15));
    assert(sorts_before_at("excluded.O-UI3.behavior"@, "excluded.O-UI3.informative-audit"@, 15));
    assert(exclusion_order(121) == 125 && exclusion_id_literal(125) == "excluded.O-UI3.informative-audit");
    reveal_strlit("excluded.O-UI3.informative-audit");
    reveal_strlit("excluded.O-UI3.property.ime-mode");
    assert("excluded.O-UI3.informative-audit"@.take(15) =~= "excluded.O-UI3.property.ime-mode"@.take(15));
    assert(sorts_before_at("excluded.O-UI3.informative-audit"@, "excluded.O-UI3.property.ime-mode"@, 15));
    assert(exclusion_order(122) == 1 && exclusion_id_literal(1) == "excluded.O-UI3.property.ime-mode");
    reveal_strlit("excluded.O-UI3.property.ime-mode");
    reveal_strlit("excluded.O-VALUES3.computation");
    assert("excluded.O-UI3.property.ime-mode"@.take(11) =~= "excluded.O-VALUES3.computation"@.take(11));
    assert(sorts_before_at("excluded.O-UI3.property.ime-mode"@, "excluded.O-VALUES3.computation"@, 11));
    assert(exclusion_order(123) == 86 && exclusion_id_literal(86) == "excluded.O-VALUES3.computation");
    reveal_strlit("excluded.O-VALUES3.computation");
    reveal_strlit("excluded.O-VALUES3.informative-audit");
    assert("excluded.O-VALUES3.computation"@.take(19) =~= "excluded.O-VALUES3.informative-audit"@.take(19));
    assert(sorts_before_at("excluded.O-VALUES3.computation"@, "excluded.O-VALUES3.informative-audit"@, 19));
    assert(exclusion_order(124) == 115 && exclusion_id_literal(115) == "excluded.O-VALUES3.informative-audit");
    reveal_strlit("excluded.O-VALUES3.informative-audit");
    reveal_strlit("excluded.O-VALUES3.metasyntax");
    assert("excluded.O-VALUES3.informative-audit"@.take(19) =~= "excluded.O-VALUES3.metasyntax"@.take(19));
    assert(sorts_before_at("excluded.O-VALUES3.informative-audit"@, "excluded.O-VALUES3.metasyntax"@, 19));
    assert(exclusion_order(125) == 85 && exclusion_id_literal(85) == "excluded.O-VALUES3.metasyntax");
    reveal_strlit("excluded.O-VALUES3.metasyntax");
    reveal_strlit("excluded.O-VARIABLES1.informative-audit");
    assert("excluded.O-VALUES3.metasyntax"@.take(13) =~= "excluded.O-VARIABLES1.informative-audit"@.take(13));
    assert(sorts_before_at("excluded.O-VALUES3.metasyntax"@, "excluded.O-VARIABLES1.informative-audit"@, 13));
    assert(exclusion_order(126) == 116 && exclusion_id_literal(116) == "excluded.O-VARIABLES1.informative-audit");
    reveal_strlit("excluded.O-VARIABLES1.informative-audit");
    reveal_strlit("excluded.O-VARIABLES1.substitution");
    assert("excluded.O-VARIABLES1.informative-audit"@.take(22) =~= "excluded.O-VARIABLES1.substitution"@.take(22));
    assert(sorts_before_at("excluded.O-VARIABLES1.informative-audit"@, "excluded.O-VARIABLES1.substitution"@, 22));
    assert(exclusion_order(127) == 87 && exclusion_id_literal(87) == "excluded.O-VARIABLES1.substitution");
    reveal_strlit("excluded.O-VARIABLES1.substitution");
    reveal_strlit("excluded.O-WRITING3.informative-audit");
    assert("excluded.O-VARIABLES1.substitution"@.take(11) =~= "excluded.O-WRITING3.informative-audit"@.take(11));
    assert(sorts_before_at("excluded.O-VARIABLES1.substitution"@, "excluded.O-WRITING3.informative-audit"@, 11));
    assert(exclusion_order(128) == 122 && exclusion_id_literal(122) == "excluded.O-WRITING3.informative-audit");
    reveal_strlit("excluded.O-WRITING3.informative-audit");
    reveal_strlit("excluded.O-WRITING3.layout");
    assert("excluded.O-WRITING3.informative-audit"@.take(20) =~= "excluded.O-WRITING3.layout"@.take(20));
    assert(sorts_before_at("excluded.O-WRITING3.informative-audit"@, "excluded.O-WRITING3.layout"@, 20));
    assert(exclusion_order(129) == 97 && exclusion_id_literal(97) == "excluded.O-WRITING3.layout");
    assert(exclusion_order(130) == 0 && exclusion_id_literal(0) == "excluded.O-WRITING3.property.glyph-orientation-horizontal");
    reveal_strlit("excluded.O-WRITING3.layout");
    reveal_strlit("excluded.O-WRITING3.property.glyph-orientation-horizontal");
    assert("excluded.O-WRITING3.layout"@.take(20) =~= "excluded.O-WRITING3.property.glyph-orientation-horizontal"@.take(20));
    assert(sorts_before_at("excluded.O-WRITING3.layout"@, "excluded.O-WRITING3.property.glyph-orientation-horizontal"@, 20));
}

/// The stable identity of every one of the conformance exclusions is the one [`exclusion_id_literal`] spells.
pub proof fn lemma_exclusion_ids_spelled()
    ensures
        spec_conformance_exclusions().len() == 131,
        forall|m: int| 0 <= m < 131 ==> #[trigger] spec_conformance_exclusions()[m].spec_id()@ == exclusion_id_literal(m)@,
{
    reveal(spec_conformance_exclusions);
    reveal(exclusions::exclusion_list);
    exclusions::lemma_exclusions_1_len();
    exclusions::lemma_exclusions_2_len();
    exclusions::lemma_exclusions_3_len();
    lemma_exclusion_chunk_1_ids();
    lemma_exclusion_chunk_2_ids();
    lemma_exclusion_chunk_3_ids();
    let c = spec_conformance_exclusions();
    assert forall|m: int| 0 <= m < 60 implies c[m] == exclusions::exclusions_1()[m - 0] by {}
    assert forall|m: int| 60 <= m < 120 implies c[m] == exclusions::exclusions_2()[m - 60] by {}
    assert forall|m: int| 120 <= m < 131 implies c[m] == exclusions::exclusions_3()[m - 120] by {}
}

/// No two conformance exclusions carry the same stable identity.
pub proof fn lemma_exclusion_ids_unique()
    ensures
        forall|i: int, j: int|
            0 <= i < spec_conformance_exclusions().len() && 0 <= j < spec_conformance_exclusions().len() && i != j ==> (#[trigger] spec_conformance_exclusions()[i]).spec_id()@
                != (#[trigger] spec_conformance_exclusions()[j]).spec_id()@,
{
    lemma_exclusion_ids_spelled();
    lemma_exclusion_rank_1();
    lemma_exclusion_rank_2();
    lemma_exclusion_rank_3();
    lemma_exclusion_sorted_1();
    lemma_exclusion_sorted_2();
    lemma_exclusion_sorted_3();
    let ids = Seq::new(131, |m: int| exclusion_id_literal(m)@);
    let order = Seq::new(131, |k: int| exclusion_order(k));
    let rank = Seq::new(131, |m: int| exclusion_rank(m));
    assert forall|k: int| 0 <= k < order.len() - 1 implies sorts_before(ids[#[trigger] order[k]], ids[order[k + 1]]) by {
        assert(sorts_before(exclusion_id_literal(exclusion_order(k))@, exclusion_id_literal(exclusion_order(k + 1))@));
    }
    lemma_sorted_order_distinct(ids, order, rank);
    assert forall|i: int, j: int|
        0 <= i < spec_conformance_exclusions().len() && 0 <= j < spec_conformance_exclusions().len() && i != j implies (#[trigger] spec_conformance_exclusions()[i]).spec_id()@
        != (#[trigger] spec_conformance_exclusions()[j]).spec_id()@ by {
        assert(ids[i] != ids[j]);
    }
}

/// Looking up the identity of any of the conformance exclusions finds that record and no other.
pub proof fn lemma_exclusion_lookup_finds_record(i: int)
    requires
        0 <= i < spec_conformance_exclusions().len(),
    ensures
        forall|k: int| 0 <= k < spec_conformance_exclusions().len() && exclusion_has_id(#[trigger] spec_conformance_exclusions()[k], spec_conformance_exclusions()[i].spec_id()@) ==> k == i,
        first_match(spec_conformance_exclusions(), |r: CssExclusionMetadata| exclusion_has_id(r, spec_conformance_exclusions()[i].spec_id()@)) == Some(spec_conformance_exclusions()[i]),
{
    lemma_exclusion_ids_unique();
    let wanted = |r: CssExclusionMetadata| exclusion_has_id(r, spec_conformance_exclusions()[i].spec_id()@);
    assert(is_first_match(spec_conformance_exclusions(), wanted, i));
    lemma_first_match_at(spec_conformance_exclusions(), wanted, i);
}

} // verus!
