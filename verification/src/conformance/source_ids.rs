//! Every specification source carries its own stable identity.
use vstd::prelude::*;

use super::identities::{lemma_sorted_order_distinct, sorts_before, sorts_before_at};
use super::{sources, source_has_id, spec_specification_sources, CssSpecificationSource};
use crate::search::{first_match, is_first_match, lemma_first_match_at};

verus! {

/// The stable identities of one part of the registry, in registry order.
#[verifier::opaque]
pub open spec fn source_id_chunk_1() -> Seq<&'static str> {
    seq![
        "O-CSS2",
        "O-SYNTAX3",
        "O-STYLE-ATTR",
        "O-MEDIA3",
        "O-CONDITIONAL3",
        "O-SELECTORS3",
        "O-NAMESPACES3",
        "O-CASCADE4",
        "O-VALUES3",
        "O-VARIABLES1",
        "O-BOX3",
        "O-COLOR4",
        "O-BACKGROUNDS3",
        "O-IMAGES3",
        "O-FONTS3",
        "O-WRITING3",
        "O-MULTICOL1",
        "O-FLEXBOX1",
        "O-UI3",
        "O-CONTAIN1",
        "O-TRANSFORMS1",
        "O-COMPOSITING1",
        "O-EASING1",
        "O-COUNTERSTYLES3",
        "R-MEDIA4",
        "R-SCROLLBARS1",
        "R-GRID1",
        "R-GRID2",
        "R-CASCADE5",
        "R-CONDITIONAL4",
        "S-DISPLAY3",
        "S-WRITING4",
        "S-BREAK3",
        "S-ALIGN3",
        "S-SHAPES1",
        "S-TEXT3",
        "S-TEXTDECOR3",
        "S-MASKING1",
        "I-TRANSITIONS1",
        "I-ANIMATIONS1",
        "I-FILTER1",
        "I-SIZING3",
        "I-TRANSFORMS2",
        "I-LISTS3",
        "I-POSITION3",
        "I-FONTS4",
        "I-COLOR5",
        "I-SELECTORS4",
        "I-CONTAIN2",
        "I-NESTING1",
        "X-CONTAIN3",
        "X-CONDITIONAL5",
        "X-CASCADE6",
        "X-PSEUDO4",
        "X-VALUES4",
        "X-MEDIA5",
        "X-OVERFLOW3",
        "X-SIZING4",
        "X-TEXT4",
        "X-TEXTDECOR4",
        "X-UI4",
        "X-CONTENT3",
        "X-FULLSCREEN",
        "X-FILTER2-BASE",
        "X-DISPLAY-MODE-BASE",
        "X-GRID-TOLERANCE-BASE",
        "I01-BASE-SELECTORS",
        "I01-BASE-QUERIES",
    ]
}

#[verifier::opaque]
spec fn source_order_chunk_1() -> Seq<int> {
    seq![39, 46, 48, 40, 45, 43, 49, 44, 47, 41, 42, 38, 67, 66, 12, 10, 7, 11, 21, 4, 19, 23, 0, 22, 17, 14, 13, 3, 16, 6, 5, 2, 1, 20, 18, 8, 9, 15, 28, 29, 26, 27, 24, 25, 33, 32, 30, 37, 34, 35, 36, 31, 52, 51, 50, 61, 64, 63, 62, 65, 55, 56, 53, 57, 58, 59, 60, 54]
}

#[verifier::opaque]
spec fn source_rank_chunk_1() -> Seq<int> {
    seq![22, 32, 31, 27, 19, 30, 29, 16, 35, 36, 15, 17, 14, 26, 25, 37, 28, 24, 34, 20, 33, 18, 23, 21, 42, 43, 40, 41, 38, 39, 46, 51, 45, 44, 48, 49, 50, 47, 11, 0, 3, 9, 10, 5, 7, 4, 1, 8, 2, 6, 54, 53, 52, 62, 67, 60, 61, 63, 64, 65, 66, 55, 58, 57, 56, 59, 13, 12]
}

/// The stable identity of record `k` of the registry, spelled out.
pub open spec fn source_id_literal(k: int) -> &'static str {
    source_id_chunk_1()[k]
}

spec fn source_order(k: int) -> int {
    source_order_chunk_1()[k]
}

spec fn source_rank(k: int) -> int {
    source_rank_chunk_1()[k]
}

proof fn lemma_source_chunk_1_ids()
    ensures
        forall|i: int| 0 <= i < 68 ==> #[trigger] sources::source_list()[i].spec_id()@ == source_id_chunk_1()[i]@,
{
    broadcast use {CssSpecificationSource::lemma_from_url_parts, CssSpecificationSource::lemma_from_repository_parts};

    reveal(sources::source_list);
    reveal(source_id_chunk_1);
    assert(sources::source_list()[0].spec_id()@ == source_id_chunk_1()[0]@);
    assert(sources::source_list()[1].spec_id()@ == source_id_chunk_1()[1]@);
    assert(sources::source_list()[2].spec_id()@ == source_id_chunk_1()[2]@);
    assert(sources::source_list()[3].spec_id()@ == source_id_chunk_1()[3]@);
    assert(sources::source_list()[4].spec_id()@ == source_id_chunk_1()[4]@);
    assert(sources::source_list()[5].spec_id()@ == source_id_chunk_1()[5]@);
    assert(sources::source_list()[6].spec_id()@ == source_id_chunk_1()[6]@);
    assert(sources::source_list()[7].spec_id()@ == source_id_chunk_1()[7]@);
    assert(sources::source_list()[8].spec_id()@ == source_id_chunk_1()[8]@);
    assert(sources::source_list()[9].spec_id()@ == source_id_chunk_1()[9]@);
    assert(sources::source_list()[10].spec_id()@ == source_id_chunk_1()[10]@);
    assert(sources::source_list()[11].spec_id()@ == source_id_chunk_1()[11]@);
    assert(sources::source_list()[12].spec_id()@ == source_id_chunk_1()[12]@);
    assert(sources::source_list()[13].spec_id()@ == source_id_chunk_1()[13]@);
    assert(sources::source_list()[14].spec_id()@ == source_id_chunk_1()[14]@);
    assert(sources::source_list()[15].spec_id()@ == source_id_chunk_1()[15]@);
    assert(sources::source_list()[16].spec_id()@ == source_id_chunk_1()[16]@);
    assert(sources::source_list()[17].spec_id()@ == source_id_chunk_1()[17]@);
    assert(sources::source_list()[18].spec_id()@ == source_id_chunk_1()[18]@);
    assert(sources::source_list()[19].spec_id()@ == source_id_chunk_1()[19]@);
    assert(sources::source_list()[20].spec_id()@ == source_id_chunk_1()[20]@);
    assert(sources::source_list()[21].spec_id()@ == source_id_chunk_1()[21]@);
    assert(sources::source_list()[22].spec_id()@ == source_id_chunk_1()[22]@);
    assert(sources::source_list()[23].spec_id()@ == source_id_chunk_1()[23]@);
    assert(sources::source_list()[24].spec_id()@ == source_id_chunk_1()[24]@);
    assert(sources::source_list()[25].spec_id()@ == source_id_chunk_1()[25]@);
    assert(sources::source_list()[26].spec_id()@ == source_id_chunk_1()[26]@);
    assert(sources::source_list()[27].spec_id()@ == source_id_chunk_1()[27]@);
    assert(sources::source_list()[28].spec_id()@ == source_id_chunk_1()[28]@);
    assert(sources::source_list()[29].spec_id()@ == source_id_chunk_1()[29]@);
    assert(sources::source_list()[30].spec_id()@ == source_id_chunk_1()[30]@);
    assert(sources::source_list()[31].spec_id()@ == source_id_chunk_1()[31]@);
    assert(sources::source_list()[32].spec_id()@ == source_id_chunk_1()[32]@);
    assert(sources::source_list()[33].spec_id()@ == source_id_chunk_1()[33]@);
    assert(sources::source_list()[34].spec_id()@ == source_id_chunk_1()[34]@);
    assert(sources::source_list()[35].spec_id()@ == source_id_chunk_1()[35]@);
    assert(sources::source_list()[36].spec_id()@ == source_id_chunk_1()[36]@);
    assert(sources::source_list()[37].spec_id()@ == source_id_chunk_1()[37]@);
    assert(sources::source_list()[38].spec_id()@ == source_id_chunk_1()[38]@);
    assert(sources::source_list()[39].spec_id()@ == source_id_chunk_1()[39]@);
    assert(sources::source_list()[40].spec_id()@ == source_id_chunk_1()[40]@);
    assert(sources::source_list()[41].spec_id()@ == source_id_chunk_1()[41]@);
    assert(sources::source_list()[42].spec_id()@ == source_id_chunk_1()[42]@);
    assert(sources::source_list()[43].spec_id()@ == source_id_chunk_1()[43]@);
    assert(sources::source_list()[44].spec_id()@ == source_id_chunk_1()[44]@);
    assert(sources::source_list()[45].spec_id()@ == source_id_chunk_1()[45]@);
    assert(sources::source_list()[46].spec_id()@ == source_id_chunk_1()[46]@);
    assert(sources::source_list()[47].spec_id()@ == source_id_chunk_1()[47]@);
    assert(sources::source_list()[48].spec_id()@ == source_id_chunk_1()[48]@);
    assert(sources::source_list()[49].spec_id()@ == source_id_chunk_1()[49]@);
    assert(sources::source_list()[50].spec_id()@ == source_id_chunk_1()[50]@);
    assert(sources::source_list()[51].spec_id()@ == source_id_chunk_1()[51]@);
    assert(sources::source_list()[52].spec_id()@ == source_id_chunk_1()[52]@);
    assert(sources::source_list()[53].spec_id()@ == source_id_chunk_1()[53]@);
    assert(sources::source_list()[54].spec_id()@ == source_id_chunk_1()[54]@);
    assert(sources::source_list()[55].spec_id()@ == source_id_chunk_1()[55]@);
    assert(sources::source_list()[56].spec_id()@ == source_id_chunk_1()[56]@);
    assert(sources::source_list()[57].spec_id()@ == source_id_chunk_1()[57]@);
    assert(sources::source_list()[58].spec_id()@ == source_id_chunk_1()[58]@);
    assert(sources::source_list()[59].spec_id()@ == source_id_chunk_1()[59]@);
    assert(sources::source_list()[60].spec_id()@ == source_id_chunk_1()[60]@);
    assert(sources::source_list()[61].spec_id()@ == source_id_chunk_1()[61]@);
    assert(sources::source_list()[62].spec_id()@ == source_id_chunk_1()[62]@);
    assert(sources::source_list()[63].spec_id()@ == source_id_chunk_1()[63]@);
    assert(sources::source_list()[64].spec_id()@ == source_id_chunk_1()[64]@);
    assert(sources::source_list()[65].spec_id()@ == source_id_chunk_1()[65]@);
    assert(sources::source_list()[66].spec_id()@ == source_id_chunk_1()[66]@);
    assert(sources::source_list()[67].spec_id()@ == source_id_chunk_1()[67]@);
}

proof fn lemma_source_rank_1()
    ensures
        forall|m: int| 0 <= m < 68 ==> 0 <= #[trigger] source_rank(m) < 68 && source_order(source_rank(m)) == m,
        forall|k: int| 0 <= k < 68 ==> 0 <= #[trigger] source_order(k) < 68,
{
    reveal(source_rank_chunk_1);
    reveal(source_order_chunk_1);
    assert(source_rank(0) == 22 && source_order(22) == 0);
    assert(source_rank(1) == 32 && source_order(32) == 1);
    assert(source_rank(2) == 31 && source_order(31) == 2);
    assert(source_rank(3) == 27 && source_order(27) == 3);
    assert(source_rank(4) == 19 && source_order(19) == 4);
    assert(source_rank(5) == 30 && source_order(30) == 5);
    assert(source_rank(6) == 29 && source_order(29) == 6);
    assert(source_rank(7) == 16 && source_order(16) == 7);
    assert(source_rank(8) == 35 && source_order(35) == 8);
    assert(source_rank(9) == 36 && source_order(36) == 9);
    assert(source_rank(10) == 15 && source_order(15) == 10);
    assert(source_rank(11) == 17 && source_order(17) == 11);
    assert(source_rank(12) == 14 && source_order(14) == 12);
    assert(source_rank(13) == 26 && source_order(26) == 13);
    assert(source_rank(14) == 25 && source_order(25) == 14);
    assert(source_rank(15) == 37 && source_order(37) == 15);
    assert(source_rank(16) == 28 && source_order(28) == 16);
    assert(source_rank(17) == 24 && source_order(24) == 17);
    assert(source_rank(18) == 34 && source_order(34) == 18);
    assert(source_rank(19) == 20 && source_order(20) == 19);
    assert(source_rank(20) == 33 && source_order(33) == 20);
    assert(source_rank(21) == 18 && source_order(18) == 21);
    assert(source_rank(22) == 23 && source_order(23) == 22);
    assert(source_rank(23) == 21 && source_order(21) == 23);
    assert(source_rank(24) == 42 && source_order(42) == 24);
    assert(source_rank(25) == 43 && source_order(43) == 25);
    assert(source_rank(26) == 40 && source_order(40) == 26);
    assert(source_rank(27) == 41 && source_order(41) == 27);
    assert(source_rank(28) == 38 && source_order(38) == 28);
    assert(source_rank(29) == 39 && source_order(39) == 29);
    assert(source_rank(30) == 46 && source_order(46) == 30);
    assert(source_rank(31) == 51 && source_order(51) == 31);
    assert(source_rank(32) == 45 && source_order(45) == 32);
    assert(source_rank(33) == 44 && source_order(44) == 33);
    assert(source_rank(34) == 48 && source_order(48) == 34);
    assert(source_rank(35) == 49 && source_order(49) == 35);
    assert(source_rank(36) == 50 && source_order(50) == 36);
    assert(source_rank(37) == 47 && source_order(47) == 37);
    assert(source_rank(38) == 11 && source_order(11) == 38);
    assert(source_rank(39) == 0 && source_order(0) == 39);
    assert(source_rank(40) == 3 && source_order(3) == 40);
    assert(source_rank(41) == 9 && source_order(9) == 41);
    assert(source_rank(42) == 10 && source_order(10) == 42);
    assert(source_rank(43) == 5 && source_order(5) == 43);
    assert(source_rank(44) == 7 && source_order(7) == 44);
    assert(source_rank(45) == 4 && source_order(4) == 45);
    assert(source_rank(46) == 1 && source_order(1) == 46);
    assert(source_rank(47) == 8 && source_order(8) == 47);
    assert(source_rank(48) == 2 && source_order(2) == 48);
    assert(source_rank(49) == 6 && source_order(6) == 49);
    assert(source_rank(50) == 54 && source_order(54) == 50);
    assert(source_rank(51) == 53 && source_order(53) == 51);
    assert(source_rank(52) == 52 && source_order(52) == 52);
    assert(source_rank(53) == 62 && source_order(62) == 53);
    assert(source_rank(54) == 67 && source_order(67) == 54);
    assert(source_rank(55) == 60 && source_order(60) == 55);
    assert(source_rank(56) == 61 && source_order(61) == 56);
    assert(source_rank(57) == 63 && source_order(63) == 57);
    assert(source_rank(58) == 64 && source_order(64) == 58);
    assert(source_rank(59) == 65 && source_order(65) == 59);
    assert(source_rank(60) == 66 && source_order(66) == 60);
    assert(source_rank(61) == 55 && source_order(55) == 61);
    assert(source_rank(62) == 58 && source_order(58) == 62);
    assert(source_rank(63) == 57 && source_order(57) == 63);
    assert(source_rank(64) == 56 && source_order(56) == 64);
    assert(source_rank(65) == 59 && source_order(59) == 65);
    assert(source_rank(66) == 13 && source_order(13) == 66);
    assert(source_rank(67) == 12 && source_order(12) == 67);
    assert(0 <= source_order(0) < 68);
    assert(0 <= source_order(1) < 68);
    assert(0 <= source_order(2) < 68);
    assert(0 <= source_order(3) < 68);
    assert(0 <= source_order(4) < 68);
    assert(0 <= source_order(5) < 68);
    assert(0 <= source_order(6) < 68);
    assert(0 <= source_order(7) < 68);
    assert(0 <= source_order(8) < 68);
    assert(0 <= source_order(9) < 68);
    assert(0 <= source_order(10) < 68);
    assert(0 <= source_order(11) < 68);
    assert(0 <= source_order(12) < 68);
    assert(0 <= source_order(13) < 68);
    assert(0 <= source_order(14) < 68);
    assert(0 <= source_order(15) < 68);
    assert(0 <= source_order(16) < 68);
    assert(0 <= source_order(17) < 68);
    assert(0 <= source_order(18) < 68);
    assert(0 <= source_order(19) < 68);
    assert(0 <= source_order(20) < 68);
    assert(0 <= source_order(21) < 68);
    assert(0 <= source_order(22) < 68);
    assert(0 <= source_order(23) < 68);
    assert(0 <= source_order(24) < 68);
    assert(0 <= source_order(25) < 68);
    assert(0 <= source_order(26) < 68);
    assert(0 <= source_order(27) < 68);
    assert(0 <= source_order(28) < 68);
    assert(0 <= source_order(29) < 68);
    assert(0 <= source_order(30) < 68);
    assert(0 <= source_order(31) < 68);
    assert(0 <= source_order(32) < 68);
    assert(0 <= source_order(33) < 68);
    assert(0 <= source_order(34) < 68);
    assert(0 <= source_order(35) < 68);
    assert(0 <= source_order(36) < 68);
    assert(0 <= source_order(37) < 68);
    assert(0 <= source_order(38) < 68);
    assert(0 <= source_order(39) < 68);
    assert(0 <= source_order(40) < 68);
    assert(0 <= source_order(41) < 68);
    assert(0 <= source_order(42) < 68);
    assert(0 <= source_order(43) < 68);
    assert(0 <= source_order(44) < 68);
    assert(0 <= source_order(45) < 68);
    assert(0 <= source_order(46) < 68);
    assert(0 <= source_order(47) < 68);
    assert(0 <= source_order(48) < 68);
    assert(0 <= source_order(49) < 68);
    assert(0 <= source_order(50) < 68);
    assert(0 <= source_order(51) < 68);
    assert(0 <= source_order(52) < 68);
    assert(0 <= source_order(53) < 68);
    assert(0 <= source_order(54) < 68);
    assert(0 <= source_order(55) < 68);
    assert(0 <= source_order(56) < 68);
    assert(0 <= source_order(57) < 68);
    assert(0 <= source_order(58) < 68);
    assert(0 <= source_order(59) < 68);
    assert(0 <= source_order(60) < 68);
    assert(0 <= source_order(61) < 68);
    assert(0 <= source_order(62) < 68);
    assert(0 <= source_order(63) < 68);
    assert(0 <= source_order(64) < 68);
    assert(0 <= source_order(65) < 68);
    assert(0 <= source_order(66) < 68);
    assert(0 <= source_order(67) < 68);
}

#[verifier::rlimit(100)]
proof fn lemma_source_sorted_1()
    ensures
        forall|k: int| 0 <= k < 67 ==> sorts_before(
            source_id_literal(#[trigger] source_order(k))@,
            source_id_literal(source_order(k + 1))@,
        ),
{
    reveal(source_order_chunk_1);
    reveal(source_id_chunk_1);
    assert(source_order(0) == 39 && source_id_literal(39) == "I-ANIMATIONS1");
    reveal_strlit("I-ANIMATIONS1");
    reveal_strlit("I-COLOR5");
    assert("I-ANIMATIONS1"@.take(2) =~= "I-COLOR5"@.take(2));
    assert(sorts_before_at("I-ANIMATIONS1"@, "I-COLOR5"@, 2));
    assert(source_order(1) == 46 && source_id_literal(46) == "I-COLOR5");
    reveal_strlit("I-COLOR5");
    reveal_strlit("I-CONTAIN2");
    assert("I-COLOR5"@.take(4) =~= "I-CONTAIN2"@.take(4));
    assert(sorts_before_at("I-COLOR5"@, "I-CONTAIN2"@, 4));
    assert(source_order(2) == 48 && source_id_literal(48) == "I-CONTAIN2");
    reveal_strlit("I-CONTAIN2");
    reveal_strlit("I-FILTER1");
    assert("I-CONTAIN2"@.take(2) =~= "I-FILTER1"@.take(2));
    assert(sorts_before_at("I-CONTAIN2"@, "I-FILTER1"@, 2));
    assert(source_order(3) == 40 && source_id_literal(40) == "I-FILTER1");
    reveal_strlit("I-FILTER1");
    reveal_strlit("I-FONTS4");
    assert("I-FILTER1"@.take(3) =~= "I-FONTS4"@.take(3));
    assert(sorts_before_at("I-FILTER1"@, "I-FONTS4"@, 3));
    assert(source_order(4) == 45 && source_id_literal(45) == "I-FONTS4");
    reveal_strlit("I-FONTS4");
    reveal_strlit("I-LISTS3");
    assert("I-FONTS4"@.take(2) =~= "I-LISTS3"@.take(2));
    assert(sorts_before_at("I-FONTS4"@, "I-LISTS3"@, 2));
    assert(source_order(5) == 43 && source_id_literal(43) == "I-LISTS3");
    reveal_strlit("I-LISTS3");
    reveal_strlit("I-NESTING1");
    assert("I-LISTS3"@.take(2) =~= "I-NESTING1"@.take(2));
    assert(sorts_before_at("I-LISTS3"@, "I-NESTING1"@, 2));
    assert(source_order(6) == 49 && source_id_literal(49) == "I-NESTING1");
    reveal_strlit("I-NESTING1");
    reveal_strlit("I-POSITION3");
    assert("I-NESTING1"@.take(2) =~= "I-POSITION3"@.take(2));
    assert(sorts_before_at("I-NESTING1"@, "I-POSITION3"@, 2));
    assert(source_order(7) == 44 && source_id_literal(44) == "I-POSITION3");
    reveal_strlit("I-POSITION3");
    reveal_strlit("I-SELECTORS4");
    assert("I-POSITION3"@.take(2) =~= "I-SELECTORS4"@.take(2));
    assert(sorts_before_at("I-POSITION3"@, "I-SELECTORS4"@, 2));
    assert(source_order(8) == 47 && source_id_literal(47) == "I-SELECTORS4");
    reveal_strlit("I-SELECTORS4");
    reveal_strlit("I-SIZING3");
    assert("I-SELECTORS4"@.take(3) =~= "I-SIZING3"@.take(3));
    assert(sorts_before_at("I-SELECTORS4"@, "I-SIZING3"@, 3));
    assert(source_order(9) == 41 && source_id_literal(41) == "I-SIZING3");
    reveal_strlit("I-SIZING3");
    reveal_strlit("I-TRANSFORMS2");
    assert("I-SIZING3"@.take(2) =~= "I-TRANSFORMS2"@.take(2));
    assert(sorts_before_at("I-SIZING3"@, "I-TRANSFORMS2"@, 2));
    assert(source_order(10) == 42 && source_id_literal(42) == "I-TRANSFORMS2");
    reveal_strlit("I-TRANSFORMS2");
    reveal_strlit("I-TRANSITIONS1");
    assert("I-TRANSFORMS2"@.take(7) =~= "I-TRANSITIONS1"@.take(7));
    assert(sorts_before_at("I-TRANSFORMS2"@, "I-TRANSITIONS1"@, 7));
    assert(source_order(11) == 38 && source_id_literal(38) == "I-TRANSITIONS1");
    reveal_strlit("I-TRANSITIONS1");
    reveal_strlit("I01-BASE-QUERIES");
    assert("I-TRANSITIONS1"@.take(1) =~= "I01-BASE-QUERIES"@.take(1));
    assert(sorts_before_at("I-TRANSITIONS1"@, "I01-BASE-QUERIES"@, 1));
    assert(source_order(12) == 67 && source_id_literal(67) == "I01-BASE-QUERIES");
    reveal_strlit("I01-BASE-QUERIES");
    reveal_strlit("I01-BASE-SELECTORS");
    assert("I01-BASE-QUERIES"@.take(9) =~= "I01-BASE-SELECTORS"@.take(9));
    assert(sorts_before_at("I01-BASE-QUERIES"@, "I01-BASE-SELECTORS"@, 9));
    assert(source_order(13) == 66 && source_id_literal(66) == "I01-BASE-SELECTORS");
    reveal_strlit("I01-BASE-SELECTORS");
    reveal_strlit("O-BACKGROUNDS3");
    assert("I01-BASE-SELECTORS"@.take(0) =~= "O-BACKGROUNDS3"@.take(0));
    assert(sorts_before_at("I01-BASE-SELECTORS"@, "O-BACKGROUNDS3"@, 0));
    assert(source_order(14) == 12 && source_id_literal(12) == "O-BACKGROUNDS3");
    reveal_strlit("O-BACKGROUNDS3");
    reveal_strlit("O-BOX3");
    assert("O-BACKGROUNDS3"@.take(3) =~= "O-BOX3"@.take(3));
    assert(sorts_before_at("O-BACKGROUNDS3"@, "O-BOX3"@, 3));
    assert(source_order(15) == 10 && source_id_literal(10) == "O-BOX3");
    reveal_strlit("O-BOX3");
    reveal_strlit("O-CASCADE4");
    assert("O-BOX3"@.take(2) =~= "O-CASCADE4"@.take(2));
    assert(sorts_before_at("O-BOX3"@, "O-CASCADE4"@, 2));
    assert(source_order(16) == 7 && source_id_literal(7) == "O-CASCADE4");
    reveal_strlit("O-CASCADE4");
    reveal_strlit("O-COLOR4");
    assert("O-CASCADE4"@.take(3) =~= "O-COLOR4"@.take(3));
    assert(sorts_before_at("O-CASCADE4"@, "O-COLOR4"@, 3));
    assert(source_order(17) == 11 && source_id_literal(11) == "O-COLOR4");
    reveal_strlit("O-COLOR4");
    reveal_strlit("O-COMPOSITING1");
    assert("O-COLOR4"@.take(4) =~= "O-COMPOSITING1"@.take(4));
    assert(sorts_before_at("O-COLOR4"@, "O-COMPOSITING1"@, 4));
    assert(source_order(18) == 21 && source_id_literal(21) == "O-COMPOSITING1");
    reveal_strlit("O-COMPOSITING1");
    reveal_strlit("O-CONDITIONAL3");
    assert("O-COMPOSITING1"@.take(4) =~= "O-CONDITIONAL3"@.take(4));
    assert(sorts_before_at("O-COMPOSITING1"@, "O-CONDITIONAL3"@, 4));
    assert(source_order(19) == 4 && source_id_literal(4) == "O-CONDITIONAL3");
    reveal_strlit("O-CONDITIONAL3");
    reveal_strlit("O-CONTAIN1");
    assert("O-CONDITIONAL3"@.take(5) =~= "O-CONTAIN1"@.take(5));
    assert(sorts_before_at("O-CONDITIONAL3"@, "O-CONTAIN1"@, 5));
    assert(source_order(20) == 19 && source_id_literal(19) == "O-CONTAIN1");
    reveal_strlit("O-CONTAIN1");
    reveal_strlit("O-COUNTERSTYLES3");
    assert("O-CONTAIN1"@.take(4) =~= "O-COUNTERSTYLES3"@.take(4));
    assert(sorts_before_at("O-CONTAIN1"@, "O-COUNTERSTYLES3"@, 4));
    assert(source_order(21) == 23 && source_id_literal(23) == "O-COUNTERSTYLES3");
    reveal_strlit("O-COUNTERSTYLES3");
    reveal_strlit("O-CSS2");
    assert("O-COUNTERSTYLES3"@.take(3) =~= "O-CSS2"@.take(3));
    assert(sorts_before_at("O-COUNTERSTYLES3"@, "O-CSS2"@, 3));
    assert(source_order(22) == 0 && source_id_literal(0) == "O-CSS2");
    reveal_strlit("O-CSS2");
    reveal_strlit("O-EASING1");
    assert("O-CSS2"@.take(2) =~= "O-EASING1"@.take(2));
    assert(sorts_before_at("O-CSS2"@, "O-EASING1"@, 2));
    assert(source_order(23) == 22 && source_id_literal(22) == "O-EASING1");
    reveal_strlit("O-EASING1");
    reveal_strlit("O-FLEXBOX1");
    assert("O-EASING1"@.take(2) =~= "O-FLEXBOX1"@.take(2));
    assert(sorts_before_at("O-EASING1"@, "O-FLEXBOX1"@, 2));
    assert(source_order(24) == 17 && source_id_literal(17) == "O-FLEXBOX1");
    reveal_strlit("O-FLEXBOX1");
    reveal_strlit("O-FONTS3");
    assert("O-FLEXBOX1"@.take(3) =~= "O-FONTS3"@.take(3));
    assert(sorts_before_at("O-FLEXBOX1"@, "O-FONTS3"@, 3));
    assert(source_order(25) == 14 && source_id_literal(14) == "O-FONTS3");
    reveal_strlit("O-FONTS3");
    reveal_strlit("O-IMAGES3");
    assert("O-FONTS3"@.take(2) =~= "O-IMAGES3"@.take(2));
    assert(sorts_before_at("O-FONTS3"@, "O-IMAGES3"@, 2));
    assert(source_order(26) == 13 && source_id_literal(13) == "O-IMAGES3");
    reveal_strlit("O-IMAGES3");
    reveal_strlit("O-MEDIA3");
    assert("O-IMAGES3"@.take(2) =~= "O-MEDIA3"@.take(2));
    assert(sorts_before_at("O-IMAGES3"@, "O-MEDIA3"@, 2));
    assert(source_order(27) == 3 && source_id_literal(3) == "O-MEDIA3");
    reveal_strlit("O-MEDIA3");
    reveal_strlit("O-MULTICOL1");
    assert("O-MEDIA3"@.take(3) =~= "O-MULTICOL1"@.take(3));
    assert(sorts_before_at("O-MEDIA3"@, "O-MULTICOL1"@, 3));
    assert(source_order(28) == 16 && source_id_literal(16) == "O-MULTICOL1");
    reveal_strlit("O-MULTICOL1");
    reveal_strlit("O-NAMESPACES3");
    assert("O-MULTICOL1"@.take(2) =~= "O-NAMESPACES3"@.take(2));
    assert(sorts_before_at("O-MULTICOL1"@, "O-NAMESPACES3"@, 2));
    assert(source_order(29) == 6 && source_id_literal(6) == "O-NAMESPACES3");
    reveal_strlit("O-NAMESPACES3");
    reveal_strlit("O-SELECTORS3");
    assert("O-NAMESPACES3"@.take(2) =~= "O-SELECTORS3"@.take(2));
    assert(sorts_before_at("O-NAMESPACES3"@, "O-SELECTORS3"@, 2));
    assert(source_order(30) == 5 && source_id_literal(5) == "O-SELECTORS3");
    reveal_strlit("O-SELECTORS3");
    reveal_strlit("O-STYLE-ATTR");
    assert("O-SELECTORS3"@.take(3) =~= "O-STYLE-ATTR"@.take(3));
    assert(sorts_before_at("O-SELECTORS3"@, "O-STYLE-ATTR"@, 3));
    assert(source_order(31) == 2 && source_id_literal(2) == "O-STYLE-ATTR");
    reveal_strlit("O-STYLE-ATTR");
    reveal_strlit("O-SYNTAX3");
    assert("O-STYLE-ATTR"@.take(3) =~= "O-SYNTAX3"@.take(3));
    assert(sorts_before_at("O-STYLE-ATTR"@, "O-SYNTAX3"@, 3));
    assert(source_order(32) == 1 && source_id_literal(1) == "O-SYNTAX3");
    reveal_strlit("O-SYNTAX3");
    reveal_strlit("O-TRANSFORMS1");
    assert("O-SYNTAX3"@.take(2) =~= "O-TRANSFORMS1"@.take(2));
    assert(sorts_before_at("O-SYNTAX3"@, "O-TRANSFORMS1"@, 2));
    assert(source_order(33) == 20 && source_id_literal(20) == "O-TRANSFORMS1");
    reveal_strlit("O-TRANSFORMS1");
    reveal_strlit("O-UI3");
    assert("O-TRANSFORMS1"@.take(2) =~= "O-UI3"@.take(2));
    assert(sorts_before_at("O-TRANSFORMS1"@, "O-UI3"@, 2));
    assert(source_order(34) == 18 && source_id_literal(18) == "O-UI3");
    reveal_strlit("O-UI3");
    reveal_strlit("O-VALUES3");
    assert("O-UI3"@.take(2) =~= "O-VALUES3"@.take(2));
    assert(sorts_before_at("O-UI3"@, "O-VALUES3"@, 2));
    assert(source_order(35) == 8 && source_id_literal(8) == "O-VALUES3");
    reveal_strlit("O-VALUES3");
    reveal_strlit("O-VARIABLES1");
    assert("O-VALUES3"@.take(4) =~= "O-VARIABLES1"@.take(4));
    assert(sorts_before_at("O-VALUES3"@, "O-VARIABLES1"@, 4));
    assert(source_order(36) == 9 && source_id_literal(9) == "O-VARIABLES1");
    reveal_strlit("O-VARIABLES1");
    reveal_strlit("O-WRITING3");
    assert("O-VARIABLES1"@.take(2) =~= "O-WRITING3"@.take(2));
    assert(sorts_before_at("O-VARIABLES1"@, "O-WRITING3"@, 2));
    assert(source_order(37) == 15 && source_id_literal(15) == "O-WRITING3");
    reveal_strlit("O-WRITING3");
    reveal_strlit("R-CASCADE5");
    assert("O-WRITING3"@.take(0) =~= "R-CASCADE5"@.take(0));
    assert(sorts_before_at("O-WRITING3"@, "R-CASCADE5"@, 0));
    assert(source_order(38) == 28 && source_id_literal(28) == "R-CASCADE5");
    reveal_strlit("R-CASCADE5");
    reveal_strlit("R-CONDITIONAL4");
    assert("R-CASCADE5"@.take(3) =~= "R-CONDITIONAL4"@.take(3));
    assert(sorts_before_at("R-CASCADE5"@, "R-CONDITIONAL4"@, 3));
    assert(source_order(39) == 29 && source_id_literal(29) == "R-CONDITIONAL4");
    reveal_strlit("R-CONDITIONAL4");
    reveal_strlit("R-GRID1");
    assert("R-CONDITIONAL4"@.take(2) =~= "R-GRID1"@.take(2));
    assert(sorts_before_at("R-CONDITIONAL4"@, "R-GRID1"@, 2));
    assert(source_order(40) == 26 && source_id_literal(26) == "R-GRID1");
    reveal_strlit("R-GRID1");
    reveal_strlit("R-GRID2");
    assert("R-GRID1"@.take(6) =~= "R-GRID2"@.take(6));
    assert(sorts_before_at("R-GRID1"@, "R-GRID2"@, 6));
    assert(source_order(41) == 27 && source_id_literal(27) == "R-GRID2");
    reveal_strlit("R-GRID2");
    reveal_strlit("R-MEDIA4");
    assert("R-GRID2"@.take(2) =~= "R-MEDIA4"@.take(2));
    assert(sorts_before_at("R-GRID2"@, "R-MEDIA4"@, 2));
    assert(source_order(42) == 24 && source_id_literal(24) == "R-MEDIA4");
    reveal_strlit("R-MEDIA4");
    reveal_strlit("R-SCROLLBARS1");
    assert("R-MEDIA4"@.take(2) =~= "R-SCROLLBARS1"@.take(2));
    assert(sorts_before_at("R-MEDIA4"@, "R-SCROLLBARS1"@, 2));
    assert(source_order(43) == 25 && source_id_literal(25) == "R-SCROLLBARS1");
    reveal_strlit("R-SCROLLBARS1");
    reveal_strlit("S-ALIGN3");
    assert("R-SCROLLBARS1"@.take(0) =~= "S-ALIGN3"@.take(0));
    assert(sorts_before_at("R-SCROLLBARS1"@, "S-ALIGN3"@, 0));
    assert(source_order(44) == 33 && source_id_literal(33) == "S-ALIGN3");
    reveal_strlit("S-ALIGN3");
    reveal_strlit("S-BREAK3");
    assert("S-ALIGN3"@.take(2) =~= "S-BREAK3"@.take(2));
    assert(sorts_before_at("S-ALIGN3"@, "S-BREAK3"@, 2));
    assert(source_order(45) == 32 && source_id_literal(32) == "S-BREAK3");
    reveal_strlit("S-BREAK3");
    reveal_strlit("S-DISPLAY3");
    assert("S-BREAK3"@.take(2) =~= "S-DISPLAY3"@.take(2));
    assert(sorts_before_at("S-BREAK3"@, "S-DISPLAY3"@, 2));
    assert(source_order(46) == 30 && source_id_literal(30) == "S-DISPLAY3");
    reveal_strlit("S-DISPLAY3");
    reveal_strlit("S-MASKING1");
    assert("S-DISPLAY3"@.take(2) =~= "S-MASKING1"@.take(2));
    assert(sorts_before_at("S-DISPLAY3"@, "S-MASKING1"@, 2));
    assert(source_order(47) == 37 && source_id_literal(37) == "S-MASKING1");
    reveal_strlit("S-MASKING1");
    reveal_strlit("S-SHAPES1");
    assert("S-MASKING1"@.take(2) =~= "S-SHAPES1"@.take(2));
    assert(sorts_before_at("S-MASKING1"@, "S-SHAPES1"@, 2));
    assert(source_order(48) == 34 && source_id_literal(34) == "S-SHAPES1");
    reveal_strlit("S-SHAPES1");
    reveal_strlit("S-TEXT3");
    assert("S-SHAPES1"@.take(2) =~= "S-TEXT3"@.take(2));
    assert(sorts_before_at("S-SHAPES1"@, "S-TEXT3"@, 2));
    assert(source_order(49) == 35 && source_id_literal(35) == "S-TEXT3");
    reveal_strlit("S-TEXT3");
    reveal_strlit("S-TEXTDECOR3");
    assert("S-TEXT3"@.take(6) =~= "S-TEXTDECOR3"@.take(6));
    assert(sorts_before_at("S-TEXT3"@, "S-TEXTDECOR3"@, 6));
    assert(source_order(50) == 36 && source_id_literal(36) == "S-TEXTDECOR3");
    reveal_strlit("S-TEXTDECOR3");
    reveal_strlit("S-WRITING4");
    assert("S-TEXTDECOR3"@.take(2) =~= "S-WRITING4"@.take(2));
    assert(sorts_before_at("S-TEXTDECOR3"@, "S-WRITING4"@, 2));
    assert(source_order(51) == 31 && source_id_literal(31) == "S-WRITING4");
    reveal_strlit("S-WRITING4");
    reveal_strlit("X-CASCADE6");
    assert("S-WRITING4"@.take(0) =~= "X-CASCADE6"@.take(0));
    assert(sorts_before_at("S-WRITING4"@, "X-CASCADE6"@, 0));
    assert(source_order(52) == 52 && source_id_literal(52) == "X-CASCADE6");
    reveal_strlit("X-CASCADE6");
    reveal_strlit("X-CONDITIONAL5");
    assert("X-CASCADE6"@.take(3) =~= "X-CONDITIONAL5"@.take(3));
    assert(sorts_before_at("X-CASCADE6"@, "X-CONDITIONAL5"@, 3));
    assert(source_order(53) == 51 && source_id_literal(51) == "X-CONDITIONAL5");
    reveal_strlit("X-CONDITIONAL5");
    reveal_strlit("X-CONTAIN3");
    assert("X-CONDITIONAL5"@.take(5) =~= "X-CONTAIN3"@.take(5));
    assert(sorts_before_at("X-CONDITIONAL5"@, "X-CONTAIN3"@, 5));
    assert(source_order(54) == 50 && source_id_literal(50) == "X-CONTAIN3");
    reveal_strlit("X-CONTAIN3");
    reveal_strlit("X-CONTENT3");
    assert("X-CONTAIN3"@.take(6) =~= "X-CONTENT3"@.take(6));
    assert(sorts_before_at("X-CONTAIN3"@, "X-CONTENT3"@, 6));
    assert(source_order(55) == 61 && source_id_literal(61) == "X-CONTENT3");
    reveal_strlit("X-CONTENT3");
    reveal_strlit("X-DISPLAY-MODE-BASE");
    assert("X-CONTENT3"@.take(2) =~= "X-DISPLAY-MODE-BASE"@.take(2));
    assert(sorts_before_at("X-CONTENT3"@, "X-DISPLAY-MODE-BASE"@, 2));
    assert(source_order(56) == 64 && source_id_literal(64) == "X-DISPLAY-MODE-BASE");
    reveal_strlit("X-DISPLAY-MODE-BASE");
    reveal_strlit("X-FILTER2-BASE");
    assert("X-DISPLAY-MODE-BASE"@.take(2) =~= "X-FILTER2-BASE"@.take(2));
    assert(sorts_before_at("X-DISPLAY-MODE-BASE"@, "X-FILTER2-BASE"@, 2));
    assert(source_order(57) == 63 && source_id_literal(63) == "X-FILTER2-BASE");
    reveal_strlit("X-FILTER2-BASE");
    reveal_strlit("X-FULLSCREEN");
    assert("X-FILTER2-BASE"@.take(3) =~= "X-FULLSCREEN"@.take(3));
    assert(sorts_before_at("X-FILTER2-BASE"@, "X-FULLSCREEN"@, 3));
    assert(source_order(58) == 62 && source_id_literal(62) == "X-FULLSCREEN");
    reveal_strlit("X-FULLSCREEN");
    reveal_strlit("X-GRID-TOLERANCE-BASE");
    assert("X-FULLSCREEN"@.take(2) =~= "X-GRID-TOLERANCE-BASE"@.take(2));
    assert(sorts_before_at("X-FULLSCREEN"@, "X-GRID-TOLERANCE-BASE"@, 2));
    assert(source_order(59) == 65 && source_id_literal(65) == "X-GRID-TOLERANCE-BASE");
    reveal_strlit("X-GRID-TOLERANCE-BASE");
    reveal_strlit("X-MEDIA5");
    assert("X-GRID-TOLERANCE-BASE"@.take(2) =~= "X-MEDIA5"@.take(2));
    assert(sorts_before_at("X-GRID-TOLERANCE-BASE"@, "X-MEDIA5"@, 2));
    assert(source_order(60) == 55 && source_id_literal(55) == "X-MEDIA5");
    reveal_strlit("X-MEDIA5");
    reveal_strlit("X-OVERFLOW3");
    assert("X-MEDIA5"@.take(2) =~= "X-OVERFLOW3"@.take(2));
    assert(sorts_before_at("X-MEDIA5"@, "X-OVERFLOW3"@, 2));
    assert(source_order(61) == 56 && source_id_literal(56) == "X-OVERFLOW3");
    reveal_strlit("X-OVERFLOW3");
    reveal_strlit("X-PSEUDO4");
    assert("X-OVERFLOW3"@.take(2) =~= "X-PSEUDO4"@.take(2));
    assert(sorts_before_at("X-OVERFLOW3"@, "X-PSEUDO4"@, 2));
    assert(source_order(62) == 53 && source_id_literal(53) == "X-PSEUDO4");
    reveal_strlit("X-PSEUDO4");
    reveal_strlit("X-SIZING4");
    assert("X-PSEUDO4"@.take(2) =~= "X-SIZING4"@.take(2));
    assert(sorts_before_at("X-PSEUDO4"@, "X-SIZING4"@, 2));
    assert(source_order(63) == 57 && source_id_literal(57) == "X-SIZING4");
    reveal_strlit("X-SIZING4");
    reveal_strlit("X-TEXT4");
    assert("X-SIZING4"@.take(2) =~= "X-TEXT4"@.take(2));
    assert(sorts_before_at("X-SIZING4"@, "X-TEXT4"@, 2));
    assert(source_order(64) == 58 && source_id_literal(58) == "X-TEXT4");
    reveal_strlit("X-TEXT4");
    reveal_strlit("X-TEXTDECOR4");
    assert("X-TEXT4"@.take(6) =~= "X-TEXTDECOR4"@.take(6));
    assert(sorts_before_at("X-TEXT4"@, "X-TEXTDECOR4"@, 6));
    assert(source_order(65) == 59 && source_id_literal(59) == "X-TEXTDECOR4");
    reveal_strlit("X-TEXTDECOR4");
    reveal_strlit("X-UI4");
    assert("X-TEXTDECOR4"@.take(2) =~= "X-UI4"@.take(2));
    assert(sorts_before_at("X-TEXTDECOR4"@, "X-UI4"@, 2));
    assert(source_order(66) == 60 && source_id_literal(60) == "X-UI4");
    assert(source_order(67) == 54 && source_id_literal(54) == "X-VALUES4");
    reveal_strlit("X-UI4");
    reveal_strlit("X-VALUES4");
    assert("X-UI4"@.take(2) =~= "X-VALUES4"@.take(2));
    assert(sorts_before_at("X-UI4"@, "X-VALUES4"@, 2));
}

/// The stable identity of every one of the specification sources is the one [`source_id_literal`] spells.
pub proof fn lemma_source_ids_spelled()
    ensures
        spec_specification_sources().len() == 68,
        forall|m: int| 0 <= m < 68 ==> #[trigger] spec_specification_sources()[m].spec_id()@ == source_id_literal(m)@,
{
    reveal(spec_specification_sources);
    sources::lemma_source_list_len();
    lemma_source_chunk_1_ids();
    let c = spec_specification_sources();
    assert forall|m: int| 0 <= m < 68 implies c[m] == sources::source_list()[m - 0] by {}
}

/// No two specification sources carry the same stable identity.
pub proof fn lemma_source_ids_unique()
    ensures
        forall|i: int, j: int|
            0 <= i < spec_specification_sources().len() && 0 <= j < spec_specification_sources().len() && i != j ==> (#[trigger] spec_specification_sources()[i]).spec_id()@
                != (#[trigger] spec_specification_sources()[j]).spec_id()@,
{
    lemma_source_ids_spelled();
    lemma_source_rank_1();
    lemma_source_sorted_1();
    let ids = Seq::new(68, |m: int| source_id_literal(m)@);
    let order = Seq::new(68, |k: int| source_order(k));
    let rank = Seq::new(68, |m: int| source_rank(m));
    assert forall|k: int| 0 <= k < order.len() - 1 implies sorts_before(ids[#[trigger] order[k]], ids[order[k + 1]]) by {
        assert(sorts_before(source_id_literal(source_order(k))@, source_id_literal(source_order(k + 1))@));
    }
    lemma_sorted_order_distinct(ids, order, rank);
    assert forall|i: int, j: int|
        0 <= i < spec_specification_sources().len() && 0 <= j < spec_specification_sources().len() && i != j implies (#[trigger] spec_specification_sources()[i]).spec_id()@
        != (#[trigger] spec_specification_sources()[j]).spec_id()@ by {
        assert(ids[i] != ids[j]);
    }
}

/// Looking up the identity of any of the specification sources finds that record and no other.
pub proof fn lemma_source_lookup_finds_record(i: int)
    requires
        0 <= i < spec_specification_sources().len(),
    ensures
        forall|k: int| 0 <= k < spec_specification_sources().len() && source_has_id(#[trigger] spec_specification_sources()[k], spec_specification_sources()[i].spec_id()@) ==> k == i,
        first_match(spec_specification_sources(), |r: CssSpecificationSource| source_has_id(r, spec_specification_sources()[i].spec_id()@)) == Some(spec_specification_sources()[i]),
{
    lemma_source_ids_unique();
    let wanted = |r: CssSpecificationSource| source_has_id(r, spec_specification_sources()[i].spec_id()@);
    assert(is_first_match(spec_specification_sources(), wanted, i));
    lemma_first_match_at(spec_specification_sources(), wanted, i);
}

} // verus!
