//! Reading a diagnostic against the authored source: which authored token it names and at which
//! byte it stands, found with the CSS tokenizer.
//!
//! The steps work on the diagnostic's detail and byte offset. Turning a byte offset into a line
//! and column is the job of the source-position conversion, which these steps do not perform.
use vstd::prelude::*;
use vstd::string::StringSliceAdditionalSpecFns;

use crate::diagnostics::{
    is_basic_error, production_for_at_rule, production_for_at_rule_of, reclassifies_rule_unit, rule_unit_error,
    unresolved_error, CssParseError, CssParseErrorKind,
};
use crate::text::str_eq;
use crate::error::{
    lemma_with_encountered_unchanged, at_rule_name, at_rule_name_of, encountered_mut, encountered_of, optional_encountered_mut,
    optional_encountered_of, with_encountered, with_optional_encountered, CssAtRuleName,
    CssAtRuleSyntaxError, CssTokenKind, CssTokenSummary, Error, ErrorKind,
};
use crate::source::{
    location_offset_in, position_in, saturating_step, starts_character, CssSourceLocation, CssSourcePosition,
};
use crate::tokens::{
    authored_at_rule_before, authored_at_rule_start, authored_at_rule_start_of, is_boundary_token,
    encoding_error_placement, is_bounded_end_token, is_encoding_error_placement, last_at_rule_before,
    CssEncodingErrorPlacement, lookbehind_end, next_authored_token_at,
    next_authored_token_at_of, previous_authored_token_before, previous_authored_token_of,
};

verus! {

broadcast use {
    CssSourcePosition::lemma_spec_new_parts,
    vstd::utf8::encode_utf8_decode_utf8,
    vstd::utf8::encode_utf8_valid_utf8,
    vstd::utf8::is_char_boundary_iff_not_is_continuation_byte,
    vstd::utf8::is_char_boundary_start_end_of_seq,
};

/// The position of byte `offset`, as the token lookups read it.
pub open spec fn at_offset(offset: usize) -> CssSourcePosition {
    CssSourcePosition::spec_new(offset, 0, 0)
}

/// Whether the summary is of a token of this kind and authored spelling.
pub open spec fn summary_is(summary: CssTokenSummary, kind: CssTokenKind, authored: Seq<char>) -> bool {
    summary.spec_kind() == kind && summary.spec_authored() == authored
}

/// Whether `after` and `after_offset` are the detail and byte after naming the authored token at
/// the diagnostic's byte: a retained token of the same kind takes the authored spelling, and a
/// missing optional token becomes the authored token unless that token ends a bounded
/// construct; the diagnostic then moves to the token.
pub open spec fn names_next_token(
    kind: ErrorKind,
    offset: usize,
    source: &str,
    after: ErrorKind,
    after_offset: usize,
) -> bool {
    match next_authored_token_at_of(source, at_offset(offset)) {
        Some((start, token_kind, authored)) => match encountered_of(kind) {
            Some(token) => if token.spec_kind() == token_kind {
                &&& after_offset == start
                &&& exists|summary: CssTokenSummary| #[trigger] summary_is(summary, token_kind, authored)
                    && after == with_encountered(kind, summary)
            } else {
                after == kind && after_offset == offset
            },
            None => if optional_encountered_of(kind) is Some && !is_bounded_end_token(token_kind) {
                &&& after_offset == start
                &&& exists|summary: CssTokenSummary| #[trigger] summary_is(summary, token_kind, authored)
                    && after == with_optional_encountered(kind, Some(summary))
            } else {
                after == kind && after_offset == offset
            },
        },
        None => after == kind && after_offset == offset,
    }
}

/// Names the authored token at the diagnostic's byte; see [`names_next_token`].
pub fn name_next_token(kind: ErrorKind, offset: usize, source: &str) -> (named: (ErrorKind, usize))
    ensures
        names_next_token(kind, offset, source, named.0, named.1),
        named.1 == offset || vstd::utf8::is_char_boundary(source.spec_bytes(), named.1 as int),
{
    let mut kind = kind;
    proof {
        lemma_with_encountered_unchanged(kind);
    }
    match next_authored_token_at(source, CssSourcePosition::new(offset, 0, 0)) {
        Some((start, summary)) => {
            proof {
                assert(summary_is(summary, summary.spec_kind(), summary.spec_authored()));
            }
            let has_token = match encountered_mut(&mut kind) {
                Some(token) => {
                    if token.kind() == summary.kind() {
                        *token = summary;
                        return (kind, start);
                    }
                    true
                },
                None => false,
            };
            if has_token {
                return (kind, offset);
            }
            if !is_bounded_end_token(summary.kind()) {
                if let Some(slot) = optional_encountered_mut(&mut kind) {
                    *slot = Some(summary);
                    return (kind, start);
                }
            }
            (kind, offset)
        },
        None => (kind, offset),
    }
}

/// Whether `after` and `after_offset` are the detail and byte after filling a missing optional
/// token from the authored token just before the diagnostic (encoding declarations aside), unless
/// that token bounds a component; the diagnostic then moves to that token.
pub open spec fn names_previous_token(
    kind: ErrorKind,
    offset: usize,
    source: &str,
    after: ErrorKind,
    after_offset: usize,
) -> bool {
    if !(kind is InvalidEncodingDeclaration) && optional_encountered_of(kind) == Some(None::<CssTokenSummary>) {
        match previous_authored_token_of(source, at_offset(offset)) {
            Some((start, token_kind, authored)) => if !is_boundary_token(token_kind) {
                &&& after_offset == start
                &&& exists|summary: CssTokenSummary| #[trigger] summary_is(summary, token_kind, authored)
                    && after == with_optional_encountered(kind, Some(summary))
            } else {
                after == kind && after_offset == offset
            },
            None => after == kind && after_offset == offset,
        }
    } else {
        after == kind && after_offset == offset
    }
}

/// Fills a missing optional token from the authored token before the diagnostic; see
/// [`names_previous_token`].
pub fn name_previous_token(kind: ErrorKind, offset: usize, source: &str) -> (named: (ErrorKind, usize))
    requires
        readable_at(source, offset),
    ensures
        names_previous_token(kind, offset, source, named.0, named.1),
        named.1 == offset || vstd::utf8::is_char_boundary(source.spec_bytes(), named.1 as int),
{
    let mut kind = kind;
    if let ErrorKind::InvalidEncodingDeclaration(_) = &kind {
        return (kind, offset);
    }
    let position = CssSourcePosition::new(offset, 0, 0);
    proof {
        lemma_with_encountered_unchanged(kind);
    }
    let empty = match optional_encountered_mut(&mut kind) {
        Some(slot) => slot.is_none(),
        None => false,
    };
    if !empty {
        return (kind, offset);
    }
    match previous_authored_token_before(source, position) {
        Some((start, summary)) => {
            proof {
                assert(summary_is(summary, summary.spec_kind(), summary.spec_authored()));
            }
            if is_boundary_token(summary.kind()) {
                return (kind, offset);
            }
            if let Some(slot) = optional_encountered_mut(&mut kind) {
                *slot = Some(summary);
            }
            (kind, start)
        },
        None => (kind, offset),
    }
}

/// Whether `after_offset` is the byte a diagnostic that names an at-rule moves to: the start of
/// the at-rule the diagnostic lies in when that at-rule has the named name (ignoring ASCII case).
pub open spec fn places_at_at_rule(kind: ErrorKind, offset: usize, source: &str, after_offset: usize) -> bool {
    match at_rule_name_of(kind) {
        Some(name) => match authored_at_rule_start_of(source, at_offset(offset), name@) {
            Some(start) => after_offset == start,
            None => after_offset == offset,
        },
        None => after_offset == offset,
    }
}

/// Moves a diagnostic that names an at-rule to the start of that at-rule; see
/// [`places_at_at_rule`].
pub fn place_at_at_rule(kind: &ErrorKind, offset: usize, source: &str) -> (placed: usize)
    requires
        readable_at(source, offset),
    ensures
        places_at_at_rule(*kind, offset, source, placed),
        placed == offset || vstd::utf8::is_char_boundary(source.spec_bytes(), placed as int),
{
    match at_rule_name(kind) {
        Some(name) => match authored_at_rule_start(source, CssSourcePosition::new(offset, 0, 0), name.as_str()) {
            Some(start) => start,
            None => offset,
        },
        None => offset,
    }
}

/// Whether `after` is the detail of an invalid at-rule body reported under the placeholder name
/// `at-rule` once the at-rule the diagnostic lies in is found: that at-rule's name and
/// production replace the placeholder.
pub open spec fn names_at_rule_body(kind: ErrorKind, offset: usize, source: &str, after: ErrorKind) -> bool {
    match kind {
        ErrorKind::InvalidAtRuleBody(detail) => if detail.spec_name()@ == "at-rule"@ {
            match last_at_rule_before(source, lookbehind_end(source, at_offset(offset))) {
                Some((_, name)) => exists|renamed: CssAtRuleName| #[trigger] renamed@ == name && after
                    == ErrorKind::InvalidAtRuleBody(
                    CssAtRuleSyntaxError::spec_new(
                        renamed,
                        production_for_at_rule_of(name),
                        detail.spec_expectation(),
                        detail.spec_encountered(),
                    ),
                ),
                None => after == kind,
            }
        } else {
            after == kind
        },
        _ => after == kind,
    }
}

/// Names the at-rule whose body a placeholder diagnostic reports; see [`names_at_rule_body`].
pub fn name_at_rule_body(kind: ErrorKind, offset: usize, source: &str) -> (named: ErrorKind)
    requires
        readable_at(source, offset),
    ensures
        names_at_rule_body(kind, offset, source, named),
{
    proof {
        reveal_strlit("at-rule");
    }
    match kind {
        ErrorKind::InvalidAtRuleBody(detail) => {
            if str_eq(detail.name().as_str(), "at-rule") {
                match authored_at_rule_before(source, CssSourcePosition::new(offset, 0, 0)) {
                    Some((_, name)) => {
                        let production = production_for_at_rule(name.as_str());
                        let renamed = CssAtRuleName::from_string(name);
                        ErrorKind::InvalidAtRuleBody(detail.renamed(renamed, production))
                    },
                    None => ErrorKind::InvalidAtRuleBody(detail),
                }
            } else {
                ErrorKind::InvalidAtRuleBody(detail)
            }
        },
        other => other,
    }
}

/// Whether a boundary at `offset` lets the lookups read behind it.
pub open spec fn readable_at(source: &str, offset: usize) -> bool {
    vstd::utf8::is_char_boundary(source.spec_bytes(), lookbehind_end(source, at_offset(offset)))
}

proof fn lemma_readable_after_move(source: &str, offset: usize, moved: usize)
    requires
        readable_at(source, offset),
        moved == offset || vstd::utf8::is_char_boundary(source.spec_bytes(), moved as int),
    ensures
        readable_at(source, moved),
{
    vstd::utf8::is_char_boundary_start_end_of_seq(source.spec_bytes());
}

/// Whether `resolved` is the detail and byte of a diagnostic with detail `kind` at byte `offset`
/// once read against the source: it names the authored token at its byte, fills a missing token
/// from the authored token before it, moves to the start of the at-rule it names, and names the
/// at-rule whose body a placeholder reports, in that order.
pub open spec fn resolves_detail(kind: ErrorKind, offset: usize, source: &str, resolved: (ErrorKind, usize)) -> bool {
    exists|first: (ErrorKind, usize), second: (ErrorKind, usize), placed: usize|
        #![trigger names_next_token(kind, offset, source, first.0, first.1), names_previous_token(first.0, first.1, source, second.0, second.1), places_at_at_rule(second.0, second.1, source, placed)]
        {
            &&& names_next_token(kind, offset, source, first.0, first.1)
            &&& names_previous_token(first.0, first.1, source, second.0, second.1)
            &&& places_at_at_rule(second.0, second.1, source, placed)
            &&& names_at_rule_body(second.0, placed, source, resolved.0)
            &&& resolved.1 == placed
        }
}

/// Reads a diagnostic's detail and byte offset against the source; see [`resolves_detail`].
pub fn resolve_detail_against_source(kind: ErrorKind, offset: usize, source: &str) -> (resolved: (ErrorKind, usize))
    requires
        readable_at(source, offset),
    ensures
        resolves_detail(kind, offset, source, resolved),
        resolved.1 == offset || vstd::utf8::is_char_boundary(source.spec_bytes(), resolved.1 as int),
{
    let first = name_next_token(kind, offset, source);
    proof {
        lemma_readable_after_move(source, offset, first.1);
    }
    let second = name_previous_token(first.0, first.1, source);
    proof {
        lemma_readable_after_move(source, first.1, second.1);
    }
    let placed = place_at_at_rule(&second.0, second.1, source);
    proof {
        lemma_readable_after_move(source, second.1, placed);
    }
    let ghost second_copy = second;
    let named = name_at_rule_body(second.0, placed, source);
    proof {
        assert(names_next_token(kind, offset, source, first.0, first.1));
        assert(names_previous_token(first.0, first.1, source, second_copy.0, second_copy.1));
        assert(places_at_at_rule(second_copy.0, second_copy.1, source, placed));
    }
    (named, placed)
}

/// The byte at which reading a diagnostic against the source starts: its own byte offset when it
/// has one, else the byte that its line and column name.
pub open spec fn resolution_start(error: Error, source: &str) -> int {
    let position = error.spec_position();
    if position.spec_byte_offset() != 0 {
        position.spec_byte_offset() as int
    } else {
        location_offset_in(
            source,
            CssSourceLocation { line: position.spec_line(), column: saturating_step(position.spec_column(), 1) },
        )
    }
}

/// Whether `resolved` is the diagnostic `error` read against the source: its detail and byte are
/// read from the byte it starts at (see [`resolves_detail`]), and it stands at the line and
/// column of the byte it ends at.
pub open spec fn resolved_against(error: Error, source: &str, resolved: Error) -> bool {
    exists|detail: (ErrorKind, usize)|
        #[trigger] resolves_detail(error.spec_kind(), resolution_start(error, source) as usize, source, detail)
            && resolved == Error::spec_new(detail.0, position_in(source, detail.1))
}

proof fn lemma_boundary_within(bytes: Seq<u8>, index: int)
    requires
        vstd::utf8::valid_utf8(bytes),
        vstd::utf8::is_char_boundary(bytes, index),
    ensures
        0 <= index <= bytes.len(),
{
}

/// Returns the diagnostic `error` read against the source; see [`resolved_against`].
pub fn resolve_source(error: Error, source: &str) -> (resolved: Error)
    requires
        error.spec_position().spec_byte_offset() <= source.spec_bytes().len(),
        vstd::utf8::is_char_boundary(source.spec_bytes(), error.spec_position().spec_byte_offset() as int),
    ensures
        resolved_against(error, source, resolved),
{
    let source_length: usize = source.as_bytes().len();
    assert(source_length as int == source.spec_bytes().len());
    let (kind, position) = error.into_parts();
    let start = if position.byte_offset() != 0 {
        position.byte_offset()
    } else {
        let location = CssSourceLocation { line: position.line(), column: position.column().saturating_add(1) };
        let found = CssSourcePosition::from_source_location_in(source, location);
        proof {
            assert(location == CssSourceLocation {
                line: position.spec_line(),
                column: saturating_step(position.spec_column(), 1),
            });
            let bytes = source.spec_bytes();
            let offset = location_offset_in(source, location);
            assert(vstd::utf8::valid_utf8(bytes));
            if offset < bytes.len() {
                assert(vstd::utf8::is_continuation_byte(bytes[offset]) == crate::source::is_continuation(bytes[offset]));
                vstd::utf8::is_char_boundary_iff_not_is_continuation_byte(bytes, offset);
            } else {
                vstd::utf8::is_char_boundary_start_end_of_seq(bytes);
            }
            crate::source::lemma_position_in_offset(source, offset as usize);
            assert(found.spec_byte_offset() as int == offset);
        }
        found.byte_offset()
    };
    proof {
        assert(position == error.spec_position());
        if position.spec_byte_offset() == 0 {
            let location = CssSourceLocation { line: position.spec_line(), column: saturating_step(position.spec_column(), 1) };
            assert(start as int == location_offset_in(source, location));
        }
        assert(start as int == resolution_start(error, source));
    }
    let detail = resolve_detail_against_source(kind, start, source);
    proof {
        lemma_boundary_within(source.spec_bytes(), detail.1 as int);
    }
    let ghost detail_copy = detail;
    let resolved = Error::from_parts(detail.0, CssSourcePosition::from_byte_offset_in(source, detail.1));
    proof {
        assert(resolves_detail(error.spec_kind(), resolution_start(error, source) as usize, source, detail_copy));
    }
    resolved
}

/// Whether `normalized` is the encoding-declaration diagnostic `error` of the failed unit
/// spanning bytes `unit_start..unit_end` reported where [`is_encoding_error_placement`] places
/// it: unchanged, or at the line and column of its new byte, naming the authored token found
/// there when the placement names one.
pub open spec fn normalizes_encoding_error(
    source: &str,
    unit_start: int,
    unit_end: int,
    failed_unit: Seq<char>,
    error: Error,
    normalized: Error,
) -> bool {
    exists|placement: CssEncodingErrorPlacement|
        #[trigger] is_encoding_error_placement(placement, source, unit_start, unit_end, failed_unit, error)
            && normalized == match placement {
            CssEncodingErrorPlacement::Unchanged => error,
            CssEncodingErrorPlacement::AtToken(at, summary) => Error::spec_new(
                with_optional_encountered(error.spec_kind(), Some(summary)),
                position_in(source, at),
            ),
            CssEncodingErrorPlacement::AtOffset(at) => Error::spec_new(error.spec_kind(), position_in(source, at)),
        }
}

/// Reports the encoding-declaration diagnostic `error` of the failed unit spanning bytes
/// `unit_start..unit_end` of the source where it belongs; see [`normalizes_encoding_error`].
pub fn normalize_encoding_error(
    source: &str,
    unit_start: usize,
    unit_end: usize,
    failed_unit: &str,
    error: Error,
) -> (normalized: Error)
    requires
        unit_start <= unit_end <= source.spec_bytes().len(),
        vstd::utf8::is_char_boundary(source.spec_bytes(), unit_start as int),
        vstd::utf8::is_char_boundary(source.spec_bytes(), unit_end as int),
        vstd::utf8::is_char_boundary(source.spec_bytes(), lookbehind_end(source, error.spec_position())),
    ensures
        normalizes_encoding_error(source, unit_start as int, unit_end as int, failed_unit@, error, normalized),
{
    let placement = encoding_error_placement(source, unit_start, unit_end, failed_unit, &error);
    let ghost chosen = placement;
    let ghost original = error;
    match placement {
        CssEncodingErrorPlacement::Unchanged => error,
        CssEncodingErrorPlacement::AtToken(at, summary) => {
            let (kind, _) = error.into_parts();
            let mut kind = kind;
            if let Some(slot) = optional_encountered_mut(&mut kind) {
                *slot = Some(summary);
            }
            let normalized = Error::from_parts(kind, CssSourcePosition::from_byte_offset_in(source, at));
            proof {
                assert(is_encoding_error_placement(chosen, source, unit_start as int, unit_end as int, failed_unit@, original));
            }
            normalized
        },
        CssEncodingErrorPlacement::AtOffset(at) => {
            let (kind, _) = error.into_parts();
            let normalized = Error::from_parts(kind, CssSourcePosition::from_byte_offset_in(source, at));
            proof {
                assert(is_encoding_error_placement(chosen, source, unit_start as int, unit_end as int, failed_unit@, original));
            }
            normalized
        },
    }
}

/// Whether the parse failure can be read against the source: a diagnostic it carries stands at
/// a character start of the source (a tokenizer-level failure carries no byte offset).
pub open spec fn readable_parse_error(source: &str, error: CssParseError) -> bool {
    match error.kind {
        CssParseErrorKind::Custom(e) => e.spec_position().spec_byte_offset() <= source.spec_bytes().len()
            && vstd::utf8::is_char_boundary(source.spec_bytes(), e.spec_position().spec_byte_offset() as int),
        CssParseErrorKind::Basic(_) => true,
    }
}

/// Whether `unresolved` is the diagnostic that the parse failure carries before it is read
/// against the source: a custom diagnostic as it is, a tokenizer-level failure as
/// [`is_basic_error`] describes it.
pub open spec fn carries_diagnostic(error: CssParseError, unresolved: Error) -> bool {
    match error.kind {
        CssParseErrorKind::Custom(e) => unresolved == e,
        CssParseErrorKind::Basic(kind) => is_basic_error(unresolved, error.location, kind),
    }
}

/// Returns the diagnostic of a parse failure read against the source: the diagnostic it carries
/// (see [`carries_diagnostic`]), resolved as [`resolved_against`] says.
pub fn from_parse_error(source: &str, error: CssParseError) -> (diagnostic: Error)
    requires
        readable_parse_error(source, error),
    ensures
        exists|unresolved: Error| #[trigger] carries_diagnostic(error, unresolved)
            && resolved_against(unresolved, source, diagnostic),
{
    let ghost failure = error;
    let unresolved = unresolved_error(error);
    proof {
        assert(carries_diagnostic(failure, unresolved));
    }
    resolve_source(unresolved, source)
}

/// Returns the diagnostic of a parse failure in the failed rule unit `failed_unit`: the failure
/// read against the source by [`from_parse_error`], then reclassified by the unit's shape as
/// [`reclassifies_rule_unit`] says.
pub fn from_rule_parse_error(source: &str, failed_unit: &str, error: CssParseError) -> (diagnostic: Error)
    requires
        readable_parse_error(source, error),
    ensures
        exists|unresolved: Error, resolved: Error|
            #![trigger carries_diagnostic(error, unresolved), resolved_against(unresolved, source, resolved)]
            carries_diagnostic(error, unresolved) && resolved_against(unresolved, source, resolved)
                && reclassifies_rule_unit(failed_unit@, resolved, diagnostic),
{
    let resolved = from_parse_error(source, error);
    rule_unit_error(failed_unit, resolved)
}

} // verus!
