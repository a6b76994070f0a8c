//! Authored tokens around a diagnostic position: token-kind classes and the at-rule an error
//! position belongs to, found with the CSS tokenizer.
use vstd::prelude::*;
use vstd::string::StringSliceAdditionalSpecFns;
use cssparser::Token;
use crate::error::CssTokenKind as K;

use crate::diagnostics::{encoding_error_offset, encoding_error_offset_of};
use crate::error::{CssTokenKind, CssTokenSummary, Error, ErrorKind};
use crate::source::CssSourcePosition;
use crate::text::{chars_ascii_case_eq, eq_ignore_ascii_case};

verus! {

broadcast use {
    vstd::utf8::encode_utf8_decode_utf8,
    vstd::utf8::encode_utf8_valid_utf8,
    vstd::utf8::is_char_boundary_iff_not_is_continuation_byte,
};

/// Returns whether a token kind ends a bounded construct: `;` or a closing bracket.
#[verifier::allow_in_spec]
pub fn is_bounded_end_token(kind: CssTokenKind) -> bool
    returns
        matches!(
            kind,
            CssTokenKind::Semicolon | CssTokenKind::CloseParenthesis | CssTokenKind::CloseSquareBracket
                | CssTokenKind::CloseCurlyBracket
        ),
{
    match kind {
        CssTokenKind::Semicolon | CssTokenKind::CloseParenthesis | CssTokenKind::CloseSquareBracket
        | CssTokenKind::CloseCurlyBracket => true,
        _ => false,
    }
}

/// Returns whether a token kind bounds a component: a bounded end, `:`, `,`, or an opening
/// bracket.
#[verifier::allow_in_spec]
pub fn is_boundary_token(kind: CssTokenKind) -> bool
    returns
        is_bounded_end_token(kind) || matches!(
            kind,
            CssTokenKind::Colon | CssTokenKind::Comma | CssTokenKind::ParenthesisBlock
                | CssTokenKind::SquareBracketBlock | CssTokenKind::CurlyBracketBlock
        ),
{
    is_bounded_end_token(kind) || match kind {
        CssTokenKind::Colon | CssTokenKind::Comma | CssTokenKind::ParenthesisBlock
        | CssTokenKind::SquareBracketBlock | CssTokenKind::CurlyBracketBlock => true,
        _ => false,
    }
}

/// The decoded name of the at-keyword token that `text` starts with, when its first token (with
/// whitespace and comments counted as tokens) is an at-keyword, as the CSS tokenizer reads it.
pub uninterp spec fn css_leading_at_keyword(text: Seq<char>) -> Option<Seq<char>>;

/// Reads the first token of `text` with `cssparser::Parser::next_including_whitespace_and_comments`
/// and returns the decoded name when the token is `Token::AtKeyword`.
///
/// The contract claims that the result is [`css_leading_at_keyword`] of the text, and that an
/// at-keyword is only read from text starting with `@` (the tokenizer reads one only from `@`
/// followed by the start of an identifier). What the decoded name is, escapes included, is left
/// to the name.
#[verifier::external_body]
fn leading_at_keyword(text: &str) -> (name: Option<String>)
    ensures
        match name {
            Some(n) => css_leading_at_keyword(text@) == Some(n@),
            None => css_leading_at_keyword(text@) is None,
        },
        name is Some ==> text@.len() > 0 && text@[0] == '@',
{
    let mut input = cssparser::ParserInput::new(text);
    let mut parser = cssparser::Parser::new(&mut input);
    match parser.next_including_whitespace_and_comments() {
        Ok(cssparser::Token::AtKeyword(name)) => Some(name.to_string()),
        _ => None,
    }
}

/// The at-keyword name that the source read from byte `start` begins with.
pub open spec fn at_keyword_at(source: &str, start: int) -> Option<Seq<char>> {
    css_leading_at_keyword(
        vstd::utf8::decode_utf8(source.spec_bytes().subrange(start, source.spec_bytes().len() as int)),
    )
}

/// The last `@` before byte `end` of the source that begins an at-keyword token, with the
/// keyword's decoded name.
pub open spec fn last_at_rule_before(source: &str, end: int) -> Option<(int, Seq<char>)>
    decreases end,
{
    if end <= 0 {
        None
    } else if source.spec_bytes()[end - 1] == 0x40 && at_keyword_at(source, end - 1) is Some {
        Some((end - 1, at_keyword_at(source, end - 1)->0))
    } else {
        last_at_rule_before(source, end - 1)
    }
}

/// The byte at which the authored-source lookbehind from a position stops: the position's
/// offset, or the end of the source when the offset lies beyond it.
pub open spec fn lookbehind_end(source: &str, position: CssSourcePosition) -> int {
    if position.spec_byte_offset() < source.spec_bytes().len() {
        position.spec_byte_offset() as int
    } else {
        source.spec_bytes().len() as int
    }
}

/// Returns the at-rule a diagnostic position lies in: the start byte and decoded name of the
/// last at-keyword token that begins before the position.
pub fn authored_at_rule_before(source: &str, position: CssSourcePosition) -> (found: Option<(usize, String)>)
    requires
        vstd::utf8::is_char_boundary(source.spec_bytes(), lookbehind_end(source, position)),
    ensures
        match found {
            Some((start, name)) => last_at_rule_before(source, lookbehind_end(source, position))
                == Some((start as int, name@)),
            None => last_at_rule_before(source, lookbehind_end(source, position)) is None,
        },
        found matches Some((start, _)) ==> vstd::utf8::is_char_boundary(source.spec_bytes(), start as int),
{
    let bytes = source.as_bytes();
    let offset = position.byte_offset();
    let end = if offset < bytes.len() { offset } else { bytes.len() };
    let ghost target = lookbehind_end(source, position);
    let mut i: usize = end;
    while i > 0
        invariant
            bytes@ == source.spec_bytes(),
            0 <= i <= end <= bytes@.len(),
            end == target,
            target == lookbehind_end(source, position),
            last_at_rule_before(source, target) == last_at_rule_before(source, i as int),
        decreases i,
    {
        let start = i - 1;
        if bytes[start] == 0x40 {
            proof {
                // An ASCII byte of valid UTF-8 starts a character.
                assert(!vstd::utf8::is_continuation_byte(bytes@[start as int]));
                vstd::utf8::is_char_boundary_iff_not_is_continuation_byte(bytes@, start as int);
            }
            let (_, tail) = source.split_at(start);
            proof {
                assert(tail@ == vstd::utf8::decode_utf8(tail.spec_bytes()));
            }
            if let Some(name) = leading_at_keyword(tail) {
                return Some((start, name));
            }
        }
        i = start;
    }
    None
}

/// The start of the at-rule a diagnostic position lies in, when its name is `expected_name`
/// ignoring ASCII case.
pub open spec fn authored_at_rule_start_of(source: &str, position: CssSourcePosition, expected_name: Seq<char>) -> Option<int> {
    match last_at_rule_before(source, lookbehind_end(source, position)) {
        Some((start, name)) => if chars_ascii_case_eq(name, expected_name) {
            Some(start)
        } else {
            None
        },
        None => None,
    }
}

/// Returns the start byte of the at-rule a diagnostic position lies in, when that at-rule's name
/// is `expected_name` ignoring ASCII case.
pub fn authored_at_rule_start(source: &str, position: CssSourcePosition, expected_name: &str) -> (start: Option<usize>)
    requires
        vstd::utf8::is_char_boundary(source.spec_bytes(), lookbehind_end(source, position)),
    ensures
        match start {
            Some(s) => authored_at_rule_start_of(source, position, expected_name@) == Some(s as int),
            None => authored_at_rule_start_of(source, position, expected_name@) is None,
        },
        start matches Some(s) ==> vstd::utf8::is_char_boundary(source.spec_bytes(), s as int),
{
    match authored_at_rule_before(source, position) {
        Some((start, name)) => {
            if eq_ignore_ascii_case(name.as_str(), expected_name) {
                Some(start)
            } else {
                None
            }
        },
        None => None,
    }
}

/// The first token of `text` (whitespace and comments count as tokens), as the CSS tokenizer
/// reads it: its kind and its length in UTF-8 bytes; `None` when the tokenizer reads no token.
pub uninterp spec fn css_first_token(text: Seq<char>) -> Option<(CssTokenKind, usize)>;

/// Which of four groups of token kinds a kind belongs to; each group is read by one wrapper.
pub open spec fn token_kind_group(kind: CssTokenKind) -> int {
    match kind {
        CssTokenKind::Ident | CssTokenKind::AtKeyword | CssTokenKind::Hash | CssTokenKind::IdHash | CssTokenKind::String | CssTokenKind::Url | CssTokenKind::Delim | CssTokenKind::Function => 1,
        CssTokenKind::Number | CssTokenKind::Percentage | CssTokenKind::Dimension | CssTokenKind::Whitespace | CssTokenKind::Comment | CssTokenKind::Colon | CssTokenKind::Semicolon | CssTokenKind::Comma => 2,
        CssTokenKind::IncludeMatch | CssTokenKind::DashMatch | CssTokenKind::PrefixMatch | CssTokenKind::SuffixMatch | CssTokenKind::SubstringMatch | CssTokenKind::Cdo | CssTokenKind::Cdc | CssTokenKind::BadUrl => 3,
        CssTokenKind::BadString | CssTokenKind::ParenthesisBlock | CssTokenKind::SquareBracketBlock | CssTokenKind::CurlyBracketBlock | CssTokenKind::CloseParenthesis | CssTokenKind::CloseSquareBracket | CssTokenKind::CloseCurlyBracket => 4,
    }
}

/// Reads the first token of `text` with `cssparser::Parser::next_including_whitespace_and_comments`
/// and returns its kind and the number of bytes the parser advanced over it when the token is one
/// of identifiers, at-keywords, hashes, strings, URLs, delimiters and functions; `None` otherwise.
///
/// The contract claims that a result is [`css_first_token`] of the text, that `None` means the
/// first token is none of these kinds, and that a token read spans at least one and at most all
/// of the text's bytes and ends on a character boundary (every token consumes input, the parser
/// stops at the end, and the tokenizer steps over whole characters).
#[verifier::external_body]
fn first_word_token(text: &str) -> (token: Option<(CssTokenKind, usize)>)
    ensures
        token matches Some((kind, length)) ==> css_first_token(text@) == Some((kind, length))
            && token_kind_group(kind) == 1 && 0 < length <= text.spec_bytes().len()
            && vstd::utf8::is_char_boundary(text.spec_bytes(), length as int),
        token is None ==> !(css_first_token(text@) matches Some((kind, _)) && token_kind_group(kind) == 1),
{
    let mut input = cssparser::ParserInput::new(text);
    let mut parser = cssparser::Parser::new(&mut input);
    let kind = match parser.next_including_whitespace_and_comments() {
        Ok(Token::Ident(_)) => K::Ident,
        Ok(Token::AtKeyword(_)) => K::AtKeyword,
        Ok(Token::Hash(_)) => K::Hash,
        Ok(Token::IDHash(_)) => K::IdHash,
        Ok(Token::QuotedString(_)) => K::String,
        Ok(Token::UnquotedUrl(_)) => K::Url,
        Ok(Token::Delim(_)) => K::Delim,
        Ok(Token::Function(_)) => K::Function,
        _ => return None,
    };
    Some((kind, parser.position().byte_index()))
}

/// Reads the first token of `text` with `cssparser::Parser::next_including_whitespace_and_comments`
/// and returns its kind and the number of bytes the parser advanced over it when the token is one
/// of numbers, percentages, dimensions, whitespace, comments, `:`, `;` and `,`; `None` otherwise.
///
/// The contract claims that a result is [`css_first_token`] of the text, that `None` means the
/// first token is none of these kinds, and that a token read spans at least one and at most all
/// of the text's bytes and ends on a character boundary (every token consumes input, the parser
/// stops at the end, and the tokenizer steps over whole characters).
#[verifier::external_body]
fn first_numeric_or_trivia_token(text: &str) -> (token: Option<(CssTokenKind, usize)>)
    ensures
        token matches Some((kind, length)) ==> css_first_token(text@) == Some((kind, length))
            && token_kind_group(kind) == 2 && 0 < length <= text.spec_bytes().len()
            && vstd::utf8::is_char_boundary(text.spec_bytes(), length as int),
        token is None ==> !(css_first_token(text@) matches Some((kind, _)) && token_kind_group(kind) == 2),
{
    let mut input = cssparser::ParserInput::new(text);
    let mut parser = cssparser::Parser::new(&mut input);
    let kind = match parser.next_including_whitespace_and_comments() {
        Ok(Token::Number { .. }) => K::Number,
        Ok(Token::Percentage { .. }) => K::Percentage,
        Ok(Token::Dimension { .. }) => K::Dimension,
        Ok(Token::WhiteSpace(_)) => K::Whitespace,
        Ok(Token::Comment(_)) => K::Comment,
        Ok(Token::Colon) => K::Colon,
        Ok(Token::Semicolon) => K::Semicolon,
        Ok(Token::Comma) => K::Comma,
        _ => return None,
    };
    Some((kind, parser.position().byte_index()))
}

/// Reads the first token of `text` with `cssparser::Parser::next_including_whitespace_and_comments`
/// and returns its kind and the number of bytes the parser advanced over it when the token is one
/// of the attribute-match operators, `<!--`, `-->` and bad URLs; `None` otherwise.
///
/// The contract claims that a result is [`css_first_token`] of the text, that `None` means the
/// first token is none of these kinds, and that a token read spans at least one and at most all
/// of the text's bytes and ends on a character boundary (every token consumes input, the parser
/// stops at the end, and the tokenizer steps over whole characters).
#[verifier::external_body]
fn first_match_or_bad_url_token(text: &str) -> (token: Option<(CssTokenKind, usize)>)
    ensures
        token matches Some((kind, length)) ==> css_first_token(text@) == Some((kind, length))
            && token_kind_group(kind) == 3 && 0 < length <= text.spec_bytes().len()
            && vstd::utf8::is_char_boundary(text.spec_bytes(), length as int),
        token is None ==> !(css_first_token(text@) matches Some((kind, _)) && token_kind_group(kind) == 3),
{
    let mut input = cssparser::ParserInput::new(text);
    let mut parser = cssparser::Parser::new(&mut input);
    let kind = match parser.next_including_whitespace_and_comments() {
        Ok(Token::IncludeMatch) => K::IncludeMatch,
        Ok(Token::DashMatch) => K::DashMatch,
        Ok(Token::PrefixMatch) => K::PrefixMatch,
        Ok(Token::SuffixMatch) => K::SuffixMatch,
        Ok(Token::SubstringMatch) => K::SubstringMatch,
        Ok(Token::CDO) => K::Cdo,
        Ok(Token::CDC) => K::Cdc,
        Ok(Token::BadUrl(_)) => K::BadUrl,
        _ => return None,
    };
    Some((kind, parser.position().byte_index()))
}

/// Reads the first token of `text` with `cssparser::Parser::next_including_whitespace_and_comments`
/// and returns its kind and the number of bytes the parser advanced over it when the token is one
/// of bad strings and the opening and closing brackets; `None` otherwise.
///
/// The contract claims that a result is [`css_first_token`] of the text, that `None` means the
/// first token is none of these kinds, and that a token read spans at least one and at most all
/// of the text's bytes and ends on a character boundary (every token consumes input, the parser
/// stops at the end, and the tokenizer steps over whole characters).
#[verifier::external_body]
fn first_bracket_token(text: &str) -> (token: Option<(CssTokenKind, usize)>)
    ensures
        token matches Some((kind, length)) ==> css_first_token(text@) == Some((kind, length))
            && token_kind_group(kind) == 4 && 0 < length <= text.spec_bytes().len()
            && vstd::utf8::is_char_boundary(text.spec_bytes(), length as int),
        token is None ==> !(css_first_token(text@) matches Some((kind, _)) && token_kind_group(kind) == 4),
{
    let mut input = cssparser::ParserInput::new(text);
    let mut parser = cssparser::Parser::new(&mut input);
    let kind = match parser.next_including_whitespace_and_comments() {
        Ok(Token::BadString(_)) => K::BadString,
        Ok(Token::ParenthesisBlock) => K::ParenthesisBlock,
        Ok(Token::SquareBracketBlock) => K::SquareBracketBlock,
        Ok(Token::CurlyBracketBlock) => K::CurlyBracketBlock,
        Ok(Token::CloseParenthesis) => K::CloseParenthesis,
        Ok(Token::CloseSquareBracket) => K::CloseSquareBracket,
        Ok(Token::CloseCurlyBracket) => K::CloseCurlyBracket,
        _ => return None,
    };
    Some((kind, parser.position().byte_index()))
}

/// Returns the first token of `text` (whitespace and comments count as tokens) as the CSS
/// tokenizer reads it: its kind and its length in bytes.
pub fn first_token(text: &str) -> (token: Option<(CssTokenKind, usize)>)
    ensures
        token == css_first_token(text@),
        token matches Some((_, length)) ==> 0 < length <= text.spec_bytes().len()
            && vstd::utf8::is_char_boundary(text.spec_bytes(), length as int),
{
    let word = first_word_token(text);
    if word.is_some() {
        return word;
    }
    let numeric = first_numeric_or_trivia_token(text);
    if numeric.is_some() {
        return numeric;
    }
    let operator = first_match_or_bad_url_token(text);
    if operator.is_some() {
        return operator;
    }
    let bracket = first_bracket_token(text);
    proof {
        if let Some((kind, _)) = css_first_token(text@) {
            assert(1 <= token_kind_group(kind) <= 4);
        }
    }
    bracket
}

/// The text of the source's bytes from `from` to `to`.
pub open spec fn source_text(source: &str, from: int, to: int) -> Seq<char> {
    vstd::utf8::decode_utf8(source.spec_bytes().subrange(from, to))
}

/// Whether a token kind is whitespace or a comment, which no diagnostic names as authored.
pub open spec fn is_trivia(kind: CssTokenKind) -> bool {
    kind is Whitespace || kind is Comment
}

/// The first token between bytes `at` and `end` of the source that is neither whitespace nor a
/// comment: its start byte, kind and authored spelling; `None` when the tokenizer reads none.
pub open spec fn next_authored_token_of(source: &str, at: int, end: int) -> Option<(int, CssTokenKind, Seq<char>)>
    decreases end - at,
{
    if at >= end {
        None
    } else {
        match css_first_token(source_text(source, at, end)) {
            None => None,
            Some((kind, length)) => if length == 0 || at + length > end {
                None
            } else if is_trivia(kind) {
                next_authored_token_of(source, at + length, end)
            } else {
                Some((at, kind, source_text(source, at, at + length)))
            },
        }
    }
}

/// The authored token a diagnostic position points at: the first token from the position's
/// byte on that is neither whitespace nor a comment; `None` past the end of the source or inside
/// a character.
pub open spec fn next_authored_token_at_of(source: &str, position: CssSourcePosition) -> Option<(int, CssTokenKind, Seq<char>)> {
    let start = position.spec_byte_offset() as int;
    if start > source.spec_bytes().len() || !vstd::utf8::is_char_boundary(source.spec_bytes(), start) {
        None
    } else {
        next_authored_token_of(source, start, source.spec_bytes().len() as int)
    }
}

/// Whether the found token and summary are the spec's start, kind and spelling.
pub open spec fn found_token_is(found: Option<(usize, CssTokenSummary)>, expected: Option<(int, CssTokenKind, Seq<char>)>) -> bool {
    match (found, expected) {
        (Some((start, summary)), Some((s, kind, authored))) => start as int == s && summary.spec_kind()
            == kind && summary.spec_authored() == authored,
        (None, None) => true,
        _ => false,
    }
}

/// Returns the authored token a diagnostic position points at: its start byte and summary.
pub fn next_authored_token_at(source: &str, position: CssSourcePosition) -> (found: Option<(usize, CssTokenSummary)>)
    ensures
        found_token_is(found, next_authored_token_at_of(source, position)),
        found matches Some((start, _)) ==> vstd::utf8::is_char_boundary(source.spec_bytes(), start as int),
{
    let bytes = source.as_bytes();
    let start = position.byte_offset();
    if start > bytes.len() || !source.is_char_boundary(start) {
        return None;
    }
    let end = bytes.len();
    let mut at = start;
    let (_, mut rest) = source.split_at(start);
    while at < end
        invariant
            bytes@ == source.spec_bytes(),
            end == bytes@.len(),
            start <= at <= end,
            rest.spec_bytes() == source.spec_bytes().subrange(at as int, end as int),
            vstd::utf8::is_char_boundary(source.spec_bytes(), at as int),
            next_authored_token_at_of(source, position) == next_authored_token_of(source, at as int, end as int),
        decreases end - at,
    {
        proof {
            assert(rest@ == vstd::utf8::decode_utf8(rest.spec_bytes()));
            assert(rest@ == source_text(source, at as int, end as int));
        }
        match first_token(rest) {
            None => return None,
            Some((kind, length)) => {
                if matches!(kind, CssTokenKind::Whitespace | CssTokenKind::Comment) {
                    let (_, later) = rest.split_at(length);
                    proof {
                        assert(later.spec_bytes() =~= source.spec_bytes().subrange(at + length, end as int));
                        vstd::utf8::is_char_boundary_start_end_of_seq(source.spec_bytes());
                        lemma_boundary_in_slice(source.spec_bytes(), at as int, end as int, length as int);
                    }
                    rest = later;
                    at = at + length;
                } else {
                    let (authored, _) = rest.split_at(length);
                    proof {
                        assert(authored@ == vstd::utf8::decode_utf8(authored.spec_bytes()));
                        assert(authored.spec_bytes() =~= source.spec_bytes().subrange(at as int, at + length));
                    }
                    return Some((at, CssTokenSummary::new(kind, authored)));
                }
            },
        }
    }
    None
}

/// A boundary of a slice that starts on a boundary is a boundary of the whole text.
proof fn lemma_boundary_in_slice(bytes: Seq<u8>, at: int, end: int, length: int)
    requires
        vstd::utf8::valid_utf8(bytes),
        vstd::utf8::valid_utf8(bytes.subrange(at, end)),
        0 <= at,
        0 < length,
        at + length <= end <= bytes.len(),
        vstd::utf8::is_char_boundary(bytes.subrange(at, end), length),
        vstd::utf8::is_char_boundary(bytes, end),
    ensures
        vstd::utf8::is_char_boundary(bytes, at + length),
{
    if at + length < end {
        vstd::utf8::is_char_boundary_iff_not_is_continuation_byte(bytes.subrange(at, end), length);
        vstd::utf8::is_char_boundary_iff_not_is_continuation_byte(bytes, at + length);
    }
}

/// In valid UTF-8, the byte after an ASCII byte starts a character.
proof fn lemma_boundary_after_ascii(bytes: Seq<u8>, i: int)
    requires
        vstd::utf8::valid_utf8(bytes),
        0 < i < bytes.len(),
        bytes[i - 1] < 0x80,
    ensures
        vstd::utf8::is_char_boundary(bytes, i),
{
    vstd::utf8::is_char_boundary_iff_not_is_continuation_byte(bytes, i - 1);
    vstd::utf8::valid_utf8_split(bytes, i - 1);
    let rest = bytes.subrange(i - 1, bytes.len() as int);
    assert(rest[0] == bytes[i - 1]);
    assert(vstd::utf8::length_of_first_scalar(rest) == 1);
    let after = vstd::utf8::pop_first_scalar(rest);
    assert(after =~= bytes.subrange(i, bytes.len() as int));
    reveal_with_fuel(vstd::utf8::valid_utf8, 2);
    assert(vstd::utf8::valid_utf8(after));
    assert(after[0] == bytes[i]);
    assert(!vstd::utf8::is_continuation_byte(bytes[i]));
    vstd::utf8::is_char_boundary_iff_not_is_continuation_byte(bytes, i);
}

/// Whether a byte is one of `{`, `;`, `:`, `,`, `(` and `[`, after which a lookbehind for the
/// previous authored token starts.
pub open spec fn opens_lookbehind_window(byte: u8) -> bool {
    byte == 0x7B || byte == 0x3B || byte == 0x3A || byte == 0x2C || byte == 0x28 || byte == 0x5B
}

/// The byte at which the lookbehind window ending at byte `end` starts: just after the last
/// window-opening character before `end`, or the start of the source.
pub open spec fn lookbehind_window_start(source: &str, end: int) -> int
    decreases end,
{
    if end <= 0 {
        0
    } else if opens_lookbehind_window(source.spec_bytes()[end - 1]) {
        end
    } else {
        lookbehind_window_start(source, end - 1)
    }
}

/// The last token between bytes `at` and `end` of the source that is neither whitespace nor a
/// comment, or `found` when there is none; the scan stops where the tokenizer reads no token.
pub open spec fn last_authored_token_of(
    source: &str,
    at: int,
    end: int,
    found: Option<(int, CssTokenKind, Seq<char>)>,
) -> Option<(int, CssTokenKind, Seq<char>)>
    decreases end - at,
{
    if at >= end {
        found
    } else {
        match css_first_token(source_text(source, at, end)) {
            None => found,
            Some((kind, length)) => if length == 0 || at + length > end {
                found
            } else if is_trivia(kind) {
                last_authored_token_of(source, at + length, end, found)
            } else {
                last_authored_token_of(source, at + length, end, Some((at, kind, source_text(source, at, at + length))))
            },
        }
    }
}

/// The authored token just before a diagnostic position: the last token that is neither
/// whitespace nor a comment in the window from the last `{`, `;`, `:`, `,`, `(` or `[` before the
/// position up to the position.
pub open spec fn previous_authored_token_of(source: &str, position: CssSourcePosition) -> Option<(int, CssTokenKind, Seq<char>)> {
    let end = lookbehind_end(source, position);
    last_authored_token_of(source, lookbehind_window_start(source, end), end, None)
}

/// Returns the authored token just before a diagnostic position: its start byte and summary.
pub fn previous_authored_token_before(source: &str, position: CssSourcePosition) -> (found: Option<(usize, CssTokenSummary)>)
    requires
        vstd::utf8::is_char_boundary(source.spec_bytes(), lookbehind_end(source, position)),
    ensures
        found_token_is(found, previous_authored_token_of(source, position)),
        found matches Some((start, _)) ==> vstd::utf8::is_char_boundary(source.spec_bytes(), start as int),
{
    let bytes = source.as_bytes();
    let offset = position.byte_offset();
    let end = if offset < bytes.len() { offset } else { bytes.len() };
    let mut window_start: usize = end;
    while window_start > 0 && !(bytes[window_start - 1] == 0x7B || bytes[window_start - 1] == 0x3B
        || bytes[window_start - 1] == 0x3A || bytes[window_start - 1] == 0x2C || bytes[window_start - 1] == 0x28
        || bytes[window_start - 1] == 0x5B)
        invariant
            bytes@ == source.spec_bytes(),
            end == lookbehind_end(source, position),
            0 <= window_start <= end <= bytes@.len(),
            lookbehind_window_start(source, end as int) == lookbehind_window_start(source, window_start as int),
        decreases window_start,
    {
        window_start = window_start - 1;
    }
    if window_start == end {
        return None;
    }
    let (head, _) = source.split_at(end);
    proof {
        if window_start > 0 {
            assert(head.spec_bytes()[window_start - 1] == bytes@[window_start - 1]);
            lemma_boundary_after_ascii(head.spec_bytes(), window_start as int);
        }
    }
    let (_, mut rest) = head.split_at(window_start);
    proof {
        if window_start > 0 {
            vstd::utf8::is_char_boundary_iff_not_is_continuation_byte(head.spec_bytes(), window_start as int);
            vstd::utf8::is_char_boundary_iff_not_is_continuation_byte(source.spec_bytes(), window_start as int);
        }
    }
    let mut at = window_start;
    let mut previous: Option<(usize, CssTokenSummary)> = None;
    let ghost mut expected: Option<(int, CssTokenKind, Seq<char>)> = None;
    while at < end
        invariant
            bytes@ == source.spec_bytes(),
            window_start <= at <= end <= bytes@.len(),
            rest.spec_bytes() == source.spec_bytes().subrange(at as int, end as int),
            vstd::utf8::is_char_boundary(source.spec_bytes(), at as int),
            vstd::utf8::is_char_boundary(source.spec_bytes(), end as int),
            previous matches Some((start, _)) ==> vstd::utf8::is_char_boundary(source.spec_bytes(), start as int),
            found_token_is(previous, expected),
            previous_authored_token_of(source, position) == last_authored_token_of(source, at as int, end as int, expected),
        decreases end - at,
    {
        proof {
            assert(rest@ == vstd::utf8::decode_utf8(rest.spec_bytes()));
            assert(rest@ == source_text(source, at as int, end as int));
        }
        match first_token(rest) {
            None => {
                return previous;
            },
            Some((kind, length)) => {
                let (authored, later) = rest.split_at(length);
                proof {
                    assert(later.spec_bytes() =~= source.spec_bytes().subrange(at + length, end as int));
                    assert(authored@ == vstd::utf8::decode_utf8(authored.spec_bytes()));
                    assert(authored.spec_bytes() =~= source.spec_bytes().subrange(at as int, at + length));
                    lemma_boundary_in_slice(source.spec_bytes(), at as int, end as int, length as int);
                }
                if !matches!(kind, CssTokenKind::Whitespace | CssTokenKind::Comment) {
                    previous = Some((at, CssTokenSummary::new(kind, authored)));
                    proof {
                        expected = Some((at as int, kind, source_text(source, at as int, at + length)));
                    }
                }
                rest = later;
                at = at + length;
            },
        }
    }
    previous
}

/// Where an encoding-declaration diagnostic of a failed unit is reported in the source.
#[derive(Clone, Debug, PartialEq, Eq)]
pub enum CssEncodingErrorPlacement {
    /// The diagnostic stays where it is.
    Unchanged,
    /// The diagnostic moves to this byte and names this authored token.
    AtToken(usize, CssTokenSummary),
    /// The diagnostic moves to this byte.
    AtOffset(usize),
}

/// Whether `placement` is where the encoding diagnostic `error` of the failed unit spanning bytes
/// `unit_start..unit_end` is reported.
///
/// A diagnostic that names a responsible token moves to the authored token just before its
/// position when that token starts inside the unit and is of the same kind, and then names it;
/// otherwise it stays. A diagnostic that names no token moves to the unit's start when the unit
/// ends with `;`, else to the unit's first `{`, else to its end. Every other diagnostic stays.
pub open spec fn is_encoding_error_placement(
    placement: CssEncodingErrorPlacement,
    source: &str,
    unit_start: int,
    unit_end: int,
    failed_unit: Seq<char>,
    error: Error,
) -> bool {
    match error.spec_kind() {
        ErrorKind::InvalidEncodingDeclaration(detail) => match detail.spec_encountered() {
            Some(encountered) => match previous_authored_token_of(source, error.spec_position()) {
                Some((start, kind, authored)) => if unit_start <= start < unit_end && kind
                    == encountered.spec_kind() {
                    placement matches CssEncodingErrorPlacement::AtToken(at, summary) && at == start
                        && summary.spec_kind() == kind && summary.spec_authored() == authored
                } else {
                    placement is Unchanged
                },
                None => placement is Unchanged,
            },
            None => placement == CssEncodingErrorPlacement::AtOffset(
                encoding_error_offset_of(source, unit_start, unit_end, failed_unit) as usize,
            ),
        },
        _ => placement is Unchanged,
    }
}

/// Returns where the encoding-declaration diagnostic `error` of the failed unit spanning bytes
/// `unit_start..unit_end` of the source is reported; see [`is_encoding_error_placement`].
pub fn encoding_error_placement(
    source: &str,
    unit_start: usize,
    unit_end: usize,
    failed_unit: &str,
    error: &Error,
) -> (placement: CssEncodingErrorPlacement)
    requires
        unit_start <= unit_end <= source.spec_bytes().len(),
        vstd::utf8::is_char_boundary(source.spec_bytes(), unit_start as int),
        vstd::utf8::is_char_boundary(source.spec_bytes(), unit_end as int),
        vstd::utf8::is_char_boundary(source.spec_bytes(), lookbehind_end(source, error.spec_position())),
    ensures
        is_encoding_error_placement(placement, source, unit_start as int, unit_end as int, failed_unit@, *error),
        placement matches CssEncodingErrorPlacement::AtToken(at, _) ==> unit_start <= at < unit_end,
        placement matches CssEncodingErrorPlacement::AtOffset(at) ==> unit_start <= at <= unit_end,
{
    match error.kind() {
        ErrorKind::InvalidEncodingDeclaration(detail) => match detail.encountered() {
            Some(encountered) => match previous_authored_token_before(source, error.position()) {
                Some((start, summary)) => {
                    if unit_start <= start && start < unit_end && summary.kind() == encountered.kind() {
                        CssEncodingErrorPlacement::AtToken(start, summary)
                    } else {
                        CssEncodingErrorPlacement::Unchanged
                    }
                },
                None => CssEncodingErrorPlacement::Unchanged,
            },
            None => CssEncodingErrorPlacement::AtOffset(
                encoding_error_offset(source, unit_start, unit_end, failed_unit),
            ),
        },
        _ => CssEncodingErrorPlacement::Unchanged,
    }
}

} // verus!
