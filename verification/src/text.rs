//! Exact and ASCII-case-insensitive comparison of authored spellings.
use vstd::prelude::*;
use vstd::string::{StrSliceExecFns, StringSliceAdditionalSpecFns};

verus! {

broadcast use vstd::utf8::encode_utf8_decode_utf8;

/// The ASCII lowercase of one byte; every other byte is unchanged.
pub open spec fn ascii_lower(byte: u8) -> u8 {
    if 65 <= byte <= 90 {
        (byte + 32) as u8
    } else {
        byte
    }
}

/// Whether two byte strings are equal once their ASCII letters are lowercased.
pub open spec fn ascii_case_eq(left: Seq<u8>, right: Seq<u8>) -> bool {
    &&& left.len() == right.len()
    &&& forall|i: int| 0 <= i < left.len() ==> ascii_lower(#[trigger] left[i]) == ascii_lower(right[i])
}

/// Whether two character sequences are equal ignoring ASCII case, compared over their UTF-8
/// bytes.
pub open spec fn chars_ascii_case_eq(left: Seq<char>, right: Seq<char>) -> bool {
    ascii_case_eq(vstd::utf8::encode_utf8(left), vstd::utf8::encode_utf8(right))
}

/// Whether two strings are equal ignoring ASCII case, compared over their UTF-8 bytes.
pub open spec fn str_ascii_case_eq(left: &str, right: &str) -> bool {
    chars_ascii_case_eq(left@, right@)
}

/// Returns the ASCII lowercase of one byte.
pub fn lower_byte(byte: u8) -> (lower: u8)
    ensures
        lower == ascii_lower(byte),
{
    if 65 <= byte && byte <= 90 {
        byte + 32
    } else {
        byte
    }
}

/// Returns whether two strings spell exactly the same characters.
pub fn str_eq(left: &str, right: &str) -> (equal: bool)
    ensures
        equal == (left@ == right@),
{
    let a = left.as_bytes();
    let b = right.as_bytes();
    if a.len() != b.len() {
        return false;
    }
    let mut i: usize = 0;
    while i < a.len()
        invariant
            a@ == left.spec_bytes(),
            b@ == right.spec_bytes(),
            a@.len() == b@.len(),
            0 <= i <= a@.len(),
            forall|j: int| 0 <= j < i ==> a@[j] == b@[j],
        decreases a@.len() - i,
    {
        if a[i] != b[i] {
            return false;
        }
        i = i + 1;
    }
    proof {
        assert(a@ =~= b@);
        assert(vstd::utf8::decode_utf8(left.spec_bytes()) == left@);
        assert(vstd::utf8::decode_utf8(right.spec_bytes()) == right@);
    }
    true
}

/// Returns whether two strings are equal ignoring ASCII case, byte for byte.
pub fn eq_ignore_ascii_case(left: &str, right: &str) -> (equal: bool)
    ensures
        equal == str_ascii_case_eq(left, right),
{
    let a = left.as_bytes();
    let b = right.as_bytes();
    if a.len() != b.len() {
        return false;
    }
    let mut i: usize = 0;
    while i < a.len()
        invariant
            a@ == left.spec_bytes(),
            b@ == right.spec_bytes(),
            a@.len() == b@.len(),
            0 <= i <= a@.len(),
            forall|j: int| 0 <= j < i ==> ascii_lower(#[trigger] a@[j]) == ascii_lower(b@[j]),
        decreases a@.len() - i,
    {
        if lower_byte(a[i]) != lower_byte(b[i]) {
            return false;
        }
        i = i + 1;
    }
    true
}

/// Strings equal ignoring ASCII case are equal ignoring ASCII case to the same strings.
pub proof fn lemma_chars_ascii_case_eq_transfer(a: Seq<char>, b: Seq<char>, c: Seq<char>)
    requires
        chars_ascii_case_eq(a, b),
    ensures
        chars_ascii_case_eq(a, c) == chars_ascii_case_eq(b, c),
{
    let ea = vstd::utf8::encode_utf8(a);
    let eb = vstd::utf8::encode_utf8(b);
    let ec = vstd::utf8::encode_utf8(c);
    if chars_ascii_case_eq(a, c) {
        assert forall|i: int| 0 <= i < eb.len() implies ascii_lower(#[trigger] eb[i]) == ascii_lower(ec[i]) by {
            assert(ascii_lower(ea[i]) == ascii_lower(eb[i]));
            assert(ascii_lower(ea[i]) == ascii_lower(ec[i]));
        }
    }
    if chars_ascii_case_eq(b, c) {
        assert forall|i: int| 0 <= i < ea.len() implies ascii_lower(#[trigger] ea[i]) == ascii_lower(ec[i]) by {
            assert(ascii_lower(ea[i]) == ascii_lower(eb[i]));
            assert(ascii_lower(eb[i]) == ascii_lower(ec[i]));
        }
    }
}

/// Between ASCII spellings, equality ignoring ASCII case compares the characters one by one.
pub proof fn lemma_ascii_spellings_case_eq(a: Seq<char>, b: Seq<char>)
    requires
        vstd::utf8::is_ascii_chars(a),
        vstd::utf8::is_ascii_chars(b),
    ensures
        chars_ascii_case_eq(a, b) <==> a.len() == b.len() && forall|i: int|
            0 <= i < a.len() ==> ascii_lower(#[trigger] a[i] as u8) == ascii_lower(b[i] as u8),
{
    vstd::utf8::is_ascii_chars_encode_utf8(a);
    vstd::utf8::is_ascii_chars_encode_utf8(b);
    let ea = vstd::utf8::encode_utf8(a);
    let eb = vstd::utf8::encode_utf8(b);
    if chars_ascii_case_eq(a, b) {
        assert forall|i: int| 0 <= i < a.len() implies ascii_lower(#[trigger] a[i] as u8) == ascii_lower(b[i] as u8) by {
            assert(ascii_lower(ea[i]) == ascii_lower(eb[i]));
        }
    }
    if a.len() == b.len() && forall|i: int| 0 <= i < a.len() ==> ascii_lower(#[trigger] a[i] as u8) == ascii_lower(b[i] as u8) {
        assert forall|i: int| 0 <= i < ea.len() implies ascii_lower(#[trigger] ea[i]) == ascii_lower(eb[i]) by {
            assert(ascii_lower(a[i] as u8) == ascii_lower(b[i] as u8));
        }
    }
}

/// Equality ignoring ASCII case does not depend on the order of its arguments.
pub proof fn lemma_chars_ascii_case_eq_symmetric(a: Seq<char>, b: Seq<char>)
    ensures
        chars_ascii_case_eq(a, b) == chars_ascii_case_eq(b, a),
{
    let ea = vstd::utf8::encode_utf8(a);
    let eb = vstd::utf8::encode_utf8(b);
    if chars_ascii_case_eq(a, b) {
        assert forall|i: int| 0 <= i < eb.len() implies ascii_lower(#[trigger] eb[i]) == ascii_lower(ea[i]) by {
            assert(ascii_lower(ea[i]) == ascii_lower(eb[i]));
        }
    }
    if chars_ascii_case_eq(b, a) {
        assert forall|i: int| 0 <= i < ea.len() implies ascii_lower(#[trigger] ea[i]) == ascii_lower(eb[i]) by {
            assert(ascii_lower(eb[i]) == ascii_lower(ea[i]));
        }
    }
}

/// Whether a character has the Unicode `White_Space` property: the controls U+0009 to U+000D,
/// space, U+0085, no-break space, U+1680, U+2000 to U+200A, the line and paragraph separators,
/// U+202F, U+205F, and U+3000.
pub open spec fn unicode_white_space(c: char) -> bool {
    let u = c as u32;
    ||| 0x9 <= u <= 0xD
    ||| u == 0x20
    ||| u == 0x85
    ||| u == 0xA0
    ||| u == 0x1680
    ||| 0x2000 <= u <= 0x200A
    ||| u == 0x2028
    ||| u == 0x2029
    ||| u == 0x202F
    ||| u == 0x205F
    ||| u == 0x3000
}

/// Whether a character is Unicode alphabetic or numeric, as `char::is_alphanumeric` reports.
pub uninterp spec fn unicode_alphanumeric(c: char) -> bool;

/// Returns whether a character has the Unicode `White_Space` property.
pub(crate) fn is_white_space(c: char) -> (white: bool)
    ensures
        white == unicode_white_space(c),
{
    let u = c as u32;
    (0x9 <= u && u <= 0xD) || u == 0x20 || u == 0x85 || u == 0xA0 || u == 0x1680 || (0x2000 <= u
        && u <= 0x200A) || u == 0x2028 || u == 0x2029 || u == 0x202F || u == 0x205F || u == 0x3000
}

/// Calls `char::is_alphanumeric`; the contract claims only that the result is
/// [`unicode_alphanumeric`] of the character, which std defines as alphabetic or numeric.
#[verifier::external_body]
pub(crate) fn is_alphanumeric(c: char) -> (alphanumeric: bool)
    ensures
        alphanumeric == unicode_alphanumeric(c),
{
    c.is_alphanumeric()
}

/// The number of leading characters that are white space.
pub open spec fn leading_white_space(s: Seq<char>) -> nat
    decreases s.len(),
{
    if s.len() > 0 && unicode_white_space(s[0]) {
        1 + leading_white_space(s.skip(1))
    } else {
        0
    }
}

/// The characters without their leading white space, as `str::trim_start` leaves them.
pub open spec fn trim_start_of(s: Seq<char>) -> Seq<char> {
    s.skip(leading_white_space(s) as int)
}

/// The last character that is not white space, if any.
pub open spec fn last_non_white_space(s: Seq<char>) -> Option<char>
    decreases s.len(),
{
    if s.len() == 0 {
        None
    } else if unicode_white_space(s.last()) {
        last_non_white_space(s.drop_last())
    } else {
        Some(s.last())
    }
}

/// Returns the number of leading characters of `s` that are white space.
pub fn leading_white_space_len(s: &str) -> (count: usize)
    ensures
        count == leading_white_space(s@),
        count <= s@.len(),
{
    let length = s.unicode_len();
    let mut i: usize = 0;
    proof {
        assert(s@.skip(0) =~= s@);
    }
    while i < length
        invariant
            length == s@.len(),
            0 <= i <= length,
            leading_white_space(s@) == i + leading_white_space(s@.skip(i as int)),
        decreases length - i,
    {
        proof {
            assert(s@.skip(i as int).skip(1) =~= s@.skip(i + 1));
        }
        let c = s.get_char(i);
        proof {
            assert(s@.skip(i as int)[0] == c);
        }
        if !is_white_space(c) {
            return i;
        }
        i = i + 1;
    }
    proof {
        assert(s@.skip(i as int).len() == 0);
    }
    i
}

/// Returns the last character of `s` that is not white space, if any.
pub fn last_non_white_space_char(s: &str) -> (last: Option<char>)
    ensures
        last == last_non_white_space(s@),
{
    let mut i: usize = s.unicode_len();
    proof {
        assert(s@.take(i as int) =~= s@);
    }
    while i > 0
        invariant
            0 <= i <= s@.len(),
            last_non_white_space(s@) == last_non_white_space(s@.take(i as int)),
        decreases i,
    {
        let c = s.get_char(i - 1);
        proof {
            assert(s@.take(i as int).drop_last() =~= s@.take(i - 1));
            assert(s@.take(i as int).last() == c);
        }
        if !is_white_space(c) {
            return Some(c);
        }
        i = i - 1;
    }
    proof {
        assert(s@.take(0).len() == 0);
    }
    None
}

/// Returns whether the string holds the character `c`.
pub(crate) fn contains_char(s: &str, c: char) -> (found: bool)
    ensures
        found == s@.contains(c),
{
    let length = s.unicode_len();
    let mut i: usize = 0;
    while i < length
        invariant
            length == s@.len(),
            0 <= i <= length,
            forall|j: int| 0 <= j < i ==> s@[j] != c,
        decreases length - i,
    {
        if s.get_char(i) == c {
            proof {
                assert(s@[i as int] == c);
            }
            return true;
        }
        i = i + 1;
    }
    false
}

} // verus!
