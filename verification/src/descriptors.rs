//! The descriptors that the `@font-face` and `@counter-style` rule bodies accept.
use vstd::prelude::*;

use crate::diagnostics::{custom_kind, descriptor_name_error, raised_at, CssParseError};
use crate::error::ErrorKind;
use crate::source::CssSourceLocation;
use crate::text::{ascii_lower, chars_ascii_case_eq, eq_ignore_ascii_case, lemma_ascii_spellings_case_eq};

verus! {

/// A descriptor of an `@font-face` rule.
#[derive(Clone, Copy, Debug, PartialEq, Eq, Hash, Structural)]
pub enum CssFontFaceDescriptorName {
    /// `font-family`.
    FontFamily,
    /// `src`.
    Src,
    /// `font-weight`.
    FontWeight,
    /// `font-style`.
    FontStyle,
    /// `font-stretch`.
    FontStretch,
    /// `font-display`.
    FontDisplay,
    /// `unicode-range`.
    UnicodeRange,
}

/// The `@font-face` descriptor a declaration name spells, ignoring ASCII case.
pub open spec fn font_face_descriptor_name_of(name: Seq<char>) -> Option<CssFontFaceDescriptorName> {
    if chars_ascii_case_eq(name, "font-family"@) {
        Some(CssFontFaceDescriptorName::FontFamily)
    } else if chars_ascii_case_eq(name, "src"@) {
        Some(CssFontFaceDescriptorName::Src)
    } else if chars_ascii_case_eq(name, "font-weight"@) {
        Some(CssFontFaceDescriptorName::FontWeight)
    } else if chars_ascii_case_eq(name, "font-style"@) {
        Some(CssFontFaceDescriptorName::FontStyle)
    } else if chars_ascii_case_eq(name, "font-stretch"@) {
        Some(CssFontFaceDescriptorName::FontStretch)
    } else if chars_ascii_case_eq(name, "font-display"@) {
        Some(CssFontFaceDescriptorName::FontDisplay)
    } else if chars_ascii_case_eq(name, "unicode-range"@) {
        Some(CssFontFaceDescriptorName::UnicodeRange)
    } else {
        None
    }
}

/// The declaration name that spells an `@font-face` descriptor.
pub open spec fn font_face_descriptor_spelling(descriptor: CssFontFaceDescriptorName) -> Seq<char> {
    match descriptor {
        CssFontFaceDescriptorName::FontFamily => "font-family"@,
        CssFontFaceDescriptorName::Src => "src"@,
        CssFontFaceDescriptorName::FontWeight => "font-weight"@,
        CssFontFaceDescriptorName::FontStyle => "font-style"@,
        CssFontFaceDescriptorName::FontStretch => "font-stretch"@,
        CssFontFaceDescriptorName::FontDisplay => "font-display"@,
        CssFontFaceDescriptorName::UnicodeRange => "unicode-range"@,
    }
}

/// An `@font-face` descriptor is recognized only from its own spelling: whenever a declaration
/// name is recognized, it is the spelling of the descriptor it is recognized as, ignoring ASCII
/// case.
pub proof fn lemma_font_face_descriptor_names_itself(name: Seq<char>)
    requires
        font_face_descriptor_name_of(name) is Some,
    ensures
        chars_ascii_case_eq(name, font_face_descriptor_spelling(font_face_descriptor_name_of(name)->0)),
{
}

/// Each `@font-face` descriptor is recognized from its own spelling, in any ASCII case.
pub proof fn lemma_font_face_spelling_names_its_descriptor(descriptor: CssFontFaceDescriptorName)
    ensures
        font_face_descriptor_name_of(font_face_descriptor_spelling(descriptor)) == Some(descriptor),
{
    let spelling = font_face_descriptor_spelling(descriptor);
    reveal_strlit("font-family");
    reveal_strlit("src");
    reveal_strlit("font-weight");
    reveal_strlit("font-style");
    reveal_strlit("font-stretch");
    reveal_strlit("font-display");
    reveal_strlit("unicode-range");
    assert(vstd::utf8::is_ascii_chars(spelling));
    assert(vstd::utf8::is_ascii_chars("font-family"@));
    assert(vstd::utf8::is_ascii_chars("src"@));
    assert(vstd::utf8::is_ascii_chars("font-weight"@));
    assert(vstd::utf8::is_ascii_chars("font-style"@));
    assert(vstd::utf8::is_ascii_chars("font-stretch"@));
    assert(vstd::utf8::is_ascii_chars("font-display"@));
    assert(vstd::utf8::is_ascii_chars("unicode-range"@));
    lemma_ascii_spellings_case_eq(spelling, "font-family"@);
    lemma_ascii_spellings_case_eq(spelling, "src"@);
    lemma_ascii_spellings_case_eq(spelling, "font-weight"@);
    lemma_ascii_spellings_case_eq(spelling, "font-style"@);
    lemma_ascii_spellings_case_eq(spelling, "font-stretch"@);
    lemma_ascii_spellings_case_eq(spelling, "font-display"@);
    lemma_ascii_spellings_case_eq(spelling, "unicode-range"@);
    match descriptor {
        CssFontFaceDescriptorName::FontFamily => {
        },
        CssFontFaceDescriptorName::Src => {
        },
        CssFontFaceDescriptorName::FontWeight => {
            assert(ascii_lower(spelling[5] as u8) != ascii_lower("font-family"@[5] as u8));
        },
        CssFontFaceDescriptorName::FontStyle => {
        },
        CssFontFaceDescriptorName::FontStretch => {
        },
        CssFontFaceDescriptorName::FontDisplay => {
            assert(ascii_lower(spelling[5] as u8) != ascii_lower("font-stretch"@[5] as u8));
        },
        CssFontFaceDescriptorName::UnicodeRange => {
        },
    }
    assert(ascii_lower(spelling[0] as u8) == spelling[0] as u8);
}

/// Returns the `@font-face` descriptor a declaration name spells, ignoring ASCII case; any other
/// name is an unknown descriptor of `@font-face`, raised where its declaration starts.
pub fn font_face_descriptor_name(name: &str, location: CssSourceLocation) -> (descriptor: Result<CssFontFaceDescriptorName, CssParseError>)
    ensures
        match font_face_descriptor_name_of(name@) {
            Some(d) => descriptor == Ok::<CssFontFaceDescriptorName, CssParseError>(d),
            None => {
                &&& descriptor matches Err(e)
                &&& raised_at(descriptor->Err_0, location)
                &&& custom_kind(descriptor->Err_0) matches ErrorKind::UnknownDescriptor(d)
                &&& d.spec_at_rule()@ == "font-face"@
                &&& d.spec_descriptor()@ == name@
            },
        },
{
    if eq_ignore_ascii_case(name, "font-family") {
        Ok(CssFontFaceDescriptorName::FontFamily)
    } else if eq_ignore_ascii_case(name, "src") {
        Ok(CssFontFaceDescriptorName::Src)
    } else if eq_ignore_ascii_case(name, "font-weight") {
        Ok(CssFontFaceDescriptorName::FontWeight)
    } else if eq_ignore_ascii_case(name, "font-style") {
        Ok(CssFontFaceDescriptorName::FontStyle)
    } else if eq_ignore_ascii_case(name, "font-stretch") {
        Ok(CssFontFaceDescriptorName::FontStretch)
    } else if eq_ignore_ascii_case(name, "font-display") {
        Ok(CssFontFaceDescriptorName::FontDisplay)
    } else if eq_ignore_ascii_case(name, "unicode-range") {
        Ok(CssFontFaceDescriptorName::UnicodeRange)
    } else {
        Err(descriptor_name_error(location, "font-face", name))
    }
}

/// A descriptor of an `@counter-style` rule.
#[derive(Clone, Copy, Debug, PartialEq, Eq, Hash, Structural)]
pub enum CssCounterStyleDescriptorName {
    /// `system`.
    System,
    /// `negative`.
    Negative,
    /// `symbols`.
    Symbols,
    /// `prefix`.
    Prefix,
    /// `suffix`.
    Suffix,
    /// `range`.
    Range,
    /// `pad`.
    Pad,
    /// `fallback`.
    Fallback,
    /// `additive-symbols`.
    AdditiveSymbols,
    /// `speak-as`.
    SpeakAs,
}

/// The `@counter-style` descriptor a declaration name spells, ignoring ASCII case.
pub open spec fn counter_style_descriptor_name_of(name: Seq<char>) -> Option<CssCounterStyleDescriptorName> {
    if chars_ascii_case_eq(name, "system"@) {
        Some(CssCounterStyleDescriptorName::System)
    } else if chars_ascii_case_eq(name, "negative"@) {
        Some(CssCounterStyleDescriptorName::Negative)
    } else if chars_ascii_case_eq(name, "symbols"@) {
        Some(CssCounterStyleDescriptorName::Symbols)
    } else if chars_ascii_case_eq(name, "prefix"@) {
        Some(CssCounterStyleDescriptorName::Prefix)
    } else if chars_ascii_case_eq(name, "suffix"@) {
        Some(CssCounterStyleDescriptorName::Suffix)
    } else if chars_ascii_case_eq(name, "range"@) {
        Some(CssCounterStyleDescriptorName::Range)
    } else if chars_ascii_case_eq(name, "pad"@) {
        Some(CssCounterStyleDescriptorName::Pad)
    } else if chars_ascii_case_eq(name, "fallback"@) {
        Some(CssCounterStyleDescriptorName::Fallback)
    } else if chars_ascii_case_eq(name, "additive-symbols"@) {
        Some(CssCounterStyleDescriptorName::AdditiveSymbols)
    } else if chars_ascii_case_eq(name, "speak-as"@) {
        Some(CssCounterStyleDescriptorName::SpeakAs)
    } else {
        None
    }
}

/// The declaration name that spells an `@counter-style` descriptor.
pub open spec fn counter_style_descriptor_spelling(descriptor: CssCounterStyleDescriptorName) -> Seq<char> {
    match descriptor {
        CssCounterStyleDescriptorName::System => "system"@,
        CssCounterStyleDescriptorName::Negative => "negative"@,
        CssCounterStyleDescriptorName::Symbols => "symbols"@,
        CssCounterStyleDescriptorName::Prefix => "prefix"@,
        CssCounterStyleDescriptorName::Suffix => "suffix"@,
        CssCounterStyleDescriptorName::Range => "range"@,
        CssCounterStyleDescriptorName::Pad => "pad"@,
        CssCounterStyleDescriptorName::Fallback => "fallback"@,
        CssCounterStyleDescriptorName::AdditiveSymbols => "additive-symbols"@,
        CssCounterStyleDescriptorName::SpeakAs => "speak-as"@,
    }
}

/// An `@counter-style` descriptor is recognized only from its own spelling: whenever a
/// declaration name is recognized, it is the spelling of the descriptor it is recognized as,
/// ignoring ASCII case.
pub proof fn lemma_counter_style_descriptor_names_itself(name: Seq<char>)
    requires
        counter_style_descriptor_name_of(name) is Some,
    ensures
        chars_ascii_case_eq(name, counter_style_descriptor_spelling(counter_style_descriptor_name_of(name)->0)),
{
}

/// Each `@counter-style` descriptor is recognized from its own spelling, in any ASCII case.
pub proof fn lemma_counter_style_spelling_names_its_descriptor(descriptor: CssCounterStyleDescriptorName)
    ensures
        counter_style_descriptor_name_of(counter_style_descriptor_spelling(descriptor)) == Some(descriptor),
{
    let spelling = counter_style_descriptor_spelling(descriptor);
    reveal_strlit("system");
    reveal_strlit("negative");
    reveal_strlit("symbols");
    reveal_strlit("prefix");
    reveal_strlit("suffix");
    reveal_strlit("range");
    reveal_strlit("pad");
    reveal_strlit("fallback");
    reveal_strlit("additive-symbols");
    reveal_strlit("speak-as");
    assert(vstd::utf8::is_ascii_chars(spelling));
    assert(vstd::utf8::is_ascii_chars("system"@));
    assert(vstd::utf8::is_ascii_chars("negative"@));
    assert(vstd::utf8::is_ascii_chars("symbols"@));
    assert(vstd::utf8::is_ascii_chars("prefix"@));
    assert(vstd::utf8::is_ascii_chars("suffix"@));
    assert(vstd::utf8::is_ascii_chars("range"@));
    assert(vstd::utf8::is_ascii_chars("pad"@));
    assert(vstd::utf8::is_ascii_chars("fallback"@));
    assert(vstd::utf8::is_ascii_chars("additive-symbols"@));
    assert(vstd::utf8::is_ascii_chars("speak-as"@));
    lemma_ascii_spellings_case_eq(spelling, "system"@);
    lemma_ascii_spellings_case_eq(spelling, "negative"@);
    lemma_ascii_spellings_case_eq(spelling, "symbols"@);
    lemma_ascii_spellings_case_eq(spelling, "prefix"@);
    lemma_ascii_spellings_case_eq(spelling, "suffix"@);
    lemma_ascii_spellings_case_eq(spelling, "range"@);
    lemma_ascii_spellings_case_eq(spelling, "pad"@);
    lemma_ascii_spellings_case_eq(spelling, "fallback"@);
    lemma_ascii_spellings_case_eq(spelling, "additive-symbols"@);
    lemma_ascii_spellings_case_eq(spelling, "speak-as"@);
    match descriptor {
        CssCounterStyleDescriptorName::System => {
        },
        CssCounterStyleDescriptorName::Negative => {
        },
        CssCounterStyleDescriptorName::Symbols => {
        },
        CssCounterStyleDescriptorName::Prefix => {
            assert(ascii_lower(spelling[0] as u8) != ascii_lower("system"@[0] as u8));
        },
        CssCounterStyleDescriptorName::Suffix => {
            assert(ascii_lower(spelling[1] as u8) != ascii_lower("system"@[1] as u8));
            assert(ascii_lower(spelling[0] as u8) != ascii_lower("prefix"@[0] as u8));
        },
        CssCounterStyleDescriptorName::Range => {
        },
        CssCounterStyleDescriptorName::Pad => {
        },
        CssCounterStyleDescriptorName::Fallback => {
            assert(ascii_lower(spelling[0] as u8) != ascii_lower("negative"@[0] as u8));
        },
        CssCounterStyleDescriptorName::AdditiveSymbols => {
        },
        CssCounterStyleDescriptorName::SpeakAs => {
            assert(ascii_lower(spelling[0] as u8) != ascii_lower("negative"@[0] as u8));
            assert(ascii_lower(spelling[0] as u8) != ascii_lower("fallback"@[0] as u8));
        },
    }
    assert(ascii_lower(spelling[0] as u8) == spelling[0] as u8);
}

/// Returns the `@counter-style` descriptor a declaration name spells, ignoring ASCII case; any other
/// name is an unknown descriptor of `@counter-style`, raised where its declaration starts.
pub fn counter_style_descriptor_name(name: &str, location: CssSourceLocation) -> (descriptor: Result<CssCounterStyleDescriptorName, CssParseError>)
    ensures
        match counter_style_descriptor_name_of(name@) {
            Some(d) => descriptor == Ok::<CssCounterStyleDescriptorName, CssParseError>(d),
            None => {
                &&& descriptor matches Err(e)
                &&& raised_at(descriptor->Err_0, location)
                &&& custom_kind(descriptor->Err_0) matches ErrorKind::UnknownDescriptor(d)
                &&& d.spec_at_rule()@ == "counter-style"@
                &&& d.spec_descriptor()@ == name@
            },
        },
{
    if eq_ignore_ascii_case(name, "system") {
        Ok(CssCounterStyleDescriptorName::System)
    } else if eq_ignore_ascii_case(name, "negative") {
        Ok(CssCounterStyleDescriptorName::Negative)
    } else if eq_ignore_ascii_case(name, "symbols") {
        Ok(CssCounterStyleDescriptorName::Symbols)
    } else if eq_ignore_ascii_case(name, "prefix") {
        Ok(CssCounterStyleDescriptorName::Prefix)
    } else if eq_ignore_ascii_case(name, "suffix") {
        Ok(CssCounterStyleDescriptorName::Suffix)
    } else if eq_ignore_ascii_case(name, "range") {
        Ok(CssCounterStyleDescriptorName::Range)
    } else if eq_ignore_ascii_case(name, "pad") {
        Ok(CssCounterStyleDescriptorName::Pad)
    } else if eq_ignore_ascii_case(name, "fallback") {
        Ok(CssCounterStyleDescriptorName::Fallback)
    } else if eq_ignore_ascii_case(name, "additive-symbols") {
        Ok(CssCounterStyleDescriptorName::AdditiveSymbols)
    } else if eq_ignore_ascii_case(name, "speak-as") {
        Ok(CssCounterStyleDescriptorName::SpeakAs)
    } else {
        Err(descriptor_name_error(location, "counter-style", name))
    }
}

} // verus!
