//! Construction and re-contextualization of strict parse diagnostics.
//!
//! A parse failure travels as a [`CssParseError`]: either a basic tokenizer-level failure or a
//! custom [`Error`], together with the tokenizer location where it was raised. The functions here
//! build custom diagnostics and rewrite failures into the diagnostic of the enclosing grammar
//! context, keeping the responsible token.
use vstd::prelude::*;

use crate::error::{
    encountered_of, expect_color, expect_css_syntax, expect_declaration_value,
    expect_descriptor_value, expect_encoding_declaration, expect_media_query, expect_property_value,
    expect_selector, qualified_rule_production, selector_list_production,
    CssAtRuleName, CssAtRuleSyntaxError, CssDescriptorCombinationError, CssColorComponentName, CssColorSyntaxError,
    CssDeclarationAnnotationError, CssDeclarationContext, CssDescriptorName, CssDescriptorValueError,
    CssEncodingDeclarationError, CssFeatureId, CssGrammarExpectation, CssMediaFeatureName,
    CssMediaQueryError, CssProductionId, CssPropertyName, CssPropertyValueError, CssQualifiedRuleError,
    CssSelectorError, CssTokenKind, CssTokenSummary, CssUnexpectedEndError, CssUnexpectedTokenError,
    CssUnknownAtRuleError, CssUnknownDescriptorError, CssUnsupportedAtRuleError,
    CssUnsupportedPropertyError, Error, ErrorKind,
};
use crate::conformance::{
    feature_has_id, feature_names_property, property_metadata, spec_feature_catalog, CssFeatureMetadata,
};
use crate::properties::CssKnownProperty;
use crate::search::first_match;
use crate::source::{CssSourceLocation, CssSourcePosition};
use crate::syntax::CssCustomPropertyName;
use crate::text::{
    chars_ascii_case_eq, contains_char, eq_ignore_ascii_case, is_alphanumeric, last_non_white_space,
    last_non_white_space_char, leading_white_space_len, trim_start_of, unicode_alphanumeric,
};
use vstd::string::{StrSliceExecFns, StringSliceAdditionalSpecFns};

verus! {

broadcast use {Error::lemma_at_parts, Error::lemma_new_parts};

/// A tokenizer-level parse failure, before it is given a grammar context.
#[derive(Clone, Debug, PartialEq, Eq)]
pub enum CssBasicParseErrorKind {
    /// The tokenizer produced a token the active grammar did not accept.
    UnexpectedToken(CssTokenSummary),
    /// The input ended where more syntax was required.
    EndOfInput,
    /// An at-rule with the given decoded name was not accepted.
    AtRuleInvalid(String),
    /// An at-rule body was not accepted.
    AtRuleBodyInvalid,
    /// A qualified rule was not accepted.
    QualifiedRuleInvalid,
}

/// A tokenizer-level parse failure at a tokenizer location.
#[derive(Clone, Debug, PartialEq, Eq)]
pub struct CssBasicParseError {
    /// What failed.
    pub kind: CssBasicParseErrorKind,
    /// Where it failed.
    pub location: CssSourceLocation,
}

/// A parse failure: a tokenizer-level failure or a custom diagnostic.
#[derive(Clone, Debug, PartialEq, Eq)]
pub enum CssParseErrorKind {
    /// A tokenizer-level failure.
    Basic(CssBasicParseErrorKind),
    /// A structured diagnostic.
    Custom(Error),
}

/// A parse failure together with the tokenizer location where it was raised.
#[derive(Clone, Debug, PartialEq, Eq)]
pub struct CssParseError {
    /// What failed.
    pub kind: CssParseErrorKind,
    /// Where it failed.
    pub location: CssSourceLocation,
}

/// The custom diagnostic `kind` raised at `location`.
pub open spec fn custom_error_at(location: CssSourceLocation, kind: ErrorKind) -> CssParseError {
    CssParseError { kind: CssParseErrorKind::Custom(Error::spec_at(location, kind)), location }
}

/// Whether `error` is a custom diagnostic raised at `location`, positioned at that location.
pub open spec fn raised_at(error: CssParseError, location: CssSourceLocation) -> bool {
    &&& error.location == location
    &&& error.kind matches CssParseErrorKind::Custom(e)
    &&& e.spec_position() == CssSourcePosition::spec_from_source_location(location)
}

/// The diagnostic kind of a custom parse failure.
pub open spec fn custom_kind(error: CssParseError) -> ErrorKind
    recommends
        error.kind is Custom,
{
    error.kind->Custom_0.spec_kind()
}

/// The responsible token a parse failure carries: the token of a tokenizer-level unexpected
/// token, or the token a custom diagnostic retains.
pub open spec fn parse_encountered_of(kind: CssParseErrorKind) -> Option<CssTokenSummary> {
    match kind {
        CssParseErrorKind::Basic(CssBasicParseErrorKind::UnexpectedToken(token)) => Some(token),
        CssParseErrorKind::Custom(error) => encountered_of(error.spec_kind()),
        _ => None,
    }
}

/// Whether a token summary is the `!` delimiter that starts a declaration annotation.
pub open spec fn is_bang(token: CssTokenSummary) -> bool {
    token.spec_kind() == CssTokenKind::Delim && token.spec_authored() == "!"@
}

/// Whether an optional decoded name has the given optional authored spelling.
pub open spec fn optional_name_matches<N: View<V = Seq<char>>>(name: Option<N>, spelling: Option<&str>) -> bool {
    match (name, spelling) {
        (Some(n), Some(s)) => n@ == s@,
        (None, None) => true,
        _ => false,
    }
}

/// Returns the custom diagnostic `kind` raised at `location`.
pub fn error_at(location: CssSourceLocation, kind: ErrorKind) -> (error: CssParseError)
    ensures
        error == custom_error_at(location, kind),
{
    CssParseError { kind: CssParseErrorKind::Custom(Error::at(location, kind)), location }
}

/// Returns the diagnostic for a missing declaration value at `location`.
pub fn unexpected_at(location: CssSourceLocation) -> (error: CssParseError)
    ensures
        error == custom_error_at(
            location,
            ErrorKind::UnexpectedEnd(CssUnexpectedEndError::new(expect_declaration_value())),
        ),
{
    error_at(location, ErrorKind::UnexpectedEnd(CssUnexpectedEndError::new(expect_declaration_value())))
}

/// Returns the diagnostic for a value the current grammar does not support; the property and
/// the reason are descriptive only.
pub fn unsupported_value(
    location: CssSourceLocation,
    _property: Option<&str>,
    _reason: &str,
) -> (error: CssParseError)
    ensures
        error == custom_error_at(
            location,
            ErrorKind::UnexpectedEnd(CssUnexpectedEndError::new(expect_declaration_value())),
        ),
{
    unexpected_at(location)
}

/// Returns the diagnostic for a value the current grammar does not support at an earlier
/// location; the property and the reason are descriptive only.
pub fn unsupported_value_at(
    location: CssSourceLocation,
    _property: Option<&str>,
    _reason: &str,
) -> (error: CssParseError)
    ensures
        error == custom_error_at(
            location,
            ErrorKind::UnexpectedEnd(CssUnexpectedEndError::new(expect_declaration_value())),
        ),
{
    error_at(location, ErrorKind::UnexpectedEnd(CssUnexpectedEndError::new(expect_declaration_value())))
}

/// Returns the diagnostic for an invalid encoding declaration that ended without a token.
pub fn invalid_encoding_declaration(location: CssSourceLocation) -> (error: CssParseError)
    ensures
        error == custom_error_at(
            location,
            ErrorKind::InvalidEncodingDeclaration(
                CssEncodingDeclarationError::new(expect_encoding_declaration(), None),
            ),
        ),
{
    error_at(
        location,
        ErrorKind::InvalidEncodingDeclaration(
            CssEncodingDeclarationError::new(expect_encoding_declaration(), None),
        ),
    )
}

/// Returns the diagnostic for an invalid qualified rule; the reason is descriptive only.
pub fn invalid_syntax(location: CssSourceLocation, _reason: &str) -> (error: CssParseError)
    ensures
        error == custom_error_at(
            location,
            ErrorKind::InvalidQualifiedRule(
                CssQualifiedRuleError::new(qualified_rule_production(), expect_css_syntax(), None),
            ),
        ),
{
    error_at(
        location,
        ErrorKind::InvalidQualifiedRule(
            CssQualifiedRuleError::new(qualified_rule_production(), expect_css_syntax(), None),
        ),
    )
}

/// Returns the diagnostic for an invalid selector; the reason is descriptive only.
pub fn invalid_selector(location: CssSourceLocation, _reason: &str) -> (error: CssParseError)
    ensures
        error == custom_error_at(
            location,
            ErrorKind::InvalidSelector(
                CssSelectorError::new(Some(selector_list_production()), expect_selector(), None),
            ),
        ),
{
    error_at(
        location,
        ErrorKind::InvalidSelector(
            CssSelectorError::new(Some(selector_list_production()), expect_selector(), None),
        ),
    )
}

/// Returns the diagnostic for an at-rule named `name` outside its permitted grammar context.
pub fn invalid_at_rule_placement(
    location: CssSourceLocation,
    name: &str,
    expected_context: &'static str,
) -> (error: CssParseError)
    ensures
        raised_at(error, location),
        custom_kind(error) matches ErrorKind::InvalidAtRulePlacement(d) && d.spec_name()@ == name@
            && d.spec_expected_context() == CssGrammarExpectation::new(expected_context),
{
    error_at(
        location,
        ErrorKind::InvalidAtRulePlacement(
            crate::error::CssAtRulePlacementError::new(
                CssAtRuleName::new(name),
                CssGrammarExpectation::new(expected_context),
            ),
        ),
    )
}

/// The catalog record that describes the property named `name`, when there is one.
pub open spec fn property_record_of(name: &str) -> Option<CssFeatureMetadata> {
    first_match(spec_feature_catalog(), |f: CssFeatureMetadata| feature_names_property(f, name))
}

/// Returns the support-catalog identity of a recognized authored property: the id of the
/// catalog record that describes the property `name` names.
pub fn property_feature_id(name: &str) -> (feature: CssFeatureId)
    requires
        property_record_of(name) is Some,
    ensures
        feature == property_record_of(name)->0.spec_id(),
        spec_feature_catalog().contains(property_record_of(name)->0),
        exists|f: CssFeatureMetadata| spec_feature_catalog().contains(f) && feature_has_id(f, feature@),
{
    let metadata = property_metadata(name).unwrap();
    let feature = metadata.feature().id();
    proof {
        assert(feature_has_id(metadata.spec_feature(), feature@));
    }
    feature
}

/// Returns the diagnostic for a recognized authored property named `name` that is unsupported,
/// naming the catalog record of that property.
pub fn unsupported_property(location: CssSourceLocation, name: &str) -> (error: CssParseError)
    requires
        property_record_of(name) is Some,
    ensures
        raised_at(error, location),
        custom_kind(error) matches ErrorKind::UnsupportedProperty(d) && d.spec_name()@ == name@
            && d.spec_feature() == property_record_of(name)->0.spec_id(),
{
    error_at(
        location,
        ErrorKind::UnsupportedProperty(
            CssUnsupportedPropertyError::new(CssPropertyName::new(name), property_feature_id(name)),
        ),
    )
}

/// Returns the diagnostic for a descriptor `name` unknown to the at-rule `at_rule`.
pub fn descriptor_name_error(location: CssSourceLocation, at_rule: &str, name: &str) -> (error: CssParseError)
    ensures
        raised_at(error, location),
        custom_kind(error) matches ErrorKind::UnknownDescriptor(d) && d.spec_at_rule()@ == at_rule@
            && d.spec_descriptor()@ == name@,
{
    error_at(
        location,
        ErrorKind::UnknownDescriptor(
            CssUnknownDescriptorError::new(CssAtRuleName::new(at_rule), CssDescriptorName::new(name)),
        ),
    )
}

/// Returns the diagnostic for invalid color syntax, naming the responsible component if known.
pub fn invalid_color(location: CssSourceLocation, component: Option<&str>) -> (error: CssParseError)
    ensures
        raised_at(error, location),
        custom_kind(error) matches ErrorKind::InvalidColorSyntax(d) && optional_name_matches(
            d.spec_component(),
            component,
        ) && d.spec_expectation() == expect_color() && d.spec_encountered() is None,
{
    let component = match component {
        Some(name) => Some(CssColorComponentName::new(name)),
        None => None,
    };
    error_at(
        location,
        ErrorKind::InvalidColorSyntax(CssColorSyntaxError::new(component, expect_color(), None)),
    )
}

/// Returns the diagnostic for a misplaced annotation on a declaration of a known property.
pub fn invalid_known_declaration_annotation(
    location: CssSourceLocation,
    property: CssKnownProperty,
    keyframe: bool,
) -> (error: CssParseError)
    ensures
        raised_at(error, location),
        custom_kind(error) matches ErrorKind::InvalidDeclarationAnnotation(d) && d.spec_context() == (
        if keyframe {
            CssDeclarationContext::Keyframe(property)
        } else {
            CssDeclarationContext::OrdinaryKnown(property)
        }) && is_bang(d.spec_encountered()),
{
    let context = if keyframe {
        CssDeclarationContext::Keyframe(property)
    } else {
        CssDeclarationContext::OrdinaryKnown(property)
    };
    error_at(
        location,
        ErrorKind::InvalidDeclarationAnnotation(
            CssDeclarationAnnotationError::new(context, CssTokenSummary::bang()),
        ),
    )
}

/// Returns the diagnostic for a misplaced annotation on a custom property declaration.
pub fn invalid_custom_declaration_annotation(
    location: CssSourceLocation,
    property: &CssCustomPropertyName,
    keyframe: bool,
) -> (error: CssParseError)
    ensures
        raised_at(error, location),
        custom_kind(error) matches ErrorKind::InvalidDeclarationAnnotation(d) && d.spec_context() == (
        if keyframe {
            CssDeclarationContext::KeyframeCustom(*property)
        } else {
            CssDeclarationContext::OrdinaryCustom(*property)
        }) && is_bang(d.spec_encountered()),
{
    let context = if keyframe {
        CssDeclarationContext::KeyframeCustom(property.duplicate())
    } else {
        CssDeclarationContext::OrdinaryCustom(property.duplicate())
    };
    error_at(
        location,
        ErrorKind::InvalidDeclarationAnnotation(
            CssDeclarationAnnotationError::new(context, CssTokenSummary::bang()),
        ),
    )
}

/// Returns the diagnostic for a misplaced annotation on a descriptor of an at-rule.
pub fn invalid_descriptor_annotation(
    location: CssSourceLocation,
    at_rule: &str,
    descriptor: &str,
) -> (error: CssParseError)
    ensures
        raised_at(error, location),
        custom_kind(error) matches ErrorKind::InvalidDeclarationAnnotation(d) && d.spec_context() matches CssDeclarationContext::Descriptor {
            at_rule: a,
            descriptor: n,
        } && a@ == at_rule@ && n@ == descriptor@ && is_bang(d.spec_encountered()),
{
    error_at(
        location,
        ErrorKind::InvalidDeclarationAnnotation(
            CssDeclarationAnnotationError::new(
                CssDeclarationContext::Descriptor {
                    at_rule: CssAtRuleName::new(at_rule),
                    descriptor: CssDescriptorName::new(descriptor),
                },
                CssTokenSummary::bang(),
            ),
        ),
    )
}

/// Returns the tokenizer-level failure as a parse failure at the same location.
pub fn basic(error: CssBasicParseError) -> (converted: CssParseError)
    ensures
        converted == (CssParseError { kind: CssParseErrorKind::Basic(error.kind), location: error.location }),
{
    CssParseError { kind: CssParseErrorKind::Basic(error.kind), location: error.location }
}

/// Returns the selector diagnostic for a tokenizer-level failure inside a selector list,
/// keeping the unexpected token when there is one.
pub fn selector_basic(error: CssBasicParseError) -> (converted: CssParseError)
    ensures
        converted == custom_error_at(
            error.location,
            ErrorKind::InvalidSelector(
                CssSelectorError::new(
                    Some(selector_list_production()),
                    expect_selector(),
                    match error.kind {
                        CssBasicParseErrorKind::UnexpectedToken(token) => Some(token),
                        _ => None,
                    },
                ),
            ),
        ),
{
    let location = error.location;
    let encountered = match error.kind {
        CssBasicParseErrorKind::UnexpectedToken(token) => Some(token),
        _ => None,
    };
    error_at(
        location,
        ErrorKind::InvalidSelector(
            CssSelectorError::new(Some(selector_list_production()), expect_selector(), encountered),
        ),
    )
}

/// The catalog feature of a recognized at-rule outside the supported subset.
pub open spec fn unsupported_at_rule_feature_of(name: Seq<char>) -> Option<CssFeatureId> {
    if chars_ascii_case_eq(name, "namespace"@) {
        Some(CssFeatureId::new("later.rule.namespace"))
    } else if chars_ascii_case_eq(name, "supports"@) {
        Some(CssFeatureId::new("later.rule.supports"))
    } else if chars_ascii_case_eq(name, "counter-style"@) {
        Some(CssFeatureId::new("later.rule.counter-style"))
    } else if chars_ascii_case_eq(name, "page"@) {
        Some(CssFeatureId::new("later.rule.page"))
    } else if chars_ascii_case_eq(name, "font-feature-values"@) {
        Some(CssFeatureId::new("later.rule.font-feature-values"))
    } else {
        None
    }
}

/// Returns the catalog feature of a recognized but unsupported at-rule, matching the name
/// ignoring ASCII case, or `None` for any other name.
pub fn unsupported_at_rule_feature(name: &str) -> (feature: Option<CssFeatureId>)
    ensures
        feature == unsupported_at_rule_feature_of(name@),
{
    if eq_ignore_ascii_case(name, "namespace") {
        Some(CssFeatureId::new("later.rule.namespace"))
    } else if eq_ignore_ascii_case(name, "supports") {
        Some(CssFeatureId::new("later.rule.supports"))
    } else if eq_ignore_ascii_case(name, "counter-style") {
        Some(CssFeatureId::new("later.rule.counter-style"))
    } else if eq_ignore_ascii_case(name, "page") {
        Some(CssFeatureId::new("later.rule.page"))
    } else if eq_ignore_ascii_case(name, "font-feature-values") {
        Some(CssFeatureId::new("later.rule.font-feature-values"))
    } else {
        None
    }
}

/// The grammar production of an at-rule by name, ignoring ASCII case.
pub open spec fn production_for_at_rule_of(name: Seq<char>) -> CssProductionId {
    if chars_ascii_case_eq(name, "import"@) {
        CssProductionId::new("baseline.rule.import")
    } else if chars_ascii_case_eq(name, "layer"@) {
        CssProductionId::new("baseline.rule.layer-block")
    } else if chars_ascii_case_eq(name, "font-face"@) {
        CssProductionId::new("baseline.rule.font-face")
    } else if chars_ascii_case_eq(name, "keyframes"@) {
        CssProductionId::new("baseline.rule.keyframes")
    } else if chars_ascii_case_eq(name, "media"@) {
        CssProductionId::new("baseline.rule.media")
    } else if chars_ascii_case_eq(name, "container"@) {
        CssProductionId::new("baseline.rule.container")
    } else if chars_ascii_case_eq(name, "scope"@) {
        CssProductionId::new("baseline.rule.scope")
    } else {
        CssProductionId::new("css.at-rule")
    }
}

/// Returns the grammar production of the at-rule named `name`, ignoring ASCII case; unknown
/// names map to the generic at-rule production.
pub fn production_for_at_rule(name: &str) -> (production: CssProductionId)
    ensures
        production == production_for_at_rule_of(name@),
{
    if eq_ignore_ascii_case(name, "import") {
        CssProductionId::new("baseline.rule.import")
    } else if eq_ignore_ascii_case(name, "layer") {
        CssProductionId::new("baseline.rule.layer-block")
    } else if eq_ignore_ascii_case(name, "font-face") {
        CssProductionId::new("baseline.rule.font-face")
    } else if eq_ignore_ascii_case(name, "keyframes") {
        CssProductionId::new("baseline.rule.keyframes")
    } else if eq_ignore_ascii_case(name, "media") {
        CssProductionId::new("baseline.rule.media")
    } else if eq_ignore_ascii_case(name, "container") {
        CssProductionId::new("baseline.rule.container")
    } else if eq_ignore_ascii_case(name, "scope") {
        CssProductionId::new("baseline.rule.scope")
    } else {
        CssProductionId::new("css.at-rule")
    }
}

/// Whether the at-rule named `name` (ignoring ASCII case) must have a block body.
pub open spec fn at_rule_requires_block_of(name: Seq<char>) -> bool {
    ||| chars_ascii_case_eq(name, "font-face"@)
    ||| chars_ascii_case_eq(name, "keyframes"@)
    ||| chars_ascii_case_eq(name, "media"@)
    ||| chars_ascii_case_eq(name, "container"@)
    ||| chars_ascii_case_eq(name, "scope"@)
}

/// Returns whether the at-rule named `name` (ignoring ASCII case) must have a block body.
pub fn at_rule_requires_block(name: &str) -> (requires_block: bool)
    ensures
        requires_block == at_rule_requires_block_of(name@),
{
    eq_ignore_ascii_case(name, "font-face") || eq_ignore_ascii_case(name, "keyframes")
        || eq_ignore_ascii_case(name, "media") || eq_ignore_ascii_case(name, "container")
        || eq_ignore_ascii_case(name, "scope")
}

/// Whether `error` is the structured diagnostic of the tokenizer-level failure `kind` at
/// `location`: at the unresolved position of the location, an end of input or unexpected token
/// against valid CSS syntax, an invalid at-rule as unsupported when the catalog recognizes its
/// name and unknown otherwise, an invalid qualified rule, or an invalid body of the generic
/// at-rule production.
pub open spec fn is_basic_error(error: Error, location: CssSourceLocation, kind: CssBasicParseErrorKind) -> bool {
    &&& error.spec_position() == CssSourcePosition::spec_from_source_location(location)
    &&& match kind {
        CssBasicParseErrorKind::EndOfInput => error == Error::spec_at(
            location,
            ErrorKind::UnexpectedEnd(CssUnexpectedEndError::new(expect_css_syntax())),
        ),
        CssBasicParseErrorKind::UnexpectedToken(token) => error == Error::spec_at(
            location,
            ErrorKind::UnexpectedToken(CssUnexpectedTokenError::new(expect_css_syntax(), token)),
        ),
        CssBasicParseErrorKind::AtRuleInvalid(name) => match unsupported_at_rule_feature_of(name@) {
            Some(feature) => error.spec_kind() matches ErrorKind::UnsupportedAtRule(d)
                && d.spec_name()@ == name@ && d.spec_feature() == feature,
            None => error.spec_kind() matches ErrorKind::UnknownAtRule(d) && d.spec_name()@
                == name@,
        },
        CssBasicParseErrorKind::QualifiedRuleInvalid => error == Error::spec_at(
            location,
            ErrorKind::InvalidQualifiedRule(
                CssQualifiedRuleError::new(qualified_rule_production(), expect_css_syntax(), None),
            ),
        ),
        CssBasicParseErrorKind::AtRuleBodyInvalid => error.spec_kind() matches ErrorKind::InvalidAtRuleBody(d)
            && d.spec_name()@ == "at-rule"@ && d.spec_production() == CssProductionId::new(
            "css.at-rule",
        ) && d.spec_expectation() == expect_css_syntax() && d.spec_encountered() is None,
    }
}

/// Returns the structured diagnostic of a tokenizer-level failure at `location`.
///
/// An invalid at-rule is unsupported when the catalog recognizes its name and unknown otherwise;
/// an invalid body is attributed to the generic at-rule production until the authored name is
/// known.
pub fn basic_error(location: CssSourceLocation, kind: CssBasicParseErrorKind) -> (error: Error)
    ensures
        is_basic_error(error, location, kind),
{
    match kind {
        CssBasicParseErrorKind::EndOfInput => Error::at(
            location,
            ErrorKind::UnexpectedEnd(CssUnexpectedEndError::new(expect_css_syntax())),
        ),
        CssBasicParseErrorKind::UnexpectedToken(token) => Error::at(
            location,
            ErrorKind::UnexpectedToken(CssUnexpectedTokenError::new(expect_css_syntax(), token)),
        ),
        CssBasicParseErrorKind::AtRuleInvalid(name) => {
            let feature = unsupported_at_rule_feature(name.as_str());
            match feature {
                Some(feature) => Error::at(
                    location,
                    ErrorKind::UnsupportedAtRule(
                        CssUnsupportedAtRuleError::new(CssAtRuleName::from_string(name), feature),
                    ),
                ),
                None => Error::at(
                    location,
                    ErrorKind::UnknownAtRule(CssUnknownAtRuleError::new(CssAtRuleName::from_string(name))),
                ),
            }
        },
        CssBasicParseErrorKind::QualifiedRuleInvalid => Error::at(
            location,
            ErrorKind::InvalidQualifiedRule(
                CssQualifiedRuleError::new(qualified_rule_production(), expect_css_syntax(), None),
            ),
        ),
        CssBasicParseErrorKind::AtRuleBodyInvalid => Error::at(
            location,
            ErrorKind::InvalidAtRuleBody(
                CssAtRuleSyntaxError::new(
                    CssAtRuleName::new("at-rule"),
                    CssProductionId::new("css.at-rule"),
                    expect_css_syntax(),
                    None,
                ),
            ),
        ),
    }
}

/// Returns an owned copy of an optional borrowed token summary.
fn copy_token(token: Option<&CssTokenSummary>) -> (copy: Option<CssTokenSummary>)
    ensures
        copy == match token {
            Some(t) => Some(*t),
            None => None::<CssTokenSummary>,
        },
{
    match token {
        Some(t) => Some(t.duplicate()),
        None => None,
    }
}

/// Returns a copy of the responsible token a parse failure carries: the unexpected token of a
/// tokenizer-level failure, or the token a custom diagnostic retains.
pub fn take_encountered(kind: &CssParseErrorKind) -> (token: Option<CssTokenSummary>)
    ensures
        token == parse_encountered_of(*kind),
{
    match kind {
        CssParseErrorKind::Basic(CssBasicParseErrorKind::UnexpectedToken(token)) => Some(
            token.duplicate(),
        ),
        CssParseErrorKind::Custom(error) => match error.kind() {
            ErrorKind::UnexpectedToken(d) => Some(d.encountered().duplicate()),
            ErrorKind::InvalidEncodingDeclaration(d) => copy_token(d.encountered()),
            ErrorKind::InvalidAtRulePrelude(d) => copy_token(d.encountered()),
            ErrorKind::InvalidAtRuleBody(d) => copy_token(d.encountered()),
            ErrorKind::InvalidQualifiedRule(d) => copy_token(d.encountered()),
            ErrorKind::InvalidSelector(d) => copy_token(d.encountered()),
            ErrorKind::InvalidMediaQuery(d) => copy_token(d.encountered()),
            ErrorKind::InvalidPropertyValue(d) => copy_token(d.encountered()),
            ErrorKind::InvalidDeclarationAnnotation(d) => Some(d.encountered().duplicate()),
            ErrorKind::InvalidDescriptorValue(d) => copy_token(d.encountered()),
            ErrorKind::InvalidColorSyntax(d) => copy_token(d.encountered()),
            _ => None,
        },
        _ => None,
    }
}

/// The diagnostic kind of a parse failure that is a custom diagnostic.
pub open spec fn custom_kind_of(kind: CssParseErrorKind) -> Option<ErrorKind> {
    match kind {
        CssParseErrorKind::Custom(error) => Some(error.spec_kind()),
        _ => None,
    }
}

/// Returns whether a parse failure is the custom nesting-limit diagnostic.
pub fn is_nesting_limit_error(error: &CssParseError) -> (is_limit: bool)
    ensures
        is_limit == (custom_kind_of(error.kind) matches Some(ErrorKind::NestingLimit(_))),
{
    match &error.kind {
        CssParseErrorKind::Custom(e) => match e.kind() {
            ErrorKind::NestingLimit(_) => true,
            _ => false,
        },
        _ => false,
    }
}

/// Returns the failure re-raised as an invalid encoding declaration, keeping the responsible
/// token.
pub fn with_encoding_declaration_context(error: CssParseError) -> (contextual: CssParseError)
    ensures
        contextual == custom_error_at(
            error.location,
            ErrorKind::InvalidEncodingDeclaration(
                CssEncodingDeclarationError::new(
                    expect_encoding_declaration(),
                    parse_encountered_of(error.kind),
                ),
            ),
        ),
{
    let encountered = take_encountered(&error.kind);
    error_at(
        error.location,
        ErrorKind::InvalidEncodingDeclaration(
            CssEncodingDeclarationError::new(expect_encoding_declaration(), encountered),
        ),
    )
}

/// Returns the failure re-raised as an invalid prelude of the at-rule `name`, keeping the
/// responsible token; a media-query diagnostic is already specific and is kept as it is.
pub fn with_at_rule_prelude_context(
    error: CssParseError,
    name: &str,
    production: &'static str,
    expectation: &'static str,
) -> (contextual: CssParseError)
    ensures
        custom_kind_of(error.kind) matches Some(ErrorKind::InvalidMediaQuery(_)) ==> contextual
            == error,
        !(custom_kind_of(error.kind) matches Some(ErrorKind::InvalidMediaQuery(_))) ==> {
            &&& raised_at(contextual, error.location)
            &&& custom_kind(contextual) matches ErrorKind::InvalidAtRulePrelude(d)
            &&& d.spec_name()@ == name@
            &&& d.spec_production() == CssProductionId::new(production)
            &&& d.spec_expectation() == CssGrammarExpectation::new(expectation)
            &&& d.spec_encountered() == parse_encountered_of(error.kind)
        },
{
    let encountered = take_encountered(&error.kind);
    if let CssParseErrorKind::Custom(e) = &error.kind {
        if let ErrorKind::InvalidMediaQuery(_) = e.kind() {
            return error;
        }
    }
    error_at(
        error.location,
        ErrorKind::InvalidAtRulePrelude(
            CssAtRuleSyntaxError::new(
                CssAtRuleName::new(name),
                CssProductionId::new(production),
                CssGrammarExpectation::new(expectation),
                encountered,
            ),
        ),
    )
}

/// Returns the diagnostic for an invalid body of the at-rule `name` at an exact authored
/// position whose byte offset is already known.
pub fn invalid_at_rule_body_at(
    position: CssSourcePosition,
    location: CssSourceLocation,
    name: &str,
    production: &'static str,
    expectation: &'static str,
) -> (error: CssParseError)
    requires
        position.spec_byte_offset() != 0,
    ensures
        error.location == location,
        ({
            &&& error.kind matches CssParseErrorKind::Custom(e)
            &&& e.spec_position() == position
            &&& e.spec_kind() matches ErrorKind::InvalidAtRuleBody(d)
            &&& d.spec_name()@ == name@
            &&& d.spec_production() == CssProductionId::new(production)
            &&& d.spec_expectation() == CssGrammarExpectation::new(expectation)
            &&& d.spec_encountered() is None
        }),
{
    CssParseError {
        kind: CssParseErrorKind::Custom(
            Error::at_exact_nonzero_byte_offset(
                position,
                ErrorKind::InvalidAtRuleBody(
                    CssAtRuleSyntaxError::new(
                        CssAtRuleName::new(name),
                        CssProductionId::new(production),
                        CssGrammarExpectation::new(expectation),
                        None,
                    ),
                ),
            ),
        ),
        location,
    }
}

/// Returns the failure re-raised as invalid color syntax, keeping the responsible token; a color
/// diagnostic is already specific and is kept as it is.
pub fn with_color_context(error: CssParseError, component: Option<&str>) -> (contextual: CssParseError)
    ensures
        custom_kind_of(error.kind) matches Some(ErrorKind::InvalidColorSyntax(_)) ==> contextual
            == error,
        !(custom_kind_of(error.kind) matches Some(ErrorKind::InvalidColorSyntax(_))) ==> {
            &&& raised_at(contextual, error.location)
            &&& custom_kind(contextual) matches ErrorKind::InvalidColorSyntax(d)
            &&& optional_name_matches(d.spec_component(), component)
            &&& d.spec_expectation() == expect_color()
            &&& d.spec_encountered() == parse_encountered_of(error.kind)
        },
{
    if let CssParseErrorKind::Custom(e) = &error.kind {
        if let ErrorKind::InvalidColorSyntax(_) = e.kind() {
            return error;
        }
    }
    let encountered = take_encountered(&error.kind);
    let component = match component {
        Some(name) => Some(CssColorComponentName::new(name)),
        None => None,
    };
    error_at(
        error.location,
        ErrorKind::InvalidColorSyntax(CssColorSyntaxError::new(component, expect_color(), encountered)),
    )
}

/// Returns the failure re-raised as an invalid media query, keeping the responsible token; a
/// media-query diagnostic is already specific and is kept as it is.
pub fn with_media_query_context(error: CssParseError, feature: Option<&str>) -> (contextual: CssParseError)
    ensures
        custom_kind_of(error.kind) matches Some(ErrorKind::InvalidMediaQuery(_)) ==> contextual
            == error,
        !(custom_kind_of(error.kind) matches Some(ErrorKind::InvalidMediaQuery(_))) ==> {
            &&& raised_at(contextual, error.location)
            &&& custom_kind(contextual) matches ErrorKind::InvalidMediaQuery(d)
            &&& optional_name_matches(d.spec_feature(), feature)
            &&& d.spec_expectation() == expect_media_query()
            &&& d.spec_encountered() == parse_encountered_of(error.kind)
        },
{
    if let CssParseErrorKind::Custom(e) = &error.kind {
        if let ErrorKind::InvalidMediaQuery(_) = e.kind() {
            return error;
        }
    }
    let encountered = take_encountered(&error.kind);
    let feature = match feature {
        Some(name) => Some(CssMediaFeatureName::new(name)),
        None => None,
    };
    error_at(
        error.location,
        ErrorKind::InvalidMediaQuery(CssMediaQueryError::new(feature, expect_media_query(), encountered)),
    )
}

/// Returns the failure re-raised as an invalid value of the supported property `property`,
/// keeping the responsible token. A failure in a declaration whose property is not supported
/// (`None`), and a color diagnostic, are kept as they are.
pub fn with_property_context(error: CssParseError, property: Option<CssKnownProperty>) -> (contextual: CssParseError)
    ensures
        (property is None || custom_kind_of(error.kind) matches Some(ErrorKind::InvalidColorSyntax(_)))
            ==> contextual == error,
        !(property is None || custom_kind_of(error.kind) matches Some(ErrorKind::InvalidColorSyntax(_)))
            ==> contextual == custom_error_at(
            error.location,
            ErrorKind::InvalidPropertyValue(
                CssPropertyValueError::new(
                    property->0,
                    expect_property_value(),
                    parse_encountered_of(error.kind),
                ),
            ),
        ),
{
    let property = match property {
        Some(property) => property,
        None => return error,
    };
    if let CssParseErrorKind::Custom(e) = &error.kind {
        if let ErrorKind::InvalidColorSyntax(_) = e.kind() {
            return error;
        }
    }
    let encountered = take_encountered(&error.kind);
    error_at(
        error.location,
        ErrorKind::InvalidPropertyValue(
            CssPropertyValueError::new(property, expect_property_value(), encountered),
        ),
    )
}

/// Whether a diagnostic kind already names a descriptor problem precisely enough to be kept in a
/// descriptor context.
pub open spec fn is_descriptor_specific(kind: ErrorKind) -> bool {
    ||| kind is UnknownDescriptor
    ||| kind is UnsupportedDescriptor
    ||| kind is InvalidDeclarationAnnotation
}

/// Returns the failure re-raised as an invalid value of the descriptor `descriptor` of the
/// at-rule `at_rule`, keeping the responsible token; unknown and unsupported descriptor
/// diagnostics and annotation diagnostics are kept as they are.
pub fn with_descriptor_context(error: CssParseError, at_rule: &str, descriptor: &str) -> (contextual: CssParseError)
    ensures
        (custom_kind_of(error.kind) matches Some(k) && is_descriptor_specific(k)) ==> contextual
            == error,
        !(custom_kind_of(error.kind) matches Some(k) && is_descriptor_specific(k)) ==> {
            &&& raised_at(contextual, error.location)
            &&& custom_kind(contextual) matches ErrorKind::InvalidDescriptorValue(d)
            &&& d.spec_at_rule()@ == at_rule@
            &&& d.spec_descriptor()@ == descriptor@
            &&& d.spec_expectation() == expect_descriptor_value()
            &&& d.spec_encountered() == parse_encountered_of(error.kind)
        },
{
    if let CssParseErrorKind::Custom(e) = &error.kind {
        match e.kind() {
            ErrorKind::UnknownDescriptor(_) => return error,
            ErrorKind::UnsupportedDescriptor(_) => return error,
            ErrorKind::InvalidDeclarationAnnotation(_) => return error,
            _ => {},
        }
    }
    let encountered = take_encountered(&error.kind);
    error_at(
        error.location,
        ErrorKind::InvalidDescriptorValue(
            CssDescriptorValueError::new(
                CssAtRuleName::new(at_rule),
                CssDescriptorName::new(descriptor),
                expect_descriptor_value(),
                encountered,
            ),
        ),
    )
}

/// The length of the at-rule name at the start of `s`: the characters before the first one that
/// is neither alphanumeric nor `-`.
pub open spec fn at_rule_name_len(s: Seq<char>) -> nat
    decreases s.len(),
{
    if s.len() > 0 && (unicode_alphanumeric(s[0]) || s[0] == '-') {
        1 + at_rule_name_len(s.skip(1))
    } else {
        0
    }
}

/// The at-rule name a failed rule unit starts with, when the unit starts with `@` after its
/// leading white space.
pub open spec fn failed_unit_at_rule_name(unit: Seq<char>) -> Option<Seq<char>> {
    let trimmed = trim_start_of(unit);
    if trimmed.len() > 0 && trimmed[0] == '@' {
        let after = trimmed.skip(1);
        Some(after.take(at_rule_name_len(after) as int))
    } else {
        None
    }
}

/// Returns the length of the at-rule name at the start of `s`.
fn at_rule_name_length(s: &str) -> (length: usize)
    ensures
        length == at_rule_name_len(s@),
        length <= s@.len(),
{
    let total = s.unicode_len();
    let mut i: usize = 0;
    proof {
        assert(s@.skip(0) =~= s@);
    }
    while i < total
        invariant
            total == s@.len(),
            0 <= i <= total,
            at_rule_name_len(s@) == i + at_rule_name_len(s@.skip(i as int)),
        decreases total - i,
    {
        proof {
            assert(s@.skip(i as int).skip(1) =~= s@.skip(i + 1));
        }
        let c = s.get_char(i);
        proof {
            assert(s@.skip(i as int)[0] == c);
        }
        if !(is_alphanumeric(c) || c == '-') {
            return i;
        }
        i = i + 1;
    }
    proof {
        assert(s@.skip(i as int).len() == 0);
    }
    i
}

/// Whether `result` is the diagnostic of a failed top-level rule unit, given the diagnostic
/// `error` its parser reported (already placed in the authored source).
///
/// A unit that starts with `@` and ends with `;`, for an at-rule that needs a block, is an
/// invalid at-rule body; a unit that is no at-rule and holds no `{` whose parser ran into an
/// unexpected end or token is an invalid qualified rule. Every other diagnostic is kept. The
/// position is kept in every case.
pub open spec fn reclassifies_rule_unit(failed_unit: Seq<char>, error: Error, result: Error) -> bool {
    &&& result.spec_position() == error.spec_position()
    &&& match failed_unit_at_rule_name(failed_unit) {
        Some(name) => if last_non_white_space(trim_start_of(failed_unit)) == Some(';')
            && at_rule_requires_block_of(name) {
            &&& result.spec_kind() matches ErrorKind::InvalidAtRuleBody(d)
            &&& d.spec_name()@ == name
            &&& d.spec_production() == production_for_at_rule_of(name)
            &&& d.spec_expectation() == CssGrammarExpectation::new("a block body for this at-rule")
            &&& d.spec_encountered() is None
        } else {
            result == error
        },
        None => if !trim_start_of(failed_unit).contains('{') && (error.spec_kind() is UnexpectedEnd
            || error.spec_kind() is UnexpectedToken) {
            result.spec_kind() == ErrorKind::InvalidQualifiedRule(
                CssQualifiedRuleError::new(qualified_rule_production(), expect_css_syntax(), None),
            )
        } else {
            result == error
        },
    }
}

/// Returns the diagnostic of a failed top-level rule unit, given the diagnostic its parser
/// reported; see [`reclassifies_rule_unit`].
pub fn rule_unit_error(failed_unit: &str, error: Error) -> (result: Error)
    ensures
        reclassifies_rule_unit(failed_unit@, error, result),
{
    let skip = leading_white_space_len(failed_unit);
    let length = failed_unit.unicode_len();
    let unit = failed_unit.substring_char(skip, length);
    let unit_length = unit.unicode_len();
    if unit_length > 0 && unit.get_char(0) == '@' {
        let after = unit.substring_char(1, unit_length);
        let name_length = at_rule_name_length(after);
        let name = after.substring_char(0, name_length);
        proof {
            assert(after@ == unit@.skip(1));
            assert(name@ == after@.take(name_length as int));
        }
        let ends_with_semicolon = match last_non_white_space_char(unit) {
            Some(c) => c == ';',
            None => false,
        };
        if ends_with_semicolon && at_rule_requires_block(name) {
            return error.with_kind(
                ErrorKind::InvalidAtRuleBody(
                    CssAtRuleSyntaxError::new(
                        CssAtRuleName::new(name),
                        production_for_at_rule(name),
                        CssGrammarExpectation::new("a block body for this at-rule"),
                        None,
                    ),
                ),
            );
        }
        error
    } else {
        let open_brace = contains_char(unit, '{');
        let unexpected = match error.kind() {
            ErrorKind::UnexpectedEnd(_) => true,
            ErrorKind::UnexpectedToken(_) => true,
            _ => false,
        };
        if !open_brace && unexpected {
            error.with_kind(
                ErrorKind::InvalidQualifiedRule(
                    CssQualifiedRuleError::new(qualified_rule_production(), expect_css_syntax(), None),
                ),
            )
        } else {
            error
        }
    }
}

/// Returns the structured diagnostic a parse failure carries, before it is placed in the authored
/// source: a custom diagnostic as it is, a tokenizer-level failure as [`basic_error`] builds it.
pub fn unresolved_error(error: CssParseError) -> (diagnostic: Error)
    ensures
        match error.kind {
            CssParseErrorKind::Custom(e) => diagnostic == e,
            CssParseErrorKind::Basic(kind) => is_basic_error(diagnostic, error.location, kind),
        },
{
    match error.kind {
        CssParseErrorKind::Custom(e) => e,
        CssParseErrorKind::Basic(kind) => basic_error(error.location, kind),
    }
}

/// The first index in `from..to` whose byte is `byte`, if any.
pub open spec fn first_byte_in(bytes: Seq<u8>, from: int, to: int, byte: u8) -> Option<int>
    decreases to - from,
{
    if from >= to {
        None
    } else if bytes[from] == byte {
        Some(from)
    } else {
        first_byte_in(bytes, from + 1, to, byte)
    }
}

/// The byte offset an encoding-declaration diagnostic without a responsible token is reported
/// at: the start of the failed unit when the unit ends with `;` (white space aside), else the
/// first `{` of the unit, else the unit's end.
pub open spec fn encoding_error_offset_of(source: &str, unit_start: int, unit_end: int, failed_unit: Seq<char>) -> int {
    if last_non_white_space(failed_unit) == Some(';') {
        unit_start
    } else {
        match first_byte_in(source.spec_bytes(), unit_start, unit_end, 0x7B) {
            Some(brace) => brace,
            None => unit_end,
        }
    }
}

/// Returns the byte offset an encoding-declaration diagnostic without a responsible token is
/// reported at, for the failed unit spanning bytes `unit_start..unit_end` of the source.
pub fn encoding_error_offset(source: &str, unit_start: usize, unit_end: usize, failed_unit: &str) -> (offset: usize)
    requires
        unit_start <= unit_end <= source.spec_bytes().len(),
        vstd::utf8::is_char_boundary(source.spec_bytes(), unit_start as int),
        vstd::utf8::is_char_boundary(source.spec_bytes(), unit_end as int),
    ensures
        offset == encoding_error_offset_of(source, unit_start as int, unit_end as int, failed_unit@),
        unit_start <= offset <= unit_end,
{
    let ends_with_semicolon = match last_non_white_space_char(failed_unit) {
        Some(c) => c == ';',
        None => false,
    };
    if ends_with_semicolon {
        return unit_start;
    }
    let bytes = source.as_bytes();
    let mut i: usize = unit_start;
    while i < unit_end
        invariant
            bytes@ == source.spec_bytes(),
            last_non_white_space(failed_unit@) != Some(';'),
            unit_start <= i <= unit_end <= bytes@.len(),
            first_byte_in(bytes@, unit_start as int, unit_end as int, 0x7B) == first_byte_in(
                bytes@,
                i as int,
                unit_end as int,
                0x7B,
            ),
        decreases unit_end - i,
    {
        if bytes[i] == 0x7B {
            return i;
        }
        i = i + 1;
    }
    unit_end
}

/// Returns the diagnostic for the descriptor `responsible` of the at-rule `at_rule`, which
/// conflicts with the descriptors `conflicting`.
pub fn invalid_descriptor_combination(
    location: CssSourceLocation,
    at_rule: &str,
    responsible: &str,
    conflicting: &[&str],
) -> (error: CssParseError)
    ensures
        raised_at(error, location),
        custom_kind(error) matches ErrorKind::InvalidDescriptorCombination(d) && d.spec_at_rule()@
            == at_rule@ && d.spec_responsible()@ == responsible@ && d.spec_conflicting()@.len()
            == conflicting@.len() && forall|i: int|
            0 <= i < conflicting@.len() ==> (#[trigger] d.spec_conflicting()@[i])@ == conflicting@[i]@,
{
    let mut names: Vec<CssDescriptorName> = Vec::new();
    let mut i: usize = 0;
    while i < conflicting.len()
        invariant
            0 <= i <= conflicting@.len(),
            names@.len() == i,
            forall|j: int| 0 <= j < i ==> (#[trigger] names@[j])@ == conflicting@[j]@,
        decreases conflicting@.len() - i,
    {
        names.push(CssDescriptorName::new(conflicting[i]));
        i = i + 1;
    }
    error_at(
        location,
        ErrorKind::InvalidDescriptorCombination(
            CssDescriptorCombinationError::new(
                CssAtRuleName::new(at_rule),
                CssDescriptorName::new(responsible),
                names,
            ),
        ),
    )
}

/// Records a `@font-face` descriptor in its slot, or refuses a descriptor given twice with the
/// combination diagnostic naming it; a refused descriptor leaves the first value in place.
pub fn set_descriptor<T>(slot: &mut Option<T>, value: T, location: CssSourceLocation, name: &str) -> (set: Result<(), CssParseError>)
    ensures
        set is Ok <==> (*old(slot)) is None,
        set is Ok ==> *final(slot) == Some(value),
        set matches Err(e) ==> {
            &&& *final(slot) == *old(slot)
            &&& raised_at(e, location)
            &&& custom_kind(e) matches ErrorKind::InvalidDescriptorCombination(d)
            &&& d.spec_at_rule()@ == "font-face"@
            &&& d.spec_responsible()@ == name@
            &&& d.spec_conflicting()@.len() == 1
            &&& d.spec_conflicting()@[0]@ == name@
        },
{
    if slot.is_some() {
        let conflicting = [name];
        return Err(invalid_descriptor_combination(location, "font-face", name, &conflicting));
    }
    *slot = Some(value);
    Ok(())
}

} // verus!
