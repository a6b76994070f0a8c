//! Structured diagnostics for strict CSS parse failures.
use vstd::prelude::*;

use crate::properties::CssKnownProperty;
use crate::source::{CssSourceLocation, CssSourcePosition};
use crate::syntax::CssCustomPropertyName;

verus! {

/// A stable machine-readable diagnostic-phase category for a strict CSS parse failure.
///
/// A code classifies the rejected authored syntax; it does not select recovery policy or
/// resolve authored values.
#[non_exhaustive]
#[derive(Clone, Copy, Debug, PartialEq, Eq, Hash, Structural)]
pub enum CssErrorCode {
    /// The parser required more authored syntax but reached the end of input.
    UnexpectedEnd,
    /// The parser encountered an authored token that the active grammar did not accept.
    UnexpectedToken,
    /// The authored encoding declaration did not satisfy its grammar or placement rules.
    InvalidEncodingDeclaration,
    /// An authored at-rule appeared outside its permitted grammar context.
    InvalidAtRulePlacement,
    /// An authored at-rule prelude did not satisfy the rule's grammar.
    InvalidAtRulePrelude,
    /// An authored at-rule body did not satisfy the rule's grammar.
    InvalidAtRuleBody,
    /// The authored at-rule name is not recognized by the CSS catalog.
    UnknownAtRule,
    /// The authored at-rule is recognized but is outside this crate's supported subset.
    UnsupportedAtRule,
    /// An authored qualified rule did not satisfy its grammar.
    InvalidQualifiedRule,
    /// An authored selector did not satisfy the supported selector grammar.
    InvalidSelector,
    /// An authored media query did not satisfy the supported media-query grammar.
    InvalidMediaQuery,
    /// The authored property name is not recognized by the CSS catalog.
    UnknownProperty,
    /// The authored property is recognized but is outside this crate's supported subset.
    UnsupportedProperty,
    /// An authored value did not satisfy its known property's grammar.
    InvalidPropertyValue,
    /// An authored declaration annotation was malformed or misplaced.
    InvalidDeclarationAnnotation,
    /// The authored descriptor name is not recognized for its owning at-rule.
    UnknownDescriptor,
    /// The authored descriptor is recognized but is outside this crate's supported subset.
    UnsupportedDescriptor,
    /// An authored value did not satisfy its known descriptor's grammar.
    InvalidDescriptorValue,
    /// Authored descriptors formed a combination rejected by their at-rule grammar.
    InvalidDescriptorCombination,
    /// Authored color syntax did not satisfy the supported color grammar.
    InvalidColorSyntax,
    /// Authored nesting exceeded the parser's configured structural limit.
    NestingLimit,
}

/// A static diagnostic-metadata identifier for one CSS grammar production.
///
/// The identifier names the grammar active at a strict parse failure; it does not parse,
/// recover, or resolve authored syntax.
#[derive(Clone, Copy, Debug, PartialEq, Eq, Hash)]
pub struct CssProductionId(&'static str);

impl View for CssProductionId {
    type V = Seq<char>;

    closed spec fn view(&self) -> Seq<char> {
        self.0@
    }
}

impl CssProductionId {
    /// The identifier whose stable spelling is `value`.
    pub closed spec fn spec_new(value: &'static str) -> Self {
        CssProductionId(value)
    }

    /// The stable spelling of the identifier.
    pub closed spec fn spec_str(self) -> &'static str {
        self.0
    }

    /// Creates the identifier for a stable production spelling.
    #[verifier::when_used_as_spec(spec_new)]
    pub fn new(value: &'static str) -> (id: Self)
        ensures
            id == Self::spec_new(value),
            id.spec_str() == value,
            id@ == value@,
    {
        CssProductionId(value)
    }

    /// Returns the stable production identifier.
    pub fn as_str(self) -> (value: &'static str)
        ensures
            value == self.spec_str(),
            value@ == self@,
    {
        self.0
    }
}

/// A static diagnostic-phase description of the grammar expected at a failure position.
///
/// The description records an invariant the authored syntax violated; it is not a recovery
/// instruction or a downstream validation rule.
#[derive(Clone, Copy, Debug, PartialEq, Eq, Hash)]
pub struct CssGrammarExpectation(&'static str);

impl View for CssGrammarExpectation {
    type V = Seq<char>;

    closed spec fn view(&self) -> Seq<char> {
        self.0@
    }
}

impl CssGrammarExpectation {
    /// The expectation whose stable description is `value`.
    pub closed spec fn spec_new(value: &'static str) -> Self {
        CssGrammarExpectation(value)
    }

    /// The stable description of the expectation.
    pub closed spec fn spec_str(self) -> &'static str {
        self.0
    }

    /// Creates the expectation for a stable grammar description.
    #[verifier::when_used_as_spec(spec_new)]
    pub fn new(value: &'static str) -> (expectation: Self)
        ensures
            expectation == Self::spec_new(value),
            expectation.spec_str() == value,
            expectation@ == value@,
    {
        CssGrammarExpectation(value)
    }

    /// Returns the stable expectation description.
    pub fn as_str(self) -> (value: &'static str)
        ensures
            value == self.spec_str(),
            value@ == self@,
    {
        self.0
    }
}

/// A stable diagnostic-metadata identity for recognized but unsupported authored syntax.
///
/// The identity distinguishes catalogued support from unknown syntax; it does not enable the
/// feature, choose a fallback, or perform downstream resolution.
#[derive(Clone, Copy, Debug, PartialEq, Eq, Hash)]
pub struct CssFeatureId(pub(crate) &'static str);

impl View for CssFeatureId {
    type V = Seq<char>;

    closed spec fn view(&self) -> Seq<char> {
        self.0@
    }
}

impl CssFeatureId {
    /// The identity whose stable spelling is `value`.
    pub closed spec fn spec_new(value: &'static str) -> Self {
        CssFeatureId(value)
    }

    /// The stable spelling of the identity.
    pub closed spec fn spec_str(self) -> &'static str {
        self.0
    }

    /// The identity of a spelling and its view.
    pub broadcast proof fn lemma_spec_new_parts(value: &'static str)
        ensures
            #[trigger] Self::spec_new(value).spec_str() == value,
            Self::spec_new(value)@ == value@,
    {
    }

    /// The identity of a spelling is the record that holds it.
    pub(crate) broadcast proof fn lemma_spec_new_literal(value: &'static str)
        ensures
            #[trigger] Self::spec_new(value) == CssFeatureId(value),
    {
    }

    /// Creates the identity for a stable support-catalog spelling.
    #[verifier::when_used_as_spec(spec_new)]
    pub fn new(value: &'static str) -> (id: Self)
        ensures
            id == Self::spec_new(value),
            id.spec_str() == value,
            id@ == value@,
    {
        CssFeatureId(value)
    }

    /// Returns the stable support-catalog identifier.
    pub fn as_str(self) -> (value: &'static str)
        ensures
            value == self.spec_str(),
            value@ == self@,
    {
        self.0
    }
}

/// A diagnostic-phase identity preserving a decoded authored CSS at-rule name; it does not parse
/// the rule or select recovery.
#[derive(Clone, Debug, PartialEq, Eq, Hash)]
pub struct CssAtRuleName(String);

/// A diagnostic-phase identity preserving a decoded authored CSS property name; it does not
/// parse, resolve, or apply the property.
#[derive(Clone, Debug, PartialEq, Eq, Hash)]
pub struct CssPropertyName(String);

/// A diagnostic-phase identity preserving a decoded authored CSS descriptor name; it does not
/// parse, resolve, or apply the descriptor.
#[derive(Clone, Debug, PartialEq, Eq, Hash)]
pub struct CssDescriptorName(String);

/// A diagnostic-phase identity preserving a decoded authored media-feature name; it does not
/// evaluate the media query.
#[derive(Clone, Debug, PartialEq, Eq, Hash)]
pub struct CssMediaFeatureName(String);

/// A diagnostic-phase identity naming the authored color component responsible for a failure;
/// it does not evaluate or convert the color.
#[derive(Clone, Debug, PartialEq, Eq, Hash)]
pub struct CssColorComponentName(String);


impl View for CssAtRuleName {
    type V = Seq<char>;

    closed spec fn view(&self) -> Seq<char> {
        self.0@
    }
}

impl CssAtRuleName {
    /// Creates the name from its decoded authored spelling.
    pub fn new(value: &str) -> (name: Self)
        ensures
            name@ == value@,
    {
        CssAtRuleName(value.to_owned())
    }

    /// Creates the name from an owned decoded authored spelling.
    pub fn from_string(value: String) -> (name: Self)
        ensures
            name@ == value@,
    {
        CssAtRuleName(value)
    }

    /// Returns the decoded authored identifier retained by the diagnostic.
    pub fn as_str(&self) -> (value: &str)
        ensures
            value@ == self@,
    {
        self.0.as_str()
    }

    /// Returns an equal copy of the name.
    pub(crate) fn duplicate(&self) -> (copy: Self)
        ensures
            copy == *self,
    {
        CssAtRuleName(self.0.clone())
    }
}

impl View for CssPropertyName {
    type V = Seq<char>;

    closed spec fn view(&self) -> Seq<char> {
        self.0@
    }
}

impl CssPropertyName {
    /// Creates the name from its decoded authored spelling.
    pub fn new(value: &str) -> (name: Self)
        ensures
            name@ == value@,
    {
        CssPropertyName(value.to_owned())
    }

    /// Returns the decoded authored identifier retained by the diagnostic.
    pub fn as_str(&self) -> (value: &str)
        ensures
            value@ == self@,
    {
        self.0.as_str()
    }

    /// Returns an equal copy of the name.
    pub(crate) fn duplicate(&self) -> (copy: Self)
        ensures
            copy == *self,
    {
        CssPropertyName(self.0.clone())
    }
}

impl View for CssDescriptorName {
    type V = Seq<char>;

    closed spec fn view(&self) -> Seq<char> {
        self.0@
    }
}

impl CssDescriptorName {
    /// Creates the name from its decoded authored spelling.
    pub fn new(value: &str) -> (name: Self)
        ensures
            name@ == value@,
    {
        CssDescriptorName(value.to_owned())
    }

    /// Returns the decoded authored identifier retained by the diagnostic.
    pub fn as_str(&self) -> (value: &str)
        ensures
            value@ == self@,
    {
        self.0.as_str()
    }

    /// Returns an equal copy of the name.
    pub(crate) fn duplicate(&self) -> (copy: Self)
        ensures
            copy == *self,
    {
        CssDescriptorName(self.0.clone())
    }
}

impl View for CssMediaFeatureName {
    type V = Seq<char>;

    closed spec fn view(&self) -> Seq<char> {
        self.0@
    }
}

impl CssMediaFeatureName {
    /// Creates the name from its decoded authored spelling.
    pub fn new(value: &str) -> (name: Self)
        ensures
            name@ == value@,
    {
        CssMediaFeatureName(value.to_owned())
    }

    /// Returns the decoded authored identifier retained by the diagnostic.
    pub fn as_str(&self) -> (value: &str)
        ensures
            value@ == self@,
    {
        self.0.as_str()
    }

    /// Returns an equal copy of the name.
    pub(crate) fn duplicate(&self) -> (copy: Self)
        ensures
            copy == *self,
    {
        CssMediaFeatureName(self.0.clone())
    }
}

impl View for CssColorComponentName {
    type V = Seq<char>;

    closed spec fn view(&self) -> Seq<char> {
        self.0@
    }
}

impl CssColorComponentName {
    /// Creates the name from its decoded authored spelling.
    pub fn new(value: &str) -> (name: Self)
        ensures
            name@ == value@,
    {
        CssColorComponentName(value.to_owned())
    }

    /// Returns the decoded authored identifier retained by the diagnostic.
    pub fn as_str(&self) -> (value: &str)
        ensures
            value@ == self@,
    {
        self.0.as_str()
    }

    /// Returns an equal copy of the name.
    pub(crate) fn duplicate(&self) -> (copy: Self)
        ensures
            copy == *self,
    {
        CssColorComponentName(self.0.clone())
    }
}

/// The diagnostic-phase CSS token category retained by an error summary.
///
/// The non-exhaustive category describes authored syntax without exposing parser tokens; it does
/// not drive tokenization, recovery, or downstream value resolution.
#[non_exhaustive]
#[derive(Clone, Copy, Debug, PartialEq, Eq, Hash, Structural)]
pub enum CssTokenKind {
    /// An identifier token.
    Ident,
    /// An at-keyword token.
    AtKeyword,
    /// An unrestricted hash token.
    Hash,
    /// An identifier-like hash token.
    IdHash,
    /// A string token.
    String,
    /// A URL token.
    Url,
    /// A delimiter token.
    Delim,
    /// A number token.
    Number,
    /// A percentage token.
    Percentage,
    /// A dimension token.
    Dimension,
    /// A whitespace token.
    Whitespace,
    /// A comment token.
    Comment,
    /// A colon token.
    Colon,
    /// A semicolon token.
    Semicolon,
    /// A comma token.
    Comma,
    /// An include-match (`~=`) token.
    IncludeMatch,
    /// A dash-match (`|=`) token.
    DashMatch,
    /// A prefix-match (`^=`) token.
    PrefixMatch,
    /// A suffix-match (`$=`) token.
    SuffixMatch,
    /// A substring-match (`*=`) token.
    SubstringMatch,
    /// A CSS `<!--` token.
    Cdo,
    /// A CSS `-->` token.
    Cdc,
    /// A function token.
    Function,
    /// A parenthesis block token.
    ParenthesisBlock,
    /// A square-bracket block token.
    SquareBracketBlock,
    /// A curly-bracket block token.
    CurlyBracketBlock,
    /// A malformed URL token.
    BadUrl,
    /// A malformed string token.
    BadString,
    /// An unmatched closing-parenthesis token.
    CloseParenthesis,
    /// An unmatched closing-square-bracket token.
    CloseSquareBracket,
    /// An unmatched closing-curly-bracket token.
    CloseCurlyBracket,
}

/// A diagnostic-phase token category paired with its exact authored source slice.
///
/// The pair preserves the responsible authored token without exposing parser internals; it is not
/// a token-stream input and does not choose or perform recovery.
#[derive(Clone, Debug, PartialEq, Eq)]
pub struct CssTokenSummary {
    kind: CssTokenKind,
    authored: String,
}

impl CssTokenSummary {
    /// The semantic category of the summarized token.
    pub closed spec fn spec_kind(&self) -> CssTokenKind {
        self.kind
    }

    /// The exact authored spelling of the summarized token.
    pub closed spec fn spec_authored(&self) -> Seq<char> {
        self.authored@
    }

    /// Creates a summary of one authored token from its category and exact spelling.
    pub fn new(kind: CssTokenKind, authored: &str) -> (summary: Self)
        ensures
            summary.spec_kind() == kind,
            summary.spec_authored() == authored@,
    {
        CssTokenSummary { kind, authored: authored.to_owned() }
    }

    /// Returns the semantic category of the encountered authored token.
    pub fn kind(&self) -> (kind: CssTokenKind)
        ensures
            kind == self.spec_kind(),
    {
        self.kind
    }

    /// Returns the exact authored source spelling of the encountered token.
    pub fn authored(&self) -> (authored: &str)
        ensures
            authored@ == self.spec_authored(),
    {
        self.authored.as_str()
    }

    /// The summary of the `!` delimiter that starts a declaration annotation.
    pub(crate) fn bang() -> (summary: Self)
        ensures
            summary.spec_kind() == CssTokenKind::Delim,
            summary.spec_authored() == "!"@,
    {
        CssTokenSummary { kind: CssTokenKind::Delim, authored: "!".to_owned() }
    }

    /// Returns an equal copy of the summary.
    pub(crate) fn duplicate(&self) -> (copy: Self)
        ensures
            copy == *self,
    {
        CssTokenSummary { kind: self.kind, authored: self.authored.clone() }
    }
}



/// The expectation that the failure position holds valid CSS syntax.
#[verifier::allow_in_spec]
pub fn expect_css_syntax() -> CssGrammarExpectation
    returns
        CssGrammarExpectation::spec_new("valid CSS syntax"),
{
    CssGrammarExpectation::new("valid CSS syntax")
}

/// The expectation for a well-formed encoding declaration.
#[verifier::allow_in_spec]
pub fn expect_encoding_declaration() -> CssGrammarExpectation
    returns
        CssGrammarExpectation::spec_new("a non-empty double-quoted encoding label followed by a semicolon"),
{
    CssGrammarExpectation::new("a non-empty double-quoted encoding label followed by a semicolon")
}

/// The expectation that a declaration value follows.
#[verifier::allow_in_spec]
pub fn expect_declaration_value() -> CssGrammarExpectation
    returns
        CssGrammarExpectation::spec_new("a declaration value"),
{
    CssGrammarExpectation::new("a declaration value")
}

/// The expectation that a value satisfies its property's grammar.
#[verifier::allow_in_spec]
pub fn expect_property_value() -> CssGrammarExpectation
    returns
        CssGrammarExpectation::spec_new("a value accepted by the property's grammar"),
{
    CssGrammarExpectation::new("a value accepted by the property's grammar")
}

/// The expectation that a value satisfies its descriptor's grammar.
#[verifier::allow_in_spec]
pub fn expect_descriptor_value() -> CssGrammarExpectation
    returns
        CssGrammarExpectation::spec_new("a value accepted by the descriptor grammar"),
{
    CssGrammarExpectation::new("a value accepted by the descriptor grammar")
}

/// The expectation of a supported selector.
#[verifier::allow_in_spec]
pub fn expect_selector() -> CssGrammarExpectation
    returns
        CssGrammarExpectation::spec_new("a supported selector"),
{
    CssGrammarExpectation::new("a supported selector")
}

/// The expectation of a supported media query.
#[verifier::allow_in_spec]
pub fn expect_media_query() -> CssGrammarExpectation
    returns
        CssGrammarExpectation::spec_new("a supported media query"),
{
    CssGrammarExpectation::new("a supported media query")
}

/// The expectation of valid color syntax.
#[verifier::allow_in_spec]
pub fn expect_color() -> CssGrammarExpectation
    returns
        CssGrammarExpectation::spec_new("valid color syntax"),
{
    CssGrammarExpectation::new("valid color syntax")
}

/// The production of a qualified rule.
#[verifier::allow_in_spec]
pub fn qualified_rule_production() -> CssProductionId
    returns
        CssProductionId::spec_new("css.qualified-rule"),
{
    CssProductionId::new("css.qualified-rule")
}

/// The production of a selector list.
#[verifier::allow_in_spec]
pub fn selector_list_production() -> CssProductionId
    returns
        CssProductionId::spec_new("baseline.selector.complex"),
{
    CssProductionId::new("baseline.selector.complex")
}


/// Diagnostic detail for strict parsing that reached EOF before an expected production completed.
#[derive(Clone, Debug, PartialEq, Eq)]
pub struct CssUnexpectedEndError {
    expectation: CssGrammarExpectation,
}

impl CssUnexpectedEndError {
    /// The detail made of the given parts.
    pub closed spec fn spec_new(expectation: CssGrammarExpectation) -> Self {
        CssUnexpectedEndError { expectation }
    }

    /// Creates the diagnostic detail from its parts.
    #[verifier::when_used_as_spec(spec_new)]
    pub fn new(expectation: CssGrammarExpectation) -> (detail: Self)
        ensures
            detail == Self::spec_new(expectation),
            detail.spec_expectation() == expectation,
    {
        CssUnexpectedEndError { expectation }
    }

    /// The `expectation` part of the detail.
    pub closed spec fn spec_expectation(&self) -> CssGrammarExpectation {
        self.expectation
    }

    /// Returns the grammar expectation that remained unsatisfied at EOF.
    pub fn expectation(&self) -> (r: CssGrammarExpectation)
        ensures
            r == self.spec_expectation(),
    {
        self.expectation
    }
}

/// Diagnostic detail for an authored token rejected by the active strict grammar.
#[derive(Clone, Debug, PartialEq, Eq)]
pub struct CssUnexpectedTokenError {
    expectation: CssGrammarExpectation,
    encountered: CssTokenSummary,
}

impl CssUnexpectedTokenError {
    /// The detail made of the given parts.
    pub closed spec fn spec_new(expectation: CssGrammarExpectation, encountered: CssTokenSummary) -> Self {
        CssUnexpectedTokenError { expectation, encountered }
    }

    /// Creates the diagnostic detail from its parts.
    #[verifier::when_used_as_spec(spec_new)]
    pub fn new(expectation: CssGrammarExpectation, encountered: CssTokenSummary) -> (detail: Self)
        ensures
            detail == Self::spec_new(expectation, encountered),
            detail.spec_expectation() == expectation,
            detail.spec_encountered() == encountered,
    {
        CssUnexpectedTokenError { expectation, encountered }
    }

    /// The `expectation` part of the detail.
    pub closed spec fn spec_expectation(&self) -> CssGrammarExpectation {
        self.expectation
    }

    /// The `encountered` part of the detail.
    pub closed spec fn spec_encountered(&self) -> CssTokenSummary {
        self.encountered
    }

    /// Returns the grammar expectation violated by the token.
    pub fn expectation(&self) -> (r: CssGrammarExpectation)
        ensures
            r == self.spec_expectation(),
    {
        self.expectation
    }

    /// Returns the exact authored token rejected by the grammar.
    pub fn encountered(&self) -> (r: &CssTokenSummary)
        ensures
            *r == self.spec_encountered(),
    {
        &self.encountered
    }
}

/// Diagnostic detail for an invalid authored CSS encoding declaration.
#[derive(Clone, Debug, PartialEq, Eq)]
pub struct CssEncodingDeclarationError {
    expectation: CssGrammarExpectation,
    encountered: Option<CssTokenSummary>,
}

impl CssEncodingDeclarationError {
    /// The detail made of the given parts.
    pub closed spec fn spec_new(expectation: CssGrammarExpectation, encountered: Option<CssTokenSummary>) -> Self {
        CssEncodingDeclarationError { expectation, encountered }
    }

    /// Creates the diagnostic detail from its parts.
    #[verifier::when_used_as_spec(spec_new)]
    pub fn new(expectation: CssGrammarExpectation, encountered: Option<CssTokenSummary>) -> (detail: Self)
        ensures
            detail == Self::spec_new(expectation, encountered),
            detail.spec_expectation() == expectation,
            detail.spec_encountered() == encountered,
    {
        CssEncodingDeclarationError { expectation, encountered }
    }

    /// The `expectation` part of the detail.
    pub closed spec fn spec_expectation(&self) -> CssGrammarExpectation {
        self.expectation
    }

    /// The `encountered` part of the detail.
    pub closed spec fn spec_encountered(&self) -> Option<CssTokenSummary> {
        self.encountered
    }

    /// Returns the grammar expectation for a valid encoding declaration.
    pub fn expectation(&self) -> (r: CssGrammarExpectation)
        ensures
            r == self.spec_expectation(),
    {
        self.expectation
    }

    /// Returns the responsible authored token, or `None` when the declaration ended at EOF.
    pub fn encountered(&self) -> (r: Option<&CssTokenSummary>)
        ensures
            r == match self.spec_encountered() {
                Some(v) => Some(&v),
                None => None::<&CssTokenSummary>,
            },
    {
        self.encountered.as_ref()
    }
}

/// Diagnostic detail for an authored at-rule rejected in its current grammar context.
#[derive(Clone, Debug, PartialEq, Eq)]
pub struct CssAtRulePlacementError {
    name: CssAtRuleName,
    expected_context: CssGrammarExpectation,
}

impl CssAtRulePlacementError {
    /// The detail made of the given parts.
    pub closed spec fn spec_new(name: CssAtRuleName, expected_context: CssGrammarExpectation) -> Self {
        CssAtRulePlacementError { name, expected_context }
    }

    /// Creates the diagnostic detail from its parts.
    #[verifier::when_used_as_spec(spec_new)]
    pub fn new(name: CssAtRuleName, expected_context: CssGrammarExpectation) -> (detail: Self)
        ensures
            detail == Self::spec_new(name, expected_context),
            detail.spec_name() == name,
            detail.spec_expected_context() == expected_context,
    {
        CssAtRulePlacementError { name, expected_context }
    }

    /// The `name` part of the detail.
    pub closed spec fn spec_name(&self) -> CssAtRuleName {
        self.name
    }

    /// The `expected_context` part of the detail.
    pub closed spec fn spec_expected_context(&self) -> CssGrammarExpectation {
        self.expected_context
    }

    /// Returns the decoded authored at-rule name.
    pub fn name(&self) -> (r: &CssAtRuleName)
        ensures
            *r == self.spec_name(),
    {
        &self.name
    }

    /// Returns the grammar context in which the at-rule was expected to appear.
    pub fn expected_context(&self) -> (r: CssGrammarExpectation)
        ensures
            r == self.spec_expected_context(),
    {
        self.expected_context
    }
}

/// Diagnostic detail for an authored at-rule prelude or body rejected by strict parsing.
#[derive(Clone, Debug, PartialEq, Eq)]
pub struct CssAtRuleSyntaxError {
    name: CssAtRuleName,
    production: CssProductionId,
    expectation: CssGrammarExpectation,
    encountered: Option<CssTokenSummary>,
}

impl CssAtRuleSyntaxError {
    /// The detail made of the given parts.
    pub closed spec fn spec_new(name: CssAtRuleName, production: CssProductionId, expectation: CssGrammarExpectation, encountered: Option<CssTokenSummary>) -> Self {
        CssAtRuleSyntaxError { name, production, expectation, encountered }
    }

    /// Returns the detail with its at-rule name and production replaced.
    pub(crate) fn renamed(self, name: CssAtRuleName, production: CssProductionId) -> (detail: Self)
        ensures
            detail == Self::spec_new(name, production, self.spec_expectation(), self.spec_encountered()),
    {
        CssAtRuleSyntaxError { name, production, expectation: self.expectation, encountered: self.encountered }
    }

    /// Creates the diagnostic detail from its parts.
    #[verifier::when_used_as_spec(spec_new)]
    pub fn new(name: CssAtRuleName, production: CssProductionId, expectation: CssGrammarExpectation, encountered: Option<CssTokenSummary>) -> (detail: Self)
        ensures
            detail == Self::spec_new(name, production, expectation, encountered),
            detail.spec_name() == name,
            detail.spec_production() == production,
            detail.spec_expectation() == expectation,
            detail.spec_encountered() == encountered,
    {
        CssAtRuleSyntaxError { name, production, expectation, encountered }
    }

    /// The `name` part of the detail.
    pub closed spec fn spec_name(&self) -> CssAtRuleName {
        self.name
    }

    /// The `production` part of the detail.
    pub closed spec fn spec_production(&self) -> CssProductionId {
        self.production
    }

    /// The `expectation` part of the detail.
    pub closed spec fn spec_expectation(&self) -> CssGrammarExpectation {
        self.expectation
    }

    /// The `encountered` part of the detail.
    pub closed spec fn spec_encountered(&self) -> Option<CssTokenSummary> {
        self.encountered
    }

    /// Returns the decoded authored at-rule name.
    pub fn name(&self) -> (r: &CssAtRuleName)
        ensures
            *r == self.spec_name(),
    {
        &self.name
    }

    /// Returns the grammar production being parsed when the failure occurred.
    pub fn production(&self) -> (r: CssProductionId)
        ensures
            r == self.spec_production(),
    {
        self.production
    }

    /// Returns the grammar expectation violated by the authored syntax.
    pub fn expectation(&self) -> (r: CssGrammarExpectation)
        ensures
            r == self.spec_expectation(),
    {
        self.expectation
    }

    /// Returns the responsible authored token, or `None` when the production ended at EOF.
    pub fn encountered(&self) -> (r: Option<&CssTokenSummary>)
        ensures
            r == match self.spec_encountered() {
                Some(v) => Some(&v),
                None => None::<&CssTokenSummary>,
            },
    {
        self.encountered.as_ref()
    }
}

/// Diagnostic detail for an authored at-rule name absent from the CSS catalog.
#[derive(Clone, Debug, PartialEq, Eq)]
pub struct CssUnknownAtRuleError {
    name: CssAtRuleName,
}

impl CssUnknownAtRuleError {
    /// The detail made of the given parts.
    pub closed spec fn spec_new(name: CssAtRuleName) -> Self {
        CssUnknownAtRuleError { name }
    }

    /// Creates the diagnostic detail from its parts.
    #[verifier::when_used_as_spec(spec_new)]
    pub fn new(name: CssAtRuleName) -> (detail: Self)
        ensures
            detail == Self::spec_new(name),
            detail.spec_name() == name,
    {
        CssUnknownAtRuleError { name }
    }

    /// The `name` part of the detail.
    pub closed spec fn spec_name(&self) -> CssAtRuleName {
        self.name
    }

    /// Returns the decoded authored at-rule name.
    pub fn name(&self) -> (r: &CssAtRuleName)
        ensures
            *r == self.spec_name(),
    {
        &self.name
    }
}

/// Diagnostic detail for a recognized authored at-rule outside the supported subset.
#[derive(Clone, Debug, PartialEq, Eq)]
pub struct CssUnsupportedAtRuleError {
    name: CssAtRuleName,
    feature: CssFeatureId,
}

impl CssUnsupportedAtRuleError {
    /// The detail made of the given parts.
    pub closed spec fn spec_new(name: CssAtRuleName, feature: CssFeatureId) -> Self {
        CssUnsupportedAtRuleError { name, feature }
    }

    /// Creates the diagnostic detail from its parts.
    #[verifier::when_used_as_spec(spec_new)]
    pub fn new(name: CssAtRuleName, feature: CssFeatureId) -> (detail: Self)
        ensures
            detail == Self::spec_new(name, feature),
            detail.spec_name() == name,
            detail.spec_feature() == feature,
    {
        CssUnsupportedAtRuleError { name, feature }
    }

    /// The `name` part of the detail.
    pub closed spec fn spec_name(&self) -> CssAtRuleName {
        self.name
    }

    /// The `feature` part of the detail.
    pub closed spec fn spec_feature(&self) -> CssFeatureId {
        self.feature
    }

    /// Returns the decoded authored at-rule name.
    pub fn name(&self) -> (r: &CssAtRuleName)
        ensures
            *r == self.spec_name(),
    {
        &self.name
    }

    /// Returns the support-catalog identity for the recognized at-rule.
    pub fn feature(&self) -> (r: CssFeatureId)
        ensures
            r == self.spec_feature(),
    {
        self.feature
    }
}

/// Diagnostic detail for an authored qualified rule rejected by strict parsing.
#[derive(Clone, Debug, PartialEq, Eq)]
pub struct CssQualifiedRuleError {
    production: CssProductionId,
    expectation: CssGrammarExpectation,
    encountered: Option<CssTokenSummary>,
}

impl CssQualifiedRuleError {
    /// The detail made of the given parts.
    pub closed spec fn spec_new(production: CssProductionId, expectation: CssGrammarExpectation, encountered: Option<CssTokenSummary>) -> Self {
        CssQualifiedRuleError { production, expectation, encountered }
    }

    /// Creates the diagnostic detail from its parts.
    #[verifier::when_used_as_spec(spec_new)]
    pub fn new(production: CssProductionId, expectation: CssGrammarExpectation, encountered: Option<CssTokenSummary>) -> (detail: Self)
        ensures
            detail == Self::spec_new(production, expectation, encountered),
            detail.spec_production() == production,
            detail.spec_expectation() == expectation,
            detail.spec_encountered() == encountered,
    {
        CssQualifiedRuleError { production, expectation, encountered }
    }

    /// The `production` part of the detail.
    pub closed spec fn spec_production(&self) -> CssProductionId {
        self.production
    }

    /// The `expectation` part of the detail.
    pub closed spec fn spec_expectation(&self) -> CssGrammarExpectation {
        self.expectation
    }

    /// The `encountered` part of the detail.
    pub closed spec fn spec_encountered(&self) -> Option<CssTokenSummary> {
        self.encountered
    }

    /// Returns the qualified-rule grammar production that rejected the syntax.
    pub fn production(&self) -> (r: CssProductionId)
        ensures
            r == self.spec_production(),
    {
        self.production
    }

    /// Returns the grammar expectation violated by the authored rule.
    pub fn expectation(&self) -> (r: CssGrammarExpectation)
        ensures
            r == self.spec_expectation(),
    {
        self.expectation
    }

    /// Returns the responsible authored token, or `None` when the rule ended at EOF.
    pub fn encountered(&self) -> (r: Option<&CssTokenSummary>)
        ensures
            r == match self.spec_encountered() {
                Some(v) => Some(&v),
                None => None::<&CssTokenSummary>,
            },
    {
        self.encountered.as_ref()
    }
}

/// Diagnostic detail for an authored selector rejected by the supported strict grammar.
#[derive(Clone, Debug, PartialEq, Eq)]
pub struct CssSelectorError {
    production: Option<CssProductionId>,
    expectation: CssGrammarExpectation,
    encountered: Option<CssTokenSummary>,
}

impl CssSelectorError {
    /// The detail made of the given parts.
    pub closed spec fn spec_new(production: Option<CssProductionId>, expectation: CssGrammarExpectation, encountered: Option<CssTokenSummary>) -> Self {
        CssSelectorError { production, expectation, encountered }
    }

    /// Creates the diagnostic detail from its parts.
    #[verifier::when_used_as_spec(spec_new)]
    pub fn new(production: Option<CssProductionId>, expectation: CssGrammarExpectation, encountered: Option<CssTokenSummary>) -> (detail: Self)
        ensures
            detail == Self::spec_new(production, expectation, encountered),
            detail.spec_production() == production,
            detail.spec_expectation() == expectation,
            detail.spec_encountered() == encountered,
    {
        CssSelectorError { production, expectation, encountered }
    }

    /// The `production` part of the detail.
    pub closed spec fn spec_production(&self) -> Option<CssProductionId> {
        self.production
    }

    /// The `expectation` part of the detail.
    pub closed spec fn spec_expectation(&self) -> CssGrammarExpectation {
        self.expectation
    }

    /// The `encountered` part of the detail.
    pub closed spec fn spec_encountered(&self) -> Option<CssTokenSummary> {
        self.encountered
    }

    /// Returns the responsible selector production when one is available.
    pub fn production(&self) -> (r: Option<CssProductionId>)
        ensures
            r == self.spec_production(),
    {
        self.production
    }

    /// Returns the selector grammar expectation violated by the authored syntax.
    pub fn expectation(&self) -> (r: CssGrammarExpectation)
        ensures
            r == self.spec_expectation(),
    {
        self.expectation
    }

    /// Returns the responsible authored token, or `None` when the selector ended at EOF.
    pub fn encountered(&self) -> (r: Option<&CssTokenSummary>)
        ensures
            r == match self.spec_encountered() {
                Some(v) => Some(&v),
                None => None::<&CssTokenSummary>,
            },
    {
        self.encountered.as_ref()
    }
}

/// Diagnostic detail for an authored media query rejected by the supported strict grammar.
#[derive(Clone, Debug, PartialEq, Eq)]
pub struct CssMediaQueryError {
    feature: Option<CssMediaFeatureName>,
    expectation: CssGrammarExpectation,
    encountered: Option<CssTokenSummary>,
}

impl CssMediaQueryError {
    /// The detail made of the given parts.
    pub closed spec fn spec_new(feature: Option<CssMediaFeatureName>, expectation: CssGrammarExpectation, encountered: Option<CssTokenSummary>) -> Self {
        CssMediaQueryError { feature, expectation, encountered }
    }

    /// Creates the diagnostic detail from its parts.
    #[verifier::when_used_as_spec(spec_new)]
    pub fn new(feature: Option<CssMediaFeatureName>, expectation: CssGrammarExpectation, encountered: Option<CssTokenSummary>) -> (detail: Self)
        ensures
            detail == Self::spec_new(feature, expectation, encountered),
            detail.spec_feature() == feature,
            detail.spec_expectation() == expectation,
            detail.spec_encountered() == encountered,
    {
        CssMediaQueryError { feature, expectation, encountered }
    }

    /// The `feature` part of the detail.
    pub closed spec fn spec_feature(&self) -> Option<CssMediaFeatureName> {
        self.feature
    }

    /// The `expectation` part of the detail.
    pub closed spec fn spec_expectation(&self) -> CssGrammarExpectation {
        self.expectation
    }

    /// The `encountered` part of the detail.
    pub closed spec fn spec_encountered(&self) -> Option<CssTokenSummary> {
        self.encountered
    }

    /// Returns the decoded authored media-feature name when one caused the failure.
    pub fn feature(&self) -> (r: Option<&CssMediaFeatureName>)
        ensures
            r == match self.spec_feature() {
                Some(v) => Some(&v),
                None => None::<&CssMediaFeatureName>,
            },
    {
        self.feature.as_ref()
    }

    /// Returns the media-query grammar expectation violated by the authored syntax.
    pub fn expectation(&self) -> (r: CssGrammarExpectation)
        ensures
            r == self.spec_expectation(),
    {
        self.expectation
    }

    /// Returns the responsible authored token, or `None` when the query ended at EOF.
    pub fn encountered(&self) -> (r: Option<&CssTokenSummary>)
        ensures
            r == match self.spec_encountered() {
                Some(v) => Some(&v),
                None => None::<&CssTokenSummary>,
            },
    {
        self.encountered.as_ref()
    }
}

/// Diagnostic detail for an authored property name absent from the CSS catalog.
#[derive(Clone, Debug, PartialEq, Eq)]
pub struct CssUnknownPropertyError {
    name: CssPropertyName,
}

impl CssUnknownPropertyError {
    /// The detail made of the given parts.
    pub closed spec fn spec_new(name: CssPropertyName) -> Self {
        CssUnknownPropertyError { name }
    }

    /// Creates the diagnostic detail from its parts.
    #[verifier::when_used_as_spec(spec_new)]
    pub fn new(name: CssPropertyName) -> (detail: Self)
        ensures
            detail == Self::spec_new(name),
            detail.spec_name() == name,
    {
        CssUnknownPropertyError { name }
    }

    /// The `name` part of the detail.
    pub closed spec fn spec_name(&self) -> CssPropertyName {
        self.name
    }

    /// Returns the decoded authored property name.
    pub fn name(&self) -> (r: &CssPropertyName)
        ensures
            *r == self.spec_name(),
    {
        &self.name
    }
}

/// Diagnostic detail for a recognized authored property outside the supported subset.
#[derive(Clone, Debug, PartialEq, Eq)]
pub struct CssUnsupportedPropertyError {
    name: CssPropertyName,
    feature: CssFeatureId,
}

impl CssUnsupportedPropertyError {
    /// The detail made of the given parts.
    pub closed spec fn spec_new(name: CssPropertyName, feature: CssFeatureId) -> Self {
        CssUnsupportedPropertyError { name, feature }
    }

    /// Creates the diagnostic detail from its parts.
    #[verifier::when_used_as_spec(spec_new)]
    pub fn new(name: CssPropertyName, feature: CssFeatureId) -> (detail: Self)
        ensures
            detail == Self::spec_new(name, feature),
            detail.spec_name() == name,
            detail.spec_feature() == feature,
    {
        CssUnsupportedPropertyError { name, feature }
    }

    /// The `name` part of the detail.
    pub closed spec fn spec_name(&self) -> CssPropertyName {
        self.name
    }

    /// The `feature` part of the detail.
    pub closed spec fn spec_feature(&self) -> CssFeatureId {
        self.feature
    }

    /// Returns the decoded authored property name.
    pub fn name(&self) -> (r: &CssPropertyName)
        ensures
            *r == self.spec_name(),
    {
        &self.name
    }

    /// Returns the support-catalog identity for the recognized property.
    pub fn feature(&self) -> (r: CssFeatureId)
        ensures
            r == self.spec_feature(),
    {
        self.feature
    }
}

/// Diagnostic detail for an authored value rejected by a known property's strict grammar.
#[derive(Clone, Debug, PartialEq, Eq)]
pub struct CssPropertyValueError {
    property: CssKnownProperty,
    expectation: CssGrammarExpectation,
    encountered: Option<CssTokenSummary>,
}

impl CssPropertyValueError {
    /// The detail made of the given parts.
    pub closed spec fn spec_new(property: CssKnownProperty, expectation: CssGrammarExpectation, encountered: Option<CssTokenSummary>) -> Self {
        CssPropertyValueError { property, expectation, encountered }
    }

    /// Creates the diagnostic detail from its parts.
    #[verifier::when_used_as_spec(spec_new)]
    pub fn new(property: CssKnownProperty, expectation: CssGrammarExpectation, encountered: Option<CssTokenSummary>) -> (detail: Self)
        ensures
            detail == Self::spec_new(property, expectation, encountered),
            detail.spec_property() == property,
            detail.spec_expectation() == expectation,
            detail.spec_encountered() == encountered,
    {
        CssPropertyValueError { property, expectation, encountered }
    }

    /// The `property` part of the detail.
    pub closed spec fn spec_property(&self) -> CssKnownProperty {
        self.property
    }

    /// The `expectation` part of the detail.
    pub closed spec fn spec_expectation(&self) -> CssGrammarExpectation {
        self.expectation
    }

    /// The `encountered` part of the detail.
    pub closed spec fn spec_encountered(&self) -> Option<CssTokenSummary> {
        self.encountered
    }

    /// Returns the canonical property whose value grammar rejected the authored syntax.
    pub fn property(&self) -> (r: CssKnownProperty)
        ensures
            r == self.spec_property(),
    {
        self.property
    }

    /// Returns the property-value grammar expectation that was not met.
    pub fn expectation(&self) -> (r: CssGrammarExpectation)
        ensures
            r == self.spec_expectation(),
    {
        self.expectation
    }

    /// Returns the responsible authored token, or `None` when the value ended at EOF.
    pub fn encountered(&self) -> (r: Option<&CssTokenSummary>)
        ensures
            r == match self.spec_encountered() {
                Some(v) => Some(&v),
                None => None::<&CssTokenSummary>,
            },
    {
        self.encountered.as_ref()
    }
}

/// Diagnostic detail for an authored descriptor name unknown to its at-rule grammar.
#[derive(Clone, Debug, PartialEq, Eq)]
pub struct CssUnknownDescriptorError {
    at_rule: CssAtRuleName,
    descriptor: CssDescriptorName,
}

impl CssUnknownDescriptorError {
    /// The detail made of the given parts.
    pub closed spec fn spec_new(at_rule: CssAtRuleName, descriptor: CssDescriptorName) -> Self {
        CssUnknownDescriptorError { at_rule, descriptor }
    }

    /// Creates the diagnostic detail from its parts.
    #[verifier::when_used_as_spec(spec_new)]
    pub fn new(at_rule: CssAtRuleName, descriptor: CssDescriptorName) -> (detail: Self)
        ensures
            detail == Self::spec_new(at_rule, descriptor),
            detail.spec_at_rule() == at_rule,
            detail.spec_descriptor() == descriptor,
    {
        CssUnknownDescriptorError { at_rule, descriptor }
    }

    /// The `at_rule` part of the detail.
    pub closed spec fn spec_at_rule(&self) -> CssAtRuleName {
        self.at_rule
    }

    /// The `descriptor` part of the detail.
    pub closed spec fn spec_descriptor(&self) -> CssDescriptorName {
        self.descriptor
    }

    /// Returns the decoded authored name of the owning at-rule.
    pub fn at_rule(&self) -> (r: &CssAtRuleName)
        ensures
            *r == self.spec_at_rule(),
    {
        &self.at_rule
    }

    /// Returns the decoded authored descriptor name.
    pub fn descriptor(&self) -> (r: &CssDescriptorName)
        ensures
            *r == self.spec_descriptor(),
    {
        &self.descriptor
    }
}

/// Diagnostic detail for a recognized authored descriptor outside the supported subset.
#[derive(Clone, Debug, PartialEq, Eq)]
pub struct CssUnsupportedDescriptorError {
    at_rule: CssAtRuleName,
    descriptor: CssDescriptorName,
    feature: CssFeatureId,
}

impl CssUnsupportedDescriptorError {
    /// The detail made of the given parts.
    pub closed spec fn spec_new(at_rule: CssAtRuleName, descriptor: CssDescriptorName, feature: CssFeatureId) -> Self {
        CssUnsupportedDescriptorError { at_rule, descriptor, feature }
    }

    /// Creates the diagnostic detail from its parts.
    #[verifier::when_used_as_spec(spec_new)]
    pub fn new(at_rule: CssAtRuleName, descriptor: CssDescriptorName, feature: CssFeatureId) -> (detail: Self)
        ensures
            detail == Self::spec_new(at_rule, descriptor, feature),
            detail.spec_at_rule() == at_rule,
            detail.spec_descriptor() == descriptor,
            detail.spec_feature() == feature,
    {
        CssUnsupportedDescriptorError { at_rule, descriptor, feature }
    }

    /// The `at_rule` part of the detail.
    pub closed spec fn spec_at_rule(&self) -> CssAtRuleName {
        self.at_rule
    }

    /// The `descriptor` part of the detail.
    pub closed spec fn spec_descriptor(&self) -> CssDescriptorName {
        self.descriptor
    }

    /// The `feature` part of the detail.
    pub closed spec fn spec_feature(&self) -> CssFeatureId {
        self.feature
    }

    /// Returns the decoded authored name of the owning at-rule.
    pub fn at_rule(&self) -> (r: &CssAtRuleName)
        ensures
            *r == self.spec_at_rule(),
    {
        &self.at_rule
    }

    /// Returns the decoded authored descriptor name.
    pub fn descriptor(&self) -> (r: &CssDescriptorName)
        ensures
            *r == self.spec_descriptor(),
    {
        &self.descriptor
    }

    /// Returns the support-catalog identity for the recognized descriptor.
    pub fn feature(&self) -> (r: CssFeatureId)
        ensures
            r == self.spec_feature(),
    {
        self.feature
    }
}

/// Diagnostic detail for an authored value rejected by a known descriptor's strict grammar.
#[derive(Clone, Debug, PartialEq, Eq)]
pub struct CssDescriptorValueError {
    at_rule: CssAtRuleName,
    descriptor: CssDescriptorName,
    expectation: CssGrammarExpectation,
    encountered: Option<CssTokenSummary>,
}

impl CssDescriptorValueError {
    /// The detail made of the given parts.
    pub closed spec fn spec_new(at_rule: CssAtRuleName, descriptor: CssDescriptorName, expectation: CssGrammarExpectation, encountered: Option<CssTokenSummary>) -> Self {
        CssDescriptorValueError { at_rule, descriptor, expectation, encountered }
    }

    /// Creates the diagnostic detail from its parts.
    #[verifier::when_used_as_spec(spec_new)]
    pub fn new(at_rule: CssAtRuleName, descriptor: CssDescriptorName, expectation: CssGrammarExpectation, encountered: Option<CssTokenSummary>) -> (detail: Self)
        ensures
            detail == Self::spec_new(at_rule, descriptor, expectation, encountered),
            detail.spec_at_rule() == at_rule,
            detail.spec_descriptor() == descriptor,
            detail.spec_expectation() == expectation,
            detail.spec_encountered() == encountered,
    {
        CssDescriptorValueError { at_rule, descriptor, expectation, encountered }
    }

    /// The `at_rule` part of the detail.
    pub closed spec fn spec_at_rule(&self) -> CssAtRuleName {
        self.at_rule
    }

    /// The `descriptor` part of the detail.
    pub closed spec fn spec_descriptor(&self) -> CssDescriptorName {
        self.descriptor
    }

    /// The `expectation` part of the detail.
    pub closed spec fn spec_expectation(&self) -> CssGrammarExpectation {
        self.expectation
    }

    /// The `encountered` part of the detail.
    pub closed spec fn spec_encountered(&self) -> Option<CssTokenSummary> {
        self.encountered
    }

    /// Returns the decoded authored name of the owning at-rule.
    pub fn at_rule(&self) -> (r: &CssAtRuleName)
        ensures
            *r == self.spec_at_rule(),
    {
        &self.at_rule
    }

    /// Returns the decoded authored descriptor name.
    pub fn descriptor(&self) -> (r: &CssDescriptorName)
        ensures
            *r == self.spec_descriptor(),
    {
        &self.descriptor
    }

    /// Returns the descriptor-value grammar expectation that was not met.
    pub fn expectation(&self) -> (r: CssGrammarExpectation)
        ensures
            r == self.spec_expectation(),
    {
        self.expectation
    }

    /// Returns the responsible authored token, or `None` when the value ended at EOF.
    pub fn encountered(&self) -> (r: Option<&CssTokenSummary>)
        ensures
            r == match self.spec_encountered() {
                Some(v) => Some(&v),
                None => None::<&CssTokenSummary>,
            },
    {
        self.encountered.as_ref()
    }
}

/// Diagnostic detail for authored descriptors rejected as an invalid combination.
#[derive(Clone, Debug, PartialEq, Eq)]
pub struct CssDescriptorCombinationError {
    at_rule: CssAtRuleName,
    responsible: CssDescriptorName,
    conflicting: Vec<CssDescriptorName>,
}

impl CssDescriptorCombinationError {
    /// The detail made of the given parts.
    pub closed spec fn spec_new(at_rule: CssAtRuleName, responsible: CssDescriptorName, conflicting: Vec<CssDescriptorName>) -> Self {
        CssDescriptorCombinationError { at_rule, responsible, conflicting }
    }

    /// Creates the diagnostic detail from its parts.
    #[verifier::when_used_as_spec(spec_new)]
    pub fn new(at_rule: CssAtRuleName, responsible: CssDescriptorName, conflicting: Vec<CssDescriptorName>) -> (detail: Self)
        ensures
            detail == Self::spec_new(at_rule, responsible, conflicting),
            detail.spec_at_rule() == at_rule,
            detail.spec_responsible() == responsible,
            detail.spec_conflicting() == conflicting,
    {
        CssDescriptorCombinationError { at_rule, responsible, conflicting }
    }

    /// The `at_rule` part of the detail.
    pub closed spec fn spec_at_rule(&self) -> CssAtRuleName {
        self.at_rule
    }

    /// The `responsible` part of the detail.
    pub closed spec fn spec_responsible(&self) -> CssDescriptorName {
        self.responsible
    }

    /// The `conflicting` part of the detail.
    pub closed spec fn spec_conflicting(&self) -> Vec<CssDescriptorName> {
        self.conflicting
    }

    /// Returns the decoded authored name of the owning at-rule.
    pub fn at_rule(&self) -> (r: &CssAtRuleName)
        ensures
            *r == self.spec_at_rule(),
    {
        &self.at_rule
    }

    /// Returns the descriptor that made the authored combination invalid.
    pub fn responsible(&self) -> (r: &CssDescriptorName)
        ensures
            *r == self.spec_responsible(),
    {
        &self.responsible
    }

    /// Returns the descriptors that conflict with the responsible descriptor.
    pub fn conflicting(&self) -> (r: &[CssDescriptorName])
        ensures
            r@ == self.spec_conflicting()@,
    {
        self.conflicting.as_slice()
    }
}

/// Diagnostic detail for authored color syntax rejected by strict parsing.
#[derive(Clone, Debug, PartialEq, Eq)]
pub struct CssColorSyntaxError {
    component: Option<CssColorComponentName>,
    expectation: CssGrammarExpectation,
    encountered: Option<CssTokenSummary>,
}

impl CssColorSyntaxError {
    /// The detail made of the given parts.
    pub closed spec fn spec_new(component: Option<CssColorComponentName>, expectation: CssGrammarExpectation, encountered: Option<CssTokenSummary>) -> Self {
        CssColorSyntaxError { component, expectation, encountered }
    }

    /// Creates the diagnostic detail from its parts.
    #[verifier::when_used_as_spec(spec_new)]
    pub fn new(component: Option<CssColorComponentName>, expectation: CssGrammarExpectation, encountered: Option<CssTokenSummary>) -> (detail: Self)
        ensures
            detail == Self::spec_new(component, expectation, encountered),
            detail.spec_component() == component,
            detail.spec_expectation() == expectation,
            detail.spec_encountered() == encountered,
    {
        CssColorSyntaxError { component, expectation, encountered }
    }

    /// The `component` part of the detail.
    pub closed spec fn spec_component(&self) -> Option<CssColorComponentName> {
        self.component
    }

    /// The `expectation` part of the detail.
    pub closed spec fn spec_expectation(&self) -> CssGrammarExpectation {
        self.expectation
    }

    /// The `encountered` part of the detail.
    pub closed spec fn spec_encountered(&self) -> Option<CssTokenSummary> {
        self.encountered
    }

    /// Returns the semantic color component responsible for the failure, when known.
    pub fn component(&self) -> (r: Option<&CssColorComponentName>)
        ensures
            r == match self.spec_component() {
                Some(v) => Some(&v),
                None => None::<&CssColorComponentName>,
            },
    {
        self.component.as_ref()
    }

    /// Returns the color grammar expectation that was not met.
    pub fn expectation(&self) -> (r: CssGrammarExpectation)
        ensures
            r == self.spec_expectation(),
    {
        self.expectation
    }

    /// Returns the responsible authored token, or `None` when the color ended at EOF.
    pub fn encountered(&self) -> (r: Option<&CssTokenSummary>)
        ensures
            r == match self.spec_encountered() {
                Some(v) => Some(&v),
                None => None::<&CssTokenSummary>,
            },
    {
        self.encountered.as_ref()
    }
}

/// Diagnostic detail for authored CSS nesting beyond the parser's structural limit.
#[derive(Clone, Debug, PartialEq, Eq)]
pub struct CssNestingLimitError {
    limit: u32,
    enclosing_production: CssProductionId,
}

impl CssNestingLimitError {
    /// The detail made of the given parts.
    pub closed spec fn spec_new(limit: u32, enclosing_production: CssProductionId) -> Self {
        CssNestingLimitError { limit, enclosing_production }
    }

    /// Creates the diagnostic detail from its parts.
    #[verifier::when_used_as_spec(spec_new)]
    pub fn new(limit: u32, enclosing_production: CssProductionId) -> (detail: Self)
        ensures
            detail == Self::spec_new(limit, enclosing_production),
            detail.spec_limit() == limit,
            detail.spec_enclosing_production() == enclosing_production,
    {
        CssNestingLimitError { limit, enclosing_production }
    }

    /// The `limit` part of the detail.
    pub closed spec fn spec_limit(&self) -> u32 {
        self.limit
    }

    /// The `enclosing_production` part of the detail.
    pub closed spec fn spec_enclosing_production(&self) -> CssProductionId {
        self.enclosing_production
    }

    /// Returns the maximum nesting depth accepted by the strict parser.
    pub fn limit(&self) -> (r: u32)
        ensures
            r == self.spec_limit(),
    {
        self.limit
    }

    /// Returns the grammar production enclosing the excessive nesting.
    pub fn enclosing_production(&self) -> (r: CssProductionId)
        ensures
            r == self.spec_enclosing_production(),
    {
        self.enclosing_production
    }
}


/// The grammar context that owns an authored declaration.
///
/// Exactly one variant identifies the context that owns the declaration invariant.
#[derive(Clone, Debug, PartialEq, Eq)]
pub enum CssDeclarationContext {
    /// A declaration for a known ordinary property.
    OrdinaryKnown(CssKnownProperty),
    /// A declaration for a case-sensitive authored custom property.
    OrdinaryCustom(CssCustomPropertyName),
    /// A declaration for a known property inside an authored keyframe.
    Keyframe(CssKnownProperty),
    /// A case-sensitive custom property declaration inside an authored keyframe.
    KeyframeCustom(CssCustomPropertyName),
    /// A descriptor declaration owned by an authored at-rule.
    Descriptor {
        /// The decoded authored name of the owning at-rule.
        at_rule: CssAtRuleName,
        /// The decoded authored descriptor name.
        descriptor: CssDescriptorName,
    },
}

/// A borrowed diagnostic-phase view of the grammar context for an authored declaration.
///
/// Exactly one variant identifies the context that owns the declaration invariant. The view does
/// not apply declarations, compute cascade, substitute custom properties, or choose recovery.
#[non_exhaustive]
#[derive(Clone, Copy, Debug, PartialEq, Eq)]
pub enum CssDeclarationContextRef<'a> {
    /// A declaration for a known ordinary property.
    KnownProperty(CssKnownProperty),
    /// A declaration for a case-sensitive authored custom property.
    CustomProperty(&'a CssCustomPropertyName),
    /// A declaration for a known property inside an authored keyframe.
    Keyframe(CssKnownProperty),
    /// A case-sensitive custom property declaration inside an authored keyframe.
    KeyframeCustomProperty(&'a CssCustomPropertyName),
    /// A descriptor declaration owned by an authored at-rule.
    Descriptor {
        /// The decoded authored name of the owning at-rule.
        at_rule: &'a CssAtRuleName,
        /// The decoded authored descriptor name.
        descriptor: &'a CssDescriptorName,
    },
}

/// The borrowed view that [`CssDeclarationContext::as_ref`] gives of a context.
pub open spec fn context_ref_of<'a>(context: &'a CssDeclarationContext) -> CssDeclarationContextRef<'a> {
    match context {
        CssDeclarationContext::OrdinaryKnown(property) => CssDeclarationContextRef::KnownProperty(*property),
        CssDeclarationContext::OrdinaryCustom(property) => CssDeclarationContextRef::CustomProperty(property),
        CssDeclarationContext::Keyframe(property) => CssDeclarationContextRef::Keyframe(*property),
        CssDeclarationContext::KeyframeCustom(property) => CssDeclarationContextRef::KeyframeCustomProperty(property),
        CssDeclarationContext::Descriptor { at_rule, descriptor } => CssDeclarationContextRef::Descriptor {
            at_rule,
            descriptor,
        },
    }
}

impl CssDeclarationContext {
    /// Returns the borrowed view of the context, variant for variant.
    pub fn as_ref(&self) -> (view: CssDeclarationContextRef<'_>)
        ensures
            view == context_ref_of(self),
    {
        match self {
            CssDeclarationContext::OrdinaryKnown(property) => CssDeclarationContextRef::KnownProperty(*property),
            CssDeclarationContext::OrdinaryCustom(property) => CssDeclarationContextRef::CustomProperty(property),
            CssDeclarationContext::Keyframe(property) => CssDeclarationContextRef::Keyframe(*property),
            CssDeclarationContext::KeyframeCustom(property) => {
                CssDeclarationContextRef::KeyframeCustomProperty(property)
            },
            CssDeclarationContext::Descriptor { at_rule, descriptor } => CssDeclarationContextRef::Descriptor {
                at_rule,
                descriptor,
            },
        }
    }
}

/// Diagnostic detail for a malformed or misplaced authored declaration annotation.
///
/// The declaration context and exact token identify the strict grammar violation; this value does
/// not apply importance, mutate the declaration, or recover it.
#[derive(Clone, Debug, PartialEq, Eq)]
pub struct CssDeclarationAnnotationError {
    context: CssDeclarationContext,
    encountered: CssTokenSummary,
}

impl CssDeclarationAnnotationError {
    /// The detail made of the given parts.
    pub closed spec fn spec_new(context: CssDeclarationContext, encountered: CssTokenSummary) -> Self {
        CssDeclarationAnnotationError { context, encountered }
    }

    /// Creates the diagnostic detail from its parts.
    #[verifier::when_used_as_spec(spec_new)]
    pub fn new(context: CssDeclarationContext, encountered: CssTokenSummary) -> (detail: Self)
        ensures
            detail == Self::spec_new(context, encountered),
            detail.spec_context() == context,
            detail.spec_encountered() == encountered,
    {
        CssDeclarationAnnotationError { context, encountered }
    }

    /// The `context` part of the detail.
    pub closed spec fn spec_context(&self) -> CssDeclarationContext {
        self.context
    }

    /// The `encountered` part of the detail.
    pub closed spec fn spec_encountered(&self) -> CssTokenSummary {
        self.encountered
    }

    /// Returns the grammar context that owns the declaration.
    pub fn context(&self) -> (view: CssDeclarationContextRef<'_>)
        ensures
            view == context_ref_of(&self.spec_context()),
    {
        self.context.as_ref()
    }

    /// Returns the exact authored annotation token rejected by the grammar.
    pub fn encountered(&self) -> (token: &CssTokenSummary)
        ensures
            *token == self.spec_encountered(),
    {
        &self.encountered
    }
}

/// The structured diagnostic-phase detail for one strict CSS parse failure.
///
/// Every variant carries the payload required by its stable [`CssErrorCode`] and preserves authored
/// provenance without a free-form catch-all. Matching a variant diagnoses rejected syntax; it does
/// not perform browser-style recovery, cascade, substitution, matching, or contextual resolution.
#[non_exhaustive]
#[derive(Clone, Debug, PartialEq, Eq)]
pub enum ErrorKind {
    /// Strict parsing reached EOF before an expected production completed.
    UnexpectedEnd(CssUnexpectedEndError),
    /// Strict parsing encountered a token rejected by the active grammar.
    UnexpectedToken(CssUnexpectedTokenError),
    /// An authored encoding declaration was invalid.
    InvalidEncodingDeclaration(CssEncodingDeclarationError),
    /// An authored at-rule appeared outside its permitted grammar context.
    InvalidAtRulePlacement(CssAtRulePlacementError),
    /// An authored at-rule prelude was invalid.
    InvalidAtRulePrelude(CssAtRuleSyntaxError),
    /// An authored at-rule body was invalid.
    InvalidAtRuleBody(CssAtRuleSyntaxError),
    /// An authored at-rule name was not recognized.
    UnknownAtRule(CssUnknownAtRuleError),
    /// An authored at-rule was recognized but unsupported.
    UnsupportedAtRule(CssUnsupportedAtRuleError),
    /// An authored qualified rule was invalid.
    InvalidQualifiedRule(CssQualifiedRuleError),
    /// An authored selector was invalid or outside the supported grammar.
    InvalidSelector(CssSelectorError),
    /// An authored media query was invalid or outside the supported grammar.
    InvalidMediaQuery(CssMediaQueryError),
    /// An authored property name was not recognized.
    UnknownProperty(CssUnknownPropertyError),
    /// An authored property was recognized but unsupported.
    UnsupportedProperty(CssUnsupportedPropertyError),
    /// An authored property value was invalid.
    InvalidPropertyValue(CssPropertyValueError),
    /// An authored declaration annotation was malformed or misplaced.
    InvalidDeclarationAnnotation(CssDeclarationAnnotationError),
    /// An authored descriptor name was not recognized for its at-rule.
    UnknownDescriptor(CssUnknownDescriptorError),
    /// An authored descriptor was recognized but unsupported.
    UnsupportedDescriptor(CssUnsupportedDescriptorError),
    /// An authored descriptor value was invalid.
    InvalidDescriptorValue(CssDescriptorValueError),
    /// Authored descriptors formed an invalid combination.
    InvalidDescriptorCombination(CssDescriptorCombinationError),
    /// Authored color syntax was invalid or outside the supported grammar.
    InvalidColorSyntax(CssColorSyntaxError),
    /// Authored nesting exceeded the parser's configured structural limit.
    NestingLimit(CssNestingLimitError),
}

/// The stable root code of each diagnostic kind: every variant of [`ErrorKind`] reports the
/// [`CssErrorCode`] variant of the same name.
pub open spec fn error_code_of(kind: ErrorKind) -> CssErrorCode {
    match kind {
        ErrorKind::UnexpectedEnd(_) => CssErrorCode::UnexpectedEnd,
        ErrorKind::UnexpectedToken(_) => CssErrorCode::UnexpectedToken,
        ErrorKind::InvalidEncodingDeclaration(_) => CssErrorCode::InvalidEncodingDeclaration,
        ErrorKind::InvalidAtRulePlacement(_) => CssErrorCode::InvalidAtRulePlacement,
        ErrorKind::InvalidAtRulePrelude(_) => CssErrorCode::InvalidAtRulePrelude,
        ErrorKind::InvalidAtRuleBody(_) => CssErrorCode::InvalidAtRuleBody,
        ErrorKind::UnknownAtRule(_) => CssErrorCode::UnknownAtRule,
        ErrorKind::UnsupportedAtRule(_) => CssErrorCode::UnsupportedAtRule,
        ErrorKind::InvalidQualifiedRule(_) => CssErrorCode::InvalidQualifiedRule,
        ErrorKind::InvalidSelector(_) => CssErrorCode::InvalidSelector,
        ErrorKind::InvalidMediaQuery(_) => CssErrorCode::InvalidMediaQuery,
        ErrorKind::UnknownProperty(_) => CssErrorCode::UnknownProperty,
        ErrorKind::UnsupportedProperty(_) => CssErrorCode::UnsupportedProperty,
        ErrorKind::InvalidPropertyValue(_) => CssErrorCode::InvalidPropertyValue,
        ErrorKind::InvalidDeclarationAnnotation(_) => CssErrorCode::InvalidDeclarationAnnotation,
        ErrorKind::UnknownDescriptor(_) => CssErrorCode::UnknownDescriptor,
        ErrorKind::UnsupportedDescriptor(_) => CssErrorCode::UnsupportedDescriptor,
        ErrorKind::InvalidDescriptorValue(_) => CssErrorCode::InvalidDescriptorValue,
        ErrorKind::InvalidDescriptorCombination(_) => CssErrorCode::InvalidDescriptorCombination,
        ErrorKind::InvalidColorSyntax(_) => CssErrorCode::InvalidColorSyntax,
        ErrorKind::NestingLimit(_) => CssErrorCode::NestingLimit,
    }
}

/// The exact responsible token a diagnostic kind retains, when its kind retains one and it is
/// present.
pub open spec fn encountered_of(kind: ErrorKind) -> Option<CssTokenSummary> {
    match kind {
        ErrorKind::UnexpectedToken(detail) => Some(detail.spec_encountered()),
        ErrorKind::InvalidEncodingDeclaration(detail) => detail.spec_encountered(),
        ErrorKind::InvalidAtRulePrelude(detail) => detail.spec_encountered(),
        ErrorKind::InvalidAtRuleBody(detail) => detail.spec_encountered(),
        ErrorKind::InvalidQualifiedRule(detail) => detail.spec_encountered(),
        ErrorKind::InvalidSelector(detail) => detail.spec_encountered(),
        ErrorKind::InvalidMediaQuery(detail) => detail.spec_encountered(),
        ErrorKind::InvalidPropertyValue(detail) => detail.spec_encountered(),
        ErrorKind::InvalidDeclarationAnnotation(detail) => Some(detail.spec_encountered()),
        ErrorKind::InvalidDescriptorValue(detail) => detail.spec_encountered(),
        ErrorKind::InvalidColorSyntax(detail) => detail.spec_encountered(),
        _ => None,
    }
}

/// The kind with its responsible token replaced by `token`, for kinds that retain one.
pub open spec fn with_encountered(kind: ErrorKind, token: CssTokenSummary) -> ErrorKind {
    match kind {
        ErrorKind::UnexpectedToken(d) => ErrorKind::UnexpectedToken(
            CssUnexpectedTokenError::spec_new(d.spec_expectation(), token),
        ),
        ErrorKind::InvalidDeclarationAnnotation(d) => ErrorKind::InvalidDeclarationAnnotation(
            CssDeclarationAnnotationError::spec_new(d.spec_context(), token),
        ),
        _ => match optional_encountered_of(kind) {
            Some(Some(_)) => with_optional_encountered(kind, Some(token)),
            _ => kind,
        },
    }
}

/// The optional responsible-token slot of a kind, for kinds whose token may be missing at EOF.
pub open spec fn optional_encountered_of(kind: ErrorKind) -> Option<Option<CssTokenSummary>> {
    match kind {
        ErrorKind::InvalidEncodingDeclaration(detail) => Some(detail.spec_encountered()),
        ErrorKind::InvalidAtRulePrelude(detail) => Some(detail.spec_encountered()),
        ErrorKind::InvalidAtRuleBody(detail) => Some(detail.spec_encountered()),
        ErrorKind::InvalidQualifiedRule(detail) => Some(detail.spec_encountered()),
        ErrorKind::InvalidSelector(detail) => Some(detail.spec_encountered()),
        ErrorKind::InvalidMediaQuery(detail) => Some(detail.spec_encountered()),
        ErrorKind::InvalidPropertyValue(detail) => Some(detail.spec_encountered()),
        ErrorKind::InvalidDescriptorValue(detail) => Some(detail.spec_encountered()),
        ErrorKind::InvalidColorSyntax(detail) => Some(detail.spec_encountered()),
        _ => None,
    }
}

/// Putting back the token a kind retains leaves the kind as it is.
pub proof fn lemma_with_encountered_unchanged(kind: ErrorKind)
    ensures
        encountered_of(kind) matches Some(token) ==> with_encountered(kind, token) == kind,
        optional_encountered_of(kind) matches Some(slot) ==> with_optional_encountered(kind, slot) == kind,
{
}

/// The kind with its optional responsible-token slot set to `slot`, for kinds that have one.
pub open spec fn with_optional_encountered(kind: ErrorKind, slot: Option<CssTokenSummary>) -> ErrorKind {
    match kind {
        ErrorKind::InvalidEncodingDeclaration(d) => ErrorKind::InvalidEncodingDeclaration(
            CssEncodingDeclarationError::spec_new(d.spec_expectation(), slot),
        ),
        ErrorKind::InvalidAtRulePrelude(d) => ErrorKind::InvalidAtRulePrelude(
            CssAtRuleSyntaxError::spec_new(d.spec_name(), d.spec_production(), d.spec_expectation(), slot),
        ),
        ErrorKind::InvalidAtRuleBody(d) => ErrorKind::InvalidAtRuleBody(
            CssAtRuleSyntaxError::spec_new(d.spec_name(), d.spec_production(), d.spec_expectation(), slot),
        ),
        ErrorKind::InvalidQualifiedRule(d) => ErrorKind::InvalidQualifiedRule(
            CssQualifiedRuleError::spec_new(d.spec_production(), d.spec_expectation(), slot),
        ),
        ErrorKind::InvalidSelector(d) => ErrorKind::InvalidSelector(
            CssSelectorError::spec_new(d.spec_production(), d.spec_expectation(), slot),
        ),
        ErrorKind::InvalidMediaQuery(d) => ErrorKind::InvalidMediaQuery(
            CssMediaQueryError::spec_new(d.spec_feature(), d.spec_expectation(), slot),
        ),
        ErrorKind::InvalidPropertyValue(d) => ErrorKind::InvalidPropertyValue(
            CssPropertyValueError::spec_new(d.spec_property(), d.spec_expectation(), slot),
        ),
        ErrorKind::InvalidDescriptorValue(d) => ErrorKind::InvalidDescriptorValue(
            CssDescriptorValueError::spec_new(d.spec_at_rule(), d.spec_descriptor(), d.spec_expectation(), slot),
        ),
        ErrorKind::InvalidColorSyntax(d) => ErrorKind::InvalidColorSyntax(
            CssColorSyntaxError::spec_new(d.spec_component(), d.spec_expectation(), slot),
        ),
        _ => kind,
    }
}

/// Returns a mutable borrow of the responsible token a diagnostic kind retains, when present.
pub fn encountered_mut(kind: &mut ErrorKind) -> (token: Option<&mut CssTokenSummary>)
    ensures
        match token {
            Some(t) => encountered_of(*old(kind)) == Some(*t) && *final(kind) == with_encountered(
                *old(kind),
                *final(t),
            ),
            None => encountered_of(*old(kind)) is None && *final(kind) == *old(kind),
        },
{
    match kind {
        ErrorKind::UnexpectedToken(detail) => Some(&mut detail.encountered),
        ErrorKind::InvalidEncodingDeclaration(detail) => detail.encountered.as_mut(),
        ErrorKind::InvalidAtRulePrelude(detail) => detail.encountered.as_mut(),
        ErrorKind::InvalidAtRuleBody(detail) => detail.encountered.as_mut(),
        ErrorKind::InvalidQualifiedRule(detail) => detail.encountered.as_mut(),
        ErrorKind::InvalidSelector(detail) => detail.encountered.as_mut(),
        ErrorKind::InvalidMediaQuery(detail) => detail.encountered.as_mut(),
        ErrorKind::InvalidPropertyValue(detail) => detail.encountered.as_mut(),
        ErrorKind::InvalidDeclarationAnnotation(detail) => Some(&mut detail.encountered),
        ErrorKind::InvalidDescriptorValue(detail) => detail.encountered.as_mut(),
        ErrorKind::InvalidColorSyntax(detail) => detail.encountered.as_mut(),
        _ => None,
    }
}

/// Returns a mutable borrow of the optional responsible-token slot of a diagnostic kind, for
/// kinds whose token may be missing at EOF.
pub fn optional_encountered_mut(kind: &mut ErrorKind) -> (slot: Option<&mut Option<CssTokenSummary>>)
    ensures
        match slot {
            Some(s) => optional_encountered_of(*old(kind)) == Some(*s) && *final(kind)
                == with_optional_encountered(*old(kind), *final(s)),
            None => optional_encountered_of(*old(kind)) is None && *final(kind) == *old(kind),
        },
{
    match kind {
        ErrorKind::InvalidEncodingDeclaration(detail) => Some(&mut detail.encountered),
        ErrorKind::InvalidAtRulePrelude(detail) => Some(&mut detail.encountered),
        ErrorKind::InvalidAtRuleBody(detail) => Some(&mut detail.encountered),
        ErrorKind::InvalidQualifiedRule(detail) => Some(&mut detail.encountered),
        ErrorKind::InvalidSelector(detail) => Some(&mut detail.encountered),
        ErrorKind::InvalidMediaQuery(detail) => Some(&mut detail.encountered),
        ErrorKind::InvalidPropertyValue(detail) => Some(&mut detail.encountered),
        ErrorKind::InvalidDescriptorValue(detail) => Some(&mut detail.encountered),
        ErrorKind::InvalidColorSyntax(detail) => Some(&mut detail.encountered),
        _ => None,
    }
}

/// The decoded at-rule name a diagnostic kind retains, for placement, unknown, and unsupported
/// at-rule diagnostics.
pub open spec fn at_rule_name_of(kind: ErrorKind) -> Option<CssAtRuleName> {
    match kind {
        ErrorKind::InvalidAtRulePlacement(detail) => Some(detail.spec_name()),
        ErrorKind::UnknownAtRule(detail) => Some(detail.spec_name()),
        ErrorKind::UnsupportedAtRule(detail) => Some(detail.spec_name()),
        _ => None,
    }
}

/// Returns the decoded at-rule name of placement, unknown, and unsupported at-rule diagnostics.
pub fn at_rule_name(kind: &ErrorKind) -> (name: Option<&CssAtRuleName>)
    ensures
        name == match at_rule_name_of(*kind) {
            Some(n) => Some(&n),
            None => None::<&CssAtRuleName>,
        },
{
    match kind {
        ErrorKind::InvalidAtRulePlacement(detail) => Some(&detail.name),
        ErrorKind::UnknownAtRule(detail) => Some(&detail.name),
        ErrorKind::UnsupportedAtRule(detail) => Some(&detail.name),
        _ => None,
    }
}

/// A structured strict-parse diagnostic at one semantic authored-source position.
///
/// The kind and position jointly identify the rejected syntax invariant. This error reports the
/// failure but does not perform browser-style recovery, cascade, substitution, selector matching,
/// contextual resolution, or resource loading.
#[derive(Clone, Debug, PartialEq, Eq)]
pub struct Error {
    kind: ErrorKind,
    position: CssSourcePosition,
}

impl Error {
    /// The structured detail of the diagnostic.
    pub closed spec fn spec_kind(&self) -> ErrorKind {
        self.kind
    }

    /// The authored-source position of the diagnostic.
    pub closed spec fn spec_position(&self) -> CssSourcePosition {
        self.position
    }

    /// The diagnostic `kind` at the unresolved position of a tokenizer location.
    pub closed spec fn spec_at(location: CssSourceLocation, kind: ErrorKind) -> Self {
        Error { kind, position: CssSourcePosition::spec_from_source_location(location) }
    }

    /// The diagnostic `kind` at an exact authored position.
    pub closed spec fn spec_new(kind: ErrorKind, position: CssSourcePosition) -> Self {
        Error { kind, position }
    }

    /// The parts of a diagnostic raised at a tokenizer location.
    pub broadcast proof fn lemma_at_parts(location: CssSourceLocation, kind: ErrorKind)
        ensures
            #[trigger] Self::spec_at(location, kind).spec_kind() == kind,
            Self::spec_at(location, kind).spec_position() == CssSourcePosition::spec_from_source_location(location),
    {
    }

    /// The parts of a diagnostic at an exact authored position.
    pub broadcast proof fn lemma_new_parts(kind: ErrorKind, position: CssSourcePosition)
        ensures
            #[trigger] Self::spec_new(kind, position).spec_kind() == kind,
            Self::spec_new(kind, position).spec_position() == position,
    {
    }

    /// Creates the diagnostic for a parser source location, which carries no byte offset yet.
    #[verifier::when_used_as_spec(spec_at)]
    pub fn at(location: CssSourceLocation, kind: ErrorKind) -> (error: Self)
        ensures
            error == Self::spec_at(location, kind),
            error.spec_kind() == kind,
            error.spec_position() == CssSourcePosition::spec_from_source_location(location),
    {
        Error { kind, position: CssSourcePosition::from_source_location(location) }
    }

    /// Creates the diagnostic at an exact authored position whose byte offset is already known.
    pub fn at_exact_nonzero_byte_offset(position: CssSourcePosition, kind: ErrorKind) -> (error: Self)
        requires
            position.spec_byte_offset() != 0,
        ensures
            error == Self::spec_new(kind, position),
            error.spec_kind() == kind,
            error.spec_position() == position,
    {
        Error { kind, position }
    }

    /// Splits the diagnostic into its detail and position.
    pub(crate) fn into_parts(self) -> (parts: (ErrorKind, CssSourcePosition))
        ensures
            parts == (self.spec_kind(), self.spec_position()),
    {
        (self.kind, self.position)
    }

    /// Creates the diagnostic at a position resolved against the authored source.
    pub(crate) fn from_parts(kind: ErrorKind, position: CssSourcePosition) -> (error: Self)
        ensures
            error == Self::spec_new(kind, position),
    {
        Error { kind, position }
    }

    /// Returns the diagnostic with its detail replaced, at the same position.
    pub(crate) fn with_kind(self, kind: ErrorKind) -> (error: Self)
        ensures
            error == Self::spec_new(kind, self.spec_position()),
            error.spec_kind() == kind,
            error.spec_position() == self.spec_position(),
    {
        Error { kind, position: self.position }
    }

    /// Returns the structured diagnostic detail for the parse failure.
    pub fn kind(&self) -> (kind: &ErrorKind)
        ensures
            *kind == self.spec_kind(),
    {
        &self.kind
    }

    /// Returns the stable machine-readable root category corresponding to [`Self::kind`].
    pub fn code(&self) -> (code: CssErrorCode)
        ensures
            code == error_code_of(self.spec_kind()),
    {
        match self.kind {
            ErrorKind::UnexpectedEnd(_) => CssErrorCode::UnexpectedEnd,
            ErrorKind::UnexpectedToken(_) => CssErrorCode::UnexpectedToken,
            ErrorKind::InvalidEncodingDeclaration(_) => CssErrorCode::InvalidEncodingDeclaration,
            ErrorKind::InvalidAtRulePlacement(_) => CssErrorCode::InvalidAtRulePlacement,
            ErrorKind::InvalidAtRulePrelude(_) => CssErrorCode::InvalidAtRulePrelude,
            ErrorKind::InvalidAtRuleBody(_) => CssErrorCode::InvalidAtRuleBody,
            ErrorKind::UnknownAtRule(_) => CssErrorCode::UnknownAtRule,
            ErrorKind::UnsupportedAtRule(_) => CssErrorCode::UnsupportedAtRule,
            ErrorKind::InvalidQualifiedRule(_) => CssErrorCode::InvalidQualifiedRule,
            ErrorKind::InvalidSelector(_) => CssErrorCode::InvalidSelector,
            ErrorKind::InvalidMediaQuery(_) => CssErrorCode::InvalidMediaQuery,
            ErrorKind::UnknownProperty(_) => CssErrorCode::UnknownProperty,
            ErrorKind::UnsupportedProperty(_) => CssErrorCode::UnsupportedProperty,
            ErrorKind::InvalidPropertyValue(_) => CssErrorCode::InvalidPropertyValue,
            ErrorKind::InvalidDeclarationAnnotation(_) => {
                CssErrorCode::InvalidDeclarationAnnotation
            },
            ErrorKind::UnknownDescriptor(_) => CssErrorCode::UnknownDescriptor,
            ErrorKind::UnsupportedDescriptor(_) => CssErrorCode::UnsupportedDescriptor,
            ErrorKind::InvalidDescriptorValue(_) => CssErrorCode::InvalidDescriptorValue,
            ErrorKind::InvalidDescriptorCombination(_) => {
                CssErrorCode::InvalidDescriptorCombination
            },
            ErrorKind::InvalidColorSyntax(_) => CssErrorCode::InvalidColorSyntax,
            ErrorKind::NestingLimit(_) => CssErrorCode::NestingLimit,
        }
    }

    /// Returns the semantic authored-source position of the responsible token or missing token.
    pub fn position(&self) -> (position: CssSourcePosition)
        ensures
            position == self.spec_position(),
    {
        self.position
    }
}

} // verus!
