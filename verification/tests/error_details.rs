use surgeist_css::{
    expect_color, expect_css_syntax, expect_descriptor_value, expect_media_query,
    expect_property_value, expect_selector, qualified_rule_production, CssAtRuleName,
    CssAtRulePlacementError, CssAtRuleSyntaxError, CssColorSyntaxError, CssCustomPropertyName,
    CssDeclarationAnnotationError, CssDeclarationContext, CssDeclarationContextRef,
    CssDescriptorCombinationError, CssDescriptorName, CssDescriptorValueError,
    CssEncodingDeclarationError, CssErrorCode, CssFeatureId, CssGrammarExpectation,
    CssKnownProperty, CssMediaQueryError, CssNestingLimitError, CssPropertyName,
    CssPropertyValueError, CssQualifiedRuleError, CssSelectorError, CssSourceLocation,
    CssTokenKind, CssTokenSummary, CssUnexpectedEndError, CssUnexpectedTokenError,
    CssUnknownAtRuleError, CssUnknownDescriptorError, CssUnknownPropertyError,
    CssUnsupportedAtRuleError, CssUnsupportedDescriptorError, CssUnsupportedPropertyError, Error,
    ErrorKind,
};

fn position() -> CssSourceLocation {
    CssSourceLocation { line: 0, column: 1 }
}

#[test]
fn semantic_error_variants_report_their_stable_root_codes() {
    let token = CssTokenSummary::new(CssTokenKind::Ident, "x");
    let at_rule = CssAtRuleName::new("x");
    let descriptor = CssDescriptorName::new("x");
    let roots = vec![
        (
            ErrorKind::UnexpectedEnd(CssUnexpectedEndError::new(expect_css_syntax())),
            CssErrorCode::UnexpectedEnd,
        ),
        (
            ErrorKind::UnexpectedToken(CssUnexpectedTokenError::new(expect_css_syntax(), token.clone())),
            CssErrorCode::UnexpectedToken,
        ),
        (
            ErrorKind::InvalidEncodingDeclaration(CssEncodingDeclarationError::new(expect_css_syntax(), None)),
            CssErrorCode::InvalidEncodingDeclaration,
        ),
        (
            ErrorKind::InvalidAtRulePlacement(CssAtRulePlacementError::new(at_rule.clone(), expect_css_syntax())),
            CssErrorCode::InvalidAtRulePlacement,
        ),
        (
            ErrorKind::InvalidAtRulePrelude(CssAtRuleSyntaxError::new(
                at_rule.clone(),
                qualified_rule_production(),
                expect_css_syntax(),
                None,
            )),
            CssErrorCode::InvalidAtRulePrelude,
        ),
        (
            ErrorKind::InvalidAtRuleBody(CssAtRuleSyntaxError::new(
                at_rule.clone(),
                qualified_rule_production(),
                expect_css_syntax(),
                None,
            )),
            CssErrorCode::InvalidAtRuleBody,
        ),
        (
            ErrorKind::UnknownAtRule(CssUnknownAtRuleError::new(at_rule.clone())),
            CssErrorCode::UnknownAtRule,
        ),
        (
            ErrorKind::UnsupportedAtRule(CssUnsupportedAtRuleError::new(at_rule.clone(), CssFeatureId::new("x"))),
            CssErrorCode::UnsupportedAtRule,
        ),
        (
            ErrorKind::InvalidQualifiedRule(CssQualifiedRuleError::new(
                qualified_rule_production(),
                expect_css_syntax(),
                None,
            )),
            CssErrorCode::InvalidQualifiedRule,
        ),
        (
            ErrorKind::InvalidSelector(CssSelectorError::new(None, expect_selector(), None)),
            CssErrorCode::InvalidSelector,
        ),
        (
            ErrorKind::InvalidMediaQuery(CssMediaQueryError::new(None, expect_media_query(), None)),
            CssErrorCode::InvalidMediaQuery,
        ),
        (
            ErrorKind::UnknownProperty(CssUnknownPropertyError::new(CssPropertyName::new("x"))),
            CssErrorCode::UnknownProperty,
        ),
        (
            ErrorKind::UnsupportedProperty(CssUnsupportedPropertyError::new(
                CssPropertyName::new("x"),
                CssFeatureId::new("x"),
            )),
            CssErrorCode::UnsupportedProperty,
        ),
        (
            ErrorKind::InvalidPropertyValue(CssPropertyValueError::new(
                CssKnownProperty::Width,
                expect_property_value(),
                None,
            )),
            CssErrorCode::InvalidPropertyValue,
        ),
        (
            ErrorKind::InvalidDeclarationAnnotation(CssDeclarationAnnotationError::new(
                CssDeclarationContext::OrdinaryKnown(CssKnownProperty::Width),
                token.clone(),
            )),
            CssErrorCode::InvalidDeclarationAnnotation,
        ),
        (
            ErrorKind::UnknownDescriptor(CssUnknownDescriptorError::new(at_rule.clone(), descriptor.clone())),
            CssErrorCode::UnknownDescriptor,
        ),
        (
            ErrorKind::UnsupportedDescriptor(CssUnsupportedDescriptorError::new(
                at_rule.clone(),
                descriptor.clone(),
                CssFeatureId::new("x"),
            )),
            CssErrorCode::UnsupportedDescriptor,
        ),
        (
            ErrorKind::InvalidDescriptorValue(CssDescriptorValueError::new(
                at_rule.clone(),
                descriptor.clone(),
                expect_descriptor_value(),
                None,
            )),
            CssErrorCode::InvalidDescriptorValue,
        ),
        (
            ErrorKind::InvalidDescriptorCombination(CssDescriptorCombinationError::new(
                at_rule.clone(),
                descriptor.clone(),
                vec![descriptor],
            )),
            CssErrorCode::InvalidDescriptorCombination,
        ),
        (
            ErrorKind::InvalidColorSyntax(CssColorSyntaxError::new(None, expect_color(), None)),
            CssErrorCode::InvalidColorSyntax,
        ),
        (
            ErrorKind::NestingLimit(CssNestingLimitError::new(256, qualified_rule_production())),
            CssErrorCode::NestingLimit,
        ),
    ];

    for (kind, expected) in roots {
        assert_eq!(Error::at(position(), kind).code(), expected);
    }
}

#[test]
fn semantic_error_details_expose_typed_fields() {
    let token = CssTokenSummary::new(CssTokenKind::Delim, "!");
    let unexpected_end = CssUnexpectedEndError::new(expect_css_syntax());
    assert_eq!(unexpected_end.expectation().as_str(), "valid CSS syntax");
    let unexpected_token = CssUnexpectedTokenError::new(expect_css_syntax(), token.clone());
    assert_eq!(unexpected_token.expectation().as_str(), "valid CSS syntax");
    assert_eq!(unexpected_token.encountered().kind(), CssTokenKind::Delim);
    let encoding = CssEncodingDeclarationError::new(
        CssGrammarExpectation::new("a quoted encoding label"),
        Some(token.clone()),
    );
    assert_eq!(encoding.expectation().as_str(), "a quoted encoding label");
    assert_eq!(encoding.encountered().unwrap().authored(), "!");

    let unsupported_property = CssUnsupportedPropertyError::new(
        CssPropertyName::new("future-property"),
        CssFeatureId::new("later.property.future-property"),
    );
    assert_eq!(unsupported_property.name().as_str(), "future-property");
    assert_eq!(
        unsupported_property.feature().as_str(),
        "later.property.future-property"
    );

    let unsupported_descriptor = CssUnsupportedDescriptorError::new(
        CssAtRuleName::new("font-face"),
        CssDescriptorName::new("future-descriptor"),
        CssFeatureId::new("later.descriptor.future-descriptor"),
    );
    assert_eq!(unsupported_descriptor.at_rule().as_str(), "font-face");
    assert_eq!(
        unsupported_descriptor.descriptor().as_str(),
        "future-descriptor"
    );
    assert_eq!(
        unsupported_descriptor.feature().as_str(),
        "later.descriptor.future-descriptor"
    );

    let annotation = CssDeclarationAnnotationError::new(
        CssDeclarationContext::Descriptor {
            at_rule: CssAtRuleName::new("font-face"),
            descriptor: CssDescriptorName::new("src"),
        },
        token.clone(),
    );
    match annotation.context() {
        CssDeclarationContextRef::Descriptor {
            at_rule,
            descriptor,
        } => {
            assert_eq!(at_rule.as_str(), "font-face");
            assert_eq!(descriptor.as_str(), "src");
        }
        _ => panic!("wrong declaration context"),
    }
    assert_eq!(annotation.encountered().authored(), "!");

    let custom = CssDeclarationAnnotationError::new(
        CssDeclarationContext::OrdinaryCustom(CssCustomPropertyName::try_new("--theme").unwrap()),
        token.clone(),
    );
    match custom.context() {
        CssDeclarationContextRef::CustomProperty(name) => {
            assert_eq!(name.as_str(), "--theme");
        }
        _ => panic!("wrong custom-property context"),
    }

    let keyframe = CssDeclarationAnnotationError::new(
        CssDeclarationContext::Keyframe(CssKnownProperty::Opacity),
        token,
    );
    match keyframe.context() {
        CssDeclarationContextRef::Keyframe(property) => {
            assert_eq!(property, CssKnownProperty::Opacity);
        }
        _ => panic!("wrong keyframe context"),
    }

    let nesting = CssNestingLimitError::new(256, qualified_rule_production());
    assert_eq!(nesting.limit(), 256);
    assert_eq!(
        nesting.enclosing_production().as_str(),
        "css.qualified-rule"
    );
}

#[test]
fn error_at_location_has_unresolved_position() {
    let error = Error::at(
        CssSourceLocation { line: 3, column: 7 },
        ErrorKind::UnexpectedEnd(CssUnexpectedEndError::new(expect_css_syntax())),
    );
    assert_eq!(error.position().byte_offset(), 0);
    assert_eq!(error.position().line(), 3);
    assert_eq!(error.position().column(), 6);
    assert_eq!(error.code(), CssErrorCode::UnexpectedEnd);
}

#[test]
fn error_at_column_zero_saturates() {
    let error = Error::at(
        CssSourceLocation { line: 0, column: 0 },
        ErrorKind::UnexpectedEnd(CssUnexpectedEndError::new(expect_css_syntax())),
    );
    assert_eq!(error.position().column(), 0);
}

#[test]
fn custom_property_names_need_two_dashes_and_a_body() {
    assert!(CssCustomPropertyName::try_new("--theme").is_some());
    assert!(CssCustomPropertyName::try_new("--").is_none());
    assert!(CssCustomPropertyName::try_new("-theme").is_none());
    assert!(CssCustomPropertyName::try_new("theme").is_none());
}
