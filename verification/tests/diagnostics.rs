use surgeist_css::{
    authored_at_rule_before, authored_at_rule_start, is_boundary_token, is_bounded_end_token,
    at_rule_requires_block, basic, basic_error, descriptor_name_error, error_at,
    invalid_at_rule_body_at, invalid_at_rule_placement, invalid_color,
    invalid_custom_declaration_annotation, invalid_descriptor_annotation,
    invalid_encoding_declaration, invalid_known_declaration_annotation, invalid_selector,
    invalid_syntax, is_nesting_limit_error, production_for_at_rule, property_feature_id,
    qualified_rule_production, rule_unit_error, selector_basic, unresolved_error, encoding_error_offset,
    invalid_descriptor_combination, set_descriptor, take_encountered, unexpected_at,
    unsupported_at_rule_feature, unsupported_property, unsupported_value, unsupported_value_at,
    with_at_rule_prelude_context, with_color_context, with_descriptor_context,
    with_encoding_declaration_context, with_media_query_context, with_property_context,
    CssBasicParseError, CssBasicParseErrorKind, CssCustomPropertyName, CssDeclarationContextRef,
    CssErrorCode, CssKnownProperty, CssNestingLimitError, CssParseError, CssParseErrorKind,
    CssSourceLocation, CssSourcePosition, CssTokenKind, CssTokenSummary, Error, ErrorKind,
};

fn location() -> CssSourceLocation {
    CssSourceLocation { line: 2, column: 5 }
}

fn custom(error: &CssParseError) -> &Error {
    match &error.kind {
        CssParseErrorKind::Custom(error) => error,
        CssParseErrorKind::Basic(_) => panic!("expected a custom diagnostic"),
    }
}

fn unexpected_ident(text: &str) -> CssParseError {
    CssParseError {
        kind: CssParseErrorKind::Basic(CssBasicParseErrorKind::UnexpectedToken(
            CssTokenSummary::new(CssTokenKind::Ident, text),
        )),
        location: location(),
    }
}

fn end_of_input() -> CssParseError {
    CssParseError {
        kind: CssParseErrorKind::Basic(CssBasicParseErrorKind::EndOfInput),
        location: location(),
    }
}

#[test]
fn custom_errors_keep_location_and_unresolved_position() {
    let error = unexpected_at(location());
    assert_eq!(error.location, location());
    let inner = custom(&error);
    assert_eq!(inner.code(), CssErrorCode::UnexpectedEnd);
    assert_eq!(inner.position().line(), 2);
    assert_eq!(inner.position().column(), 4);
    assert_eq!(inner.position().byte_offset(), 0);
    match inner.kind() {
        ErrorKind::UnexpectedEnd(detail) => {
            assert_eq!(detail.expectation().as_str(), "a declaration value")
        }
        _ => panic!("wrong kind"),
    }
}

#[test]
fn unsupported_values_are_missing_declaration_values() {
    let a = unsupported_value(location(), Some("width"), "negative");
    let b = unsupported_value_at(location(), None, "anything");
    assert_eq!(a, unexpected_at(location()));
    assert_eq!(b, unexpected_at(location()));
}

#[test]
fn builders_raise_their_root_codes() {
    let cases = vec![
        (invalid_encoding_declaration(location()), CssErrorCode::InvalidEncodingDeclaration),
        (invalid_syntax(location(), "x"), CssErrorCode::InvalidQualifiedRule),
        (invalid_selector(location(), "x"), CssErrorCode::InvalidSelector),
        (
            invalid_at_rule_placement(location(), "import", "the stylesheet top level"),
            CssErrorCode::InvalidAtRulePlacement,
        ),
        (unsupported_property(location(), "width"), CssErrorCode::UnsupportedProperty),
        (descriptor_name_error(location(), "font-face", "bogus"), CssErrorCode::UnknownDescriptor),
        (invalid_color(location(), Some("alpha")), CssErrorCode::InvalidColorSyntax),
        (
            invalid_known_declaration_annotation(location(), CssKnownProperty::Width, false),
            CssErrorCode::InvalidDeclarationAnnotation,
        ),
        (
            invalid_descriptor_annotation(location(), "font-face", "src"),
            CssErrorCode::InvalidDeclarationAnnotation,
        ),
    ];
    for (error, code) in cases {
        assert_eq!(custom(&error).code(), code);
        assert_eq!(error.location, location());
    }
}

#[test]
fn unsupported_property_names_the_catalog_record_of_the_property() {
    let error = unsupported_property(location(), "width");
    match custom(&error).kind() {
        ErrorKind::UnsupportedProperty(detail) => {
            assert_eq!(detail.name().as_str(), "width");
            assert_eq!(detail.feature().as_str(), "baseline.property.width");
            assert!(surgeist_css::feature_metadata(detail.feature().as_str()).is_some());
        }
        _ => panic!("wrong kind"),
    }
    assert_eq!(property_feature_id("WIDTH").as_str(), "baseline.property.width");
}

#[test]
fn annotation_builders_record_context_and_bang() {
    let known = invalid_known_declaration_annotation(location(), CssKnownProperty::Opacity, true);
    match custom(&known).kind() {
        ErrorKind::InvalidDeclarationAnnotation(detail) => {
            assert!(matches!(detail.context(), CssDeclarationContextRef::Keyframe(CssKnownProperty::Opacity)));
            assert_eq!(detail.encountered().kind(), CssTokenKind::Delim);
            assert_eq!(detail.encountered().authored(), "!");
        }
        _ => panic!("wrong kind"),
    }
    let name = CssCustomPropertyName::try_new("--theme").unwrap();
    let custom_error = invalid_custom_declaration_annotation(location(), &name, false);
    match custom(&custom_error).kind() {
        ErrorKind::InvalidDeclarationAnnotation(detail) => match detail.context() {
            CssDeclarationContextRef::CustomProperty(found) => assert_eq!(found.as_str(), "--theme"),
            _ => panic!("wrong context"),
        },
        _ => panic!("wrong kind"),
    }
}

#[test]
fn basic_keeps_the_failure() {
    let error = basic(CssBasicParseError {
        kind: CssBasicParseErrorKind::EndOfInput,
        location: location(),
    });
    assert_eq!(error, end_of_input());
}

#[test]
fn selector_basic_keeps_the_unexpected_token() {
    let error = selector_basic(CssBasicParseError {
        kind: CssBasicParseErrorKind::UnexpectedToken(CssTokenSummary::new(CssTokenKind::Colon, ":")),
        location: location(),
    });
    match custom(&error).kind() {
        ErrorKind::InvalidSelector(detail) => {
            assert_eq!(detail.production().unwrap().as_str(), "baseline.selector.complex");
            assert_eq!(detail.encountered().unwrap().authored(), ":");
        }
        _ => panic!("wrong kind"),
    }
    let at_end = selector_basic(CssBasicParseError {
        kind: CssBasicParseErrorKind::EndOfInput,
        location: location(),
    });
    match custom(&at_end).kind() {
        ErrorKind::InvalidSelector(detail) => assert!(detail.encountered().is_none()),
        _ => panic!("wrong kind"),
    }
}

#[test]
fn take_encountered_reads_basic_and_custom_tokens() {
    assert_eq!(
        take_encountered(&unexpected_ident("foo").kind).unwrap().authored(),
        "foo"
    );
    assert!(take_encountered(&end_of_input().kind).is_none());
    let with_token = selector_basic(CssBasicParseError {
        kind: CssBasicParseErrorKind::UnexpectedToken(CssTokenSummary::new(CssTokenKind::Comma, ",")),
        location: location(),
    });
    assert_eq!(take_encountered(&with_token.kind).unwrap().kind(), CssTokenKind::Comma);
    assert!(take_encountered(&unexpected_at(location()).kind).is_none());
}

#[test]
fn encoding_context_keeps_the_responsible_token() {
    let error = with_encoding_declaration_context(unexpected_ident("utf-8"));
    match custom(&error).kind() {
        ErrorKind::InvalidEncodingDeclaration(detail) => {
            assert_eq!(detail.encountered().unwrap().authored(), "utf-8");
        }
        _ => panic!("wrong kind"),
    }
    assert_eq!(error.location, location());
}

#[test]
fn prelude_context_rewrites_all_but_media_query_errors() {
    let error = with_at_rule_prelude_context(
        unexpected_ident("foo"),
        "import",
        "baseline.rule.import",
        "a supported @import prelude",
    );
    match custom(&error).kind() {
        ErrorKind::InvalidAtRulePrelude(detail) => {
            assert_eq!(detail.name().as_str(), "import");
            assert_eq!(detail.production().as_str(), "baseline.rule.import");
            assert_eq!(detail.expectation().as_str(), "a supported @import prelude");
            assert_eq!(detail.encountered().unwrap().authored(), "foo");
        }
        _ => panic!("wrong kind"),
    }
    let media = with_media_query_context(unexpected_ident("screen"), Some("width"));
    let kept = with_at_rule_prelude_context(media.clone(), "media", "baseline.rule.media", "x");
    assert_eq!(kept, media);
}

#[test]
fn color_context_keeps_color_errors_and_rewrites_others() {
    let color = invalid_color(location(), None);
    assert_eq!(with_color_context(color.clone(), Some("hue")), color);
    let rewritten = with_color_context(unexpected_ident("bogus"), Some("hue"));
    match custom(&rewritten).kind() {
        ErrorKind::InvalidColorSyntax(detail) => {
            assert_eq!(detail.component().unwrap().as_str(), "hue");
            assert_eq!(detail.encountered().unwrap().authored(), "bogus");
        }
        _ => panic!("wrong kind"),
    }
}

#[test]
fn media_context_names_the_feature() {
    let error = with_media_query_context(end_of_input(), Some("min-width"));
    match custom(&error).kind() {
        ErrorKind::InvalidMediaQuery(detail) => {
            assert_eq!(detail.feature().unwrap().as_str(), "min-width");
            assert!(detail.encountered().is_none());
        }
        _ => panic!("wrong kind"),
    }
    assert_eq!(with_media_query_context(error.clone(), None), error);
}

#[test]
fn property_context_applies_only_to_supported_properties() {
    let failure = unexpected_ident("bogus");
    assert_eq!(with_property_context(failure.clone(), None), failure);
    let color = invalid_color(location(), None);
    assert_eq!(with_property_context(color.clone(), Some(CssKnownProperty::Color)), color);
    let error = with_property_context(failure, Some(CssKnownProperty::Width));
    match custom(&error).kind() {
        ErrorKind::InvalidPropertyValue(detail) => {
            assert_eq!(detail.property(), CssKnownProperty::Width);
            assert_eq!(detail.encountered().unwrap().authored(), "bogus");
        }
        _ => panic!("wrong kind"),
    }
}

#[test]
fn descriptor_context_keeps_descriptor_specific_errors() {
    let unknown = descriptor_name_error(location(), "font-face", "bogus");
    assert_eq!(with_descriptor_context(unknown.clone(), "font-face", "src"), unknown);
    let annotation = invalid_descriptor_annotation(location(), "font-face", "src");
    assert_eq!(with_descriptor_context(annotation.clone(), "font-face", "src"), annotation);
    let error = with_descriptor_context(unexpected_ident("x"), "font-face", "font-display");
    match custom(&error).kind() {
        ErrorKind::InvalidDescriptorValue(detail) => {
            assert_eq!(detail.at_rule().as_str(), "font-face");
            assert_eq!(detail.descriptor().as_str(), "font-display");
            assert_eq!(detail.encountered().unwrap().authored(), "x");
        }
        _ => panic!("wrong kind"),
    }
}

#[test]
fn nesting_limit_errors_are_recognized() {
    let limit = error_at(
        location(),
        ErrorKind::NestingLimit(CssNestingLimitError::new(256, qualified_rule_production())),
    );
    assert!(is_nesting_limit_error(&limit));
    assert!(!is_nesting_limit_error(&unexpected_at(location())));
    assert!(!is_nesting_limit_error(&end_of_input()));
}

#[test]
fn at_rule_body_errors_keep_their_exact_position() {
    let position = CssSourcePosition::new(17, 1, 4);
    let error = invalid_at_rule_body_at(position, location(), "media", "baseline.rule.media", "a block");
    let inner = custom(&error);
    assert_eq!(inner.position().byte_offset(), 17);
    assert_eq!(inner.code(), CssErrorCode::InvalidAtRuleBody);
}

#[test]
fn at_rule_tables_ignore_ascii_case() {
    assert_eq!(production_for_at_rule("MEDIA").as_str(), "baseline.rule.media");
    assert_eq!(production_for_at_rule("layer").as_str(), "baseline.rule.layer-block");
    assert_eq!(production_for_at_rule("bogus").as_str(), "css.at-rule");
    assert_eq!(
        unsupported_at_rule_feature("NameSpace").unwrap().as_str(),
        "later.rule.namespace"
    );
    assert!(unsupported_at_rule_feature("media").is_none());
    assert!(at_rule_requires_block("Font-Face"));
    assert!(!at_rule_requires_block("import"));
}

#[test]
fn basic_errors_become_structured_diagnostics() {
    let end = basic_error(location(), CssBasicParseErrorKind::EndOfInput);
    assert_eq!(end.code(), CssErrorCode::UnexpectedEnd);
    let token = basic_error(
        location(),
        CssBasicParseErrorKind::UnexpectedToken(CssTokenSummary::new(CssTokenKind::Semicolon, ";")),
    );
    assert_eq!(token.code(), CssErrorCode::UnexpectedToken);
    let supports = basic_error(location(), CssBasicParseErrorKind::AtRuleInvalid("supports".to_string()));
    match supports.kind() {
        ErrorKind::UnsupportedAtRule(detail) => {
            assert_eq!(detail.name().as_str(), "supports");
            assert_eq!(detail.feature().as_str(), "later.rule.supports");
        }
        _ => panic!("wrong kind"),
    }
    let unknown = basic_error(location(), CssBasicParseErrorKind::AtRuleInvalid("bogus".to_string()));
    assert_eq!(unknown.code(), CssErrorCode::UnknownAtRule);
    let body = basic_error(location(), CssBasicParseErrorKind::AtRuleBodyInvalid);
    match body.kind() {
        ErrorKind::InvalidAtRuleBody(detail) => {
            assert_eq!(detail.name().as_str(), "at-rule");
            assert_eq!(detail.production().as_str(), "css.at-rule");
        }
        _ => panic!("wrong kind"),
    }
    let rule = basic_error(location(), CssBasicParseErrorKind::QualifiedRuleInvalid);
    assert_eq!(rule.code(), CssErrorCode::InvalidQualifiedRule);
    assert_eq!(rule.position().column(), 4);
}

#[test]
fn authored_at_rule_lookup_finds_the_last_at_keyword_before_a_position() {
    let source = "a { color: red } @media screen { b { } }";
    let end = CssSourcePosition::new(source.len(), 0, 0);
    assert_eq!(
        authored_at_rule_before(source, end),
        Some((17, "media".to_string()))
    );
    assert_eq!(authored_at_rule_start(source, end, "MEDIA"), Some(17));
    assert_eq!(authored_at_rule_start(source, end, "supports"), None);
    let before = CssSourcePosition::new(17, 0, 17);
    assert_eq!(authored_at_rule_before(source, before), None);
    let beyond = CssSourcePosition::new(1000, 0, 0);
    assert_eq!(authored_at_rule_before(source, beyond), Some((17, "media".to_string())));
    let mail = "a { content: \"x@ y\" } @font-face { }";
    let end = CssSourcePosition::new(mail.len(), 0, 0);
    assert_eq!(authored_at_rule_before(mail, end), Some((22, "font-face".to_string())));
    let lone = "a @ b";
    assert_eq!(authored_at_rule_before(lone, CssSourcePosition::new(lone.len(), 0, 0)), None);
}

#[test]
fn token_kind_classes() {
    assert!(is_bounded_end_token(CssTokenKind::Semicolon));
    assert!(is_bounded_end_token(CssTokenKind::CloseCurlyBracket));
    assert!(!is_bounded_end_token(CssTokenKind::Colon));
    assert!(is_boundary_token(CssTokenKind::Colon));
    assert!(is_boundary_token(CssTokenKind::CurlyBracketBlock));
    assert!(is_boundary_token(CssTokenKind::Semicolon));
    assert!(!is_boundary_token(CssTokenKind::Ident));
}

fn unexpected_end_error() -> Error {
    basic_error(location(), CssBasicParseErrorKind::EndOfInput)
}

#[test]
fn rule_units_ending_in_semicolon_need_a_block() {
    let error = rule_unit_error("  @media screen;  ", unexpected_end_error());
    match error.kind() {
        ErrorKind::InvalidAtRuleBody(detail) => {
            assert_eq!(detail.name().as_str(), "media");
            assert_eq!(detail.production().as_str(), "baseline.rule.media");
            assert_eq!(detail.expectation().as_str(), "a block body for this at-rule");
            assert!(detail.encountered().is_none());
        }
        _ => panic!("wrong kind"),
    }
    assert_eq!(error.position(), unexpected_end_error().position());
    let font_face = rule_unit_error("\u{3000}@FONT-FACE;", unexpected_end_error());
    match font_face.kind() {
        ErrorKind::InvalidAtRuleBody(detail) => {
            assert_eq!(detail.name().as_str(), "FONT-FACE");
            assert_eq!(detail.production().as_str(), "baseline.rule.font-face");
        }
        _ => panic!("wrong kind"),
    }
}

#[test]
fn rule_units_that_keep_their_diagnostic() {
    let kept = rule_unit_error("@import url(x.css);", unexpected_end_error());
    assert_eq!(kept, unexpected_end_error());
    let kept = rule_unit_error("@media screen { a { } }", unexpected_end_error());
    assert_eq!(kept, unexpected_end_error());
    let kept = rule_unit_error("a { color: red }", unexpected_end_error());
    assert_eq!(kept, unexpected_end_error());
    }

#[test]
fn rule_units_without_a_block_are_invalid_qualified_rules() {
    let error = rule_unit_error("  a b c", unexpected_end_error());
    assert_eq!(error.code(), CssErrorCode::InvalidQualifiedRule);
    match error.kind() {
        ErrorKind::InvalidQualifiedRule(detail) => {
            assert_eq!(detail.production().as_str(), "css.qualified-rule");
            assert!(detail.encountered().is_none());
        }
        _ => panic!("wrong kind"),
    }
    let unknown = basic_error(location(), CssBasicParseErrorKind::AtRuleInvalid("bogus".to_string()));
    assert_eq!(rule_unit_error("a b c", unknown.clone()), unknown);
}

#[test]
fn unresolved_errors_keep_custom_diagnostics_and_build_basic_ones() {
    let custom_failure = unexpected_at(location());
    let inner = custom(&custom_failure).clone();
    assert_eq!(unresolved_error(custom_failure), inner);
    let basic_failure = end_of_input();
    assert_eq!(
        unresolved_error(basic_failure),
        basic_error(location(), CssBasicParseErrorKind::EndOfInput)
    );
}

#[test]
fn encoding_errors_without_a_token_point_into_their_unit() {
    let source = "@charset \"utf-8\" a { } b";
    assert_eq!(encoding_error_offset(source, 0, 22, "@charset \"utf-8\" a { }"), 19);
    let source = "@charset \"x\";  a {}";
    assert_eq!(encoding_error_offset(source, 0, 13, "@charset \"x\";  "), 0);
    let source = "@charset \"x\"";
    assert_eq!(encoding_error_offset(source, 0, source.len(), source), source.len());
}

#[test]
fn descriptors_given_twice_are_refused() {
    let mut slot: Option<u32> = None;
    assert!(set_descriptor(&mut slot, 7, location(), "font-weight").is_ok());
    assert_eq!(slot, Some(7));
    let error = set_descriptor(&mut slot, 9, location(), "font-weight").unwrap_err();
    assert_eq!(slot, Some(7));
    match custom(&error).kind() {
        ErrorKind::InvalidDescriptorCombination(detail) => {
            assert_eq!(detail.at_rule().as_str(), "font-face");
            assert_eq!(detail.responsible().as_str(), "font-weight");
            assert_eq!(detail.conflicting().len(), 1);
            assert_eq!(detail.conflicting()[0].as_str(), "font-weight");
        }
        _ => panic!("wrong kind"),
    }
    let combination = invalid_descriptor_combination(location(), "counter-style", "system", &["symbols", "range"]);
    assert_eq!(custom(&combination).code(), CssErrorCode::InvalidDescriptorCombination);
}
