use surgeist_css::{
    expect_css_syntax, expect_encoding_declaration, from_parse_error, from_rule_parse_error,
    normalize_encoding_error, resolve_source, CssAtRuleName, CssAtRuleSyntaxError,
    CssBasicParseErrorKind, CssEncodingDeclarationError, CssErrorCode, CssParseError,
    CssParseErrorKind, CssProductionId, CssSourceLocation, CssSourcePosition, CssTokenKind,
    CssTokenSummary, CssUnexpectedTokenError, Error, ErrorKind,
};

fn parts(position: CssSourcePosition) -> (usize, u32, u32) {
    (position.byte_offset(), position.line(), position.column())
}

#[test]
fn byte_offsets_become_lines_and_columns() {
    assert_eq!(parts(CssSourcePosition::from_byte_offset_in("a\nb", 2)), (2, 1, 0));
    assert_eq!(parts(CssSourcePosition::from_byte_offset_in("a\r\nb", 3)), (3, 1, 0));
    assert_eq!(parts(CssSourcePosition::from_byte_offset_in("a\r\nb", 4)), (4, 1, 1));
    assert_eq!(parts(CssSourcePosition::from_byte_offset_in("a\rb\x0Cc", 4)), (4, 2, 0));
    // `é` is one UTF-16 unit, `😀` two.
    let text = "é😀x";
    assert_eq!(parts(CssSourcePosition::from_byte_offset_in(text, 2)), (2, 0, 1));
    assert_eq!(parts(CssSourcePosition::from_byte_offset_in(text, 6)), (6, 0, 3));
    assert_eq!(parts(CssSourcePosition::from_byte_offset_in(text, 7)), (7, 0, 4));
    assert_eq!(parts(CssSourcePosition::from_byte_offset_in("", 0)), (0, 0, 0));
}

#[test]
fn tokenizer_locations_name_bytes() {
    let source = "ab\ncd";
    let found = CssSourcePosition::from_source_location_in(source, CssSourceLocation { line: 1, column: 2 });
    assert_eq!(parts(found), (4, 1, 1));
    let first = CssSourcePosition::from_source_location_in(source, CssSourceLocation { line: 0, column: 1 });
    assert_eq!(parts(first), (0, 0, 0));
    // A column past the end of its line reaches the start of the next line.
    let past_line = CssSourcePosition::from_source_location_in(source, CssSourceLocation { line: 0, column: 10 });
    assert_eq!(parts(past_line), (3, 1, 0));
    let past_end = CssSourcePosition::from_source_location_in(source, CssSourceLocation { line: 7, column: 1 });
    assert_eq!(parts(past_end), (5, 1, 2));
    // A location is never placed inside a character.
    let wide = CssSourcePosition::from_source_location_in("😀a", CssSourceLocation { line: 0, column: 2 });
    assert_eq!(parts(wide), (4, 0, 2));
}

#[test]
fn resolving_names_the_authored_token() {
    let source = "a { color red }";
    let error = Error::at(
        CssSourceLocation { line: 0, column: 11 },
        ErrorKind::UnexpectedToken(CssUnexpectedTokenError::new(
            expect_css_syntax(),
            CssTokenSummary::new(CssTokenKind::Ident, "x"),
        )),
    );
    let resolved = resolve_source(error, source);
    assert_eq!(parts(resolved.position()), (10, 0, 10));
    match resolved.kind() {
        ErrorKind::UnexpectedToken(detail) => {
            assert_eq!(detail.encountered().kind(), CssTokenKind::Ident);
            assert_eq!(detail.encountered().authored(), "red");
        }
        other => panic!("{other:?}"),
    }
}

#[test]
fn resolving_keeps_a_token_of_another_kind() {
    let source = "a { color: red }";
    let error = Error::at_exact_nonzero_byte_offset(
        CssSourcePosition::new(9, 0, 0),
        ErrorKind::UnexpectedToken(CssUnexpectedTokenError::new(
            expect_css_syntax(),
            CssTokenSummary::new(CssTokenKind::Ident, "x"),
        )),
    );
    let resolved = resolve_source(error, source);
    assert_eq!(parts(resolved.position()), (9, 0, 9));
    match resolved.kind() {
        ErrorKind::UnexpectedToken(detail) => assert_eq!(detail.encountered().authored(), "x"),
        other => panic!("{other:?}"),
    }
}

#[test]
fn resolving_names_the_at_rule_of_a_placeholder_body() {
    let source = "@media screen { x }";
    let error = Error::at_exact_nonzero_byte_offset(
        CssSourcePosition::new(16, 0, 0),
        ErrorKind::InvalidAtRuleBody(CssAtRuleSyntaxError::new(
            CssAtRuleName::new("at-rule"),
            CssProductionId::new("css.at-rule"),
            expect_css_syntax(),
            None,
        )),
    );
    let resolved = resolve_source(error, source);
    assert_eq!(parts(resolved.position()), (16, 0, 16));
    match resolved.kind() {
        ErrorKind::InvalidAtRuleBody(detail) => {
            assert_eq!(detail.name().as_str(), "media");
            assert_eq!(detail.encountered().unwrap().authored(), "x");
        }
        other => panic!("{other:?}"),
    }
}

#[test]
fn basic_failures_resolve_from_their_location() {
    let source = "a {}\n  b";
    let failure = CssParseError {
        kind: CssParseErrorKind::Basic(CssBasicParseErrorKind::UnexpectedToken(CssTokenSummary::new(
            CssTokenKind::Ident,
            "q",
        ))),
        location: CssSourceLocation { line: 1, column: 3 },
    };
    let resolved = from_parse_error(source, failure);
    assert_eq!(resolved.code(), CssErrorCode::UnexpectedToken);
    assert_eq!(parts(resolved.position()), (7, 1, 2));
    match resolved.kind() {
        ErrorKind::UnexpectedToken(detail) => assert_eq!(detail.encountered().authored(), "b"),
        other => panic!("{other:?}"),
    }
}

#[test]
fn rule_failures_are_reclassified_by_their_unit() {
    let source = "a b";
    let failure = CssParseError {
        kind: CssParseErrorKind::Basic(CssBasicParseErrorKind::EndOfInput),
        location: CssSourceLocation { line: 0, column: 4 },
    };
    let resolved = from_rule_parse_error(source, "a b", failure);
    assert_eq!(resolved.code(), CssErrorCode::InvalidQualifiedRule);
    assert_eq!(parts(resolved.position()), (3, 0, 3));
}

#[test]
fn encoding_errors_are_normalized_to_their_unit() {
    let source = "@charset \"x\" { }";
    let error = Error::at(
        CssSourceLocation { line: 0, column: 1 },
        ErrorKind::InvalidEncodingDeclaration(CssEncodingDeclarationError::new(expect_encoding_declaration(), None)),
    );
    let normalized = normalize_encoding_error(source, 0, source.len(), source, error);
    assert_eq!(parts(normalized.position()), (13, 0, 13));
    let with_token = Error::at_exact_nonzero_byte_offset(
        CssSourcePosition::new(13, 0, 0),
        ErrorKind::InvalidEncodingDeclaration(CssEncodingDeclarationError::new(
            expect_encoding_declaration(),
            Some(CssTokenSummary::new(CssTokenKind::String, "\"y\"")),
        )),
    );
    let normalized = normalize_encoding_error(source, 0, source.len(), source, with_token);
    assert_eq!(parts(normalized.position()), (9, 0, 9));
    match normalized.kind() {
        ErrorKind::InvalidEncodingDeclaration(detail) => {
            assert_eq!(detail.encountered().unwrap().authored(), "\"x\"")
        }
        other => panic!("{other:?}"),
    }
}
