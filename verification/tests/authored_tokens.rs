use surgeist_css::{
    encoding_error_placement, expect_encoding_declaration, first_token,
    next_authored_token_at, previous_authored_token_before, CssEncodingDeclarationError,
    CssEncodingErrorPlacement, CssSourcePosition, CssTokenKind, CssTokenSummary, Error, ErrorKind,
};

fn at(offset: usize) -> CssSourcePosition {
    CssSourcePosition::new(offset, 0, offset as u32)
}

#[test]
fn first_token_reads_kind_and_length() {
    assert_eq!(first_token("color: red"), Some((CssTokenKind::Ident, 5)));
    assert_eq!(first_token("  x"), Some((CssTokenKind::Whitespace, 2)));
    assert_eq!(first_token("/* c */a"), Some((CssTokenKind::Comment, 7)));
    assert_eq!(first_token("@media x"), Some((CssTokenKind::AtKeyword, 6)));
    assert_eq!(first_token("{}"), Some((CssTokenKind::CurlyBracketBlock, 1)));
    assert_eq!(first_token(""), None);
}

#[test]
fn next_authored_token_skips_whitespace_and_comments() {
    let source = "a {  /* note */ color : red }";
    let found = next_authored_token_at(source, at(3)).unwrap();
    assert_eq!(found.0, source.find("color").unwrap());
    assert_eq!(found.1.kind(), CssTokenKind::Ident);
    assert_eq!(found.1.authored(), "color");
    assert_eq!(next_authored_token_at(source, at(source.len())), None);
    assert_eq!(next_authored_token_at(source, at(source.len() + 4)), None);
    assert_eq!(next_authored_token_at("a   ", at(1)), None);
}

#[test]
fn previous_authored_token_looks_back_to_the_last_separator() {
    let source = "a { color: red blue ; }";
    let end = source.find(';').unwrap();
    let found = previous_authored_token_before(source, at(end)).unwrap();
    assert_eq!(found.0, source.find("blue").unwrap());
    assert_eq!(found.1.authored(), "blue");
    assert_eq!(previous_authored_token_before("a{", at(2)), None);
    assert_eq!(previous_authored_token_before("x: /* c */ ", at(11)), None);
    let tail = previous_authored_token_before("a b", at(99)).unwrap();
    assert_eq!(tail.0, 2);
    assert_eq!(tail.1.authored(), "b");
}

#[test]
fn encoding_errors_are_placed_in_their_unit() {
    let source = "@charset \"x\" y;";
    let no_token = Error::at(
        surgeist_css::CssSourceLocation { line: 0, column: 1 },
        ErrorKind::InvalidEncodingDeclaration(CssEncodingDeclarationError::new(expect_encoding_declaration(), None)),
    );
    assert_eq!(
        encoding_error_placement(source, 0, source.len(), source, &no_token),
        CssEncodingErrorPlacement::AtOffset(0)
    );
    let braced = "@charset \"x\" { }";
    assert_eq!(
        encoding_error_placement(braced, 0, braced.len(), braced, &no_token),
        CssEncodingErrorPlacement::AtOffset(braced.find('{').unwrap())
    );
    let with_token = Error::at_exact_nonzero_byte_offset(
        at(source.len() - 1),
        ErrorKind::InvalidEncodingDeclaration(CssEncodingDeclarationError::new(
            expect_encoding_declaration(),
            Some(CssTokenSummary::new(CssTokenKind::Ident, "y")),
        )),
    );
    match encoding_error_placement(source, 0, source.len(), source, &with_token) {
        CssEncodingErrorPlacement::AtToken(start, summary) => {
            assert_eq!(start, source.find('y').unwrap());
            assert_eq!(summary.authored(), "y");
        }
        other => panic!("{other:?}"),
    }
    let other_kind = Error::at_exact_nonzero_byte_offset(
        at(source.len() - 1),
        ErrorKind::InvalidEncodingDeclaration(CssEncodingDeclarationError::new(
            expect_encoding_declaration(),
            Some(CssTokenSummary::new(CssTokenKind::String, "\"x\"")),
        )),
    );
    assert_eq!(
        encoding_error_placement(source, 0, source.len(), source, &other_kind),
        CssEncodingErrorPlacement::Unchanged
    );
}
