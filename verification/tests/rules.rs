use surgeist_css::{
    CssBasicParseErrorKind, CssErrorCode, CssParseErrorKind, CssSourceLocation, CssSourcePosition,
    ErrorKind, StrictAtRuleKind, StrictRuleParser,
};

fn location() -> CssSourceLocation {
    CssSourceLocation { line: 4, column: 1 }
}

fn expected_context(parser: &StrictRuleParser) -> Option<String> {
    match parser.check_import_placement(location()) {
        Ok(()) => None,
        Err(error) => match error.kind {
            CssParseErrorKind::Custom(error) => {
                assert_eq!(error.code(), CssErrorCode::InvalidAtRulePlacement);
                match error.kind() {
                    ErrorKind::InvalidAtRulePlacement(detail) => {
                        assert_eq!(detail.name().as_str(), "import");
                        Some(detail.expected_context().as_str().to_string())
                    }
                    _ => panic!("wrong kind"),
                }
            }
            _ => panic!("expected a custom diagnostic"),
        },
    }
}

#[test]
fn imports_are_allowed_only_before_other_top_level_rules() {
    let mut parser = StrictRuleParser::top_level();
    assert!(parser.is_top_level());
    assert!(parser.imports_allowed());
    assert_eq!(expected_context(&parser), None);
    parser.mark_non_import_top_level_rule();
    assert!(!parser.imports_allowed());
    assert_eq!(
        expected_context(&parser).as_deref(),
        Some("before every non-import top-level rule")
    );
    parser.mark_non_import_top_level_rule();
    assert!(!parser.imports_allowed());
}

#[test]
fn nested_rule_lists_never_allow_imports() {
    let mut parser = StrictRuleParser::nested();
    assert!(!parser.is_top_level());
    assert_eq!(expected_context(&parser).as_deref(), Some("the stylesheet top level"));
    parser.mark_non_import_top_level_rule();
    assert!(!parser.is_top_level());
    assert!(!parser.imports_allowed());
}

#[test]
fn strict_rule_lists_accept_only_their_at_rules() {
    let top = StrictRuleParser::top_level();
    assert_eq!(top.at_rule_kind("MEDIA", location()).unwrap(), StrictAtRuleKind::Media);
    assert_eq!(top.at_rule_kind("font-face", location()).unwrap(), StrictAtRuleKind::FontFace);
    assert_eq!(top.at_rule_kind("Import", location()).unwrap(), StrictAtRuleKind::Import);
    for refused in ["namespace", "supports", "page", "charset", "mediax"] {
        let error = top.at_rule_kind(refused, location()).unwrap_err();
        assert_eq!(error.location, location());
        match error.kind {
            CssParseErrorKind::Basic(CssBasicParseErrorKind::AtRuleInvalid(name)) => assert_eq!(name, refused),
            _ => panic!("wrong kind"),
        }
    }
    let nested = StrictRuleParser::nested();
    assert!(nested.at_rule_kind("import", location()).is_err());
    assert_eq!(nested.at_rule_kind("scope", location()).unwrap(), StrictAtRuleKind::Scope);
}

#[test]
fn at_rule_blocks_and_statements_follow_the_strict_grammar() {
    let position = CssSourcePosition::new(12, 0, 11);
    let mut parser = StrictRuleParser::top_level();
    assert_eq!(parser.finish_rule_without_block(StrictAtRuleKind::Import, 0), Ok(()));
    assert!(parser.imports_allowed());
    assert_eq!(parser.finish_rule_without_block(StrictAtRuleKind::Layer, 0), Err(()));
    assert_eq!(parser.finish_rule_without_block(StrictAtRuleKind::Media, 0), Err(()));
    assert!(parser.open_rule_block(StrictAtRuleKind::Import, 0, position, location()).is_err());
    assert!(parser.imports_allowed());
    let error = parser.open_rule_block(StrictAtRuleKind::Layer, 2, position, location()).unwrap_err();
    match error.kind {
        CssParseErrorKind::Custom(error) => match error.kind() {
            ErrorKind::InvalidAtRuleBody(detail) => {
                assert_eq!(detail.name().as_str(), "layer");
                assert_eq!(detail.expectation().as_str(), "at most one layer name before a block");
            }
            _ => panic!("wrong kind"),
        },
        _ => panic!("wrong kind"),
    }
    assert!(parser.imports_allowed());
    assert_eq!(parser.finish_rule_without_block(StrictAtRuleKind::Layer, 1), Ok(()));
    assert!(!parser.imports_allowed());
    let mut other = StrictRuleParser::top_level();
    assert_eq!(other.open_rule_block(StrictAtRuleKind::Media, 0, position, location()), Ok(()));
    assert!(!other.imports_allowed());
    let mut style = StrictRuleParser::top_level();
    style.finish_qualified_rule();
    assert!(style.at_rule_kind("import", location()).is_err());
}
