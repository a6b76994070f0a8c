//! The rule-list state of strict style-sheet parsing: where an `@import` rule may stand.
use vstd::prelude::*;

use crate::diagnostics::{
    custom_kind, invalid_at_rule_body_at, invalid_at_rule_placement, raised_at, CssBasicParseErrorKind,
    CssParseError, CssParseErrorKind,
};
use crate::error::{CssGrammarExpectation, CssProductionId, ErrorKind};
use crate::source::{CssSourceLocation, CssSourcePosition};
use crate::text::{ascii_lower, chars_ascii_case_eq, eq_ignore_ascii_case, lemma_ascii_spellings_case_eq};

verus! {

/// The rule-list state of a strict rule parser: whether it parses the style sheet's top level,
/// and whether an `@import` rule is still allowed there.
///
/// An `@import` rule is allowed only at the top level and only before every non-import
/// top-level rule.
#[derive(Clone, Copy, Debug, PartialEq, Eq, Structural)]
pub struct StrictRuleParser {
    is_top_level: bool,
    imports_allowed: bool,
}

impl StrictRuleParser {
    /// Whether the parser parses the style sheet's top level.
    pub closed spec fn spec_is_top_level(self) -> bool {
        self.is_top_level
    }

    /// Whether an `@import` rule is still allowed.
    pub closed spec fn spec_imports_allowed(self) -> bool {
        self.imports_allowed
    }

    /// The state's invariant: imports are allowed only at the top level.
    pub open spec fn wf(self) -> bool {
        self.spec_imports_allowed() ==> self.spec_is_top_level()
    }

    /// The state after a non-import rule: at the top level, imports are no longer allowed.
    pub closed spec fn spec_marked(self) -> Self {
        StrictRuleParser {
            is_top_level: self.is_top_level,
            imports_allowed: self.imports_allowed && !self.is_top_level,
        }
    }

    /// The parts of the state after a non-import rule.
    pub proof fn lemma_marked_parts(self)
        ensures
            self.spec_marked().spec_is_top_level() == self.spec_is_top_level(),
            self.spec_marked().spec_imports_allowed() == (self.spec_imports_allowed() && !self.spec_is_top_level()),
    {
    }

    /// Returns the state of a parser of the style sheet's top level, before any rule.
    pub fn top_level() -> (parser: Self)
        ensures
            parser.spec_is_top_level(),
            parser.spec_imports_allowed(),
            parser.wf(),
    {
        StrictRuleParser { is_top_level: true, imports_allowed: true }
    }

    /// Returns the state of a parser of a nested rule list, where imports are never allowed.
    pub fn nested() -> (parser: Self)
        ensures
            !parser.spec_is_top_level(),
            !parser.spec_imports_allowed(),
            parser.wf(),
    {
        StrictRuleParser { is_top_level: false, imports_allowed: false }
    }

    /// Records that a non-import rule was parsed: at the top level, later imports are refused.
    pub fn mark_non_import_top_level_rule(&mut self)
        ensures
            *final(self) == old(self).spec_marked(),
            final(self).spec_is_top_level() == old(self).spec_is_top_level(),
            final(self).spec_imports_allowed() == (old(self).spec_imports_allowed() && !old(
                self,
            ).spec_is_top_level()),
    {
        if self.is_top_level {
            self.imports_allowed = false;
        }
    }

    /// Returns whether the parser parses the style sheet's top level.
    pub fn is_top_level(&self) -> (top_level: bool)
        ensures
            top_level == self.spec_is_top_level(),
    {
        self.is_top_level
    }

    /// Returns whether an `@import` rule is still allowed.
    pub fn imports_allowed(&self) -> (allowed: bool)
        ensures
            allowed == self.spec_imports_allowed(),
    {
        self.imports_allowed
    }

    /// Returns whether an `@import` rule may stand here, or the placement diagnostic raised at
    /// `location`: outside the top level, and at the top level after a non-import rule.
    pub fn check_import_placement(&self, location: CssSourceLocation) -> (checked: Result<(), CssParseError>)
        ensures
            checked is Ok <==> (self.spec_is_top_level() && self.spec_imports_allowed()),
            checked matches Err(e) ==> {
                &&& raised_at(e, location)
                &&& custom_kind(e) matches ErrorKind::InvalidAtRulePlacement(d)
                &&& d.spec_name()@ == "import"@
                &&& d.spec_expected_context() == if !self.spec_is_top_level() {
                    CssGrammarExpectation::new("the stylesheet top level")
                } else {
                    CssGrammarExpectation::new("before every non-import top-level rule")
                }
            },
    {
        if !self.is_top_level {
            return Err(invalid_at_rule_placement(location, "import", "the stylesheet top level"));
        }
        if !self.imports_allowed {
            return Err(
                invalid_at_rule_placement(location, "import", "before every non-import top-level rule"),
            );
        }
        Ok(())
    }
}

/// An at-rule that a strict rule list accepts.
#[derive(Clone, Copy, Debug, PartialEq, Eq, Structural)]
pub enum StrictAtRuleKind {
    /// `@import`.
    Import,
    /// `@font-face`.
    FontFace,
    /// `@layer`.
    Layer,
    /// `@keyframes`.
    Keyframes,
    /// `@media`.
    Media,
    /// `@container`.
    Container,
    /// `@scope`.
    Scope,
}

/// The at-rule an at-keyword name spells, ignoring ASCII case; every other name is refused.
pub open spec fn strict_at_rule_kind_of(name: Seq<char>) -> Option<StrictAtRuleKind> {
    if chars_ascii_case_eq(name, "import"@) {
        Some(StrictAtRuleKind::Import)
    } else if chars_ascii_case_eq(name, "font-face"@) {
        Some(StrictAtRuleKind::FontFace)
    } else if chars_ascii_case_eq(name, "layer"@) {
        Some(StrictAtRuleKind::Layer)
    } else if chars_ascii_case_eq(name, "keyframes"@) {
        Some(StrictAtRuleKind::Keyframes)
    } else if chars_ascii_case_eq(name, "media"@) {
        Some(StrictAtRuleKind::Media)
    } else if chars_ascii_case_eq(name, "container"@) {
        Some(StrictAtRuleKind::Container)
    } else if chars_ascii_case_eq(name, "scope"@) {
        Some(StrictAtRuleKind::Scope)
    } else {
        None
    }
}

/// The at-keyword name that spells an accepted at-rule.
pub open spec fn at_rule_kind_spelling(kind: StrictAtRuleKind) -> Seq<char> {
    match kind {
        StrictAtRuleKind::Import => "import"@,
        StrictAtRuleKind::FontFace => "font-face"@,
        StrictAtRuleKind::Layer => "layer"@,
        StrictAtRuleKind::Keyframes => "keyframes"@,
        StrictAtRuleKind::Media => "media"@,
        StrictAtRuleKind::Container => "container"@,
        StrictAtRuleKind::Scope => "scope"@,
    }
}

/// An at-rule is given a grammar only for its own name: whenever a name is accepted, it is the
/// spelling of the kind it is accepted as, ignoring ASCII case.
pub proof fn lemma_at_rule_kind_names_itself(name: Seq<char>)
    requires
        strict_at_rule_kind_of(name) is Some,
    ensures
        chars_ascii_case_eq(name, at_rule_kind_spelling(strict_at_rule_kind_of(name)->0)),
{
}

/// Each accepted at-rule is chosen for its own spelling, in any ASCII case.
pub proof fn lemma_at_rule_spelling_names_its_kind(kind: StrictAtRuleKind)
    ensures
        strict_at_rule_kind_of(at_rule_kind_spelling(kind)) == Some(kind),
{
    reveal_strlit("import");
    reveal_strlit("font-face");
    reveal_strlit("layer");
    reveal_strlit("keyframes");
    reveal_strlit("media");
    reveal_strlit("container");
    reveal_strlit("scope");
    let spelling = at_rule_kind_spelling(kind);
    assert(vstd::utf8::is_ascii_chars(spelling));
    assert(vstd::utf8::is_ascii_chars("import"@));
    assert(vstd::utf8::is_ascii_chars("font-face"@));
    assert(vstd::utf8::is_ascii_chars("layer"@));
    assert(vstd::utf8::is_ascii_chars("keyframes"@));
    assert(vstd::utf8::is_ascii_chars("media"@));
    assert(vstd::utf8::is_ascii_chars("container"@));
    assert(vstd::utf8::is_ascii_chars("scope"@));
    lemma_ascii_spellings_case_eq(spelling, "import"@);
    lemma_ascii_spellings_case_eq(spelling, "font-face"@);
    lemma_ascii_spellings_case_eq(spelling, "layer"@);
    lemma_ascii_spellings_case_eq(spelling, "keyframes"@);
    lemma_ascii_spellings_case_eq(spelling, "media"@);
    lemma_ascii_spellings_case_eq(spelling, "container"@);
    lemma_ascii_spellings_case_eq(spelling, "scope"@);
    assert(ascii_lower(spelling[0] as u8) == spelling[0] as u8);
}

/// Whether `error` refuses the at-rule `name` as invalid at `location`.
pub open spec fn refuses_at_rule(error: CssParseError, name: Seq<char>, location: CssSourceLocation) -> bool {
    &&& error.location == location
    &&& error.kind matches CssParseErrorKind::Basic(CssBasicParseErrorKind::AtRuleInvalid(refused))
    &&& refused@ == name
}

/// Whether `error` is the diagnostic for the block of the at-rule `name`, raised at the block's
/// `position` and `location`, with the production and expectation the block breaks.
pub open spec fn refuses_at_rule_block(
    error: CssParseError,
    position: CssSourcePosition,
    location: CssSourceLocation,
    name: Seq<char>,
    production: &'static str,
    expectation: &'static str,
) -> bool {
    &&& error.location == location
    &&& error.kind matches CssParseErrorKind::Custom(e)
    &&& e.spec_position() == position
    &&& e.spec_kind() matches ErrorKind::InvalidAtRuleBody(d)
    &&& d.spec_name()@ == name
    &&& d.spec_production() == CssProductionId::new(production)
    &&& d.spec_expectation() == CssGrammarExpectation::new(expectation)
    &&& d.spec_encountered() is None
}

impl StrictRuleParser {
    /// Chooses the grammar of the at-rule `name` whose prelude starts at `location`.
    ///
    /// Names are matched ignoring ASCII case. An `@import` rule is refused where it may not stand
    /// (see [`Self::check_import_placement`]); any other name than the seven accepted ones is
    /// refused as an invalid at-rule.
    pub fn at_rule_kind(&self, name: &str, location: CssSourceLocation) -> (kind: Result<StrictAtRuleKind, CssParseError>)
        ensures
            match strict_at_rule_kind_of(name@) {
                None => kind matches Err(e) && refuses_at_rule(e, name@, location),
                Some(StrictAtRuleKind::Import) => {
                    &&& kind is Ok <==> (self.spec_is_top_level() && self.spec_imports_allowed())
                    &&& kind matches Ok(k) ==> k == StrictAtRuleKind::Import
                    &&& kind matches Err(e) ==> {
                        &&& raised_at(e, location)
                        &&& custom_kind(e) matches ErrorKind::InvalidAtRulePlacement(d)
                        &&& d.spec_name()@ == "import"@
                        &&& d.spec_expected_context() == if !self.spec_is_top_level() {
                            CssGrammarExpectation::new("the stylesheet top level")
                        } else {
                            CssGrammarExpectation::new("before every non-import top-level rule")
                        }
                    }
                },
                Some(k) => kind == Ok::<StrictAtRuleKind, CssParseError>(k),
            },
    {
        if eq_ignore_ascii_case(name, "import") {
            match self.check_import_placement(location) {
                Ok(()) => Ok(StrictAtRuleKind::Import),
                Err(e) => Err(e),
            }
        } else if eq_ignore_ascii_case(name, "font-face") {
            Ok(StrictAtRuleKind::FontFace)
        } else if eq_ignore_ascii_case(name, "layer") {
            Ok(StrictAtRuleKind::Layer)
        } else if eq_ignore_ascii_case(name, "keyframes") {
            Ok(StrictAtRuleKind::Keyframes)
        } else if eq_ignore_ascii_case(name, "media") {
            Ok(StrictAtRuleKind::Media)
        } else if eq_ignore_ascii_case(name, "container") {
            Ok(StrictAtRuleKind::Container)
        } else if eq_ignore_ascii_case(name, "scope") {
            Ok(StrictAtRuleKind::Scope)
        } else {
            Err(
                CssParseError {
                    kind: CssParseErrorKind::Basic(CssBasicParseErrorKind::AtRuleInvalid(name.to_owned())),
                    location,
                },
            )
        }
    }

    /// Ends an at-rule that has no block: only `@import`, and `@layer` with at least one layer
    /// name, may end with a semicolon. An `@layer` statement is a non-import rule.
    pub fn finish_rule_without_block(&mut self, kind: StrictAtRuleKind, layer_names: usize) -> (finished: Result<(), ()>)
        ensures
            finished is Ok <==> (kind == StrictAtRuleKind::Import || (kind == StrictAtRuleKind::Layer
                && layer_names > 0)),
            *final(self) == if finished is Ok && kind == StrictAtRuleKind::Layer {
                old(self).spec_marked()
            } else {
                *old(self)
            },
    {
        match kind {
            StrictAtRuleKind::Import => Ok(()),
            StrictAtRuleKind::Layer => {
                if layer_names == 0 {
                    return Err(());
                }
                self.mark_non_import_top_level_rule();
                Ok(())
            },
            _ => Err(()),
        }
    }

    /// Opens the block of an at-rule whose block starts at `position` and `location`: an
    /// `@import` rule takes no block, and an `@layer` block names at most one layer. Every
    /// accepted block makes the rule a non-import rule.
    pub fn open_rule_block(
        &mut self,
        kind: StrictAtRuleKind,
        layer_names: usize,
        position: CssSourcePosition,
        location: CssSourceLocation,
    ) -> (opened: Result<(), CssParseError>)
        requires
            position.spec_byte_offset() != 0,
        ensures
            kind == StrictAtRuleKind::Import ==> (opened matches Err(e) && refuses_at_rule_block(
                e,
                position,
                location,
                "import"@,
                "baseline.rule.import",
                "a semicolon-terminated @import rule",
            )),
            kind == StrictAtRuleKind::Layer && layer_names > 1 ==> (opened matches Err(e)
                && refuses_at_rule_block(
                e,
                position,
                location,
                "layer"@,
                "baseline.rule.layer-block",
                "at most one layer name before a block",
            )),
            opened is Ok <==> (kind != StrictAtRuleKind::Import && (kind == StrictAtRuleKind::Layer
                ==> layer_names <= 1)),
            *final(self) == if opened is Ok {
                old(self).spec_marked()
            } else {
                *old(self)
            },
    {
        match kind {
            StrictAtRuleKind::Import => Err(
                invalid_at_rule_body_at(
                    position,
                    location,
                    "import",
                    "baseline.rule.import",
                    "a semicolon-terminated @import rule",
                ),
            ),
            StrictAtRuleKind::Layer => {
                if layer_names > 1 {
                    return Err(
                        invalid_at_rule_body_at(
                            position,
                            location,
                            "layer",
                            "baseline.rule.layer-block",
                            "at most one layer name before a block",
                        ),
                    );
                }
                self.mark_non_import_top_level_rule();
                Ok(())
            },
            _ => {
                self.mark_non_import_top_level_rule();
                Ok(())
            },
        }
    }

    /// Closes a qualified (style) rule: it is a non-import rule.
    pub fn finish_qualified_rule(&mut self)
        ensures
            *final(self) == old(self).spec_marked(),
    {
        self.mark_non_import_top_level_rule();
    }
}

/// The state after `count` non-import rules.
pub open spec fn after_non_import_rules(parser: StrictRuleParser, count: nat) -> StrictRuleParser
    decreases count,
{
    if count == 0 {
        parser
    } else {
        after_non_import_rules(parser, (count - 1) as nat).spec_marked()
    }
}

/// Marking keeps the state's invariant, and a top-level parser refuses imports after any
/// positive number of non-import rules; a nested parser refuses them throughout.
pub proof fn lemma_imports_only_before_other_rules(parser: StrictRuleParser, count: nat)
    requires
        parser.wf(),
    ensures
        after_non_import_rules(parser, count).wf(),
        after_non_import_rules(parser, count).spec_is_top_level() == parser.spec_is_top_level(),
        count > 0 ==> !after_non_import_rules(parser, count).spec_imports_allowed(),
        !parser.spec_is_top_level() ==> !after_non_import_rules(parser, count).spec_imports_allowed(),
    decreases count,
{
    if count > 0 {
        lemma_imports_only_before_other_rules(parser, (count - 1) as nat);
        after_non_import_rules(parser, (count - 1) as nat).lemma_marked_parts();
    }
}

} // verus!
