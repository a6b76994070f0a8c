# surgeist_css

Strict CSS ingestion for Surgeist style sheets, written in Verus. The functions in `src/` are
verified against their `requires`/`ensures` contracts, except the trusted wrappers whose
contracts are believed: in `tokens.rs`, `leading_at_keyword` and the four wrappers that
`first_token` combines (each reads the first token of a text with the `cssparser` tokenizer and
reports it when it falls in one group of token kinds), and `text::is_alphanumeric`, which calls
`char::is_alphanumeric`.

Layout:

- `src/conformance/` — the support catalog, the specification-source registry and the
  conformance exclusions, with exact and ASCII-case-insensitive lookups, and the registry laws
  proved of every record (unique identities, registered sources, exclusion identities, alias
  targets, CSS 2.1 supersessions).
- `src/error.rs` — the typed diagnostic model: error kinds, details, stable root codes.
- `src/diagnostics.rs` — building diagnostics and re-raising parse failures in the diagnostic of
  their grammar context.
- `src/position.rs`, `src/lengths.rs` — the `<position>` and background-position grammars over
  authored atoms, and the `border-radius` corner expansion.
- `src/keywords.rs`, `src/value_keywords.rs` — single-keyword value grammars and keyword tables.
- `src/grid_areas.rs` — the rectangle rule of `grid-template-areas`.
- `src/grid_tracks.rs` — assembling a grid track list (general or with one automatic
  repetition) and its I01 projection from parsed components.
- `src/list_style.rs` — assembling the `list-style` shorthand from its components.
- `src/shadows.rs` — assembling one `box-shadow` shadow from its components.
- `src/rules.rs` — the at-rules a strict rule list accepts, where an `@import` rule may stand, and
  which at-rules take a block.
- `src/tokens.rs` — token-kind classes, the authored tokens at and before a diagnostic position,
  where an encoding-declaration diagnostic is placed, and the at-rule a position lies in, all read
  with the `cssparser` tokenizer.
- `src/source.rs` — authored-source positions: the line and column of a byte, and the byte a
  tokenizer line and column name.
- `src/resolution.rs` — reading a diagnostic against the source text: naming the authored token
  it points at or follows, moving it to the at-rule it names, naming the at-rule of a placeholder
  body diagnostic, placing encoding-declaration diagnostics in their failed unit, and
  reclassifying the diagnostic of a failed rule unit.
- `src/descriptors.rs` — the descriptors `@font-face` and `@counter-style` accept.
- `src/background_layers.rs` — assembling one `background` layer from its components.
- `app/lib.rs` — conversions from `cssparser` values (locations, tokens, tokenizer failures) to
  the library's plain values.
