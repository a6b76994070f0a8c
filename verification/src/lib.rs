//! The verified core of strict CSS ingestion for Surgeist style sheets.
//!
//! This crate holds the support catalog with its specification-source and conformance-exclusion
//! registries; the typed diagnostics of strict parsing and the placement of a diagnostic against
//! the authored source, read with the CSS tokenizer, down to the line and column it stands at;
//! the at-rules and descriptors a strict rule list accepts; and the value grammars and assembly
//! rules that work on already-read components: keyword tables, positions, grid areas and track
//! lists, `list-style`, `box-shadow` shadows and `background` layers.
//!
//! Diagnostics expose typed [`ErrorKind`] values, stable [`CssErrorCode`] roots and semantic
//! source positions so callers do not parse display text.

pub mod conformance;
mod background_layers;
mod descriptors;
mod diagnostics;
mod error;
mod grid_areas;
mod grid_tracks;
mod keywords;
mod lengths;
mod list_style;
mod position;
mod properties;
mod resolution;
mod rules;
mod search;
mod shadows;
mod source;
mod syntax;
mod text;
mod tokens;
mod value_keywords;

pub use conformance::{exclusion_id_literal, lemma_exclusion_ids_spelled, lemma_exclusion_ids_unique, lemma_exclusion_lookup_finds_record, feature_id_literal, lemma_feature_ids_spelled, lemma_feature_ids_unique, lemma_feature_lookup_finds_record, spec_property_source, spec_property_production, lemma_production_follows_css2_source, exclusion_id_prefix, exclusion_cites_registered_official_source, superseding_ids_well_formed, exclusion_record_laws, lemma_exclusion_records_lawful, lemma_exclusion_ids_outside_catalog, css2_supersession_cites_later_official, lemma_css2_supersessions_cite_later_official, feature_cites_registered_source, boundary_descriptions_non_empty, feature_id_unmarked, feature_id_starts_lowercase, feature_id_dotted, feature_lists_no_aliases, property_production_names_spelling, feature_record_laws, lemma_property_sources_registered, lemma_feature_records_lawful, lemma_catalog_lacks_undotted_ids, lemma_property_aliases_round_trip, cites_chapter_fragment, lemma_css2_production_form, source_id_literal, lemma_source_ids_spelled, lemma_source_ids_unique, lemma_source_lookup_finds_record, CssFeatureKind, CssSupportStatus, CssSpecificationSourceId, CssSpecificationTier, CssSpecificationSource, CssConformanceExclusionId, CssExclusionReason, CssConformanceSupersedingId, CssExclusionMetadata, CssFeatureMetadata, CssPropertyMetadata, spec_feature_catalog, spec_specification_sources, spec_conformance_exclusions, feature_has_id, source_has_id, exclusion_has_id, feature_names_property, feature_catalog, specification_sources, specification_source, conformance_exclusions, conformance_exclusion, feature_metadata, property_metadata, lemma_property_lookup_ignores_ascii_case, has_prefix, tier_of_prefix, source_follows_profile, lemma_registered_sources_follow_profile, lemma_registry_sizes, alias_targets_resolve, lemma_alias_targets_resolve, is_alias_record, alias_targets_atomic, lemma_alias_records_name_atomic_records, lemma_catalog_lacks_unlowercase_ids, lemma_exclusions_lack_unmarked_ids};
pub use background_layers::{LocatedBackgroundComponent, CssBackgroundLayerBoxes, CssBackgroundLayer, BackgroundScan, background_scan_start, background_error, background_step, background_scan, boxes_of, background_layer_of, build_background_layer};
pub use descriptors::{CssFontFaceDescriptorName, font_face_descriptor_name_of, font_face_descriptor_spelling, lemma_font_face_descriptor_names_itself, lemma_font_face_spelling_names_its_descriptor, font_face_descriptor_name, CssCounterStyleDescriptorName, counter_style_descriptor_name_of, counter_style_descriptor_spelling, lemma_counter_style_descriptor_names_itself, lemma_counter_style_spelling_names_its_descriptor, counter_style_descriptor_name};
pub use diagnostics::{CssBasicParseErrorKind, CssBasicParseError, CssParseErrorKind, CssParseError, custom_error_at, raised_at, custom_kind, parse_encountered_of, is_bang, optional_name_matches, error_at, unexpected_at, unsupported_value, unsupported_value_at, invalid_encoding_declaration, invalid_syntax, invalid_selector, invalid_at_rule_placement, property_record_of, property_feature_id, unsupported_property, descriptor_name_error, invalid_color, invalid_known_declaration_annotation, invalid_custom_declaration_annotation, invalid_descriptor_annotation, basic, selector_basic, unsupported_at_rule_feature_of, unsupported_at_rule_feature, production_for_at_rule_of, production_for_at_rule, at_rule_requires_block_of, at_rule_requires_block, is_basic_error, basic_error, take_encountered, custom_kind_of, is_nesting_limit_error, with_encoding_declaration_context, with_at_rule_prelude_context, invalid_at_rule_body_at, with_color_context, with_media_query_context, with_property_context, is_descriptor_specific, with_descriptor_context, at_rule_name_len, failed_unit_at_rule_name, reclassifies_rule_unit, rule_unit_error, unresolved_error, first_byte_in, encoding_error_offset_of, encoding_error_offset, invalid_descriptor_combination, set_descriptor};
pub use error::{CssErrorCode, CssProductionId, CssGrammarExpectation, CssFeatureId, CssAtRuleName, CssPropertyName, CssDescriptorName, CssMediaFeatureName, CssColorComponentName, CssTokenKind, CssTokenSummary, expect_css_syntax, expect_encoding_declaration, expect_declaration_value, expect_property_value, expect_descriptor_value, expect_selector, expect_media_query, expect_color, qualified_rule_production, selector_list_production, CssUnexpectedEndError, CssUnexpectedTokenError, CssEncodingDeclarationError, CssAtRulePlacementError, CssAtRuleSyntaxError, CssUnknownAtRuleError, CssUnsupportedAtRuleError, CssQualifiedRuleError, CssSelectorError, CssMediaQueryError, CssUnknownPropertyError, CssUnsupportedPropertyError, CssPropertyValueError, CssUnknownDescriptorError, CssUnsupportedDescriptorError, CssDescriptorValueError, CssDescriptorCombinationError, CssColorSyntaxError, CssNestingLimitError, CssDeclarationContext, CssDeclarationContextRef, context_ref_of, CssDeclarationAnnotationError, ErrorKind, error_code_of, encountered_of, with_encountered, optional_encountered_of, lemma_with_encountered_unchanged, with_optional_encountered, encountered_mut, optional_encountered_mut, at_rule_name_of, at_rule_name, Error};
pub use grid_areas::{CssGridTemplateAreaCell, CssGridTemplateAreaRow, grid_of, names_cell, is_rectangle_of, area_is_rectangular, rows_have_width, grid_areas_valid, is_bounding_box, box_filled, lemma_rectangular_iff_bounding_box_filled, validate_grid_template_area_rectangles};
pub use grid_tracks::{ParsedGridTrackComponent, LocatedGridTrackComponent, CssGridTrackComponent, CssAuthoredGridGeneralTrackComponent, CssAuthoredGridAutoTrackComponent, CssAuthoredGridTrackList, CssParsedGridTrackList, is_auto_repeat, auto_repeat_count, is_second_auto_repeat, blocks_auto_list, is_first_auto_blocker, has_i01, i01_projects, general_component_is, auto_component_is, track_list_error, build_grid_track_list};
pub use keywords::{CssFontFormatHint, font_format_hint_of, font_format_hint_from_str, lemma_font_format_hint_ignores_ascii_case, CssFontTechHint, font_tech_hint_of, font_tech_hint_from_str, lemma_font_tech_hint_ignores_ascii_case, CssBuiltInCounterStyle, builtin_counter_style_of, parse_builtin_counter_style, lemma_builtin_counter_style_ignores_ascii_case, is_page_margin_box_of, is_page_margin_box, lemma_page_margin_box_ignores_ascii_case, is_page_margin_property, AllowedAlignmentKeywords};
pub use lengths::{CssNumber, CssLengthUnit, CssCalcLength, CssLength, expanded_radii, expand_radius_components, lemma_expanded_radii_use_each_value, is_css2_page_length_of, is_css2_page_length};
pub use list_style::{CssListStyleType, CssListStyleImage, ListStyleComponent, LocatedListStyleComponent, CssListStyle, list_style_part, repeats_earlier_part, is_first_repeated_part, parts_distinct, gives_part, list_style_error, build_list_style};
pub use position::{CssHorizontalPositionKeyword, CssVerticalPositionKeyword, CssPositionOffset, CssHorizontalPosition, CssVerticalPosition, CssPositionComponent, CssPosition, CssPositionValue, CssBackgroundPosition, GenericPositionAtom, horizontal_keyword, vertical_keyword, is_horizontal_edge, is_vertical_edge, horizontal_edge_offset, vertical_edge_offset, legacy_component_of, legacy_components_of, contextual_component_of, has_horizontal, contextual_legacy_components_of, one_atom_position, two_atom_position, four_atom_position, generic_position_of, legacy_components, contextual_legacy_components, is_typed_calculation_component, position_has_typed_calculation, build_generic_position, invalid_atom_index_of, invalid_atom_index, three_atom_background, has_typed_calculation, legacy_if_representable, background_position_of, background_parts, build_background_position, invalid_background_atom_index_of, invalid_background_atom_index, lemma_background_accepts_generic, lemma_generic_legacy_one_per_atom, lemma_single_atom_centers_other_axis, lemma_edge_offset_pairs_commute, lemma_single_atom_sets_its_axis, completes_edge_offset, lemma_three_atom_acceptance, lemma_generic_position_shapes, lemma_two_atom_acceptance, lemma_two_atoms_set_their_own_axes, lemma_three_atom_offset_follows_its_edge, lemma_contextual_legacy_components};
pub use properties::{CssKnownProperty};
pub use resolution::{at_offset, summary_is, names_next_token, name_next_token, names_previous_token, name_previous_token, places_at_at_rule, place_at_at_rule, names_at_rule_body, name_at_rule_body, readable_at, resolves_detail, resolve_detail_against_source, resolution_start, resolved_against, resolve_source, normalizes_encoding_error, normalize_encoding_error, readable_parse_error, carries_diagnostic, from_parse_error, from_rule_parse_error};
pub use rules::{StrictRuleParser, StrictAtRuleKind, strict_at_rule_kind_of, at_rule_kind_spelling, lemma_at_rule_kind_names_itself, lemma_at_rule_spelling_names_its_kind, refuses_at_rule, refuses_at_rule_block, after_non_import_rules, lemma_imports_only_before_other_rules};
pub use search::{is_first_match, first_match, lemma_first_match_at, lemma_first_match_none};
pub use shadows::{ShadowComponent, LocatedShadowComponent, CssShadow, ShadowScan, shadow_scan_start, shadow_step, shadow_scan, shadow_error, shadow_of, optional_lengths, lemma_shadow_lengths_in_written_order, writes_inset, component_color, writes_color, writes_some_color, lemma_shadow_inset_and_color_as_written, length_readings, lemma_shadow_lengths_read_in_turn, lemma_shadow_refuses_repeats, build_shadow};
pub use source::{CssSourceLocation, CssSourcePosition, saturating_step, is_continuation, line_column_after, position_in, starts_character, reaches, first_start_reaching, location_offset_in};
pub use syntax::{is_custom_property_spelling, CssCustomPropertyName};
pub use text::{ascii_lower, ascii_case_eq, chars_ascii_case_eq, str_ascii_case_eq, lower_byte, str_eq, eq_ignore_ascii_case, lemma_chars_ascii_case_eq_transfer, lemma_ascii_spellings_case_eq, lemma_chars_ascii_case_eq_symmetric, unicode_white_space, leading_white_space, trim_start_of, last_non_white_space, leading_white_space_len, last_non_white_space_char};
pub use tokens::{is_bounded_end_token, is_boundary_token, at_keyword_at, last_at_rule_before, lookbehind_end, authored_at_rule_before, authored_at_rule_start_of, authored_at_rule_start, token_kind_group, first_token, source_text, is_trivia, next_authored_token_of, next_authored_token_at_of, found_token_is, next_authored_token_at, opens_lookbehind_window, lookbehind_window_start, last_authored_token_of, previous_authored_token_of, previous_authored_token_before, CssEncodingErrorPlacement, is_encoding_error_placement, encoding_error_placement};
pub use value_keywords::{keyword_result, CssBorderImageRepeatKeyword, border_image_repeat_keyword_of, parse_border_image_repeat_keyword, CssImageRendering, image_rendering_keyword_of, parse_image_rendering, CssObjectFit, object_fit_keyword_of, parse_object_fit, CssBackgroundBox, background_box_keyword_of, parse_background_box, CssBackgroundAttachment, background_attachment_keyword_of, parse_background_attachment, CssCursorKeyword, cursor_keyword_of, parse_cursor_keyword, CssPointerEvents, pointer_events_keyword_of, parse_pointer_events, CssUserSelect, user_select_keyword_of, parse_user_select, CssBoxDecorationBreak, box_decoration_break_keyword_of, parse_box_decoration_break, CssBorderStyle, border_style_keyword_of, parse_border_style, CssListStylePosition, list_style_position_keyword_of, parse_list_style_position, CssGridAutoFlowAxis, grid_auto_flow_axis_keyword_of, parse_grid_auto_flow_axis, CssDisplay, display_keyword_of, parse_display, CssBoxSizing, box_sizing_keyword_of, parse_box_sizing, CssLayoutPosition, position_keyword_of, parse_position, CssDirection, direction_keyword_of, parse_direction, CssOverflow, overflow_keyword_of, parse_overflow, CssFlexDirection, flex_direction_keyword_of, parse_flex_direction, CssFlexWrap, flex_wrap_keyword_of, parse_flex_wrap, CssFloat, float_keyword_of, parse_float, CssClear, clear_keyword_of, parse_clear, CssVisibility, visibility_keyword_of, parse_visibility, CssContentVisibility, content_visibility_keyword_of, parse_content_visibility, CssBackgroundRepeatStyle, background_repeat_style_from_ident_keyword_of, parse_background_repeat_style_from_ident, CssFontDisplay, font_display_keyword_of, parse_font_display, CssRadialShape, radial_shape_keyword_of, parse_radial_shape, CssRadialExtent, radial_extent_keyword_of, parse_radial_extent, CssColumnFill, column_fill_keyword_of, parse_column_fill, CssLineStyle, line_style_keyword_of, parse_line_style, CssColumnSpan, column_span_keyword_of, parse_column_span};
