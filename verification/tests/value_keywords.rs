use surgeist_css::{unexpected_at, CssSourceLocation, CssBackgroundAttachment, CssBackgroundBox, CssBackgroundRepeatStyle, CssBorderImageRepeatKeyword, CssBorderStyle, CssBoxDecorationBreak, CssBoxSizing, CssClear, CssColumnFill, CssColumnSpan, CssContentVisibility, CssCursorKeyword, CssDirection, CssDisplay, CssFlexDirection, CssFlexWrap, CssFloat, CssFontDisplay, CssGridAutoFlowAxis, CssImageRendering, CssLayoutPosition, CssLineStyle, CssListStylePosition, CssObjectFit, CssOverflow, CssPointerEvents, CssRadialExtent, CssRadialShape, CssUserSelect, CssVisibility, parse_background_attachment, parse_background_box, parse_background_repeat_style_from_ident, parse_border_image_repeat_keyword, parse_border_style, parse_box_decoration_break, parse_box_sizing, parse_clear, parse_column_fill, parse_column_span, parse_content_visibility, parse_cursor_keyword, parse_direction, parse_display, parse_flex_direction, parse_flex_wrap, parse_float, parse_font_display, parse_grid_auto_flow_axis, parse_image_rendering, parse_line_style, parse_list_style_position, parse_object_fit, parse_overflow, parse_pointer_events, parse_position, parse_radial_extent, parse_radial_shape, parse_user_select, parse_visibility};

fn location() -> CssSourceLocation {
    CssSourceLocation { line: 1, column: 9 }
}

#[test]
fn parse_border_image_repeat_keyword_matches_its_keywords_ignoring_ascii_case() {
    assert_eq!(parse_border_image_repeat_keyword("stretch", location()), Ok(CssBorderImageRepeatKeyword::Stretch));
    assert_eq!(parse_border_image_repeat_keyword("repeat", location()), Ok(CssBorderImageRepeatKeyword::Repeat));
    assert_eq!(parse_border_image_repeat_keyword("round", location()), Ok(CssBorderImageRepeatKeyword::Round));
    assert_eq!(parse_border_image_repeat_keyword("space", location()), Ok(CssBorderImageRepeatKeyword::Space));
    assert_eq!(parse_border_image_repeat_keyword("SPACE", location()), Ok(CssBorderImageRepeatKeyword::Space));
    assert_eq!(parse_border_image_repeat_keyword("not-a-keyword", location()), Err(unexpected_at(location())));
    assert_eq!(parse_border_image_repeat_keyword("", location()), Err(unexpected_at(location())));
}

#[test]
fn parse_image_rendering_matches_its_keywords_ignoring_ascii_case() {
    assert_eq!(parse_image_rendering("auto", location()), Ok(CssImageRendering::Auto));
    assert_eq!(parse_image_rendering("crisp-edges", location()), Ok(CssImageRendering::CrispEdges));
    assert_eq!(parse_image_rendering("pixelated", location()), Ok(CssImageRendering::Pixelated));
    assert_eq!(parse_image_rendering("PIXELATED", location()), Ok(CssImageRendering::Pixelated));
    assert_eq!(parse_image_rendering("not-a-keyword", location()), Err(unexpected_at(location())));
    assert_eq!(parse_image_rendering("", location()), Err(unexpected_at(location())));
}

#[test]
fn parse_object_fit_matches_its_keywords_ignoring_ascii_case() {
    assert_eq!(parse_object_fit("fill", location()), Ok(CssObjectFit::Fill));
    assert_eq!(parse_object_fit("contain", location()), Ok(CssObjectFit::Contain));
    assert_eq!(parse_object_fit("cover", location()), Ok(CssObjectFit::Cover));
    assert_eq!(parse_object_fit("none", location()), Ok(CssObjectFit::NoneKeyword));
    assert_eq!(parse_object_fit("scale-down", location()), Ok(CssObjectFit::ScaleDown));
    assert_eq!(parse_object_fit("SCALE-DOWN", location()), Ok(CssObjectFit::ScaleDown));
    assert_eq!(parse_object_fit("not-a-keyword", location()), Err(unexpected_at(location())));
    assert_eq!(parse_object_fit("", location()), Err(unexpected_at(location())));
}

#[test]
fn parse_background_box_matches_its_keywords_ignoring_ascii_case() {
    assert_eq!(parse_background_box("border-box", location()), Ok(CssBackgroundBox::BorderBox));
    assert_eq!(parse_background_box("padding-box", location()), Ok(CssBackgroundBox::PaddingBox));
    assert_eq!(parse_background_box("content-box", location()), Ok(CssBackgroundBox::ContentBox));
    assert_eq!(parse_background_box("CONTENT-BOX", location()), Ok(CssBackgroundBox::ContentBox));
    assert_eq!(parse_background_box("not-a-keyword", location()), Err(unexpected_at(location())));
    assert_eq!(parse_background_box("", location()), Err(unexpected_at(location())));
}

#[test]
fn parse_background_attachment_matches_its_keywords_ignoring_ascii_case() {
    assert_eq!(parse_background_attachment("scroll", location()), Ok(CssBackgroundAttachment::Scroll));
    assert_eq!(parse_background_attachment("fixed", location()), Ok(CssBackgroundAttachment::Fixed));
    assert_eq!(parse_background_attachment("local", location()), Ok(CssBackgroundAttachment::Local));
    assert_eq!(parse_background_attachment("LOCAL", location()), Ok(CssBackgroundAttachment::Local));
    assert_eq!(parse_background_attachment("not-a-keyword", location()), Err(unexpected_at(location())));
    assert_eq!(parse_background_attachment("", location()), Err(unexpected_at(location())));
}

#[test]
fn parse_cursor_keyword_matches_its_keywords_ignoring_ascii_case() {
    assert_eq!(parse_cursor_keyword("auto", location()), Ok(CssCursorKeyword::Auto));
    assert_eq!(parse_cursor_keyword("default", location()), Ok(CssCursorKeyword::Default));
    assert_eq!(parse_cursor_keyword("none", location()), Ok(CssCursorKeyword::NoneKeyword));
    assert_eq!(parse_cursor_keyword("context-menu", location()), Ok(CssCursorKeyword::ContextMenu));
    assert_eq!(parse_cursor_keyword("help", location()), Ok(CssCursorKeyword::Help));
    assert_eq!(parse_cursor_keyword("pointer", location()), Ok(CssCursorKeyword::Pointer));
    assert_eq!(parse_cursor_keyword("progress", location()), Ok(CssCursorKeyword::Progress));
    assert_eq!(parse_cursor_keyword("wait", location()), Ok(CssCursorKeyword::Wait));
    assert_eq!(parse_cursor_keyword("cell", location()), Ok(CssCursorKeyword::Cell));
    assert_eq!(parse_cursor_keyword("crosshair", location()), Ok(CssCursorKeyword::Crosshair));
    assert_eq!(parse_cursor_keyword("text", location()), Ok(CssCursorKeyword::Text));
    assert_eq!(parse_cursor_keyword("vertical-text", location()), Ok(CssCursorKeyword::VerticalText));
    assert_eq!(parse_cursor_keyword("alias", location()), Ok(CssCursorKeyword::Alias));
    assert_eq!(parse_cursor_keyword("copy", location()), Ok(CssCursorKeyword::Copy));
    assert_eq!(parse_cursor_keyword("move", location()), Ok(CssCursorKeyword::Move));
    assert_eq!(parse_cursor_keyword("no-drop", location()), Ok(CssCursorKeyword::NoDrop));
    assert_eq!(parse_cursor_keyword("not-allowed", location()), Ok(CssCursorKeyword::NotAllowed));
    assert_eq!(parse_cursor_keyword("grab", location()), Ok(CssCursorKeyword::Grab));
    assert_eq!(parse_cursor_keyword("grabbing", location()), Ok(CssCursorKeyword::Grabbing));
    assert_eq!(parse_cursor_keyword("all-scroll", location()), Ok(CssCursorKeyword::AllScroll));
    assert_eq!(parse_cursor_keyword("col-resize", location()), Ok(CssCursorKeyword::ColResize));
    assert_eq!(parse_cursor_keyword("row-resize", location()), Ok(CssCursorKeyword::RowResize));
    assert_eq!(parse_cursor_keyword("n-resize", location()), Ok(CssCursorKeyword::NResize));
    assert_eq!(parse_cursor_keyword("e-resize", location()), Ok(CssCursorKeyword::EResize));
    assert_eq!(parse_cursor_keyword("s-resize", location()), Ok(CssCursorKeyword::SResize));
    assert_eq!(parse_cursor_keyword("w-resize", location()), Ok(CssCursorKeyword::WResize));
    assert_eq!(parse_cursor_keyword("ne-resize", location()), Ok(CssCursorKeyword::NeResize));
    assert_eq!(parse_cursor_keyword("nw-resize", location()), Ok(CssCursorKeyword::NwResize));
    assert_eq!(parse_cursor_keyword("se-resize", location()), Ok(CssCursorKeyword::SeResize));
    assert_eq!(parse_cursor_keyword("sw-resize", location()), Ok(CssCursorKeyword::SwResize));
    assert_eq!(parse_cursor_keyword("ew-resize", location()), Ok(CssCursorKeyword::EwResize));
    assert_eq!(parse_cursor_keyword("ns-resize", location()), Ok(CssCursorKeyword::NsResize));
    assert_eq!(parse_cursor_keyword("nesw-resize", location()), Ok(CssCursorKeyword::NeswResize));
    assert_eq!(parse_cursor_keyword("nwse-resize", location()), Ok(CssCursorKeyword::NwseResize));
    assert_eq!(parse_cursor_keyword("zoom-in", location()), Ok(CssCursorKeyword::ZoomIn));
    assert_eq!(parse_cursor_keyword("zoom-out", location()), Ok(CssCursorKeyword::ZoomOut));
    assert_eq!(parse_cursor_keyword("ZOOM-OUT", location()), Ok(CssCursorKeyword::ZoomOut));
    assert_eq!(parse_cursor_keyword("not-a-keyword", location()), Err(unexpected_at(location())));
    assert_eq!(parse_cursor_keyword("", location()), Err(unexpected_at(location())));
}

#[test]
fn parse_pointer_events_matches_its_keywords_ignoring_ascii_case() {
    assert_eq!(parse_pointer_events("auto", location()), Ok(CssPointerEvents::Auto));
    assert_eq!(parse_pointer_events("none", location()), Ok(CssPointerEvents::NoneKeyword));
    assert_eq!(parse_pointer_events("NONE", location()), Ok(CssPointerEvents::NoneKeyword));
    assert_eq!(parse_pointer_events("not-a-keyword", location()), Err(unexpected_at(location())));
    assert_eq!(parse_pointer_events("", location()), Err(unexpected_at(location())));
}

#[test]
fn parse_user_select_matches_its_keywords_ignoring_ascii_case() {
    assert_eq!(parse_user_select("auto", location()), Ok(CssUserSelect::Auto));
    assert_eq!(parse_user_select("text", location()), Ok(CssUserSelect::Text));
    assert_eq!(parse_user_select("none", location()), Ok(CssUserSelect::NoneKeyword));
    assert_eq!(parse_user_select("all", location()), Ok(CssUserSelect::All));
    assert_eq!(parse_user_select("contain", location()), Ok(CssUserSelect::Contain));
    assert_eq!(parse_user_select("CONTAIN", location()), Ok(CssUserSelect::Contain));
    assert_eq!(parse_user_select("not-a-keyword", location()), Err(unexpected_at(location())));
    assert_eq!(parse_user_select("", location()), Err(unexpected_at(location())));
}

#[test]
fn parse_box_decoration_break_matches_its_keywords_ignoring_ascii_case() {
    assert_eq!(parse_box_decoration_break("slice", location()), Ok(CssBoxDecorationBreak::Slice));
    assert_eq!(parse_box_decoration_break("clone", location()), Ok(CssBoxDecorationBreak::Clone));
    assert_eq!(parse_box_decoration_break("CLONE", location()), Ok(CssBoxDecorationBreak::Clone));
    assert_eq!(parse_box_decoration_break("not-a-keyword", location()), Err(unexpected_at(location())));
    assert_eq!(parse_box_decoration_break("", location()), Err(unexpected_at(location())));
}

#[test]
fn parse_border_style_matches_its_keywords_ignoring_ascii_case() {
    assert_eq!(parse_border_style("none", location()), Ok(CssBorderStyle::NoneKeyword));
    assert_eq!(parse_border_style("hidden", location()), Ok(CssBorderStyle::Hidden));
    assert_eq!(parse_border_style("dotted", location()), Ok(CssBorderStyle::Dotted));
    assert_eq!(parse_border_style("dashed", location()), Ok(CssBorderStyle::Dashed));
    assert_eq!(parse_border_style("solid", location()), Ok(CssBorderStyle::Solid));
    assert_eq!(parse_border_style("double", location()), Ok(CssBorderStyle::Double));
    assert_eq!(parse_border_style("groove", location()), Ok(CssBorderStyle::Groove));
    assert_eq!(parse_border_style("ridge", location()), Ok(CssBorderStyle::Ridge));
    assert_eq!(parse_border_style("inset", location()), Ok(CssBorderStyle::Inset));
    assert_eq!(parse_border_style("outset", location()), Ok(CssBorderStyle::Outset));
    assert_eq!(parse_border_style("OUTSET", location()), Ok(CssBorderStyle::Outset));
    assert_eq!(parse_border_style("not-a-keyword", location()), Err(unexpected_at(location())));
    assert_eq!(parse_border_style("", location()), Err(unexpected_at(location())));
}

#[test]
fn parse_list_style_position_matches_its_keywords_ignoring_ascii_case() {
    assert_eq!(parse_list_style_position("inside", location()), Ok(CssListStylePosition::Inside));
    assert_eq!(parse_list_style_position("outside", location()), Ok(CssListStylePosition::Outside));
    assert_eq!(parse_list_style_position("OUTSIDE", location()), Ok(CssListStylePosition::Outside));
    assert_eq!(parse_list_style_position("not-a-keyword", location()), Err(unexpected_at(location())));
    assert_eq!(parse_list_style_position("", location()), Err(unexpected_at(location())));
}

#[test]
fn parse_grid_auto_flow_axis_matches_its_keywords_ignoring_ascii_case() {
    assert_eq!(parse_grid_auto_flow_axis("row", location()), Ok(CssGridAutoFlowAxis::Row));
    assert_eq!(parse_grid_auto_flow_axis("column", location()), Ok(CssGridAutoFlowAxis::Column));
    assert_eq!(parse_grid_auto_flow_axis("COLUMN", location()), Ok(CssGridAutoFlowAxis::Column));
    assert_eq!(parse_grid_auto_flow_axis("not-a-keyword", location()), Err(unexpected_at(location())));
    assert_eq!(parse_grid_auto_flow_axis("", location()), Err(unexpected_at(location())));
}

#[test]
fn parse_display_matches_its_keywords_ignoring_ascii_case() {
    assert_eq!(parse_display("block", location()), Ok(CssDisplay::Block));
    assert_eq!(parse_display("flex", location()), Ok(CssDisplay::Flex));
    assert_eq!(parse_display("grid", location()), Ok(CssDisplay::Grid));
    assert_eq!(parse_display("inline-block", location()), Ok(CssDisplay::InlineBlock));
    assert_eq!(parse_display("inline-grid", location()), Ok(CssDisplay::InlineGrid));
    assert_eq!(parse_display("grid-lanes", location()), Ok(CssDisplay::GridLanes));
    assert_eq!(parse_display("inline-grid-lanes", location()), Ok(CssDisplay::InlineGridLanes));
    assert_eq!(parse_display("none", location()), Ok(CssDisplay::NoneKeyword));
    assert_eq!(parse_display("NONE", location()), Ok(CssDisplay::NoneKeyword));
    assert_eq!(parse_display("not-a-keyword", location()), Err(unexpected_at(location())));
    assert_eq!(parse_display("", location()), Err(unexpected_at(location())));
}

#[test]
fn parse_box_sizing_matches_its_keywords_ignoring_ascii_case() {
    assert_eq!(parse_box_sizing("content-box", location()), Ok(CssBoxSizing::ContentBox));
    assert_eq!(parse_box_sizing("border-box", location()), Ok(CssBoxSizing::BorderBox));
    assert_eq!(parse_box_sizing("BORDER-BOX", location()), Ok(CssBoxSizing::BorderBox));
    assert_eq!(parse_box_sizing("not-a-keyword", location()), Err(unexpected_at(location())));
    assert_eq!(parse_box_sizing("", location()), Err(unexpected_at(location())));
}

#[test]
fn parse_position_matches_its_keywords_ignoring_ascii_case() {
    assert_eq!(parse_position("static", location()), Ok(CssLayoutPosition::Static));
    assert_eq!(parse_position("relative", location()), Ok(CssLayoutPosition::Relative));
    assert_eq!(parse_position("absolute", location()), Ok(CssLayoutPosition::Absolute));
    assert_eq!(parse_position("fixed", location()), Ok(CssLayoutPosition::Fixed));
    assert_eq!(parse_position("sticky", location()), Ok(CssLayoutPosition::Sticky));
    assert_eq!(parse_position("STICKY", location()), Ok(CssLayoutPosition::Sticky));
    assert_eq!(parse_position("not-a-keyword", location()), Err(unexpected_at(location())));
    assert_eq!(parse_position("", location()), Err(unexpected_at(location())));
}

#[test]
fn parse_direction_matches_its_keywords_ignoring_ascii_case() {
    assert_eq!(parse_direction("ltr", location()), Ok(CssDirection::Ltr));
    assert_eq!(parse_direction("rtl", location()), Ok(CssDirection::Rtl));
    assert_eq!(parse_direction("RTL", location()), Ok(CssDirection::Rtl));
    assert_eq!(parse_direction("not-a-keyword", location()), Err(unexpected_at(location())));
    assert_eq!(parse_direction("", location()), Err(unexpected_at(location())));
}

#[test]
fn parse_overflow_matches_its_keywords_ignoring_ascii_case() {
    assert_eq!(parse_overflow("visible", location()), Ok(CssOverflow::Visible));
    assert_eq!(parse_overflow("clip", location()), Ok(CssOverflow::Clip));
    assert_eq!(parse_overflow("hidden", location()), Ok(CssOverflow::Hidden));
    assert_eq!(parse_overflow("scroll", location()), Ok(CssOverflow::Scroll));
    assert_eq!(parse_overflow("SCROLL", location()), Ok(CssOverflow::Scroll));
    assert_eq!(parse_overflow("not-a-keyword", location()), Err(unexpected_at(location())));
    assert_eq!(parse_overflow("", location()), Err(unexpected_at(location())));
}

#[test]
fn parse_flex_direction_matches_its_keywords_ignoring_ascii_case() {
    assert_eq!(parse_flex_direction("row", location()), Ok(CssFlexDirection::Row));
    assert_eq!(parse_flex_direction("column", location()), Ok(CssFlexDirection::Column));
    assert_eq!(parse_flex_direction("row-reverse", location()), Ok(CssFlexDirection::RowReverse));
    assert_eq!(parse_flex_direction("column-reverse", location()), Ok(CssFlexDirection::ColumnReverse));
    assert_eq!(parse_flex_direction("COLUMN-REVERSE", location()), Ok(CssFlexDirection::ColumnReverse));
    assert_eq!(parse_flex_direction("not-a-keyword", location()), Err(unexpected_at(location())));
    assert_eq!(parse_flex_direction("", location()), Err(unexpected_at(location())));
}

#[test]
fn parse_flex_wrap_matches_its_keywords_ignoring_ascii_case() {
    assert_eq!(parse_flex_wrap("nowrap", location()), Ok(CssFlexWrap::NoWrap));
    assert_eq!(parse_flex_wrap("wrap", location()), Ok(CssFlexWrap::Wrap));
    assert_eq!(parse_flex_wrap("wrap-reverse", location()), Ok(CssFlexWrap::WrapReverse));
    assert_eq!(parse_flex_wrap("WRAP-REVERSE", location()), Ok(CssFlexWrap::WrapReverse));
    assert_eq!(parse_flex_wrap("not-a-keyword", location()), Err(unexpected_at(location())));
    assert_eq!(parse_flex_wrap("", location()), Err(unexpected_at(location())));
}

#[test]
fn parse_float_matches_its_keywords_ignoring_ascii_case() {
    assert_eq!(parse_float("left", location()), Ok(CssFloat::Left));
    assert_eq!(parse_float("right", location()), Ok(CssFloat::Right));
    assert_eq!(parse_float("none", location()), Ok(CssFloat::NoneKeyword));
    assert_eq!(parse_float("NONE", location()), Ok(CssFloat::NoneKeyword));
    assert_eq!(parse_float("not-a-keyword", location()), Err(unexpected_at(location())));
    assert_eq!(parse_float("", location()), Err(unexpected_at(location())));
}

#[test]
fn parse_clear_matches_its_keywords_ignoring_ascii_case() {
    assert_eq!(parse_clear("left", location()), Ok(CssClear::Left));
    assert_eq!(parse_clear("right", location()), Ok(CssClear::Right));
    assert_eq!(parse_clear("both", location()), Ok(CssClear::Both));
    assert_eq!(parse_clear("none", location()), Ok(CssClear::NoneKeyword));
    assert_eq!(parse_clear("NONE", location()), Ok(CssClear::NoneKeyword));
    assert_eq!(parse_clear("not-a-keyword", location()), Err(unexpected_at(location())));
    assert_eq!(parse_clear("", location()), Err(unexpected_at(location())));
}

#[test]
fn parse_visibility_matches_its_keywords_ignoring_ascii_case() {
    assert_eq!(parse_visibility("visible", location()), Ok(CssVisibility::Visible));
    assert_eq!(parse_visibility("hidden", location()), Ok(CssVisibility::Hidden));
    assert_eq!(parse_visibility("collapse", location()), Ok(CssVisibility::Collapse));
    assert_eq!(parse_visibility("COLLAPSE", location()), Ok(CssVisibility::Collapse));
    assert_eq!(parse_visibility("not-a-keyword", location()), Err(unexpected_at(location())));
    assert_eq!(parse_visibility("", location()), Err(unexpected_at(location())));
}

#[test]
fn parse_content_visibility_matches_its_keywords_ignoring_ascii_case() {
    assert_eq!(parse_content_visibility("visible", location()), Ok(CssContentVisibility::Visible));
    assert_eq!(parse_content_visibility("hidden", location()), Ok(CssContentVisibility::Hidden));
    assert_eq!(parse_content_visibility("auto", location()), Ok(CssContentVisibility::Auto));
    assert_eq!(parse_content_visibility("AUTO", location()), Ok(CssContentVisibility::Auto));
    assert_eq!(parse_content_visibility("not-a-keyword", location()), Err(unexpected_at(location())));
    assert_eq!(parse_content_visibility("", location()), Err(unexpected_at(location())));
}

#[test]
fn parse_background_repeat_style_from_ident_matches_its_keywords_ignoring_ascii_case() {
    assert_eq!(parse_background_repeat_style_from_ident("repeat", location()), Ok(CssBackgroundRepeatStyle::Repeat));
    assert_eq!(parse_background_repeat_style_from_ident("space", location()), Ok(CssBackgroundRepeatStyle::Space));
    assert_eq!(parse_background_repeat_style_from_ident("round", location()), Ok(CssBackgroundRepeatStyle::Round));
    assert_eq!(parse_background_repeat_style_from_ident("no-repeat", location()), Ok(CssBackgroundRepeatStyle::NoRepeat));
    assert_eq!(parse_background_repeat_style_from_ident("NO-REPEAT", location()), Ok(CssBackgroundRepeatStyle::NoRepeat));
    assert_eq!(parse_background_repeat_style_from_ident("not-a-keyword", location()), Err(unexpected_at(location())));
    assert_eq!(parse_background_repeat_style_from_ident("", location()), Err(unexpected_at(location())));
}

#[test]
fn parse_font_display_matches_its_keywords_ignoring_ascii_case() {
    assert_eq!(parse_font_display("auto", location()), Ok(CssFontDisplay::Auto));
    assert_eq!(parse_font_display("block", location()), Ok(CssFontDisplay::Block));
    assert_eq!(parse_font_display("swap", location()), Ok(CssFontDisplay::Swap));
    assert_eq!(parse_font_display("fallback", location()), Ok(CssFontDisplay::Fallback));
    assert_eq!(parse_font_display("optional", location()), Ok(CssFontDisplay::Optional));
    assert_eq!(parse_font_display("OPTIONAL", location()), Ok(CssFontDisplay::Optional));
    assert_eq!(parse_font_display("not-a-keyword", location()), Err(unexpected_at(location())));
    assert_eq!(parse_font_display("", location()), Err(unexpected_at(location())));
}

#[test]
fn parse_radial_shape_matches_its_keywords_ignoring_ascii_case() {
    assert_eq!(parse_radial_shape("circle", location()), Ok(CssRadialShape::Circle));
    assert_eq!(parse_radial_shape("ellipse", location()), Ok(CssRadialShape::Ellipse));
    assert_eq!(parse_radial_shape("ELLIPSE", location()), Ok(CssRadialShape::Ellipse));
    assert_eq!(parse_radial_shape("not-a-keyword", location()), Err(unexpected_at(location())));
    assert_eq!(parse_radial_shape("", location()), Err(unexpected_at(location())));
}

#[test]
fn parse_radial_extent_matches_its_keywords_ignoring_ascii_case() {
    assert_eq!(parse_radial_extent("closest-side", location()), Ok(CssRadialExtent::ClosestSide));
    assert_eq!(parse_radial_extent("farthest-side", location()), Ok(CssRadialExtent::FarthestSide));
    assert_eq!(parse_radial_extent("closest-corner", location()), Ok(CssRadialExtent::ClosestCorner));
    assert_eq!(parse_radial_extent("farthest-corner", location()), Ok(CssRadialExtent::FarthestCorner));
    assert_eq!(parse_radial_extent("FARTHEST-CORNER", location()), Ok(CssRadialExtent::FarthestCorner));
    assert_eq!(parse_radial_extent("not-a-keyword", location()), Err(unexpected_at(location())));
    assert_eq!(parse_radial_extent("", location()), Err(unexpected_at(location())));
}

#[test]
fn parse_column_fill_matches_its_keywords_ignoring_ascii_case() {
    assert_eq!(parse_column_fill("auto", location()), Ok(CssColumnFill::Auto));
    assert_eq!(parse_column_fill("balance", location()), Ok(CssColumnFill::Balance));
    assert_eq!(parse_column_fill("balance-all", location()), Ok(CssColumnFill::BalanceAll));
    assert_eq!(parse_column_fill("BALANCE-ALL", location()), Ok(CssColumnFill::BalanceAll));
    assert_eq!(parse_column_fill("not-a-keyword", location()), Err(unexpected_at(location())));
    assert_eq!(parse_column_fill("", location()), Err(unexpected_at(location())));
}

#[test]
fn parse_line_style_matches_its_keywords_ignoring_ascii_case() {
    assert_eq!(parse_line_style("none", location()), Ok(CssLineStyle::NoneKeyword));
    assert_eq!(parse_line_style("hidden", location()), Ok(CssLineStyle::Hidden));
    assert_eq!(parse_line_style("dotted", location()), Ok(CssLineStyle::Dotted));
    assert_eq!(parse_line_style("dashed", location()), Ok(CssLineStyle::Dashed));
    assert_eq!(parse_line_style("solid", location()), Ok(CssLineStyle::Solid));
    assert_eq!(parse_line_style("double", location()), Ok(CssLineStyle::Double));
    assert_eq!(parse_line_style("groove", location()), Ok(CssLineStyle::Groove));
    assert_eq!(parse_line_style("ridge", location()), Ok(CssLineStyle::Ridge));
    assert_eq!(parse_line_style("inset", location()), Ok(CssLineStyle::Inset));
    assert_eq!(parse_line_style("outset", location()), Ok(CssLineStyle::Outset));
    assert_eq!(parse_line_style("OUTSET", location()), Ok(CssLineStyle::Outset));
    assert_eq!(parse_line_style("not-a-keyword", location()), Err(unexpected_at(location())));
    assert_eq!(parse_line_style("", location()), Err(unexpected_at(location())));
}

#[test]
fn parse_column_span_matches_its_keywords_ignoring_ascii_case() {
    assert_eq!(parse_column_span("none", location()), Ok(CssColumnSpan::NoneKeyword));
    assert_eq!(parse_column_span("all", location()), Ok(CssColumnSpan::All));
    assert_eq!(parse_column_span("ALL", location()), Ok(CssColumnSpan::All));
    assert_eq!(parse_column_span("not-a-keyword", location()), Err(unexpected_at(location())));
    assert_eq!(parse_column_span("", location()), Err(unexpected_at(location())));
}
