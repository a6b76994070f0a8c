//! The single-keyword value grammars: each maps an authored identifier, ignoring ASCII case, to
//! its keyword, or rejects it with the unsupported-value diagnostic at the tokenizer location
//! after the identifier.
use vstd::prelude::*;

use crate::diagnostics::{unsupported_value, CssParseError};
use crate::source::CssSourceLocation;
use crate::text::{chars_ascii_case_eq, eq_ignore_ascii_case};

verus! {

/// The result of a single-keyword grammar: the keyword the identifier names, or the
/// unsupported-value diagnostic at `location`.
pub open spec fn keyword_result<K>(found: Option<K>, location: CssSourceLocation) -> Result<K, CssParseError> {
    match found {
        Some(keyword) => Ok(keyword),
        None => Err(crate::diagnostics::custom_error_at(
            location,
            crate::error::ErrorKind::UnexpectedEnd(
                crate::error::CssUnexpectedEndError::new(crate::error::expect_declaration_value()),
            ),
        )),
    }
}

/// A `border-image-repeat` keyword.
#[derive(Clone, Copy, Debug, PartialEq, Eq, Hash, Structural)]
pub enum CssBorderImageRepeatKeyword {
    /// `stretch`.
    Stretch,
    /// `repeat`.
    Repeat,
    /// `round`.
    Round,
    /// `space`.
    Space,
}

/// The keyword of `CssBorderImageRepeatKeyword` an identifier names, ignoring ASCII case.
pub open spec fn border_image_repeat_keyword_of(ident: Seq<char>) -> Option<CssBorderImageRepeatKeyword> {
    if chars_ascii_case_eq(ident, "stretch"@) {
        Some(CssBorderImageRepeatKeyword::Stretch)
    } else if chars_ascii_case_eq(ident, "repeat"@) {
        Some(CssBorderImageRepeatKeyword::Repeat)
    } else if chars_ascii_case_eq(ident, "round"@) {
        Some(CssBorderImageRepeatKeyword::Round)
    } else if chars_ascii_case_eq(ident, "space"@) {
        Some(CssBorderImageRepeatKeyword::Space)
    } else {
        None
    }
}

/// Returns the keyword the identifier `ident` names, ignoring ASCII case, or the unsupported-value
/// diagnostic at `location`, the tokenizer location after the identifier.
pub fn parse_border_image_repeat_keyword(ident: &str, location: CssSourceLocation) -> (parsed: Result<CssBorderImageRepeatKeyword, CssParseError>)
    ensures
        parsed == keyword_result(border_image_repeat_keyword_of(ident@), location),
{
    if eq_ignore_ascii_case(ident, "stretch") {
        Ok(CssBorderImageRepeatKeyword::Stretch)
    } else if eq_ignore_ascii_case(ident, "repeat") {
        Ok(CssBorderImageRepeatKeyword::Repeat)
    } else if eq_ignore_ascii_case(ident, "round") {
        Ok(CssBorderImageRepeatKeyword::Round)
    } else if eq_ignore_ascii_case(ident, "space") {
        Ok(CssBorderImageRepeatKeyword::Space)
    } else {
        Err(unsupported_value(location, None, "unsupported border-image-repeat keyword"))
    }
}

/// An `image-rendering` keyword.
#[derive(Clone, Copy, Debug, PartialEq, Eq, Hash, Structural)]
pub enum CssImageRendering {
    /// `auto`.
    Auto,
    /// `crisp-edges`.
    CrispEdges,
    /// `pixelated`.
    Pixelated,
}

/// The keyword of `CssImageRendering` an identifier names, ignoring ASCII case.
pub open spec fn image_rendering_keyword_of(ident: Seq<char>) -> Option<CssImageRendering> {
    if chars_ascii_case_eq(ident, "auto"@) {
        Some(CssImageRendering::Auto)
    } else if chars_ascii_case_eq(ident, "crisp-edges"@) {
        Some(CssImageRendering::CrispEdges)
    } else if chars_ascii_case_eq(ident, "pixelated"@) {
        Some(CssImageRendering::Pixelated)
    } else {
        None
    }
}

/// Returns the keyword the identifier `ident` names, ignoring ASCII case, or the unsupported-value
/// diagnostic at `location`, the tokenizer location after the identifier.
pub fn parse_image_rendering(ident: &str, location: CssSourceLocation) -> (parsed: Result<CssImageRendering, CssParseError>)
    ensures
        parsed == keyword_result(image_rendering_keyword_of(ident@), location),
{
    if eq_ignore_ascii_case(ident, "auto") {
        Ok(CssImageRendering::Auto)
    } else if eq_ignore_ascii_case(ident, "crisp-edges") {
        Ok(CssImageRendering::CrispEdges)
    } else if eq_ignore_ascii_case(ident, "pixelated") {
        Ok(CssImageRendering::Pixelated)
    } else {
        Err(unsupported_value(location, None, "unsupported image-rendering keyword"))
    }
}

/// An `object-fit` keyword.
#[derive(Clone, Copy, Debug, PartialEq, Eq, Hash, Structural)]
pub enum CssObjectFit {
    /// `fill`.
    Fill,
    /// `contain`.
    Contain,
    /// `cover`.
    Cover,
    /// `none`.
    NoneKeyword,
    /// `scale-down`.
    ScaleDown,
}

/// The keyword of `CssObjectFit` an identifier names, ignoring ASCII case.
pub open spec fn object_fit_keyword_of(ident: Seq<char>) -> Option<CssObjectFit> {
    if chars_ascii_case_eq(ident, "fill"@) {
        Some(CssObjectFit::Fill)
    } else if chars_ascii_case_eq(ident, "contain"@) {
        Some(CssObjectFit::Contain)
    } else if chars_ascii_case_eq(ident, "cover"@) {
        Some(CssObjectFit::Cover)
    } else if chars_ascii_case_eq(ident, "none"@) {
        Some(CssObjectFit::NoneKeyword)
    } else if chars_ascii_case_eq(ident, "scale-down"@) {
        Some(CssObjectFit::ScaleDown)
    } else {
        None
    }
}

/// Returns the keyword the identifier `ident` names, ignoring ASCII case, or the unsupported-value
/// diagnostic at `location`, the tokenizer location after the identifier.
pub fn parse_object_fit(ident: &str, location: CssSourceLocation) -> (parsed: Result<CssObjectFit, CssParseError>)
    ensures
        parsed == keyword_result(object_fit_keyword_of(ident@), location),
{
    if eq_ignore_ascii_case(ident, "fill") {
        Ok(CssObjectFit::Fill)
    } else if eq_ignore_ascii_case(ident, "contain") {
        Ok(CssObjectFit::Contain)
    } else if eq_ignore_ascii_case(ident, "cover") {
        Ok(CssObjectFit::Cover)
    } else if eq_ignore_ascii_case(ident, "none") {
        Ok(CssObjectFit::NoneKeyword)
    } else if eq_ignore_ascii_case(ident, "scale-down") {
        Ok(CssObjectFit::ScaleDown)
    } else {
        Err(unsupported_value(location, None, "unsupported object-fit keyword"))
    }
}

/// A background painting-area or positioning-area box keyword.
#[derive(Clone, Copy, Debug, PartialEq, Eq, Hash, Structural)]
pub enum CssBackgroundBox {
    /// `border-box`.
    BorderBox,
    /// `padding-box`.
    PaddingBox,
    /// `content-box`.
    ContentBox,
}

/// The keyword of `CssBackgroundBox` an identifier names, ignoring ASCII case.
pub open spec fn background_box_keyword_of(ident: Seq<char>) -> Option<CssBackgroundBox> {
    if chars_ascii_case_eq(ident, "border-box"@) {
        Some(CssBackgroundBox::BorderBox)
    } else if chars_ascii_case_eq(ident, "padding-box"@) {
        Some(CssBackgroundBox::PaddingBox)
    } else if chars_ascii_case_eq(ident, "content-box"@) {
        Some(CssBackgroundBox::ContentBox)
    } else {
        None
    }
}

/// Returns the keyword the identifier `ident` names, ignoring ASCII case, or the unsupported-value
/// diagnostic at `location`, the tokenizer location after the identifier.
pub fn parse_background_box(ident: &str, location: CssSourceLocation) -> (parsed: Result<CssBackgroundBox, CssParseError>)
    ensures
        parsed == keyword_result(background_box_keyword_of(ident@), location),
{
    if eq_ignore_ascii_case(ident, "border-box") {
        Ok(CssBackgroundBox::BorderBox)
    } else if eq_ignore_ascii_case(ident, "padding-box") {
        Ok(CssBackgroundBox::PaddingBox)
    } else if eq_ignore_ascii_case(ident, "content-box") {
        Ok(CssBackgroundBox::ContentBox)
    } else {
        Err(unsupported_value(location, None, "unsupported background box keyword"))
    }
}

/// A `background-attachment` keyword.
#[derive(Clone, Copy, Debug, PartialEq, Eq, Hash, Structural)]
pub enum CssBackgroundAttachment {
    /// `scroll`.
    Scroll,
    /// `fixed`.
    Fixed,
    /// `local`.
    Local,
}

/// The keyword of `CssBackgroundAttachment` an identifier names, ignoring ASCII case.
pub open spec fn background_attachment_keyword_of(ident: Seq<char>) -> Option<CssBackgroundAttachment> {
    if chars_ascii_case_eq(ident, "scroll"@) {
        Some(CssBackgroundAttachment::Scroll)
    } else if chars_ascii_case_eq(ident, "fixed"@) {
        Some(CssBackgroundAttachment::Fixed)
    } else if chars_ascii_case_eq(ident, "local"@) {
        Some(CssBackgroundAttachment::Local)
    } else {
        None
    }
}

/// Returns the keyword the identifier `ident` names, ignoring ASCII case, or the unsupported-value
/// diagnostic at `location`, the tokenizer location after the identifier.
pub fn parse_background_attachment(ident: &str, location: CssSourceLocation) -> (parsed: Result<CssBackgroundAttachment, CssParseError>)
    ensures
        parsed == keyword_result(background_attachment_keyword_of(ident@), location),
{
    if eq_ignore_ascii_case(ident, "scroll") {
        Ok(CssBackgroundAttachment::Scroll)
    } else if eq_ignore_ascii_case(ident, "fixed") {
        Ok(CssBackgroundAttachment::Fixed)
    } else if eq_ignore_ascii_case(ident, "local") {
        Ok(CssBackgroundAttachment::Local)
    } else {
        Err(unsupported_value(location, None, "unsupported background-attachment keyword"))
    }
}

/// A predefined `cursor` keyword.
#[derive(Clone, Copy, Debug, PartialEq, Eq, Hash, Structural)]
pub enum CssCursorKeyword {
    /// `auto`.
    Auto,
    /// `default`.
    Default,
    /// `none`.
    NoneKeyword,
    /// `context-menu`.
    ContextMenu,
    /// `help`.
    Help,
    /// `pointer`.
    Pointer,
    /// `progress`.
    Progress,
    /// `wait`.
    Wait,
    /// `cell`.
    Cell,
    /// `crosshair`.
    Crosshair,
    /// `text`.
    Text,
    /// `vertical-text`.
    VerticalText,
    /// `alias`.
    Alias,
    /// `copy`.
    Copy,
    /// `move`.
    Move,
    /// `no-drop`.
    NoDrop,
    /// `not-allowed`.
    NotAllowed,
    /// `grab`.
    Grab,
    /// `grabbing`.
    Grabbing,
    /// `all-scroll`.
    AllScroll,
    /// `col-resize`.
    ColResize,
    /// `row-resize`.
    RowResize,
    /// `n-resize`.
    NResize,
    /// `e-resize`.
    EResize,
    /// `s-resize`.
    SResize,
    /// `w-resize`.
    WResize,
    /// `ne-resize`.
    NeResize,
    /// `nw-resize`.
    NwResize,
    /// `se-resize`.
    SeResize,
    /// `sw-resize`.
    SwResize,
    /// `ew-resize`.
    EwResize,
    /// `ns-resize`.
    NsResize,
    /// `nesw-resize`.
    NeswResize,
    /// `nwse-resize`.
    NwseResize,
    /// `zoom-in`.
    ZoomIn,
    /// `zoom-out`.
    ZoomOut,
}

/// The keyword of `CssCursorKeyword` an identifier names, ignoring ASCII case.
pub open spec fn cursor_keyword_of(ident: Seq<char>) -> Option<CssCursorKeyword> {
    if chars_ascii_case_eq(ident, "auto"@) {
        Some(CssCursorKeyword::Auto)
    } else if chars_ascii_case_eq(ident, "default"@) {
        Some(CssCursorKeyword::Default)
    } else if chars_ascii_case_eq(ident, "none"@) {
        Some(CssCursorKeyword::NoneKeyword)
    } else if chars_ascii_case_eq(ident, "context-menu"@) {
        Some(CssCursorKeyword::ContextMenu)
    } else if chars_ascii_case_eq(ident, "help"@) {
        Some(CssCursorKeyword::Help)
    } else if chars_ascii_case_eq(ident, "pointer"@) {
        Some(CssCursorKeyword::Pointer)
    } else if chars_ascii_case_eq(ident, "progress"@) {
        Some(CssCursorKeyword::Progress)
    } else if chars_ascii_case_eq(ident, "wait"@) {
        Some(CssCursorKeyword::Wait)
    } else if chars_ascii_case_eq(ident, "cell"@) {
        Some(CssCursorKeyword::Cell)
    } else if chars_ascii_case_eq(ident, "crosshair"@) {
        Some(CssCursorKeyword::Crosshair)
    } else if chars_ascii_case_eq(ident, "text"@) {
        Some(CssCursorKeyword::Text)
    } else if chars_ascii_case_eq(ident, "vertical-text"@) {
        Some(CssCursorKeyword::VerticalText)
    } else if chars_ascii_case_eq(ident, "alias"@) {
        Some(CssCursorKeyword::Alias)
    } else if chars_ascii_case_eq(ident, "copy"@) {
        Some(CssCursorKeyword::Copy)
    } else if chars_ascii_case_eq(ident, "move"@) {
        Some(CssCursorKeyword::Move)
    } else if chars_ascii_case_eq(ident, "no-drop"@) {
        Some(CssCursorKeyword::NoDrop)
    } else if chars_ascii_case_eq(ident, "not-allowed"@) {
        Some(CssCursorKeyword::NotAllowed)
    } else if chars_ascii_case_eq(ident, "grab"@) {
        Some(CssCursorKeyword::Grab)
    } else if chars_ascii_case_eq(ident, "grabbing"@) {
        Some(CssCursorKeyword::Grabbing)
    } else if chars_ascii_case_eq(ident, "all-scroll"@) {
        Some(CssCursorKeyword::AllScroll)
    } else if chars_ascii_case_eq(ident, "col-resize"@) {
        Some(CssCursorKeyword::ColResize)
    } else if chars_ascii_case_eq(ident, "row-resize"@) {
        Some(CssCursorKeyword::RowResize)
    } else if chars_ascii_case_eq(ident, "n-resize"@) {
        Some(CssCursorKeyword::NResize)
    } else if chars_ascii_case_eq(ident, "e-resize"@) {
        Some(CssCursorKeyword::EResize)
    } else if chars_ascii_case_eq(ident, "s-resize"@) {
        Some(CssCursorKeyword::SResize)
    } else if chars_ascii_case_eq(ident, "w-resize"@) {
        Some(CssCursorKeyword::WResize)
    } else if chars_ascii_case_eq(ident, "ne-resize"@) {
        Some(CssCursorKeyword::NeResize)
    } else if chars_ascii_case_eq(ident, "nw-resize"@) {
        Some(CssCursorKeyword::NwResize)
    } else if chars_ascii_case_eq(ident, "se-resize"@) {
        Some(CssCursorKeyword::SeResize)
    } else if chars_ascii_case_eq(ident, "sw-resize"@) {
        Some(CssCursorKeyword::SwResize)
    } else if chars_ascii_case_eq(ident, "ew-resize"@) {
        Some(CssCursorKeyword::EwResize)
    } else if chars_ascii_case_eq(ident, "ns-resize"@) {
        Some(CssCursorKeyword::NsResize)
    } else if chars_ascii_case_eq(ident, "nesw-resize"@) {
        Some(CssCursorKeyword::NeswResize)
    } else if chars_ascii_case_eq(ident, "nwse-resize"@) {
        Some(CssCursorKeyword::NwseResize)
    } else if chars_ascii_case_eq(ident, "zoom-in"@) {
        Some(CssCursorKeyword::ZoomIn)
    } else if chars_ascii_case_eq(ident, "zoom-out"@) {
        Some(CssCursorKeyword::ZoomOut)
    } else {
        None
    }
}

/// Returns the keyword the identifier `ident` names, ignoring ASCII case, or the unsupported-value
/// diagnostic at `location`, the tokenizer location after the identifier.
pub fn parse_cursor_keyword(ident: &str, location: CssSourceLocation) -> (parsed: Result<CssCursorKeyword, CssParseError>)
    ensures
        parsed == keyword_result(cursor_keyword_of(ident@), location),
{
    if eq_ignore_ascii_case(ident, "auto") {
        Ok(CssCursorKeyword::Auto)
    } else if eq_ignore_ascii_case(ident, "default") {
        Ok(CssCursorKeyword::Default)
    } else if eq_ignore_ascii_case(ident, "none") {
        Ok(CssCursorKeyword::NoneKeyword)
    } else if eq_ignore_ascii_case(ident, "context-menu") {
        Ok(CssCursorKeyword::ContextMenu)
    } else if eq_ignore_ascii_case(ident, "help") {
        Ok(CssCursorKeyword::Help)
    } else if eq_ignore_ascii_case(ident, "pointer") {
        Ok(CssCursorKeyword::Pointer)
    } else if eq_ignore_ascii_case(ident, "progress") {
        Ok(CssCursorKeyword::Progress)
    } else if eq_ignore_ascii_case(ident, "wait") {
        Ok(CssCursorKeyword::Wait)
    } else if eq_ignore_ascii_case(ident, "cell") {
        Ok(CssCursorKeyword::Cell)
    } else if eq_ignore_ascii_case(ident, "crosshair") {
        Ok(CssCursorKeyword::Crosshair)
    } else if eq_ignore_ascii_case(ident, "text") {
        Ok(CssCursorKeyword::Text)
    } else if eq_ignore_ascii_case(ident, "vertical-text") {
        Ok(CssCursorKeyword::VerticalText)
    } else if eq_ignore_ascii_case(ident, "alias") {
        Ok(CssCursorKeyword::Alias)
    } else if eq_ignore_ascii_case(ident, "copy") {
        Ok(CssCursorKeyword::Copy)
    } else if eq_ignore_ascii_case(ident, "move") {
        Ok(CssCursorKeyword::Move)
    } else if eq_ignore_ascii_case(ident, "no-drop") {
        Ok(CssCursorKeyword::NoDrop)
    } else if eq_ignore_ascii_case(ident, "not-allowed") {
        Ok(CssCursorKeyword::NotAllowed)
    } else if eq_ignore_ascii_case(ident, "grab") {
        Ok(CssCursorKeyword::Grab)
    } else if eq_ignore_ascii_case(ident, "grabbing") {
        Ok(CssCursorKeyword::Grabbing)
    } else if eq_ignore_ascii_case(ident, "all-scroll") {
        Ok(CssCursorKeyword::AllScroll)
    } else if eq_ignore_ascii_case(ident, "col-resize") {
        Ok(CssCursorKeyword::ColResize)
    } else if eq_ignore_ascii_case(ident, "row-resize") {
        Ok(CssCursorKeyword::RowResize)
    } else if eq_ignore_ascii_case(ident, "n-resize") {
        Ok(CssCursorKeyword::NResize)
    } else if eq_ignore_ascii_case(ident, "e-resize") {
        Ok(CssCursorKeyword::EResize)
    } else if eq_ignore_ascii_case(ident, "s-resize") {
        Ok(CssCursorKeyword::SResize)
    } else if eq_ignore_ascii_case(ident, "w-resize") {
        Ok(CssCursorKeyword::WResize)
    } else if eq_ignore_ascii_case(ident, "ne-resize") {
        Ok(CssCursorKeyword::NeResize)
    } else if eq_ignore_ascii_case(ident, "nw-resize") {
        Ok(CssCursorKeyword::NwResize)
    } else if eq_ignore_ascii_case(ident, "se-resize") {
        Ok(CssCursorKeyword::SeResize)
    } else if eq_ignore_ascii_case(ident, "sw-resize") {
        Ok(CssCursorKeyword::SwResize)
    } else if eq_ignore_ascii_case(ident, "ew-resize") {
        Ok(CssCursorKeyword::EwResize)
    } else if eq_ignore_ascii_case(ident, "ns-resize") {
        Ok(CssCursorKeyword::NsResize)
    } else if eq_ignore_ascii_case(ident, "nesw-resize") {
        Ok(CssCursorKeyword::NeswResize)
    } else if eq_ignore_ascii_case(ident, "nwse-resize") {
        Ok(CssCursorKeyword::NwseResize)
    } else if eq_ignore_ascii_case(ident, "zoom-in") {
        Ok(CssCursorKeyword::ZoomIn)
    } else if eq_ignore_ascii_case(ident, "zoom-out") {
        Ok(CssCursorKeyword::ZoomOut)
    } else {
        Err(unsupported_value(location, None, "unsupported cursor keyword"))
    }
}

/// A `pointer-events` keyword.
#[derive(Clone, Copy, Debug, PartialEq, Eq, Hash, Structural)]
pub enum CssPointerEvents {
    /// `auto`.
    Auto,
    /// `none`.
    NoneKeyword,
}

/// The keyword of `CssPointerEvents` an identifier names, ignoring ASCII case.
pub open spec fn pointer_events_keyword_of(ident: Seq<char>) -> Option<CssPointerEvents> {
    if chars_ascii_case_eq(ident, "auto"@) {
        Some(CssPointerEvents::Auto)
    } else if chars_ascii_case_eq(ident, "none"@) {
        Some(CssPointerEvents::NoneKeyword)
    } else {
        None
    }
}

/// Returns the keyword the identifier `ident` names, ignoring ASCII case, or the unsupported-value
/// diagnostic at `location`, the tokenizer location after the identifier.
pub fn parse_pointer_events(ident: &str, location: CssSourceLocation) -> (parsed: Result<CssPointerEvents, CssParseError>)
    ensures
        parsed == keyword_result(pointer_events_keyword_of(ident@), location),
{
    if eq_ignore_ascii_case(ident, "auto") {
        Ok(CssPointerEvents::Auto)
    } else if eq_ignore_ascii_case(ident, "none") {
        Ok(CssPointerEvents::NoneKeyword)
    } else {
        Err(unsupported_value(location, None, "unsupported pointer-events keyword"))
    }
}

/// A `user-select` keyword.
#[derive(Clone, Copy, Debug, PartialEq, Eq, Hash, Structural)]
pub enum CssUserSelect {
    /// `auto`.
    Auto,
    /// `text`.
    Text,
    /// `none`.
    NoneKeyword,
    /// `all`.
    All,
    /// `contain`.
    Contain,
}

/// The keyword of `CssUserSelect` an identifier names, ignoring ASCII case.
pub open spec fn user_select_keyword_of(ident: Seq<char>) -> Option<CssUserSelect> {
    if chars_ascii_case_eq(ident, "auto"@) {
        Some(CssUserSelect::Auto)
    } else if chars_ascii_case_eq(ident, "text"@) {
        Some(CssUserSelect::Text)
    } else if chars_ascii_case_eq(ident, "none"@) {
        Some(CssUserSelect::NoneKeyword)
    } else if chars_ascii_case_eq(ident, "all"@) {
        Some(CssUserSelect::All)
    } else if chars_ascii_case_eq(ident, "contain"@) {
        Some(CssUserSelect::Contain)
    } else {
        None
    }
}

/// Returns the keyword the identifier `ident` names, ignoring ASCII case, or the unsupported-value
/// diagnostic at `location`, the tokenizer location after the identifier.
pub fn parse_user_select(ident: &str, location: CssSourceLocation) -> (parsed: Result<CssUserSelect, CssParseError>)
    ensures
        parsed == keyword_result(user_select_keyword_of(ident@), location),
{
    if eq_ignore_ascii_case(ident, "auto") {
        Ok(CssUserSelect::Auto)
    } else if eq_ignore_ascii_case(ident, "text") {
        Ok(CssUserSelect::Text)
    } else if eq_ignore_ascii_case(ident, "none") {
        Ok(CssUserSelect::NoneKeyword)
    } else if eq_ignore_ascii_case(ident, "all") {
        Ok(CssUserSelect::All)
    } else if eq_ignore_ascii_case(ident, "contain") {
        Ok(CssUserSelect::Contain)
    } else {
        Err(unsupported_value(location, None, "unsupported user-select keyword"))
    }
}

/// A `box-decoration-break` keyword.
#[derive(Clone, Copy, Debug, PartialEq, Eq, Hash, Structural)]
pub enum CssBoxDecorationBreak {
    /// `slice`.
    Slice,
    /// `clone`.
    Clone,
}

/// The keyword of `CssBoxDecorationBreak` an identifier names, ignoring ASCII case.
pub open spec fn box_decoration_break_keyword_of(ident: Seq<char>) -> Option<CssBoxDecorationBreak> {
    if chars_ascii_case_eq(ident, "slice"@) {
        Some(CssBoxDecorationBreak::Slice)
    } else if chars_ascii_case_eq(ident, "clone"@) {
        Some(CssBoxDecorationBreak::Clone)
    } else {
        None
    }
}

/// Returns the keyword the identifier `ident` names, ignoring ASCII case, or the unsupported-value
/// diagnostic at `location`, the tokenizer location after the identifier.
pub fn parse_box_decoration_break(ident: &str, location: CssSourceLocation) -> (parsed: Result<CssBoxDecorationBreak, CssParseError>)
    ensures
        parsed == keyword_result(box_decoration_break_keyword_of(ident@), location),
{
    if eq_ignore_ascii_case(ident, "slice") {
        Ok(CssBoxDecorationBreak::Slice)
    } else if eq_ignore_ascii_case(ident, "clone") {
        Ok(CssBoxDecorationBreak::Clone)
    } else {
        Err(unsupported_value(location, None, "unsupported box-decoration-break keyword"))
    }
}

/// A `border-style` keyword.
#[derive(Clone, Copy, Debug, PartialEq, Eq, Hash, Structural)]
pub enum CssBorderStyle {
    /// `none`.
    NoneKeyword,
    /// `hidden`.
    Hidden,
    /// `dotted`.
    Dotted,
    /// `dashed`.
    Dashed,
    /// `solid`.
    Solid,
    /// `double`.
    Double,
    /// `groove`.
    Groove,
    /// `ridge`.
    Ridge,
    /// `inset`.
    Inset,
    /// `outset`.
    Outset,
}

/// The keyword of `CssBorderStyle` an identifier names, ignoring ASCII case.
pub open spec fn border_style_keyword_of(ident: Seq<char>) -> Option<CssBorderStyle> {
    if chars_ascii_case_eq(ident, "none"@) {
        Some(CssBorderStyle::NoneKeyword)
    } else if chars_ascii_case_eq(ident, "hidden"@) {
        Some(CssBorderStyle::Hidden)
    } else if chars_ascii_case_eq(ident, "dotted"@) {
        Some(CssBorderStyle::Dotted)
    } else if chars_ascii_case_eq(ident, "dashed"@) {
        Some(CssBorderStyle::Dashed)
    } else if chars_ascii_case_eq(ident, "solid"@) {
        Some(CssBorderStyle::Solid)
    } else if chars_ascii_case_eq(ident, "double"@) {
        Some(CssBorderStyle::Double)
    } else if chars_ascii_case_eq(ident, "groove"@) {
        Some(CssBorderStyle::Groove)
    } else if chars_ascii_case_eq(ident, "ridge"@) {
        Some(CssBorderStyle::Ridge)
    } else if chars_ascii_case_eq(ident, "inset"@) {
        Some(CssBorderStyle::Inset)
    } else if chars_ascii_case_eq(ident, "outset"@) {
        Some(CssBorderStyle::Outset)
    } else {
        None
    }
}

/// Returns the keyword the identifier `ident` names, ignoring ASCII case, or the unsupported-value
/// diagnostic at `location`, the tokenizer location after the identifier.
pub fn parse_border_style(ident: &str, location: CssSourceLocation) -> (parsed: Result<CssBorderStyle, CssParseError>)
    ensures
        parsed == keyword_result(border_style_keyword_of(ident@), location),
{
    if eq_ignore_ascii_case(ident, "none") {
        Ok(CssBorderStyle::NoneKeyword)
    } else if eq_ignore_ascii_case(ident, "hidden") {
        Ok(CssBorderStyle::Hidden)
    } else if eq_ignore_ascii_case(ident, "dotted") {
        Ok(CssBorderStyle::Dotted)
    } else if eq_ignore_ascii_case(ident, "dashed") {
        Ok(CssBorderStyle::Dashed)
    } else if eq_ignore_ascii_case(ident, "solid") {
        Ok(CssBorderStyle::Solid)
    } else if eq_ignore_ascii_case(ident, "double") {
        Ok(CssBorderStyle::Double)
    } else if eq_ignore_ascii_case(ident, "groove") {
        Ok(CssBorderStyle::Groove)
    } else if eq_ignore_ascii_case(ident, "ridge") {
        Ok(CssBorderStyle::Ridge)
    } else if eq_ignore_ascii_case(ident, "inset") {
        Ok(CssBorderStyle::Inset)
    } else if eq_ignore_ascii_case(ident, "outset") {
        Ok(CssBorderStyle::Outset)
    } else {
        Err(unsupported_value(location, None, "unsupported border-style keyword"))
    }
}

/// A `list-style-position` keyword.
#[derive(Clone, Copy, Debug, PartialEq, Eq, Hash, Structural)]
pub enum CssListStylePosition {
    /// `inside`.
    Inside,
    /// `outside`.
    Outside,
}

/// The keyword of `CssListStylePosition` an identifier names, ignoring ASCII case.
pub open spec fn list_style_position_keyword_of(ident: Seq<char>) -> Option<CssListStylePosition> {
    if chars_ascii_case_eq(ident, "inside"@) {
        Some(CssListStylePosition::Inside)
    } else if chars_ascii_case_eq(ident, "outside"@) {
        Some(CssListStylePosition::Outside)
    } else {
        None
    }
}

/// Returns the keyword the identifier `ident` names, ignoring ASCII case, or the unsupported-value
/// diagnostic at `location`, the tokenizer location after the identifier.
pub fn parse_list_style_position(ident: &str, location: CssSourceLocation) -> (parsed: Result<CssListStylePosition, CssParseError>)
    ensures
        parsed == keyword_result(list_style_position_keyword_of(ident@), location),
{
    if eq_ignore_ascii_case(ident, "inside") {
        Ok(CssListStylePosition::Inside)
    } else if eq_ignore_ascii_case(ident, "outside") {
        Ok(CssListStylePosition::Outside)
    } else {
        Err(unsupported_value(location, None, "unsupported list-style-position keyword"))
    }
}

/// The axis keyword of `grid-auto-flow`.
#[derive(Clone, Copy, Debug, PartialEq, Eq, Hash, Structural)]
pub enum CssGridAutoFlowAxis {
    /// `row`.
    Row,
    /// `column`.
    Column,
}

/// The keyword of `CssGridAutoFlowAxis` an identifier names, ignoring ASCII case.
pub open spec fn grid_auto_flow_axis_keyword_of(ident: Seq<char>) -> Option<CssGridAutoFlowAxis> {
    if chars_ascii_case_eq(ident, "row"@) {
        Some(CssGridAutoFlowAxis::Row)
    } else if chars_ascii_case_eq(ident, "column"@) {
        Some(CssGridAutoFlowAxis::Column)
    } else {
        None
    }
}

/// Returns the keyword the identifier `ident` names, ignoring ASCII case, or the unsupported-value
/// diagnostic at `location`, the tokenizer location after the identifier.
pub fn parse_grid_auto_flow_axis(ident: &str, location: CssSourceLocation) -> (parsed: Result<CssGridAutoFlowAxis, CssParseError>)
    ensures
        parsed == keyword_result(grid_auto_flow_axis_keyword_of(ident@), location),
{
    if eq_ignore_ascii_case(ident, "row") {
        Ok(CssGridAutoFlowAxis::Row)
    } else if eq_ignore_ascii_case(ident, "column") {
        Ok(CssGridAutoFlowAxis::Column)
    } else {
        Err(unsupported_value(location, None, "unsupported grid-auto-flow keyword"))
    }
}

/// A `display` keyword of the strict subset.
#[derive(Clone, Copy, Debug, PartialEq, Eq, Hash, Structural)]
pub enum CssDisplay {
    /// `block`.
    Block,
    /// `flex`.
    Flex,
    /// `grid`.
    Grid,
    /// `inline-block`.
    InlineBlock,
    /// `inline-grid`.
    InlineGrid,
    /// `grid-lanes`.
    GridLanes,
    /// `inline-grid-lanes`.
    InlineGridLanes,
    /// `none`.
    NoneKeyword,
}

/// The keyword of `CssDisplay` an identifier names, ignoring ASCII case.
pub open spec fn display_keyword_of(ident: Seq<char>) -> Option<CssDisplay> {
    if chars_ascii_case_eq(ident, "block"@) {
        Some(CssDisplay::Block)
    } else if chars_ascii_case_eq(ident, "flex"@) {
        Some(CssDisplay::Flex)
    } else if chars_ascii_case_eq(ident, "grid"@) {
        Some(CssDisplay::Grid)
    } else if chars_ascii_case_eq(ident, "inline-block"@) {
        Some(CssDisplay::InlineBlock)
    } else if chars_ascii_case_eq(ident, "inline-grid"@) {
        Some(CssDisplay::InlineGrid)
    } else if chars_ascii_case_eq(ident, "grid-lanes"@) {
        Some(CssDisplay::GridLanes)
    } else if chars_ascii_case_eq(ident, "inline-grid-lanes"@) {
        Some(CssDisplay::InlineGridLanes)
    } else if chars_ascii_case_eq(ident, "none"@) {
        Some(CssDisplay::NoneKeyword)
    } else {
        None
    }
}

/// Returns the keyword the identifier `ident` names, ignoring ASCII case, or the unsupported-value
/// diagnostic at `location`, the tokenizer location after the identifier.
pub fn parse_display(ident: &str, location: CssSourceLocation) -> (parsed: Result<CssDisplay, CssParseError>)
    ensures
        parsed == keyword_result(display_keyword_of(ident@), location),
{
    if eq_ignore_ascii_case(ident, "block") {
        Ok(CssDisplay::Block)
    } else if eq_ignore_ascii_case(ident, "flex") {
        Ok(CssDisplay::Flex)
    } else if eq_ignore_ascii_case(ident, "grid") {
        Ok(CssDisplay::Grid)
    } else if eq_ignore_ascii_case(ident, "inline-block") {
        Ok(CssDisplay::InlineBlock)
    } else if eq_ignore_ascii_case(ident, "inline-grid") {
        Ok(CssDisplay::InlineGrid)
    } else if eq_ignore_ascii_case(ident, "grid-lanes") {
        Ok(CssDisplay::GridLanes)
    } else if eq_ignore_ascii_case(ident, "inline-grid-lanes") {
        Ok(CssDisplay::InlineGridLanes)
    } else if eq_ignore_ascii_case(ident, "none") {
        Ok(CssDisplay::NoneKeyword)
    } else {
        Err(unsupported_value(location, None, "unsupported display keyword"))
    }
}

/// A `box-sizing` keyword.
#[derive(Clone, Copy, Debug, PartialEq, Eq, Hash, Structural)]
pub enum CssBoxSizing {
    /// `content-box`.
    ContentBox,
    /// `border-box`.
    BorderBox,
}

/// The keyword of `CssBoxSizing` an identifier names, ignoring ASCII case.
pub open spec fn box_sizing_keyword_of(ident: Seq<char>) -> Option<CssBoxSizing> {
    if chars_ascii_case_eq(ident, "content-box"@) {
        Some(CssBoxSizing::ContentBox)
    } else if chars_ascii_case_eq(ident, "border-box"@) {
        Some(CssBoxSizing::BorderBox)
    } else {
        None
    }
}

/// Returns the keyword the identifier `ident` names, ignoring ASCII case, or the unsupported-value
/// diagnostic at `location`, the tokenizer location after the identifier.
pub fn parse_box_sizing(ident: &str, location: CssSourceLocation) -> (parsed: Result<CssBoxSizing, CssParseError>)
    ensures
        parsed == keyword_result(box_sizing_keyword_of(ident@), location),
{
    if eq_ignore_ascii_case(ident, "content-box") {
        Ok(CssBoxSizing::ContentBox)
    } else if eq_ignore_ascii_case(ident, "border-box") {
        Ok(CssBoxSizing::BorderBox)
    } else {
        Err(unsupported_value(location, None, "unsupported box-sizing keyword"))
    }
}

/// A `position` keyword.
#[derive(Clone, Copy, Debug, PartialEq, Eq, Hash, Structural)]
pub enum CssLayoutPosition {
    /// `static`.
    Static,
    /// `relative`.
    Relative,
    /// `absolute`.
    Absolute,
    /// `fixed`.
    Fixed,
    /// `sticky`.
    Sticky,
}

/// The keyword of `CssLayoutPosition` an identifier names, ignoring ASCII case.
pub open spec fn position_keyword_of(ident: Seq<char>) -> Option<CssLayoutPosition> {
    if chars_ascii_case_eq(ident, "static"@) {
        Some(CssLayoutPosition::Static)
    } else if chars_ascii_case_eq(ident, "relative"@) {
        Some(CssLayoutPosition::Relative)
    } else if chars_ascii_case_eq(ident, "absolute"@) {
        Some(CssLayoutPosition::Absolute)
    } else if chars_ascii_case_eq(ident, "fixed"@) {
        Some(CssLayoutPosition::Fixed)
    } else if chars_ascii_case_eq(ident, "sticky"@) {
        Some(CssLayoutPosition::Sticky)
    } else {
        None
    }
}

/// Returns the keyword the identifier `ident` names, ignoring ASCII case, or the unsupported-value
/// diagnostic at `location`, the tokenizer location after the identifier.
pub fn parse_position(ident: &str, location: CssSourceLocation) -> (parsed: Result<CssLayoutPosition, CssParseError>)
    ensures
        parsed == keyword_result(position_keyword_of(ident@), location),
{
    if eq_ignore_ascii_case(ident, "static") {
        Ok(CssLayoutPosition::Static)
    } else if eq_ignore_ascii_case(ident, "relative") {
        Ok(CssLayoutPosition::Relative)
    } else if eq_ignore_ascii_case(ident, "absolute") {
        Ok(CssLayoutPosition::Absolute)
    } else if eq_ignore_ascii_case(ident, "fixed") {
        Ok(CssLayoutPosition::Fixed)
    } else if eq_ignore_ascii_case(ident, "sticky") {
        Ok(CssLayoutPosition::Sticky)
    } else {
        Err(unsupported_value(location, None, "unsupported position keyword"))
    }
}

/// A `direction` keyword.
#[derive(Clone, Copy, Debug, PartialEq, Eq, Hash, Structural)]
pub enum CssDirection {
    /// `ltr`.
    Ltr,
    /// `rtl`.
    Rtl,
}

/// The keyword of `CssDirection` an identifier names, ignoring ASCII case.
pub open spec fn direction_keyword_of(ident: Seq<char>) -> Option<CssDirection> {
    if chars_ascii_case_eq(ident, "ltr"@) {
        Some(CssDirection::Ltr)
    } else if chars_ascii_case_eq(ident, "rtl"@) {
        Some(CssDirection::Rtl)
    } else {
        None
    }
}

/// Returns the keyword the identifier `ident` names, ignoring ASCII case, or the unsupported-value
/// diagnostic at `location`, the tokenizer location after the identifier.
pub fn parse_direction(ident: &str, location: CssSourceLocation) -> (parsed: Result<CssDirection, CssParseError>)
    ensures
        parsed == keyword_result(direction_keyword_of(ident@), location),
{
    if eq_ignore_ascii_case(ident, "ltr") {
        Ok(CssDirection::Ltr)
    } else if eq_ignore_ascii_case(ident, "rtl") {
        Ok(CssDirection::Rtl)
    } else {
        Err(unsupported_value(location, None, "unsupported direction keyword"))
    }
}

/// An `overflow` keyword.
#[derive(Clone, Copy, Debug, PartialEq, Eq, Hash, Structural)]
pub enum CssOverflow {
    /// `visible`.
    Visible,
    /// `clip`.
    Clip,
    /// `hidden`.
    Hidden,
    /// `scroll`.
    Scroll,
}

/// The keyword of `CssOverflow` an identifier names, ignoring ASCII case.
pub open spec fn overflow_keyword_of(ident: Seq<char>) -> Option<CssOverflow> {
    if chars_ascii_case_eq(ident, "visible"@) {
        Some(CssOverflow::Visible)
    } else if chars_ascii_case_eq(ident, "clip"@) {
        Some(CssOverflow::Clip)
    } else if chars_ascii_case_eq(ident, "hidden"@) {
        Some(CssOverflow::Hidden)
    } else if chars_ascii_case_eq(ident, "scroll"@) {
        Some(CssOverflow::Scroll)
    } else {
        None
    }
}

/// Returns the keyword the identifier `ident` names, ignoring ASCII case, or the unsupported-value
/// diagnostic at `location`, the tokenizer location after the identifier.
pub fn parse_overflow(ident: &str, location: CssSourceLocation) -> (parsed: Result<CssOverflow, CssParseError>)
    ensures
        parsed == keyword_result(overflow_keyword_of(ident@), location),
{
    if eq_ignore_ascii_case(ident, "visible") {
        Ok(CssOverflow::Visible)
    } else if eq_ignore_ascii_case(ident, "clip") {
        Ok(CssOverflow::Clip)
    } else if eq_ignore_ascii_case(ident, "hidden") {
        Ok(CssOverflow::Hidden)
    } else if eq_ignore_ascii_case(ident, "scroll") {
        Ok(CssOverflow::Scroll)
    } else {
        Err(unsupported_value(location, None, "unsupported overflow keyword"))
    }
}

/// A `flex-direction` keyword.
#[derive(Clone, Copy, Debug, PartialEq, Eq, Hash, Structural)]
pub enum CssFlexDirection {
    /// `row`.
    Row,
    /// `column`.
    Column,
    /// `row-reverse`.
    RowReverse,
    /// `column-reverse`.
    ColumnReverse,
}

/// The keyword of `CssFlexDirection` an identifier names, ignoring ASCII case.
pub open spec fn flex_direction_keyword_of(ident: Seq<char>) -> Option<CssFlexDirection> {
    if chars_ascii_case_eq(ident, "row"@) {
        Some(CssFlexDirection::Row)
    } else if chars_ascii_case_eq(ident, "column"@) {
        Some(CssFlexDirection::Column)
    } else if chars_ascii_case_eq(ident, "row-reverse"@) {
        Some(CssFlexDirection::RowReverse)
    } else if chars_ascii_case_eq(ident, "column-reverse"@) {
        Some(CssFlexDirection::ColumnReverse)
    } else {
        None
    }
}

/// Returns the keyword the identifier `ident` names, ignoring ASCII case, or the unsupported-value
/// diagnostic at `location`, the tokenizer location after the identifier.
pub fn parse_flex_direction(ident: &str, location: CssSourceLocation) -> (parsed: Result<CssFlexDirection, CssParseError>)
    ensures
        parsed == keyword_result(flex_direction_keyword_of(ident@), location),
{
    if eq_ignore_ascii_case(ident, "row") {
        Ok(CssFlexDirection::Row)
    } else if eq_ignore_ascii_case(ident, "column") {
        Ok(CssFlexDirection::Column)
    } else if eq_ignore_ascii_case(ident, "row-reverse") {
        Ok(CssFlexDirection::RowReverse)
    } else if eq_ignore_ascii_case(ident, "column-reverse") {
        Ok(CssFlexDirection::ColumnReverse)
    } else {
        Err(unsupported_value(location, None, "unsupported flex-direction keyword"))
    }
}

/// A `flex-wrap` keyword.
#[derive(Clone, Copy, Debug, PartialEq, Eq, Hash, Structural)]
pub enum CssFlexWrap {
    /// `nowrap`.
    NoWrap,
    /// `wrap`.
    Wrap,
    /// `wrap-reverse`.
    WrapReverse,
}

/// The keyword of `CssFlexWrap` an identifier names, ignoring ASCII case.
pub open spec fn flex_wrap_keyword_of(ident: Seq<char>) -> Option<CssFlexWrap> {
    if chars_ascii_case_eq(ident, "nowrap"@) {
        Some(CssFlexWrap::NoWrap)
    } else if chars_ascii_case_eq(ident, "wrap"@) {
        Some(CssFlexWrap::Wrap)
    } else if chars_ascii_case_eq(ident, "wrap-reverse"@) {
        Some(CssFlexWrap::WrapReverse)
    } else {
        None
    }
}

/// Returns the keyword the identifier `ident` names, ignoring ASCII case, or the unsupported-value
/// diagnostic at `location`, the tokenizer location after the identifier.
pub fn parse_flex_wrap(ident: &str, location: CssSourceLocation) -> (parsed: Result<CssFlexWrap, CssParseError>)
    ensures
        parsed == keyword_result(flex_wrap_keyword_of(ident@), location),
{
    if eq_ignore_ascii_case(ident, "nowrap") {
        Ok(CssFlexWrap::NoWrap)
    } else if eq_ignore_ascii_case(ident, "wrap") {
        Ok(CssFlexWrap::Wrap)
    } else if eq_ignore_ascii_case(ident, "wrap-reverse") {
        Ok(CssFlexWrap::WrapReverse)
    } else {
        Err(unsupported_value(location, None, "unsupported flex-wrap keyword"))
    }
}

/// A `float` keyword.
#[derive(Clone, Copy, Debug, PartialEq, Eq, Hash, Structural)]
pub enum CssFloat {
    /// `left`.
    Left,
    /// `right`.
    Right,
    /// `none`.
    NoneKeyword,
}

/// The keyword of `CssFloat` an identifier names, ignoring ASCII case.
pub open spec fn float_keyword_of(ident: Seq<char>) -> Option<CssFloat> {
    if chars_ascii_case_eq(ident, "left"@) {
        Some(CssFloat::Left)
    } else if chars_ascii_case_eq(ident, "right"@) {
        Some(CssFloat::Right)
    } else if chars_ascii_case_eq(ident, "none"@) {
        Some(CssFloat::NoneKeyword)
    } else {
        None
    }
}

/// Returns the keyword the identifier `ident` names, ignoring ASCII case, or the unsupported-value
/// diagnostic at `location`, the tokenizer location after the identifier.
pub fn parse_float(ident: &str, location: CssSourceLocation) -> (parsed: Result<CssFloat, CssParseError>)
    ensures
        parsed == keyword_result(float_keyword_of(ident@), location),
{
    if eq_ignore_ascii_case(ident, "left") {
        Ok(CssFloat::Left)
    } else if eq_ignore_ascii_case(ident, "right") {
        Ok(CssFloat::Right)
    } else if eq_ignore_ascii_case(ident, "none") {
        Ok(CssFloat::NoneKeyword)
    } else {
        Err(unsupported_value(location, None, "unsupported float keyword"))
    }
}

/// A `clear` keyword.
#[derive(Clone, Copy, Debug, PartialEq, Eq, Hash, Structural)]
pub enum CssClear {
    /// `left`.
    Left,
    /// `right`.
    Right,
    /// `both`.
    Both,
    /// `none`.
    NoneKeyword,
}

/// The keyword of `CssClear` an identifier names, ignoring ASCII case.
pub open spec fn clear_keyword_of(ident: Seq<char>) -> Option<CssClear> {
    if chars_ascii_case_eq(ident, "left"@) {
        Some(CssClear::Left)
    } else if chars_ascii_case_eq(ident, "right"@) {
        Some(CssClear::Right)
    } else if chars_ascii_case_eq(ident, "both"@) {
        Some(CssClear::Both)
    } else if chars_ascii_case_eq(ident, "none"@) {
        Some(CssClear::NoneKeyword)
    } else {
        None
    }
}

/// Returns the keyword the identifier `ident` names, ignoring ASCII case, or the unsupported-value
/// diagnostic at `location`, the tokenizer location after the identifier.
pub fn parse_clear(ident: &str, location: CssSourceLocation) -> (parsed: Result<CssClear, CssParseError>)
    ensures
        parsed == keyword_result(clear_keyword_of(ident@), location),
{
    if eq_ignore_ascii_case(ident, "left") {
        Ok(CssClear::Left)
    } else if eq_ignore_ascii_case(ident, "right") {
        Ok(CssClear::Right)
    } else if eq_ignore_ascii_case(ident, "both") {
        Ok(CssClear::Both)
    } else if eq_ignore_ascii_case(ident, "none") {
        Ok(CssClear::NoneKeyword)
    } else {
        Err(unsupported_value(location, None, "unsupported clear keyword"))
    }
}

/// A `visibility` keyword.
#[derive(Clone, Copy, Debug, PartialEq, Eq, Hash, Structural)]
pub enum CssVisibility {
    /// `visible`.
    Visible,
    /// `hidden`.
    Hidden,
    /// `collapse`.
    Collapse,
}

/// The keyword of `CssVisibility` an identifier names, ignoring ASCII case.
pub open spec fn visibility_keyword_of(ident: Seq<char>) -> Option<CssVisibility> {
    if chars_ascii_case_eq(ident, "visible"@) {
        Some(CssVisibility::Visible)
    } else if chars_ascii_case_eq(ident, "hidden"@) {
        Some(CssVisibility::Hidden)
    } else if chars_ascii_case_eq(ident, "collapse"@) {
        Some(CssVisibility::Collapse)
    } else {
        None
    }
}

/// Returns the keyword the identifier `ident` names, ignoring ASCII case, or the unsupported-value
/// diagnostic at `location`, the tokenizer location after the identifier.
pub fn parse_visibility(ident: &str, location: CssSourceLocation) -> (parsed: Result<CssVisibility, CssParseError>)
    ensures
        parsed == keyword_result(visibility_keyword_of(ident@), location),
{
    if eq_ignore_ascii_case(ident, "visible") {
        Ok(CssVisibility::Visible)
    } else if eq_ignore_ascii_case(ident, "hidden") {
        Ok(CssVisibility::Hidden)
    } else if eq_ignore_ascii_case(ident, "collapse") {
        Ok(CssVisibility::Collapse)
    } else {
        Err(unsupported_value(location, None, "unsupported visibility keyword"))
    }
}

/// A `content-visibility` keyword.
#[derive(Clone, Copy, Debug, PartialEq, Eq, Hash, Structural)]
pub enum CssContentVisibility {
    /// `visible`.
    Visible,
    /// `hidden`.
    Hidden,
    /// `auto`.
    Auto,
}

/// The keyword of `CssContentVisibility` an identifier names, ignoring ASCII case.
pub open spec fn content_visibility_keyword_of(ident: Seq<char>) -> Option<CssContentVisibility> {
    if chars_ascii_case_eq(ident, "visible"@) {
        Some(CssContentVisibility::Visible)
    } else if chars_ascii_case_eq(ident, "hidden"@) {
        Some(CssContentVisibility::Hidden)
    } else if chars_ascii_case_eq(ident, "auto"@) {
        Some(CssContentVisibility::Auto)
    } else {
        None
    }
}

/// Returns the keyword the identifier `ident` names, ignoring ASCII case, or the unsupported-value
/// diagnostic at `location`, the tokenizer location after the identifier.
pub fn parse_content_visibility(ident: &str, location: CssSourceLocation) -> (parsed: Result<CssContentVisibility, CssParseError>)
    ensures
        parsed == keyword_result(content_visibility_keyword_of(ident@), location),
{
    if eq_ignore_ascii_case(ident, "visible") {
        Ok(CssContentVisibility::Visible)
    } else if eq_ignore_ascii_case(ident, "hidden") {
        Ok(CssContentVisibility::Hidden)
    } else if eq_ignore_ascii_case(ident, "auto") {
        Ok(CssContentVisibility::Auto)
    } else {
        Err(unsupported_value(location, None, "unsupported content-visibility keyword"))
    }
}

/// A one-axis `background-repeat` keyword.
#[derive(Clone, Copy, Debug, PartialEq, Eq, Hash, Structural)]
pub enum CssBackgroundRepeatStyle {
    /// `repeat`.
    Repeat,
    /// `space`.
    Space,
    /// `round`.
    Round,
    /// `no-repeat`.
    NoRepeat,
}

/// The keyword of `CssBackgroundRepeatStyle` an identifier names, ignoring ASCII case.
pub open spec fn background_repeat_style_from_ident_keyword_of(ident: Seq<char>) -> Option<CssBackgroundRepeatStyle> {
    if chars_ascii_case_eq(ident, "repeat"@) {
        Some(CssBackgroundRepeatStyle::Repeat)
    } else if chars_ascii_case_eq(ident, "space"@) {
        Some(CssBackgroundRepeatStyle::Space)
    } else if chars_ascii_case_eq(ident, "round"@) {
        Some(CssBackgroundRepeatStyle::Round)
    } else if chars_ascii_case_eq(ident, "no-repeat"@) {
        Some(CssBackgroundRepeatStyle::NoRepeat)
    } else {
        None
    }
}

/// Returns the keyword the identifier `ident` names, ignoring ASCII case, or the unsupported-value
/// diagnostic at `location`, the tokenizer location after the identifier.
pub fn parse_background_repeat_style_from_ident(ident: &str, location: CssSourceLocation) -> (parsed: Result<CssBackgroundRepeatStyle, CssParseError>)
    ensures
        parsed == keyword_result(background_repeat_style_from_ident_keyword_of(ident@), location),
{
    if eq_ignore_ascii_case(ident, "repeat") {
        Ok(CssBackgroundRepeatStyle::Repeat)
    } else if eq_ignore_ascii_case(ident, "space") {
        Ok(CssBackgroundRepeatStyle::Space)
    } else if eq_ignore_ascii_case(ident, "round") {
        Ok(CssBackgroundRepeatStyle::Round)
    } else if eq_ignore_ascii_case(ident, "no-repeat") {
        Ok(CssBackgroundRepeatStyle::NoRepeat)
    } else {
        Err(unsupported_value(location, None, "unsupported background-repeat keyword"))
    }
}

/// A `font-display` descriptor keyword.
#[derive(Clone, Copy, Debug, PartialEq, Eq, Hash, Structural)]
pub enum CssFontDisplay {
    /// `auto`.
    Auto,
    /// `block`.
    Block,
    /// `swap`.
    Swap,
    /// `fallback`.
    Fallback,
    /// `optional`.
    Optional,
}

/// The keyword of `CssFontDisplay` an identifier names, ignoring ASCII case.
pub open spec fn font_display_keyword_of(ident: Seq<char>) -> Option<CssFontDisplay> {
    if chars_ascii_case_eq(ident, "auto"@) {
        Some(CssFontDisplay::Auto)
    } else if chars_ascii_case_eq(ident, "block"@) {
        Some(CssFontDisplay::Block)
    } else if chars_ascii_case_eq(ident, "swap"@) {
        Some(CssFontDisplay::Swap)
    } else if chars_ascii_case_eq(ident, "fallback"@) {
        Some(CssFontDisplay::Fallback)
    } else if chars_ascii_case_eq(ident, "optional"@) {
        Some(CssFontDisplay::Optional)
    } else {
        None
    }
}

/// Returns the keyword the identifier `ident` names, ignoring ASCII case, or the unsupported-value
/// diagnostic at `location`, the tokenizer location where the identifier starts.
pub fn parse_font_display(ident: &str, location: CssSourceLocation) -> (parsed: Result<CssFontDisplay, CssParseError>)
    ensures
        parsed == keyword_result(font_display_keyword_of(ident@), location),
{
    if eq_ignore_ascii_case(ident, "auto") {
        Ok(CssFontDisplay::Auto)
    } else if eq_ignore_ascii_case(ident, "block") {
        Ok(CssFontDisplay::Block)
    } else if eq_ignore_ascii_case(ident, "swap") {
        Ok(CssFontDisplay::Swap)
    } else if eq_ignore_ascii_case(ident, "fallback") {
        Ok(CssFontDisplay::Fallback)
    } else if eq_ignore_ascii_case(ident, "optional") {
        Ok(CssFontDisplay::Optional)
    } else {
        Err(unsupported_value(location, None, "unsupported font-display keyword"))
    }
}

/// The ending shape of a radial gradient.
#[derive(Clone, Copy, Debug, PartialEq, Eq, Hash, Structural)]
pub enum CssRadialShape {
    /// `circle`.
    Circle,
    /// `ellipse`.
    Ellipse,
}

/// The keyword of `CssRadialShape` an identifier names, ignoring ASCII case.
pub open spec fn radial_shape_keyword_of(ident: Seq<char>) -> Option<CssRadialShape> {
    if chars_ascii_case_eq(ident, "circle"@) {
        Some(CssRadialShape::Circle)
    } else if chars_ascii_case_eq(ident, "ellipse"@) {
        Some(CssRadialShape::Ellipse)
    } else {
        None
    }
}

/// Returns the keyword the identifier `ident` names, ignoring ASCII case, or the unsupported-value
/// diagnostic at `location`, the tokenizer location where the identifier starts.
pub fn parse_radial_shape(ident: &str, location: CssSourceLocation) -> (parsed: Result<CssRadialShape, CssParseError>)
    ensures
        parsed == keyword_result(radial_shape_keyword_of(ident@), location),
{
    if eq_ignore_ascii_case(ident, "circle") {
        Ok(CssRadialShape::Circle)
    } else if eq_ignore_ascii_case(ident, "ellipse") {
        Ok(CssRadialShape::Ellipse)
    } else {
        Err(unsupported_value(location, None, "unsupported radial-gradient shape keyword"))
    }
}

/// The extent keyword of a radial gradient.
#[derive(Clone, Copy, Debug, PartialEq, Eq, Hash, Structural)]
pub enum CssRadialExtent {
    /// `closest-side`.
    ClosestSide,
    /// `farthest-side`.
    FarthestSide,
    /// `closest-corner`.
    ClosestCorner,
    /// `farthest-corner`.
    FarthestCorner,
}

/// The keyword of `CssRadialExtent` an identifier names, ignoring ASCII case.
pub open spec fn radial_extent_keyword_of(ident: Seq<char>) -> Option<CssRadialExtent> {
    if chars_ascii_case_eq(ident, "closest-side"@) {
        Some(CssRadialExtent::ClosestSide)
    } else if chars_ascii_case_eq(ident, "farthest-side"@) {
        Some(CssRadialExtent::FarthestSide)
    } else if chars_ascii_case_eq(ident, "closest-corner"@) {
        Some(CssRadialExtent::ClosestCorner)
    } else if chars_ascii_case_eq(ident, "farthest-corner"@) {
        Some(CssRadialExtent::FarthestCorner)
    } else {
        None
    }
}

/// Returns the keyword the identifier `ident` names, ignoring ASCII case, or the unsupported-value
/// diagnostic at `location`, the tokenizer location where the identifier starts.
pub fn parse_radial_extent(ident: &str, location: CssSourceLocation) -> (parsed: Result<CssRadialExtent, CssParseError>)
    ensures
        parsed == keyword_result(radial_extent_keyword_of(ident@), location),
{
    if eq_ignore_ascii_case(ident, "closest-side") {
        Ok(CssRadialExtent::ClosestSide)
    } else if eq_ignore_ascii_case(ident, "farthest-side") {
        Ok(CssRadialExtent::FarthestSide)
    } else if eq_ignore_ascii_case(ident, "closest-corner") {
        Ok(CssRadialExtent::ClosestCorner)
    } else if eq_ignore_ascii_case(ident, "farthest-corner") {
        Ok(CssRadialExtent::FarthestCorner)
    } else {
        Err(unsupported_value(location, None, "unsupported radial-gradient extent keyword"))
    }
}

/// A `column-fill` keyword.
#[derive(Clone, Copy, Debug, PartialEq, Eq, Hash, Structural)]
pub enum CssColumnFill {
    /// `auto`.
    Auto,
    /// `balance`.
    Balance,
    /// `balance-all`.
    BalanceAll,
}

/// The keyword of `CssColumnFill` an identifier names, ignoring ASCII case.
pub open spec fn column_fill_keyword_of(ident: Seq<char>) -> Option<CssColumnFill> {
    if chars_ascii_case_eq(ident, "auto"@) {
        Some(CssColumnFill::Auto)
    } else if chars_ascii_case_eq(ident, "balance"@) {
        Some(CssColumnFill::Balance)
    } else if chars_ascii_case_eq(ident, "balance-all"@) {
        Some(CssColumnFill::BalanceAll)
    } else {
        None
    }
}

/// Returns the keyword the identifier `ident` names, ignoring ASCII case, or the unsupported-value
/// diagnostic at `location`, the tokenizer location where the identifier starts.
pub fn parse_column_fill(ident: &str, location: CssSourceLocation) -> (parsed: Result<CssColumnFill, CssParseError>)
    ensures
        parsed == keyword_result(column_fill_keyword_of(ident@), location),
{
    if eq_ignore_ascii_case(ident, "auto") {
        Ok(CssColumnFill::Auto)
    } else if eq_ignore_ascii_case(ident, "balance") {
        Ok(CssColumnFill::Balance)
    } else if eq_ignore_ascii_case(ident, "balance-all") {
        Ok(CssColumnFill::BalanceAll)
    } else {
        Err(unsupported_value(location, None, "unsupported column-fill keyword"))
    }
}

/// A column-rule line style keyword.
#[derive(Clone, Copy, Debug, PartialEq, Eq, Hash, Structural)]
pub enum CssLineStyle {
    /// `none`.
    NoneKeyword,
    /// `hidden`.
    Hidden,
    /// `dotted`.
    Dotted,
    /// `dashed`.
    Dashed,
    /// `solid`.
    Solid,
    /// `double`.
    Double,
    /// `groove`.
    Groove,
    /// `ridge`.
    Ridge,
    /// `inset`.
    Inset,
    /// `outset`.
    Outset,
}

/// The keyword of `CssLineStyle` an identifier names, ignoring ASCII case.
pub open spec fn line_style_keyword_of(ident: Seq<char>) -> Option<CssLineStyle> {
    if chars_ascii_case_eq(ident, "none"@) {
        Some(CssLineStyle::NoneKeyword)
    } else if chars_ascii_case_eq(ident, "hidden"@) {
        Some(CssLineStyle::Hidden)
    } else if chars_ascii_case_eq(ident, "dotted"@) {
        Some(CssLineStyle::Dotted)
    } else if chars_ascii_case_eq(ident, "dashed"@) {
        Some(CssLineStyle::Dashed)
    } else if chars_ascii_case_eq(ident, "solid"@) {
        Some(CssLineStyle::Solid)
    } else if chars_ascii_case_eq(ident, "double"@) {
        Some(CssLineStyle::Double)
    } else if chars_ascii_case_eq(ident, "groove"@) {
        Some(CssLineStyle::Groove)
    } else if chars_ascii_case_eq(ident, "ridge"@) {
        Some(CssLineStyle::Ridge)
    } else if chars_ascii_case_eq(ident, "inset"@) {
        Some(CssLineStyle::Inset)
    } else if chars_ascii_case_eq(ident, "outset"@) {
        Some(CssLineStyle::Outset)
    } else {
        None
    }
}

/// Returns the keyword the identifier `ident` names, ignoring ASCII case, or the unsupported-value
/// diagnostic at `location`, the tokenizer location where the identifier starts.
pub fn parse_line_style(ident: &str, location: CssSourceLocation) -> (parsed: Result<CssLineStyle, CssParseError>)
    ensures
        parsed == keyword_result(line_style_keyword_of(ident@), location),
{
    if eq_ignore_ascii_case(ident, "none") {
        Ok(CssLineStyle::NoneKeyword)
    } else if eq_ignore_ascii_case(ident, "hidden") {
        Ok(CssLineStyle::Hidden)
    } else if eq_ignore_ascii_case(ident, "dotted") {
        Ok(CssLineStyle::Dotted)
    } else if eq_ignore_ascii_case(ident, "dashed") {
        Ok(CssLineStyle::Dashed)
    } else if eq_ignore_ascii_case(ident, "solid") {
        Ok(CssLineStyle::Solid)
    } else if eq_ignore_ascii_case(ident, "double") {
        Ok(CssLineStyle::Double)
    } else if eq_ignore_ascii_case(ident, "groove") {
        Ok(CssLineStyle::Groove)
    } else if eq_ignore_ascii_case(ident, "ridge") {
        Ok(CssLineStyle::Ridge)
    } else if eq_ignore_ascii_case(ident, "inset") {
        Ok(CssLineStyle::Inset)
    } else if eq_ignore_ascii_case(ident, "outset") {
        Ok(CssLineStyle::Outset)
    } else {
        Err(unsupported_value(location, None, "unsupported line-style keyword"))
    }
}

/// A `column-span` keyword.
#[derive(Clone, Copy, Debug, PartialEq, Eq, Hash, Structural)]
pub enum CssColumnSpan {
    /// `none`.
    NoneKeyword,
    /// `all`.
    All,
}

/// The keyword of `CssColumnSpan` an identifier names, ignoring ASCII case.
pub open spec fn column_span_keyword_of(ident: Seq<char>) -> Option<CssColumnSpan> {
    if chars_ascii_case_eq(ident, "none"@) {
        Some(CssColumnSpan::NoneKeyword)
    } else if chars_ascii_case_eq(ident, "all"@) {
        Some(CssColumnSpan::All)
    } else {
        None
    }
}

/// Returns the keyword the identifier `ident` names, ignoring ASCII case, or the unsupported-value
/// diagnostic at `location`, the tokenizer location where the identifier starts.
pub fn parse_column_span(ident: &str, location: CssSourceLocation) -> (parsed: Result<CssColumnSpan, CssParseError>)
    ensures
        parsed == keyword_result(column_span_keyword_of(ident@), location),
{
    if eq_ignore_ascii_case(ident, "none") {
        Ok(CssColumnSpan::NoneKeyword)
    } else if eq_ignore_ascii_case(ident, "all") {
        Ok(CssColumnSpan::All)
    } else {
        Err(unsupported_value(location, None, "unsupported column-span keyword"))
    }
}

} // verus!
