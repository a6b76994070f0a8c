//! The specification source and cited production of each known property.
use vstd::prelude::*;

use crate::properties::CssKnownProperty;

use super::sources::{i_animations1, i_contain2, i_filter1, i_lists3, i_position3, i_sizing3, i_transforms2, i_transitions1, o_backgrounds3, o_box3, o_cascade4, o_color4, o_compositing1, o_contain1, o_css2, o_flexbox1, o_fonts3, o_images3, o_multicol1, o_transforms1, o_ui3, o_writing3, r_grid2, r_scrollbars1, s_align3, s_break3, s_display3, s_masking1, s_text3, s_textdecor3, x_filter2_base, x_grid_tolerance_base, x_overflow3, x_text4, x_textdecor4, x_ui4};
use super::CssSpecificationSource;

verus! {

/// The specification that defines each known property.
#[verifier::opaque]
pub open spec fn spec_property_source(property: CssKnownProperty) -> CssSpecificationSource {
    match property {
        CssKnownProperty::All => o_cascade4(),
        CssKnownProperty::Display
        | CssKnownProperty::BorderCollapse
        | CssKnownProperty::BorderSpacing
        | CssKnownProperty::CaptionSide
        | CssKnownProperty::Clip
        | CssKnownProperty::EmptyCells
        | CssKnownProperty::Orphans
        | CssKnownProperty::PageBreakAfter
        | CssKnownProperty::PageBreakBefore
        | CssKnownProperty::PageBreakInside
        | CssKnownProperty::Quotes
        | CssKnownProperty::TableLayout
        | CssKnownProperty::Widows
        | CssKnownProperty::WordSpacing
        | CssKnownProperty::Position
        | CssKnownProperty::Overflow
        | CssKnownProperty::Float
        | CssKnownProperty::Clear
        | CssKnownProperty::Visibility
        | CssKnownProperty::Content
        | CssKnownProperty::ListStyleType
        | CssKnownProperty::ListStylePosition
        | CssKnownProperty::ListStyleImage
        | CssKnownProperty::ListStyle
        | CssKnownProperty::CounterReset
        | CssKnownProperty::CounterIncrement
        | CssKnownProperty::Width
        | CssKnownProperty::Height
        | CssKnownProperty::MinWidth
        | CssKnownProperty::MinHeight
        | CssKnownProperty::MaxWidth
        | CssKnownProperty::MaxHeight
        | CssKnownProperty::LineHeight
        | CssKnownProperty::TextAlign
        | CssKnownProperty::TextIndent
        | CssKnownProperty::VerticalAlign
        | CssKnownProperty::LetterSpacing
        | CssKnownProperty::WhiteSpace
        | CssKnownProperty::TextDecoration
        | CssKnownProperty::TextTransform
        | CssKnownProperty::Top
        | CssKnownProperty::Right
        | CssKnownProperty::Bottom
        | CssKnownProperty::Left
        | CssKnownProperty::ZIndex => o_css2(),
        CssKnownProperty::BoxSizing
        | CssKnownProperty::CaretColor
        | CssKnownProperty::OutlineOffset
        | CssKnownProperty::Resize
        | CssKnownProperty::TextOverflow
        | CssKnownProperty::Cursor
        | CssKnownProperty::Outline
        | CssKnownProperty::OutlineColor
        | CssKnownProperty::OutlineStyle
        | CssKnownProperty::OutlineWidth => o_ui3(),
        CssKnownProperty::Contain => o_contain1(),
        CssKnownProperty::Direction
        | CssKnownProperty::TextCombineUpright
        | CssKnownProperty::TextOrientation
        | CssKnownProperty::UnicodeBidi
        | CssKnownProperty::WritingMode => o_writing3(),
        CssKnownProperty::ColumnCount
        | CssKnownProperty::ColumnFill
        | CssKnownProperty::ColumnRule
        | CssKnownProperty::ColumnRuleColor
        | CssKnownProperty::ColumnRuleStyle
        | CssKnownProperty::ColumnRuleWidth
        | CssKnownProperty::ColumnSpan
        | CssKnownProperty::ColumnWidth
        | CssKnownProperty::Columns => o_multicol1(),
        CssKnownProperty::FlexDirection
        | CssKnownProperty::FlexFlow
        | CssKnownProperty::FlexWrap
        | CssKnownProperty::AlignContent
        | CssKnownProperty::JustifyContent
        | CssKnownProperty::AlignItems
        | CssKnownProperty::AlignSelf
        | CssKnownProperty::FlexBasis
        | CssKnownProperty::FlexGrow
        | CssKnownProperty::FlexShrink
        | CssKnownProperty::Flex => o_flexbox1(),
        CssKnownProperty::Margin
        | CssKnownProperty::MarginTop
        | CssKnownProperty::MarginRight
        | CssKnownProperty::MarginBottom
        | CssKnownProperty::MarginLeft
        | CssKnownProperty::Padding
        | CssKnownProperty::PaddingTop
        | CssKnownProperty::PaddingRight
        | CssKnownProperty::PaddingBottom
        | CssKnownProperty::PaddingLeft => o_box3(),
        CssKnownProperty::Color
        | CssKnownProperty::Opacity => o_color4(),
        CssKnownProperty::Border
        | CssKnownProperty::BorderTop
        | CssKnownProperty::BorderRight
        | CssKnownProperty::BorderBottom
        | CssKnownProperty::BorderLeft
        | CssKnownProperty::BorderWidth
        | CssKnownProperty::BorderTopWidth
        | CssKnownProperty::BorderRightWidth
        | CssKnownProperty::BorderBottomWidth
        | CssKnownProperty::BorderLeftWidth
        | CssKnownProperty::Background
        | CssKnownProperty::BackgroundColor
        | CssKnownProperty::BorderColor
        | CssKnownProperty::BorderTopColor
        | CssKnownProperty::BorderRightColor
        | CssKnownProperty::BorderBottomColor
        | CssKnownProperty::BorderLeftColor
        | CssKnownProperty::BackgroundImage
        | CssKnownProperty::BackgroundPosition
        | CssKnownProperty::BackgroundSize
        | CssKnownProperty::BackgroundRepeat
        | CssKnownProperty::BackgroundOrigin
        | CssKnownProperty::BackgroundClip
        | CssKnownProperty::BackgroundAttachment
        | CssKnownProperty::BorderImage
        | CssKnownProperty::BorderImageOutset
        | CssKnownProperty::BorderImageRepeat
        | CssKnownProperty::BorderImageSlice
        | CssKnownProperty::BorderImageSource
        | CssKnownProperty::BorderImageWidth
        | CssKnownProperty::BorderStyle
        | CssKnownProperty::BorderTopStyle
        | CssKnownProperty::BorderRightStyle
        | CssKnownProperty::BorderBottomStyle
        | CssKnownProperty::BorderLeftStyle
        | CssKnownProperty::BorderRadius
        | CssKnownProperty::BorderTopLeftRadius
        | CssKnownProperty::BorderTopRightRadius
        | CssKnownProperty::BorderBottomRightRadius
        | CssKnownProperty::BorderBottomLeftRadius
        | CssKnownProperty::BoxShadow => o_backgrounds3(),
        CssKnownProperty::ImageOrientation
        | CssKnownProperty::ImageRendering
        | CssKnownProperty::ObjectFit
        | CssKnownProperty::ObjectPosition => o_images3(),
        CssKnownProperty::FontSize
        | CssKnownProperty::FontFamily
        | CssKnownProperty::Font
        | CssKnownProperty::FontWeight
        | CssKnownProperty::FontStyle
        | CssKnownProperty::FontStretch
        | CssKnownProperty::FontVariant
        | CssKnownProperty::FontVariantCaps
        | CssKnownProperty::FontVariantEastAsian
        | CssKnownProperty::FontVariantLigatures
        | CssKnownProperty::FontVariantNumeric
        | CssKnownProperty::FontVariantPosition
        | CssKnownProperty::FontFeatureSettings
        | CssKnownProperty::FontKerning
        | CssKnownProperty::FontSizeAdjust
        | CssKnownProperty::FontSynthesis => o_fonts3(),
        CssKnownProperty::OverflowX
        | CssKnownProperty::OverflowY => x_overflow3(),
        CssKnownProperty::JustifyItems
        | CssKnownProperty::JustifySelf
        | CssKnownProperty::PlaceContent
        | CssKnownProperty::PlaceItems
        | CssKnownProperty::PlaceSelf
        | CssKnownProperty::Gap
        | CssKnownProperty::RowGap
        | CssKnownProperty::ColumnGap
        | CssKnownProperty::JustifyTracks
        | CssKnownProperty::AlignTracks => s_align3(),
        CssKnownProperty::ContentVisibility => i_contain2(),
        CssKnownProperty::CounterSet => i_lists3(),
        CssKnownProperty::GridFlowTolerance => x_grid_tolerance_base(),
        CssKnownProperty::GridTemplateRows
        | CssKnownProperty::GridTemplateColumns
        | CssKnownProperty::GridTemplateAreas
        | CssKnownProperty::GridTemplate
        | CssKnownProperty::GridAutoRows
        | CssKnownProperty::GridAutoColumns
        | CssKnownProperty::GridAutoFlow
        | CssKnownProperty::GridRowStart
        | CssKnownProperty::GridRowEnd
        | CssKnownProperty::GridColumnStart
        | CssKnownProperty::GridColumnEnd
        | CssKnownProperty::GridRow
        | CssKnownProperty::GridColumn
        | CssKnownProperty::GridArea
        | CssKnownProperty::Grid => r_grid2(),
        CssKnownProperty::TextAlignLast
        | CssKnownProperty::WordBreak
        | CssKnownProperty::OverflowWrap => s_text3(),
        CssKnownProperty::TextWrap => x_text4(),
        CssKnownProperty::TextDecorationLine
        | CssKnownProperty::TextDecorationColor
        | CssKnownProperty::TextDecorationStyle => s_textdecor3(),
        CssKnownProperty::TextDecorationThickness => x_textdecor4(),
        CssKnownProperty::Inset => i_position3(),
        CssKnownProperty::BoxDecorationBreak => s_break3(),
        CssKnownProperty::Order => s_display3(),
        CssKnownProperty::AspectRatio => i_sizing3(),
        CssKnownProperty::ScrollbarWidth => r_scrollbars1(),
        CssKnownProperty::PointerEvents
        | CssKnownProperty::UserSelect => x_ui4(),
        CssKnownProperty::Transform
        | CssKnownProperty::TransformBox
        | CssKnownProperty::TransformOrigin => o_transforms1(),
        CssKnownProperty::BackgroundBlendMode
        | CssKnownProperty::Isolation
        | CssKnownProperty::MixBlendMode => o_compositing1(),
        CssKnownProperty::Translate
        | CssKnownProperty::Rotate
        | CssKnownProperty::Scale => i_transforms2(),
        CssKnownProperty::Filter => i_filter1(),
        CssKnownProperty::BackdropFilter => x_filter2_base(),
        CssKnownProperty::ClipPath
        | CssKnownProperty::Mask
        | CssKnownProperty::MaskImage
        | CssKnownProperty::MaskSize
        | CssKnownProperty::MaskPosition
        | CssKnownProperty::MaskRepeat => s_masking1(),
        CssKnownProperty::TransitionProperty
        | CssKnownProperty::TransitionDuration
        | CssKnownProperty::TransitionDelay
        | CssKnownProperty::TransitionTimingFunction
        | CssKnownProperty::Transition => i_transitions1(),
        CssKnownProperty::AnimationName
        | CssKnownProperty::AnimationDuration
        | CssKnownProperty::AnimationDelay
        | CssKnownProperty::AnimationTimingFunction
        | CssKnownProperty::AnimationIterationCount
        | CssKnownProperty::AnimationDirection
        | CssKnownProperty::AnimationFillMode
        | CssKnownProperty::AnimationPlayState
        | CssKnownProperty::Animation => i_animations1(),
    }
}

/// Returns the specification that defines `property`; every such source is well formed.
pub(crate) fn property_source(property: CssKnownProperty) -> (source: CssSpecificationSource)
    ensures
        source == spec_property_source(property),
        source.wf(),
{
    proof {
        reveal(spec_property_source);
    }
    match property {
        CssKnownProperty::All => o_cascade4(),
        CssKnownProperty::Display
        | CssKnownProperty::BorderCollapse
        | CssKnownProperty::BorderSpacing
        | CssKnownProperty::CaptionSide
        | CssKnownProperty::Clip
        | CssKnownProperty::EmptyCells
        | CssKnownProperty::Orphans
        | CssKnownProperty::PageBreakAfter
        | CssKnownProperty::PageBreakBefore
        | CssKnownProperty::PageBreakInside
        | CssKnownProperty::Quotes
        | CssKnownProperty::TableLayout
        | CssKnownProperty::Widows
        | CssKnownProperty::WordSpacing
        | CssKnownProperty::Position
        | CssKnownProperty::Overflow
        | CssKnownProperty::Float
        | CssKnownProperty::Clear
        | CssKnownProperty::Visibility
        | CssKnownProperty::Content
        | CssKnownProperty::ListStyleType
        | CssKnownProperty::ListStylePosition
        | CssKnownProperty::ListStyleImage
        | CssKnownProperty::ListStyle
        | CssKnownProperty::CounterReset
        | CssKnownProperty::CounterIncrement
        | CssKnownProperty::Width
        | CssKnownProperty::Height
        | CssKnownProperty::MinWidth
        | CssKnownProperty::MinHeight
        | CssKnownProperty::MaxWidth
        | CssKnownProperty::MaxHeight
        | CssKnownProperty::LineHeight
        | CssKnownProperty::TextAlign
        | CssKnownProperty::TextIndent
        | CssKnownProperty::VerticalAlign
        | CssKnownProperty::LetterSpacing
        | CssKnownProperty::WhiteSpace
        | CssKnownProperty::TextDecoration
        | CssKnownProperty::TextTransform
        | CssKnownProperty::Top
        | CssKnownProperty::Right
        | CssKnownProperty::Bottom
        | CssKnownProperty::Left
        | CssKnownProperty::ZIndex => o_css2(),
        CssKnownProperty::BoxSizing
        | CssKnownProperty::CaretColor
        | CssKnownProperty::OutlineOffset
        | CssKnownProperty::Resize
        | CssKnownProperty::TextOverflow
        | CssKnownProperty::Cursor
        | CssKnownProperty::Outline
        | CssKnownProperty::OutlineColor
        | CssKnownProperty::OutlineStyle
        | CssKnownProperty::OutlineWidth => o_ui3(),
        CssKnownProperty::Contain => o_contain1(),
        CssKnownProperty::Direction
        | CssKnownProperty::TextCombineUpright
        | CssKnownProperty::TextOrientation
        | CssKnownProperty::UnicodeBidi
        | CssKnownProperty::WritingMode => o_writing3(),
        CssKnownProperty::ColumnCount
        | CssKnownProperty::ColumnFill
        | CssKnownProperty::ColumnRule
        | CssKnownProperty::ColumnRuleColor
        | CssKnownProperty::ColumnRuleStyle
        | CssKnownProperty::ColumnRuleWidth
        | CssKnownProperty::ColumnSpan
        | CssKnownProperty::ColumnWidth
        | CssKnownProperty::Columns => o_multicol1(),
        CssKnownProperty::FlexDirection
        | CssKnownProperty::FlexFlow
        | CssKnownProperty::FlexWrap
        | CssKnownProperty::AlignContent
        | CssKnownProperty::JustifyContent
        | CssKnownProperty::AlignItems
        | CssKnownProperty::AlignSelf
        | CssKnownProperty::FlexBasis
        | CssKnownProperty::FlexGrow
        | CssKnownProperty::FlexShrink
        | CssKnownProperty::Flex => o_flexbox1(),
        CssKnownProperty::Margin
        | CssKnownProperty::MarginTop
        | CssKnownProperty::MarginRight
        | CssKnownProperty::MarginBottom
        | CssKnownProperty::MarginLeft
        | CssKnownProperty::Padding
        | CssKnownProperty::PaddingTop
        | CssKnownProperty::PaddingRight
        | CssKnownProperty::PaddingBottom
        | CssKnownProperty::PaddingLeft => o_box3(),
        CssKnownProperty::Color
        | CssKnownProperty::Opacity => o_color4(),
        CssKnownProperty::Border
        | CssKnownProperty::BorderTop
        | CssKnownProperty::BorderRight
        | CssKnownProperty::BorderBottom
        | CssKnownProperty::BorderLeft
        | CssKnownProperty::BorderWidth
        | CssKnownProperty::BorderTopWidth
        | CssKnownProperty::BorderRightWidth
        | CssKnownProperty::BorderBottomWidth
        | CssKnownProperty::BorderLeftWidth
        | CssKnownProperty::Background
        | CssKnownProperty::BackgroundColor
        | CssKnownProperty::BorderColor
        | CssKnownProperty::BorderTopColor
        | CssKnownProperty::BorderRightColor
        | CssKnownProperty::BorderBottomColor
        | CssKnownProperty::BorderLeftColor
        | CssKnownProperty::BackgroundImage
        | CssKnownProperty::BackgroundPosition
        | CssKnownProperty::BackgroundSize
        | CssKnownProperty::BackgroundRepeat
        | CssKnownProperty::BackgroundOrigin
        | CssKnownProperty::BackgroundClip
        | CssKnownProperty::BackgroundAttachment
        | CssKnownProperty::BorderImage
        | CssKnownProperty::BorderImageOutset
        | CssKnownProperty::BorderImageRepeat
        | CssKnownProperty::BorderImageSlice
        | CssKnownProperty::BorderImageSource
        | CssKnownProperty::BorderImageWidth
        | CssKnownProperty::BorderStyle
        | CssKnownProperty::BorderTopStyle
        | CssKnownProperty::BorderRightStyle
        | CssKnownProperty::BorderBottomStyle
        | CssKnownProperty::BorderLeftStyle
        | CssKnownProperty::BorderRadius
        | CssKnownProperty::BorderTopLeftRadius
        | CssKnownProperty::BorderTopRightRadius
        | CssKnownProperty::BorderBottomRightRadius
        | CssKnownProperty::BorderBottomLeftRadius
        | CssKnownProperty::BoxShadow => o_backgrounds3(),
        CssKnownProperty::ImageOrientation
        | CssKnownProperty::ImageRendering
        | CssKnownProperty::ObjectFit
        | CssKnownProperty::ObjectPosition => o_images3(),
        CssKnownProperty::FontSize
        | CssKnownProperty::FontFamily
        | CssKnownProperty::Font
        | CssKnownProperty::FontWeight
        | CssKnownProperty::FontStyle
        | CssKnownProperty::FontStretch
        | CssKnownProperty::FontVariant
        | CssKnownProperty::FontVariantCaps
        | CssKnownProperty::FontVariantEastAsian
        | CssKnownProperty::FontVariantLigatures
        | CssKnownProperty::FontVariantNumeric
        | CssKnownProperty::FontVariantPosition
        | CssKnownProperty::FontFeatureSettings
        | CssKnownProperty::FontKerning
        | CssKnownProperty::FontSizeAdjust
        | CssKnownProperty::FontSynthesis => o_fonts3(),
        CssKnownProperty::OverflowX
        | CssKnownProperty::OverflowY => x_overflow3(),
        CssKnownProperty::JustifyItems
        | CssKnownProperty::JustifySelf
        | CssKnownProperty::PlaceContent
        | CssKnownProperty::PlaceItems
        | CssKnownProperty::PlaceSelf
        | CssKnownProperty::Gap
        | CssKnownProperty::RowGap
        | CssKnownProperty::ColumnGap
        | CssKnownProperty::JustifyTracks
        | CssKnownProperty::AlignTracks => s_align3(),
        CssKnownProperty::ContentVisibility => i_contain2(),
        CssKnownProperty::CounterSet => i_lists3(),
        CssKnownProperty::GridFlowTolerance => x_grid_tolerance_base(),
        CssKnownProperty::GridTemplateRows
        | CssKnownProperty::GridTemplateColumns
        | CssKnownProperty::GridTemplateAreas
        | CssKnownProperty::GridTemplate
        | CssKnownProperty::GridAutoRows
        | CssKnownProperty::GridAutoColumns
        | CssKnownProperty::GridAutoFlow
        | CssKnownProperty::GridRowStart
        | CssKnownProperty::GridRowEnd
        | CssKnownProperty::GridColumnStart
        | CssKnownProperty::GridColumnEnd
        | CssKnownProperty::GridRow
        | CssKnownProperty::GridColumn
        | CssKnownProperty::GridArea
        | CssKnownProperty::Grid => r_grid2(),
        CssKnownProperty::TextAlignLast
        | CssKnownProperty::WordBreak
        | CssKnownProperty::OverflowWrap => s_text3(),
        CssKnownProperty::TextWrap => x_text4(),
        CssKnownProperty::TextDecorationLine
        | CssKnownProperty::TextDecorationColor
        | CssKnownProperty::TextDecorationStyle => s_textdecor3(),
        CssKnownProperty::TextDecorationThickness => x_textdecor4(),
        CssKnownProperty::Inset => i_position3(),
        CssKnownProperty::BoxDecorationBreak => s_break3(),
        CssKnownProperty::Order => s_display3(),
        CssKnownProperty::AspectRatio => i_sizing3(),
        CssKnownProperty::ScrollbarWidth => r_scrollbars1(),
        CssKnownProperty::PointerEvents
        | CssKnownProperty::UserSelect => x_ui4(),
        CssKnownProperty::Transform
        | CssKnownProperty::TransformBox
        | CssKnownProperty::TransformOrigin => o_transforms1(),
        CssKnownProperty::BackgroundBlendMode
        | CssKnownProperty::Isolation
        | CssKnownProperty::MixBlendMode => o_compositing1(),
        CssKnownProperty::Translate
        | CssKnownProperty::Rotate
        | CssKnownProperty::Scale => i_transforms2(),
        CssKnownProperty::Filter => i_filter1(),
        CssKnownProperty::BackdropFilter => x_filter2_base(),
        CssKnownProperty::ClipPath
        | CssKnownProperty::Mask
        | CssKnownProperty::MaskImage
        | CssKnownProperty::MaskSize
        | CssKnownProperty::MaskPosition
        | CssKnownProperty::MaskRepeat => s_masking1(),
        CssKnownProperty::TransitionProperty
        | CssKnownProperty::TransitionDuration
        | CssKnownProperty::TransitionDelay
        | CssKnownProperty::TransitionTimingFunction
        | CssKnownProperty::Transition => i_transitions1(),
        CssKnownProperty::AnimationName
        | CssKnownProperty::AnimationDuration
        | CssKnownProperty::AnimationDelay
        | CssKnownProperty::AnimationTimingFunction
        | CssKnownProperty::AnimationIterationCount
        | CssKnownProperty::AnimationDirection
        | CssKnownProperty::AnimationFillMode
        | CssKnownProperty::AnimationPlayState
        | CssKnownProperty::Animation => i_animations1(),
    }
}

/// Every property cites a well-formed specification source.
pub(crate) broadcast proof fn lemma_property_source_wf(property: CssKnownProperty)
    ensures
        #[trigger] spec_property_source(property).wf(),
{
    reveal(spec_property_source);
}

/// The production cited for `property`: the specification fragment that defines a property
/// whose definition lives in a CSS 2.1 chapter, and `default` otherwise.
#[verifier::opaque]
pub open spec fn spec_property_production(property: CssKnownProperty, default: &'static str) -> &'static str {
    match property {
        CssKnownProperty::BorderCollapse => "tables.html#propdef-border-collapse",
        CssKnownProperty::BorderSpacing => "tables.html#propdef-border-spacing",
        CssKnownProperty::CaptionSide => "tables.html#propdef-caption-side",
        CssKnownProperty::EmptyCells => "tables.html#propdef-empty-cells",
        CssKnownProperty::TableLayout => "tables.html#propdef-table-layout",
        CssKnownProperty::Clip => "visufx.html#propdef-clip",
        CssKnownProperty::Orphans => "page.html#propdef-orphans",
        CssKnownProperty::PageBreakAfter => "page.html#propdef-page-break-after",
        CssKnownProperty::PageBreakBefore => "page.html#propdef-page-break-before",
        CssKnownProperty::PageBreakInside => "page.html#propdef-page-break-inside",
        CssKnownProperty::Widows => "page.html#propdef-widows",
        CssKnownProperty::Quotes => "generate.html#propdef-quotes",
        CssKnownProperty::WordSpacing => "text.html#propdef-word-spacing",
        CssKnownProperty::Display => "visuren.html#propdef-display",
        CssKnownProperty::Position => "visuren.html#propdef-position",
        CssKnownProperty::Float => "visuren.html#propdef-float",
        CssKnownProperty::Clear => "visuren.html#propdef-clear",
        CssKnownProperty::Top => "visuren.html#propdef-top",
        CssKnownProperty::Right => "visuren.html#propdef-right",
        CssKnownProperty::Bottom => "visuren.html#propdef-bottom",
        CssKnownProperty::Left => "visuren.html#propdef-left",
        CssKnownProperty::ZIndex => "visuren.html#propdef-z-index",
        CssKnownProperty::Overflow => "visufx.html#propdef-overflow",
        CssKnownProperty::Visibility => "visufx.html#propdef-visibility",
        CssKnownProperty::Content => "generate.html#propdef-content",
        CssKnownProperty::CounterIncrement => "generate.html#propdef-counter-increment",
        CssKnownProperty::CounterReset => "generate.html#propdef-counter-reset",
        CssKnownProperty::ListStyle => "generate.html#propdef-list-style",
        CssKnownProperty::ListStyleImage => "generate.html#propdef-list-style-image",
        CssKnownProperty::ListStylePosition => "generate.html#propdef-list-style-position",
        CssKnownProperty::ListStyleType => "generate.html#propdef-list-style-type",
        CssKnownProperty::Width => "visudet.html#propdef-width",
        CssKnownProperty::Height => "visudet.html#propdef-height",
        CssKnownProperty::MinWidth => "visudet.html#propdef-min-width",
        CssKnownProperty::MinHeight => "visudet.html#propdef-min-height",
        CssKnownProperty::MaxWidth => "visudet.html#propdef-max-width",
        CssKnownProperty::MaxHeight => "visudet.html#propdef-max-height",
        CssKnownProperty::LineHeight => "visudet.html#propdef-line-height",
        CssKnownProperty::VerticalAlign => "visudet.html#propdef-vertical-align",
        CssKnownProperty::LetterSpacing => "text.html#propdef-letter-spacing",
        CssKnownProperty::TextAlign => "text.html#propdef-text-align",
        CssKnownProperty::TextDecoration => "text.html#propdef-text-decoration",
        CssKnownProperty::TextIndent => "text.html#propdef-text-indent",
        CssKnownProperty::TextTransform => "text.html#propdef-text-transform",
        CssKnownProperty::WhiteSpace => "text.html#propdef-white-space",
        _ => default,
    }
}

/// Returns the production cited for `property`, falling back to `default`.
pub(crate) fn property_production(property: CssKnownProperty, default: &'static str) -> (production: &'static str)
    ensures
        production == spec_property_production(property, default),
{
    proof {
        reveal(spec_property_production);
    }
    match property {
        CssKnownProperty::BorderCollapse => "tables.html#propdef-border-collapse",
        CssKnownProperty::BorderSpacing => "tables.html#propdef-border-spacing",
        CssKnownProperty::CaptionSide => "tables.html#propdef-caption-side",
        CssKnownProperty::EmptyCells => "tables.html#propdef-empty-cells",
        CssKnownProperty::TableLayout => "tables.html#propdef-table-layout",
        CssKnownProperty::Clip => "visufx.html#propdef-clip",
        CssKnownProperty::Orphans => "page.html#propdef-orphans",
        CssKnownProperty::PageBreakAfter => "page.html#propdef-page-break-after",
        CssKnownProperty::PageBreakBefore => "page.html#propdef-page-break-before",
        CssKnownProperty::PageBreakInside => "page.html#propdef-page-break-inside",
        CssKnownProperty::Widows => "page.html#propdef-widows",
        CssKnownProperty::Quotes => "generate.html#propdef-quotes",
        CssKnownProperty::WordSpacing => "text.html#propdef-word-spacing",
        CssKnownProperty::Display => "visuren.html#propdef-display",
        CssKnownProperty::Position => "visuren.html#propdef-position",
        CssKnownProperty::Float => "visuren.html#propdef-float",
        CssKnownProperty::Clear => "visuren.html#propdef-clear",
        CssKnownProperty::Top => "visuren.html#propdef-top",
        CssKnownProperty::Right => "visuren.html#propdef-right",
        CssKnownProperty::Bottom => "visuren.html#propdef-bottom",
        CssKnownProperty::Left => "visuren.html#propdef-left",
        CssKnownProperty::ZIndex => "visuren.html#propdef-z-index",
        CssKnownProperty::Overflow => "visufx.html#propdef-overflow",
        CssKnownProperty::Visibility => "visufx.html#propdef-visibility",
        CssKnownProperty::Content => "generate.html#propdef-content",
        CssKnownProperty::CounterIncrement => "generate.html#propdef-counter-increment",
        CssKnownProperty::CounterReset => "generate.html#propdef-counter-reset",
        CssKnownProperty::ListStyle => "generate.html#propdef-list-style",
        CssKnownProperty::ListStyleImage => "generate.html#propdef-list-style-image",
        CssKnownProperty::ListStylePosition => "generate.html#propdef-list-style-position",
        CssKnownProperty::ListStyleType => "generate.html#propdef-list-style-type",
        CssKnownProperty::Width => "visudet.html#propdef-width",
        CssKnownProperty::Height => "visudet.html#propdef-height",
        CssKnownProperty::MinWidth => "visudet.html#propdef-min-width",
        CssKnownProperty::MinHeight => "visudet.html#propdef-min-height",
        CssKnownProperty::MaxWidth => "visudet.html#propdef-max-width",
        CssKnownProperty::MaxHeight => "visudet.html#propdef-max-height",
        CssKnownProperty::LineHeight => "visudet.html#propdef-line-height",
        CssKnownProperty::VerticalAlign => "visudet.html#propdef-vertical-align",
        CssKnownProperty::LetterSpacing => "text.html#propdef-letter-spacing",
        CssKnownProperty::TextAlign => "text.html#propdef-text-align",
        CssKnownProperty::TextDecoration => "text.html#propdef-text-decoration",
        CssKnownProperty::TextIndent => "text.html#propdef-text-indent",
        CssKnownProperty::TextTransform => "text.html#propdef-text-transform",
        CssKnownProperty::WhiteSpace => "text.html#propdef-white-space",
        _ => default,
    }
}

/// A property whose definition lives in a CSS 2.1 chapter cites that chapter's fragment whatever
/// the fallback is; every other property cites the fallback. The properties of the first kind
/// are exactly those whose specification is CSS 2.1.
pub proof fn lemma_production_follows_css2_source(property: CssKnownProperty, default: &'static str, other: &'static str)
    ensures
        spec_property_source(property) == o_css2() ==> spec_property_production(property, default)
            == spec_property_production(property, other),
        spec_property_source(property) != o_css2() ==> spec_property_production(property, default)
            == default,
{
    reveal(spec_property_source);
    reveal(spec_property_production);
}

} // verus!
