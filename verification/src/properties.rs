//! Known non-custom CSS properties.
use vstd::prelude::*;

verus! {

/// A recognized non-custom authored CSS property.
#[non_exhaustive]
#[derive(Clone, Copy, Debug, PartialEq, Eq, Hash, Structural)]
pub enum CssKnownProperty {
    /// The `all` property.
    All,
    /// The `display` property.
    Display,
    /// The `border-collapse` property.
    BorderCollapse,
    /// The `border-spacing` property.
    BorderSpacing,
    /// The `caption-side` property.
    CaptionSide,
    /// The `clip` property.
    Clip,
    /// The `empty-cells` property.
    EmptyCells,
    /// The `orphans` property.
    Orphans,
    /// The `page-break-after` property.
    PageBreakAfter,
    /// The `page-break-before` property.
    PageBreakBefore,
    /// The `page-break-inside` property.
    PageBreakInside,
    /// The `quotes` property.
    Quotes,
    /// The `table-layout` property.
    TableLayout,
    /// The `widows` property.
    Widows,
    /// The `word-spacing` property.
    WordSpacing,
    /// The `position` property.
    Position,
    /// The `overflow` property.
    Overflow,
    /// The `float` property.
    Float,
    /// The `clear` property.
    Clear,
    /// The `visibility` property.
    Visibility,
    /// The `content` property.
    Content,
    /// The `list-style-type` property.
    ListStyleType,
    /// The `list-style-position` property.
    ListStylePosition,
    /// The `list-style-image` property.
    ListStyleImage,
    /// The `list-style` property.
    ListStyle,
    /// The `counter-reset` property.
    CounterReset,
    /// The `counter-increment` property.
    CounterIncrement,
    /// The `width` property.
    Width,
    /// The `height` property.
    Height,
    /// The `min-width` property.
    MinWidth,
    /// The `min-height` property.
    MinHeight,
    /// The `max-width` property.
    MaxWidth,
    /// The `max-height` property.
    MaxHeight,
    /// The `line-height` property.
    LineHeight,
    /// The `text-align` property.
    TextAlign,
    /// The `text-indent` property.
    TextIndent,
    /// The `vertical-align` property.
    VerticalAlign,
    /// The `letter-spacing` property.
    LetterSpacing,
    /// The `white-space` property.
    WhiteSpace,
    /// The `text-decoration` property.
    TextDecoration,
    /// The `text-transform` property.
    TextTransform,
    /// The `top` property.
    Top,
    /// The `right` property.
    Right,
    /// The `bottom` property.
    Bottom,
    /// The `left` property.
    Left,
    /// The `z-index` property.
    ZIndex,
    /// The `box-sizing` property.
    BoxSizing,
    /// The `caret-color` property.
    CaretColor,
    /// The `outline-offset` property.
    OutlineOffset,
    /// The `resize` property.
    Resize,
    /// The `text-overflow` property.
    TextOverflow,
    /// The `cursor` property.
    Cursor,
    /// The `outline` property.
    Outline,
    /// The `outline-color` property.
    OutlineColor,
    /// The `outline-style` property.
    OutlineStyle,
    /// The `outline-width` property.
    OutlineWidth,
    /// The `contain` property.
    Contain,
    /// The `direction` property.
    Direction,
    /// The `text-combine-upright` property.
    TextCombineUpright,
    /// The `text-orientation` property.
    TextOrientation,
    /// The `unicode-bidi` property.
    UnicodeBidi,
    /// The `writing-mode` property.
    WritingMode,
    /// The `column-count` property.
    ColumnCount,
    /// The `column-fill` property.
    ColumnFill,
    /// The `column-rule` property.
    ColumnRule,
    /// The `column-rule-color` property.
    ColumnRuleColor,
    /// The `column-rule-style` property.
    ColumnRuleStyle,
    /// The `column-rule-width` property.
    ColumnRuleWidth,
    /// The `column-span` property.
    ColumnSpan,
    /// The `column-width` property.
    ColumnWidth,
    /// The `columns` property.
    Columns,
    /// The `flex-direction` property.
    FlexDirection,
    /// The `flex-flow` property.
    FlexFlow,
    /// The `flex-wrap` property.
    FlexWrap,
    /// The `align-content` property.
    AlignContent,
    /// The `justify-content` property.
    JustifyContent,
    /// The `align-items` property.
    AlignItems,
    /// The `align-self` property.
    AlignSelf,
    /// The `flex-basis` property.
    FlexBasis,
    /// The `flex-grow` property.
    FlexGrow,
    /// The `flex-shrink` property.
    FlexShrink,
    /// The `flex` property.
    Flex,
    /// The `margin` property.
    Margin,
    /// The `margin-top` property.
    MarginTop,
    /// The `margin-right` property.
    MarginRight,
    /// The `margin-bottom` property.
    MarginBottom,
    /// The `margin-left` property.
    MarginLeft,
    /// The `padding` property.
    Padding,
    /// The `padding-top` property.
    PaddingTop,
    /// The `padding-right` property.
    PaddingRight,
    /// The `padding-bottom` property.
    PaddingBottom,
    /// The `padding-left` property.
    PaddingLeft,
    /// The `color` property.
    Color,
    /// The `opacity` property.
    Opacity,
    /// The `border` property.
    Border,
    /// The `border-top` property.
    BorderTop,
    /// The `border-right` property.
    BorderRight,
    /// The `border-bottom` property.
    BorderBottom,
    /// The `border-left` property.
    BorderLeft,
    /// The `border-width` property.
    BorderWidth,
    /// The `border-top-width` property.
    BorderTopWidth,
    /// The `border-right-width` property.
    BorderRightWidth,
    /// The `border-bottom-width` property.
    BorderBottomWidth,
    /// The `border-left-width` property.
    BorderLeftWidth,
    /// The `background` property.
    Background,
    /// The `background-color` property.
    BackgroundColor,
    /// The `border-color` property.
    BorderColor,
    /// The `border-top-color` property.
    BorderTopColor,
    /// The `border-right-color` property.
    BorderRightColor,
    /// The `border-bottom-color` property.
    BorderBottomColor,
    /// The `border-left-color` property.
    BorderLeftColor,
    /// The `background-image` property.
    BackgroundImage,
    /// The `background-position` property.
    BackgroundPosition,
    /// The `background-size` property.
    BackgroundSize,
    /// The `background-repeat` property.
    BackgroundRepeat,
    /// The `background-origin` property.
    BackgroundOrigin,
    /// The `background-clip` property.
    BackgroundClip,
    /// The `background-attachment` property.
    BackgroundAttachment,
    /// The `border-image` property.
    BorderImage,
    /// The `border-image-outset` property.
    BorderImageOutset,
    /// The `border-image-repeat` property.
    BorderImageRepeat,
    /// The `border-image-slice` property.
    BorderImageSlice,
    /// The `border-image-source` property.
    BorderImageSource,
    /// The `border-image-width` property.
    BorderImageWidth,
    /// The `border-style` property.
    BorderStyle,
    /// The `border-top-style` property.
    BorderTopStyle,
    /// The `border-right-style` property.
    BorderRightStyle,
    /// The `border-bottom-style` property.
    BorderBottomStyle,
    /// The `border-left-style` property.
    BorderLeftStyle,
    /// The `border-radius` property.
    BorderRadius,
    /// The `border-top-left-radius` property.
    BorderTopLeftRadius,
    /// The `border-top-right-radius` property.
    BorderTopRightRadius,
    /// The `border-bottom-right-radius` property.
    BorderBottomRightRadius,
    /// The `border-bottom-left-radius` property.
    BorderBottomLeftRadius,
    /// The `box-shadow` property.
    BoxShadow,
    /// The `image-orientation` property.
    ImageOrientation,
    /// The `image-rendering` property.
    ImageRendering,
    /// The `object-fit` property.
    ObjectFit,
    /// The `object-position` property.
    ObjectPosition,
    /// The `font-size` property.
    FontSize,
    /// The `font-family` property.
    FontFamily,
    /// The `font` property.
    Font,
    /// The `font-weight` property.
    FontWeight,
    /// The `font-style` property.
    FontStyle,
    /// The `font-stretch` property.
    FontStretch,
    /// The `font-variant` property.
    FontVariant,
    /// The `font-variant-caps` property.
    FontVariantCaps,
    /// The `font-variant-east-asian` property.
    FontVariantEastAsian,
    /// The `font-variant-ligatures` property.
    FontVariantLigatures,
    /// The `font-variant-numeric` property.
    FontVariantNumeric,
    /// The `font-variant-position` property.
    FontVariantPosition,
    /// The `font-feature-settings` property.
    FontFeatureSettings,
    /// The `font-kerning` property.
    FontKerning,
    /// The `font-size-adjust` property.
    FontSizeAdjust,
    /// The `font-synthesis` property.
    FontSynthesis,
    /// The `overflow-x` property.
    OverflowX,
    /// The `overflow-y` property.
    OverflowY,
    /// The `justify-items` property.
    JustifyItems,
    /// The `justify-self` property.
    JustifySelf,
    /// The `place-content` property.
    PlaceContent,
    /// The `place-items` property.
    PlaceItems,
    /// The `place-self` property.
    PlaceSelf,
    /// The `gap` property.
    Gap,
    /// The `row-gap` property.
    RowGap,
    /// The `column-gap` property.
    ColumnGap,
    /// The `justify-tracks` property.
    JustifyTracks,
    /// The `align-tracks` property.
    AlignTracks,
    /// The `content-visibility` property.
    ContentVisibility,
    /// The `counter-set` property.
    CounterSet,
    /// The `grid-flow-tolerance` property.
    GridFlowTolerance,
    /// The `grid-template-rows` property.
    GridTemplateRows,
    /// The `grid-template-columns` property.
    GridTemplateColumns,
    /// The `grid-template-areas` property.
    GridTemplateAreas,
    /// The `grid-template` property.
    GridTemplate,
    /// The `grid-auto-rows` property.
    GridAutoRows,
    /// The `grid-auto-columns` property.
    GridAutoColumns,
    /// The `grid-auto-flow` property.
    GridAutoFlow,
    /// The `grid-row-start` property.
    GridRowStart,
    /// The `grid-row-end` property.
    GridRowEnd,
    /// The `grid-column-start` property.
    GridColumnStart,
    /// The `grid-column-end` property.
    GridColumnEnd,
    /// The `grid-row` property.
    GridRow,
    /// The `grid-column` property.
    GridColumn,
    /// The `grid-area` property.
    GridArea,
    /// The `grid` property.
    Grid,
    /// The `text-align-last` property.
    TextAlignLast,
    /// The `word-break` property.
    WordBreak,
    /// The `overflow-wrap` property.
    OverflowWrap,
    /// The `text-wrap` property.
    TextWrap,
    /// The `text-decoration-line` property.
    TextDecorationLine,
    /// The `text-decoration-color` property.
    TextDecorationColor,
    /// The `text-decoration-style` property.
    TextDecorationStyle,
    /// The `text-decoration-thickness` property.
    TextDecorationThickness,
    /// The `inset` property.
    Inset,
    /// The `box-decoration-break` property.
    BoxDecorationBreak,
    /// The `order` property.
    Order,
    /// The `aspect-ratio` property.
    AspectRatio,
    /// The `scrollbar-width` property.
    ScrollbarWidth,
    /// The `pointer-events` property.
    PointerEvents,
    /// The `user-select` property.
    UserSelect,
    /// The `transform` property.
    Transform,
    /// The `transform-box` property.
    TransformBox,
    /// The `transform-origin` property.
    TransformOrigin,
    /// The `background-blend-mode` property.
    BackgroundBlendMode,
    /// The `isolation` property.
    Isolation,
    /// The `mix-blend-mode` property.
    MixBlendMode,
    /// The `translate` property.
    Translate,
    /// The `rotate` property.
    Rotate,
    /// The `scale` property.
    Scale,
    /// The `filter` property.
    Filter,
    /// The `backdrop-filter` property.
    BackdropFilter,
    /// The `clip-path` property.
    ClipPath,
    /// The `mask` property.
    Mask,
    /// The `mask-image` property.
    MaskImage,
    /// The `mask-size` property.
    MaskSize,
    /// The `mask-position` property.
    MaskPosition,
    /// The `mask-repeat` property.
    MaskRepeat,
    /// The `transition-property` property.
    TransitionProperty,
    /// The `transition-duration` property.
    TransitionDuration,
    /// The `transition-delay` property.
    TransitionDelay,
    /// The `transition-timing-function` property.
    TransitionTimingFunction,
    /// The `transition` property.
    Transition,
    /// The `animation-name` property.
    AnimationName,
    /// The `animation-duration` property.
    AnimationDuration,
    /// The `animation-delay` property.
    AnimationDelay,
    /// The `animation-timing-function` property.
    AnimationTimingFunction,
    /// The `animation-iteration-count` property.
    AnimationIterationCount,
    /// The `animation-direction` property.
    AnimationDirection,
    /// The `animation-fill-mode` property.
    AnimationFillMode,
    /// The `animation-play-state` property.
    AnimationPlayState,
    /// The `animation` property.
    Animation,
}

} // verus!
