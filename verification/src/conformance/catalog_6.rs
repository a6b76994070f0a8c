//! Support-catalog records 301 through 360 in stable inventory order.
use vstd::prelude::*;

use crate::properties::CssKnownProperty;
use crate::error::CssFeatureId;
use super::{texts, push_feature, CssFeatureMetadata};

verus! {

broadcast use super::property_sources::lemma_property_source_wf;

/// The records of this part of the catalog, in stable inventory order.
#[verifier::opaque]
pub open spec fn features() -> Seq<CssFeatureMetadata> {
    seq![
        CssFeatureMetadata::spec_complete_property(
            "official.property.border-image",
            CssKnownProperty::BorderImage,
            "border-image",
            "#propdef-border-image",
            &[],
        ),
        CssFeatureMetadata::spec_complete_property(
            "official.property.border-image-outset",
            CssKnownProperty::BorderImageOutset,
            "border-image-outset",
            "#propdef-border-image-outset",
            &[],
        ),
        CssFeatureMetadata::spec_complete_property(
            "official.property.border-image-repeat",
            CssKnownProperty::BorderImageRepeat,
            "border-image-repeat",
            "#propdef-border-image-repeat",
            &[],
        ),
        CssFeatureMetadata::spec_complete_property(
            "official.property.border-image-slice",
            CssKnownProperty::BorderImageSlice,
            "border-image-slice",
            "#propdef-border-image-slice",
            &[],
        ),
        CssFeatureMetadata::spec_complete_property(
            "official.property.border-image-source",
            CssKnownProperty::BorderImageSource,
            "border-image-source",
            "#propdef-border-image-source",
            &[],
        ),
        CssFeatureMetadata::spec_complete_property(
            "official.property.border-image-width",
            CssKnownProperty::BorderImageWidth,
            "border-image-width",
            "#propdef-border-image-width",
            &[],
        ),
        CssFeatureMetadata::spec_complete_property(
            "baseline.property.color",
            CssKnownProperty::Color,
            "color",
            "#propdef-color",
            &[],
        ),
        CssFeatureMetadata::spec_complete_property(
            "baseline.property.background",
            CssKnownProperty::Background,
            "background",
            "#propdef-background",
            &[],
        ),
        CssFeatureMetadata::spec_complete_property(
            "baseline.property.background-color",
            CssKnownProperty::BackgroundColor,
            "background-color",
            "#propdef-background-color",
            &[],
        ),
        CssFeatureMetadata::spec_complete_property(
            "baseline.property.border-color",
            CssKnownProperty::BorderColor,
            "border-color",
            "#propdef-border-color",
            &[],
        ),
        CssFeatureMetadata::spec_complete_property(
            "baseline.property.border-top-color",
            CssKnownProperty::BorderTopColor,
            "border-top-color",
            "#propdef-border-top-color",
            &[],
        ),
        CssFeatureMetadata::spec_complete_property(
            "baseline.property.border-right-color",
            CssKnownProperty::BorderRightColor,
            "border-right-color",
            "#propdef-border-right-color",
            &[],
        ),
        CssFeatureMetadata::spec_complete_property(
            "baseline.property.border-bottom-color",
            CssKnownProperty::BorderBottomColor,
            "border-bottom-color",
            "#propdef-border-bottom-color",
            &[],
        ),
        CssFeatureMetadata::spec_complete_property(
            "baseline.property.border-left-color",
            CssKnownProperty::BorderLeftColor,
            "border-left-color",
            "#propdef-border-left-color",
            &[],
        ),
        CssFeatureMetadata::spec_complete_property(
            "baseline.property.background-image",
            CssKnownProperty::BackgroundImage,
            "background-image",
            "#propdef-background-image",
            &[],
        ),
        CssFeatureMetadata::spec_complete_property(
            "baseline.property.background-position",
            CssKnownProperty::BackgroundPosition,
            "background-position",
            "#propdef-background-position",
            &[],
        ),
        CssFeatureMetadata::spec_complete_property(
            "official.property.object-position",
            CssKnownProperty::ObjectPosition,
            "object-position",
            "#propdef-object-position",
            &[],
        ),
        CssFeatureMetadata::spec_complete_property(
            "official.property.image-orientation",
            CssKnownProperty::ImageOrientation,
            "image-orientation",
            "#propdef-image-orientation",
            &[],
        ),
        CssFeatureMetadata::spec_complete_property(
            "official.property.image-rendering",
            CssKnownProperty::ImageRendering,
            "image-rendering",
            "#propdef-image-rendering",
            &[],
        ),
        CssFeatureMetadata::spec_complete_property(
            "official.property.object-fit",
            CssKnownProperty::ObjectFit,
            "object-fit",
            "#propdef-object-fit",
            &[],
        ),
        CssFeatureMetadata::spec_complete_property(
            "baseline.property.background-size",
            CssKnownProperty::BackgroundSize,
            "background-size",
            "#propdef-background-size",
            &[],
        ),
        CssFeatureMetadata::spec_complete_property(
            "baseline.property.background-repeat",
            CssKnownProperty::BackgroundRepeat,
            "background-repeat",
            "#propdef-background-repeat",
            &[],
        ),
        CssFeatureMetadata::spec_complete_property(
            "baseline.property.background-origin",
            CssKnownProperty::BackgroundOrigin,
            "background-origin",
            "#propdef-background-origin",
            &[],
        ),
        CssFeatureMetadata::spec_complete_property(
            "baseline.property.background-clip",
            CssKnownProperty::BackgroundClip,
            "background-clip",
            "#propdef-background-clip",
            &[],
        ),
        CssFeatureMetadata::spec_complete_property(
            "baseline.property.background-attachment",
            CssKnownProperty::BackgroundAttachment,
            "background-attachment",
            "#propdef-background-attachment",
            &[],
        ),
        CssFeatureMetadata::spec_complete_property(
            "baseline.property.border-style",
            CssKnownProperty::BorderStyle,
            "border-style",
            "#propdef-border-style",
            &[],
        ),
        CssFeatureMetadata::spec_complete_property(
            "baseline.property.border-top-style",
            CssKnownProperty::BorderTopStyle,
            "border-top-style",
            "#propdef-border-top-style",
            &[],
        ),
        CssFeatureMetadata::spec_complete_property(
            "baseline.property.border-right-style",
            CssKnownProperty::BorderRightStyle,
            "border-right-style",
            "#propdef-border-right-style",
            &[],
        ),
        CssFeatureMetadata::spec_complete_property(
            "baseline.property.border-bottom-style",
            CssKnownProperty::BorderBottomStyle,
            "border-bottom-style",
            "#propdef-border-bottom-style",
            &[],
        ),
        CssFeatureMetadata::spec_complete_property(
            "baseline.property.border-left-style",
            CssKnownProperty::BorderLeftStyle,
            "border-left-style",
            "#propdef-border-left-style",
            &[],
        ),
        CssFeatureMetadata::spec_complete_property(
            "baseline.property.border-radius",
            CssKnownProperty::BorderRadius,
            "border-radius",
            "#propdef-border-radius",
            &[],
        ),
        CssFeatureMetadata::spec_complete_property(
            "baseline.property.border-top-left-radius",
            CssKnownProperty::BorderTopLeftRadius,
            "border-top-left-radius",
            "#propdef-border-top-left-radius",
            &[],
        ),
        CssFeatureMetadata::spec_complete_property(
            "baseline.property.border-top-right-radius",
            CssKnownProperty::BorderTopRightRadius,
            "border-top-right-radius",
            "#propdef-border-top-right-radius",
            &[],
        ),
        CssFeatureMetadata::spec_complete_property(
            "baseline.property.border-bottom-right-radius",
            CssKnownProperty::BorderBottomRightRadius,
            "border-bottom-right-radius",
            "#propdef-border-bottom-right-radius",
            &[],
        ),
        CssFeatureMetadata::spec_complete_property(
            "baseline.property.border-bottom-left-radius",
            CssKnownProperty::BorderBottomLeftRadius,
            "border-bottom-left-radius",
            "#propdef-border-bottom-left-radius",
            &[],
        ),
        CssFeatureMetadata::spec_complete_property(
            "baseline.property.box-shadow",
            CssKnownProperty::BoxShadow,
            "box-shadow",
            "#propdef-box-shadow",
            &[],
        ),
        CssFeatureMetadata::spec_complete_property(
            "baseline.property.opacity",
            CssKnownProperty::Opacity,
            "opacity",
            "#propdef-opacity",
            &[],
        ),
        CssFeatureMetadata::spec_partial_property(
            "baseline.property.flex-grow",
            CssKnownProperty::FlexGrow,
            "flex-grow",
            "#propdef-flex-grow",
            &[],
        ),
        CssFeatureMetadata::spec_partial_property(
            "baseline.property.flex-shrink",
            CssKnownProperty::FlexShrink,
            "flex-shrink",
            "#propdef-flex-shrink",
            &[],
        ),
        CssFeatureMetadata::spec_partial_property(
            "baseline.property.order",
            CssKnownProperty::Order,
            "order",
            "#propdef-order",
            &[],
        ),
        CssFeatureMetadata::spec_partial_property(
            "baseline.property.flex",
            CssKnownProperty::Flex,
            "flex",
            "#propdef-flex",
            &[],
        ),
        CssFeatureMetadata::spec_partial_property(
            "baseline.property.justify-tracks",
            CssKnownProperty::JustifyTracks,
            "justify-tracks",
            "#propdef-justify-tracks",
            &[],
        ),
        CssFeatureMetadata::spec_partial_property(
            "baseline.property.align-tracks",
            CssKnownProperty::AlignTracks,
            "align-tracks",
            "#propdef-align-tracks",
            &[],
        ),
        CssFeatureMetadata::spec_partial_property(
            "baseline.property.aspect-ratio",
            CssKnownProperty::AspectRatio,
            "aspect-ratio",
            "#propdef-aspect-ratio",
            &[],
        ),
        CssFeatureMetadata::spec_partial_property(
            "baseline.property.scrollbar-width",
            CssKnownProperty::ScrollbarWidth,
            "scrollbar-width",
            "#propdef-scrollbar-width",
            &[],
        ),
        CssFeatureMetadata::spec_partial_property(
            "baseline.property.cursor",
            CssKnownProperty::Cursor,
            "cursor",
            "#propdef-cursor",
            &[],
        ),
        CssFeatureMetadata::spec_partial_property(
            "baseline.property.pointer-events",
            CssKnownProperty::PointerEvents,
            "pointer-events",
            "#propdef-pointer-events",
            &[],
        ),
        CssFeatureMetadata::spec_partial_property(
            "baseline.property.user-select",
            CssKnownProperty::UserSelect,
            "user-select",
            "#propdef-user-select",
            &[],
        ),
        CssFeatureMetadata::spec_partial_property(
            "baseline.property.outline",
            CssKnownProperty::Outline,
            "outline",
            "#propdef-outline",
            &[],
        ),
        CssFeatureMetadata::spec_partial_property(
            "baseline.property.outline-color",
            CssKnownProperty::OutlineColor,
            "outline-color",
            "#propdef-outline-color",
            &[],
        ),
        CssFeatureMetadata::spec_partial_property(
            "baseline.property.outline-style",
            CssKnownProperty::OutlineStyle,
            "outline-style",
            "#propdef-outline-style",
            &[],
        ),
        CssFeatureMetadata::spec_partial_property(
            "baseline.property.outline-width",
            CssKnownProperty::OutlineWidth,
            "outline-width",
            "#propdef-outline-width",
            &[],
        ),
        CssFeatureMetadata::spec_complete_property(
            "baseline.property.transform",
            CssKnownProperty::Transform,
            "transform",
            "#propdef-transform",
            &[],
        ),
        CssFeatureMetadata::spec_complete_property(
            "baseline.property.transform-origin",
            CssKnownProperty::TransformOrigin,
            "transform-origin",
            "#propdef-transform-origin",
            &[],
        ),
        CssFeatureMetadata::spec_partial_property(
            "baseline.property.translate",
            CssKnownProperty::Translate,
            "translate",
            "#propdef-translate",
            &[],
        ),
        CssFeatureMetadata::spec_partial_property(
            "baseline.property.rotate",
            CssKnownProperty::Rotate,
            "rotate",
            "#propdef-rotate",
            &[],
        ),
        CssFeatureMetadata::spec_partial_property(
            "baseline.property.scale",
            CssKnownProperty::Scale,
            "scale",
            "#propdef-scale",
            &[],
        ),
        CssFeatureMetadata::spec_complete_property(
            "baseline.property.filter",
            CssKnownProperty::Filter,
            "filter",
            "#propdef-filter",
            &[],
        ),
        CssFeatureMetadata::spec_partial_property_with_boundary(
            "baseline.property.backdrop-filter",
            CssKnownProperty::BackdropFilter,
            "backdrop-filter",
            "#propdef-backdrop-filter",
            &[],
            texts::backdrop_filter_subset(),
            texts::backdrop_filter_remainder(),
        ),
        CssFeatureMetadata::spec_partial_property_with_boundary(
            "baseline.property.clip-path",
            CssKnownProperty::ClipPath,
            "clip-path",
            "#propdef-clip-path",
            &[],
            texts::clip_path_subset(),
            texts::clip_path_remainder(),
        ),
    ]
}

/// Builds the records of this part of the catalog; every record is well formed.
#[verifier::rlimit(40)]
pub(crate) fn feature_records() -> (records: Vec<CssFeatureMetadata>)
    ensures
        records@ == features(),
        forall|i: int| 0 <= i < records@.len() ==> (#[trigger] records@[i]).wf(),
{
    proof {
        reveal(features);
    }
    let mut records = Vec::new();
    push_feature(&mut records, CssFeatureMetadata::complete_property(
        "official.property.border-image",
        CssKnownProperty::BorderImage,
        "border-image",
        "#propdef-border-image",
        &[],
    ));
    push_feature(&mut records, CssFeatureMetadata::complete_property(
        "official.property.border-image-outset",
        CssKnownProperty::BorderImageOutset,
        "border-image-outset",
        "#propdef-border-image-outset",
        &[],
    ));
    push_feature(&mut records, CssFeatureMetadata::complete_property(
        "official.property.border-image-repeat",
        CssKnownProperty::BorderImageRepeat,
        "border-image-repeat",
        "#propdef-border-image-repeat",
        &[],
    ));
    push_feature(&mut records, CssFeatureMetadata::complete_property(
        "official.property.border-image-slice",
        CssKnownProperty::BorderImageSlice,
        "border-image-slice",
        "#propdef-border-image-slice",
        &[],
    ));
    push_feature(&mut records, CssFeatureMetadata::complete_property(
        "official.property.border-image-source",
        CssKnownProperty::BorderImageSource,
        "border-image-source",
        "#propdef-border-image-source",
        &[],
    ));
    push_feature(&mut records, CssFeatureMetadata::complete_property(
        "official.property.border-image-width",
        CssKnownProperty::BorderImageWidth,
        "border-image-width",
        "#propdef-border-image-width",
        &[],
    ));
    push_feature(&mut records, CssFeatureMetadata::complete_property(
        "baseline.property.color",
        CssKnownProperty::Color,
        "color",
        "#propdef-color",
        &[],
    ));
    push_feature(&mut records, CssFeatureMetadata::complete_property(
        "baseline.property.background",
        CssKnownProperty::Background,
        "background",
        "#propdef-background",
        &[],
    ));
    push_feature(&mut records, CssFeatureMetadata::complete_property(
        "baseline.property.background-color",
        CssKnownProperty::BackgroundColor,
        "background-color",
        "#propdef-background-color",
        &[],
    ));
    push_feature(&mut records, CssFeatureMetadata::complete_property(
        "baseline.property.border-color",
        CssKnownProperty::BorderColor,
        "border-color",
        "#propdef-border-color",
        &[],
    ));
    push_feature(&mut records, CssFeatureMetadata::complete_property(
        "baseline.property.border-top-color",
        CssKnownProperty::BorderTopColor,
        "border-top-color",
        "#propdef-border-top-color",
        &[],
    ));
    push_feature(&mut records, CssFeatureMetadata::complete_property(
        "baseline.property.border-right-color",
        CssKnownProperty::BorderRightColor,
        "border-right-color",
        "#propdef-border-right-color",
        &[],
    ));
    push_feature(&mut records, CssFeatureMetadata::complete_property(
        "baseline.property.border-bottom-color",
        CssKnownProperty::BorderBottomColor,
        "border-bottom-color",
        "#propdef-border-bottom-color",
        &[],
    ));
    push_feature(&mut records, CssFeatureMetadata::complete_property(
        "baseline.property.border-left-color",
        CssKnownProperty::BorderLeftColor,
        "border-left-color",
        "#propdef-border-left-color",
        &[],
    ));
    push_feature(&mut records, CssFeatureMetadata::complete_property(
        "baseline.property.background-image",
        CssKnownProperty::BackgroundImage,
        "background-image",
        "#propdef-background-image",
        &[],
    ));
    push_feature(&mut records, CssFeatureMetadata::complete_property(
        "baseline.property.background-position",
        CssKnownProperty::BackgroundPosition,
        "background-position",
        "#propdef-background-position",
        &[],
    ));
    push_feature(&mut records, CssFeatureMetadata::complete_property(
        "official.property.object-position",
        CssKnownProperty::ObjectPosition,
        "object-position",
        "#propdef-object-position",
        &[],
    ));
    push_feature(&mut records, CssFeatureMetadata::complete_property(
        "official.property.image-orientation",
        CssKnownProperty::ImageOrientation,
        "image-orientation",
        "#propdef-image-orientation",
        &[],
    ));
    push_feature(&mut records, CssFeatureMetadata::complete_property(
        "official.property.image-rendering",
        CssKnownProperty::ImageRendering,
        "image-rendering",
        "#propdef-image-rendering",
        &[],
    ));
    push_feature(&mut records, CssFeatureMetadata::complete_property(
        "official.property.object-fit",
        CssKnownProperty::ObjectFit,
        "object-fit",
        "#propdef-object-fit",
        &[],
    ));
    push_feature(&mut records, CssFeatureMetadata::complete_property(
        "baseline.property.background-size",
        CssKnownProperty::BackgroundSize,
        "background-size",
        "#propdef-background-size",
        &[],
    ));
    push_feature(&mut records, CssFeatureMetadata::complete_property(
        "baseline.property.background-repeat",
        CssKnownProperty::BackgroundRepeat,
        "background-repeat",
        "#propdef-background-repeat",
        &[],
    ));
    push_feature(&mut records, CssFeatureMetadata::complete_property(
        "baseline.property.background-origin",
        CssKnownProperty::BackgroundOrigin,
        "background-origin",
        "#propdef-background-origin",
        &[],
    ));
    push_feature(&mut records, CssFeatureMetadata::complete_property(
        "baseline.property.background-clip",
        CssKnownProperty::BackgroundClip,
        "background-clip",
        "#propdef-background-clip",
        &[],
    ));
    push_feature(&mut records, CssFeatureMetadata::complete_property(
        "baseline.property.background-attachment",
        CssKnownProperty::BackgroundAttachment,
        "background-attachment",
        "#propdef-background-attachment",
        &[],
    ));
    push_feature(&mut records, CssFeatureMetadata::complete_property(
        "baseline.property.border-style",
        CssKnownProperty::BorderStyle,
        "border-style",
        "#propdef-border-style",
        &[],
    ));
    push_feature(&mut records, CssFeatureMetadata::complete_property(
        "baseline.property.border-top-style",
        CssKnownProperty::BorderTopStyle,
        "border-top-style",
        "#propdef-border-top-style",
        &[],
    ));
    push_feature(&mut records, CssFeatureMetadata::complete_property(
        "baseline.property.border-right-style",
        CssKnownProperty::BorderRightStyle,
        "border-right-style",
        "#propdef-border-right-style",
        &[],
    ));
    push_feature(&mut records, CssFeatureMetadata::complete_property(
        "baseline.property.border-bottom-style",
        CssKnownProperty::BorderBottomStyle,
        "border-bottom-style",
        "#propdef-border-bottom-style",
        &[],
    ));
    push_feature(&mut records, CssFeatureMetadata::complete_property(
        "baseline.property.border-left-style",
        CssKnownProperty::BorderLeftStyle,
        "border-left-style",
        "#propdef-border-left-style",
        &[],
    ));
    push_feature(&mut records, CssFeatureMetadata::complete_property(
        "baseline.property.border-radius",
        CssKnownProperty::BorderRadius,
        "border-radius",
        "#propdef-border-radius",
        &[],
    ));
    push_feature(&mut records, CssFeatureMetadata::complete_property(
        "baseline.property.border-top-left-radius",
        CssKnownProperty::BorderTopLeftRadius,
        "border-top-left-radius",
        "#propdef-border-top-left-radius",
        &[],
    ));
    push_feature(&mut records, CssFeatureMetadata::complete_property(
        "baseline.property.border-top-right-radius",
        CssKnownProperty::BorderTopRightRadius,
        "border-top-right-radius",
        "#propdef-border-top-right-radius",
        &[],
    ));
    push_feature(&mut records, CssFeatureMetadata::complete_property(
        "baseline.property.border-bottom-right-radius",
        CssKnownProperty::BorderBottomRightRadius,
        "border-bottom-right-radius",
        "#propdef-border-bottom-right-radius",
        &[],
    ));
    push_feature(&mut records, CssFeatureMetadata::complete_property(
        "baseline.property.border-bottom-left-radius",
        CssKnownProperty::BorderBottomLeftRadius,
        "border-bottom-left-radius",
        "#propdef-border-bottom-left-radius",
        &[],
    ));
    push_feature(&mut records, CssFeatureMetadata::complete_property(
        "baseline.property.box-shadow",
        CssKnownProperty::BoxShadow,
        "box-shadow",
        "#propdef-box-shadow",
        &[],
    ));
    push_feature(&mut records, CssFeatureMetadata::complete_property(
        "baseline.property.opacity",
        CssKnownProperty::Opacity,
        "opacity",
        "#propdef-opacity",
        &[],
    ));
    push_feature(&mut records, CssFeatureMetadata::partial_property(
        "baseline.property.flex-grow",
        CssKnownProperty::FlexGrow,
        "flex-grow",
        "#propdef-flex-grow",
        &[],
    ));
    push_feature(&mut records, CssFeatureMetadata::partial_property(
        "baseline.property.flex-shrink",
        CssKnownProperty::FlexShrink,
        "flex-shrink",
        "#propdef-flex-shrink",
        &[],
    ));
    push_feature(&mut records, CssFeatureMetadata::partial_property(
        "baseline.property.order",
        CssKnownProperty::Order,
        "order",
        "#propdef-order",
        &[],
    ));
    push_feature(&mut records, CssFeatureMetadata::partial_property(
        "baseline.property.flex",
        CssKnownProperty::Flex,
        "flex",
        "#propdef-flex",
        &[],
    ));
    push_feature(&mut records, CssFeatureMetadata::partial_property(
        "baseline.property.justify-tracks",
        CssKnownProperty::JustifyTracks,
        "justify-tracks",
        "#propdef-justify-tracks",
        &[],
    ));
    push_feature(&mut records, CssFeatureMetadata::partial_property(
        "baseline.property.align-tracks",
        CssKnownProperty::AlignTracks,
        "align-tracks",
        "#propdef-align-tracks",
        &[],
    ));
    push_feature(&mut records, CssFeatureMetadata::partial_property(
        "baseline.property.aspect-ratio",
        CssKnownProperty::AspectRatio,
        "aspect-ratio",
        "#propdef-aspect-ratio",
        &[],
    ));
    push_feature(&mut records, CssFeatureMetadata::partial_property(
        "baseline.property.scrollbar-width",
        CssKnownProperty::ScrollbarWidth,
        "scrollbar-width",
        "#propdef-scrollbar-width",
        &[],
    ));
    push_feature(&mut records, CssFeatureMetadata::partial_property(
        "baseline.property.cursor",
        CssKnownProperty::Cursor,
        "cursor",
        "#propdef-cursor",
        &[],
    ));
    push_feature(&mut records, CssFeatureMetadata::partial_property(
        "baseline.property.pointer-events",
        CssKnownProperty::PointerEvents,
        "pointer-events",
        "#propdef-pointer-events",
        &[],
    ));
    push_feature(&mut records, CssFeatureMetadata::partial_property(
        "baseline.property.user-select",
        CssKnownProperty::UserSelect,
        "user-select",
        "#propdef-user-select",
        &[],
    ));
    push_feature(&mut records, CssFeatureMetadata::partial_property(
        "baseline.property.outline",
        CssKnownProperty::Outline,
        "outline",
        "#propdef-outline",
        &[],
    ));
    push_feature(&mut records, CssFeatureMetadata::partial_property(
        "baseline.property.outline-color",
        CssKnownProperty::OutlineColor,
        "outline-color",
        "#propdef-outline-color",
        &[],
    ));
    push_feature(&mut records, CssFeatureMetadata::partial_property(
        "baseline.property.outline-style",
        CssKnownProperty::OutlineStyle,
        "outline-style",
        "#propdef-outline-style",
        &[],
    ));
    push_feature(&mut records, CssFeatureMetadata::partial_property(
        "baseline.property.outline-width",
        CssKnownProperty::OutlineWidth,
        "outline-width",
        "#propdef-outline-width",
        &[],
    ));
    push_feature(&mut records, CssFeatureMetadata::complete_property(
        "baseline.property.transform",
        CssKnownProperty::Transform,
        "transform",
        "#propdef-transform",
        &[],
    ));
    push_feature(&mut records, CssFeatureMetadata::complete_property(
        "baseline.property.transform-origin",
        CssKnownProperty::TransformOrigin,
        "transform-origin",
        "#propdef-transform-origin",
        &[],
    ));
    push_feature(&mut records, CssFeatureMetadata::partial_property(
        "baseline.property.translate",
        CssKnownProperty::Translate,
        "translate",
        "#propdef-translate",
        &[],
    ));
    push_feature(&mut records, CssFeatureMetadata::partial_property(
        "baseline.property.rotate",
        CssKnownProperty::Rotate,
        "rotate",
        "#propdef-rotate",
        &[],
    ));
    push_feature(&mut records, CssFeatureMetadata::partial_property(
        "baseline.property.scale",
        CssKnownProperty::Scale,
        "scale",
        "#propdef-scale",
        &[],
    ));
    push_feature(&mut records, CssFeatureMetadata::complete_property(
        "baseline.property.filter",
        CssKnownProperty::Filter,
        "filter",
        "#propdef-filter",
        &[],
    ));
    push_feature(&mut records, CssFeatureMetadata::partial_property_with_boundary(
        "baseline.property.backdrop-filter",
        CssKnownProperty::BackdropFilter,
        "backdrop-filter",
        "#propdef-backdrop-filter",
        &[],
        texts::backdrop_filter_subset(),
        texts::backdrop_filter_remainder(),
    ));
    push_feature(&mut records, CssFeatureMetadata::partial_property_with_boundary(
        "baseline.property.clip-path",
        CssKnownProperty::ClipPath,
        "clip-path",
        "#propdef-clip-path",
        &[],
        texts::clip_path_subset(),
        texts::clip_path_remainder(),
    ));
    records
}

/// This part of the catalog holds 60 records.
pub proof fn lemma_features_len()
    ensures
        features().len() == 60,
{
    reveal(features);
}

/// The alias records of this part, the atomic targets they name, and the identities of the
/// records those targets name; every other record has no targets.
#[verifier::rlimit(100)]
pub proof fn lemma_alias_facts()
    ensures
        forall|i: int| 0 <= i < features().len() ==> #[trigger] features()[i].spec_baseline_alias_targets().len() == 0,
{
    broadcast use {
        CssFeatureMetadata::lemma_complete_parts,
        CssFeatureMetadata::lemma_partial_parts,
        CssFeatureMetadata::lemma_baseline_alias_parts,
        CssFeatureMetadata::lemma_recognized_unsupported_parts,
        CssFeatureMetadata::lemma_partial_property_parts,
        CssFeatureMetadata::lemma_complete_property_parts,
        CssFeatureMetadata::lemma_partial_property_with_boundary_parts,
    };

    reveal(features);
    assert(features()[0].spec_baseline_alias_targets().len() == 0);
    assert(features()[1].spec_baseline_alias_targets().len() == 0);
    assert(features()[2].spec_baseline_alias_targets().len() == 0);
    assert(features()[3].spec_baseline_alias_targets().len() == 0);
    assert(features()[4].spec_baseline_alias_targets().len() == 0);
    assert(features()[5].spec_baseline_alias_targets().len() == 0);
    assert(features()[6].spec_baseline_alias_targets().len() == 0);
    assert(features()[7].spec_baseline_alias_targets().len() == 0);
    assert(features()[8].spec_baseline_alias_targets().len() == 0);
    assert(features()[9].spec_baseline_alias_targets().len() == 0);
    assert(features()[10].spec_baseline_alias_targets().len() == 0);
    assert(features()[11].spec_baseline_alias_targets().len() == 0);
    assert(features()[12].spec_baseline_alias_targets().len() == 0);
    assert(features()[13].spec_baseline_alias_targets().len() == 0);
    assert(features()[14].spec_baseline_alias_targets().len() == 0);
    assert(features()[15].spec_baseline_alias_targets().len() == 0);
    assert(features()[16].spec_baseline_alias_targets().len() == 0);
    assert(features()[17].spec_baseline_alias_targets().len() == 0);
    assert(features()[18].spec_baseline_alias_targets().len() == 0);
    assert(features()[19].spec_baseline_alias_targets().len() == 0);
    assert(features()[20].spec_baseline_alias_targets().len() == 0);
    assert(features()[21].spec_baseline_alias_targets().len() == 0);
    assert(features()[22].spec_baseline_alias_targets().len() == 0);
    assert(features()[23].spec_baseline_alias_targets().len() == 0);
    assert(features()[24].spec_baseline_alias_targets().len() == 0);
    assert(features()[25].spec_baseline_alias_targets().len() == 0);
    assert(features()[26].spec_baseline_alias_targets().len() == 0);
    assert(features()[27].spec_baseline_alias_targets().len() == 0);
    assert(features()[28].spec_baseline_alias_targets().len() == 0);
    assert(features()[29].spec_baseline_alias_targets().len() == 0);
    assert(features()[30].spec_baseline_alias_targets().len() == 0);
    assert(features()[31].spec_baseline_alias_targets().len() == 0);
    assert(features()[32].spec_baseline_alias_targets().len() == 0);
    assert(features()[33].spec_baseline_alias_targets().len() == 0);
    assert(features()[34].spec_baseline_alias_targets().len() == 0);
    assert(features()[35].spec_baseline_alias_targets().len() == 0);
    assert(features()[36].spec_baseline_alias_targets().len() == 0);
    assert(features()[37].spec_baseline_alias_targets().len() == 0);
    assert(features()[38].spec_baseline_alias_targets().len() == 0);
    assert(features()[39].spec_baseline_alias_targets().len() == 0);
    assert(features()[40].spec_baseline_alias_targets().len() == 0);
    assert(features()[41].spec_baseline_alias_targets().len() == 0);
    assert(features()[42].spec_baseline_alias_targets().len() == 0);
    assert(features()[43].spec_baseline_alias_targets().len() == 0);
    assert(features()[44].spec_baseline_alias_targets().len() == 0);
    assert(features()[45].spec_baseline_alias_targets().len() == 0);
    assert(features()[46].spec_baseline_alias_targets().len() == 0);
    assert(features()[47].spec_baseline_alias_targets().len() == 0);
    assert(features()[48].spec_baseline_alias_targets().len() == 0);
    assert(features()[49].spec_baseline_alias_targets().len() == 0);
    assert(features()[50].spec_baseline_alias_targets().len() == 0);
    assert(features()[51].spec_baseline_alias_targets().len() == 0);
    assert(features()[52].spec_baseline_alias_targets().len() == 0);
    assert(features()[53].spec_baseline_alias_targets().len() == 0);
    assert(features()[54].spec_baseline_alias_targets().len() == 0);
    assert(features()[55].spec_baseline_alias_targets().len() == 0);
    assert(features()[56].spec_baseline_alias_targets().len() == 0);
    assert(features()[57].spec_baseline_alias_targets().len() == 0);
    assert(features()[58].spec_baseline_alias_targets().len() == 0);
    assert(features()[59].spec_baseline_alias_targets().len() == 0);
}

} // verus!
