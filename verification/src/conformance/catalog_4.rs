//! Support-catalog records 181 through 240 in stable inventory order.
use vstd::prelude::*;

use crate::properties::CssKnownProperty;
use super::sources::{x_contain3};
use crate::error::CssFeatureId;
use super::{texts, push_feature, CssFeatureKind, CssFeatureMetadata};

verus! {

broadcast use super::property_sources::lemma_property_source_wf;

/// The records of this part of the catalog, in stable inventory order.
#[verifier::opaque]
pub open spec fn features() -> Seq<CssFeatureMetadata> {
    seq![
        CssFeatureMetadata::spec_partial(
            "baseline.container.size-feature",
            CssFeatureKind::ContainerQuery,
            "width, height, inline-size, block-size, aspect-ratio, orientation and applicable min-/max- names",
            x_contain3(),
            "#size-container",
            "The exact baseline-recognized container size-feature spelling group is supported.",
            texts::query_remainder(),
        ),
        CssFeatureMetadata::spec_partial_property(
            "baseline.property.all",
            CssKnownProperty::All,
            "all",
            "#propdef-all",
            &[],
        ),
        CssFeatureMetadata::spec_partial_property(
            "baseline.property.display",
            CssKnownProperty::Display,
            "display",
            "#propdef-display",
            &[],
        ),
        CssFeatureMetadata::spec_partial_property(
            "baseline.property.box-sizing",
            CssKnownProperty::BoxSizing,
            "box-sizing",
            "#propdef-box-sizing",
            &[],
        ),
        CssFeatureMetadata::spec_partial_property(
            "baseline.property.position",
            CssKnownProperty::Position,
            "position",
            "#propdef-position",
            &[],
        ),
        CssFeatureMetadata::spec_partial_property(
            "baseline.property.direction",
            CssKnownProperty::Direction,
            "direction",
            "#propdef-direction",
            &[],
        ),
        CssFeatureMetadata::spec_partial_property(
            "baseline.property.overflow",
            CssKnownProperty::Overflow,
            "overflow",
            "#propdef-overflow",
            &[],
        ),
        CssFeatureMetadata::spec_partial_property(
            "baseline.property.overflow-x",
            CssKnownProperty::OverflowX,
            "overflow-x",
            "#propdef-overflow-x",
            &[],
        ),
        CssFeatureMetadata::spec_partial_property(
            "baseline.property.overflow-y",
            CssKnownProperty::OverflowY,
            "overflow-y",
            "#propdef-overflow-y",
            &[],
        ),
        CssFeatureMetadata::spec_partial_property(
            "baseline.property.flex-direction",
            CssKnownProperty::FlexDirection,
            "flex-direction",
            "#propdef-flex-direction",
            &[],
        ),
        CssFeatureMetadata::spec_partial_property(
            "baseline.property.flex-wrap",
            CssKnownProperty::FlexWrap,
            "flex-wrap",
            "#propdef-flex-wrap",
            &[],
        ),
        CssFeatureMetadata::spec_partial_property(
            "baseline.property.float",
            CssKnownProperty::Float,
            "float",
            "#propdef-float",
            &[],
        ),
        CssFeatureMetadata::spec_partial_property(
            "baseline.property.clear",
            CssKnownProperty::Clear,
            "clear",
            "#propdef-clear",
            &[],
        ),
        CssFeatureMetadata::spec_partial_property(
            "baseline.property.align-content",
            CssKnownProperty::AlignContent,
            "align-content",
            "#propdef-align-content",
            &[],
        ),
        CssFeatureMetadata::spec_partial_property(
            "baseline.property.justify-content",
            CssKnownProperty::JustifyContent,
            "justify-content",
            "#propdef-justify-content",
            &[],
        ),
        CssFeatureMetadata::spec_partial_property(
            "baseline.property.align-items",
            CssKnownProperty::AlignItems,
            "align-items",
            "#propdef-align-items",
            &[],
        ),
        CssFeatureMetadata::spec_partial_property(
            "baseline.property.align-self",
            CssKnownProperty::AlignSelf,
            "align-self",
            "#propdef-align-self",
            &[],
        ),
        CssFeatureMetadata::spec_partial_property(
            "baseline.property.justify-items",
            CssKnownProperty::JustifyItems,
            "justify-items",
            "#propdef-justify-items",
            &[],
        ),
        CssFeatureMetadata::spec_partial_property(
            "baseline.property.justify-self",
            CssKnownProperty::JustifySelf,
            "justify-self",
            "#propdef-justify-self",
            &[],
        ),
        CssFeatureMetadata::spec_partial_property(
            "baseline.property.place-content",
            CssKnownProperty::PlaceContent,
            "place-content",
            "#propdef-place-content",
            &[],
        ),
        CssFeatureMetadata::spec_partial_property(
            "baseline.property.place-items",
            CssKnownProperty::PlaceItems,
            "place-items",
            "#propdef-place-items",
            &[],
        ),
        CssFeatureMetadata::spec_partial_property(
            "baseline.property.place-self",
            CssKnownProperty::PlaceSelf,
            "place-self",
            "#propdef-place-self",
            &[],
        ),
        CssFeatureMetadata::spec_partial_property(
            "baseline.property.visibility",
            CssKnownProperty::Visibility,
            "visibility",
            "#propdef-visibility",
            &[],
        ),
        CssFeatureMetadata::spec_partial_property(
            "baseline.property.content",
            CssKnownProperty::Content,
            "content",
            "#propdef-content",
            &[],
        ),
        CssFeatureMetadata::spec_partial_property(
            "baseline.property.content-visibility",
            CssKnownProperty::ContentVisibility,
            "content-visibility",
            "#propdef-content-visibility",
            &[],
        ),
        CssFeatureMetadata::spec_partial_property(
            "baseline.property.list-style-type",
            CssKnownProperty::ListStyleType,
            "list-style-type",
            "#propdef-list-style-type",
            &[],
        ),
        CssFeatureMetadata::spec_partial_property(
            "baseline.property.list-style-position",
            CssKnownProperty::ListStylePosition,
            "list-style-position",
            "#propdef-list-style-position",
            &[],
        ),
        CssFeatureMetadata::spec_partial_property(
            "baseline.property.list-style-image",
            CssKnownProperty::ListStyleImage,
            "list-style-image",
            "#propdef-list-style-image",
            &[],
        ),
        CssFeatureMetadata::spec_partial_property(
            "baseline.property.list-style",
            CssKnownProperty::ListStyle,
            "list-style",
            "#propdef-list-style",
            &[],
        ),
        CssFeatureMetadata::spec_partial_property(
            "baseline.property.counter-reset",
            CssKnownProperty::CounterReset,
            "counter-reset",
            "#propdef-counter-reset",
            &[],
        ),
        CssFeatureMetadata::spec_partial_property(
            "baseline.property.counter-increment",
            CssKnownProperty::CounterIncrement,
            "counter-increment",
            "#propdef-counter-increment",
            &[],
        ),
        CssFeatureMetadata::spec_partial_property(
            "baseline.property.counter-set",
            CssKnownProperty::CounterSet,
            "counter-set",
            "#propdef-counter-set",
            &[],
        ),
        CssFeatureMetadata::spec_partial_property(
            "baseline.property.width",
            CssKnownProperty::Width,
            "width",
            "#propdef-width",
            &[],
        ),
        CssFeatureMetadata::spec_partial_property(
            "baseline.property.height",
            CssKnownProperty::Height,
            "height",
            "#propdef-height",
            &[],
        ),
        CssFeatureMetadata::spec_partial_property(
            "baseline.property.min-width",
            CssKnownProperty::MinWidth,
            "min-width",
            "#propdef-min-width",
            &[],
        ),
        CssFeatureMetadata::spec_partial_property(
            "baseline.property.min-height",
            CssKnownProperty::MinHeight,
            "min-height",
            "#propdef-min-height",
            &[],
        ),
        CssFeatureMetadata::spec_partial_property(
            "baseline.property.max-width",
            CssKnownProperty::MaxWidth,
            "max-width",
            "#propdef-max-width",
            &[],
        ),
        CssFeatureMetadata::spec_partial_property(
            "baseline.property.max-height",
            CssKnownProperty::MaxHeight,
            "max-height",
            "#propdef-max-height",
            &[],
        ),
        CssFeatureMetadata::spec_partial_property(
            "baseline.property.flex-basis",
            CssKnownProperty::FlexBasis,
            "flex-basis",
            "#propdef-flex-basis",
            &[],
        ),
        CssFeatureMetadata::spec_partial_property(
            "baseline.property.gap",
            CssKnownProperty::Gap,
            "gap",
            "#propdef-gap",
            &[],
        ),
        CssFeatureMetadata::spec_partial_property(
            "baseline.property.row-gap",
            CssKnownProperty::RowGap,
            "row-gap",
            "#propdef-row-gap",
            &[],
        ),
        CssFeatureMetadata::spec_partial_property(
            "baseline.property.column-gap",
            CssKnownProperty::ColumnGap,
            "column-gap",
            "#propdef-column-gap",
            &[],
        ),
        CssFeatureMetadata::spec_partial_property(
            "baseline.property.grid-flow-tolerance",
            CssKnownProperty::GridFlowTolerance,
            "grid-flow-tolerance",
            "#propdef-grid-flow-tolerance",
            &[],
        ),
        CssFeatureMetadata::spec_partial_property_with_boundary(
            "baseline.property.grid-template-rows",
            CssKnownProperty::GridTemplateRows,
            "grid-template-rows",
            "#propdef-grid-template-rows",
            &[],
            texts::grid_property_subset(),
            texts::grid_property_remainder(),
        ),
        CssFeatureMetadata::spec_partial_property_with_boundary(
            "baseline.property.grid-template-columns",
            CssKnownProperty::GridTemplateColumns,
            "grid-template-columns",
            "#propdef-grid-template-columns",
            &[],
            texts::grid_property_subset(),
            texts::grid_property_remainder(),
        ),
        CssFeatureMetadata::spec_partial_property(
            "baseline.property.grid-template-areas",
            CssKnownProperty::GridTemplateAreas,
            "grid-template-areas",
            "#propdef-grid-template-areas",
            &[],
        ),
        CssFeatureMetadata::spec_partial_property_with_boundary(
            "baseline.property.grid-template",
            CssKnownProperty::GridTemplate,
            "grid-template",
            "#propdef-grid-template",
            &[],
            texts::grid_property_subset(),
            texts::grid_property_remainder(),
        ),
        CssFeatureMetadata::spec_partial_property_with_boundary(
            "baseline.property.grid-auto-rows",
            CssKnownProperty::GridAutoRows,
            "grid-auto-rows",
            "#propdef-grid-auto-rows",
            &[],
            texts::grid_property_subset(),
            texts::grid_property_remainder(),
        ),
        CssFeatureMetadata::spec_partial_property_with_boundary(
            "baseline.property.grid-auto-columns",
            CssKnownProperty::GridAutoColumns,
            "grid-auto-columns",
            "#propdef-grid-auto-columns",
            &[],
            texts::grid_property_subset(),
            texts::grid_property_remainder(),
        ),
        CssFeatureMetadata::spec_partial_property(
            "baseline.property.grid-auto-flow",
            CssKnownProperty::GridAutoFlow,
            "grid-auto-flow",
            "#propdef-grid-auto-flow",
            &[],
        ),
        CssFeatureMetadata::spec_partial_property(
            "baseline.property.grid-row-start",
            CssKnownProperty::GridRowStart,
            "grid-row-start",
            "#propdef-grid-row-start",
            &[],
        ),
        CssFeatureMetadata::spec_partial_property(
            "baseline.property.grid-row-end",
            CssKnownProperty::GridRowEnd,
            "grid-row-end",
            "#propdef-grid-row-end",
            &[],
        ),
        CssFeatureMetadata::spec_partial_property(
            "baseline.property.grid-column-start",
            CssKnownProperty::GridColumnStart,
            "grid-column-start",
            "#propdef-grid-column-start",
            &[],
        ),
        CssFeatureMetadata::spec_partial_property(
            "baseline.property.grid-column-end",
            CssKnownProperty::GridColumnEnd,
            "grid-column-end",
            "#propdef-grid-column-end",
            &[],
        ),
        CssFeatureMetadata::spec_partial_property(
            "baseline.property.grid-row",
            CssKnownProperty::GridRow,
            "grid-row",
            "#propdef-grid-row",
            &[],
        ),
        CssFeatureMetadata::spec_partial_property(
            "baseline.property.grid-column",
            CssKnownProperty::GridColumn,
            "grid-column",
            "#propdef-grid-column",
            &[],
        ),
        CssFeatureMetadata::spec_partial_property(
            "baseline.property.grid-area",
            CssKnownProperty::GridArea,
            "grid-area",
            "#propdef-grid-area",
            &[],
        ),
        CssFeatureMetadata::spec_partial_property_with_boundary(
            "baseline.property.grid",
            CssKnownProperty::Grid,
            "grid",
            "#propdef-grid",
            &[],
            texts::grid_property_subset(),
            texts::grid_property_remainder(),
        ),
        CssFeatureMetadata::spec_complete_property(
            "baseline.property.font-size",
            CssKnownProperty::FontSize,
            "font-size",
            "#propdef-font-size",
            &[],
        ),
        CssFeatureMetadata::spec_partial_property(
            "baseline.property.line-height",
            CssKnownProperty::LineHeight,
            "line-height",
            "#propdef-line-height",
            &[],
        ),
    ]
}

/// Builds the records of this part of the catalog; every record is well formed.
#[verifier::rlimit(40)]
pub(crate) fn feature_records() -> (records: Vec<CssFeatureMetadata>)
    ensures
        records@ == features(),
        forall|i: int| 0 <= i < records@.len() ==> (#[trigger] records@[i]).wf(),
{
    proof {
        reveal(features);
    }
    let mut records = Vec::new();
    push_feature(&mut records, CssFeatureMetadata::partial(
        "baseline.container.size-feature",
        CssFeatureKind::ContainerQuery,
        "width, height, inline-size, block-size, aspect-ratio, orientation and applicable min-/max- names",
        x_contain3(),
        "#size-container",
        "The exact baseline-recognized container size-feature spelling group is supported.",
        texts::query_remainder(),
    ));
    push_feature(&mut records, CssFeatureMetadata::partial_property(
        "baseline.property.all",
        CssKnownProperty::All,
        "all",
        "#propdef-all",
        &[],
    ));
    push_feature(&mut records, CssFeatureMetadata::partial_property(
        "baseline.property.display",
        CssKnownProperty::Display,
        "display",
        "#propdef-display",
        &[],
    ));
    push_feature(&mut records, CssFeatureMetadata::partial_property(
        "baseline.property.box-sizing",
        CssKnownProperty::BoxSizing,
        "box-sizing",
        "#propdef-box-sizing",
        &[],
    ));
    push_feature(&mut records, CssFeatureMetadata::partial_property(
        "baseline.property.position",
        CssKnownProperty::Position,
        "position",
        "#propdef-position",
        &[],
    ));
    push_feature(&mut records, CssFeatureMetadata::partial_property(
        "baseline.property.direction",
        CssKnownProperty::Direction,
        "direction",
        "#propdef-direction",
        &[],
    ));
    push_feature(&mut records, CssFeatureMetadata::partial_property(
        "baseline.property.overflow",
        CssKnownProperty::Overflow,
        "overflow",
        "#propdef-overflow",
        &[],
    ));
    push_feature(&mut records, CssFeatureMetadata::partial_property(
        "baseline.property.overflow-x",
        CssKnownProperty::OverflowX,
        "overflow-x",
        "#propdef-overflow-x",
        &[],
    ));
    push_feature(&mut records, CssFeatureMetadata::partial_property(
        "baseline.property.overflow-y",
        CssKnownProperty::OverflowY,
        "overflow-y",
        "#propdef-overflow-y",
        &[],
    ));
    push_feature(&mut records, CssFeatureMetadata::partial_property(
        "baseline.property.flex-direction",
        CssKnownProperty::FlexDirection,
        "flex-direction",
        "#propdef-flex-direction",
        &[],
    ));
    push_feature(&mut records, CssFeatureMetadata::partial_property(
        "baseline.property.flex-wrap",
        CssKnownProperty::FlexWrap,
        "flex-wrap",
        "#propdef-flex-wrap",
        &[],
    ));
    push_feature(&mut records, CssFeatureMetadata::partial_property(
        "baseline.property.float",
        CssKnownProperty::Float,
        "float",
        "#propdef-float",
        &[],
    ));
    push_feature(&mut records, CssFeatureMetadata::partial_property(
        "baseline.property.clear",
        CssKnownProperty::Clear,
        "clear",
        "#propdef-clear",
        &[],
    ));
    push_feature(&mut records, CssFeatureMetadata::partial_property(
        "baseline.property.align-content",
        CssKnownProperty::AlignContent,
        "align-content",
        "#propdef-align-content",
        &[],
    ));
    push_feature(&mut records, CssFeatureMetadata::partial_property(
        "baseline.property.justify-content",
        CssKnownProperty::JustifyContent,
        "justify-content",
        "#propdef-justify-content",
        &[],
    ));
    push_feature(&mut records, CssFeatureMetadata::partial_property(
        "baseline.property.align-items",
        CssKnownProperty::AlignItems,
        "align-items",
        "#propdef-align-items",
        &[],
    ));
    push_feature(&mut records, CssFeatureMetadata::partial_property(
        "baseline.property.align-self",
        CssKnownProperty::AlignSelf,
        "align-self",
        "#propdef-align-self",
        &[],
    ));
    push_feature(&mut records, CssFeatureMetadata::partial_property(
        "baseline.property.justify-items",
        CssKnownProperty::JustifyItems,
        "justify-items",
        "#propdef-justify-items",
        &[],
    ));
    push_feature(&mut records, CssFeatureMetadata::partial_property(
        "baseline.property.justify-self",
        CssKnownProperty::JustifySelf,
        "justify-self",
        "#propdef-justify-self",
        &[],
    ));
    push_feature(&mut records, CssFeatureMetadata::partial_property(
        "baseline.property.place-content",
        CssKnownProperty::PlaceContent,
        "place-content",
        "#propdef-place-content",
        &[],
    ));
    push_feature(&mut records, CssFeatureMetadata::partial_property(
        "baseline.property.place-items",
        CssKnownProperty::PlaceItems,
        "place-items",
        "#propdef-place-items",
        &[],
    ));
    push_feature(&mut records, CssFeatureMetadata::partial_property(
        "baseline.property.place-self",
        CssKnownProperty::PlaceSelf,
        "place-self",
        "#propdef-place-self",
        &[],
    ));
    push_feature(&mut records, CssFeatureMetadata::partial_property(
        "baseline.property.visibility",
        CssKnownProperty::Visibility,
        "visibility",
        "#propdef-visibility",
        &[],
    ));
    push_feature(&mut records, CssFeatureMetadata::partial_property(
        "baseline.property.content",
        CssKnownProperty::Content,
        "content",
        "#propdef-content",
        &[],
    ));
    push_feature(&mut records, CssFeatureMetadata::partial_property(
        "baseline.property.content-visibility",
        CssKnownProperty::ContentVisibility,
        "content-visibility",
        "#propdef-content-visibility",
        &[],
    ));
    push_feature(&mut records, CssFeatureMetadata::partial_property(
        "baseline.property.list-style-type",
        CssKnownProperty::ListStyleType,
        "list-style-type",
        "#propdef-list-style-type",
        &[],
    ));
    push_feature(&mut records, CssFeatureMetadata::partial_property(
        "baseline.property.list-style-position",
        CssKnownProperty::ListStylePosition,
        "list-style-position",
        "#propdef-list-style-position",
        &[],
    ));
    push_feature(&mut records, CssFeatureMetadata::partial_property(
        "baseline.property.list-style-image",
        CssKnownProperty::ListStyleImage,
        "list-style-image",
        "#propdef-list-style-image",
        &[],
    ));
    push_feature(&mut records, CssFeatureMetadata::partial_property(
        "baseline.property.list-style",
        CssKnownProperty::ListStyle,
        "list-style",
        "#propdef-list-style",
        &[],
    ));
    push_feature(&mut records, CssFeatureMetadata::partial_property(
        "baseline.property.counter-reset",
        CssKnownProperty::CounterReset,
        "counter-reset",
        "#propdef-counter-reset",
        &[],
    ));
    push_feature(&mut records, CssFeatureMetadata::partial_property(
        "baseline.property.counter-increment",
        CssKnownProperty::CounterIncrement,
        "counter-increment",
        "#propdef-counter-increment",
        &[],
    ));
    push_feature(&mut records, CssFeatureMetadata::partial_property(
        "baseline.property.counter-set",
        CssKnownProperty::CounterSet,
        "counter-set",
        "#propdef-counter-set",
        &[],
    ));
    push_feature(&mut records, CssFeatureMetadata::partial_property(
        "baseline.property.width",
        CssKnownProperty::Width,
        "width",
        "#propdef-width",
        &[],
    ));
    push_feature(&mut records, CssFeatureMetadata::partial_property(
        "baseline.property.height",
        CssKnownProperty::Height,
        "height",
        "#propdef-height",
        &[],
    ));
    push_feature(&mut records, CssFeatureMetadata::partial_property(
        "baseline.property.min-width",
        CssKnownProperty::MinWidth,
        "min-width",
        "#propdef-min-width",
        &[],
    ));
    push_feature(&mut records, CssFeatureMetadata::partial_property(
        "baseline.property.min-height",
        CssKnownProperty::MinHeight,
        "min-height",
        "#propdef-min-height",
        &[],
    ));
    push_feature(&mut records, CssFeatureMetadata::partial_property(
        "baseline.property.max-width",
        CssKnownProperty::MaxWidth,
        "max-width",
        "#propdef-max-width",
        &[],
    ));
    push_feature(&mut records, CssFeatureMetadata::partial_property(
        "baseline.property.max-height",
        CssKnownProperty::MaxHeight,
        "max-height",
        "#propdef-max-height",
        &[],
    ));
    push_feature(&mut records, CssFeatureMetadata::partial_property(
        "baseline.property.flex-basis",
        CssKnownProperty::FlexBasis,
        "flex-basis",
        "#propdef-flex-basis",
        &[],
    ));
    push_feature(&mut records, CssFeatureMetadata::partial_property(
        "baseline.property.gap",
        CssKnownProperty::Gap,
        "gap",
        "#propdef-gap",
        &[],
    ));
    push_feature(&mut records, CssFeatureMetadata::partial_property(
        "baseline.property.row-gap",
        CssKnownProperty::RowGap,
        "row-gap",
        "#propdef-row-gap",
        &[],
    ));
    push_feature(&mut records, CssFeatureMetadata::partial_property(
        "baseline.property.column-gap",
        CssKnownProperty::ColumnGap,
        "column-gap",
        "#propdef-column-gap",
        &[],
    ));
    push_feature(&mut records, CssFeatureMetadata::partial_property(
        "baseline.property.grid-flow-tolerance",
        CssKnownProperty::GridFlowTolerance,
        "grid-flow-tolerance",
        "#propdef-grid-flow-tolerance",
        &[],
    ));
    push_feature(&mut records, CssFeatureMetadata::partial_property_with_boundary(
        "baseline.property.grid-template-rows",
        CssKnownProperty::GridTemplateRows,
        "grid-template-rows",
        "#propdef-grid-template-rows",
        &[],
        texts::grid_property_subset(),
        texts::grid_property_remainder(),
    ));
    push_feature(&mut records, CssFeatureMetadata::partial_property_with_boundary(
        "baseline.property.grid-template-columns",
        CssKnownProperty::GridTemplateColumns,
        "grid-template-columns",
        "#propdef-grid-template-columns",
        &[],
        texts::grid_property_subset(),
        texts::grid_property_remainder(),
    ));
    push_feature(&mut records, CssFeatureMetadata::partial_property(
        "baseline.property.grid-template-areas",
        CssKnownProperty::GridTemplateAreas,
        "grid-template-areas",
        "#propdef-grid-template-areas",
        &[],
    ));
    push_feature(&mut records, CssFeatureMetadata::partial_property_with_boundary(
        "baseline.property.grid-template",
        CssKnownProperty::GridTemplate,
        "grid-template",
        "#propdef-grid-template",
        &[],
        texts::grid_property_subset(),
        texts::grid_property_remainder(),
    ));
    push_feature(&mut records, CssFeatureMetadata::partial_property_with_boundary(
        "baseline.property.grid-auto-rows",
        CssKnownProperty::GridAutoRows,
        "grid-auto-rows",
        "#propdef-grid-auto-rows",
        &[],
        texts::grid_property_subset(),
        texts::grid_property_remainder(),
    ));
    push_feature(&mut records, CssFeatureMetadata::partial_property_with_boundary(
        "baseline.property.grid-auto-columns",
        CssKnownProperty::GridAutoColumns,
        "grid-auto-columns",
        "#propdef-grid-auto-columns",
        &[],
        texts::grid_property_subset(),
        texts::grid_property_remainder(),
    ));
    push_feature(&mut records, CssFeatureMetadata::partial_property(
        "baseline.property.grid-auto-flow",
        CssKnownProperty::GridAutoFlow,
        "grid-auto-flow",
        "#propdef-grid-auto-flow",
        &[],
    ));
    push_feature(&mut records, CssFeatureMetadata::partial_property(
        "baseline.property.grid-row-start",
        CssKnownProperty::GridRowStart,
        "grid-row-start",
        "#propdef-grid-row-start",
        &[],
    ));
    push_feature(&mut records, CssFeatureMetadata::partial_property(
        "baseline.property.grid-row-end",
        CssKnownProperty::GridRowEnd,
        "grid-row-end",
        "#propdef-grid-row-end",
        &[],
    ));
    push_feature(&mut records, CssFeatureMetadata::partial_property(
        "baseline.property.grid-column-start",
        CssKnownProperty::GridColumnStart,
        "grid-column-start",
        "#propdef-grid-column-start",
        &[],
    ));
    push_feature(&mut records, CssFeatureMetadata::partial_property(
        "baseline.property.grid-column-end",
        CssKnownProperty::GridColumnEnd,
        "grid-column-end",
        "#propdef-grid-column-end",
        &[],
    ));
    push_feature(&mut records, CssFeatureMetadata::partial_property(
        "baseline.property.grid-row",
        CssKnownProperty::GridRow,
        "grid-row",
        "#propdef-grid-row",
        &[],
    ));
    push_feature(&mut records, CssFeatureMetadata::partial_property(
        "baseline.property.grid-column",
        CssKnownProperty::GridColumn,
        "grid-column",
        "#propdef-grid-column",
        &[],
    ));
    push_feature(&mut records, CssFeatureMetadata::partial_property(
        "baseline.property.grid-area",
        CssKnownProperty::GridArea,
        "grid-area",
        "#propdef-grid-area",
        &[],
    ));
    push_feature(&mut records, CssFeatureMetadata::partial_property_with_boundary(
        "baseline.property.grid",
        CssKnownProperty::Grid,
        "grid",
        "#propdef-grid",
        &[],
        texts::grid_property_subset(),
        texts::grid_property_remainder(),
    ));
    push_feature(&mut records, CssFeatureMetadata::complete_property(
        "baseline.property.font-size",
        CssKnownProperty::FontSize,
        "font-size",
        "#propdef-font-size",
        &[],
    ));
    push_feature(&mut records, CssFeatureMetadata::partial_property(
        "baseline.property.line-height",
        CssKnownProperty::LineHeight,
        "line-height",
        "#propdef-line-height",
        &[],
    ));
    records
}

/// This part of the catalog holds 60 records.
pub proof fn lemma_features_len()
    ensures
        features().len() == 60,
{
    reveal(features);
}

/// The alias records of this part, the atomic targets they name, and the identities of the
/// records those targets name; every other record has no targets.
#[verifier::rlimit(100)]
pub proof fn lemma_alias_facts()
    ensures
        forall|i: int| 0 <= i < features().len() ==> #[trigger] features()[i].spec_baseline_alias_targets().len() == 0,
{
    broadcast use {
        CssFeatureMetadata::lemma_complete_parts,
        CssFeatureMetadata::lemma_partial_parts,
        CssFeatureMetadata::lemma_baseline_alias_parts,
        CssFeatureMetadata::lemma_recognized_unsupported_parts,
        CssFeatureMetadata::lemma_partial_property_parts,
        CssFeatureMetadata::lemma_complete_property_parts,
        CssFeatureMetadata::lemma_partial_property_with_boundary_parts,
    };

    reveal(features);
    assert(features()[0].spec_baseline_alias_targets().len() == 0);
    assert(features()[1].spec_baseline_alias_targets().len() == 0);
    assert(features()[2].spec_baseline_alias_targets().len() == 0);
    assert(features()[3].spec_baseline_alias_targets().len() == 0);
    assert(features()[4].spec_baseline_alias_targets().len() == 0);
    assert(features()[5].spec_baseline_alias_targets().len() == 0);
    assert(features()[6].spec_baseline_alias_targets().len() == 0);
    assert(features()[7].spec_baseline_alias_targets().len() == 0);
    assert(features()[8].spec_baseline_alias_targets().len() == 0);
    assert(features()[9].spec_baseline_alias_targets().len() == 0);
    assert(features()[10].spec_baseline_alias_targets().len() == 0);
    assert(features()[11].spec_baseline_alias_targets().len() == 0);
    assert(features()[12].spec_baseline_alias_targets().len() == 0);
    assert(features()[13].spec_baseline_alias_targets().len() == 0);
    assert(features()[14].spec_baseline_alias_targets().len() == 0);
    assert(features()[15].spec_baseline_alias_targets().len() == 0);
    assert(features()[16].spec_baseline_alias_targets().len() == 0);
    assert(features()[17].spec_baseline_alias_targets().len() == 0);
    assert(features()[18].spec_baseline_alias_targets().len() == 0);
    assert(features()[19].spec_baseline_alias_targets().len() == 0);
    assert(features()[20].spec_baseline_alias_targets().len() == 0);
    assert(features()[21].spec_baseline_alias_targets().len() == 0);
    assert(features()[22].spec_baseline_alias_targets().len() == 0);
    assert(features()[23].spec_baseline_alias_targets().len() == 0);
    assert(features()[24].spec_baseline_alias_targets().len() == 0);
    assert(features()[25].spec_baseline_alias_targets().len() == 0);
    assert(features()[26].spec_baseline_alias_targets().len() == 0);
    assert(features()[27].spec_baseline_alias_targets().len() == 0);
    assert(features()[28].spec_baseline_alias_targets().len() == 0);
    assert(features()[29].spec_baseline_alias_targets().len() == 0);
    assert(features()[30].spec_baseline_alias_targets().len() == 0);
    assert(features()[31].spec_baseline_alias_targets().len() == 0);
    assert(features()[32].spec_baseline_alias_targets().len() == 0);
    assert(features()[33].spec_baseline_alias_targets().len() == 0);
    assert(features()[34].spec_baseline_alias_targets().len() == 0);
    assert(features()[35].spec_baseline_alias_targets().len() == 0);
    assert(features()[36].spec_baseline_alias_targets().len() == 0);
    assert(features()[37].spec_baseline_alias_targets().len() == 0);
    assert(features()[38].spec_baseline_alias_targets().len() == 0);
    assert(features()[39].spec_baseline_alias_targets().len() == 0);
    assert(features()[40].spec_baseline_alias_targets().len() == 0);
    assert(features()[41].spec_baseline_alias_targets().len() == 0);
    assert(features()[42].spec_baseline_alias_targets().len() == 0);
    assert(features()[43].spec_baseline_alias_targets().len() == 0);
    assert(features()[44].spec_baseline_alias_targets().len() == 0);
    assert(features()[45].spec_baseline_alias_targets().len() == 0);
    assert(features()[46].spec_baseline_alias_targets().len() == 0);
    assert(features()[47].spec_baseline_alias_targets().len() == 0);
    assert(features()[48].spec_baseline_alias_targets().len() == 0);
    assert(features()[49].spec_baseline_alias_targets().len() == 0);
    assert(features()[50].spec_baseline_alias_targets().len() == 0);
    assert(features()[51].spec_baseline_alias_targets().len() == 0);
    assert(features()[52].spec_baseline_alias_targets().len() == 0);
    assert(features()[53].spec_baseline_alias_targets().len() == 0);
    assert(features()[54].spec_baseline_alias_targets().len() == 0);
    assert(features()[55].spec_baseline_alias_targets().len() == 0);
    assert(features()[56].spec_baseline_alias_targets().len() == 0);
    assert(features()[57].spec_baseline_alias_targets().len() == 0);
    assert(features()[58].spec_baseline_alias_targets().len() == 0);
    assert(features()[59].spec_baseline_alias_targets().len() == 0);
}

} // verus!
