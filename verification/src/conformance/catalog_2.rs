//! Support-catalog records 61 through 120 in stable inventory order.
use vstd::prelude::*;

use super::sources::{i_color5, i_filter1, i_transforms2, o_backgrounds3, o_box3, o_compositing1, o_easing1, o_images3, o_transforms1, o_values3, r_grid2};
use crate::error::CssFeatureId;
use super::{texts, push_feature, CssFeatureKind, CssFeatureMetadata};

verus! {

/// The records of this part of the catalog, in stable inventory order.
#[verifier::opaque]
pub open spec fn features() -> Seq<CssFeatureMetadata> {
    seq![
        CssFeatureMetadata::spec_complete(
            "ext.value.relative-color.lch",
            CssFeatureKind::Value,
            "relative lch()",
            i_color5(),
            "#relative-LCH",
        ),
        CssFeatureMetadata::spec_complete(
            "ext.value.relative-color.oklch",
            CssFeatureKind::Value,
            "relative oklch()",
            i_color5(),
            "#relative-OkLCh",
        ),
        CssFeatureMetadata::spec_complete(
            "ext.value.relative-color.predefined",
            CssFeatureKind::Value,
            "relative color()",
            i_color5(),
            "#relative-color-function",
        ),
        CssFeatureMetadata::spec_partial(
            "ext.value.color-mix",
            CssFeatureKind::Value,
            "color-mix()",
            i_color5(),
            "#funcdef-color-mix",
            texts::color5_mix_subset(),
            texts::color5_mix_remainder(),
        ),
        CssFeatureMetadata::spec_partial(
            "ext.value.grid-repeat",
            CssFeatureKind::Value,
            "repeat()",
            r_grid2(),
            "#repeat-notation",
            texts::grid_repeat_subset(),
            texts::grid_repeat_remainder(),
        ),
        CssFeatureMetadata::spec_complete(
            "official.value.position",
            CssFeatureKind::Value,
            "<position>",
            o_values3(),
            "#position",
        ),
        CssFeatureMetadata::spec_complete(
            "official.value.box-edge-keywords",
            CssFeatureKind::Value,
            "content-box|padding-box|border-box|margin-box|fill-box|stroke-box|view-box",
            o_box3(),
            "#keywords",
        ),
        CssFeatureMetadata::spec_complete(
            "official.value.background-layer",
            CssFeatureKind::Value,
            "<bg-layer>",
            o_backgrounds3(),
            "#layering",
        ),
        CssFeatureMetadata::spec_complete(
            "official.value.background-image",
            CssFeatureKind::Value,
            "<bg-image>",
            o_backgrounds3(),
            "#background-image",
        ),
        CssFeatureMetadata::spec_complete(
            "official.value.repeat-style",
            CssFeatureKind::Value,
            "<repeat-style>",
            o_backgrounds3(),
            "#background-repeat",
        ),
        CssFeatureMetadata::spec_complete(
            "official.value.background-attachment",
            CssFeatureKind::Value,
            "<attachment>",
            o_backgrounds3(),
            "#background-attachment",
        ),
        CssFeatureMetadata::spec_complete(
            "official.value.background-position",
            CssFeatureKind::Value,
            "<bg-position>#",
            o_backgrounds3(),
            "#background-position",
        ),
        CssFeatureMetadata::spec_complete(
            "official.value.background-size",
            CssFeatureKind::Value,
            "<bg-size>",
            o_backgrounds3(),
            "#background-size",
        ),
        CssFeatureMetadata::spec_complete(
            "official.value.line-style",
            CssFeatureKind::Value,
            "<line-style>",
            o_backgrounds3(),
            "#border-style",
        ),
        CssFeatureMetadata::spec_complete(
            "official.value.line-width",
            CssFeatureKind::Value,
            "<line-width>",
            o_backgrounds3(),
            "#border-width",
        ),
        CssFeatureMetadata::spec_complete(
            "official.value.image",
            CssFeatureKind::Value,
            "<image>",
            o_images3(),
            "#image-values",
        ),
        CssFeatureMetadata::spec_complete(
            "official.value.gradient",
            CssFeatureKind::Value,
            "<gradient>",
            o_images3(),
            "#gradients",
        ),
        CssFeatureMetadata::spec_complete(
            "official.value.linear-gradient",
            CssFeatureKind::Value,
            "linear-gradient()",
            o_images3(),
            "#linear-gradients",
        ),
        CssFeatureMetadata::spec_complete(
            "official.value.radial-gradient",
            CssFeatureKind::Value,
            "radial-gradient()",
            o_images3(),
            "#radial-gradients",
        ),
        CssFeatureMetadata::spec_complete(
            "official.value.repeating-linear-gradient",
            CssFeatureKind::Value,
            "repeating-linear-gradient()",
            o_images3(),
            "#repeating-gradients",
        ),
        CssFeatureMetadata::spec_complete(
            "official.value.repeating-radial-gradient",
            CssFeatureKind::Value,
            "repeating-radial-gradient()",
            o_images3(),
            "#repeating-gradients",
        ),
        CssFeatureMetadata::spec_complete(
            "official.value.color-stop-list",
            CssFeatureKind::Value,
            "<color-stop-list>",
            o_images3(),
            "#color-stop-syntax",
        ),
        CssFeatureMetadata::spec_complete(
            "official.value.side-or-corner",
            CssFeatureKind::Value,
            "<side-or-corner>",
            o_images3(),
            "#linear-gradients",
        ),
        CssFeatureMetadata::spec_complete(
            "official.value.radial-shape",
            CssFeatureKind::Value,
            "<radial-shape>",
            o_images3(),
            "#radial-gradients",
        ),
        CssFeatureMetadata::spec_complete(
            "official.value.radial-size",
            CssFeatureKind::Value,
            "<radial-size>",
            o_images3(),
            "#radial-gradients",
        ),
        CssFeatureMetadata::spec_complete(
            "official.value.radial-extent",
            CssFeatureKind::Value,
            "<radial-extent>",
            o_images3(),
            "#radial-gradients",
        ),
        CssFeatureMetadata::spec_complete(
            "official.value.transform-list",
            CssFeatureKind::Value,
            "<transform-list>",
            o_transforms1(),
            "#transform-function-lists",
        ),
        CssFeatureMetadata::spec_complete(
            "official.value.transform-function",
            CssFeatureKind::Value,
            "<transform-function>",
            o_transforms1(),
            "#transform-functions",
        ),
        CssFeatureMetadata::spec_complete(
            "official.value.transform.matrix",
            CssFeatureKind::Value,
            "matrix()",
            o_transforms1(),
            "#two-d-transform-functions",
        ),
        CssFeatureMetadata::spec_complete(
            "official.value.transform.translate",
            CssFeatureKind::Value,
            "translate()",
            o_transforms1(),
            "#two-d-transform-functions",
        ),
        CssFeatureMetadata::spec_complete(
            "official.value.transform.translate-x",
            CssFeatureKind::Value,
            "translateX()",
            o_transforms1(),
            "#two-d-transform-functions",
        ),
        CssFeatureMetadata::spec_complete(
            "official.value.transform.translate-y",
            CssFeatureKind::Value,
            "translateY()",
            o_transforms1(),
            "#two-d-transform-functions",
        ),
        CssFeatureMetadata::spec_complete(
            "official.value.transform.scale",
            CssFeatureKind::Value,
            "scale()",
            o_transforms1(),
            "#two-d-transform-functions",
        ),
        CssFeatureMetadata::spec_complete(
            "official.value.transform.scale-x",
            CssFeatureKind::Value,
            "scaleX()",
            o_transforms1(),
            "#two-d-transform-functions",
        ),
        CssFeatureMetadata::spec_complete(
            "official.value.transform.scale-y",
            CssFeatureKind::Value,
            "scaleY()",
            o_transforms1(),
            "#two-d-transform-functions",
        ),
        CssFeatureMetadata::spec_complete(
            "official.value.transform.rotate",
            CssFeatureKind::Value,
            "rotate()",
            o_transforms1(),
            "#two-d-transform-functions",
        ),
        CssFeatureMetadata::spec_complete(
            "official.value.transform.skew",
            CssFeatureKind::Value,
            "skew()",
            o_transforms1(),
            "#two-d-transform-functions",
        ),
        CssFeatureMetadata::spec_complete(
            "official.value.transform.skew-x",
            CssFeatureKind::Value,
            "skewX()",
            o_transforms1(),
            "#two-d-transform-functions",
        ),
        CssFeatureMetadata::spec_complete(
            "official.value.transform.skew-y",
            CssFeatureKind::Value,
            "skewY()",
            o_transforms1(),
            "#two-d-transform-functions",
        ),
        CssFeatureMetadata::spec_complete(
            "official.value.blend-mode",
            CssFeatureKind::Value,
            "normal|multiply|screen|overlay|darken|lighten|color-dodge|color-burn|hard-light|soft-light|difference|exclusion|hue|saturation|color|luminosity",
            o_compositing1(),
            "#blending,#blendingseparable,#blendingnonseparable",
        ),
        CssFeatureMetadata::spec_complete(
            "official.value.easing-function",
            CssFeatureKind::Value,
            "<easing-function>",
            o_easing1(),
            "#easing-functions",
        ),
        CssFeatureMetadata::spec_complete(
            "official.value.cubic-bezier-easing",
            CssFeatureKind::Value,
            "cubic-bezier()",
            o_easing1(),
            "#cubic-bezier-easing-functions",
        ),
        CssFeatureMetadata::spec_complete(
            "official.value.step-easing",
            CssFeatureKind::Value,
            "steps()",
            o_easing1(),
            "#step-easing-functions",
        ),
        CssFeatureMetadata::spec_complete(
            "official.value.step-position",
            CssFeatureKind::Value,
            "<step-position>",
            o_easing1(),
            "#step-easing-functions",
        ),
        CssFeatureMetadata::spec_complete(
            "official.value.shadow",
            CssFeatureKind::Value,
            "<shadow>",
            o_backgrounds3(),
            "#box-shadow",
        ),
        CssFeatureMetadata::spec_complete(
            "ext.value.transform.matrix3d",
            CssFeatureKind::Value,
            "matrix3d()",
            i_transforms2(),
            "#funcdef-matrix3d",
        ),
        CssFeatureMetadata::spec_complete(
            "ext.value.transform.perspective",
            CssFeatureKind::Value,
            "perspective()",
            i_transforms2(),
            "#funcdef-perspective",
        ),
        CssFeatureMetadata::spec_complete(
            "ext.value.transform.rotate3d",
            CssFeatureKind::Value,
            "rotate3d()",
            i_transforms2(),
            "#funcdef-rotate3d",
        ),
        CssFeatureMetadata::spec_complete(
            "ext.value.transform.rotate-x",
            CssFeatureKind::Value,
            "rotateX()",
            i_transforms2(),
            "#funcdef-rotatex",
        ),
        CssFeatureMetadata::spec_complete(
            "ext.value.transform.rotate-y",
            CssFeatureKind::Value,
            "rotateY()",
            i_transforms2(),
            "#funcdef-rotatey",
        ),
        CssFeatureMetadata::spec_complete(
            "ext.value.transform.rotate-z",
            CssFeatureKind::Value,
            "rotateZ()",
            i_transforms2(),
            "#funcdef-rotatez",
        ),
        CssFeatureMetadata::spec_complete(
            "ext.value.transform.scale3d",
            CssFeatureKind::Value,
            "scale3d()",
            i_transforms2(),
            "#funcdef-scale3d",
        ),
        CssFeatureMetadata::spec_complete(
            "ext.value.transform.scale-z",
            CssFeatureKind::Value,
            "scaleZ()",
            i_transforms2(),
            "#funcdef-scalez",
        ),
        CssFeatureMetadata::spec_complete(
            "ext.value.transform.translate3d",
            CssFeatureKind::Value,
            "translate3d()",
            i_transforms2(),
            "#funcdef-translate3d",
        ),
        CssFeatureMetadata::spec_complete(
            "ext.value.transform.translate-z",
            CssFeatureKind::Value,
            "translateZ()",
            i_transforms2(),
            "#funcdef-translatez",
        ),
        CssFeatureMetadata::spec_complete(
            "ext.value.filter-function-list",
            CssFeatureKind::Value,
            "<filter-function-list>",
            i_filter1(),
            "#FilterProperty",
        ),
        CssFeatureMetadata::spec_complete(
            "ext.value.filter.blur",
            CssFeatureKind::Value,
            "blur()",
            i_filter1(),
            "#funcdef-filter-blur",
        ),
        CssFeatureMetadata::spec_complete(
            "ext.value.filter.brightness",
            CssFeatureKind::Value,
            "brightness()",
            i_filter1(),
            "#funcdef-filter-brightness",
        ),
        CssFeatureMetadata::spec_complete(
            "ext.value.filter.contrast",
            CssFeatureKind::Value,
            "contrast()",
            i_filter1(),
            "#funcdef-filter-contrast",
        ),
        CssFeatureMetadata::spec_complete(
            "ext.value.filter.grayscale",
            CssFeatureKind::Value,
            "grayscale()",
            i_filter1(),
            "#funcdef-filter-grayscale",
        ),
    ]
}

/// Builds the records of this part of the catalog; every record is well formed.
#[verifier::rlimit(40)]
pub(crate) fn feature_records() -> (records: Vec<CssFeatureMetadata>)
    ensures
        records@ == features(),
        forall|i: int| 0 <= i < records@.len() ==> (#[trigger] records@[i]).wf(),
{
    proof {
        reveal(features);
    }
    let mut records = Vec::new();
    push_feature(&mut records, CssFeatureMetadata::complete(
        "ext.value.relative-color.lch",
        CssFeatureKind::Value,
        "relative lch()",
        i_color5(),
        "#relative-LCH",
    ));
    push_feature(&mut records, CssFeatureMetadata::complete(
        "ext.value.relative-color.oklch",
        CssFeatureKind::Value,
        "relative oklch()",
        i_color5(),
        "#relative-OkLCh",
    ));
    push_feature(&mut records, CssFeatureMetadata::complete(
        "ext.value.relative-color.predefined",
        CssFeatureKind::Value,
        "relative color()",
        i_color5(),
        "#relative-color-function",
    ));
    push_feature(&mut records, CssFeatureMetadata::partial(
        "ext.value.color-mix",
        CssFeatureKind::Value,
        "color-mix()",
        i_color5(),
        "#funcdef-color-mix",
        texts::color5_mix_subset(),
        texts::color5_mix_remainder(),
    ));
    push_feature(&mut records, CssFeatureMetadata::partial(
        "ext.value.grid-repeat",
        CssFeatureKind::Value,
        "repeat()",
        r_grid2(),
        "#repeat-notation",
        texts::grid_repeat_subset(),
        texts::grid_repeat_remainder(),
    ));
    push_feature(&mut records, CssFeatureMetadata::complete(
        "official.value.position",
        CssFeatureKind::Value,
        "<position>",
        o_values3(),
        "#position",
    ));
    push_feature(&mut records, CssFeatureMetadata::complete(
        "official.value.box-edge-keywords",
        CssFeatureKind::Value,
        "content-box|padding-box|border-box|margin-box|fill-box|stroke-box|view-box",
        o_box3(),
        "#keywords",
    ));
    push_feature(&mut records, CssFeatureMetadata::complete(
        "official.value.background-layer",
        CssFeatureKind::Value,
        "<bg-layer>",
        o_backgrounds3(),
        "#layering",
    ));
    push_feature(&mut records, CssFeatureMetadata::complete(
        "official.value.background-image",
        CssFeatureKind::Value,
        "<bg-image>",
        o_backgrounds3(),
        "#background-image",
    ));
    push_feature(&mut records, CssFeatureMetadata::complete(
        "official.value.repeat-style",
        CssFeatureKind::Value,
        "<repeat-style>",
        o_backgrounds3(),
        "#background-repeat",
    ));
    push_feature(&mut records, CssFeatureMetadata::complete(
        "official.value.background-attachment",
        CssFeatureKind::Value,
        "<attachment>",
        o_backgrounds3(),
        "#background-attachment",
    ));
    push_feature(&mut records, CssFeatureMetadata::complete(
        "official.value.background-position",
        CssFeatureKind::Value,
        "<bg-position>#",
        o_backgrounds3(),
        "#background-position",
    ));
    push_feature(&mut records, CssFeatureMetadata::complete(
        "official.value.background-size",
        CssFeatureKind::Value,
        "<bg-size>",
        o_backgrounds3(),
        "#background-size",
    ));
    push_feature(&mut records, CssFeatureMetadata::complete(
        "official.value.line-style",
        CssFeatureKind::Value,
        "<line-style>",
        o_backgrounds3(),
        "#border-style",
    ));
    push_feature(&mut records, CssFeatureMetadata::complete(
        "official.value.line-width",
        CssFeatureKind::Value,
        "<line-width>",
        o_backgrounds3(),
        "#border-width",
    ));
    push_feature(&mut records, CssFeatureMetadata::complete(
        "official.value.image",
        CssFeatureKind::Value,
        "<image>",
        o_images3(),
        "#image-values",
    ));
    push_feature(&mut records, CssFeatureMetadata::complete(
        "official.value.gradient",
        CssFeatureKind::Value,
        "<gradient>",
        o_images3(),
        "#gradients",
    ));
    push_feature(&mut records, CssFeatureMetadata::complete(
        "official.value.linear-gradient",
        CssFeatureKind::Value,
        "linear-gradient()",
        o_images3(),
        "#linear-gradients",
    ));
    push_feature(&mut records, CssFeatureMetadata::complete(
        "official.value.radial-gradient",
        CssFeatureKind::Value,
        "radial-gradient()",
        o_images3(),
        "#radial-gradients",
    ));
    push_feature(&mut records, CssFeatureMetadata::complete(
        "official.value.repeating-linear-gradient",
        CssFeatureKind::Value,
        "repeating-linear-gradient()",
        o_images3(),
        "#repeating-gradients",
    ));
    push_feature(&mut records, CssFeatureMetadata::complete(
        "official.value.repeating-radial-gradient",
        CssFeatureKind::Value,
        "repeating-radial-gradient()",
        o_images3(),
        "#repeating-gradients",
    ));
    push_feature(&mut records, CssFeatureMetadata::complete(
        "official.value.color-stop-list",
        CssFeatureKind::Value,
        "<color-stop-list>",
        o_images3(),
        "#color-stop-syntax",
    ));
    push_feature(&mut records, CssFeatureMetadata::complete(
        "official.value.side-or-corner",
        CssFeatureKind::Value,
        "<side-or-corner>",
        o_images3(),
        "#linear-gradients",
    ));
    push_feature(&mut records, CssFeatureMetadata::complete(
        "official.value.radial-shape",
        CssFeatureKind::Value,
        "<radial-shape>",
        o_images3(),
        "#radial-gradients",
    ));
    push_feature(&mut records, CssFeatureMetadata::complete(
        "official.value.radial-size",
        CssFeatureKind::Value,
        "<radial-size>",
        o_images3(),
        "#radial-gradients",
    ));
    push_feature(&mut records, CssFeatureMetadata::complete(
        "official.value.radial-extent",
        CssFeatureKind::Value,
        "<radial-extent>",
        o_images3(),
        "#radial-gradients",
    ));
    push_feature(&mut records, CssFeatureMetadata::complete(
        "official.value.transform-list",
        CssFeatureKind::Value,
        "<transform-list>",
        o_transforms1(),
        "#transform-function-lists",
    ));
    push_feature(&mut records, CssFeatureMetadata::complete(
        "official.value.transform-function",
        CssFeatureKind::Value,
        "<transform-function>",
        o_transforms1(),
        "#transform-functions",
    ));
    push_feature(&mut records, CssFeatureMetadata::complete(
        "official.value.transform.matrix",
        CssFeatureKind::Value,
        "matrix()",
        o_transforms1(),
        "#two-d-transform-functions",
    ));
    push_feature(&mut records, CssFeatureMetadata::complete(
        "official.value.transform.translate",
        CssFeatureKind::Value,
        "translate()",
        o_transforms1(),
        "#two-d-transform-functions",
    ));
    push_feature(&mut records, CssFeatureMetadata::complete(
        "official.value.transform.translate-x",
        CssFeatureKind::Value,
        "translateX()",
        o_transforms1(),
        "#two-d-transform-functions",
    ));
    push_feature(&mut records, CssFeatureMetadata::complete(
        "official.value.transform.translate-y",
        CssFeatureKind::Value,
        "translateY()",
        o_transforms1(),
        "#two-d-transform-functions",
    ));
    push_feature(&mut records, CssFeatureMetadata::complete(
        "official.value.transform.scale",
        CssFeatureKind::Value,
        "scale()",
        o_transforms1(),
        "#two-d-transform-functions",
    ));
    push_feature(&mut records, CssFeatureMetadata::complete(
        "official.value.transform.scale-x",
        CssFeatureKind::Value,
        "scaleX()",
        o_transforms1(),
        "#two-d-transform-functions",
    ));
    push_feature(&mut records, CssFeatureMetadata::complete(
        "official.value.transform.scale-y",
        CssFeatureKind::Value,
        "scaleY()",
        o_transforms1(),
        "#two-d-transform-functions",
    ));
    push_feature(&mut records, CssFeatureMetadata::complete(
        "official.value.transform.rotate",
        CssFeatureKind::Value,
        "rotate()",
        o_transforms1(),
        "#two-d-transform-functions",
    ));
    push_feature(&mut records, CssFeatureMetadata::complete(
        "official.value.transform.skew",
        CssFeatureKind::Value,
        "skew()",
        o_transforms1(),
        "#two-d-transform-functions",
    ));
    push_feature(&mut records, CssFeatureMetadata::complete(
        "official.value.transform.skew-x",
        CssFeatureKind::Value,
        "skewX()",
        o_transforms1(),
        "#two-d-transform-functions",
    ));
    push_feature(&mut records, CssFeatureMetadata::complete(
        "official.value.transform.skew-y",
        CssFeatureKind::Value,
        "skewY()",
        o_transforms1(),
        "#two-d-transform-functions",
    ));
    push_feature(&mut records, CssFeatureMetadata::complete(
        "official.value.blend-mode",
        CssFeatureKind::Value,
        "normal|multiply|screen|overlay|darken|lighten|color-dodge|color-burn|hard-light|soft-light|difference|exclusion|hue|saturation|color|luminosity",
        o_compositing1(),
        "#blending,#blendingseparable,#blendingnonseparable",
    ));
    push_feature(&mut records, CssFeatureMetadata::complete(
        "official.value.easing-function",
        CssFeatureKind::Value,
        "<easing-function>",
        o_easing1(),
        "#easing-functions",
    ));
    push_feature(&mut records, CssFeatureMetadata::complete(
        "official.value.cubic-bezier-easing",
        CssFeatureKind::Value,
        "cubic-bezier()",
        o_easing1(),
        "#cubic-bezier-easing-functions",
    ));
    push_feature(&mut records, CssFeatureMetadata::complete(
        "official.value.step-easing",
        CssFeatureKind::Value,
        "steps()",
        o_easing1(),
        "#step-easing-functions",
    ));
    push_feature(&mut records, CssFeatureMetadata::complete(
        "official.value.step-position",
        CssFeatureKind::Value,
        "<step-position>",
        o_easing1(),
        "#step-easing-functions",
    ));
    push_feature(&mut records, CssFeatureMetadata::complete(
        "official.value.shadow",
        CssFeatureKind::Value,
        "<shadow>",
        o_backgrounds3(),
        "#box-shadow",
    ));
    push_feature(&mut records, CssFeatureMetadata::complete(
        "ext.value.transform.matrix3d",
        CssFeatureKind::Value,
        "matrix3d()",
        i_transforms2(),
        "#funcdef-matrix3d",
    ));
    push_feature(&mut records, CssFeatureMetadata::complete(
        "ext.value.transform.perspective",
        CssFeatureKind::Value,
        "perspective()",
        i_transforms2(),
        "#funcdef-perspective",
    ));
    push_feature(&mut records, CssFeatureMetadata::complete(
        "ext.value.transform.rotate3d",
        CssFeatureKind::Value,
        "rotate3d()",
        i_transforms2(),
        "#funcdef-rotate3d",
    ));
    push_feature(&mut records, CssFeatureMetadata::complete(
        "ext.value.transform.rotate-x",
        CssFeatureKind::Value,
        "rotateX()",
        i_transforms2(),
        "#funcdef-rotatex",
    ));
    push_feature(&mut records, CssFeatureMetadata::complete(
        "ext.value.transform.rotate-y",
        CssFeatureKind::Value,
        "rotateY()",
        i_transforms2(),
        "#funcdef-rotatey",
    ));
    push_feature(&mut records, CssFeatureMetadata::complete(
        "ext.value.transform.rotate-z",
        CssFeatureKind::Value,
        "rotateZ()",
        i_transforms2(),
        "#funcdef-rotatez",
    ));
    push_feature(&mut records, CssFeatureMetadata::complete(
        "ext.value.transform.scale3d",
        CssFeatureKind::Value,
        "scale3d()",
        i_transforms2(),
        "#funcdef-scale3d",
    ));
    push_feature(&mut records, CssFeatureMetadata::complete(
        "ext.value.transform.scale-z",
        CssFeatureKind::Value,
        "scaleZ()",
        i_transforms2(),
        "#funcdef-scalez",
    ));
    push_feature(&mut records, CssFeatureMetadata::complete(
        "ext.value.transform.translate3d",
        CssFeatureKind::Value,
        "translate3d()",
        i_transforms2(),
        "#funcdef-translate3d",
    ));
    push_feature(&mut records, CssFeatureMetadata::complete(
        "ext.value.transform.translate-z",
        CssFeatureKind::Value,
        "translateZ()",
        i_transforms2(),
        "#funcdef-translatez",
    ));
    push_feature(&mut records, CssFeatureMetadata::complete(
        "ext.value.filter-function-list",
        CssFeatureKind::Value,
        "<filter-function-list>",
        i_filter1(),
        "#FilterProperty",
    ));
    push_feature(&mut records, CssFeatureMetadata::complete(
        "ext.value.filter.blur",
        CssFeatureKind::Value,
        "blur()",
        i_filter1(),
        "#funcdef-filter-blur",
    ));
    push_feature(&mut records, CssFeatureMetadata::complete(
        "ext.value.filter.brightness",
        CssFeatureKind::Value,
        "brightness()",
        i_filter1(),
        "#funcdef-filter-brightness",
    ));
    push_feature(&mut records, CssFeatureMetadata::complete(
        "ext.value.filter.contrast",
        CssFeatureKind::Value,
        "contrast()",
        i_filter1(),
        "#funcdef-filter-contrast",
    ));
    push_feature(&mut records, CssFeatureMetadata::complete(
        "ext.value.filter.grayscale",
        CssFeatureKind::Value,
        "grayscale()",
        i_filter1(),
        "#funcdef-filter-grayscale",
    ));
    records
}

/// This part of the catalog holds 60 records.
pub proof fn lemma_features_len()
    ensures
        features().len() == 60,
{
    reveal(features);
}

/// The alias records of this part, the atomic targets they name, and the identities of the
/// records those targets name; every other record has no targets.
#[verifier::rlimit(100)]
pub proof fn lemma_alias_facts()
    ensures
        forall|i: int| 0 <= i < features().len() ==> #[trigger] features()[i].spec_baseline_alias_targets().len() == 0,
{
    broadcast use {
        CssFeatureMetadata::lemma_complete_parts,
        CssFeatureMetadata::lemma_partial_parts,
        CssFeatureMetadata::lemma_baseline_alias_parts,
        CssFeatureMetadata::lemma_recognized_unsupported_parts,
        CssFeatureMetadata::lemma_partial_property_parts,
        CssFeatureMetadata::lemma_complete_property_parts,
        CssFeatureMetadata::lemma_partial_property_with_boundary_parts,
    };

    reveal(features);
    assert(features()[0].spec_baseline_alias_targets().len() == 0);
    assert(features()[1].spec_baseline_alias_targets().len() == 0);
    assert(features()[2].spec_baseline_alias_targets().len() == 0);
    assert(features()[3].spec_baseline_alias_targets().len() == 0);
    assert(features()[4].spec_baseline_alias_targets().len() == 0);
    assert(features()[5].spec_baseline_alias_targets().len() == 0);
    assert(features()[6].spec_baseline_alias_targets().len() == 0);
    assert(features()[7].spec_baseline_alias_targets().len() == 0);
    assert(features()[8].spec_baseline_alias_targets().len() == 0);
    assert(features()[9].spec_baseline_alias_targets().len() == 0);
    assert(features()[10].spec_baseline_alias_targets().len() == 0);
    assert(features()[11].spec_baseline_alias_targets().len() == 0);
    assert(features()[12].spec_baseline_alias_targets().len() == 0);
    assert(features()[13].spec_baseline_alias_targets().len() == 0);
    assert(features()[14].spec_baseline_alias_targets().len() == 0);
    assert(features()[15].spec_baseline_alias_targets().len() == 0);
    assert(features()[16].spec_baseline_alias_targets().len() == 0);
    assert(features()[17].spec_baseline_alias_targets().len() == 0);
    assert(features()[18].spec_baseline_alias_targets().len() == 0);
    assert(features()[19].spec_baseline_alias_targets().len() == 0);
    assert(features()[20].spec_baseline_alias_targets().len() == 0);
    assert(features()[21].spec_baseline_alias_targets().len() == 0);
    assert(features()[22].spec_baseline_alias_targets().len() == 0);
    assert(features()[23].spec_baseline_alias_targets().len() == 0);
    assert(features()[24].spec_baseline_alias_targets().len() == 0);
    assert(features()[25].spec_baseline_alias_targets().len() == 0);
    assert(features()[26].spec_baseline_alias_targets().len() == 0);
    assert(features()[27].spec_baseline_alias_targets().len() == 0);
    assert(features()[28].spec_baseline_alias_targets().len() == 0);
    assert(features()[29].spec_baseline_alias_targets().len() == 0);
    assert(features()[30].spec_baseline_alias_targets().len() == 0);
    assert(features()[31].spec_baseline_alias_targets().len() == 0);
    assert(features()[32].spec_baseline_alias_targets().len() == 0);
    assert(features()[33].spec_baseline_alias_targets().len() == 0);
    assert(features()[34].spec_baseline_alias_targets().len() == 0);
    assert(features()[35].spec_baseline_alias_targets().len() == 0);
    assert(features()[36].spec_baseline_alias_targets().len() == 0);
    assert(features()[37].spec_baseline_alias_targets().len() == 0);
    assert(features()[38].spec_baseline_alias_targets().len() == 0);
    assert(features()[39].spec_baseline_alias_targets().len() == 0);
    assert(features()[40].spec_baseline_alias_targets().len() == 0);
    assert(features()[41].spec_baseline_alias_targets().len() == 0);
    assert(features()[42].spec_baseline_alias_targets().len() == 0);
    assert(features()[43].spec_baseline_alias_targets().len() == 0);
    assert(features()[44].spec_baseline_alias_targets().len() == 0);
    assert(features()[45].spec_baseline_alias_targets().len() == 0);
    assert(features()[46].spec_baseline_alias_targets().len() == 0);
    assert(features()[47].spec_baseline_alias_targets().len() == 0);
    assert(features()[48].spec_baseline_alias_targets().len() == 0);
    assert(features()[49].spec_baseline_alias_targets().len() == 0);
    assert(features()[50].spec_baseline_alias_targets().len() == 0);
    assert(features()[51].spec_baseline_alias_targets().len() == 0);
    assert(features()[52].spec_baseline_alias_targets().len() == 0);
    assert(features()[53].spec_baseline_alias_targets().len() == 0);
    assert(features()[54].spec_baseline_alias_targets().len() == 0);
    assert(features()[55].spec_baseline_alias_targets().len() == 0);
    assert(features()[56].spec_baseline_alias_targets().len() == 0);
    assert(features()[57].spec_baseline_alias_targets().len() == 0);
    assert(features()[58].spec_baseline_alias_targets().len() == 0);
    assert(features()[59].spec_baseline_alias_targets().len() == 0);
}

} // verus!
