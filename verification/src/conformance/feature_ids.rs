//! Every support-catalog record carries its own stable identity.
use vstd::prelude::*;

use super::identities::{lemma_sorted_order_distinct, sorts_before, sorts_before_at};
use super::{catalog_1, catalog_2, catalog_3, catalog_4, catalog_5, catalog_6, catalog_7, catalog_8, feature_has_id, spec_feature_catalog, CssFeatureMetadata};
use crate::error::CssFeatureId;
use crate::search::{first_match, is_first_match, lemma_first_match_at};

verus! {

/// The stable identities of one part of the registry, in registry order.
#[verifier::opaque]
pub open spec fn feature_id_chunk_1() -> Seq<&'static str> {
    seq![
        "baseline.rule.import",
        "ext.import.layer",
        "ext.stylesheet.prelude-order",
        "baseline.rule.layer-statement",
        "baseline.rule.layer-block",
        "baseline.rule.font-face",
        "baseline.rule.keyframes",
        "baseline.rule.style",
        "official.rule.at-rule",
        "official.qualified-rule.generic",
        "baseline.rule.media",
        "official.rule.conditional-group-context",
        "baseline.rule.container",
        "baseline.rule.scope",
        "foundation.encoding.charset",
        "foundation.declaration-list.style-attribute",
        "foundation.declaration.importance",
        "official.declaration.generic",
        "official.value.stylesheet",
        "official.value.rule-list",
        "official.value.declaration-list",
        "official.value.style-block",
        "baseline.declaration.custom-property",
        "baseline.value.substitution-dependent",
        "official.value.integer",
        "official.value.number",
        "official.value.dimension",
        "official.value.percentage",
        "official.value.length",
        "official.value.length-percentage",
        "official.value.angle",
        "official.value.angle-percentage",
        "official.value.time",
        "official.value.time-percentage",
        "official.value.frequency",
        "official.value.frequency-percentage",
        "official.value.resolution",
        "official.value.color",
        "official.value.alpha",
        "official.value.hue",
        "official.value.rgb",
        "official.value.hex-color",
        "official.value.named-color",
        "official.value.system-color",
        "official.value.deprecated-system-color",
        "official.value.transparent",
        "official.value.currentcolor",
        "official.value.hsl",
        "official.value.hwb",
        "official.value.lab",
        "official.value.lch",
        "official.value.oklab",
        "official.value.oklch",
        "official.value.predefined-color",
        "ext.value.relative-color",
        "ext.value.relative-color.rgb",
        "ext.value.relative-color.hsl",
        "ext.value.relative-color.hwb",
        "ext.value.relative-color.lab",
        "ext.value.relative-color.oklab",
    ]
}

#[verifier::opaque]
spec fn feature_order_chunk_1() -> Seq<int> {
    seq![179, 180, 22, 158, 153, 157, 156, 155, 154, 159, 178, 175, 177, 176, 193, 195, 196, 342, 181, 378, 372, 375, 371, 376, 374, 370, 377, 373, 343, 358, 307, 324, 323, 308, 314, 322, 315, 321, 320, 290, 293, 312, 334, 333, 328, 298, 309, 294, 313, 329, 299, 330, 292, 311, 327, 297, 325, 291, 310, 331]
}

#[verifier::opaque]
spec fn feature_rank_chunk_1() -> Seq<int> {
    seq![195, 214, 238, 198, 197, 194, 196, 201, 357, 356, 199, 358, 193, 200, 281, 279, 280, 287, 442, 436, 398, 441, 2, 210, 411, 420, 400, 424, 414, 415, 382, 383, 447, 448, 403, 404, 434, 392, 381, 408, 435, 406, 419, 446, 399, 462, 397, 407, 409, 412, 413, 421, 422, 426, 260, 268, 261, 262, 263, 265]
}

/// The stable identities of one part of the registry, in registry order.
#[verifier::opaque]
pub open spec fn feature_id_chunk_2() -> Seq<&'static str> {
    seq![
        "ext.value.relative-color.lch",
        "ext.value.relative-color.oklch",
        "ext.value.relative-color.predefined",
        "ext.value.color-mix",
        "ext.value.grid-repeat",
        "official.value.position",
        "official.value.box-edge-keywords",
        "official.value.background-layer",
        "official.value.background-image",
        "official.value.repeat-style",
        "official.value.background-attachment",
        "official.value.background-position",
        "official.value.background-size",
        "official.value.line-style",
        "official.value.line-width",
        "official.value.image",
        "official.value.gradient",
        "official.value.linear-gradient",
        "official.value.radial-gradient",
        "official.value.repeating-linear-gradient",
        "official.value.repeating-radial-gradient",
        "official.value.color-stop-list",
        "official.value.side-or-corner",
        "official.value.radial-shape",
        "official.value.radial-size",
        "official.value.radial-extent",
        "official.value.transform-list",
        "official.value.transform-function",
        "official.value.transform.matrix",
        "official.value.transform.translate",
        "official.value.transform.translate-x",
        "official.value.transform.translate-y",
        "official.value.transform.scale",
        "official.value.transform.scale-x",
        "official.value.transform.scale-y",
        "official.value.transform.rotate",
        "official.value.transform.skew",
        "official.value.transform.skew-x",
        "official.value.transform.skew-y",
        "official.value.blend-mode",
        "official.value.easing-function",
        "official.value.cubic-bezier-easing",
        "official.value.step-easing",
        "official.value.step-position",
        "official.value.shadow",
        "ext.value.transform.matrix3d",
        "ext.value.transform.perspective",
        "ext.value.transform.rotate3d",
        "ext.value.transform.rotate-x",
        "ext.value.transform.rotate-y",
        "ext.value.transform.rotate-z",
        "ext.value.transform.scale3d",
        "ext.value.transform.scale-z",
        "ext.value.transform.translate3d",
        "ext.value.transform.translate-z",
        "ext.value.filter-function-list",
        "ext.value.filter.blur",
        "ext.value.filter.brightness",
        "ext.value.filter.contrast",
        "ext.value.filter.grayscale",
    ]
}

#[verifier::opaque]
spec fn feature_order_chunk_2() -> Seq<int> {
    seq![332, 326, 296, 295, 276, 279, 335, 183, 192, 359, 306, 221, 203, 204, 210, 209, 211, 345, 185, 182, 357, 340, 218, 189, 337, 338, 190, 191, 246, 245, 256, 238, 249, 248, 250, 247, 219, 237, 236, 228, 229, 227, 235, 233, 232, 222, 234, 231, 230, 226, 225, 224, 223, 213, 273, 194, 197, 198, 341, 277]
}

#[verifier::opaque]
spec fn feature_rank_chunk_2() -> Seq<int> {
    seq![264, 266, 267, 246, 259, 425, 390, 386, 385, 431, 384, 387, 388, 416, 417, 410, 405, 418, 428, 432, 433, 393, 438, 429, 430, 427, 450, 449, 451, 459, 460, 461, 453, 454, 455, 452, 456, 457, 458, 389, 401, 396, 439, 440, 437, 269, 270, 274, 271, 272, 273, 276, 275, 278, 277, 247, 248, 249, 250, 252]
}

/// The stable identities of one part of the registry, in registry order.
#[verifier::opaque]
pub open spec fn feature_id_chunk_3() -> Seq<&'static str> {
    seq![
        "ext.value.filter.hue-rotate",
        "ext.value.filter.invert",
        "ext.value.filter.opacity",
        "ext.value.filter.saturate",
        "ext.value.filter.sepia",
        "ext.value.filter.drop-shadow",
        "ext.value.basic-shape",
        "ext.value.basic-shape.inset",
        "ext.value.basic-shape.circle",
        "ext.value.basic-shape.ellipse",
        "ext.value.basic-shape.polygon",
        "official.value.calc",
        "later.rule.namespace",
        "later.rule.supports",
        "later.rule.counter-style",
        "official.descriptor.counter-style.system",
        "official.descriptor.counter-style.negative",
        "official.descriptor.counter-style.prefix",
        "official.descriptor.counter-style.suffix",
        "official.descriptor.counter-style.range",
        "official.descriptor.counter-style.pad",
        "official.descriptor.counter-style.fallback",
        "official.descriptor.counter-style.symbols",
        "official.descriptor.counter-style.additive-symbols",
        "official.descriptor.counter-style.speak-as",
        "official.value.counter-style",
        "official.value.counter-style-name",
        "official.value.symbol",
        "official.value.symbols-function",
        "official.value.symbols-type",
        "later.rule.page",
        "official.selector.page-pseudo",
        "later.rule.font-feature-values",
        "baseline.descriptor.font-family",
        "baseline.descriptor.src",
        "baseline.descriptor.font-weight",
        "baseline.descriptor.font-style",
        "baseline.descriptor.font-stretch",
        "baseline.descriptor.font-display",
        "baseline.descriptor.unicode-range",
        "official.descriptor.font-feature-settings",
        "official.value.font-source",
        "official.value.opentype-tag",
        "ext.descriptor.font-weight-range",
        "ext.descriptor.font-style-oblique-range",
        "ext.descriptor.font-stretch-range",
        "ext.value.font-source-modern-hints",
        "baseline.selector.complex",
        "baseline.selector.pseudo-class",
        "baseline.selector.functional",
        "baseline.selector.extension-state",
        "baseline.selector.extension-functional",
        "baseline.selector.attribute-case",
        "baseline.selector.pseudo-element",
        "baseline.selector.nesting",
        "baseline.media.query-list",
        "baseline.media.type",
        "baseline.media.range-feature",
        "baseline.media.discrete-feature",
        "baseline.container.condition",
    ]
}

#[verifier::opaque]
spec fn feature_order_chunk_3() -> Seq<int> {
    seq![261, 239, 208, 207, 206, 205, 280, 283, 284, 282, 281, 360, 361, 363, 364, 362, 217, 216, 215, 214, 336, 339, 348, 349, 350, 351, 186, 265, 187, 188, 285, 288, 289, 287, 286, 199, 200, 201, 346, 184, 275, 355, 220, 356, 344, 241, 242, 267, 269, 268, 270, 271, 243, 266, 272, 262, 274, 352, 353, 369]
}

#[verifier::opaque]
spec fn feature_rank_chunk_3() -> Seq<int> {
    seq![253, 254, 255, 256, 257, 251, 241, 244, 242, 243, 245, 391, 284, 286, 282, 297, 290, 292, 295, 293, 291, 289, 296, 288, 294, 394, 395, 443, 444, 445, 285, 375, 283, 4, 8, 7, 6, 5, 3, 9, 298, 402, 423, 213, 212, 211, 258, 203, 208, 206, 205, 204, 202, 209, 207, 11, 13, 12, 10, 0]
}

/// The stable identities of one part of the registry, in registry order.
#[verifier::opaque]
pub open spec fn feature_id_chunk_4() -> Seq<&'static str> {
    seq![
        "baseline.container.size-feature",
        "baseline.property.all",
        "baseline.property.display",
        "baseline.property.box-sizing",
        "baseline.property.position",
        "baseline.property.direction",
        "baseline.property.overflow",
        "baseline.property.overflow-x",
        "baseline.property.overflow-y",
        "baseline.property.flex-direction",
        "baseline.property.flex-wrap",
        "baseline.property.float",
        "baseline.property.clear",
        "baseline.property.align-content",
        "baseline.property.justify-content",
        "baseline.property.align-items",
        "baseline.property.align-self",
        "baseline.property.justify-items",
        "baseline.property.justify-self",
        "baseline.property.place-content",
        "baseline.property.place-items",
        "baseline.property.place-self",
        "baseline.property.visibility",
        "baseline.property.content",
        "baseline.property.content-visibility",
        "baseline.property.list-style-type",
        "baseline.property.list-style-position",
        "baseline.property.list-style-image",
        "baseline.property.list-style",
        "baseline.property.counter-reset",
        "baseline.property.counter-increment",
        "baseline.property.counter-set",
        "baseline.property.width",
        "baseline.property.height",
        "baseline.property.min-width",
        "baseline.property.min-height",
        "baseline.property.max-width",
        "baseline.property.max-height",
        "baseline.property.flex-basis",
        "baseline.property.gap",
        "baseline.property.row-gap",
        "baseline.property.column-gap",
        "baseline.property.grid-flow-tolerance",
        "baseline.property.grid-template-rows",
        "baseline.property.grid-template-columns",
        "baseline.property.grid-template-areas",
        "baseline.property.grid-template",
        "baseline.property.grid-auto-rows",
        "baseline.property.grid-auto-columns",
        "baseline.property.grid-auto-flow",
        "baseline.property.grid-row-start",
        "baseline.property.grid-row-end",
        "baseline.property.grid-column-start",
        "baseline.property.grid-column-end",
        "baseline.property.grid-row",
        "baseline.property.grid-column",
        "baseline.property.grid-area",
        "baseline.property.grid",
        "baseline.property.font-size",
        "baseline.property.line-height",
    ]
}

#[verifier::opaque]
spec fn feature_order_chunk_4() -> Seq<int> {
    seq![367, 366, 365, 368, 354, 347, 244, 202, 263, 212, 264, 240, 278, 12, 5, 0, 6, 4, 3, 10, 13, 7, 172, 167, 171, 170, 169, 174, 168, 173, 23, 165, 164, 163, 1, 454, 456, 430, 462, 461, 453, 431, 455, 457, 460, 458, 459, 450, 448, 451, 449, 447, 444, 260, 427, 428, 425, 426, 2, 445]
}

#[verifier::opaque]
spec fn feature_rank_chunk_4() -> Seq<int> {
    seq![1, 18, 79, 67, 159, 78, 146, 148, 149, 83, 86, 87, 68, 14, 115, 15, 16, 116, 117, 155, 156, 157, 187, 72, 73, 125, 124, 123, 122, 75, 74, 76, 189, 113, 139, 138, 137, 136, 82, 96, 162, 71, 105, 112, 111, 110, 109, 101, 99, 100, 108, 107, 104, 103, 106, 102, 98, 97, 91, 121]
}

/// The stable identities of one part of the registry, in registry order.
#[verifier::opaque]
pub open spec fn feature_id_chunk_5() -> Seq<&'static str> {
    seq![
        "baseline.property.writing-mode",
        "baseline.property.text-align",
        "baseline.property.text-align-last",
        "baseline.property.text-indent",
        "baseline.property.vertical-align",
        "baseline.property.font-family",
        "baseline.property.font",
        "baseline.property.font-weight",
        "baseline.property.font-style",
        "baseline.property.font-stretch",
        "baseline.property.font-variant",
        "official.property.font-variant-caps",
        "official.property.font-variant-east-asian",
        "official.property.font-variant-ligatures",
        "official.property.font-variant-numeric",
        "official.property.font-variant-position",
        "baseline.property.font-feature-settings",
        "official.property.font-kerning",
        "official.property.font-size-adjust",
        "official.property.font-synthesis",
        "ext.property.font-weight-range",
        "baseline.property.letter-spacing",
        "baseline.property.text-wrap",
        "baseline.property.white-space",
        "baseline.property.word-break",
        "baseline.property.overflow-wrap",
        "baseline.property.text-overflow",
        "baseline.property.text-decoration",
        "baseline.property.text-decoration-line",
        "baseline.property.text-decoration-color",
        "baseline.property.text-decoration-style",
        "baseline.property.text-decoration-thickness",
        "baseline.property.text-transform",
        "baseline.property.inset",
        "baseline.property.top",
        "baseline.property.right",
        "baseline.property.bottom",
        "baseline.property.left",
        "baseline.property.z-index",
        "baseline.property.box-decoration-break",
        "baseline.property.margin",
        "baseline.property.margin-top",
        "baseline.property.margin-right",
        "baseline.property.margin-bottom",
        "baseline.property.margin-left",
        "baseline.property.padding",
        "baseline.property.padding-top",
        "baseline.property.padding-right",
        "baseline.property.padding-bottom",
        "baseline.property.padding-left",
        "baseline.property.border",
        "baseline.property.border-top",
        "baseline.property.border-right",
        "baseline.property.border-bottom",
        "baseline.property.border-left",
        "baseline.property.border-width",
        "baseline.property.border-top-width",
        "baseline.property.border-right-width",
        "baseline.property.border-bottom-width",
        "baseline.property.border-left-width",
    ]
}

#[verifier::opaque]
spec fn feature_order_chunk_5() -> Seq<int> {
    seq![446, 126, 128, 129, 127, 130, 63, 115, 116, 117, 118, 125, 119, 120, 121, 122, 123, 124, 166, 64, 54, 56, 57, 58, 60, 59, 61, 62, 55, 105, 106, 108, 109, 110, 107, 112, 111, 114, 113, 15, 16, 14, 134, 152, 132, 150, 133, 17, 143, 141, 136, 140, 137, 139, 144, 138, 142, 135, 160, 436]
}

#[verifier::opaque]
spec fn feature_rank_chunk_5() -> Seq<int> {
    seq![191, 165, 166, 172, 186, 89, 88, 95, 93, 92, 94, 331, 332, 333, 334, 335, 90, 328, 329, 330, 233, 120, 175, 188, 190, 147, 173, 167, 169, 168, 170, 171, 174, 114, 176, 160, 64, 119, 192, 65, 126, 130, 129, 127, 128, 150, 154, 153, 151, 152, 39, 57, 52, 40, 47, 63, 62, 55, 45, 50]
}

/// The stable identities of one part of the registry, in registry order.
#[verifier::opaque]
pub open spec fn feature_id_chunk_6() -> Seq<&'static str> {
    seq![
        "official.property.border-image",
        "official.property.border-image-outset",
        "official.property.border-image-repeat",
        "official.property.border-image-slice",
        "official.property.border-image-source",
        "official.property.border-image-width",
        "baseline.property.color",
        "baseline.property.background",
        "baseline.property.background-color",
        "baseline.property.border-color",
        "baseline.property.border-top-color",
        "baseline.property.border-right-color",
        "baseline.property.border-bottom-color",
        "baseline.property.border-left-color",
        "baseline.property.background-image",
        "baseline.property.background-position",
        "official.property.object-position",
        "official.property.image-orientation",
        "official.property.image-rendering",
        "official.property.object-fit",
        "baseline.property.background-size",
        "baseline.property.background-repeat",
        "baseline.property.background-origin",
        "baseline.property.background-clip",
        "baseline.property.background-attachment",
        "baseline.property.border-style",
        "baseline.property.border-top-style",
        "baseline.property.border-right-style",
        "baseline.property.border-bottom-style",
        "baseline.property.border-left-style",
        "baseline.property.border-radius",
        "baseline.property.border-top-left-radius",
        "baseline.property.border-top-right-radius",
        "baseline.property.border-bottom-right-radius",
        "baseline.property.border-bottom-left-radius",
        "baseline.property.box-shadow",
        "baseline.property.opacity",
        "baseline.property.flex-grow",
        "baseline.property.flex-shrink",
        "baseline.property.order",
        "baseline.property.flex",
        "baseline.property.justify-tracks",
        "baseline.property.align-tracks",
        "baseline.property.aspect-ratio",
        "baseline.property.scrollbar-width",
        "baseline.property.cursor",
        "baseline.property.pointer-events",
        "baseline.property.user-select",
        "baseline.property.outline",
        "baseline.property.outline-color",
        "baseline.property.outline-style",
        "baseline.property.outline-width",
        "baseline.property.transform",
        "baseline.property.transform-origin",
        "baseline.property.translate",
        "baseline.property.rotate",
        "baseline.property.scale",
        "baseline.property.filter",
        "baseline.property.backdrop-filter",
        "baseline.property.clip-path",
    ]
}

#[verifier::opaque]
spec fn feature_order_chunk_6() -> Seq<int> {
    seq![439, 440, 437, 435, 434, 443, 433, 441, 452, 438, 442, 432, 429, 403, 400, 379, 300, 301, 302, 303, 304, 305, 380, 381, 395, 382, 398, 383, 257, 258, 259, 251, 252, 253, 254, 255, 317, 318, 401, 402, 319, 316, 384, 396, 385, 386, 387, 388, 397, 389, 392, 393, 399, 394, 390, 391, 9, 8, 11, 407]
}

#[verifier::opaque]
spec fn feature_rank_chunk_6() -> Seq<int> {
    seq![316, 317, 318, 319, 320, 321, 70, 30, 33, 46, 58, 53, 41, 48, 34, 36, 341, 336, 337, 340, 38, 37, 35, 32, 31, 56, 61, 54, 44, 49, 51, 59, 60, 43, 42, 66, 140, 84, 85, 141, 81, 118, 17, 28, 164, 77, 158, 185, 142, 143, 144, 145, 177, 178, 184, 161, 163, 80, 29, 69]
}

/// The stable identities of one part of the registry, in registry order.
#[verifier::opaque]
pub open spec fn feature_id_chunk_7() -> Seq<&'static str> {
    seq![
        "baseline.property.mask",
        "baseline.property.mask-image",
        "baseline.property.mask-size",
        "baseline.property.mask-position",
        "baseline.property.mask-repeat",
        "baseline.property.transition-property",
        "baseline.property.transition-duration",
        "baseline.property.transition-delay",
        "baseline.property.transition-timing-function",
        "baseline.property.transition",
        "baseline.property.animation-name",
        "baseline.property.animation-duration",
        "baseline.property.animation-delay",
        "baseline.property.animation-timing-function",
        "baseline.property.animation-iteration-count",
        "baseline.property.animation-direction",
        "baseline.property.animation-fill-mode",
        "baseline.property.animation-play-state",
        "baseline.property.animation",
        "official.property.border-collapse",
        "official.property.border-spacing",
        "official.property.caption-side",
        "official.property.clip",
        "official.property.empty-cells",
        "official.property.orphans",
        "official.property.page-break-after",
        "official.property.page-break-before",
        "official.property.page-break-inside",
        "official.property.quotes",
        "official.property.table-layout",
        "official.property.widows",
        "official.property.word-spacing",
        "official.property.text-combine-upright",
        "official.property.text-orientation",
        "official.property.unicode-bidi",
        "official.property.caret-color",
        "official.property.outline-offset",
        "official.property.resize",
        "official.property.contain",
        "official.property.transform-box",
        "official.property.background-blend-mode",
        "official.property.isolation",
        "official.property.mix-blend-mode",
        "official.property-alias.glyph-orientation-vertical",
        "official.selector.group",
        "official.selector.type",
        "official.selector.universal",
        "official.selector.attribute-presence-value",
        "official.selector.attribute-substring",
        "official.selector.class",
        "official.selector.id",
        "official.selector.dynamic",
        "official.selector.target",
        "official.selector.lang",
        "official.selector.ui-state",
        "official.selector.structural",
        "official.selector.negation",
        "official.selector.first-line",
        "official.selector.first-letter",
        "official.selector.generated",
    ]
}

#[verifier::opaque]
spec fn feature_order_chunk_7() -> Seq<int> {
    seq![408, 409, 421, 420, 422, 423, 411, 418, 417, 419, 404, 410, 413, 424, 416, 151, 415, 412, 405, 414, 406, 38, 30, 31, 70, 68, 67, 71, 72, 99, 66, 131, 37, 81, 145, 146, 101, 46, 20, 44, 26, 100, 161, 34, 35, 76, 41, 47, 39, 48, 75, 24, 49, 50, 28, 29, 73, 74, 77, 42]
}

#[verifier::opaque]
spec fn feature_rank_chunk_7() -> Seq<int> {
    seq![131, 132, 135, 133, 134, 182, 181, 180, 183, 179, 25, 22, 20, 27, 24, 21, 23, 26, 19, 315, 322, 323, 325, 327, 342, 344, 345, 346, 347, 349, 354, 355, 350, 351, 353, 324, 343, 348, 326, 352, 314, 338, 339, 313, 370, 378, 380, 359, 360, 361, 371, 366, 377, 372, 379, 376, 374, 368, 367, 369]
}

/// The stable identities of one part of the registry, in registry order.
#[verifier::opaque]
pub open spec fn feature_id_chunk_8() -> Seq<&'static str> {
    seq![
        "official.selector.combinator.descendant",
        "official.selector.combinator.child",
        "official.selector.combinator.next-sibling",
        "official.selector.combinator.subsequent-sibling",
        "official.selector.namespace-qualified-name",
        "ext.pseudo-element.marker",
        "ext.pseudo-element.selection",
        "ext.pseudo-element.backdrop",
        "ext.pseudo-element.generated-marker",
        "official.media.query-list-core",
        "ext.media.condition-syntax",
        "ext.media.malformed-member-never",
        "official.media.feature.width",
        "official.media.feature.height",
        "official.media.feature.device-width",
        "official.media.feature.device-height",
        "official.media.feature.aspect-ratio",
        "official.media.feature.device-aspect-ratio",
        "official.media.feature.resolution",
        "official.media.feature.color",
        "official.media.feature.color-index",
        "official.media.feature.monochrome",
        "official.media.feature.scan",
        "official.media.feature.grid",
        "ext.media.resolution.dppx",
        "ext.supports.general-enclosed",
        "ext.supports.selector",
        "ext.media.range.width",
        "ext.media.range.height",
        "ext.media.range.resolution",
        "ext.media.range.color",
        "ext.media.range.monochrome",
        "official.media.feature.orientation",
        "ext.media.hover",
        "ext.media.any-hover",
        "ext.media.pointer",
        "ext.media.any-pointer",
        "ext.media.prefers-color-scheme",
        "ext.media.prefers-reduced-motion",
        "ext.media.prefers-reduced-transparency",
        "ext.media.prefers-contrast",
        "ext.media.forced-colors",
        "ext.media.display-mode",
    ]
}

#[verifier::opaque]
spec fn feature_order_chunk_8() -> Seq<int> {
    seq![25, 51, 52, 162, 27, 65, 53, 85, 78, 83, 84, 69, 79, 80, 36, 40, 19, 104, 82, 102, 103, 21, 18, 147, 148, 149, 43, 32, 33, 87, 86, 88, 95, 92, 93, 94, 96, 97, 98, 89, 90, 91, 45]
}

#[verifier::opaque]
spec fn feature_rank_chunk_8() -> Seq<int> {
    seq![363, 362, 364, 365, 373, 236, 237, 234, 235, 312, 217, 221, 311, 306, 304, 303, 299, 302, 309, 300, 301, 307, 310, 305, 232, 239, 240, 231, 228, 230, 227, 229, 308, 220, 215, 222, 216, 223, 225, 226, 224, 219, 218]
}

/// The stable identity of record `k` of the registry, spelled out.
pub open spec fn feature_id_literal(k: int) -> &'static str {
    if k < 60 {
        feature_id_chunk_1()[k - 0]
    } else if k < 120 {
        feature_id_chunk_2()[k - 60]
    } else if k < 180 {
        feature_id_chunk_3()[k - 120]
    } else if k < 240 {
        feature_id_chunk_4()[k - 180]
    } else if k < 300 {
        feature_id_chunk_5()[k - 240]
    } else if k < 360 {
        feature_id_chunk_6()[k - 300]
    } else if k < 420 {
        feature_id_chunk_7()[k - 360]
    } else {
        feature_id_chunk_8()[k - 420]
    }
}

spec fn feature_order(k: int) -> int {
    if k < 60 {
        feature_order_chunk_1()[k - 0]
    } else if k < 120 {
        feature_order_chunk_2()[k - 60]
    } else if k < 180 {
        feature_order_chunk_3()[k - 120]
    } else if k < 240 {
        feature_order_chunk_4()[k - 180]
    } else if k < 300 {
        feature_order_chunk_5()[k - 240]
    } else if k < 360 {
        feature_order_chunk_6()[k - 300]
    } else if k < 420 {
        feature_order_chunk_7()[k - 360]
    } else {
        feature_order_chunk_8()[k - 420]
    }
}

spec fn feature_rank(k: int) -> int {
    if k < 60 {
        feature_rank_chunk_1()[k - 0]
    } else if k < 120 {
        feature_rank_chunk_2()[k - 60]
    } else if k < 180 {
        feature_rank_chunk_3()[k - 120]
    } else if k < 240 {
        feature_rank_chunk_4()[k - 180]
    } else if k < 300 {
        feature_rank_chunk_5()[k - 240]
    } else if k < 360 {
        feature_rank_chunk_6()[k - 300]
    } else if k < 420 {
        feature_rank_chunk_7()[k - 360]
    } else {
        feature_rank_chunk_8()[k - 420]
    }
}

proof fn lemma_feature_chunk_1_ids()
    ensures
        forall|i: int| 0 <= i < 60 ==> #[trigger] catalog_1::features()[i].spec_id()@ == feature_id_chunk_1()[i]@,
{
    broadcast use {CssFeatureMetadata::lemma_complete_parts, CssFeatureMetadata::lemma_partial_parts, CssFeatureMetadata::lemma_baseline_alias_parts, CssFeatureMetadata::lemma_recognized_unsupported_parts, CssFeatureMetadata::lemma_partial_property_parts, CssFeatureMetadata::lemma_complete_property_parts, CssFeatureMetadata::lemma_partial_property_with_boundary_parts};

    reveal(catalog_1::features);
    reveal(feature_id_chunk_1);
    CssFeatureId::lemma_spec_new_parts("baseline.rule.import");
    assert(catalog_1::features()[0].spec_id()@ == feature_id_chunk_1()[0]@);
    CssFeatureId::lemma_spec_new_parts("ext.import.layer");
    assert(catalog_1::features()[1].spec_id()@ == feature_id_chunk_1()[1]@);
    CssFeatureId::lemma_spec_new_parts("ext.stylesheet.prelude-order");
    assert(catalog_1::features()[2].spec_id()@ == feature_id_chunk_1()[2]@);
    CssFeatureId::lemma_spec_new_parts("baseline.rule.layer-statement");
    assert(catalog_1::features()[3].spec_id()@ == feature_id_chunk_1()[3]@);
    CssFeatureId::lemma_spec_new_parts("baseline.rule.layer-block");
    assert(catalog_1::features()[4].spec_id()@ == feature_id_chunk_1()[4]@);
    CssFeatureId::lemma_spec_new_parts("baseline.rule.font-face");
    assert(catalog_1::features()[5].spec_id()@ == feature_id_chunk_1()[5]@);
    CssFeatureId::lemma_spec_new_parts("baseline.rule.keyframes");
    assert(catalog_1::features()[6].spec_id()@ == feature_id_chunk_1()[6]@);
    CssFeatureId::lemma_spec_new_parts("baseline.rule.style");
    assert(catalog_1::features()[7].spec_id()@ == feature_id_chunk_1()[7]@);
    CssFeatureId::lemma_spec_new_parts("official.rule.at-rule");
    assert(catalog_1::features()[8].spec_id()@ == feature_id_chunk_1()[8]@);
    CssFeatureId::lemma_spec_new_parts("official.qualified-rule.generic");
    assert(catalog_1::features()[9].spec_id()@ == feature_id_chunk_1()[9]@);
    CssFeatureId::lemma_spec_new_parts("baseline.rule.media");
    assert(catalog_1::features()[10].spec_id()@ == feature_id_chunk_1()[10]@);
    CssFeatureId::lemma_spec_new_parts("official.rule.conditional-group-context");
    assert(catalog_1::features()[11].spec_id()@ == feature_id_chunk_1()[11]@);
    CssFeatureId::lemma_spec_new_parts("baseline.rule.container");
    assert(catalog_1::features()[12].spec_id()@ == feature_id_chunk_1()[12]@);
    CssFeatureId::lemma_spec_new_parts("baseline.rule.scope");
    assert(catalog_1::features()[13].spec_id()@ == feature_id_chunk_1()[13]@);
    CssFeatureId::lemma_spec_new_parts("foundation.encoding.charset");
    assert(catalog_1::features()[14].spec_id()@ == feature_id_chunk_1()[14]@);
    CssFeatureId::lemma_spec_new_parts("foundation.declaration-list.style-attribute");
    assert(catalog_1::features()[15].spec_id()@ == feature_id_chunk_1()[15]@);
    CssFeatureId::lemma_spec_new_parts("foundation.declaration.importance");
    assert(catalog_1::features()[16].spec_id()@ == feature_id_chunk_1()[16]@);
    CssFeatureId::lemma_spec_new_parts("official.declaration.generic");
    assert(catalog_1::features()[17].spec_id()@ == feature_id_chunk_1()[17]@);
    CssFeatureId::lemma_spec_new_parts("official.value.stylesheet");
    assert(catalog_1::features()[18].spec_id()@ == feature_id_chunk_1()[18]@);
    CssFeatureId::lemma_spec_new_parts("official.value.rule-list");
    assert(catalog_1::features()[19].spec_id()@ == feature_id_chunk_1()[19]@);
    CssFeatureId::lemma_spec_new_parts("official.value.declaration-list");
    assert(catalog_1::features()[20].spec_id()@ == feature_id_chunk_1()[20]@);
    CssFeatureId::lemma_spec_new_parts("official.value.style-block");
    assert(catalog_1::features()[21].spec_id()@ == feature_id_chunk_1()[21]@);
    CssFeatureId::lemma_spec_new_parts("baseline.declaration.custom-property");
    assert(catalog_1::features()[22].spec_id()@ == feature_id_chunk_1()[22]@);
    CssFeatureId::lemma_spec_new_parts("baseline.value.substitution-dependent");
    assert(catalog_1::features()[23].spec_id()@ == feature_id_chunk_1()[23]@);
    CssFeatureId::lemma_spec_new_parts("official.value.integer");
    assert(catalog_1::features()[24].spec_id()@ == feature_id_chunk_1()[24]@);
    CssFeatureId::lemma_spec_new_parts("official.value.number");
    assert(catalog_1::features()[25].spec_id()@ == feature_id_chunk_1()[25]@);
    CssFeatureId::lemma_spec_new_parts("official.value.dimension");
    assert(catalog_1::features()[26].spec_id()@ == feature_id_chunk_1()[26]@);
    CssFeatureId::lemma_spec_new_parts("official.value.percentage");
    assert(catalog_1::features()[27].spec_id()@ == feature_id_chunk_1()[27]@);
    CssFeatureId::lemma_spec_new_parts("official.value.length");
    assert(catalog_1::features()[28].spec_id()@ == feature_id_chunk_1()[28]@);
    CssFeatureId::lemma_spec_new_parts("official.value.length-percentage");
    assert(catalog_1::features()[29].spec_id()@ == feature_id_chunk_1()[29]@);
    CssFeatureId::lemma_spec_new_parts("official.value.angle");
    assert(catalog_1::features()[30].spec_id()@ == feature_id_chunk_1()[30]@);
    CssFeatureId::lemma_spec_new_parts("official.value.angle-percentage");
    assert(catalog_1::features()[31].spec_id()@ == feature_id_chunk_1()[31]@);
    CssFeatureId::lemma_spec_new_parts("official.value.time");
    assert(catalog_1::features()[32].spec_id()@ == feature_id_chunk_1()[32]@);
    CssFeatureId::lemma_spec_new_parts("official.value.time-percentage");
    assert(catalog_1::features()[33].spec_id()@ == feature_id_chunk_1()[33]@);
    CssFeatureId::lemma_spec_new_parts("official.value.frequency");
    assert(catalog_1::features()[34].spec_id()@ == feature_id_chunk_1()[34]@);
    CssFeatureId::lemma_spec_new_parts("official.value.frequency-percentage");
    assert(catalog_1::features()[35].spec_id()@ == feature_id_chunk_1()[35]@);
    CssFeatureId::lemma_spec_new_parts("official.value.resolution");
    assert(catalog_1::features()[36].spec_id()@ == feature_id_chunk_1()[36]@);
    CssFeatureId::lemma_spec_new_parts("official.value.color");
    assert(catalog_1::features()[37].spec_id()@ == feature_id_chunk_1()[37]@);
    CssFeatureId::lemma_spec_new_parts("official.value.alpha");
    assert(catalog_1::features()[38].spec_id()@ == feature_id_chunk_1()[38]@);
    CssFeatureId::lemma_spec_new_parts("official.value.hue");
    assert(catalog_1::features()[39].spec_id()@ == feature_id_chunk_1()[39]@);
    CssFeatureId::lemma_spec_new_parts("official.value.rgb");
    assert(catalog_1::features()[40].spec_id()@ == feature_id_chunk_1()[40]@);
    CssFeatureId::lemma_spec_new_parts("official.value.hex-color");
    assert(catalog_1::features()[41].spec_id()@ == feature_id_chunk_1()[41]@);
    CssFeatureId::lemma_spec_new_parts("official.value.named-color");
    assert(catalog_1::features()[42].spec_id()@ == feature_id_chunk_1()[42]@);
    CssFeatureId::lemma_spec_new_parts("official.value.system-color");
    assert(catalog_1::features()[43].spec_id()@ == feature_id_chunk_1()[43]@);
    CssFeatureId::lemma_spec_new_parts("official.value.deprecated-system-color");
    assert(catalog_1::features()[44].spec_id()@ == feature_id_chunk_1()[44]@);
    CssFeatureId::lemma_spec_new_parts("official.value.transparent");
    assert(catalog_1::features()[45].spec_id()@ == feature_id_chunk_1()[45]@);
    CssFeatureId::lemma_spec_new_parts("official.value.currentcolor");
    assert(catalog_1::features()[46].spec_id()@ == feature_id_chunk_1()[46]@);
    CssFeatureId::lemma_spec_new_parts("official.value.hsl");
    assert(catalog_1::features()[47].spec_id()@ == feature_id_chunk_1()[47]@);
    CssFeatureId::lemma_spec_new_parts("official.value.hwb");
    assert(catalog_1::features()[48].spec_id()@ == feature_id_chunk_1()[48]@);
    CssFeatureId::lemma_spec_new_parts("official.value.lab");
    assert(catalog_1::features()[49].spec_id()@ == feature_id_chunk_1()[49]@);
    CssFeatureId::lemma_spec_new_parts("official.value.lch");
    assert(catalog_1::features()[50].spec_id()@ == feature_id_chunk_1()[50]@);
    CssFeatureId::lemma_spec_new_parts("official.value.oklab");
    assert(catalog_1::features()[51].spec_id()@ == feature_id_chunk_1()[51]@);
    CssFeatureId::lemma_spec_new_parts("official.value.oklch");
    assert(catalog_1::features()[52].spec_id()@ == feature_id_chunk_1()[52]@);
    CssFeatureId::lemma_spec_new_parts("official.value.predefined-color");
    assert(catalog_1::features()[53].spec_id()@ == feature_id_chunk_1()[53]@);
    CssFeatureId::lemma_spec_new_parts("ext.value.relative-color");
    assert(catalog_1::features()[54].spec_id()@ == feature_id_chunk_1()[54]@);
    CssFeatureId::lemma_spec_new_parts("ext.value.relative-color.rgb");
    assert(catalog_1::features()[55].spec_id()@ == feature_id_chunk_1()[55]@);
    CssFeatureId::lemma_spec_new_parts("ext.value.relative-color.hsl");
    assert(catalog_1::features()[56].spec_id()@ == feature_id_chunk_1()[56]@);
    CssFeatureId::lemma_spec_new_parts("ext.value.relative-color.hwb");
    assert(catalog_1::features()[57].spec_id()@ == feature_id_chunk_1()[57]@);
    CssFeatureId::lemma_spec_new_parts("ext.value.relative-color.lab");
    assert(catalog_1::features()[58].spec_id()@ == feature_id_chunk_1()[58]@);
    CssFeatureId::lemma_spec_new_parts("ext.value.relative-color.oklab");
    assert(catalog_1::features()[59].spec_id()@ == feature_id_chunk_1()[59]@);
}

proof fn lemma_feature_chunk_2_ids()
    ensures
        forall|i: int| 0 <= i < 60 ==> #[trigger] catalog_2::features()[i].spec_id()@ == feature_id_chunk_2()[i]@,
{
    broadcast use {CssFeatureMetadata::lemma_complete_parts, CssFeatureMetadata::lemma_partial_parts, CssFeatureMetadata::lemma_baseline_alias_parts, CssFeatureMetadata::lemma_recognized_unsupported_parts, CssFeatureMetadata::lemma_partial_property_parts, CssFeatureMetadata::lemma_complete_property_parts, CssFeatureMetadata::lemma_partial_property_with_boundary_parts};

    reveal(catalog_2::features);
    reveal(feature_id_chunk_2);
    CssFeatureId::lemma_spec_new_parts("ext.value.relative-color.lch");
    assert(catalog_2::features()[0].spec_id()@ == feature_id_chunk_2()[0]@);
    CssFeatureId::lemma_spec_new_parts("ext.value.relative-color.oklch");
    assert(catalog_2::features()[1].spec_id()@ == feature_id_chunk_2()[1]@);
    CssFeatureId::lemma_spec_new_parts("ext.value.relative-color.predefined");
    assert(catalog_2::features()[2].spec_id()@ == feature_id_chunk_2()[2]@);
    CssFeatureId::lemma_spec_new_parts("ext.value.color-mix");
    assert(catalog_2::features()[3].spec_id()@ == feature_id_chunk_2()[3]@);
    CssFeatureId::lemma_spec_new_parts("ext.value.grid-repeat");
    assert(catalog_2::features()[4].spec_id()@ == feature_id_chunk_2()[4]@);
    CssFeatureId::lemma_spec_new_parts("official.value.position");
    assert(catalog_2::features()[5].spec_id()@ == feature_id_chunk_2()[5]@);
    CssFeatureId::lemma_spec_new_parts("official.value.box-edge-keywords");
    assert(catalog_2::features()[6].spec_id()@ == feature_id_chunk_2()[6]@);
    CssFeatureId::lemma_spec_new_parts("official.value.background-layer");
    assert(catalog_2::features()[7].spec_id()@ == feature_id_chunk_2()[7]@);
    CssFeatureId::lemma_spec_new_parts("official.value.background-image");
    assert(catalog_2::features()[8].spec_id()@ == feature_id_chunk_2()[8]@);
    CssFeatureId::lemma_spec_new_parts("official.value.repeat-style");
    assert(catalog_2::features()[9].spec_id()@ == feature_id_chunk_2()[9]@);
    CssFeatureId::lemma_spec_new_parts("official.value.background-attachment");
    assert(catalog_2::features()[10].spec_id()@ == feature_id_chunk_2()[10]@);
    CssFeatureId::lemma_spec_new_parts("official.value.background-position");
    assert(catalog_2::features()[11].spec_id()@ == feature_id_chunk_2()[11]@);
    CssFeatureId::lemma_spec_new_parts("official.value.background-size");
    assert(catalog_2::features()[12].spec_id()@ == feature_id_chunk_2()[12]@);
    CssFeatureId::lemma_spec_new_parts("official.value.line-style");
    assert(catalog_2::features()[13].spec_id()@ == feature_id_chunk_2()[13]@);
    CssFeatureId::lemma_spec_new_parts("official.value.line-width");
    assert(catalog_2::features()[14].spec_id()@ == feature_id_chunk_2()[14]@);
    CssFeatureId::lemma_spec_new_parts("official.value.image");
    assert(catalog_2::features()[15].spec_id()@ == feature_id_chunk_2()[15]@);
    CssFeatureId::lemma_spec_new_parts("official.value.gradient");
    assert(catalog_2::features()[16].spec_id()@ == feature_id_chunk_2()[16]@);
    CssFeatureId::lemma_spec_new_parts("official.value.linear-gradient");
    assert(catalog_2::features()[17].spec_id()@ == feature_id_chunk_2()[17]@);
    CssFeatureId::lemma_spec_new_parts("official.value.radial-gradient");
    assert(catalog_2::features()[18].spec_id()@ == feature_id_chunk_2()[18]@);
    CssFeatureId::lemma_spec_new_parts("official.value.repeating-linear-gradient");
    assert(catalog_2::features()[19].spec_id()@ == feature_id_chunk_2()[19]@);
    CssFeatureId::lemma_spec_new_parts("official.value.repeating-radial-gradient");
    assert(catalog_2::features()[20].spec_id()@ == feature_id_chunk_2()[20]@);
    CssFeatureId::lemma_spec_new_parts("official.value.color-stop-list");
    assert(catalog_2::features()[21].spec_id()@ == feature_id_chunk_2()[21]@);
    CssFeatureId::lemma_spec_new_parts("official.value.side-or-corner");
    assert(catalog_2::features()[22].spec_id()@ == feature_id_chunk_2()[22]@);
    CssFeatureId::lemma_spec_new_parts("official.value.radial-shape");
    assert(catalog_2::features()[23].spec_id()@ == feature_id_chunk_2()[23]@);
    CssFeatureId::lemma_spec_new_parts("official.value.radial-size");
    assert(catalog_2::features()[24].spec_id()@ == feature_id_chunk_2()[24]@);
    CssFeatureId::lemma_spec_new_parts("official.value.radial-extent");
    assert(catalog_2::features()[25].spec_id()@ == feature_id_chunk_2()[25]@);
    CssFeatureId::lemma_spec_new_parts("official.value.transform-list");
    assert(catalog_2::features()[26].spec_id()@ == feature_id_chunk_2()[26]@);
    CssFeatureId::lemma_spec_new_parts("official.value.transform-function");
    assert(catalog_2::features()[27].spec_id()@ == feature_id_chunk_2()[27]@);
    CssFeatureId::lemma_spec_new_parts("official.value.transform.matrix");
    assert(catalog_2::features()[28].spec_id()@ == feature_id_chunk_2()[28]@);
    CssFeatureId::lemma_spec_new_parts("official.value.transform.translate");
    assert(catalog_2::features()[29].spec_id()@ == feature_id_chunk_2()[29]@);
    CssFeatureId::lemma_spec_new_parts("official.value.transform.translate-x");
    assert(catalog_2::features()[30].spec_id()@ == feature_id_chunk_2()[30]@);
    CssFeatureId::lemma_spec_new_parts("official.value.transform.translate-y");
    assert(catalog_2::features()[31].spec_id()@ == feature_id_chunk_2()[31]@);
    CssFeatureId::lemma_spec_new_parts("official.value.transform.scale");
    assert(catalog_2::features()[32].spec_id()@ == feature_id_chunk_2()[32]@);
    CssFeatureId::lemma_spec_new_parts("official.value.transform.scale-x");
    assert(catalog_2::features()[33].spec_id()@ == feature_id_chunk_2()[33]@);
    CssFeatureId::lemma_spec_new_parts("official.value.transform.scale-y");
    assert(catalog_2::features()[34].spec_id()@ == feature_id_chunk_2()[34]@);
    CssFeatureId::lemma_spec_new_parts("official.value.transform.rotate");
    assert(catalog_2::features()[35].spec_id()@ == feature_id_chunk_2()[35]@);
    CssFeatureId::lemma_spec_new_parts("official.value.transform.skew");
    assert(catalog_2::features()[36].spec_id()@ == feature_id_chunk_2()[36]@);
    CssFeatureId::lemma_spec_new_parts("official.value.transform.skew-x");
    assert(catalog_2::features()[37].spec_id()@ == feature_id_chunk_2()[37]@);
    CssFeatureId::lemma_spec_new_parts("official.value.transform.skew-y");
    assert(catalog_2::features()[38].spec_id()@ == feature_id_chunk_2()[38]@);
    CssFeatureId::lemma_spec_new_parts("official.value.blend-mode");
    assert(catalog_2::features()[39].spec_id()@ == feature_id_chunk_2()[39]@);
    CssFeatureId::lemma_spec_new_parts("official.value.easing-function");
    assert(catalog_2::features()[40].spec_id()@ == feature_id_chunk_2()[40]@);
    CssFeatureId::lemma_spec_new_parts("official.value.cubic-bezier-easing");
    assert(catalog_2::features()[41].spec_id()@ == feature_id_chunk_2()[41]@);
    CssFeatureId::lemma_spec_new_parts("official.value.step-easing");
    assert(catalog_2::features()[42].spec_id()@ == feature_id_chunk_2()[42]@);
    CssFeatureId::lemma_spec_new_parts("official.value.step-position");
    assert(catalog_2::features()[43].spec_id()@ == feature_id_chunk_2()[43]@);
    CssFeatureId::lemma_spec_new_parts("official.value.shadow");
    assert(catalog_2::features()[44].spec_id()@ == feature_id_chunk_2()[44]@);
    CssFeatureId::lemma_spec_new_parts("ext.value.transform.matrix3d");
    assert(catalog_2::features()[45].spec_id()@ == feature_id_chunk_2()[45]@);
    CssFeatureId::lemma_spec_new_parts("ext.value.transform.perspective");
    assert(catalog_2::features()[46].spec_id()@ == feature_id_chunk_2()[46]@);
    CssFeatureId::lemma_spec_new_parts("ext.value.transform.rotate3d");
    assert(catalog_2::features()[47].spec_id()@ == feature_id_chunk_2()[47]@);
    CssFeatureId::lemma_spec_new_parts("ext.value.transform.rotate-x");
    assert(catalog_2::features()[48].spec_id()@ == feature_id_chunk_2()[48]@);
    CssFeatureId::lemma_spec_new_parts("ext.value.transform.rotate-y");
    assert(catalog_2::features()[49].spec_id()@ == feature_id_chunk_2()[49]@);
    CssFeatureId::lemma_spec_new_parts("ext.value.transform.rotate-z");
    assert(catalog_2::features()[50].spec_id()@ == feature_id_chunk_2()[50]@);
    CssFeatureId::lemma_spec_new_parts("ext.value.transform.scale3d");
    assert(catalog_2::features()[51].spec_id()@ == feature_id_chunk_2()[51]@);
    CssFeatureId::lemma_spec_new_parts("ext.value.transform.scale-z");
    assert(catalog_2::features()[52].spec_id()@ == feature_id_chunk_2()[52]@);
    CssFeatureId::lemma_spec_new_parts("ext.value.transform.translate3d");
    assert(catalog_2::features()[53].spec_id()@ == feature_id_chunk_2()[53]@);
    CssFeatureId::lemma_spec_new_parts("ext.value.transform.translate-z");
    assert(catalog_2::features()[54].spec_id()@ == feature_id_chunk_2()[54]@);
    CssFeatureId::lemma_spec_new_parts("ext.value.filter-function-list");
    assert(catalog_2::features()[55].spec_id()@ == feature_id_chunk_2()[55]@);
    CssFeatureId::lemma_spec_new_parts("ext.value.filter.blur");
    assert(catalog_2::features()[56].spec_id()@ == feature_id_chunk_2()[56]@);
    CssFeatureId::lemma_spec_new_parts("ext.value.filter.brightness");
    assert(catalog_2::features()[57].spec_id()@ == feature_id_chunk_2()[57]@);
    CssFeatureId::lemma_spec_new_parts("ext.value.filter.contrast");
    assert(catalog_2::features()[58].spec_id()@ == feature_id_chunk_2()[58]@);
    CssFeatureId::lemma_spec_new_parts("ext.value.filter.grayscale");
    assert(catalog_2::features()[59].spec_id()@ == feature_id_chunk_2()[59]@);
}

proof fn lemma_feature_chunk_3_ids()
    ensures
        forall|i: int| 0 <= i < 60 ==> #[trigger] catalog_3::features()[i].spec_id()@ == feature_id_chunk_3()[i]@,
{
    broadcast use {CssFeatureMetadata::lemma_complete_parts, CssFeatureMetadata::lemma_partial_parts, CssFeatureMetadata::lemma_baseline_alias_parts, CssFeatureMetadata::lemma_recognized_unsupported_parts, CssFeatureMetadata::lemma_partial_property_parts, CssFeatureMetadata::lemma_complete_property_parts, CssFeatureMetadata::lemma_partial_property_with_boundary_parts};

    reveal(catalog_3::features);
    reveal(feature_id_chunk_3);
    CssFeatureId::lemma_spec_new_parts("ext.value.filter.hue-rotate");
    assert(catalog_3::features()[0].spec_id()@ == feature_id_chunk_3()[0]@);
    CssFeatureId::lemma_spec_new_parts("ext.value.filter.invert");
    assert(catalog_3::features()[1].spec_id()@ == feature_id_chunk_3()[1]@);
    CssFeatureId::lemma_spec_new_parts("ext.value.filter.opacity");
    assert(catalog_3::features()[2].spec_id()@ == feature_id_chunk_3()[2]@);
    CssFeatureId::lemma_spec_new_parts("ext.value.filter.saturate");
    assert(catalog_3::features()[3].spec_id()@ == feature_id_chunk_3()[3]@);
    CssFeatureId::lemma_spec_new_parts("ext.value.filter.sepia");
    assert(catalog_3::features()[4].spec_id()@ == feature_id_chunk_3()[4]@);
    CssFeatureId::lemma_spec_new_parts("ext.value.filter.drop-shadow");
    assert(catalog_3::features()[5].spec_id()@ == feature_id_chunk_3()[5]@);
    CssFeatureId::lemma_spec_new_parts("ext.value.basic-shape");
    assert(catalog_3::features()[6].spec_id()@ == feature_id_chunk_3()[6]@);
    CssFeatureId::lemma_spec_new_parts("ext.value.basic-shape.inset");
    assert(catalog_3::features()[7].spec_id()@ == feature_id_chunk_3()[7]@);
    CssFeatureId::lemma_spec_new_parts("ext.value.basic-shape.circle");
    assert(catalog_3::features()[8].spec_id()@ == feature_id_chunk_3()[8]@);
    CssFeatureId::lemma_spec_new_parts("ext.value.basic-shape.ellipse");
    assert(catalog_3::features()[9].spec_id()@ == feature_id_chunk_3()[9]@);
    CssFeatureId::lemma_spec_new_parts("ext.value.basic-shape.polygon");
    assert(catalog_3::features()[10].spec_id()@ == feature_id_chunk_3()[10]@);
    CssFeatureId::lemma_spec_new_parts("official.value.calc");
    assert(catalog_3::features()[11].spec_id()@ == feature_id_chunk_3()[11]@);
    CssFeatureId::lemma_spec_new_parts("later.rule.namespace");
    assert(catalog_3::features()[12].spec_id()@ == feature_id_chunk_3()[12]@);
    CssFeatureId::lemma_spec_new_parts("later.rule.supports");
    assert(catalog_3::features()[13].spec_id()@ == feature_id_chunk_3()[13]@);
    CssFeatureId::lemma_spec_new_parts("later.rule.counter-style");
    assert(catalog_3::features()[14].spec_id()@ == feature_id_chunk_3()[14]@);
    CssFeatureId::lemma_spec_new_parts("official.descriptor.counter-style.system");
    assert(catalog_3::features()[15].spec_id()@ == feature_id_chunk_3()[15]@);
    CssFeatureId::lemma_spec_new_parts("official.descriptor.counter-style.negative");
    assert(catalog_3::features()[16].spec_id()@ == feature_id_chunk_3()[16]@);
    CssFeatureId::lemma_spec_new_parts("official.descriptor.counter-style.prefix");
    assert(catalog_3::features()[17].spec_id()@ == feature_id_chunk_3()[17]@);
    CssFeatureId::lemma_spec_new_parts("official.descriptor.counter-style.suffix");
    assert(catalog_3::features()[18].spec_id()@ == feature_id_chunk_3()[18]@);
    CssFeatureId::lemma_spec_new_parts("official.descriptor.counter-style.range");
    assert(catalog_3::features()[19].spec_id()@ == feature_id_chunk_3()[19]@);
    CssFeatureId::lemma_spec_new_parts("official.descriptor.counter-style.pad");
    assert(catalog_3::features()[20].spec_id()@ == feature_id_chunk_3()[20]@);
    CssFeatureId::lemma_spec_new_parts("official.descriptor.counter-style.fallback");
    assert(catalog_3::features()[21].spec_id()@ == feature_id_chunk_3()[21]@);
    CssFeatureId::lemma_spec_new_parts("official.descriptor.counter-style.symbols");
    assert(catalog_3::features()[22].spec_id()@ == feature_id_chunk_3()[22]@);
    CssFeatureId::lemma_spec_new_parts("official.descriptor.counter-style.additive-symbols");
    assert(catalog_3::features()[23].spec_id()@ == feature_id_chunk_3()[23]@);
    CssFeatureId::lemma_spec_new_parts("official.descriptor.counter-style.speak-as");
    assert(catalog_3::features()[24].spec_id()@ == feature_id_chunk_3()[24]@);
    CssFeatureId::lemma_spec_new_parts("official.value.counter-style");
    assert(catalog_3::features()[25].spec_id()@ == feature_id_chunk_3()[25]@);
    CssFeatureId::lemma_spec_new_parts("official.value.counter-style-name");
    assert(catalog_3::features()[26].spec_id()@ == feature_id_chunk_3()[26]@);
    CssFeatureId::lemma_spec_new_parts("official.value.symbol");
    assert(catalog_3::features()[27].spec_id()@ == feature_id_chunk_3()[27]@);
    CssFeatureId::lemma_spec_new_parts("official.value.symbols-function");
    assert(catalog_3::features()[28].spec_id()@ == feature_id_chunk_3()[28]@);
    CssFeatureId::lemma_spec_new_parts("official.value.symbols-type");
    assert(catalog_3::features()[29].spec_id()@ == feature_id_chunk_3()[29]@);
    CssFeatureId::lemma_spec_new_parts("later.rule.page");
    assert(catalog_3::features()[30].spec_id()@ == feature_id_chunk_3()[30]@);
    CssFeatureId::lemma_spec_new_parts("official.selector.page-pseudo");
    assert(catalog_3::features()[31].spec_id()@ == feature_id_chunk_3()[31]@);
    CssFeatureId::lemma_spec_new_parts("later.rule.font-feature-values");
    assert(catalog_3::features()[32].spec_id()@ == feature_id_chunk_3()[32]@);
    CssFeatureId::lemma_spec_new_parts("baseline.descriptor.font-family");
    assert(catalog_3::features()[33].spec_id()@ == feature_id_chunk_3()[33]@);
    CssFeatureId::lemma_spec_new_parts("baseline.descriptor.src");
    assert(catalog_3::features()[34].spec_id()@ == feature_id_chunk_3()[34]@);
    CssFeatureId::lemma_spec_new_parts("baseline.descriptor.font-weight");
    assert(catalog_3::features()[35].spec_id()@ == feature_id_chunk_3()[35]@);
    CssFeatureId::lemma_spec_new_parts("baseline.descriptor.font-style");
    assert(catalog_3::features()[36].spec_id()@ == feature_id_chunk_3()[36]@);
    CssFeatureId::lemma_spec_new_parts("baseline.descriptor.font-stretch");
    assert(catalog_3::features()[37].spec_id()@ == feature_id_chunk_3()[37]@);
    CssFeatureId::lemma_spec_new_parts("baseline.descriptor.font-display");
    assert(catalog_3::features()[38].spec_id()@ == feature_id_chunk_3()[38]@);
    CssFeatureId::lemma_spec_new_parts("baseline.descriptor.unicode-range");
    assert(catalog_3::features()[39].spec_id()@ == feature_id_chunk_3()[39]@);
    CssFeatureId::lemma_spec_new_parts("official.descriptor.font-feature-settings");
    assert(catalog_3::features()[40].spec_id()@ == feature_id_chunk_3()[40]@);
    CssFeatureId::lemma_spec_new_parts("official.value.font-source");
    assert(catalog_3::features()[41].spec_id()@ == feature_id_chunk_3()[41]@);
    CssFeatureId::lemma_spec_new_parts("official.value.opentype-tag");
    assert(catalog_3::features()[42].spec_id()@ == feature_id_chunk_3()[42]@);
    CssFeatureId::lemma_spec_new_parts("ext.descriptor.font-weight-range");
    assert(catalog_3::features()[43].spec_id()@ == feature_id_chunk_3()[43]@);
    CssFeatureId::lemma_spec_new_parts("ext.descriptor.font-style-oblique-range");
    assert(catalog_3::features()[44].spec_id()@ == feature_id_chunk_3()[44]@);
    CssFeatureId::lemma_spec_new_parts("ext.descriptor.font-stretch-range");
    assert(catalog_3::features()[45].spec_id()@ == feature_id_chunk_3()[45]@);
    CssFeatureId::lemma_spec_new_parts("ext.value.font-source-modern-hints");
    assert(catalog_3::features()[46].spec_id()@ == feature_id_chunk_3()[46]@);
    CssFeatureId::lemma_spec_new_parts("baseline.selector.complex");
    assert(catalog_3::features()[47].spec_id()@ == feature_id_chunk_3()[47]@);
    CssFeatureId::lemma_spec_new_parts("baseline.selector.pseudo-class");
    assert(catalog_3::features()[48].spec_id()@ == feature_id_chunk_3()[48]@);
    CssFeatureId::lemma_spec_new_parts("baseline.selector.functional");
    assert(catalog_3::features()[49].spec_id()@ == feature_id_chunk_3()[49]@);
    CssFeatureId::lemma_spec_new_parts("baseline.selector.extension-state");
    assert(catalog_3::features()[50].spec_id()@ == feature_id_chunk_3()[50]@);
    CssFeatureId::lemma_spec_new_parts("baseline.selector.extension-functional");
    assert(catalog_3::features()[51].spec_id()@ == feature_id_chunk_3()[51]@);
    CssFeatureId::lemma_spec_new_parts("baseline.selector.attribute-case");
    assert(catalog_3::features()[52].spec_id()@ == feature_id_chunk_3()[52]@);
    CssFeatureId::lemma_spec_new_parts("baseline.selector.pseudo-element");
    assert(catalog_3::features()[53].spec_id()@ == feature_id_chunk_3()[53]@);
    CssFeatureId::lemma_spec_new_parts("baseline.selector.nesting");
    assert(catalog_3::features()[54].spec_id()@ == feature_id_chunk_3()[54]@);
    CssFeatureId::lemma_spec_new_parts("baseline.media.query-list");
    assert(catalog_3::features()[55].spec_id()@ == feature_id_chunk_3()[55]@);
    CssFeatureId::lemma_spec_new_parts("baseline.media.type");
    assert(catalog_3::features()[56].spec_id()@ == feature_id_chunk_3()[56]@);
    CssFeatureId::lemma_spec_new_parts("baseline.media.range-feature");
    assert(catalog_3::features()[57].spec_id()@ == feature_id_chunk_3()[57]@);
    CssFeatureId::lemma_spec_new_parts("baseline.media.discrete-feature");
    assert(catalog_3::features()[58].spec_id()@ == feature_id_chunk_3()[58]@);
    CssFeatureId::lemma_spec_new_parts("baseline.container.condition");
    assert(catalog_3::features()[59].spec_id()@ == feature_id_chunk_3()[59]@);
}

proof fn lemma_feature_chunk_4_ids()
    ensures
        forall|i: int| 0 <= i < 60 ==> #[trigger] catalog_4::features()[i].spec_id()@ == feature_id_chunk_4()[i]@,
{
    broadcast use {CssFeatureMetadata::lemma_complete_parts, CssFeatureMetadata::lemma_partial_parts, CssFeatureMetadata::lemma_baseline_alias_parts, CssFeatureMetadata::lemma_recognized_unsupported_parts, CssFeatureMetadata::lemma_partial_property_parts, CssFeatureMetadata::lemma_complete_property_parts, CssFeatureMetadata::lemma_partial_property_with_boundary_parts};

    reveal(catalog_4::features);
    reveal(feature_id_chunk_4);
    CssFeatureId::lemma_spec_new_parts("baseline.container.size-feature");
    assert(catalog_4::features()[0].spec_id()@ == feature_id_chunk_4()[0]@);
    CssFeatureId::lemma_spec_new_parts("baseline.property.all");
    assert(catalog_4::features()[1].spec_id()@ == feature_id_chunk_4()[1]@);
    CssFeatureId::lemma_spec_new_parts("baseline.property.display");
    assert(catalog_4::features()[2].spec_id()@ == feature_id_chunk_4()[2]@);
    CssFeatureId::lemma_spec_new_parts("baseline.property.box-sizing");
    assert(catalog_4::features()[3].spec_id()@ == feature_id_chunk_4()[3]@);
    CssFeatureId::lemma_spec_new_parts("baseline.property.position");
    assert(catalog_4::features()[4].spec_id()@ == feature_id_chunk_4()[4]@);
    CssFeatureId::lemma_spec_new_parts("baseline.property.direction");
    assert(catalog_4::features()[5].spec_id()@ == feature_id_chunk_4()[5]@);
    CssFeatureId::lemma_spec_new_parts("baseline.property.overflow");
    assert(catalog_4::features()[6].spec_id()@ == feature_id_chunk_4()[6]@);
    CssFeatureId::lemma_spec_new_parts("baseline.property.overflow-x");
    assert(catalog_4::features()[7].spec_id()@ == feature_id_chunk_4()[7]@);
    CssFeatureId::lemma_spec_new_parts("baseline.property.overflow-y");
    assert(catalog_4::features()[8].spec_id()@ == feature_id_chunk_4()[8]@);
    CssFeatureId::lemma_spec_new_parts("baseline.property.flex-direction");
    assert(catalog_4::features()[9].spec_id()@ == feature_id_chunk_4()[9]@);
    CssFeatureId::lemma_spec_new_parts("baseline.property.flex-wrap");
    assert(catalog_4::features()[10].spec_id()@ == feature_id_chunk_4()[10]@);
    CssFeatureId::lemma_spec_new_parts("baseline.property.float");
    assert(catalog_4::features()[11].spec_id()@ == feature_id_chunk_4()[11]@);
    CssFeatureId::lemma_spec_new_parts("baseline.property.clear");
    assert(catalog_4::features()[12].spec_id()@ == feature_id_chunk_4()[12]@);
    CssFeatureId::lemma_spec_new_parts("baseline.property.align-content");
    assert(catalog_4::features()[13].spec_id()@ == feature_id_chunk_4()[13]@);
    CssFeatureId::lemma_spec_new_parts("baseline.property.justify-content");
    assert(catalog_4::features()[14].spec_id()@ == feature_id_chunk_4()[14]@);
    CssFeatureId::lemma_spec_new_parts("baseline.property.align-items");
    assert(catalog_4::features()[15].spec_id()@ == feature_id_chunk_4()[15]@);
    CssFeatureId::lemma_spec_new_parts("baseline.property.align-self");
    assert(catalog_4::features()[16].spec_id()@ == feature_id_chunk_4()[16]@);
    CssFeatureId::lemma_spec_new_parts("baseline.property.justify-items");
    assert(catalog_4::features()[17].spec_id()@ == feature_id_chunk_4()[17]@);
    CssFeatureId::lemma_spec_new_parts("baseline.property.justify-self");
    assert(catalog_4::features()[18].spec_id()@ == feature_id_chunk_4()[18]@);
    CssFeatureId::lemma_spec_new_parts("baseline.property.place-content");
    assert(catalog_4::features()[19].spec_id()@ == feature_id_chunk_4()[19]@);
    CssFeatureId::lemma_spec_new_parts("baseline.property.place-items");
    assert(catalog_4::features()[20].spec_id()@ == feature_id_chunk_4()[20]@);
    CssFeatureId::lemma_spec_new_parts("baseline.property.place-self");
    assert(catalog_4::features()[21].spec_id()@ == feature_id_chunk_4()[21]@);
    CssFeatureId::lemma_spec_new_parts("baseline.property.visibility");
    assert(catalog_4::features()[22].spec_id()@ == feature_id_chunk_4()[22]@);
    CssFeatureId::lemma_spec_new_parts("baseline.property.content");
    assert(catalog_4::features()[23].spec_id()@ == feature_id_chunk_4()[23]@);
    CssFeatureId::lemma_spec_new_parts("baseline.property.content-visibility");
    assert(catalog_4::features()[24].spec_id()@ == feature_id_chunk_4()[24]@);
    CssFeatureId::lemma_spec_new_parts("baseline.property.list-style-type");
    assert(catalog_4::features()[25].spec_id()@ == feature_id_chunk_4()[25]@);
    CssFeatureId::lemma_spec_new_parts("baseline.property.list-style-position");
    assert(catalog_4::features()[26].spec_id()@ == feature_id_chunk_4()[26]@);
    CssFeatureId::lemma_spec_new_parts("baseline.property.list-style-image");
    assert(catalog_4::features()[27].spec_id()@ == feature_id_chunk_4()[27]@);
    CssFeatureId::lemma_spec_new_parts("baseline.property.list-style");
    assert(catalog_4::features()[28].spec_id()@ == feature_id_chunk_4()[28]@);
    CssFeatureId::lemma_spec_new_parts("baseline.property.counter-reset");
    assert(catalog_4::features()[29].spec_id()@ == feature_id_chunk_4()[29]@);
    CssFeatureId::lemma_spec_new_parts("baseline.property.counter-increment");
    assert(catalog_4::features()[30].spec_id()@ == feature_id_chunk_4()[30]@);
    CssFeatureId::lemma_spec_new_parts("baseline.property.counter-set");
    assert(catalog_4::features()[31].spec_id()@ == feature_id_chunk_4()[31]@);
    CssFeatureId::lemma_spec_new_parts("baseline.property.width");
    assert(catalog_4::features()[32].spec_id()@ == feature_id_chunk_4()[32]@);
    CssFeatureId::lemma_spec_new_parts("baseline.property.height");
    assert(catalog_4::features()[33].spec_id()@ == feature_id_chunk_4()[33]@);
    CssFeatureId::lemma_spec_new_parts("baseline.property.min-width");
    assert(catalog_4::features()[34].spec_id()@ == feature_id_chunk_4()[34]@);
    CssFeatureId::lemma_spec_new_parts("baseline.property.min-height");
    assert(catalog_4::features()[35].spec_id()@ == feature_id_chunk_4()[35]@);
    CssFeatureId::lemma_spec_new_parts("baseline.property.max-width");
    assert(catalog_4::features()[36].spec_id()@ == feature_id_chunk_4()[36]@);
    CssFeatureId::lemma_spec_new_parts("baseline.property.max-height");
    assert(catalog_4::features()[37].spec_id()@ == feature_id_chunk_4()[37]@);
    CssFeatureId::lemma_spec_new_parts("baseline.property.flex-basis");
    assert(catalog_4::features()[38].spec_id()@ == feature_id_chunk_4()[38]@);
    CssFeatureId::lemma_spec_new_parts("baseline.property.gap");
    assert(catalog_4::features()[39].spec_id()@ == feature_id_chunk_4()[39]@);
    CssFeatureId::lemma_spec_new_parts("baseline.property.row-gap");
    assert(catalog_4::features()[40].spec_id()@ == feature_id_chunk_4()[40]@);
    CssFeatureId::lemma_spec_new_parts("baseline.property.column-gap");
    assert(catalog_4::features()[41].spec_id()@ == feature_id_chunk_4()[41]@);
    CssFeatureId::lemma_spec_new_parts("baseline.property.grid-flow-tolerance");
    assert(catalog_4::features()[42].spec_id()@ == feature_id_chunk_4()[42]@);
    CssFeatureId::lemma_spec_new_parts("baseline.property.grid-template-rows");
    assert(catalog_4::features()[43].spec_id()@ == feature_id_chunk_4()[43]@);
    CssFeatureId::lemma_spec_new_parts("baseline.property.grid-template-columns");
    assert(catalog_4::features()[44].spec_id()@ == feature_id_chunk_4()[44]@);
    CssFeatureId::lemma_spec_new_parts("baseline.property.grid-template-areas");
    assert(catalog_4::features()[45].spec_id()@ == feature_id_chunk_4()[45]@);
    CssFeatureId::lemma_spec_new_parts("baseline.property.grid-template");
    assert(catalog_4::features()[46].spec_id()@ == feature_id_chunk_4()[46]@);
    CssFeatureId::lemma_spec_new_parts("baseline.property.grid-auto-rows");
    assert(catalog_4::features()[47].spec_id()@ == feature_id_chunk_4()[47]@);
    CssFeatureId::lemma_spec_new_parts("baseline.property.grid-auto-columns");
    assert(catalog_4::features()[48].spec_id()@ == feature_id_chunk_4()[48]@);
    CssFeatureId::lemma_spec_new_parts("baseline.property.grid-auto-flow");
    assert(catalog_4::features()[49].spec_id()@ == feature_id_chunk_4()[49]@);
    CssFeatureId::lemma_spec_new_parts("baseline.property.grid-row-start");
    assert(catalog_4::features()[50].spec_id()@ == feature_id_chunk_4()[50]@);
    CssFeatureId::lemma_spec_new_parts("baseline.property.grid-row-end");
    assert(catalog_4::features()[51].spec_id()@ == feature_id_chunk_4()[51]@);
    CssFeatureId::lemma_spec_new_parts("baseline.property.grid-column-start");
    assert(catalog_4::features()[52].spec_id()@ == feature_id_chunk_4()[52]@);
    CssFeatureId::lemma_spec_new_parts("baseline.property.grid-column-end");
    assert(catalog_4::features()[53].spec_id()@ == feature_id_chunk_4()[53]@);
    CssFeatureId::lemma_spec_new_parts("baseline.property.grid-row");
    assert(catalog_4::features()[54].spec_id()@ == feature_id_chunk_4()[54]@);
    CssFeatureId::lemma_spec_new_parts("baseline.property.grid-column");
    assert(catalog_4::features()[55].spec_id()@ == feature_id_chunk_4()[55]@);
    CssFeatureId::lemma_spec_new_parts("baseline.property.grid-area");
    assert(catalog_4::features()[56].spec_id()@ == feature_id_chunk_4()[56]@);
    CssFeatureId::lemma_spec_new_parts("baseline.property.grid");
    assert(catalog_4::features()[57].spec_id()@ == feature_id_chunk_4()[57]@);
    CssFeatureId::lemma_spec_new_parts("baseline.property.font-size");
    assert(catalog_4::features()[58].spec_id()@ == feature_id_chunk_4()[58]@);
    CssFeatureId::lemma_spec_new_parts("baseline.property.line-height");
    assert(catalog_4::features()[59].spec_id()@ == feature_id_chunk_4()[59]@);
}

proof fn lemma_feature_chunk_5_ids()
    ensures
        forall|i: int| 0 <= i < 60 ==> #[trigger] catalog_5::features()[i].spec_id()@ == feature_id_chunk_5()[i]@,
{
    broadcast use {CssFeatureMetadata::lemma_complete_parts, CssFeatureMetadata::lemma_partial_parts, CssFeatureMetadata::lemma_baseline_alias_parts, CssFeatureMetadata::lemma_recognized_unsupported_parts, CssFeatureMetadata::lemma_partial_property_parts, CssFeatureMetadata::lemma_complete_property_parts, CssFeatureMetadata::lemma_partial_property_with_boundary_parts};

    reveal(catalog_5::features);
    reveal(feature_id_chunk_5);
    CssFeatureId::lemma_spec_new_parts("baseline.property.writing-mode");
    assert(catalog_5::features()[0].spec_id()@ == feature_id_chunk_5()[0]@);
    CssFeatureId::lemma_spec_new_parts("baseline.property.text-align");
    assert(catalog_5::features()[1].spec_id()@ == feature_id_chunk_5()[1]@);
    CssFeatureId::lemma_spec_new_parts("baseline.property.text-align-last");
    assert(catalog_5::features()[2].spec_id()@ == feature_id_chunk_5()[2]@);
    CssFeatureId::lemma_spec_new_parts("baseline.property.text-indent");
    assert(catalog_5::features()[3].spec_id()@ == feature_id_chunk_5()[3]@);
    CssFeatureId::lemma_spec_new_parts("baseline.property.vertical-align");
    assert(catalog_5::features()[4].spec_id()@ == feature_id_chunk_5()[4]@);
    CssFeatureId::lemma_spec_new_parts("baseline.property.font-family");
    assert(catalog_5::features()[5].spec_id()@ == feature_id_chunk_5()[5]@);
    CssFeatureId::lemma_spec_new_parts("baseline.property.font");
    assert(catalog_5::features()[6].spec_id()@ == feature_id_chunk_5()[6]@);
    CssFeatureId::lemma_spec_new_parts("baseline.property.font-weight");
    assert(catalog_5::features()[7].spec_id()@ == feature_id_chunk_5()[7]@);
    CssFeatureId::lemma_spec_new_parts("baseline.property.font-style");
    assert(catalog_5::features()[8].spec_id()@ == feature_id_chunk_5()[8]@);
    CssFeatureId::lemma_spec_new_parts("baseline.property.font-stretch");
    assert(catalog_5::features()[9].spec_id()@ == feature_id_chunk_5()[9]@);
    CssFeatureId::lemma_spec_new_parts("baseline.property.font-variant");
    assert(catalog_5::features()[10].spec_id()@ == feature_id_chunk_5()[10]@);
    CssFeatureId::lemma_spec_new_parts("official.property.font-variant-caps");
    assert(catalog_5::features()[11].spec_id()@ == feature_id_chunk_5()[11]@);
    CssFeatureId::lemma_spec_new_parts("official.property.font-variant-east-asian");
    assert(catalog_5::features()[12].spec_id()@ == feature_id_chunk_5()[12]@);
    CssFeatureId::lemma_spec_new_parts("official.property.font-variant-ligatures");
    assert(catalog_5::features()[13].spec_id()@ == feature_id_chunk_5()[13]@);
    CssFeatureId::lemma_spec_new_parts("official.property.font-variant-numeric");
    assert(catalog_5::features()[14].spec_id()@ == feature_id_chunk_5()[14]@);
    CssFeatureId::lemma_spec_new_parts("official.property.font-variant-position");
    assert(catalog_5::features()[15].spec_id()@ == feature_id_chunk_5()[15]@);
    CssFeatureId::lemma_spec_new_parts("baseline.property.font-feature-settings");
    assert(catalog_5::features()[16].spec_id()@ == feature_id_chunk_5()[16]@);
    CssFeatureId::lemma_spec_new_parts("official.property.font-kerning");
    assert(catalog_5::features()[17].spec_id()@ == feature_id_chunk_5()[17]@);
    CssFeatureId::lemma_spec_new_parts("official.property.font-size-adjust");
    assert(catalog_5::features()[18].spec_id()@ == feature_id_chunk_5()[18]@);
    CssFeatureId::lemma_spec_new_parts("official.property.font-synthesis");
    assert(catalog_5::features()[19].spec_id()@ == feature_id_chunk_5()[19]@);
    CssFeatureId::lemma_spec_new_parts("ext.property.font-weight-range");
    assert(catalog_5::features()[20].spec_id()@ == feature_id_chunk_5()[20]@);
    CssFeatureId::lemma_spec_new_parts("baseline.property.letter-spacing");
    assert(catalog_5::features()[21].spec_id()@ == feature_id_chunk_5()[21]@);
    CssFeatureId::lemma_spec_new_parts("baseline.property.text-wrap");
    assert(catalog_5::features()[22].spec_id()@ == feature_id_chunk_5()[22]@);
    CssFeatureId::lemma_spec_new_parts("baseline.property.white-space");
    assert(catalog_5::features()[23].spec_id()@ == feature_id_chunk_5()[23]@);
    CssFeatureId::lemma_spec_new_parts("baseline.property.word-break");
    assert(catalog_5::features()[24].spec_id()@ == feature_id_chunk_5()[24]@);
    CssFeatureId::lemma_spec_new_parts("baseline.property.overflow-wrap");
    assert(catalog_5::features()[25].spec_id()@ == feature_id_chunk_5()[25]@);
    CssFeatureId::lemma_spec_new_parts("baseline.property.text-overflow");
    assert(catalog_5::features()[26].spec_id()@ == feature_id_chunk_5()[26]@);
    CssFeatureId::lemma_spec_new_parts("baseline.property.text-decoration");
    assert(catalog_5::features()[27].spec_id()@ == feature_id_chunk_5()[27]@);
    CssFeatureId::lemma_spec_new_parts("baseline.property.text-decoration-line");
    assert(catalog_5::features()[28].spec_id()@ == feature_id_chunk_5()[28]@);
    CssFeatureId::lemma_spec_new_parts("baseline.property.text-decoration-color");
    assert(catalog_5::features()[29].spec_id()@ == feature_id_chunk_5()[29]@);
    CssFeatureId::lemma_spec_new_parts("baseline.property.text-decoration-style");
    assert(catalog_5::features()[30].spec_id()@ == feature_id_chunk_5()[30]@);
    CssFeatureId::lemma_spec_new_parts("baseline.property.text-decoration-thickness");
    assert(catalog_5::features()[31].spec_id()@ == feature_id_chunk_5()[31]@);
    CssFeatureId::lemma_spec_new_parts("baseline.property.text-transform");
    assert(catalog_5::features()[32].spec_id()@ == feature_id_chunk_5()[32]@);
    CssFeatureId::lemma_spec_new_parts("baseline.property.inset");
    assert(catalog_5::features()[33].spec_id()@ == feature_id_chunk_5()[33]@);
    CssFeatureId::lemma_spec_new_parts("baseline.property.top");
    assert(catalog_5::features()[34].spec_id()@ == feature_id_chunk_5()[34]@);
    CssFeatureId::lemma_spec_new_parts("baseline.property.right");
    assert(catalog_5::features()[35].spec_id()@ == feature_id_chunk_5()[35]@);
    CssFeatureId::lemma_spec_new_parts("baseline.property.bottom");
    assert(catalog_5::features()[36].spec_id()@ == feature_id_chunk_5()[36]@);
    CssFeatureId::lemma_spec_new_parts("baseline.property.left");
    assert(catalog_5::features()[37].spec_id()@ == feature_id_chunk_5()[37]@);
    CssFeatureId::lemma_spec_new_parts("baseline.property.z-index");
    assert(catalog_5::features()[38].spec_id()@ == feature_id_chunk_5()[38]@);
    CssFeatureId::lemma_spec_new_parts("baseline.property.box-decoration-break");
    assert(catalog_5::features()[39].spec_id()@ == feature_id_chunk_5()[39]@);
    CssFeatureId::lemma_spec_new_parts("baseline.property.margin");
    assert(catalog_5::features()[40].spec_id()@ == feature_id_chunk_5()[40]@);
    CssFeatureId::lemma_spec_new_parts("baseline.property.margin-top");
    assert(catalog_5::features()[41].spec_id()@ == feature_id_chunk_5()[41]@);
    CssFeatureId::lemma_spec_new_parts("baseline.property.margin-right");
    assert(catalog_5::features()[42].spec_id()@ == feature_id_chunk_5()[42]@);
    CssFeatureId::lemma_spec_new_parts("baseline.property.margin-bottom");
    assert(catalog_5::features()[43].spec_id()@ == feature_id_chunk_5()[43]@);
    CssFeatureId::lemma_spec_new_parts("baseline.property.margin-left");
    assert(catalog_5::features()[44].spec_id()@ == feature_id_chunk_5()[44]@);
    CssFeatureId::lemma_spec_new_parts("baseline.property.padding");
    assert(catalog_5::features()[45].spec_id()@ == feature_id_chunk_5()[45]@);
    CssFeatureId::lemma_spec_new_parts("baseline.property.padding-top");
    assert(catalog_5::features()[46].spec_id()@ == feature_id_chunk_5()[46]@);
    CssFeatureId::lemma_spec_new_parts("baseline.property.padding-right");
    assert(catalog_5::features()[47].spec_id()@ == feature_id_chunk_5()[47]@);
    CssFeatureId::lemma_spec_new_parts("baseline.property.padding-bottom");
    assert(catalog_5::features()[48].spec_id()@ == feature_id_chunk_5()[48]@);
    CssFeatureId::lemma_spec_new_parts("baseline.property.padding-left");
    assert(catalog_5::features()[49].spec_id()@ == feature_id_chunk_5()[49]@);
    CssFeatureId::lemma_spec_new_parts("baseline.property.border");
    assert(catalog_5::features()[50].spec_id()@ == feature_id_chunk_5()[50]@);
    CssFeatureId::lemma_spec_new_parts("baseline.property.border-top");
    assert(catalog_5::features()[51].spec_id()@ == feature_id_chunk_5()[51]@);
    CssFeatureId::lemma_spec_new_parts("baseline.property.border-right");
    assert(catalog_5::features()[52].spec_id()@ == feature_id_chunk_5()[52]@);
    CssFeatureId::lemma_spec_new_parts("baseline.property.border-bottom");
    assert(catalog_5::features()[53].spec_id()@ == feature_id_chunk_5()[53]@);
    CssFeatureId::lemma_spec_new_parts("baseline.property.border-left");
    assert(catalog_5::features()[54].spec_id()@ == feature_id_chunk_5()[54]@);
    CssFeatureId::lemma_spec_new_parts("baseline.property.border-width");
    assert(catalog_5::features()[55].spec_id()@ == feature_id_chunk_5()[55]@);
    CssFeatureId::lemma_spec_new_parts("baseline.property.border-top-width");
    assert(catalog_5::features()[56].spec_id()@ == feature_id_chunk_5()[56]@);
    CssFeatureId::lemma_spec_new_parts("baseline.property.border-right-width");
    assert(catalog_5::features()[57].spec_id()@ == feature_id_chunk_5()[57]@);
    CssFeatureId::lemma_spec_new_parts("baseline.property.border-bottom-width");
    assert(catalog_5::features()[58].spec_id()@ == feature_id_chunk_5()[58]@);
    CssFeatureId::lemma_spec_new_parts("baseline.property.border-left-width");
    assert(catalog_5::features()[59].spec_id()@ == feature_id_chunk_5()[59]@);
}

proof fn lemma_feature_chunk_6_ids()
    ensures
        forall|i: int| 0 <= i < 60 ==> #[trigger] catalog_6::features()[i].spec_id()@ == feature_id_chunk_6()[i]@,
{
    broadcast use {CssFeatureMetadata::lemma_complete_parts, CssFeatureMetadata::lemma_partial_parts, CssFeatureMetadata::lemma_baseline_alias_parts, CssFeatureMetadata::lemma_recognized_unsupported_parts, CssFeatureMetadata::lemma_partial_property_parts, CssFeatureMetadata::lemma_complete_property_parts, CssFeatureMetadata::lemma_partial_property_with_boundary_parts};

    reveal(catalog_6::features);
    reveal(feature_id_chunk_6);
    CssFeatureId::lemma_spec_new_parts("official.property.border-image");
    assert(catalog_6::features()[0].spec_id()@ == feature_id_chunk_6()[0]@);
    CssFeatureId::lemma_spec_new_parts("official.property.border-image-outset");
    assert(catalog_6::features()[1].spec_id()@ == feature_id_chunk_6()[1]@);
    CssFeatureId::lemma_spec_new_parts("official.property.border-image-repeat");
    assert(catalog_6::features()[2].spec_id()@ == feature_id_chunk_6()[2]@);
    CssFeatureId::lemma_spec_new_parts("official.property.border-image-slice");
    assert(catalog_6::features()[3].spec_id()@ == feature_id_chunk_6()[3]@);
    CssFeatureId::lemma_spec_new_parts("official.property.border-image-source");
    assert(catalog_6::features()[4].spec_id()@ == feature_id_chunk_6()[4]@);
    CssFeatureId::lemma_spec_new_parts("official.property.border-image-width");
    assert(catalog_6::features()[5].spec_id()@ == feature_id_chunk_6()[5]@);
    CssFeatureId::lemma_spec_new_parts("baseline.property.color");
    assert(catalog_6::features()[6].spec_id()@ == feature_id_chunk_6()[6]@);
    CssFeatureId::lemma_spec_new_parts("baseline.property.background");
    assert(catalog_6::features()[7].spec_id()@ == feature_id_chunk_6()[7]@);
    CssFeatureId::lemma_spec_new_parts("baseline.property.background-color");
    assert(catalog_6::features()[8].spec_id()@ == feature_id_chunk_6()[8]@);
    CssFeatureId::lemma_spec_new_parts("baseline.property.border-color");
    assert(catalog_6::features()[9].spec_id()@ == feature_id_chunk_6()[9]@);
    CssFeatureId::lemma_spec_new_parts("baseline.property.border-top-color");
    assert(catalog_6::features()[10].spec_id()@ == feature_id_chunk_6()[10]@);
    CssFeatureId::lemma_spec_new_parts("baseline.property.border-right-color");
    assert(catalog_6::features()[11].spec_id()@ == feature_id_chunk_6()[11]@);
    CssFeatureId::lemma_spec_new_parts("baseline.property.border-bottom-color");
    assert(catalog_6::features()[12].spec_id()@ == feature_id_chunk_6()[12]@);
    CssFeatureId::lemma_spec_new_parts("baseline.property.border-left-color");
    assert(catalog_6::features()[13].spec_id()@ == feature_id_chunk_6()[13]@);
    CssFeatureId::lemma_spec_new_parts("baseline.property.background-image");
    assert(catalog_6::features()[14].spec_id()@ == feature_id_chunk_6()[14]@);
    CssFeatureId::lemma_spec_new_parts("baseline.property.background-position");
    assert(catalog_6::features()[15].spec_id()@ == feature_id_chunk_6()[15]@);
    CssFeatureId::lemma_spec_new_parts("official.property.object-position");
    assert(catalog_6::features()[16].spec_id()@ == feature_id_chunk_6()[16]@);
    CssFeatureId::lemma_spec_new_parts("official.property.image-orientation");
    assert(catalog_6::features()[17].spec_id()@ == feature_id_chunk_6()[17]@);
    CssFeatureId::lemma_spec_new_parts("official.property.image-rendering");
    assert(catalog_6::features()[18].spec_id()@ == feature_id_chunk_6()[18]@);
    CssFeatureId::lemma_spec_new_parts("official.property.object-fit");
    assert(catalog_6::features()[19].spec_id()@ == feature_id_chunk_6()[19]@);
    CssFeatureId::lemma_spec_new_parts("baseline.property.background-size");
    assert(catalog_6::features()[20].spec_id()@ == feature_id_chunk_6()[20]@);
    CssFeatureId::lemma_spec_new_parts("baseline.property.background-repeat");
    assert(catalog_6::features()[21].spec_id()@ == feature_id_chunk_6()[21]@);
    CssFeatureId::lemma_spec_new_parts("baseline.property.background-origin");
    assert(catalog_6::features()[22].spec_id()@ == feature_id_chunk_6()[22]@);
    CssFeatureId::lemma_spec_new_parts("baseline.property.background-clip");
    assert(catalog_6::features()[23].spec_id()@ == feature_id_chunk_6()[23]@);
    CssFeatureId::lemma_spec_new_parts("baseline.property.background-attachment");
    assert(catalog_6::features()[24].spec_id()@ == feature_id_chunk_6()[24]@);
    CssFeatureId::lemma_spec_new_parts("baseline.property.border-style");
    assert(catalog_6::features()[25].spec_id()@ == feature_id_chunk_6()[25]@);
    CssFeatureId::lemma_spec_new_parts("baseline.property.border-top-style");
    assert(catalog_6::features()[26].spec_id()@ == feature_id_chunk_6()[26]@);
    CssFeatureId::lemma_spec_new_parts("baseline.property.border-right-style");
    assert(catalog_6::features()[27].spec_id()@ == feature_id_chunk_6()[27]@);
    CssFeatureId::lemma_spec_new_parts("baseline.property.border-bottom-style");
    assert(catalog_6::features()[28].spec_id()@ == feature_id_chunk_6()[28]@);
    CssFeatureId::lemma_spec_new_parts("baseline.property.border-left-style");
    assert(catalog_6::features()[29].spec_id()@ == feature_id_chunk_6()[29]@);
    CssFeatureId::lemma_spec_new_parts("baseline.property.border-radius");
    assert(catalog_6::features()[30].spec_id()@ == feature_id_chunk_6()[30]@);
    CssFeatureId::lemma_spec_new_parts("baseline.property.border-top-left-radius");
    assert(catalog_6::features()[31].spec_id()@ == feature_id_chunk_6()[31]@);
    CssFeatureId::lemma_spec_new_parts("baseline.property.border-top-right-radius");
    assert(catalog_6::features()[32].spec_id()@ == feature_id_chunk_6()[32]@);
    CssFeatureId::lemma_spec_new_parts("baseline.property.border-bottom-right-radius");
    assert(catalog_6::features()[33].spec_id()@ == feature_id_chunk_6()[33]@);
    CssFeatureId::lemma_spec_new_parts("baseline.property.border-bottom-left-radius");
    assert(catalog_6::features()[34].spec_id()@ == feature_id_chunk_6()[34]@);
    CssFeatureId::lemma_spec_new_parts("baseline.property.box-shadow");
    assert(catalog_6::features()[35].spec_id()@ == feature_id_chunk_6()[35]@);
    CssFeatureId::lemma_spec_new_parts("baseline.property.opacity");
    assert(catalog_6::features()[36].spec_id()@ == feature_id_chunk_6()[36]@);
    CssFeatureId::lemma_spec_new_parts("baseline.property.flex-grow");
    assert(catalog_6::features()[37].spec_id()@ == feature_id_chunk_6()[37]@);
    CssFeatureId::lemma_spec_new_parts("baseline.property.flex-shrink");
    assert(catalog_6::features()[38].spec_id()@ == feature_id_chunk_6()[38]@);
    CssFeatureId::lemma_spec_new_parts("baseline.property.order");
    assert(catalog_6::features()[39].spec_id()@ == feature_id_chunk_6()[39]@);
    CssFeatureId::lemma_spec_new_parts("baseline.property.flex");
    assert(catalog_6::features()[40].spec_id()@ == feature_id_chunk_6()[40]@);
    CssFeatureId::lemma_spec_new_parts("baseline.property.justify-tracks");
    assert(catalog_6::features()[41].spec_id()@ == feature_id_chunk_6()[41]@);
    CssFeatureId::lemma_spec_new_parts("baseline.property.align-tracks");
    assert(catalog_6::features()[42].spec_id()@ == feature_id_chunk_6()[42]@);
    CssFeatureId::lemma_spec_new_parts("baseline.property.aspect-ratio");
    assert(catalog_6::features()[43].spec_id()@ == feature_id_chunk_6()[43]@);
    CssFeatureId::lemma_spec_new_parts("baseline.property.scrollbar-width");
    assert(catalog_6::features()[44].spec_id()@ == feature_id_chunk_6()[44]@);
    CssFeatureId::lemma_spec_new_parts("baseline.property.cursor");
    assert(catalog_6::features()[45].spec_id()@ == feature_id_chunk_6()[45]@);
    CssFeatureId::lemma_spec_new_parts("baseline.property.pointer-events");
    assert(catalog_6::features()[46].spec_id()@ == feature_id_chunk_6()[46]@);
    CssFeatureId::lemma_spec_new_parts("baseline.property.user-select");
    assert(catalog_6::features()[47].spec_id()@ == feature_id_chunk_6()[47]@);
    CssFeatureId::lemma_spec_new_parts("baseline.property.outline");
    assert(catalog_6::features()[48].spec_id()@ == feature_id_chunk_6()[48]@);
    CssFeatureId::lemma_spec_new_parts("baseline.property.outline-color");
    assert(catalog_6::features()[49].spec_id()@ == feature_id_chunk_6()[49]@);
    CssFeatureId::lemma_spec_new_parts("baseline.property.outline-style");
    assert(catalog_6::features()[50].spec_id()@ == feature_id_chunk_6()[50]@);
    CssFeatureId::lemma_spec_new_parts("baseline.property.outline-width");
    assert(catalog_6::features()[51].spec_id()@ == feature_id_chunk_6()[51]@);
    CssFeatureId::lemma_spec_new_parts("baseline.property.transform");
    assert(catalog_6::features()[52].spec_id()@ == feature_id_chunk_6()[52]@);
    CssFeatureId::lemma_spec_new_parts("baseline.property.transform-origin");
    assert(catalog_6::features()[53].spec_id()@ == feature_id_chunk_6()[53]@);
    CssFeatureId::lemma_spec_new_parts("baseline.property.translate");
    assert(catalog_6::features()[54].spec_id()@ == feature_id_chunk_6()[54]@);
    CssFeatureId::lemma_spec_new_parts("baseline.property.rotate");
    assert(catalog_6::features()[55].spec_id()@ == feature_id_chunk_6()[55]@);
    CssFeatureId::lemma_spec_new_parts("baseline.property.scale");
    assert(catalog_6::features()[56].spec_id()@ == feature_id_chunk_6()[56]@);
    CssFeatureId::lemma_spec_new_parts("baseline.property.filter");
    assert(catalog_6::features()[57].spec_id()@ == feature_id_chunk_6()[57]@);
    CssFeatureId::lemma_spec_new_parts("baseline.property.backdrop-filter");
    assert(catalog_6::features()[58].spec_id()@ == feature_id_chunk_6()[58]@);
    CssFeatureId::lemma_spec_new_parts("baseline.property.clip-path");
    assert(catalog_6::features()[59].spec_id()@ == feature_id_chunk_6()[59]@);
}

proof fn lemma_feature_chunk_7_ids()
    ensures
        forall|i: int| 0 <= i < 60 ==> #[trigger] catalog_7::features()[i].spec_id()@ == feature_id_chunk_7()[i]@,
{
    broadcast use {CssFeatureMetadata::lemma_complete_parts, CssFeatureMetadata::lemma_partial_parts, CssFeatureMetadata::lemma_baseline_alias_parts, CssFeatureMetadata::lemma_recognized_unsupported_parts, CssFeatureMetadata::lemma_partial_property_parts, CssFeatureMetadata::lemma_complete_property_parts, CssFeatureMetadata::lemma_partial_property_with_boundary_parts};

    reveal(catalog_7::features);
    reveal(feature_id_chunk_7);
    CssFeatureId::lemma_spec_new_parts("baseline.property.mask");
    assert(catalog_7::features()[0].spec_id()@ == feature_id_chunk_7()[0]@);
    CssFeatureId::lemma_spec_new_parts("baseline.property.mask-image");
    assert(catalog_7::features()[1].spec_id()@ == feature_id_chunk_7()[1]@);
    CssFeatureId::lemma_spec_new_parts("baseline.property.mask-size");
    assert(catalog_7::features()[2].spec_id()@ == feature_id_chunk_7()[2]@);
    CssFeatureId::lemma_spec_new_parts("baseline.property.mask-position");
    assert(catalog_7::features()[3].spec_id()@ == feature_id_chunk_7()[3]@);
    CssFeatureId::lemma_spec_new_parts("baseline.property.mask-repeat");
    assert(catalog_7::features()[4].spec_id()@ == feature_id_chunk_7()[4]@);
    CssFeatureId::lemma_spec_new_parts("baseline.property.transition-property");
    assert(catalog_7::features()[5].spec_id()@ == feature_id_chunk_7()[5]@);
    CssFeatureId::lemma_spec_new_parts("baseline.property.transition-duration");
    assert(catalog_7::features()[6].spec_id()@ == feature_id_chunk_7()[6]@);
    CssFeatureId::lemma_spec_new_parts("baseline.property.transition-delay");
    assert(catalog_7::features()[7].spec_id()@ == feature_id_chunk_7()[7]@);
    CssFeatureId::lemma_spec_new_parts("baseline.property.transition-timing-function");
    assert(catalog_7::features()[8].spec_id()@ == feature_id_chunk_7()[8]@);
    CssFeatureId::lemma_spec_new_parts("baseline.property.transition");
    assert(catalog_7::features()[9].spec_id()@ == feature_id_chunk_7()[9]@);
    CssFeatureId::lemma_spec_new_parts("baseline.property.animation-name");
    assert(catalog_7::features()[10].spec_id()@ == feature_id_chunk_7()[10]@);
    CssFeatureId::lemma_spec_new_parts("baseline.property.animation-duration");
    assert(catalog_7::features()[11].spec_id()@ == feature_id_chunk_7()[11]@);
    CssFeatureId::lemma_spec_new_parts("baseline.property.animation-delay");
    assert(catalog_7::features()[12].spec_id()@ == feature_id_chunk_7()[12]@);
    CssFeatureId::lemma_spec_new_parts("baseline.property.animation-timing-function");
    assert(catalog_7::features()[13].spec_id()@ == feature_id_chunk_7()[13]@);
    CssFeatureId::lemma_spec_new_parts("baseline.property.animation-iteration-count");
    assert(catalog_7::features()[14].spec_id()@ == feature_id_chunk_7()[14]@);
    CssFeatureId::lemma_spec_new_parts("baseline.property.animation-direction");
    assert(catalog_7::features()[15].spec_id()@ == feature_id_chunk_7()[15]@);
    CssFeatureId::lemma_spec_new_parts("baseline.property.animation-fill-mode");
    assert(catalog_7::features()[16].spec_id()@ == feature_id_chunk_7()[16]@);
    CssFeatureId::lemma_spec_new_parts("baseline.property.animation-play-state");
    assert(catalog_7::features()[17].spec_id()@ == feature_id_chunk_7()[17]@);
    CssFeatureId::lemma_spec_new_parts("baseline.property.animation");
    assert(catalog_7::features()[18].spec_id()@ == feature_id_chunk_7()[18]@);
    CssFeatureId::lemma_spec_new_parts("official.property.border-collapse");
    assert(catalog_7::features()[19].spec_id()@ == feature_id_chunk_7()[19]@);
    CssFeatureId::lemma_spec_new_parts("official.property.border-spacing");
    assert(catalog_7::features()[20].spec_id()@ == feature_id_chunk_7()[20]@);
    CssFeatureId::lemma_spec_new_parts("official.property.caption-side");
    assert(catalog_7::features()[21].spec_id()@ == feature_id_chunk_7()[21]@);
    CssFeatureId::lemma_spec_new_parts("official.property.clip");
    assert(catalog_7::features()[22].spec_id()@ == feature_id_chunk_7()[22]@);
    CssFeatureId::lemma_spec_new_parts("official.property.empty-cells");
    assert(catalog_7::features()[23].spec_id()@ == feature_id_chunk_7()[23]@);
    CssFeatureId::lemma_spec_new_parts("official.property.orphans");
    assert(catalog_7::features()[24].spec_id()@ == feature_id_chunk_7()[24]@);
    CssFeatureId::lemma_spec_new_parts("official.property.page-break-after");
    assert(catalog_7::features()[25].spec_id()@ == feature_id_chunk_7()[25]@);
    CssFeatureId::lemma_spec_new_parts("official.property.page-break-before");
    assert(catalog_7::features()[26].spec_id()@ == feature_id_chunk_7()[26]@);
    CssFeatureId::lemma_spec_new_parts("official.property.page-break-inside");
    assert(catalog_7::features()[27].spec_id()@ == feature_id_chunk_7()[27]@);
    CssFeatureId::lemma_spec_new_parts("official.property.quotes");
    assert(catalog_7::features()[28].spec_id()@ == feature_id_chunk_7()[28]@);
    CssFeatureId::lemma_spec_new_parts("official.property.table-layout");
    assert(catalog_7::features()[29].spec_id()@ == feature_id_chunk_7()[29]@);
    CssFeatureId::lemma_spec_new_parts("official.property.widows");
    assert(catalog_7::features()[30].spec_id()@ == feature_id_chunk_7()[30]@);
    CssFeatureId::lemma_spec_new_parts("official.property.word-spacing");
    assert(catalog_7::features()[31].spec_id()@ == feature_id_chunk_7()[31]@);
    CssFeatureId::lemma_spec_new_parts("official.property.text-combine-upright");
    assert(catalog_7::features()[32].spec_id()@ == feature_id_chunk_7()[32]@);
    CssFeatureId::lemma_spec_new_parts("official.property.text-orientation");
    assert(catalog_7::features()[33].spec_id()@ == feature_id_chunk_7()[33]@);
    CssFeatureId::lemma_spec_new_parts("official.property.unicode-bidi");
    assert(catalog_7::features()[34].spec_id()@ == feature_id_chunk_7()[34]@);
    CssFeatureId::lemma_spec_new_parts("official.property.caret-color");
    assert(catalog_7::features()[35].spec_id()@ == feature_id_chunk_7()[35]@);
    CssFeatureId::lemma_spec_new_parts("official.property.outline-offset");
    assert(catalog_7::features()[36].spec_id()@ == feature_id_chunk_7()[36]@);
    CssFeatureId::lemma_spec_new_parts("official.property.resize");
    assert(catalog_7::features()[37].spec_id()@ == feature_id_chunk_7()[37]@);
    CssFeatureId::lemma_spec_new_parts("official.property.contain");
    assert(catalog_7::features()[38].spec_id()@ == feature_id_chunk_7()[38]@);
    CssFeatureId::lemma_spec_new_parts("official.property.transform-box");
    assert(catalog_7::features()[39].spec_id()@ == feature_id_chunk_7()[39]@);
    CssFeatureId::lemma_spec_new_parts("official.property.background-blend-mode");
    assert(catalog_7::features()[40].spec_id()@ == feature_id_chunk_7()[40]@);
    CssFeatureId::lemma_spec_new_parts("official.property.isolation");
    assert(catalog_7::features()[41].spec_id()@ == feature_id_chunk_7()[41]@);
    CssFeatureId::lemma_spec_new_parts("official.property.mix-blend-mode");
    assert(catalog_7::features()[42].spec_id()@ == feature_id_chunk_7()[42]@);
    CssFeatureId::lemma_spec_new_parts("official.property-alias.glyph-orientation-vertical");
    assert(catalog_7::features()[43].spec_id()@ == feature_id_chunk_7()[43]@);
    CssFeatureId::lemma_spec_new_parts("official.selector.group");
    assert(catalog_7::features()[44].spec_id()@ == feature_id_chunk_7()[44]@);
    CssFeatureId::lemma_spec_new_parts("official.selector.type");
    assert(catalog_7::features()[45].spec_id()@ == feature_id_chunk_7()[45]@);
    CssFeatureId::lemma_spec_new_parts("official.selector.universal");
    assert(catalog_7::features()[46].spec_id()@ == feature_id_chunk_7()[46]@);
    CssFeatureId::lemma_spec_new_parts("official.selector.attribute-presence-value");
    assert(catalog_7::features()[47].spec_id()@ == feature_id_chunk_7()[47]@);
    CssFeatureId::lemma_spec_new_parts("official.selector.attribute-substring");
    assert(catalog_7::features()[48].spec_id()@ == feature_id_chunk_7()[48]@);
    CssFeatureId::lemma_spec_new_parts("official.selector.class");
    assert(catalog_7::features()[49].spec_id()@ == feature_id_chunk_7()[49]@);
    CssFeatureId::lemma_spec_new_parts("official.selector.id");
    assert(catalog_7::features()[50].spec_id()@ == feature_id_chunk_7()[50]@);
    CssFeatureId::lemma_spec_new_parts("official.selector.dynamic");
    assert(catalog_7::features()[51].spec_id()@ == feature_id_chunk_7()[51]@);
    CssFeatureId::lemma_spec_new_parts("official.selector.target");
    assert(catalog_7::features()[52].spec_id()@ == feature_id_chunk_7()[52]@);
    CssFeatureId::lemma_spec_new_parts("official.selector.lang");
    assert(catalog_7::features()[53].spec_id()@ == feature_id_chunk_7()[53]@);
    CssFeatureId::lemma_spec_new_parts("official.selector.ui-state");
    assert(catalog_7::features()[54].spec_id()@ == feature_id_chunk_7()[54]@);
    CssFeatureId::lemma_spec_new_parts("official.selector.structural");
    assert(catalog_7::features()[55].spec_id()@ == feature_id_chunk_7()[55]@);
    CssFeatureId::lemma_spec_new_parts("official.selector.negation");
    assert(catalog_7::features()[56].spec_id()@ == feature_id_chunk_7()[56]@);
    CssFeatureId::lemma_spec_new_parts("official.selector.first-line");
    assert(catalog_7::features()[57].spec_id()@ == feature_id_chunk_7()[57]@);
    CssFeatureId::lemma_spec_new_parts("official.selector.first-letter");
    assert(catalog_7::features()[58].spec_id()@ == feature_id_chunk_7()[58]@);
    CssFeatureId::lemma_spec_new_parts("official.selector.generated");
    assert(catalog_7::features()[59].spec_id()@ == feature_id_chunk_7()[59]@);
}

proof fn lemma_feature_chunk_8_ids()
    ensures
        forall|i: int| 0 <= i < 43 ==> #[trigger] catalog_8::features()[i].spec_id()@ == feature_id_chunk_8()[i]@,
{
    broadcast use {CssFeatureMetadata::lemma_complete_parts, CssFeatureMetadata::lemma_partial_parts, CssFeatureMetadata::lemma_baseline_alias_parts, CssFeatureMetadata::lemma_recognized_unsupported_parts, CssFeatureMetadata::lemma_partial_property_parts, CssFeatureMetadata::lemma_complete_property_parts, CssFeatureMetadata::lemma_partial_property_with_boundary_parts};

    reveal(catalog_8::features);
    reveal(feature_id_chunk_8);
    CssFeatureId::lemma_spec_new_parts("official.selector.combinator.descendant");
    assert(catalog_8::features()[0].spec_id()@ == feature_id_chunk_8()[0]@);
    CssFeatureId::lemma_spec_new_parts("official.selector.combinator.child");
    assert(catalog_8::features()[1].spec_id()@ == feature_id_chunk_8()[1]@);
    CssFeatureId::lemma_spec_new_parts("official.selector.combinator.next-sibling");
    assert(catalog_8::features()[2].spec_id()@ == feature_id_chunk_8()[2]@);
    CssFeatureId::lemma_spec_new_parts("official.selector.combinator.subsequent-sibling");
    assert(catalog_8::features()[3].spec_id()@ == feature_id_chunk_8()[3]@);
    CssFeatureId::lemma_spec_new_parts("official.selector.namespace-qualified-name");
    assert(catalog_8::features()[4].spec_id()@ == feature_id_chunk_8()[4]@);
    CssFeatureId::lemma_spec_new_parts("ext.pseudo-element.marker");
    assert(catalog_8::features()[5].spec_id()@ == feature_id_chunk_8()[5]@);
    CssFeatureId::lemma_spec_new_parts("ext.pseudo-element.selection");
    assert(catalog_8::features()[6].spec_id()@ == feature_id_chunk_8()[6]@);
    CssFeatureId::lemma_spec_new_parts("ext.pseudo-element.backdrop");
    assert(catalog_8::features()[7].spec_id()@ == feature_id_chunk_8()[7]@);
    CssFeatureId::lemma_spec_new_parts("ext.pseudo-element.generated-marker");
    assert(catalog_8::features()[8].spec_id()@ == feature_id_chunk_8()[8]@);
    CssFeatureId::lemma_spec_new_parts("official.media.query-list-core");
    assert(catalog_8::features()[9].spec_id()@ == feature_id_chunk_8()[9]@);
    CssFeatureId::lemma_spec_new_parts("ext.media.condition-syntax");
    assert(catalog_8::features()[10].spec_id()@ == feature_id_chunk_8()[10]@);
    CssFeatureId::lemma_spec_new_parts("ext.media.malformed-member-never");
    assert(catalog_8::features()[11].spec_id()@ == feature_id_chunk_8()[11]@);
    CssFeatureId::lemma_spec_new_parts("official.media.feature.width");
    assert(catalog_8::features()[12].spec_id()@ == feature_id_chunk_8()[12]@);
    CssFeatureId::lemma_spec_new_parts("official.media.feature.height");
    assert(catalog_8::features()[13].spec_id()@ == feature_id_chunk_8()[13]@);
    CssFeatureId::lemma_spec_new_parts("official.media.feature.device-width");
    assert(catalog_8::features()[14].spec_id()@ == feature_id_chunk_8()[14]@);
    CssFeatureId::lemma_spec_new_parts("official.media.feature.device-height");
    assert(catalog_8::features()[15].spec_id()@ == feature_id_chunk_8()[15]@);
    CssFeatureId::lemma_spec_new_parts("official.media.feature.aspect-ratio");
    assert(catalog_8::features()[16].spec_id()@ == feature_id_chunk_8()[16]@);
    CssFeatureId::lemma_spec_new_parts("official.media.feature.device-aspect-ratio");
    assert(catalog_8::features()[17].spec_id()@ == feature_id_chunk_8()[17]@);
    CssFeatureId::lemma_spec_new_parts("official.media.feature.resolution");
    assert(catalog_8::features()[18].spec_id()@ == feature_id_chunk_8()[18]@);
    CssFeatureId::lemma_spec_new_parts("official.media.feature.color");
    assert(catalog_8::features()[19].spec_id()@ == feature_id_chunk_8()[19]@);
    CssFeatureId::lemma_spec_new_parts("official.media.feature.color-index");
    assert(catalog_8::features()[20].spec_id()@ == feature_id_chunk_8()[20]@);
    CssFeatureId::lemma_spec_new_parts("official.media.feature.monochrome");
    assert(catalog_8::features()[21].spec_id()@ == feature_id_chunk_8()[21]@);
    CssFeatureId::lemma_spec_new_parts("official.media.feature.scan");
    assert(catalog_8::features()[22].spec_id()@ == feature_id_chunk_8()[22]@);
    CssFeatureId::lemma_spec_new_parts("official.media.feature.grid");
    assert(catalog_8::features()[23].spec_id()@ == feature_id_chunk_8()[23]@);
    CssFeatureId::lemma_spec_new_parts("ext.media.resolution.dppx");
    assert(catalog_8::features()[24].spec_id()@ == feature_id_chunk_8()[24]@);
    CssFeatureId::lemma_spec_new_parts("ext.supports.general-enclosed");
    assert(catalog_8::features()[25].spec_id()@ == feature_id_chunk_8()[25]@);
    CssFeatureId::lemma_spec_new_parts("ext.supports.selector");
    assert(catalog_8::features()[26].spec_id()@ == feature_id_chunk_8()[26]@);
    CssFeatureId::lemma_spec_new_parts("ext.media.range.width");
    assert(catalog_8::features()[27].spec_id()@ == feature_id_chunk_8()[27]@);
    CssFeatureId::lemma_spec_new_parts("ext.media.range.height");
    assert(catalog_8::features()[28].spec_id()@ == feature_id_chunk_8()[28]@);
    CssFeatureId::lemma_spec_new_parts("ext.media.range.resolution");
    assert(catalog_8::features()[29].spec_id()@ == feature_id_chunk_8()[29]@);
    CssFeatureId::lemma_spec_new_parts("ext.media.range.color");
    assert(catalog_8::features()[30].spec_id()@ == feature_id_chunk_8()[30]@);
    CssFeatureId::lemma_spec_new_parts("ext.media.range.monochrome");
    assert(catalog_8::features()[31].spec_id()@ == feature_id_chunk_8()[31]@);
    CssFeatureId::lemma_spec_new_parts("official.media.feature.orientation");
    assert(catalog_8::features()[32].spec_id()@ == feature_id_chunk_8()[32]@);
    CssFeatureId::lemma_spec_new_parts("ext.media.hover");
    assert(catalog_8::features()[33].spec_id()@ == feature_id_chunk_8()[33]@);
    CssFeatureId::lemma_spec_new_parts("ext.media.any-hover");
    assert(catalog_8::features()[34].spec_id()@ == feature_id_chunk_8()[34]@);
    CssFeatureId::lemma_spec_new_parts("ext.media.pointer");
    assert(catalog_8::features()[35].spec_id()@ == feature_id_chunk_8()[35]@);
    CssFeatureId::lemma_spec_new_parts("ext.media.any-pointer");
    assert(catalog_8::features()[36].spec_id()@ == feature_id_chunk_8()[36]@);
    CssFeatureId::lemma_spec_new_parts("ext.media.prefers-color-scheme");
    assert(catalog_8::features()[37].spec_id()@ == feature_id_chunk_8()[37]@);
    CssFeatureId::lemma_spec_new_parts("ext.media.prefers-reduced-motion");
    assert(catalog_8::features()[38].spec_id()@ == feature_id_chunk_8()[38]@);
    CssFeatureId::lemma_spec_new_parts("ext.media.prefers-reduced-transparency");
    assert(catalog_8::features()[39].spec_id()@ == feature_id_chunk_8()[39]@);
    CssFeatureId::lemma_spec_new_parts("ext.media.prefers-contrast");
    assert(catalog_8::features()[40].spec_id()@ == feature_id_chunk_8()[40]@);
    CssFeatureId::lemma_spec_new_parts("ext.media.forced-colors");
    assert(catalog_8::features()[41].spec_id()@ == feature_id_chunk_8()[41]@);
    CssFeatureId::lemma_spec_new_parts("ext.media.display-mode");
    assert(catalog_8::features()[42].spec_id()@ == feature_id_chunk_8()[42]@);
}

proof fn lemma_feature_rank_1()
    ensures
        forall|m: int| 0 <= m < 60 ==> 0 <= #[trigger] feature_rank(m) < 463 && feature_order(feature_rank(m)) == m,
        forall|k: int| 0 <= k < 60 ==> 0 <= #[trigger] feature_order(k) < 463,
{
    reveal(feature_rank_chunk_1);
    reveal(feature_order_chunk_1);
    reveal(feature_order_chunk_4);
    reveal(feature_order_chunk_5);
    reveal(feature_order_chunk_6);
    reveal(feature_order_chunk_7);
    reveal(feature_order_chunk_8);
    assert(feature_rank(0) == 195 && feature_order(195) == 0);
    assert(feature_rank(1) == 214 && feature_order(214) == 1);
    assert(feature_rank(2) == 238 && feature_order(238) == 2);
    assert(feature_rank(3) == 198 && feature_order(198) == 3);
    assert(feature_rank(4) == 197 && feature_order(197) == 4);
    assert(feature_rank(5) == 194 && feature_order(194) == 5);
    assert(feature_rank(6) == 196 && feature_order(196) == 6);
    assert(feature_rank(7) == 201 && feature_order(201) == 7);
    assert(feature_rank(8) == 357 && feature_order(357) == 8);
    assert(feature_rank(9) == 356 && feature_order(356) == 9);
    assert(feature_rank(10) == 199 && feature_order(199) == 10);
    assert(feature_rank(11) == 358 && feature_order(358) == 11);
    assert(feature_rank(12) == 193 && feature_order(193) == 12);
    assert(feature_rank(13) == 200 && feature_order(200) == 13);
    assert(feature_rank(14) == 281 && feature_order(281) == 14);
    assert(feature_rank(15) == 279 && feature_order(279) == 15);
    assert(feature_rank(16) == 280 && feature_order(280) == 16);
    assert(feature_rank(17) == 287 && feature_order(287) == 17);
    assert(feature_rank(18) == 442 && feature_order(442) == 18);
    assert(feature_rank(19) == 436 && feature_order(436) == 19);
    assert(feature_rank(20) == 398 && feature_order(398) == 20);
    assert(feature_rank(21) == 441 && feature_order(441) == 21);
    assert(feature_rank(22) == 2 && feature_order(2) == 22);
    assert(feature_rank(23) == 210 && feature_order(210) == 23);
    assert(feature_rank(24) == 411 && feature_order(411) == 24);
    assert(feature_rank(25) == 420 && feature_order(420) == 25);
    assert(feature_rank(26) == 400 && feature_order(400) == 26);
    assert(feature_rank(27) == 424 && feature_order(424) == 27);
    assert(feature_rank(28) == 414 && feature_order(414) == 28);
    assert(feature_rank(29) == 415 && feature_order(415) == 29);
    assert(feature_rank(30) == 382 && feature_order(382) == 30);
    assert(feature_rank(31) == 383 && feature_order(383) == 31);
    assert(feature_rank(32) == 447 && feature_order(447) == 32);
    assert(feature_rank(33) == 448 && feature_order(448) == 33);
    assert(feature_rank(34) == 403 && feature_order(403) == 34);
    assert(feature_rank(35) == 404 && feature_order(404) == 35);
    assert(feature_rank(36) == 434 && feature_order(434) == 36);
    assert(feature_rank(37) == 392 && feature_order(392) == 37);
    assert(feature_rank(38) == 381 && feature_order(381) == 38);
    assert(feature_rank(39) == 408 && feature_order(408) == 39);
    assert(feature_rank(40) == 435 && feature_order(435) == 40);
    assert(feature_rank(41) == 406 && feature_order(406) == 41);
    assert(feature_rank(42) == 419 && feature_order(419) == 42);
    assert(feature_rank(43) == 446 && feature_order(446) == 43);
    assert(feature_rank(44) == 399 && feature_order(399) == 44);
    assert(feature_rank(45) == 462 && feature_order(462) == 45);
    assert(feature_rank(46) == 397 && feature_order(397) == 46);
    assert(feature_rank(47) == 407 && feature_order(407) == 47);
    assert(feature_rank(48) == 409 && feature_order(409) == 48);
    assert(feature_rank(49) == 412 && feature_order(412) == 49);
    assert(feature_rank(50) == 413 && feature_order(413) == 50);
    assert(feature_rank(51) == 421 && feature_order(421) == 51);
    assert(feature_rank(52) == 422 && feature_order(422) == 52);
    assert(feature_rank(53) == 426 && feature_order(426) == 53);
    assert(feature_rank(54) == 260 && feature_order(260) == 54);
    assert(feature_rank(55) == 268 && feature_order(268) == 55);
    assert(feature_rank(56) == 261 && feature_order(261) == 56);
    assert(feature_rank(57) == 262 && feature_order(262) == 57);
    assert(feature_rank(58) == 263 && feature_order(263) == 58);
    assert(feature_rank(59) == 265 && feature_order(265) == 59);
    assert(0 <= feature_order(0) < 463);
    assert(0 <= feature_order(1) < 463);
    assert(0 <= feature_order(2) < 463);
    assert(0 <= feature_order(3) < 463);
    assert(0 <= feature_order(4) < 463);
    assert(0 <= feature_order(5) < 463);
    assert(0 <= feature_order(6) < 463);
    assert(0 <= feature_order(7) < 463);
    assert(0 <= feature_order(8) < 463);
    assert(0 <= feature_order(9) < 463);
    assert(0 <= feature_order(10) < 463);
    assert(0 <= feature_order(11) < 463);
    assert(0 <= feature_order(12) < 463);
    assert(0 <= feature_order(13) < 463);
    assert(0 <= feature_order(14) < 463);
    assert(0 <= feature_order(15) < 463);
    assert(0 <= feature_order(16) < 463);
    assert(0 <= feature_order(17) < 463);
    assert(0 <= feature_order(18) < 463);
    assert(0 <= feature_order(19) < 463);
    assert(0 <= feature_order(20) < 463);
    assert(0 <= feature_order(21) < 463);
    assert(0 <= feature_order(22) < 463);
    assert(0 <= feature_order(23) < 463);
    assert(0 <= feature_order(24) < 463);
    assert(0 <= feature_order(25) < 463);
    assert(0 <= feature_order(26) < 463);
    assert(0 <= feature_order(27) < 463);
    assert(0 <= feature_order(28) < 463);
    assert(0 <= feature_order(29) < 463);
    assert(0 <= feature_order(30) < 463);
    assert(0 <= feature_order(31) < 463);
    assert(0 <= feature_order(32) < 463);
    assert(0 <= feature_order(33) < 463);
    assert(0 <= feature_order(34) < 463);
    assert(0 <= feature_order(35) < 463);
    assert(0 <= feature_order(36) < 463);
    assert(0 <= feature_order(37) < 463);
    assert(0 <= feature_order(38) < 463);
    assert(0 <= feature_order(39) < 463);
    assert(0 <= feature_order(40) < 463);
    assert(0 <= feature_order(41) < 463);
    assert(0 <= feature_order(42) < 463);
    assert(0 <= feature_order(43) < 463);
    assert(0 <= feature_order(44) < 463);
    assert(0 <= feature_order(45) < 463);
    assert(0 <= feature_order(46) < 463);
    assert(0 <= feature_order(47) < 463);
    assert(0 <= feature_order(48) < 463);
    assert(0 <= feature_order(49) < 463);
    assert(0 <= feature_order(50) < 463);
    assert(0 <= feature_order(51) < 463);
    assert(0 <= feature_order(52) < 463);
    assert(0 <= feature_order(53) < 463);
    assert(0 <= feature_order(54) < 463);
    assert(0 <= feature_order(55) < 463);
    assert(0 <= feature_order(56) < 463);
    assert(0 <= feature_order(57) < 463);
    assert(0 <= feature_order(58) < 463);
    assert(0 <= feature_order(59) < 463);
}

proof fn lemma_feature_rank_2()
    ensures
        forall|m: int| 60 <= m < 120 ==> 0 <= #[trigger] feature_rank(m) < 463 && feature_order(feature_rank(m)) == m,
        forall|k: int| 60 <= k < 120 ==> 0 <= #[trigger] feature_order(k) < 463,
{
    reveal(feature_order_chunk_2);
    reveal(feature_rank_chunk_2);
    reveal(feature_order_chunk_5);
    reveal(feature_order_chunk_7);
    reveal(feature_order_chunk_8);
    assert(feature_rank(60) == 264 && feature_order(264) == 60);
    assert(feature_rank(61) == 266 && feature_order(266) == 61);
    assert(feature_rank(62) == 267 && feature_order(267) == 62);
    assert(feature_rank(63) == 246 && feature_order(246) == 63);
    assert(feature_rank(64) == 259 && feature_order(259) == 64);
    assert(feature_rank(65) == 425 && feature_order(425) == 65);
    assert(feature_rank(66) == 390 && feature_order(390) == 66);
    assert(feature_rank(67) == 386 && feature_order(386) == 67);
    assert(feature_rank(68) == 385 && feature_order(385) == 68);
    assert(feature_rank(69) == 431 && feature_order(431) == 69);
    assert(feature_rank(70) == 384 && feature_order(384) == 70);
    assert(feature_rank(71) == 387 && feature_order(387) == 71);
    assert(feature_rank(72) == 388 && feature_order(388) == 72);
    assert(feature_rank(73) == 416 && feature_order(416) == 73);
    assert(feature_rank(74) == 417 && feature_order(417) == 74);
    assert(feature_rank(75) == 410 && feature_order(410) == 75);
    assert(feature_rank(76) == 405 && feature_order(405) == 76);
    assert(feature_rank(77) == 418 && feature_order(418) == 77);
    assert(feature_rank(78) == 428 && feature_order(428) == 78);
    assert(feature_rank(79) == 432 && feature_order(432) == 79);
    assert(feature_rank(80) == 433 && feature_order(433) == 80);
    assert(feature_rank(81) == 393 && feature_order(393) == 81);
    assert(feature_rank(82) == 438 && feature_order(438) == 82);
    assert(feature_rank(83) == 429 && feature_order(429) == 83);
    assert(feature_rank(84) == 430 && feature_order(430) == 84);
    assert(feature_rank(85) == 427 && feature_order(427) == 85);
    assert(feature_rank(86) == 450 && feature_order(450) == 86);
    assert(feature_rank(87) == 449 && feature_order(449) == 87);
    assert(feature_rank(88) == 451 && feature_order(451) == 88);
    assert(feature_rank(89) == 459 && feature_order(459) == 89);
    assert(feature_rank(90) == 460 && feature_order(460) == 90);
    assert(feature_rank(91) == 461 && feature_order(461) == 91);
    assert(feature_rank(92) == 453 && feature_order(453) == 92);
    assert(feature_rank(93) == 454 && feature_order(454) == 93);
    assert(feature_rank(94) == 455 && feature_order(455) == 94);
    assert(feature_rank(95) == 452 && feature_order(452) == 95);
    assert(feature_rank(96) == 456 && feature_order(456) == 96);
    assert(feature_rank(97) == 457 && feature_order(457) == 97);
    assert(feature_rank(98) == 458 && feature_order(458) == 98);
    assert(feature_rank(99) == 389 && feature_order(389) == 99);
    assert(feature_rank(100) == 401 && feature_order(401) == 100);
    assert(feature_rank(101) == 396 && feature_order(396) == 101);
    assert(feature_rank(102) == 439 && feature_order(439) == 102);
    assert(feature_rank(103) == 440 && feature_order(440) == 103);
    assert(feature_rank(104) == 437 && feature_order(437) == 104);
    assert(feature_rank(105) == 269 && feature_order(269) == 105);
    assert(feature_rank(106) == 270 && feature_order(270) == 106);
    assert(feature_rank(107) == 274 && feature_order(274) == 107);
    assert(feature_rank(108) == 271 && feature_order(271) == 108);
    assert(feature_rank(109) == 272 && feature_order(272) == 109);
    assert(feature_rank(110) == 273 && feature_order(273) == 110);
    assert(feature_rank(111) == 276 && feature_order(276) == 111);
    assert(feature_rank(112) == 275 && feature_order(275) == 112);
    assert(feature_rank(113) == 278 && feature_order(278) == 113);
    assert(feature_rank(114) == 277 && feature_order(277) == 114);
    assert(feature_rank(115) == 247 && feature_order(247) == 115);
    assert(feature_rank(116) == 248 && feature_order(248) == 116);
    assert(feature_rank(117) == 249 && feature_order(249) == 117);
    assert(feature_rank(118) == 250 && feature_order(250) == 118);
    assert(feature_rank(119) == 252 && feature_order(252) == 119);
    assert(0 <= feature_order(60) < 463);
    assert(0 <= feature_order(61) < 463);
    assert(0 <= feature_order(62) < 463);
    assert(0 <= feature_order(63) < 463);
    assert(0 <= feature_order(64) < 463);
    assert(0 <= feature_order(65) < 463);
    assert(0 <= feature_order(66) < 463);
    assert(0 <= feature_order(67) < 463);
    assert(0 <= feature_order(68) < 463);
    assert(0 <= feature_order(69) < 463);
    assert(0 <= feature_order(70) < 463);
    assert(0 <= feature_order(71) < 463);
    assert(0 <= feature_order(72) < 463);
    assert(0 <= feature_order(73) < 463);
    assert(0 <= feature_order(74) < 463);
    assert(0 <= feature_order(75) < 463);
    assert(0 <= feature_order(76) < 463);
    assert(0 <= feature_order(77) < 463);
    assert(0 <= feature_order(78) < 463);
    assert(0 <= feature_order(79) < 463);
    assert(0 <= feature_order(80) < 463);
    assert(0 <= feature_order(81) < 463);
    assert(0 <= feature_order(82) < 463);
    assert(0 <= feature_order(83) < 463);
    assert(0 <= feature_order(84) < 463);
    assert(0 <= feature_order(85) < 463);
    assert(0 <= feature_order(86) < 463);
    assert(0 <= feature_order(87) < 463);
    assert(0 <= feature_order(88) < 463);
    assert(0 <= feature_order(89) < 463);
    assert(0 <= feature_order(90) < 463);
    assert(0 <= feature_order(91) < 463);
    assert(0 <= feature_order(92) < 463);
    assert(0 <= feature_order(93) < 463);
    assert(0 <= feature_order(94) < 463);
    assert(0 <= feature_order(95) < 463);
    assert(0 <= feature_order(96) < 463);
    assert(0 <= feature_order(97) < 463);
    assert(0 <= feature_order(98) < 463);
    assert(0 <= feature_order(99) < 463);
    assert(0 <= feature_order(100) < 463);
    assert(0 <= feature_order(101) < 463);
    assert(0 <= feature_order(102) < 463);
    assert(0 <= feature_order(103) < 463);
    assert(0 <= feature_order(104) < 463);
    assert(0 <= feature_order(105) < 463);
    assert(0 <= feature_order(106) < 463);
    assert(0 <= feature_order(107) < 463);
    assert(0 <= feature_order(108) < 463);
    assert(0 <= feature_order(109) < 463);
    assert(0 <= feature_order(110) < 463);
    assert(0 <= feature_order(111) < 463);
    assert(0 <= feature_order(112) < 463);
    assert(0 <= feature_order(113) < 463);
    assert(0 <= feature_order(114) < 463);
    assert(0 <= feature_order(115) < 463);
    assert(0 <= feature_order(116) < 463);
    assert(0 <= feature_order(117) < 463);
    assert(0 <= feature_order(118) < 463);
    assert(0 <= feature_order(119) < 463);
}

proof fn lemma_feature_rank_3()
    ensures
        forall|m: int| 120 <= m < 180 ==> 0 <= #[trigger] feature_rank(m) < 463 && feature_order(feature_rank(m)) == m,
        forall|k: int| 120 <= k < 180 ==> 0 <= #[trigger] feature_order(k) < 463,
{
    reveal(feature_order_chunk_3);
    reveal(feature_rank_chunk_3);
    reveal(feature_order_chunk_1);
    reveal(feature_order_chunk_4);
    reveal(feature_order_chunk_5);
    reveal(feature_order_chunk_7);
    reveal(feature_order_chunk_8);
    assert(feature_rank(120) == 253 && feature_order(253) == 120);
    assert(feature_rank(121) == 254 && feature_order(254) == 121);
    assert(feature_rank(122) == 255 && feature_order(255) == 122);
    assert(feature_rank(123) == 256 && feature_order(256) == 123);
    assert(feature_rank(124) == 257 && feature_order(257) == 124);
    assert(feature_rank(125) == 251 && feature_order(251) == 125);
    assert(feature_rank(126) == 241 && feature_order(241) == 126);
    assert(feature_rank(127) == 244 && feature_order(244) == 127);
    assert(feature_rank(128) == 242 && feature_order(242) == 128);
    assert(feature_rank(129) == 243 && feature_order(243) == 129);
    assert(feature_rank(130) == 245 && feature_order(245) == 130);
    assert(feature_rank(131) == 391 && feature_order(391) == 131);
    assert(feature_rank(132) == 284 && feature_order(284) == 132);
    assert(feature_rank(133) == 286 && feature_order(286) == 133);
    assert(feature_rank(134) == 282 && feature_order(282) == 134);
    assert(feature_rank(135) == 297 && feature_order(297) == 135);
    assert(feature_rank(136) == 290 && feature_order(290) == 136);
    assert(feature_rank(137) == 292 && feature_order(292) == 137);
    assert(feature_rank(138) == 295 && feature_order(295) == 138);
    assert(feature_rank(139) == 293 && feature_order(293) == 139);
    assert(feature_rank(140) == 291 && feature_order(291) == 140);
    assert(feature_rank(141) == 289 && feature_order(289) == 141);
    assert(feature_rank(142) == 296 && feature_order(296) == 142);
    assert(feature_rank(143) == 288 && feature_order(288) == 143);
    assert(feature_rank(144) == 294 && feature_order(294) == 144);
    assert(feature_rank(145) == 394 && feature_order(394) == 145);
    assert(feature_rank(146) == 395 && feature_order(395) == 146);
    assert(feature_rank(147) == 443 && feature_order(443) == 147);
    assert(feature_rank(148) == 444 && feature_order(444) == 148);
    assert(feature_rank(149) == 445 && feature_order(445) == 149);
    assert(feature_rank(150) == 285 && feature_order(285) == 150);
    assert(feature_rank(151) == 375 && feature_order(375) == 151);
    assert(feature_rank(152) == 283 && feature_order(283) == 152);
    assert(feature_rank(153) == 4 && feature_order(4) == 153);
    assert(feature_rank(154) == 8 && feature_order(8) == 154);
    assert(feature_rank(155) == 7 && feature_order(7) == 155);
    assert(feature_rank(156) == 6 && feature_order(6) == 156);
    assert(feature_rank(157) == 5 && feature_order(5) == 157);
    assert(feature_rank(158) == 3 && feature_order(3) == 158);
    assert(feature_rank(159) == 9 && feature_order(9) == 159);
    assert(feature_rank(160) == 298 && feature_order(298) == 160);
    assert(feature_rank(161) == 402 && feature_order(402) == 161);
    assert(feature_rank(162) == 423 && feature_order(423) == 162);
    assert(feature_rank(163) == 213 && feature_order(213) == 163);
    assert(feature_rank(164) == 212 && feature_order(212) == 164);
    assert(feature_rank(165) == 211 && feature_order(211) == 165);
    assert(feature_rank(166) == 258 && feature_order(258) == 166);
    assert(feature_rank(167) == 203 && feature_order(203) == 167);
    assert(feature_rank(168) == 208 && feature_order(208) == 168);
    assert(feature_rank(169) == 206 && feature_order(206) == 169);
    assert(feature_rank(170) == 205 && feature_order(205) == 170);
    assert(feature_rank(171) == 204 && feature_order(204) == 171);
    assert(feature_rank(172) == 202 && feature_order(202) == 172);
    assert(feature_rank(173) == 209 && feature_order(209) == 173);
    assert(feature_rank(174) == 207 && feature_order(207) == 174);
    assert(feature_rank(175) == 11 && feature_order(11) == 175);
    assert(feature_rank(176) == 13 && feature_order(13) == 176);
    assert(feature_rank(177) == 12 && feature_order(12) == 177);
    assert(feature_rank(178) == 10 && feature_order(10) == 178);
    assert(feature_rank(179) == 0 && feature_order(0) == 179);
    assert(0 <= feature_order(120) < 463);
    assert(0 <= feature_order(121) < 463);
    assert(0 <= feature_order(122) < 463);
    assert(0 <= feature_order(123) < 463);
    assert(0 <= feature_order(124) < 463);
    assert(0 <= feature_order(125) < 463);
    assert(0 <= feature_order(126) < 463);
    assert(0 <= feature_order(127) < 463);
    assert(0 <= feature_order(128) < 463);
    assert(0 <= feature_order(129) < 463);
    assert(0 <= feature_order(130) < 463);
    assert(0 <= feature_order(131) < 463);
    assert(0 <= feature_order(132) < 463);
    assert(0 <= feature_order(133) < 463);
    assert(0 <= feature_order(134) < 463);
    assert(0 <= feature_order(135) < 463);
    assert(0 <= feature_order(136) < 463);
    assert(0 <= feature_order(137) < 463);
    assert(0 <= feature_order(138) < 463);
    assert(0 <= feature_order(139) < 463);
    assert(0 <= feature_order(140) < 463);
    assert(0 <= feature_order(141) < 463);
    assert(0 <= feature_order(142) < 463);
    assert(0 <= feature_order(143) < 463);
    assert(0 <= feature_order(144) < 463);
    assert(0 <= feature_order(145) < 463);
    assert(0 <= feature_order(146) < 463);
    assert(0 <= feature_order(147) < 463);
    assert(0 <= feature_order(148) < 463);
    assert(0 <= feature_order(149) < 463);
    assert(0 <= feature_order(150) < 463);
    assert(0 <= feature_order(151) < 463);
    assert(0 <= feature_order(152) < 463);
    assert(0 <= feature_order(153) < 463);
    assert(0 <= feature_order(154) < 463);
    assert(0 <= feature_order(155) < 463);
    assert(0 <= feature_order(156) < 463);
    assert(0 <= feature_order(157) < 463);
    assert(0 <= feature_order(158) < 463);
    assert(0 <= feature_order(159) < 463);
    assert(0 <= feature_order(160) < 463);
    assert(0 <= feature_order(161) < 463);
    assert(0 <= feature_order(162) < 463);
    assert(0 <= feature_order(163) < 463);
    assert(0 <= feature_order(164) < 463);
    assert(0 <= feature_order(165) < 463);
    assert(0 <= feature_order(166) < 463);
    assert(0 <= feature_order(167) < 463);
    assert(0 <= feature_order(168) < 463);
    assert(0 <= feature_order(169) < 463);
    assert(0 <= feature_order(170) < 463);
    assert(0 <= feature_order(171) < 463);
    assert(0 <= feature_order(172) < 463);
    assert(0 <= feature_order(173) < 463);
    assert(0 <= feature_order(174) < 463);
    assert(0 <= feature_order(175) < 463);
    assert(0 <= feature_order(176) < 463);
    assert(0 <= feature_order(177) < 463);
    assert(0 <= feature_order(178) < 463);
    assert(0 <= feature_order(179) < 463);
}

proof fn lemma_feature_rank_4()
    ensures
        forall|m: int| 180 <= m < 240 ==> 0 <= #[trigger] feature_rank(m) < 463 && feature_order(feature_rank(m)) == m,
        forall|k: int| 180 <= k < 240 ==> 0 <= #[trigger] feature_order(k) < 463,
{
    reveal(feature_rank_chunk_4);
    reveal(feature_order_chunk_1);
    reveal(feature_order_chunk_2);
    reveal(feature_order_chunk_3);
    reveal(feature_order_chunk_4);
    assert(feature_rank(180) == 1 && feature_order(1) == 180);
    assert(feature_rank(181) == 18 && feature_order(18) == 181);
    assert(feature_rank(182) == 79 && feature_order(79) == 182);
    assert(feature_rank(183) == 67 && feature_order(67) == 183);
    assert(feature_rank(184) == 159 && feature_order(159) == 184);
    assert(feature_rank(185) == 78 && feature_order(78) == 185);
    assert(feature_rank(186) == 146 && feature_order(146) == 186);
    assert(feature_rank(187) == 148 && feature_order(148) == 187);
    assert(feature_rank(188) == 149 && feature_order(149) == 188);
    assert(feature_rank(189) == 83 && feature_order(83) == 189);
    assert(feature_rank(190) == 86 && feature_order(86) == 190);
    assert(feature_rank(191) == 87 && feature_order(87) == 191);
    assert(feature_rank(192) == 68 && feature_order(68) == 192);
    assert(feature_rank(193) == 14 && feature_order(14) == 193);
    assert(feature_rank(194) == 115 && feature_order(115) == 194);
    assert(feature_rank(195) == 15 && feature_order(15) == 195);
    assert(feature_rank(196) == 16 && feature_order(16) == 196);
    assert(feature_rank(197) == 116 && feature_order(116) == 197);
    assert(feature_rank(198) == 117 && feature_order(117) == 198);
    assert(feature_rank(199) == 155 && feature_order(155) == 199);
    assert(feature_rank(200) == 156 && feature_order(156) == 200);
    assert(feature_rank(201) == 157 && feature_order(157) == 201);
    assert(feature_rank(202) == 187 && feature_order(187) == 202);
    assert(feature_rank(203) == 72 && feature_order(72) == 203);
    assert(feature_rank(204) == 73 && feature_order(73) == 204);
    assert(feature_rank(205) == 125 && feature_order(125) == 205);
    assert(feature_rank(206) == 124 && feature_order(124) == 206);
    assert(feature_rank(207) == 123 && feature_order(123) == 207);
    assert(feature_rank(208) == 122 && feature_order(122) == 208);
    assert(feature_rank(209) == 75 && feature_order(75) == 209);
    assert(feature_rank(210) == 74 && feature_order(74) == 210);
    assert(feature_rank(211) == 76 && feature_order(76) == 211);
    assert(feature_rank(212) == 189 && feature_order(189) == 212);
    assert(feature_rank(213) == 113 && feature_order(113) == 213);
    assert(feature_rank(214) == 139 && feature_order(139) == 214);
    assert(feature_rank(215) == 138 && feature_order(138) == 215);
    assert(feature_rank(216) == 137 && feature_order(137) == 216);
    assert(feature_rank(217) == 136 && feature_order(136) == 217);
    assert(feature_rank(218) == 82 && feature_order(82) == 218);
    assert(feature_rank(219) == 96 && feature_order(96) == 219);
    assert(feature_rank(220) == 162 && feature_order(162) == 220);
    assert(feature_rank(221) == 71 && feature_order(71) == 221);
    assert(feature_rank(222) == 105 && feature_order(105) == 222);
    assert(feature_rank(223) == 112 && feature_order(112) == 223);
    assert(feature_rank(224) == 111 && feature_order(111) == 224);
    assert(feature_rank(225) == 110 && feature_order(110) == 225);
    assert(feature_rank(226) == 109 && feature_order(109) == 226);
    assert(feature_rank(227) == 101 && feature_order(101) == 227);
    assert(feature_rank(228) == 99 && feature_order(99) == 228);
    assert(feature_rank(229) == 100 && feature_order(100) == 229);
    assert(feature_rank(230) == 108 && feature_order(108) == 230);
    assert(feature_rank(231) == 107 && feature_order(107) == 231);
    assert(feature_rank(232) == 104 && feature_order(104) == 232);
    assert(feature_rank(233) == 103 && feature_order(103) == 233);
    assert(feature_rank(234) == 106 && feature_order(106) == 234);
    assert(feature_rank(235) == 102 && feature_order(102) == 235);
    assert(feature_rank(236) == 98 && feature_order(98) == 236);
    assert(feature_rank(237) == 97 && feature_order(97) == 237);
    assert(feature_rank(238) == 91 && feature_order(91) == 238);
    assert(feature_rank(239) == 121 && feature_order(121) == 239);
    assert(0 <= feature_order(180) < 463);
    assert(0 <= feature_order(181) < 463);
    assert(0 <= feature_order(182) < 463);
    assert(0 <= feature_order(183) < 463);
    assert(0 <= feature_order(184) < 463);
    assert(0 <= feature_order(185) < 463);
    assert(0 <= feature_order(186) < 463);
    assert(0 <= feature_order(187) < 463);
    assert(0 <= feature_order(188) < 463);
    assert(0 <= feature_order(189) < 463);
    assert(0 <= feature_order(190) < 463);
    assert(0 <= feature_order(191) < 463);
    assert(0 <= feature_order(192) < 463);
    assert(0 <= feature_order(193) < 463);
    assert(0 <= feature_order(194) < 463);
    assert(0 <= feature_order(195) < 463);
    assert(0 <= feature_order(196) < 463);
    assert(0 <= feature_order(197) < 463);
    assert(0 <= feature_order(198) < 463);
    assert(0 <= feature_order(199) < 463);
    assert(0 <= feature_order(200) < 463);
    assert(0 <= feature_order(201) < 463);
    assert(0 <= feature_order(202) < 463);
    assert(0 <= feature_order(203) < 463);
    assert(0 <= feature_order(204) < 463);
    assert(0 <= feature_order(205) < 463);
    assert(0 <= feature_order(206) < 463);
    assert(0 <= feature_order(207) < 463);
    assert(0 <= feature_order(208) < 463);
    assert(0 <= feature_order(209) < 463);
    assert(0 <= feature_order(210) < 463);
    assert(0 <= feature_order(211) < 463);
    assert(0 <= feature_order(212) < 463);
    assert(0 <= feature_order(213) < 463);
    assert(0 <= feature_order(214) < 463);
    assert(0 <= feature_order(215) < 463);
    assert(0 <= feature_order(216) < 463);
    assert(0 <= feature_order(217) < 463);
    assert(0 <= feature_order(218) < 463);
    assert(0 <= feature_order(219) < 463);
    assert(0 <= feature_order(220) < 463);
    assert(0 <= feature_order(221) < 463);
    assert(0 <= feature_order(222) < 463);
    assert(0 <= feature_order(223) < 463);
    assert(0 <= feature_order(224) < 463);
    assert(0 <= feature_order(225) < 463);
    assert(0 <= feature_order(226) < 463);
    assert(0 <= feature_order(227) < 463);
    assert(0 <= feature_order(228) < 463);
    assert(0 <= feature_order(229) < 463);
    assert(0 <= feature_order(230) < 463);
    assert(0 <= feature_order(231) < 463);
    assert(0 <= feature_order(232) < 463);
    assert(0 <= feature_order(233) < 463);
    assert(0 <= feature_order(234) < 463);
    assert(0 <= feature_order(235) < 463);
    assert(0 <= feature_order(236) < 463);
    assert(0 <= feature_order(237) < 463);
    assert(0 <= feature_order(238) < 463);
    assert(0 <= feature_order(239) < 463);
}

proof fn lemma_feature_rank_5()
    ensures
        forall|m: int| 240 <= m < 300 ==> 0 <= #[trigger] feature_rank(m) < 463 && feature_order(feature_rank(m)) == m,
        forall|k: int| 240 <= k < 300 ==> 0 <= #[trigger] feature_order(k) < 463,
{
    reveal(feature_order_chunk_5);
    reveal(feature_rank_chunk_5);
    reveal(feature_order_chunk_1);
    reveal(feature_order_chunk_2);
    reveal(feature_order_chunk_3);
    reveal(feature_order_chunk_4);
    reveal(feature_order_chunk_6);
    assert(feature_rank(240) == 191 && feature_order(191) == 240);
    assert(feature_rank(241) == 165 && feature_order(165) == 241);
    assert(feature_rank(242) == 166 && feature_order(166) == 242);
    assert(feature_rank(243) == 172 && feature_order(172) == 243);
    assert(feature_rank(244) == 186 && feature_order(186) == 244);
    assert(feature_rank(245) == 89 && feature_order(89) == 245);
    assert(feature_rank(246) == 88 && feature_order(88) == 246);
    assert(feature_rank(247) == 95 && feature_order(95) == 247);
    assert(feature_rank(248) == 93 && feature_order(93) == 248);
    assert(feature_rank(249) == 92 && feature_order(92) == 249);
    assert(feature_rank(250) == 94 && feature_order(94) == 250);
    assert(feature_rank(251) == 331 && feature_order(331) == 251);
    assert(feature_rank(252) == 332 && feature_order(332) == 252);
    assert(feature_rank(253) == 333 && feature_order(333) == 253);
    assert(feature_rank(254) == 334 && feature_order(334) == 254);
    assert(feature_rank(255) == 335 && feature_order(335) == 255);
    assert(feature_rank(256) == 90 && feature_order(90) == 256);
    assert(feature_rank(257) == 328 && feature_order(328) == 257);
    assert(feature_rank(258) == 329 && feature_order(329) == 258);
    assert(feature_rank(259) == 330 && feature_order(330) == 259);
    assert(feature_rank(260) == 233 && feature_order(233) == 260);
    assert(feature_rank(261) == 120 && feature_order(120) == 261);
    assert(feature_rank(262) == 175 && feature_order(175) == 262);
    assert(feature_rank(263) == 188 && feature_order(188) == 263);
    assert(feature_rank(264) == 190 && feature_order(190) == 264);
    assert(feature_rank(265) == 147 && feature_order(147) == 265);
    assert(feature_rank(266) == 173 && feature_order(173) == 266);
    assert(feature_rank(267) == 167 && feature_order(167) == 267);
    assert(feature_rank(268) == 169 && feature_order(169) == 268);
    assert(feature_rank(269) == 168 && feature_order(168) == 269);
    assert(feature_rank(270) == 170 && feature_order(170) == 270);
    assert(feature_rank(271) == 171 && feature_order(171) == 271);
    assert(feature_rank(272) == 174 && feature_order(174) == 272);
    assert(feature_rank(273) == 114 && feature_order(114) == 273);
    assert(feature_rank(274) == 176 && feature_order(176) == 274);
    assert(feature_rank(275) == 160 && feature_order(160) == 275);
    assert(feature_rank(276) == 64 && feature_order(64) == 276);
    assert(feature_rank(277) == 119 && feature_order(119) == 277);
    assert(feature_rank(278) == 192 && feature_order(192) == 278);
    assert(feature_rank(279) == 65 && feature_order(65) == 279);
    assert(feature_rank(280) == 126 && feature_order(126) == 280);
    assert(feature_rank(281) == 130 && feature_order(130) == 281);
    assert(feature_rank(282) == 129 && feature_order(129) == 282);
    assert(feature_rank(283) == 127 && feature_order(127) == 283);
    assert(feature_rank(284) == 128 && feature_order(128) == 284);
    assert(feature_rank(285) == 150 && feature_order(150) == 285);
    assert(feature_rank(286) == 154 && feature_order(154) == 286);
    assert(feature_rank(287) == 153 && feature_order(153) == 287);
    assert(feature_rank(288) == 151 && feature_order(151) == 288);
    assert(feature_rank(289) == 152 && feature_order(152) == 289);
    assert(feature_rank(290) == 39 && feature_order(39) == 290);
    assert(feature_rank(291) == 57 && feature_order(57) == 291);
    assert(feature_rank(292) == 52 && feature_order(52) == 292);
    assert(feature_rank(293) == 40 && feature_order(40) == 293);
    assert(feature_rank(294) == 47 && feature_order(47) == 294);
    assert(feature_rank(295) == 63 && feature_order(63) == 295);
    assert(feature_rank(296) == 62 && feature_order(62) == 296);
    assert(feature_rank(297) == 55 && feature_order(55) == 297);
    assert(feature_rank(298) == 45 && feature_order(45) == 298);
    assert(feature_rank(299) == 50 && feature_order(50) == 299);
    assert(0 <= feature_order(240) < 463);
    assert(0 <= feature_order(241) < 463);
    assert(0 <= feature_order(242) < 463);
    assert(0 <= feature_order(243) < 463);
    assert(0 <= feature_order(244) < 463);
    assert(0 <= feature_order(245) < 463);
    assert(0 <= feature_order(246) < 463);
    assert(0 <= feature_order(247) < 463);
    assert(0 <= feature_order(248) < 463);
    assert(0 <= feature_order(249) < 463);
    assert(0 <= feature_order(250) < 463);
    assert(0 <= feature_order(251) < 463);
    assert(0 <= feature_order(252) < 463);
    assert(0 <= feature_order(253) < 463);
    assert(0 <= feature_order(254) < 463);
    assert(0 <= feature_order(255) < 463);
    assert(0 <= feature_order(256) < 463);
    assert(0 <= feature_order(257) < 463);
    assert(0 <= feature_order(258) < 463);
    assert(0 <= feature_order(259) < 463);
    assert(0 <= feature_order(260) < 463);
    assert(0 <= feature_order(261) < 463);
    assert(0 <= feature_order(262) < 463);
    assert(0 <= feature_order(263) < 463);
    assert(0 <= feature_order(264) < 463);
    assert(0 <= feature_order(265) < 463);
    assert(0 <= feature_order(266) < 463);
    assert(0 <= feature_order(267) < 463);
    assert(0 <= feature_order(268) < 463);
    assert(0 <= feature_order(269) < 463);
    assert(0 <= feature_order(270) < 463);
    assert(0 <= feature_order(271) < 463);
    assert(0 <= feature_order(272) < 463);
    assert(0 <= feature_order(273) < 463);
    assert(0 <= feature_order(274) < 463);
    assert(0 <= feature_order(275) < 463);
    assert(0 <= feature_order(276) < 463);
    assert(0 <= feature_order(277) < 463);
    assert(0 <= feature_order(278) < 463);
    assert(0 <= feature_order(279) < 463);
    assert(0 <= feature_order(280) < 463);
    assert(0 <= feature_order(281) < 463);
    assert(0 <= feature_order(282) < 463);
    assert(0 <= feature_order(283) < 463);
    assert(0 <= feature_order(284) < 463);
    assert(0 <= feature_order(285) < 463);
    assert(0 <= feature_order(286) < 463);
    assert(0 <= feature_order(287) < 463);
    assert(0 <= feature_order(288) < 463);
    assert(0 <= feature_order(289) < 463);
    assert(0 <= feature_order(290) < 463);
    assert(0 <= feature_order(291) < 463);
    assert(0 <= feature_order(292) < 463);
    assert(0 <= feature_order(293) < 463);
    assert(0 <= feature_order(294) < 463);
    assert(0 <= feature_order(295) < 463);
    assert(0 <= feature_order(296) < 463);
    assert(0 <= feature_order(297) < 463);
    assert(0 <= feature_order(298) < 463);
    assert(0 <= feature_order(299) < 463);
}

proof fn lemma_feature_rank_6()
    ensures
        forall|m: int| 300 <= m < 360 ==> 0 <= #[trigger] feature_rank(m) < 463 && feature_order(feature_rank(m)) == m,
        forall|k: int| 300 <= k < 360 ==> 0 <= #[trigger] feature_order(k) < 463,
{
    reveal(feature_rank_chunk_6);
    reveal(feature_order_chunk_1);
    reveal(feature_order_chunk_2);
    reveal(feature_order_chunk_3);
    reveal(feature_order_chunk_4);
    reveal(feature_order_chunk_6);
    assert(feature_rank(300) == 316 && feature_order(316) == 300);
    assert(feature_rank(301) == 317 && feature_order(317) == 301);
    assert(feature_rank(302) == 318 && feature_order(318) == 302);
    assert(feature_rank(303) == 319 && feature_order(319) == 303);
    assert(feature_rank(304) == 320 && feature_order(320) == 304);
    assert(feature_rank(305) == 321 && feature_order(321) == 305);
    assert(feature_rank(306) == 70 && feature_order(70) == 306);
    assert(feature_rank(307) == 30 && feature_order(30) == 307);
    assert(feature_rank(308) == 33 && feature_order(33) == 308);
    assert(feature_rank(309) == 46 && feature_order(46) == 309);
    assert(feature_rank(310) == 58 && feature_order(58) == 310);
    assert(feature_rank(311) == 53 && feature_order(53) == 311);
    assert(feature_rank(312) == 41 && feature_order(41) == 312);
    assert(feature_rank(313) == 48 && feature_order(48) == 313);
    assert(feature_rank(314) == 34 && feature_order(34) == 314);
    assert(feature_rank(315) == 36 && feature_order(36) == 315);
    assert(feature_rank(316) == 341 && feature_order(341) == 316);
    assert(feature_rank(317) == 336 && feature_order(336) == 317);
    assert(feature_rank(318) == 337 && feature_order(337) == 318);
    assert(feature_rank(319) == 340 && feature_order(340) == 319);
    assert(feature_rank(320) == 38 && feature_order(38) == 320);
    assert(feature_rank(321) == 37 && feature_order(37) == 321);
    assert(feature_rank(322) == 35 && feature_order(35) == 322);
    assert(feature_rank(323) == 32 && feature_order(32) == 323);
    assert(feature_rank(324) == 31 && feature_order(31) == 324);
    assert(feature_rank(325) == 56 && feature_order(56) == 325);
    assert(feature_rank(326) == 61 && feature_order(61) == 326);
    assert(feature_rank(327) == 54 && feature_order(54) == 327);
    assert(feature_rank(328) == 44 && feature_order(44) == 328);
    assert(feature_rank(329) == 49 && feature_order(49) == 329);
    assert(feature_rank(330) == 51 && feature_order(51) == 330);
    assert(feature_rank(331) == 59 && feature_order(59) == 331);
    assert(feature_rank(332) == 60 && feature_order(60) == 332);
    assert(feature_rank(333) == 43 && feature_order(43) == 333);
    assert(feature_rank(334) == 42 && feature_order(42) == 334);
    assert(feature_rank(335) == 66 && feature_order(66) == 335);
    assert(feature_rank(336) == 140 && feature_order(140) == 336);
    assert(feature_rank(337) == 84 && feature_order(84) == 337);
    assert(feature_rank(338) == 85 && feature_order(85) == 338);
    assert(feature_rank(339) == 141 && feature_order(141) == 339);
    assert(feature_rank(340) == 81 && feature_order(81) == 340);
    assert(feature_rank(341) == 118 && feature_order(118) == 341);
    assert(feature_rank(342) == 17 && feature_order(17) == 342);
    assert(feature_rank(343) == 28 && feature_order(28) == 343);
    assert(feature_rank(344) == 164 && feature_order(164) == 344);
    assert(feature_rank(345) == 77 && feature_order(77) == 345);
    assert(feature_rank(346) == 158 && feature_order(158) == 346);
    assert(feature_rank(347) == 185 && feature_order(185) == 347);
    assert(feature_rank(348) == 142 && feature_order(142) == 348);
    assert(feature_rank(349) == 143 && feature_order(143) == 349);
    assert(feature_rank(350) == 144 && feature_order(144) == 350);
    assert(feature_rank(351) == 145 && feature_order(145) == 351);
    assert(feature_rank(352) == 177 && feature_order(177) == 352);
    assert(feature_rank(353) == 178 && feature_order(178) == 353);
    assert(feature_rank(354) == 184 && feature_order(184) == 354);
    assert(feature_rank(355) == 161 && feature_order(161) == 355);
    assert(feature_rank(356) == 163 && feature_order(163) == 356);
    assert(feature_rank(357) == 80 && feature_order(80) == 357);
    assert(feature_rank(358) == 29 && feature_order(29) == 358);
    assert(feature_rank(359) == 69 && feature_order(69) == 359);
    assert(0 <= feature_order(300) < 463);
    assert(0 <= feature_order(301) < 463);
    assert(0 <= feature_order(302) < 463);
    assert(0 <= feature_order(303) < 463);
    assert(0 <= feature_order(304) < 463);
    assert(0 <= feature_order(305) < 463);
    assert(0 <= feature_order(306) < 463);
    assert(0 <= feature_order(307) < 463);
    assert(0 <= feature_order(308) < 463);
    assert(0 <= feature_order(309) < 463);
    assert(0 <= feature_order(310) < 463);
    assert(0 <= feature_order(311) < 463);
    assert(0 <= feature_order(312) < 463);
    assert(0 <= feature_order(313) < 463);
    assert(0 <= feature_order(314) < 463);
    assert(0 <= feature_order(315) < 463);
    assert(0 <= feature_order(316) < 463);
    assert(0 <= feature_order(317) < 463);
    assert(0 <= feature_order(318) < 463);
    assert(0 <= feature_order(319) < 463);
    assert(0 <= feature_order(320) < 463);
    assert(0 <= feature_order(321) < 463);
    assert(0 <= feature_order(322) < 463);
    assert(0 <= feature_order(323) < 463);
    assert(0 <= feature_order(324) < 463);
    assert(0 <= feature_order(325) < 463);
    assert(0 <= feature_order(326) < 463);
    assert(0 <= feature_order(327) < 463);
    assert(0 <= feature_order(328) < 463);
    assert(0 <= feature_order(329) < 463);
    assert(0 <= feature_order(330) < 463);
    assert(0 <= feature_order(331) < 463);
    assert(0 <= feature_order(332) < 463);
    assert(0 <= feature_order(333) < 463);
    assert(0 <= feature_order(334) < 463);
    assert(0 <= feature_order(335) < 463);
    assert(0 <= feature_order(336) < 463);
    assert(0 <= feature_order(337) < 463);
    assert(0 <= feature_order(338) < 463);
    assert(0 <= feature_order(339) < 463);
    assert(0 <= feature_order(340) < 463);
    assert(0 <= feature_order(341) < 463);
    assert(0 <= feature_order(342) < 463);
    assert(0 <= feature_order(343) < 463);
    assert(0 <= feature_order(344) < 463);
    assert(0 <= feature_order(345) < 463);
    assert(0 <= feature_order(346) < 463);
    assert(0 <= feature_order(347) < 463);
    assert(0 <= feature_order(348) < 463);
    assert(0 <= feature_order(349) < 463);
    assert(0 <= feature_order(350) < 463);
    assert(0 <= feature_order(351) < 463);
    assert(0 <= feature_order(352) < 463);
    assert(0 <= feature_order(353) < 463);
    assert(0 <= feature_order(354) < 463);
    assert(0 <= feature_order(355) < 463);
    assert(0 <= feature_order(356) < 463);
    assert(0 <= feature_order(357) < 463);
    assert(0 <= feature_order(358) < 463);
    assert(0 <= feature_order(359) < 463);
}

proof fn lemma_feature_rank_7()
    ensures
        forall|m: int| 360 <= m < 420 ==> 0 <= #[trigger] feature_rank(m) < 463 && feature_order(feature_rank(m)) == m,
        forall|k: int| 360 <= k < 420 ==> 0 <= #[trigger] feature_order(k) < 463,
{
    reveal(feature_rank_chunk_7);
    reveal(feature_order_chunk_1);
    reveal(feature_order_chunk_3);
    reveal(feature_order_chunk_4);
    reveal(feature_order_chunk_6);
    reveal(feature_order_chunk_7);
    assert(feature_rank(360) == 131 && feature_order(131) == 360);
    assert(feature_rank(361) == 132 && feature_order(132) == 361);
    assert(feature_rank(362) == 135 && feature_order(135) == 362);
    assert(feature_rank(363) == 133 && feature_order(133) == 363);
    assert(feature_rank(364) == 134 && feature_order(134) == 364);
    assert(feature_rank(365) == 182 && feature_order(182) == 365);
    assert(feature_rank(366) == 181 && feature_order(181) == 366);
    assert(feature_rank(367) == 180 && feature_order(180) == 367);
    assert(feature_rank(368) == 183 && feature_order(183) == 368);
    assert(feature_rank(369) == 179 && feature_order(179) == 369);
    assert(feature_rank(370) == 25 && feature_order(25) == 370);
    assert(feature_rank(371) == 22 && feature_order(22) == 371);
    assert(feature_rank(372) == 20 && feature_order(20) == 372);
    assert(feature_rank(373) == 27 && feature_order(27) == 373);
    assert(feature_rank(374) == 24 && feature_order(24) == 374);
    assert(feature_rank(375) == 21 && feature_order(21) == 375);
    assert(feature_rank(376) == 23 && feature_order(23) == 376);
    assert(feature_rank(377) == 26 && feature_order(26) == 377);
    assert(feature_rank(378) == 19 && feature_order(19) == 378);
    assert(feature_rank(379) == 315 && feature_order(315) == 379);
    assert(feature_rank(380) == 322 && feature_order(322) == 380);
    assert(feature_rank(381) == 323 && feature_order(323) == 381);
    assert(feature_rank(382) == 325 && feature_order(325) == 382);
    assert(feature_rank(383) == 327 && feature_order(327) == 383);
    assert(feature_rank(384) == 342 && feature_order(342) == 384);
    assert(feature_rank(385) == 344 && feature_order(344) == 385);
    assert(feature_rank(386) == 345 && feature_order(345) == 386);
    assert(feature_rank(387) == 346 && feature_order(346) == 387);
    assert(feature_rank(388) == 347 && feature_order(347) == 388);
    assert(feature_rank(389) == 349 && feature_order(349) == 389);
    assert(feature_rank(390) == 354 && feature_order(354) == 390);
    assert(feature_rank(391) == 355 && feature_order(355) == 391);
    assert(feature_rank(392) == 350 && feature_order(350) == 392);
    assert(feature_rank(393) == 351 && feature_order(351) == 393);
    assert(feature_rank(394) == 353 && feature_order(353) == 394);
    assert(feature_rank(395) == 324 && feature_order(324) == 395);
    assert(feature_rank(396) == 343 && feature_order(343) == 396);
    assert(feature_rank(397) == 348 && feature_order(348) == 397);
    assert(feature_rank(398) == 326 && feature_order(326) == 398);
    assert(feature_rank(399) == 352 && feature_order(352) == 399);
    assert(feature_rank(400) == 314 && feature_order(314) == 400);
    assert(feature_rank(401) == 338 && feature_order(338) == 401);
    assert(feature_rank(402) == 339 && feature_order(339) == 402);
    assert(feature_rank(403) == 313 && feature_order(313) == 403);
    assert(feature_rank(404) == 370 && feature_order(370) == 404);
    assert(feature_rank(405) == 378 && feature_order(378) == 405);
    assert(feature_rank(406) == 380 && feature_order(380) == 406);
    assert(feature_rank(407) == 359 && feature_order(359) == 407);
    assert(feature_rank(408) == 360 && feature_order(360) == 408);
    assert(feature_rank(409) == 361 && feature_order(361) == 409);
    assert(feature_rank(410) == 371 && feature_order(371) == 410);
    assert(feature_rank(411) == 366 && feature_order(366) == 411);
    assert(feature_rank(412) == 377 && feature_order(377) == 412);
    assert(feature_rank(413) == 372 && feature_order(372) == 413);
    assert(feature_rank(414) == 379 && feature_order(379) == 414);
    assert(feature_rank(415) == 376 && feature_order(376) == 415);
    assert(feature_rank(416) == 374 && feature_order(374) == 416);
    assert(feature_rank(417) == 368 && feature_order(368) == 417);
    assert(feature_rank(418) == 367 && feature_order(367) == 418);
    assert(feature_rank(419) == 369 && feature_order(369) == 419);
    assert(0 <= feature_order(360) < 463);
    assert(0 <= feature_order(361) < 463);
    assert(0 <= feature_order(362) < 463);
    assert(0 <= feature_order(363) < 463);
    assert(0 <= feature_order(364) < 463);
    assert(0 <= feature_order(365) < 463);
    assert(0 <= feature_order(366) < 463);
    assert(0 <= feature_order(367) < 463);
    assert(0 <= feature_order(368) < 463);
    assert(0 <= feature_order(369) < 463);
    assert(0 <= feature_order(370) < 463);
    assert(0 <= feature_order(371) < 463);
    assert(0 <= feature_order(372) < 463);
    assert(0 <= feature_order(373) < 463);
    assert(0 <= feature_order(374) < 463);
    assert(0 <= feature_order(375) < 463);
    assert(0 <= feature_order(376) < 463);
    assert(0 <= feature_order(377) < 463);
    assert(0 <= feature_order(378) < 463);
    assert(0 <= feature_order(379) < 463);
    assert(0 <= feature_order(380) < 463);
    assert(0 <= feature_order(381) < 463);
    assert(0 <= feature_order(382) < 463);
    assert(0 <= feature_order(383) < 463);
    assert(0 <= feature_order(384) < 463);
    assert(0 <= feature_order(385) < 463);
    assert(0 <= feature_order(386) < 463);
    assert(0 <= feature_order(387) < 463);
    assert(0 <= feature_order(388) < 463);
    assert(0 <= feature_order(389) < 463);
    assert(0 <= feature_order(390) < 463);
    assert(0 <= feature_order(391) < 463);
    assert(0 <= feature_order(392) < 463);
    assert(0 <= feature_order(393) < 463);
    assert(0 <= feature_order(394) < 463);
    assert(0 <= feature_order(395) < 463);
    assert(0 <= feature_order(396) < 463);
    assert(0 <= feature_order(397) < 463);
    assert(0 <= feature_order(398) < 463);
    assert(0 <= feature_order(399) < 463);
    assert(0 <= feature_order(400) < 463);
    assert(0 <= feature_order(401) < 463);
    assert(0 <= feature_order(402) < 463);
    assert(0 <= feature_order(403) < 463);
    assert(0 <= feature_order(404) < 463);
    assert(0 <= feature_order(405) < 463);
    assert(0 <= feature_order(406) < 463);
    assert(0 <= feature_order(407) < 463);
    assert(0 <= feature_order(408) < 463);
    assert(0 <= feature_order(409) < 463);
    assert(0 <= feature_order(410) < 463);
    assert(0 <= feature_order(411) < 463);
    assert(0 <= feature_order(412) < 463);
    assert(0 <= feature_order(413) < 463);
    assert(0 <= feature_order(414) < 463);
    assert(0 <= feature_order(415) < 463);
    assert(0 <= feature_order(416) < 463);
    assert(0 <= feature_order(417) < 463);
    assert(0 <= feature_order(418) < 463);
    assert(0 <= feature_order(419) < 463);
}

proof fn lemma_feature_rank_8()
    ensures
        forall|m: int| 420 <= m < 463 ==> 0 <= #[trigger] feature_rank(m) < 463 && feature_order(feature_rank(m)) == m,
        forall|k: int| 420 <= k < 463 ==> 0 <= #[trigger] feature_order(k) < 463,
{
    reveal(feature_order_chunk_8);
    reveal(feature_rank_chunk_8);
    reveal(feature_order_chunk_4);
    reveal(feature_order_chunk_5);
    reveal(feature_order_chunk_6);
    reveal(feature_order_chunk_7);
    assert(feature_rank(420) == 363 && feature_order(363) == 420);
    assert(feature_rank(421) == 362 && feature_order(362) == 421);
    assert(feature_rank(422) == 364 && feature_order(364) == 422);
    assert(feature_rank(423) == 365 && feature_order(365) == 423);
    assert(feature_rank(424) == 373 && feature_order(373) == 424);
    assert(feature_rank(425) == 236 && feature_order(236) == 425);
    assert(feature_rank(426) == 237 && feature_order(237) == 426);
    assert(feature_rank(427) == 234 && feature_order(234) == 427);
    assert(feature_rank(428) == 235 && feature_order(235) == 428);
    assert(feature_rank(429) == 312 && feature_order(312) == 429);
    assert(feature_rank(430) == 217 && feature_order(217) == 430);
    assert(feature_rank(431) == 221 && feature_order(221) == 431);
    assert(feature_rank(432) == 311 && feature_order(311) == 432);
    assert(feature_rank(433) == 306 && feature_order(306) == 433);
    assert(feature_rank(434) == 304 && feature_order(304) == 434);
    assert(feature_rank(435) == 303 && feature_order(303) == 435);
    assert(feature_rank(436) == 299 && feature_order(299) == 436);
    assert(feature_rank(437) == 302 && feature_order(302) == 437);
    assert(feature_rank(438) == 309 && feature_order(309) == 438);
    assert(feature_rank(439) == 300 && feature_order(300) == 439);
    assert(feature_rank(440) == 301 && feature_order(301) == 440);
    assert(feature_rank(441) == 307 && feature_order(307) == 441);
    assert(feature_rank(442) == 310 && feature_order(310) == 442);
    assert(feature_rank(443) == 305 && feature_order(305) == 443);
    assert(feature_rank(444) == 232 && feature_order(232) == 444);
    assert(feature_rank(445) == 239 && feature_order(239) == 445);
    assert(feature_rank(446) == 240 && feature_order(240) == 446);
    assert(feature_rank(447) == 231 && feature_order(231) == 447);
    assert(feature_rank(448) == 228 && feature_order(228) == 448);
    assert(feature_rank(449) == 230 && feature_order(230) == 449);
    assert(feature_rank(450) == 227 && feature_order(227) == 450);
    assert(feature_rank(451) == 229 && feature_order(229) == 451);
    assert(feature_rank(452) == 308 && feature_order(308) == 452);
    assert(feature_rank(453) == 220 && feature_order(220) == 453);
    assert(feature_rank(454) == 215 && feature_order(215) == 454);
    assert(feature_rank(455) == 222 && feature_order(222) == 455);
    assert(feature_rank(456) == 216 && feature_order(216) == 456);
    assert(feature_rank(457) == 223 && feature_order(223) == 457);
    assert(feature_rank(458) == 225 && feature_order(225) == 458);
    assert(feature_rank(459) == 226 && feature_order(226) == 459);
    assert(feature_rank(460) == 224 && feature_order(224) == 460);
    assert(feature_rank(461) == 219 && feature_order(219) == 461);
    assert(feature_rank(462) == 218 && feature_order(218) == 462);
    assert(0 <= feature_order(420) < 463);
    assert(0 <= feature_order(421) < 463);
    assert(0 <= feature_order(422) < 463);
    assert(0 <= feature_order(423) < 463);
    assert(0 <= feature_order(424) < 463);
    assert(0 <= feature_order(425) < 463);
    assert(0 <= feature_order(426) < 463);
    assert(0 <= feature_order(427) < 463);
    assert(0 <= feature_order(428) < 463);
    assert(0 <= feature_order(429) < 463);
    assert(0 <= feature_order(430) < 463);
    assert(0 <= feature_order(431) < 463);
    assert(0 <= feature_order(432) < 463);
    assert(0 <= feature_order(433) < 463);
    assert(0 <= feature_order(434) < 463);
    assert(0 <= feature_order(435) < 463);
    assert(0 <= feature_order(436) < 463);
    assert(0 <= feature_order(437) < 463);
    assert(0 <= feature_order(438) < 463);
    assert(0 <= feature_order(439) < 463);
    assert(0 <= feature_order(440) < 463);
    assert(0 <= feature_order(441) < 463);
    assert(0 <= feature_order(442) < 463);
    assert(0 <= feature_order(443) < 463);
    assert(0 <= feature_order(444) < 463);
    assert(0 <= feature_order(445) < 463);
    assert(0 <= feature_order(446) < 463);
    assert(0 <= feature_order(447) < 463);
    assert(0 <= feature_order(448) < 463);
    assert(0 <= feature_order(449) < 463);
    assert(0 <= feature_order(450) < 463);
    assert(0 <= feature_order(451) < 463);
    assert(0 <= feature_order(452) < 463);
    assert(0 <= feature_order(453) < 463);
    assert(0 <= feature_order(454) < 463);
    assert(0 <= feature_order(455) < 463);
    assert(0 <= feature_order(456) < 463);
    assert(0 <= feature_order(457) < 463);
    assert(0 <= feature_order(458) < 463);
    assert(0 <= feature_order(459) < 463);
    assert(0 <= feature_order(460) < 463);
    assert(0 <= feature_order(461) < 463);
    assert(0 <= feature_order(462) < 463);
}

#[verifier::rlimit(100)]
proof fn lemma_feature_sorted_1()
    ensures
        forall|k: int| 0 <= k < 60 ==> sorts_before(
            feature_id_literal(#[trigger] feature_order(k))@,
            feature_id_literal(feature_order(k + 1))@,
        ),
{
    reveal(feature_order_chunk_1);
    reveal(feature_order_chunk_2);
    reveal(feature_id_chunk_1);
    reveal(feature_id_chunk_3);
    reveal(feature_id_chunk_4);
    reveal(feature_id_chunk_5);
    reveal(feature_id_chunk_6);
    reveal(feature_id_chunk_7);
    assert(feature_order(0) == 179 && feature_id_literal(179) == "baseline.container.condition");
    reveal_strlit("baseline.container.condition");
    reveal_strlit("baseline.container.size-feature");
    assert("baseline.container.condition"@.take(19) =~= "baseline.container.size-feature"@.take(19));
    assert(sorts_before_at("baseline.container.condition"@, "baseline.container.size-feature"@, 19));
    assert(feature_order(1) == 180 && feature_id_literal(180) == "baseline.container.size-feature");
    reveal_strlit("baseline.container.size-feature");
    reveal_strlit("baseline.declaration.custom-property");
    assert("baseline.container.size-feature"@.take(9) =~= "baseline.declaration.custom-property"@.take(9));
    assert(sorts_before_at("baseline.container.size-feature"@, "baseline.declaration.custom-property"@, 9));
    assert(feature_order(2) == 22 && feature_id_literal(22) == "baseline.declaration.custom-property");
    reveal_strlit("baseline.declaration.custom-property");
    reveal_strlit("baseline.descriptor.font-display");
    assert("baseline.declaration.custom-property"@.take(11) =~= "baseline.descriptor.font-display"@.take(11));
    assert(sorts_before_at("baseline.declaration.custom-property"@, "baseline.descriptor.font-display"@, 11));
    assert(feature_order(3) == 158 && feature_id_literal(158) == "baseline.descriptor.font-display");
    reveal_strlit("baseline.descriptor.font-display");
    reveal_strlit("baseline.descriptor.font-family");
    assert("baseline.descriptor.font-display"@.take(25) =~= "baseline.descriptor.font-family"@.take(25));
    assert(sorts_before_at("baseline.descriptor.font-display"@, "baseline.descriptor.font-family"@, 25));
    assert(feature_order(4) == 153 && feature_id_literal(153) == "baseline.descriptor.font-family");
    reveal_strlit("baseline.descriptor.font-family");
    reveal_strlit("baseline.descriptor.font-stretch");
    assert("baseline.descriptor.font-family"@.take(25) =~= "baseline.descriptor.font-stretch"@.take(25));
    assert(sorts_before_at("baseline.descriptor.font-family"@, "baseline.descriptor.font-stretch"@, 25));
    assert(feature_order(5) == 157 && feature_id_literal(157) == "baseline.descriptor.font-stretch");
    reveal_strlit("baseline.descriptor.font-stretch");
    reveal_strlit("baseline.descriptor.font-style");
    assert("baseline.descriptor.font-stretch"@.take(27) =~= "baseline.descriptor.font-style"@.take(27));
    assert(sorts_before_at("baseline.descriptor.font-stretch"@, "baseline.descriptor.font-style"@, 27));
    assert(feature_order(6) == 156 && feature_id_literal(156) == "baseline.descriptor.font-style");
    reveal_strlit("baseline.descriptor.font-style");
    reveal_strlit("baseline.descriptor.font-weight");
    assert("baseline.descriptor.font-style"@.take(25) =~= "baseline.descriptor.font-weight"@.take(25));
    assert(sorts_before_at("baseline.descriptor.font-style"@, "baseline.descriptor.font-weight"@, 25));
    assert(feature_order(7) == 155 && feature_id_literal(155) == "baseline.descriptor.font-weight");
    reveal_strlit("baseline.descriptor.font-weight");
    reveal_strlit("baseline.descriptor.src");
    assert("baseline.descriptor.font-weight"@.take(20) =~= "baseline.descriptor.src"@.take(20));
    assert(sorts_before_at("baseline.descriptor.font-weight"@, "baseline.descriptor.src"@, 20));
    assert(feature_order(8) == 154 && feature_id_literal(154) == "baseline.descriptor.src");
    reveal_strlit("baseline.descriptor.src");
    reveal_strlit("baseline.descriptor.unicode-range");
    assert("baseline.descriptor.src"@.take(20) =~= "baseline.descriptor.unicode-range"@.take(20));
    assert(sorts_before_at("baseline.descriptor.src"@, "baseline.descriptor.unicode-range"@, 20));
    assert(feature_order(9) == 159 && feature_id_literal(159) == "baseline.descriptor.unicode-range");
    reveal_strlit("baseline.descriptor.unicode-range");
    reveal_strlit("baseline.media.discrete-feature");
    assert("baseline.descriptor.unicode-range"@.take(9) =~= "baseline.media.discrete-feature"@.take(9));
    assert(sorts_before_at("baseline.descriptor.unicode-range"@, "baseline.media.discrete-feature"@, 9));
    assert(feature_order(10) == 178 && feature_id_literal(178) == "baseline.media.discrete-feature");
    reveal_strlit("baseline.media.discrete-feature");
    reveal_strlit("baseline.media.query-list");
    assert("baseline.media.discrete-feature"@.take(15) =~= "baseline.media.query-list"@.take(15));
    assert(sorts_before_at("baseline.media.discrete-feature"@, "baseline.media.query-list"@, 15));
    assert(feature_order(11) == 175 && feature_id_literal(175) == "baseline.media.query-list");
    reveal_strlit("baseline.media.query-list");
    reveal_strlit("baseline.media.range-feature");
    assert("baseline.media.query-list"@.take(15) =~= "baseline.media.range-feature"@.take(15));
    assert(sorts_before_at("baseline.media.query-list"@, "baseline.media.range-feature"@, 15));
    assert(feature_order(12) == 177 && feature_id_literal(177) == "baseline.media.range-feature");
    reveal_strlit("baseline.media.range-feature");
    reveal_strlit("baseline.media.type");
    assert("baseline.media.range-feature"@.take(15) =~= "baseline.media.type"@.take(15));
    assert(sorts_before_at("baseline.media.range-feature"@, "baseline.media.type"@, 15));
    assert(feature_order(13) == 176 && feature_id_literal(176) == "baseline.media.type");
    reveal_strlit("baseline.media.type");
    reveal_strlit("baseline.property.align-content");
    assert("baseline.media.type"@.take(9) =~= "baseline.property.align-content"@.take(9));
    assert(sorts_before_at("baseline.media.type"@, "baseline.property.align-content"@, 9));
    assert(feature_order(14) == 193 && feature_id_literal(193) == "baseline.property.align-content");
    reveal_strlit("baseline.property.align-content");
    reveal_strlit("baseline.property.align-items");
    assert("baseline.property.align-content"@.take(24) =~= "baseline.property.align-items"@.take(24));
    assert(sorts_before_at("baseline.property.align-content"@, "baseline.property.align-items"@, 24));
    assert(feature_order(15) == 195 && feature_id_literal(195) == "baseline.property.align-items");
    reveal_strlit("baseline.property.align-items");
    reveal_strlit("baseline.property.align-self");
    assert("baseline.property.align-items"@.take(24) =~= "baseline.property.align-self"@.take(24));
    assert(sorts_before_at("baseline.property.align-items"@, "baseline.property.align-self"@, 24));
    assert(feature_order(16) == 196 && feature_id_literal(196) == "baseline.property.align-self");
    reveal_strlit("baseline.property.align-self");
    reveal_strlit("baseline.property.align-tracks");
    assert("baseline.property.align-self"@.take(24) =~= "baseline.property.align-tracks"@.take(24));
    assert(sorts_before_at("baseline.property.align-self"@, "baseline.property.align-tracks"@, 24));
    assert(feature_order(17) == 342 && feature_id_literal(342) == "baseline.property.align-tracks");
    reveal_strlit("baseline.property.align-tracks");
    reveal_strlit("baseline.property.all");
    assert("baseline.property.align-tracks"@.take(20) =~= "baseline.property.all"@.take(20));
    assert(sorts_before_at("baseline.property.align-tracks"@, "baseline.property.all"@, 20));
    assert(feature_order(18) == 181 && feature_id_literal(181) == "baseline.property.all");
    reveal_strlit("baseline.property.all");
    reveal_strlit("baseline.property.animation");
    assert("baseline.property.all"@.take(19) =~= "baseline.property.animation"@.take(19));
    assert(sorts_before_at("baseline.property.all"@, "baseline.property.animation"@, 19));
    assert(feature_order(19) == 378 && feature_id_literal(378) == "baseline.property.animation");
    reveal_strlit("baseline.property.animation");
    reveal_strlit("baseline.property.animation-delay");
    assert("baseline.property.animation"@.take(27) =~= "baseline.property.animation-delay"@.take(27));
    assert(sorts_before_at("baseline.property.animation"@, "baseline.property.animation-delay"@, 27));
    assert(feature_order(20) == 372 && feature_id_literal(372) == "baseline.property.animation-delay");
    reveal_strlit("baseline.property.animation-delay");
    reveal_strlit("baseline.property.animation-direction");
    assert("baseline.property.animation-delay"@.take(29) =~= "baseline.property.animation-direction"@.take(29));
    assert(sorts_before_at("baseline.property.animation-delay"@, "baseline.property.animation-direction"@, 29));
    assert(feature_order(21) == 375 && feature_id_literal(375) == "baseline.property.animation-direction");
    reveal_strlit("baseline.property.animation-direction");
    reveal_strlit("baseline.property.animation-duration");
    assert("baseline.property.animation-direction"@.take(29) =~= "baseline.property.animation-duration"@.take(29));
    assert(sorts_before_at("baseline.property.animation-direction"@, "baseline.property.animation-duration"@, 29));
    assert(feature_order(22) == 371 && feature_id_literal(371) == "baseline.property.animation-duration");
    reveal_strlit("baseline.property.animation-duration");
    reveal_strlit("baseline.property.animation-fill-mode");
    assert("baseline.property.animation-duration"@.take(28) =~= "baseline.property.animation-fill-mode"@.take(28));
    assert(sorts_before_at("baseline.property.animation-duration"@, "baseline.property.animation-fill-mode"@, 28));
    assert(feature_order(23) == 376 && feature_id_literal(376) == "baseline.property.animation-fill-mode");
    reveal_strlit("baseline.property.animation-fill-mode");
    reveal_strlit("baseline.property.animation-iteration-count");
    assert("baseline.property.animation-fill-mode"@.take(28) =~= "baseline.property.animation-iteration-count"@.take(28));
    assert(sorts_before_at("baseline.property.animation-fill-mode"@, "baseline.property.animation-iteration-count"@, 28));
    assert(feature_order(24) == 374 && feature_id_literal(374) == "baseline.property.animation-iteration-count");
    reveal_strlit("baseline.property.animation-iteration-count");
    reveal_strlit("baseline.property.animation-name");
    assert("baseline.property.animation-iteration-count"@.take(28) =~= "baseline.property.animation-name"@.take(28));
    assert(sorts_before_at("baseline.property.animation-iteration-count"@, "baseline.property.animation-name"@, 28));
    assert(feature_order(25) == 370 && feature_id_literal(370) == "baseline.property.animation-name");
    reveal_strlit("baseline.property.animation-name");
    reveal_strlit("baseline.property.animation-play-state");
    assert("baseline.property.animation-name"@.take(28) =~= "baseline.property.animation-play-state"@.take(28));
    assert(sorts_before_at("baseline.property.animation-name"@, "baseline.property.animation-play-state"@, 28));
    assert(feature_order(26) == 377 && feature_id_literal(377) == "baseline.property.animation-play-state");
    reveal_strlit("baseline.property.animation-play-state");
    reveal_strlit("baseline.property.animation-timing-function");
    assert("baseline.property.animation-play-state"@.take(28) =~= "baseline.property.animation-timing-function"@.take(28));
    assert(sorts_before_at("baseline.property.animation-play-state"@, "baseline.property.animation-timing-function"@, 28));
    assert(feature_order(27) == 373 && feature_id_literal(373) == "baseline.property.animation-timing-function");
    reveal_strlit("baseline.property.animation-timing-function");
    reveal_strlit("baseline.property.aspect-ratio");
    assert("baseline.property.animation-timing-function"@.take(19) =~= "baseline.property.aspect-ratio"@.take(19));
    assert(sorts_before_at("baseline.property.animation-timing-function"@, "baseline.property.aspect-ratio"@, 19));
    assert(feature_order(28) == 343 && feature_id_literal(343) == "baseline.property.aspect-ratio");
    reveal_strlit("baseline.property.aspect-ratio");
    reveal_strlit("baseline.property.backdrop-filter");
    assert("baseline.property.aspect-ratio"@.take(18) =~= "baseline.property.backdrop-filter"@.take(18));
    assert(sorts_before_at("baseline.property.aspect-ratio"@, "baseline.property.backdrop-filter"@, 18));
    assert(feature_order(29) == 358 && feature_id_literal(358) == "baseline.property.backdrop-filter");
    reveal_strlit("baseline.property.backdrop-filter");
    reveal_strlit("baseline.property.background");
    assert("baseline.property.backdrop-filter"@.take(22) =~= "baseline.property.background"@.take(22));
    assert(sorts_before_at("baseline.property.backdrop-filter"@, "baseline.property.background"@, 22));
    assert(feature_order(30) == 307 && feature_id_literal(307) == "baseline.property.background");
    reveal_strlit("baseline.property.background");
    reveal_strlit("baseline.property.background-attachment");
    assert("baseline.property.background"@.take(28) =~= "baseline.property.background-attachment"@.take(28));
    assert(sorts_before_at("baseline.property.background"@, "baseline.property.background-attachment"@, 28));
    assert(feature_order(31) == 324 && feature_id_literal(324) == "baseline.property.background-attachment");
    reveal_strlit("baseline.property.background-attachment");
    reveal_strlit("baseline.property.background-clip");
    assert("baseline.property.background-attachment"@.take(29) =~= "baseline.property.background-clip"@.take(29));
    assert(sorts_before_at("baseline.property.background-attachment"@, "baseline.property.background-clip"@, 29));
    assert(feature_order(32) == 323 && feature_id_literal(323) == "baseline.property.background-clip");
    reveal_strlit("baseline.property.background-clip");
    reveal_strlit("baseline.property.background-color");
    assert("baseline.property.background-clip"@.take(30) =~= "baseline.property.background-color"@.take(30));
    assert(sorts_before_at("baseline.property.background-clip"@, "baseline.property.background-color"@, 30));
    assert(feature_order(33) == 308 && feature_id_literal(308) == "baseline.property.background-color");
    reveal_strlit("baseline.property.background-color");
    reveal_strlit("baseline.property.background-image");
    assert("baseline.property.background-color"@.take(29) =~= "baseline.property.background-image"@.take(29));
    assert(sorts_before_at("baseline.property.background-color"@, "baseline.property.background-image"@, 29));
    assert(feature_order(34) == 314 && feature_id_literal(314) == "baseline.property.background-image");
    reveal_strlit("baseline.property.background-image");
    reveal_strlit("baseline.property.background-origin");
    assert("baseline.property.background-image"@.take(29) =~= "baseline.property.background-origin"@.take(29));
    assert(sorts_before_at("baseline.property.background-image"@, "baseline.property.background-origin"@, 29));
    assert(feature_order(35) == 322 && feature_id_literal(322) == "baseline.property.background-origin");
    reveal_strlit("baseline.property.background-origin");
    reveal_strlit("baseline.property.background-position");
    assert("baseline.property.background-origin"@.take(29) =~= "baseline.property.background-position"@.take(29));
    assert(sorts_before_at("baseline.property.background-origin"@, "baseline.property.background-position"@, 29));
    assert(feature_order(36) == 315 && feature_id_literal(315) == "baseline.property.background-position");
    reveal_strlit("baseline.property.background-position");
    reveal_strlit("baseline.property.background-repeat");
    assert("baseline.property.background-position"@.take(29) =~= "baseline.property.background-repeat"@.take(29));
    assert(sorts_before_at("baseline.property.background-position"@, "baseline.property.background-repeat"@, 29));
    assert(feature_order(37) == 321 && feature_id_literal(321) == "baseline.property.background-repeat");
    reveal_strlit("baseline.property.background-repeat");
    reveal_strlit("baseline.property.background-size");
    assert("baseline.property.background-repeat"@.take(29) =~= "baseline.property.background-size"@.take(29));
    assert(sorts_before_at("baseline.property.background-repeat"@, "baseline.property.background-size"@, 29));
    assert(feature_order(38) == 320 && feature_id_literal(320) == "baseline.property.background-size");
    reveal_strlit("baseline.property.background-size");
    reveal_strlit("baseline.property.border");
    assert("baseline.property.background-size"@.take(19) =~= "baseline.property.border"@.take(19));
    assert(sorts_before_at("baseline.property.background-size"@, "baseline.property.border"@, 19));
    assert(feature_order(39) == 290 && feature_id_literal(290) == "baseline.property.border");
    reveal_strlit("baseline.property.border");
    reveal_strlit("baseline.property.border-bottom");
    assert("baseline.property.border"@.take(24) =~= "baseline.property.border-bottom"@.take(24));
    assert(sorts_before_at("baseline.property.border"@, "baseline.property.border-bottom"@, 24));
    assert(feature_order(40) == 293 && feature_id_literal(293) == "baseline.property.border-bottom");
    reveal_strlit("baseline.property.border-bottom");
    reveal_strlit("baseline.property.border-bottom-color");
    assert("baseline.property.border-bottom"@.take(31) =~= "baseline.property.border-bottom-color"@.take(31));
    assert(sorts_before_at("baseline.property.border-bottom"@, "baseline.property.border-bottom-color"@, 31));
    assert(feature_order(41) == 312 && feature_id_literal(312) == "baseline.property.border-bottom-color");
    reveal_strlit("baseline.property.border-bottom-color");
    reveal_strlit("baseline.property.border-bottom-left-radius");
    assert("baseline.property.border-bottom-color"@.take(32) =~= "baseline.property.border-bottom-left-radius"@.take(32));
    assert(sorts_before_at("baseline.property.border-bottom-color"@, "baseline.property.border-bottom-left-radius"@, 32));
    assert(feature_order(42) == 334 && feature_id_literal(334) == "baseline.property.border-bottom-left-radius");
    reveal_strlit("baseline.property.border-bottom-left-radius");
    reveal_strlit("baseline.property.border-bottom-right-radius");
    assert("baseline.property.border-bottom-left-radius"@.take(32) =~= "baseline.property.border-bottom-right-radius"@.take(32));
    assert(sorts_before_at("baseline.property.border-bottom-left-radius"@, "baseline.property.border-bottom-right-radius"@, 32));
    assert(feature_order(43) == 333 && feature_id_literal(333) == "baseline.property.border-bottom-right-radius");
    reveal_strlit("baseline.property.border-bottom-right-radius");
    reveal_strlit("baseline.property.border-bottom-style");
    assert("baseline.property.border-bottom-right-radius"@.take(32) =~= "baseline.property.border-bottom-style"@.take(32));
    assert(sorts_before_at("baseline.property.border-bottom-right-radius"@, "baseline.property.border-bottom-style"@, 32));
    assert(feature_order(44) == 328 && feature_id_literal(328) == "baseline.property.border-bottom-style");
    reveal_strlit("baseline.property.border-bottom-style");
    reveal_strlit("baseline.property.border-bottom-width");
    assert("baseline.property.border-bottom-style"@.take(32) =~= "baseline.property.border-bottom-width"@.take(32));
    assert(sorts_before_at("baseline.property.border-bottom-style"@, "baseline.property.border-bottom-width"@, 32));
    assert(feature_order(45) == 298 && feature_id_literal(298) == "baseline.property.border-bottom-width");
    reveal_strlit("baseline.property.border-bottom-width");
    reveal_strlit("baseline.property.border-color");
    assert("baseline.property.border-bottom-width"@.take(25) =~= "baseline.property.border-color"@.take(25));
    assert(sorts_before_at("baseline.property.border-bottom-width"@, "baseline.property.border-color"@, 25));
    assert(feature_order(46) == 309 && feature_id_literal(309) == "baseline.property.border-color");
    reveal_strlit("baseline.property.border-color");
    reveal_strlit("baseline.property.border-left");
    assert("baseline.property.border-color"@.take(25) =~= "baseline.property.border-left"@.take(25));
    assert(sorts_before_at("baseline.property.border-color"@, "baseline.property.border-left"@, 25));
    assert(feature_order(47) == 294 && feature_id_literal(294) == "baseline.property.border-left");
    reveal_strlit("baseline.property.border-left");
    reveal_strlit("baseline.property.border-left-color");
    assert("baseline.property.border-left"@.take(29) =~= "baseline.property.border-left-color"@.take(29));
    assert(sorts_before_at("baseline.property.border-left"@, "baseline.property.border-left-color"@, 29));
    assert(feature_order(48) == 313 && feature_id_literal(313) == "baseline.property.border-left-color");
    reveal_strlit("baseline.property.border-left-color");
    reveal_strlit("baseline.property.border-left-style");
    assert("baseline.property.border-left-color"@.take(30) =~= "baseline.property.border-left-style"@.take(30));
    assert(sorts_before_at("baseline.property.border-left-color"@, "baseline.property.border-left-style"@, 30));
    assert(feature_order(49) == 329 && feature_id_literal(329) == "baseline.property.border-left-style");
    reveal_strlit("baseline.property.border-left-style");
    reveal_strlit("baseline.property.border-left-width");
    assert("baseline.property.border-left-style"@.take(30) =~= "baseline.property.border-left-width"@.take(30));
    assert(sorts_before_at("baseline.property.border-left-style"@, "baseline.property.border-left-width"@, 30));
    assert(feature_order(50) == 299 && feature_id_literal(299) == "baseline.property.border-left-width");
    reveal_strlit("baseline.property.border-left-width");
    reveal_strlit("baseline.property.border-radius");
    assert("baseline.property.border-left-width"@.take(25) =~= "baseline.property.border-radius"@.take(25));
    assert(sorts_before_at("baseline.property.border-left-width"@, "baseline.property.border-radius"@, 25));
    assert(feature_order(51) == 330 && feature_id_literal(330) == "baseline.property.border-radius");
    reveal_strlit("baseline.property.border-radius");
    reveal_strlit("baseline.property.border-right");
    assert("baseline.property.border-radius"@.take(26) =~= "baseline.property.border-right"@.take(26));
    assert(sorts_before_at("baseline.property.border-radius"@, "baseline.property.border-right"@, 26));
    assert(feature_order(52) == 292 && feature_id_literal(292) == "baseline.property.border-right");
    reveal_strlit("baseline.property.border-right");
    reveal_strlit("baseline.property.border-right-color");
    assert("baseline.property.border-right"@.take(30) =~= "baseline.property.border-right-color"@.take(30));
    assert(sorts_before_at("baseline.property.border-right"@, "baseline.property.border-right-color"@, 30));
    assert(feature_order(53) == 311 && feature_id_literal(311) == "baseline.property.border-right-color");
    reveal_strlit("baseline.property.border-right-color");
    reveal_strlit("baseline.property.border-right-style");
    assert("baseline.property.border-right-color"@.take(31) =~= "baseline.property.border-right-style"@.take(31));
    assert(sorts_before_at("baseline.property.border-right-color"@, "baseline.property.border-right-style"@, 31));
    assert(feature_order(54) == 327 && feature_id_literal(327) == "baseline.property.border-right-style");
    reveal_strlit("baseline.property.border-right-style");
    reveal_strlit("baseline.property.border-right-width");
    assert("baseline.property.border-right-style"@.take(31) =~= "baseline.property.border-right-width"@.take(31));
    assert(sorts_before_at("baseline.property.border-right-style"@, "baseline.property.border-right-width"@, 31));
    assert(feature_order(55) == 297 && feature_id_literal(297) == "baseline.property.border-right-width");
    reveal_strlit("baseline.property.border-right-width");
    reveal_strlit("baseline.property.border-style");
    assert("baseline.property.border-right-width"@.take(25) =~= "baseline.property.border-style"@.take(25));
    assert(sorts_before_at("baseline.property.border-right-width"@, "baseline.property.border-style"@, 25));
    assert(feature_order(56) == 325 && feature_id_literal(325) == "baseline.property.border-style");
    reveal_strlit("baseline.property.border-style");
    reveal_strlit("baseline.property.border-top");
    assert("baseline.property.border-style"@.take(25) =~= "baseline.property.border-top"@.take(25));
    assert(sorts_before_at("baseline.property.border-style"@, "baseline.property.border-top"@, 25));
    assert(feature_order(57) == 291 && feature_id_literal(291) == "baseline.property.border-top");
    reveal_strlit("baseline.property.border-top");
    reveal_strlit("baseline.property.border-top-color");
    assert("baseline.property.border-top"@.take(28) =~= "baseline.property.border-top-color"@.take(28));
    assert(sorts_before_at("baseline.property.border-top"@, "baseline.property.border-top-color"@, 28));
    assert(feature_order(58) == 310 && feature_id_literal(310) == "baseline.property.border-top-color");
    reveal_strlit("baseline.property.border-top-color");
    reveal_strlit("baseline.property.border-top-left-radius");
    assert("baseline.property.border-top-color"@.take(29) =~= "baseline.property.border-top-left-radius"@.take(29));
    assert(sorts_before_at("baseline.property.border-top-color"@, "baseline.property.border-top-left-radius"@, 29));
    assert(feature_order(59) == 331 && feature_id_literal(331) == "baseline.property.border-top-left-radius");
    assert(feature_order(60) == 332 && feature_id_literal(332) == "baseline.property.border-top-right-radius");
    reveal_strlit("baseline.property.border-top-left-radius");
    reveal_strlit("baseline.property.border-top-right-radius");
    assert("baseline.property.border-top-left-radius"@.take(29) =~= "baseline.property.border-top-right-radius"@.take(29));
    assert(sorts_before_at("baseline.property.border-top-left-radius"@, "baseline.property.border-top-right-radius"@, 29));
}

#[verifier::rlimit(100)]
proof fn lemma_feature_sorted_2()
    ensures
        forall|k: int| 60 <= k < 120 ==> sorts_before(
            feature_id_literal(#[trigger] feature_order(k))@,
            feature_id_literal(feature_order(k + 1))@,
        ),
{
    reveal(feature_order_chunk_2);
    reveal(feature_order_chunk_3);
    reveal(feature_id_chunk_4);
    reveal(feature_id_chunk_5);
    reveal(feature_id_chunk_6);
    assert(feature_order(60) == 332 && feature_id_literal(332) == "baseline.property.border-top-right-radius");
    reveal_strlit("baseline.property.border-top-right-radius");
    reveal_strlit("baseline.property.border-top-style");
    assert("baseline.property.border-top-right-radius"@.take(29) =~= "baseline.property.border-top-style"@.take(29));
    assert(sorts_before_at("baseline.property.border-top-right-radius"@, "baseline.property.border-top-style"@, 29));
    assert(feature_order(61) == 326 && feature_id_literal(326) == "baseline.property.border-top-style");
    reveal_strlit("baseline.property.border-top-style");
    reveal_strlit("baseline.property.border-top-width");
    assert("baseline.property.border-top-style"@.take(29) =~= "baseline.property.border-top-width"@.take(29));
    assert(sorts_before_at("baseline.property.border-top-style"@, "baseline.property.border-top-width"@, 29));
    assert(feature_order(62) == 296 && feature_id_literal(296) == "baseline.property.border-top-width");
    reveal_strlit("baseline.property.border-top-width");
    reveal_strlit("baseline.property.border-width");
    assert("baseline.property.border-top-width"@.take(25) =~= "baseline.property.border-width"@.take(25));
    assert(sorts_before_at("baseline.property.border-top-width"@, "baseline.property.border-width"@, 25));
    assert(feature_order(63) == 295 && feature_id_literal(295) == "baseline.property.border-width");
    reveal_strlit("baseline.property.border-width");
    reveal_strlit("baseline.property.bottom");
    assert("baseline.property.border-width"@.take(20) =~= "baseline.property.bottom"@.take(20));
    assert(sorts_before_at("baseline.property.border-width"@, "baseline.property.bottom"@, 20));
    assert(feature_order(64) == 276 && feature_id_literal(276) == "baseline.property.bottom");
    reveal_strlit("baseline.property.bottom");
    reveal_strlit("baseline.property.box-decoration-break");
    assert("baseline.property.bottom"@.take(20) =~= "baseline.property.box-decoration-break"@.take(20));
    assert(sorts_before_at("baseline.property.bottom"@, "baseline.property.box-decoration-break"@, 20));
    assert(feature_order(65) == 279 && feature_id_literal(279) == "baseline.property.box-decoration-break");
    reveal_strlit("baseline.property.box-decoration-break");
    reveal_strlit("baseline.property.box-shadow");
    assert("baseline.property.box-decoration-break"@.take(22) =~= "baseline.property.box-shadow"@.take(22));
    assert(sorts_before_at("baseline.property.box-decoration-break"@, "baseline.property.box-shadow"@, 22));
    assert(feature_order(66) == 335 && feature_id_literal(335) == "baseline.property.box-shadow");
    reveal_strlit("baseline.property.box-shadow");
    reveal_strlit("baseline.property.box-sizing");
    assert("baseline.property.box-shadow"@.take(23) =~= "baseline.property.box-sizing"@.take(23));
    assert(sorts_before_at("baseline.property.box-shadow"@, "baseline.property.box-sizing"@, 23));
    assert(feature_order(67) == 183 && feature_id_literal(183) == "baseline.property.box-sizing");
    reveal_strlit("baseline.property.box-sizing");
    reveal_strlit("baseline.property.clear");
    assert("baseline.property.box-sizing"@.take(18) =~= "baseline.property.clear"@.take(18));
    assert(sorts_before_at("baseline.property.box-sizing"@, "baseline.property.clear"@, 18));
    assert(feature_order(68) == 192 && feature_id_literal(192) == "baseline.property.clear");
    reveal_strlit("baseline.property.clear");
    reveal_strlit("baseline.property.clip-path");
    assert("baseline.property.clear"@.take(20) =~= "baseline.property.clip-path"@.take(20));
    assert(sorts_before_at("baseline.property.clear"@, "baseline.property.clip-path"@, 20));
    assert(feature_order(69) == 359 && feature_id_literal(359) == "baseline.property.clip-path");
    reveal_strlit("baseline.property.clip-path");
    reveal_strlit("baseline.property.color");
    assert("baseline.property.clip-path"@.take(19) =~= "baseline.property.color"@.take(19));
    assert(sorts_before_at("baseline.property.clip-path"@, "baseline.property.color"@, 19));
    assert(feature_order(70) == 306 && feature_id_literal(306) == "baseline.property.color");
    reveal_strlit("baseline.property.color");
    reveal_strlit("baseline.property.column-gap");
    assert("baseline.property.color"@.take(21) =~= "baseline.property.column-gap"@.take(21));
    assert(sorts_before_at("baseline.property.color"@, "baseline.property.column-gap"@, 21));
    assert(feature_order(71) == 221 && feature_id_literal(221) == "baseline.property.column-gap");
    reveal_strlit("baseline.property.column-gap");
    reveal_strlit("baseline.property.content");
    assert("baseline.property.column-gap"@.take(20) =~= "baseline.property.content"@.take(20));
    assert(sorts_before_at("baseline.property.column-gap"@, "baseline.property.content"@, 20));
    assert(feature_order(72) == 203 && feature_id_literal(203) == "baseline.property.content");
    reveal_strlit("baseline.property.content");
    reveal_strlit("baseline.property.content-visibility");
    assert("baseline.property.content"@.take(25) =~= "baseline.property.content-visibility"@.take(25));
    assert(sorts_before_at("baseline.property.content"@, "baseline.property.content-visibility"@, 25));
    assert(feature_order(73) == 204 && feature_id_literal(204) == "baseline.property.content-visibility");
    reveal_strlit("baseline.property.content-visibility");
    reveal_strlit("baseline.property.counter-increment");
    assert("baseline.property.content-visibility"@.take(20) =~= "baseline.property.counter-increment"@.take(20));
    assert(sorts_before_at("baseline.property.content-visibility"@, "baseline.property.counter-increment"@, 20));
    assert(feature_order(74) == 210 && feature_id_literal(210) == "baseline.property.counter-increment");
    reveal_strlit("baseline.property.counter-increment");
    reveal_strlit("baseline.property.counter-reset");
    assert("baseline.property.counter-increment"@.take(26) =~= "baseline.property.counter-reset"@.take(26));
    assert(sorts_before_at("baseline.property.counter-increment"@, "baseline.property.counter-reset"@, 26));
    assert(feature_order(75) == 209 && feature_id_literal(209) == "baseline.property.counter-reset");
    reveal_strlit("baseline.property.counter-reset");
    reveal_strlit("baseline.property.counter-set");
    assert("baseline.property.counter-reset"@.take(26) =~= "baseline.property.counter-set"@.take(26));
    assert(sorts_before_at("baseline.property.counter-reset"@, "baseline.property.counter-set"@, 26));
    assert(feature_order(76) == 211 && feature_id_literal(211) == "baseline.property.counter-set");
    reveal_strlit("baseline.property.counter-set");
    reveal_strlit("baseline.property.cursor");
    assert("baseline.property.counter-set"@.take(19) =~= "baseline.property.cursor"@.take(19));
    assert(sorts_before_at("baseline.property.counter-set"@, "baseline.property.cursor"@, 19));
    assert(feature_order(77) == 345 && feature_id_literal(345) == "baseline.property.cursor");
    reveal_strlit("baseline.property.cursor");
    reveal_strlit("baseline.property.direction");
    assert("baseline.property.cursor"@.take(18) =~= "baseline.property.direction"@.take(18));
    assert(sorts_before_at("baseline.property.cursor"@, "baseline.property.direction"@, 18));
    assert(feature_order(78) == 185 && feature_id_literal(185) == "baseline.property.direction");
    reveal_strlit("baseline.property.direction");
    reveal_strlit("baseline.property.display");
    assert("baseline.property.direction"@.take(20) =~= "baseline.property.display"@.take(20));
    assert(sorts_before_at("baseline.property.direction"@, "baseline.property.display"@, 20));
    assert(feature_order(79) == 182 && feature_id_literal(182) == "baseline.property.display");
    reveal_strlit("baseline.property.display");
    reveal_strlit("baseline.property.filter");
    assert("baseline.property.display"@.take(18) =~= "baseline.property.filter"@.take(18));
    assert(sorts_before_at("baseline.property.display"@, "baseline.property.filter"@, 18));
    assert(feature_order(80) == 357 && feature_id_literal(357) == "baseline.property.filter");
    reveal_strlit("baseline.property.filter");
    reveal_strlit("baseline.property.flex");
    assert("baseline.property.filter"@.take(19) =~= "baseline.property.flex"@.take(19));
    assert(sorts_before_at("baseline.property.filter"@, "baseline.property.flex"@, 19));
    assert(feature_order(81) == 340 && feature_id_literal(340) == "baseline.property.flex");
    reveal_strlit("baseline.property.flex");
    reveal_strlit("baseline.property.flex-basis");
    assert("baseline.property.flex"@.take(22) =~= "baseline.property.flex-basis"@.take(22));
    assert(sorts_before_at("baseline.property.flex"@, "baseline.property.flex-basis"@, 22));
    assert(feature_order(82) == 218 && feature_id_literal(218) == "baseline.property.flex-basis");
    reveal_strlit("baseline.property.flex-basis");
    reveal_strlit("baseline.property.flex-direction");
    assert("baseline.property.flex-basis"@.take(23) =~= "baseline.property.flex-direction"@.take(23));
    assert(sorts_before_at("baseline.property.flex-basis"@, "baseline.property.flex-direction"@, 23));
    assert(feature_order(83) == 189 && feature_id_literal(189) == "baseline.property.flex-direction");
    reveal_strlit("baseline.property.flex-direction");
    reveal_strlit("baseline.property.flex-grow");
    assert("baseline.property.flex-direction"@.take(23) =~= "baseline.property.flex-grow"@.take(23));
    assert(sorts_before_at("baseline.property.flex-direction"@, "baseline.property.flex-grow"@, 23));
    assert(feature_order(84) == 337 && feature_id_literal(337) == "baseline.property.flex-grow");
    reveal_strlit("baseline.property.flex-grow");
    reveal_strlit("baseline.property.flex-shrink");
    assert("baseline.property.flex-grow"@.take(23) =~= "baseline.property.flex-shrink"@.take(23));
    assert(sorts_before_at("baseline.property.flex-grow"@, "baseline.property.flex-shrink"@, 23));
    assert(feature_order(85) == 338 && feature_id_literal(338) == "baseline.property.flex-shrink");
    reveal_strlit("baseline.property.flex-shrink");
    reveal_strlit("baseline.property.flex-wrap");
    assert("baseline.property.flex-shrink"@.take(23) =~= "baseline.property.flex-wrap"@.take(23));
    assert(sorts_before_at("baseline.property.flex-shrink"@, "baseline.property.flex-wrap"@, 23));
    assert(feature_order(86) == 190 && feature_id_literal(190) == "baseline.property.flex-wrap");
    reveal_strlit("baseline.property.flex-wrap");
    reveal_strlit("baseline.property.float");
    assert("baseline.property.flex-wrap"@.take(20) =~= "baseline.property.float"@.take(20));
    assert(sorts_before_at("baseline.property.flex-wrap"@, "baseline.property.float"@, 20));
    assert(feature_order(87) == 191 && feature_id_literal(191) == "baseline.property.float");
    reveal_strlit("baseline.property.float");
    reveal_strlit("baseline.property.font");
    assert("baseline.property.float"@.take(19) =~= "baseline.property.font"@.take(19));
    assert(sorts_before_at("baseline.property.float"@, "baseline.property.font"@, 19));
    assert(feature_order(88) == 246 && feature_id_literal(246) == "baseline.property.font");
    reveal_strlit("baseline.property.font");
    reveal_strlit("baseline.property.font-family");
    assert("baseline.property.font"@.take(22) =~= "baseline.property.font-family"@.take(22));
    assert(sorts_before_at("baseline.property.font"@, "baseline.property.font-family"@, 22));
    assert(feature_order(89) == 245 && feature_id_literal(245) == "baseline.property.font-family");
    reveal_strlit("baseline.property.font-family");
    reveal_strlit("baseline.property.font-feature-settings");
    assert("baseline.property.font-family"@.take(24) =~= "baseline.property.font-feature-settings"@.take(24));
    assert(sorts_before_at("baseline.property.font-family"@, "baseline.property.font-feature-settings"@, 24));
    assert(feature_order(90) == 256 && feature_id_literal(256) == "baseline.property.font-feature-settings");
    reveal_strlit("baseline.property.font-feature-settings");
    reveal_strlit("baseline.property.font-size");
    assert("baseline.property.font-feature-settings"@.take(23) =~= "baseline.property.font-size"@.take(23));
    assert(sorts_before_at("baseline.property.font-feature-settings"@, "baseline.property.font-size"@, 23));
    assert(feature_order(91) == 238 && feature_id_literal(238) == "baseline.property.font-size");
    reveal_strlit("baseline.property.font-size");
    reveal_strlit("baseline.property.font-stretch");
    assert("baseline.property.font-size"@.take(24) =~= "baseline.property.font-stretch"@.take(24));
    assert(sorts_before_at("baseline.property.font-size"@, "baseline.property.font-stretch"@, 24));
    assert(feature_order(92) == 249 && feature_id_literal(249) == "baseline.property.font-stretch");
    reveal_strlit("baseline.property.font-stretch");
    reveal_strlit("baseline.property.font-style");
    assert("baseline.property.font-stretch"@.take(25) =~= "baseline.property.font-style"@.take(25));
    assert(sorts_before_at("baseline.property.font-stretch"@, "baseline.property.font-style"@, 25));
    assert(feature_order(93) == 248 && feature_id_literal(248) == "baseline.property.font-style");
    reveal_strlit("baseline.property.font-style");
    reveal_strlit("baseline.property.font-variant");
    assert("baseline.property.font-style"@.take(23) =~= "baseline.property.font-variant"@.take(23));
    assert(sorts_before_at("baseline.property.font-style"@, "baseline.property.font-variant"@, 23));
    assert(feature_order(94) == 250 && feature_id_literal(250) == "baseline.property.font-variant");
    reveal_strlit("baseline.property.font-variant");
    reveal_strlit("baseline.property.font-weight");
    assert("baseline.property.font-variant"@.take(23) =~= "baseline.property.font-weight"@.take(23));
    assert(sorts_before_at("baseline.property.font-variant"@, "baseline.property.font-weight"@, 23));
    assert(feature_order(95) == 247 && feature_id_literal(247) == "baseline.property.font-weight");
    reveal_strlit("baseline.property.font-weight");
    reveal_strlit("baseline.property.gap");
    assert("baseline.property.font-weight"@.take(18) =~= "baseline.property.gap"@.take(18));
    assert(sorts_before_at("baseline.property.font-weight"@, "baseline.property.gap"@, 18));
    assert(feature_order(96) == 219 && feature_id_literal(219) == "baseline.property.gap");
    reveal_strlit("baseline.property.gap");
    reveal_strlit("baseline.property.grid");
    assert("baseline.property.gap"@.take(19) =~= "baseline.property.grid"@.take(19));
    assert(sorts_before_at("baseline.property.gap"@, "baseline.property.grid"@, 19));
    assert(feature_order(97) == 237 && feature_id_literal(237) == "baseline.property.grid");
    reveal_strlit("baseline.property.grid");
    reveal_strlit("baseline.property.grid-area");
    assert("baseline.property.grid"@.take(22) =~= "baseline.property.grid-area"@.take(22));
    assert(sorts_before_at("baseline.property.grid"@, "baseline.property.grid-area"@, 22));
    assert(feature_order(98) == 236 && feature_id_literal(236) == "baseline.property.grid-area");
    reveal_strlit("baseline.property.grid-area");
    reveal_strlit("baseline.property.grid-auto-columns");
    assert("baseline.property.grid-area"@.take(24) =~= "baseline.property.grid-auto-columns"@.take(24));
    assert(sorts_before_at("baseline.property.grid-area"@, "baseline.property.grid-auto-columns"@, 24));
    assert(feature_order(99) == 228 && feature_id_literal(228) == "baseline.property.grid-auto-columns");
    reveal_strlit("baseline.property.grid-auto-columns");
    reveal_strlit("baseline.property.grid-auto-flow");
    assert("baseline.property.grid-auto-columns"@.take(28) =~= "baseline.property.grid-auto-flow"@.take(28));
    assert(sorts_before_at("baseline.property.grid-auto-columns"@, "baseline.property.grid-auto-flow"@, 28));
    assert(feature_order(100) == 229 && feature_id_literal(229) == "baseline.property.grid-auto-flow");
    reveal_strlit("baseline.property.grid-auto-flow");
    reveal_strlit("baseline.property.grid-auto-rows");
    assert("baseline.property.grid-auto-flow"@.take(28) =~= "baseline.property.grid-auto-rows"@.take(28));
    assert(sorts_before_at("baseline.property.grid-auto-flow"@, "baseline.property.grid-auto-rows"@, 28));
    assert(feature_order(101) == 227 && feature_id_literal(227) == "baseline.property.grid-auto-rows");
    reveal_strlit("baseline.property.grid-auto-rows");
    reveal_strlit("baseline.property.grid-column");
    assert("baseline.property.grid-auto-rows"@.take(23) =~= "baseline.property.grid-column"@.take(23));
    assert(sorts_before_at("baseline.property.grid-auto-rows"@, "baseline.property.grid-column"@, 23));
    assert(feature_order(102) == 235 && feature_id_literal(235) == "baseline.property.grid-column");
    reveal_strlit("baseline.property.grid-column");
    reveal_strlit("baseline.property.grid-column-end");
    assert("baseline.property.grid-column"@.take(29) =~= "baseline.property.grid-column-end"@.take(29));
    assert(sorts_before_at("baseline.property.grid-column"@, "baseline.property.grid-column-end"@, 29));
    assert(feature_order(103) == 233 && feature_id_literal(233) == "baseline.property.grid-column-end");
    reveal_strlit("baseline.property.grid-column-end");
    reveal_strlit("baseline.property.grid-column-start");
    assert("baseline.property.grid-column-end"@.take(30) =~= "baseline.property.grid-column-start"@.take(30));
    assert(sorts_before_at("baseline.property.grid-column-end"@, "baseline.property.grid-column-start"@, 30));
    assert(feature_order(104) == 232 && feature_id_literal(232) == "baseline.property.grid-column-start");
    reveal_strlit("baseline.property.grid-column-start");
    reveal_strlit("baseline.property.grid-flow-tolerance");
    assert("baseline.property.grid-column-start"@.take(23) =~= "baseline.property.grid-flow-tolerance"@.take(23));
    assert(sorts_before_at("baseline.property.grid-column-start"@, "baseline.property.grid-flow-tolerance"@, 23));
    assert(feature_order(105) == 222 && feature_id_literal(222) == "baseline.property.grid-flow-tolerance");
    reveal_strlit("baseline.property.grid-flow-tolerance");
    reveal_strlit("baseline.property.grid-row");
    assert("baseline.property.grid-flow-tolerance"@.take(23) =~= "baseline.property.grid-row"@.take(23));
    assert(sorts_before_at("baseline.property.grid-flow-tolerance"@, "baseline.property.grid-row"@, 23));
    assert(feature_order(106) == 234 && feature_id_literal(234) == "baseline.property.grid-row");
    reveal_strlit("baseline.property.grid-row");
    reveal_strlit("baseline.property.grid-row-end");
    assert("baseline.property.grid-row"@.take(26) =~= "baseline.property.grid-row-end"@.take(26));
    assert(sorts_before_at("baseline.property.grid-row"@, "baseline.property.grid-row-end"@, 26));
    assert(feature_order(107) == 231 && feature_id_literal(231) == "baseline.property.grid-row-end");
    reveal_strlit("baseline.property.grid-row-end");
    reveal_strlit("baseline.property.grid-row-start");
    assert("baseline.property.grid-row-end"@.take(27) =~= "baseline.property.grid-row-start"@.take(27));
    assert(sorts_before_at("baseline.property.grid-row-end"@, "baseline.property.grid-row-start"@, 27));
    assert(feature_order(108) == 230 && feature_id_literal(230) == "baseline.property.grid-row-start");
    reveal_strlit("baseline.property.grid-row-start");
    reveal_strlit("baseline.property.grid-template");
    assert("baseline.property.grid-row-start"@.take(23) =~= "baseline.property.grid-template"@.take(23));
    assert(sorts_before_at("baseline.property.grid-row-start"@, "baseline.property.grid-template"@, 23));
    assert(feature_order(109) == 226 && feature_id_literal(226) == "baseline.property.grid-template");
    reveal_strlit("baseline.property.grid-template");
    reveal_strlit("baseline.property.grid-template-areas");
    assert("baseline.property.grid-template"@.take(31) =~= "baseline.property.grid-template-areas"@.take(31));
    assert(sorts_before_at("baseline.property.grid-template"@, "baseline.property.grid-template-areas"@, 31));
    assert(feature_order(110) == 225 && feature_id_literal(225) == "baseline.property.grid-template-areas");
    reveal_strlit("baseline.property.grid-template-areas");
    reveal_strlit("baseline.property.grid-template-columns");
    assert("baseline.property.grid-template-areas"@.take(32) =~= "baseline.property.grid-template-columns"@.take(32));
    assert(sorts_before_at("baseline.property.grid-template-areas"@, "baseline.property.grid-template-columns"@, 32));
    assert(feature_order(111) == 224 && feature_id_literal(224) == "baseline.property.grid-template-columns");
    reveal_strlit("baseline.property.grid-template-columns");
    reveal_strlit("baseline.property.grid-template-rows");
    assert("baseline.property.grid-template-columns"@.take(32) =~= "baseline.property.grid-template-rows"@.take(32));
    assert(sorts_before_at("baseline.property.grid-template-columns"@, "baseline.property.grid-template-rows"@, 32));
    assert(feature_order(112) == 223 && feature_id_literal(223) == "baseline.property.grid-template-rows");
    reveal_strlit("baseline.property.grid-template-rows");
    reveal_strlit("baseline.property.height");
    assert("baseline.property.grid-template-rows"@.take(18) =~= "baseline.property.height"@.take(18));
    assert(sorts_before_at("baseline.property.grid-template-rows"@, "baseline.property.height"@, 18));
    assert(feature_order(113) == 213 && feature_id_literal(213) == "baseline.property.height");
    reveal_strlit("baseline.property.height");
    reveal_strlit("baseline.property.inset");
    assert("baseline.property.height"@.take(18) =~= "baseline.property.inset"@.take(18));
    assert(sorts_before_at("baseline.property.height"@, "baseline.property.inset"@, 18));
    assert(feature_order(114) == 273 && feature_id_literal(273) == "baseline.property.inset");
    reveal_strlit("baseline.property.inset");
    reveal_strlit("baseline.property.justify-content");
    assert("baseline.property.inset"@.take(18) =~= "baseline.property.justify-content"@.take(18));
    assert(sorts_before_at("baseline.property.inset"@, "baseline.property.justify-content"@, 18));
    assert(feature_order(115) == 194 && feature_id_literal(194) == "baseline.property.justify-content");
    reveal_strlit("baseline.property.justify-content");
    reveal_strlit("baseline.property.justify-items");
    assert("baseline.property.justify-content"@.take(26) =~= "baseline.property.justify-items"@.take(26));
    assert(sorts_before_at("baseline.property.justify-content"@, "baseline.property.justify-items"@, 26));
    assert(feature_order(116) == 197 && feature_id_literal(197) == "baseline.property.justify-items");
    reveal_strlit("baseline.property.justify-items");
    reveal_strlit("baseline.property.justify-self");
    assert("baseline.property.justify-items"@.take(26) =~= "baseline.property.justify-self"@.take(26));
    assert(sorts_before_at("baseline.property.justify-items"@, "baseline.property.justify-self"@, 26));
    assert(feature_order(117) == 198 && feature_id_literal(198) == "baseline.property.justify-self");
    reveal_strlit("baseline.property.justify-self");
    reveal_strlit("baseline.property.justify-tracks");
    assert("baseline.property.justify-self"@.take(26) =~= "baseline.property.justify-tracks"@.take(26));
    assert(sorts_before_at("baseline.property.justify-self"@, "baseline.property.justify-tracks"@, 26));
    assert(feature_order(118) == 341 && feature_id_literal(341) == "baseline.property.justify-tracks");
    reveal_strlit("baseline.property.justify-tracks");
    reveal_strlit("baseline.property.left");
    assert("baseline.property.justify-tracks"@.take(18) =~= "baseline.property.left"@.take(18));
    assert(sorts_before_at("baseline.property.justify-tracks"@, "baseline.property.left"@, 18));
    assert(feature_order(119) == 277 && feature_id_literal(277) == "baseline.property.left");
    assert(feature_order(120) == 261 && feature_id_literal(261) == "baseline.property.letter-spacing");
    reveal_strlit("baseline.property.left");
    reveal_strlit("baseline.property.letter-spacing");
    assert("baseline.property.left"@.take(20) =~= "baseline.property.letter-spacing"@.take(20));
    assert(sorts_before_at("baseline.property.left"@, "baseline.property.letter-spacing"@, 20));
}

#[verifier::rlimit(100)]
proof fn lemma_feature_sorted_3()
    ensures
        forall|k: int| 120 <= k < 180 ==> sorts_before(
            feature_id_literal(#[trigger] feature_order(k))@,
            feature_id_literal(feature_order(k + 1))@,
        ),
{
    reveal(feature_order_chunk_3);
    reveal(feature_order_chunk_4);
    reveal(feature_id_chunk_4);
    reveal(feature_id_chunk_5);
    reveal(feature_id_chunk_6);
    reveal(feature_id_chunk_7);
    assert(feature_order(120) == 261 && feature_id_literal(261) == "baseline.property.letter-spacing");
    reveal_strlit("baseline.property.letter-spacing");
    reveal_strlit("baseline.property.line-height");
    assert("baseline.property.letter-spacing"@.take(19) =~= "baseline.property.line-height"@.take(19));
    assert(sorts_before_at("baseline.property.letter-spacing"@, "baseline.property.line-height"@, 19));
    assert(feature_order(121) == 239 && feature_id_literal(239) == "baseline.property.line-height");
    reveal_strlit("baseline.property.line-height");
    reveal_strlit("baseline.property.list-style");
    assert("baseline.property.line-height"@.take(20) =~= "baseline.property.list-style"@.take(20));
    assert(sorts_before_at("baseline.property.line-height"@, "baseline.property.list-style"@, 20));
    assert(feature_order(122) == 208 && feature_id_literal(208) == "baseline.property.list-style");
    reveal_strlit("baseline.property.list-style");
    reveal_strlit("baseline.property.list-style-image");
    assert("baseline.property.list-style"@.take(28) =~= "baseline.property.list-style-image"@.take(28));
    assert(sorts_before_at("baseline.property.list-style"@, "baseline.property.list-style-image"@, 28));
    assert(feature_order(123) == 207 && feature_id_literal(207) == "baseline.property.list-style-image");
    reveal_strlit("baseline.property.list-style-image");
    reveal_strlit("baseline.property.list-style-position");
    assert("baseline.property.list-style-image"@.take(29) =~= "baseline.property.list-style-position"@.take(29));
    assert(sorts_before_at("baseline.property.list-style-image"@, "baseline.property.list-style-position"@, 29));
    assert(feature_order(124) == 206 && feature_id_literal(206) == "baseline.property.list-style-position");
    reveal_strlit("baseline.property.list-style-position");
    reveal_strlit("baseline.property.list-style-type");
    assert("baseline.property.list-style-position"@.take(29) =~= "baseline.property.list-style-type"@.take(29));
    assert(sorts_before_at("baseline.property.list-style-position"@, "baseline.property.list-style-type"@, 29));
    assert(feature_order(125) == 205 && feature_id_literal(205) == "baseline.property.list-style-type");
    reveal_strlit("baseline.property.list-style-type");
    reveal_strlit("baseline.property.margin");
    assert("baseline.property.list-style-type"@.take(18) =~= "baseline.property.margin"@.take(18));
    assert(sorts_before_at("baseline.property.list-style-type"@, "baseline.property.margin"@, 18));
    assert(feature_order(126) == 280 && feature_id_literal(280) == "baseline.property.margin");
    reveal_strlit("baseline.property.margin");
    reveal_strlit("baseline.property.margin-bottom");
    assert("baseline.property.margin"@.take(24) =~= "baseline.property.margin-bottom"@.take(24));
    assert(sorts_before_at("baseline.property.margin"@, "baseline.property.margin-bottom"@, 24));
    assert(feature_order(127) == 283 && feature_id_literal(283) == "baseline.property.margin-bottom");
    reveal_strlit("baseline.property.margin-bottom");
    reveal_strlit("baseline.property.margin-left");
    assert("baseline.property.margin-bottom"@.take(25) =~= "baseline.property.margin-left"@.take(25));
    assert(sorts_before_at("baseline.property.margin-bottom"@, "baseline.property.margin-left"@, 25));
    assert(feature_order(128) == 284 && feature_id_literal(284) == "baseline.property.margin-left");
    reveal_strlit("baseline.property.margin-left");
    reveal_strlit("baseline.property.margin-right");
    assert("baseline.property.margin-left"@.take(25) =~= "baseline.property.margin-right"@.take(25));
    assert(sorts_before_at("baseline.property.margin-left"@, "baseline.property.margin-right"@, 25));
    assert(feature_order(129) == 282 && feature_id_literal(282) == "baseline.property.margin-right");
    reveal_strlit("baseline.property.margin-right");
    reveal_strlit("baseline.property.margin-top");
    assert("baseline.property.margin-right"@.take(25) =~= "baseline.property.margin-top"@.take(25));
    assert(sorts_before_at("baseline.property.margin-right"@, "baseline.property.margin-top"@, 25));
    assert(feature_order(130) == 281 && feature_id_literal(281) == "baseline.property.margin-top");
    reveal_strlit("baseline.property.margin-top");
    reveal_strlit("baseline.property.mask");
    assert("baseline.property.margin-top"@.take(20) =~= "baseline.property.mask"@.take(20));
    assert(sorts_before_at("baseline.property.margin-top"@, "baseline.property.mask"@, 20));
    assert(feature_order(131) == 360 && feature_id_literal(360) == "baseline.property.mask");
    reveal_strlit("baseline.property.mask");
    reveal_strlit("baseline.property.mask-image");
    assert("baseline.property.mask"@.take(22) =~= "baseline.property.mask-image"@.take(22));
    assert(sorts_before_at("baseline.property.mask"@, "baseline.property.mask-image"@, 22));
    assert(feature_order(132) == 361 && feature_id_literal(361) == "baseline.property.mask-image");
    reveal_strlit("baseline.property.mask-image");
    reveal_strlit("baseline.property.mask-position");
    assert("baseline.property.mask-image"@.take(23) =~= "baseline.property.mask-position"@.take(23));
    assert(sorts_before_at("baseline.property.mask-image"@, "baseline.property.mask-position"@, 23));
    assert(feature_order(133) == 363 && feature_id_literal(363) == "baseline.property.mask-position");
    reveal_strlit("baseline.property.mask-position");
    reveal_strlit("baseline.property.mask-repeat");
    assert("baseline.property.mask-position"@.take(23) =~= "baseline.property.mask-repeat"@.take(23));
    assert(sorts_before_at("baseline.property.mask-position"@, "baseline.property.mask-repeat"@, 23));
    assert(feature_order(134) == 364 && feature_id_literal(364) == "baseline.property.mask-repeat");
    reveal_strlit("baseline.property.mask-repeat");
    reveal_strlit("baseline.property.mask-size");
    assert("baseline.property.mask-repeat"@.take(23) =~= "baseline.property.mask-size"@.take(23));
    assert(sorts_before_at("baseline.property.mask-repeat"@, "baseline.property.mask-size"@, 23));
    assert(feature_order(135) == 362 && feature_id_literal(362) == "baseline.property.mask-size");
    reveal_strlit("baseline.property.mask-size");
    reveal_strlit("baseline.property.max-height");
    assert("baseline.property.mask-size"@.take(20) =~= "baseline.property.max-height"@.take(20));
    assert(sorts_before_at("baseline.property.mask-size"@, "baseline.property.max-height"@, 20));
    assert(feature_order(136) == 217 && feature_id_literal(217) == "baseline.property.max-height");
    reveal_strlit("baseline.property.max-height");
    reveal_strlit("baseline.property.max-width");
    assert("baseline.property.max-height"@.take(22) =~= "baseline.property.max-width"@.take(22));
    assert(sorts_before_at("baseline.property.max-height"@, "baseline.property.max-width"@, 22));
    assert(feature_order(137) == 216 && feature_id_literal(216) == "baseline.property.max-width");
    reveal_strlit("baseline.property.max-width");
    reveal_strlit("baseline.property.min-height");
    assert("baseline.property.max-width"@.take(19) =~= "baseline.property.min-height"@.take(19));
    assert(sorts_before_at("baseline.property.max-width"@, "baseline.property.min-height"@, 19));
    assert(feature_order(138) == 215 && feature_id_literal(215) == "baseline.property.min-height");
    reveal_strlit("baseline.property.min-height");
    reveal_strlit("baseline.property.min-width");
    assert("baseline.property.min-height"@.take(22) =~= "baseline.property.min-width"@.take(22));
    assert(sorts_before_at("baseline.property.min-height"@, "baseline.property.min-width"@, 22));
    assert(feature_order(139) == 214 && feature_id_literal(214) == "baseline.property.min-width");
    reveal_strlit("baseline.property.min-width");
    reveal_strlit("baseline.property.opacity");
    assert("baseline.property.min-width"@.take(18) =~= "baseline.property.opacity"@.take(18));
    assert(sorts_before_at("baseline.property.min-width"@, "baseline.property.opacity"@, 18));
    assert(feature_order(140) == 336 && feature_id_literal(336) == "baseline.property.opacity");
    reveal_strlit("baseline.property.opacity");
    reveal_strlit("baseline.property.order");
    assert("baseline.property.opacity"@.take(19) =~= "baseline.property.order"@.take(19));
    assert(sorts_before_at("baseline.property.opacity"@, "baseline.property.order"@, 19));
    assert(feature_order(141) == 339 && feature_id_literal(339) == "baseline.property.order");
    reveal_strlit("baseline.property.order");
    reveal_strlit("baseline.property.outline");
    assert("baseline.property.order"@.take(19) =~= "baseline.property.outline"@.take(19));
    assert(sorts_before_at("baseline.property.order"@, "baseline.property.outline"@, 19));
    assert(feature_order(142) == 348 && feature_id_literal(348) == "baseline.property.outline");
    reveal_strlit("baseline.property.outline");
    reveal_strlit("baseline.property.outline-color");
    assert("baseline.property.outline"@.take(25) =~= "baseline.property.outline-color"@.take(25));
    assert(sorts_before_at("baseline.property.outline"@, "baseline.property.outline-color"@, 25));
    assert(feature_order(143) == 349 && feature_id_literal(349) == "baseline.property.outline-color");
    reveal_strlit("baseline.property.outline-color");
    reveal_strlit("baseline.property.outline-style");
    assert("baseline.property.outline-color"@.take(26) =~= "baseline.property.outline-style"@.take(26));
    assert(sorts_before_at("baseline.property.outline-color"@, "baseline.property.outline-style"@, 26));
    assert(feature_order(144) == 350 && feature_id_literal(350) == "baseline.property.outline-style");
    reveal_strlit("baseline.property.outline-style");
    reveal_strlit("baseline.property.outline-width");
    assert("baseline.property.outline-style"@.take(26) =~= "baseline.property.outline-width"@.take(26));
    assert(sorts_before_at("baseline.property.outline-style"@, "baseline.property.outline-width"@, 26));
    assert(feature_order(145) == 351 && feature_id_literal(351) == "baseline.property.outline-width");
    reveal_strlit("baseline.property.outline-width");
    reveal_strlit("baseline.property.overflow");
    assert("baseline.property.outline-width"@.take(19) =~= "baseline.property.overflow"@.take(19));
    assert(sorts_before_at("baseline.property.outline-width"@, "baseline.property.overflow"@, 19));
    assert(feature_order(146) == 186 && feature_id_literal(186) == "baseline.property.overflow");
    reveal_strlit("baseline.property.overflow");
    reveal_strlit("baseline.property.overflow-wrap");
    assert("baseline.property.overflow"@.take(26) =~= "baseline.property.overflow-wrap"@.take(26));
    assert(sorts_before_at("baseline.property.overflow"@, "baseline.property.overflow-wrap"@, 26));
    assert(feature_order(147) == 265 && feature_id_literal(265) == "baseline.property.overflow-wrap");
    reveal_strlit("baseline.property.overflow-wrap");
    reveal_strlit("baseline.property.overflow-x");
    assert("baseline.property.overflow-wrap"@.take(27) =~= "baseline.property.overflow-x"@.take(27));
    assert(sorts_before_at("baseline.property.overflow-wrap"@, "baseline.property.overflow-x"@, 27));
    assert(feature_order(148) == 187 && feature_id_literal(187) == "baseline.property.overflow-x");
    reveal_strlit("baseline.property.overflow-x");
    reveal_strlit("baseline.property.overflow-y");
    assert("baseline.property.overflow-x"@.take(27) =~= "baseline.property.overflow-y"@.take(27));
    assert(sorts_before_at("baseline.property.overflow-x"@, "baseline.property.overflow-y"@, 27));
    assert(feature_order(149) == 188 && feature_id_literal(188) == "baseline.property.overflow-y");
    reveal_strlit("baseline.property.overflow-y");
    reveal_strlit("baseline.property.padding");
    assert("baseline.property.overflow-y"@.take(18) =~= "baseline.property.padding"@.take(18));
    assert(sorts_before_at("baseline.property.overflow-y"@, "baseline.property.padding"@, 18));
    assert(feature_order(150) == 285 && feature_id_literal(285) == "baseline.property.padding");
    reveal_strlit("baseline.property.padding");
    reveal_strlit("baseline.property.padding-bottom");
    assert("baseline.property.padding"@.take(25) =~= "baseline.property.padding-bottom"@.take(25));
    assert(sorts_before_at("baseline.property.padding"@, "baseline.property.padding-bottom"@, 25));
    assert(feature_order(151) == 288 && feature_id_literal(288) == "baseline.property.padding-bottom");
    reveal_strlit("baseline.property.padding-bottom");
    reveal_strlit("baseline.property.padding-left");
    assert("baseline.property.padding-bottom"@.take(26) =~= "baseline.property.padding-left"@.take(26));
    assert(sorts_before_at("baseline.property.padding-bottom"@, "baseline.property.padding-left"@, 26));
    assert(feature_order(152) == 289 && feature_id_literal(289) == "baseline.property.padding-left");
    reveal_strlit("baseline.property.padding-left");
    reveal_strlit("baseline.property.padding-right");
    assert("baseline.property.padding-left"@.take(26) =~= "baseline.property.padding-right"@.take(26));
    assert(sorts_before_at("baseline.property.padding-left"@, "baseline.property.padding-right"@, 26));
    assert(feature_order(153) == 287 && feature_id_literal(287) == "baseline.property.padding-right");
    reveal_strlit("baseline.property.padding-right");
    reveal_strlit("baseline.property.padding-top");
    assert("baseline.property.padding-right"@.take(26) =~= "baseline.property.padding-top"@.take(26));
    assert(sorts_before_at("baseline.property.padding-right"@, "baseline.property.padding-top"@, 26));
    assert(feature_order(154) == 286 && feature_id_literal(286) == "baseline.property.padding-top");
    reveal_strlit("baseline.property.padding-top");
    reveal_strlit("baseline.property.place-content");
    assert("baseline.property.padding-top"@.take(19) =~= "baseline.property.place-content"@.take(19));
    assert(sorts_before_at("baseline.property.padding-top"@, "baseline.property.place-content"@, 19));
    assert(feature_order(155) == 199 && feature_id_literal(199) == "baseline.property.place-content");
    reveal_strlit("baseline.property.place-content");
    reveal_strlit("baseline.property.place-items");
    assert("baseline.property.place-content"@.take(24) =~= "baseline.property.place-items"@.take(24));
    assert(sorts_before_at("baseline.property.place-content"@, "baseline.property.place-items"@, 24));
    assert(feature_order(156) == 200 && feature_id_literal(200) == "baseline.property.place-items");
    reveal_strlit("baseline.property.place-items");
    reveal_strlit("baseline.property.place-self");
    assert("baseline.property.place-items"@.take(24) =~= "baseline.property.place-self"@.take(24));
    assert(sorts_before_at("baseline.property.place-items"@, "baseline.property.place-self"@, 24));
    assert(feature_order(157) == 201 && feature_id_literal(201) == "baseline.property.place-self");
    reveal_strlit("baseline.property.place-self");
    reveal_strlit("baseline.property.pointer-events");
    assert("baseline.property.place-self"@.take(19) =~= "baseline.property.pointer-events"@.take(19));
    assert(sorts_before_at("baseline.property.place-self"@, "baseline.property.pointer-events"@, 19));
    assert(feature_order(158) == 346 && feature_id_literal(346) == "baseline.property.pointer-events");
    reveal_strlit("baseline.property.pointer-events");
    reveal_strlit("baseline.property.position");
    assert("baseline.property.pointer-events"@.take(20) =~= "baseline.property.position"@.take(20));
    assert(sorts_before_at("baseline.property.pointer-events"@, "baseline.property.position"@, 20));
    assert(feature_order(159) == 184 && feature_id_literal(184) == "baseline.property.position");
    reveal_strlit("baseline.property.position");
    reveal_strlit("baseline.property.right");
    assert("baseline.property.position"@.take(18) =~= "baseline.property.right"@.take(18));
    assert(sorts_before_at("baseline.property.position"@, "baseline.property.right"@, 18));
    assert(feature_order(160) == 275 && feature_id_literal(275) == "baseline.property.right");
    reveal_strlit("baseline.property.right");
    reveal_strlit("baseline.property.rotate");
    assert("baseline.property.right"@.take(19) =~= "baseline.property.rotate"@.take(19));
    assert(sorts_before_at("baseline.property.right"@, "baseline.property.rotate"@, 19));
    assert(feature_order(161) == 355 && feature_id_literal(355) == "baseline.property.rotate");
    reveal_strlit("baseline.property.rotate");
    reveal_strlit("baseline.property.row-gap");
    assert("baseline.property.rotate"@.take(20) =~= "baseline.property.row-gap"@.take(20));
    assert(sorts_before_at("baseline.property.rotate"@, "baseline.property.row-gap"@, 20));
    assert(feature_order(162) == 220 && feature_id_literal(220) == "baseline.property.row-gap");
    reveal_strlit("baseline.property.row-gap");
    reveal_strlit("baseline.property.scale");
    assert("baseline.property.row-gap"@.take(18) =~= "baseline.property.scale"@.take(18));
    assert(sorts_before_at("baseline.property.row-gap"@, "baseline.property.scale"@, 18));
    assert(feature_order(163) == 356 && feature_id_literal(356) == "baseline.property.scale");
    reveal_strlit("baseline.property.scale");
    reveal_strlit("baseline.property.scrollbar-width");
    assert("baseline.property.scale"@.take(20) =~= "baseline.property.scrollbar-width"@.take(20));
    assert(sorts_before_at("baseline.property.scale"@, "baseline.property.scrollbar-width"@, 20));
    assert(feature_order(164) == 344 && feature_id_literal(344) == "baseline.property.scrollbar-width");
    reveal_strlit("baseline.property.scrollbar-width");
    reveal_strlit("baseline.property.text-align");
    assert("baseline.property.scrollbar-width"@.take(18) =~= "baseline.property.text-align"@.take(18));
    assert(sorts_before_at("baseline.property.scrollbar-width"@, "baseline.property.text-align"@, 18));
    assert(feature_order(165) == 241 && feature_id_literal(241) == "baseline.property.text-align");
    reveal_strlit("baseline.property.text-align");
    reveal_strlit("baseline.property.text-align-last");
    assert("baseline.property.text-align"@.take(28) =~= "baseline.property.text-align-last"@.take(28));
    assert(sorts_before_at("baseline.property.text-align"@, "baseline.property.text-align-last"@, 28));
    assert(feature_order(166) == 242 && feature_id_literal(242) == "baseline.property.text-align-last");
    reveal_strlit("baseline.property.text-align-last");
    reveal_strlit("baseline.property.text-decoration");
    assert("baseline.property.text-align-last"@.take(23) =~= "baseline.property.text-decoration"@.take(23));
    assert(sorts_before_at("baseline.property.text-align-last"@, "baseline.property.text-decoration"@, 23));
    assert(feature_order(167) == 267 && feature_id_literal(267) == "baseline.property.text-decoration");
    reveal_strlit("baseline.property.text-decoration");
    reveal_strlit("baseline.property.text-decoration-color");
    assert("baseline.property.text-decoration"@.take(33) =~= "baseline.property.text-decoration-color"@.take(33));
    assert(sorts_before_at("baseline.property.text-decoration"@, "baseline.property.text-decoration-color"@, 33));
    assert(feature_order(168) == 269 && feature_id_literal(269) == "baseline.property.text-decoration-color");
    reveal_strlit("baseline.property.text-decoration-color");
    reveal_strlit("baseline.property.text-decoration-line");
    assert("baseline.property.text-decoration-color"@.take(34) =~= "baseline.property.text-decoration-line"@.take(34));
    assert(sorts_before_at("baseline.property.text-decoration-color"@, "baseline.property.text-decoration-line"@, 34));
    assert(feature_order(169) == 268 && feature_id_literal(268) == "baseline.property.text-decoration-line");
    reveal_strlit("baseline.property.text-decoration-line");
    reveal_strlit("baseline.property.text-decoration-style");
    assert("baseline.property.text-decoration-line"@.take(34) =~= "baseline.property.text-decoration-style"@.take(34));
    assert(sorts_before_at("baseline.property.text-decoration-line"@, "baseline.property.text-decoration-style"@, 34));
    assert(feature_order(170) == 270 && feature_id_literal(270) == "baseline.property.text-decoration-style");
    reveal_strlit("baseline.property.text-decoration-style");
    reveal_strlit("baseline.property.text-decoration-thickness");
    assert("baseline.property.text-decoration-style"@.take(34) =~= "baseline.property.text-decoration-thickness"@.take(34));
    assert(sorts_before_at("baseline.property.text-decoration-style"@, "baseline.property.text-decoration-thickness"@, 34));
    assert(feature_order(171) == 271 && feature_id_literal(271) == "baseline.property.text-decoration-thickness");
    reveal_strlit("baseline.property.text-decoration-thickness");
    reveal_strlit("baseline.property.text-indent");
    assert("baseline.property.text-decoration-thickness"@.take(23) =~= "baseline.property.text-indent"@.take(23));
    assert(sorts_before_at("baseline.property.text-decoration-thickness"@, "baseline.property.text-indent"@, 23));
    assert(feature_order(172) == 243 && feature_id_literal(243) == "baseline.property.text-indent");
    reveal_strlit("baseline.property.text-indent");
    reveal_strlit("baseline.property.text-overflow");
    assert("baseline.property.text-indent"@.take(23) =~= "baseline.property.text-overflow"@.take(23));
    assert(sorts_before_at("baseline.property.text-indent"@, "baseline.property.text-overflow"@, 23));
    assert(feature_order(173) == 266 && feature_id_literal(266) == "baseline.property.text-overflow");
    reveal_strlit("baseline.property.text-overflow");
    reveal_strlit("baseline.property.text-transform");
    assert("baseline.property.text-overflow"@.take(23) =~= "baseline.property.text-transform"@.take(23));
    assert(sorts_before_at("baseline.property.text-overflow"@, "baseline.property.text-transform"@, 23));
    assert(feature_order(174) == 272 && feature_id_literal(272) == "baseline.property.text-transform");
    reveal_strlit("baseline.property.text-transform");
    reveal_strlit("baseline.property.text-wrap");
    assert("baseline.property.text-transform"@.take(23) =~= "baseline.property.text-wrap"@.take(23));
    assert(sorts_before_at("baseline.property.text-transform"@, "baseline.property.text-wrap"@, 23));
    assert(feature_order(175) == 262 && feature_id_literal(262) == "baseline.property.text-wrap");
    reveal_strlit("baseline.property.text-wrap");
    reveal_strlit("baseline.property.top");
    assert("baseline.property.text-wrap"@.take(19) =~= "baseline.property.top"@.take(19));
    assert(sorts_before_at("baseline.property.text-wrap"@, "baseline.property.top"@, 19));
    assert(feature_order(176) == 274 && feature_id_literal(274) == "baseline.property.top");
    reveal_strlit("baseline.property.top");
    reveal_strlit("baseline.property.transform");
    assert("baseline.property.top"@.take(19) =~= "baseline.property.transform"@.take(19));
    assert(sorts_before_at("baseline.property.top"@, "baseline.property.transform"@, 19));
    assert(feature_order(177) == 352 && feature_id_literal(352) == "baseline.property.transform");
    reveal_strlit("baseline.property.transform");
    reveal_strlit("baseline.property.transform-origin");
    assert("baseline.property.transform"@.take(27) =~= "baseline.property.transform-origin"@.take(27));
    assert(sorts_before_at("baseline.property.transform"@, "baseline.property.transform-origin"@, 27));
    assert(feature_order(178) == 353 && feature_id_literal(353) == "baseline.property.transform-origin");
    reveal_strlit("baseline.property.transform-origin");
    reveal_strlit("baseline.property.transition");
    assert("baseline.property.transform-origin"@.take(23) =~= "baseline.property.transition"@.take(23));
    assert(sorts_before_at("baseline.property.transform-origin"@, "baseline.property.transition"@, 23));
    assert(feature_order(179) == 369 && feature_id_literal(369) == "baseline.property.transition");
    assert(feature_order(180) == 367 && feature_id_literal(367) == "baseline.property.transition-delay");
    reveal_strlit("baseline.property.transition");
    reveal_strlit("baseline.property.transition-delay");
    assert("baseline.property.transition"@.take(28) =~= "baseline.property.transition-delay"@.take(28));
    assert(sorts_before_at("baseline.property.transition"@, "baseline.property.transition-delay"@, 28));
}

#[verifier::rlimit(100)]
proof fn lemma_feature_sorted_4()
    ensures
        forall|k: int| 180 <= k < 240 ==> sorts_before(
            feature_id_literal(#[trigger] feature_order(k))@,
            feature_id_literal(feature_order(k + 1))@,
        ),
{
    reveal(feature_order_chunk_4);
    reveal(feature_order_chunk_5);
    reveal(feature_id_chunk_1);
    reveal(feature_id_chunk_3);
    reveal(feature_id_chunk_4);
    reveal(feature_id_chunk_5);
    reveal(feature_id_chunk_6);
    reveal(feature_id_chunk_7);
    reveal(feature_id_chunk_8);
    assert(feature_order(180) == 367 && feature_id_literal(367) == "baseline.property.transition-delay");
    reveal_strlit("baseline.property.transition-delay");
    reveal_strlit("baseline.property.transition-duration");
    assert("baseline.property.transition-delay"@.take(30) =~= "baseline.property.transition-duration"@.take(30));
    assert(sorts_before_at("baseline.property.transition-delay"@, "baseline.property.transition-duration"@, 30));
    assert(feature_order(181) == 366 && feature_id_literal(366) == "baseline.property.transition-duration");
    reveal_strlit("baseline.property.transition-duration");
    reveal_strlit("baseline.property.transition-property");
    assert("baseline.property.transition-duration"@.take(29) =~= "baseline.property.transition-property"@.take(29));
    assert(sorts_before_at("baseline.property.transition-duration"@, "baseline.property.transition-property"@, 29));
    assert(feature_order(182) == 365 && feature_id_literal(365) == "baseline.property.transition-property");
    reveal_strlit("baseline.property.transition-property");
    reveal_strlit("baseline.property.transition-timing-function");
    assert("baseline.property.transition-property"@.take(29) =~= "baseline.property.transition-timing-function"@.take(29));
    assert(sorts_before_at("baseline.property.transition-property"@, "baseline.property.transition-timing-function"@, 29));
    assert(feature_order(183) == 368 && feature_id_literal(368) == "baseline.property.transition-timing-function");
    reveal_strlit("baseline.property.transition-timing-function");
    reveal_strlit("baseline.property.translate");
    assert("baseline.property.transition-timing-function"@.take(23) =~= "baseline.property.translate"@.take(23));
    assert(sorts_before_at("baseline.property.transition-timing-function"@, "baseline.property.translate"@, 23));
    assert(feature_order(184) == 354 && feature_id_literal(354) == "baseline.property.translate");
    reveal_strlit("baseline.property.translate");
    reveal_strlit("baseline.property.user-select");
    assert("baseline.property.translate"@.take(18) =~= "baseline.property.user-select"@.take(18));
    assert(sorts_before_at("baseline.property.translate"@, "baseline.property.user-select"@, 18));
    assert(feature_order(185) == 347 && feature_id_literal(347) == "baseline.property.user-select");
    reveal_strlit("baseline.property.user-select");
    reveal_strlit("baseline.property.vertical-align");
    assert("baseline.property.user-select"@.take(18) =~= "baseline.property.vertical-align"@.take(18));
    assert(sorts_before_at("baseline.property.user-select"@, "baseline.property.vertical-align"@, 18));
    assert(feature_order(186) == 244 && feature_id_literal(244) == "baseline.property.vertical-align");
    reveal_strlit("baseline.property.vertical-align");
    reveal_strlit("baseline.property.visibility");
    assert("baseline.property.vertical-align"@.take(19) =~= "baseline.property.visibility"@.take(19));
    assert(sorts_before_at("baseline.property.vertical-align"@, "baseline.property.visibility"@, 19));
    assert(feature_order(187) == 202 && feature_id_literal(202) == "baseline.property.visibility");
    reveal_strlit("baseline.property.visibility");
    reveal_strlit("baseline.property.white-space");
    assert("baseline.property.visibility"@.take(18) =~= "baseline.property.white-space"@.take(18));
    assert(sorts_before_at("baseline.property.visibility"@, "baseline.property.white-space"@, 18));
    assert(feature_order(188) == 263 && feature_id_literal(263) == "baseline.property.white-space");
    reveal_strlit("baseline.property.white-space");
    reveal_strlit("baseline.property.width");
    assert("baseline.property.white-space"@.take(19) =~= "baseline.property.width"@.take(19));
    assert(sorts_before_at("baseline.property.white-space"@, "baseline.property.width"@, 19));
    assert(feature_order(189) == 212 && feature_id_literal(212) == "baseline.property.width");
    reveal_strlit("baseline.property.width");
    reveal_strlit("baseline.property.word-break");
    assert("baseline.property.width"@.take(19) =~= "baseline.property.word-break"@.take(19));
    assert(sorts_before_at("baseline.property.width"@, "baseline.property.word-break"@, 19));
    assert(feature_order(190) == 264 && feature_id_literal(264) == "baseline.property.word-break");
    reveal_strlit("baseline.property.word-break");
    reveal_strlit("baseline.property.writing-mode");
    assert("baseline.property.word-break"@.take(19) =~= "baseline.property.writing-mode"@.take(19));
    assert(sorts_before_at("baseline.property.word-break"@, "baseline.property.writing-mode"@, 19));
    assert(feature_order(191) == 240 && feature_id_literal(240) == "baseline.property.writing-mode");
    reveal_strlit("baseline.property.writing-mode");
    reveal_strlit("baseline.property.z-index");
    assert("baseline.property.writing-mode"@.take(18) =~= "baseline.property.z-index"@.take(18));
    assert(sorts_before_at("baseline.property.writing-mode"@, "baseline.property.z-index"@, 18));
    assert(feature_order(192) == 278 && feature_id_literal(278) == "baseline.property.z-index");
    reveal_strlit("baseline.property.z-index");
    reveal_strlit("baseline.rule.container");
    assert("baseline.property.z-index"@.take(9) =~= "baseline.rule.container"@.take(9));
    assert(sorts_before_at("baseline.property.z-index"@, "baseline.rule.container"@, 9));
    assert(feature_order(193) == 12 && feature_id_literal(12) == "baseline.rule.container");
    reveal_strlit("baseline.rule.container");
    reveal_strlit("baseline.rule.font-face");
    assert("baseline.rule.container"@.take(14) =~= "baseline.rule.font-face"@.take(14));
    assert(sorts_before_at("baseline.rule.container"@, "baseline.rule.font-face"@, 14));
    assert(feature_order(194) == 5 && feature_id_literal(5) == "baseline.rule.font-face");
    reveal_strlit("baseline.rule.font-face");
    reveal_strlit("baseline.rule.import");
    assert("baseline.rule.font-face"@.take(14) =~= "baseline.rule.import"@.take(14));
    assert(sorts_before_at("baseline.rule.font-face"@, "baseline.rule.import"@, 14));
    assert(feature_order(195) == 0 && feature_id_literal(0) == "baseline.rule.import");
    reveal_strlit("baseline.rule.import");
    reveal_strlit("baseline.rule.keyframes");
    assert("baseline.rule.import"@.take(14) =~= "baseline.rule.keyframes"@.take(14));
    assert(sorts_before_at("baseline.rule.import"@, "baseline.rule.keyframes"@, 14));
    assert(feature_order(196) == 6 && feature_id_literal(6) == "baseline.rule.keyframes");
    reveal_strlit("baseline.rule.keyframes");
    reveal_strlit("baseline.rule.layer-block");
    assert("baseline.rule.keyframes"@.take(14) =~= "baseline.rule.layer-block"@.take(14));
    assert(sorts_before_at("baseline.rule.keyframes"@, "baseline.rule.layer-block"@, 14));
    assert(feature_order(197) == 4 && feature_id_literal(4) == "baseline.rule.layer-block");
    reveal_strlit("baseline.rule.layer-block");
    reveal_strlit("baseline.rule.layer-statement");
    assert("baseline.rule.layer-block"@.take(20) =~= "baseline.rule.layer-statement"@.take(20));
    assert(sorts_before_at("baseline.rule.layer-block"@, "baseline.rule.layer-statement"@, 20));
    assert(feature_order(198) == 3 && feature_id_literal(3) == "baseline.rule.layer-statement");
    reveal_strlit("baseline.rule.layer-statement");
    reveal_strlit("baseline.rule.media");
    assert("baseline.rule.layer-statement"@.take(14) =~= "baseline.rule.media"@.take(14));
    assert(sorts_before_at("baseline.rule.layer-statement"@, "baseline.rule.media"@, 14));
    assert(feature_order(199) == 10 && feature_id_literal(10) == "baseline.rule.media");
    reveal_strlit("baseline.rule.media");
    reveal_strlit("baseline.rule.scope");
    assert("baseline.rule.media"@.take(14) =~= "baseline.rule.scope"@.take(14));
    assert(sorts_before_at("baseline.rule.media"@, "baseline.rule.scope"@, 14));
    assert(feature_order(200) == 13 && feature_id_literal(13) == "baseline.rule.scope");
    reveal_strlit("baseline.rule.scope");
    reveal_strlit("baseline.rule.style");
    assert("baseline.rule.scope"@.take(15) =~= "baseline.rule.style"@.take(15));
    assert(sorts_before_at("baseline.rule.scope"@, "baseline.rule.style"@, 15));
    assert(feature_order(201) == 7 && feature_id_literal(7) == "baseline.rule.style");
    reveal_strlit("baseline.rule.style");
    reveal_strlit("baseline.selector.attribute-case");
    assert("baseline.rule.style"@.take(9) =~= "baseline.selector.attribute-case"@.take(9));
    assert(sorts_before_at("baseline.rule.style"@, "baseline.selector.attribute-case"@, 9));
    assert(feature_order(202) == 172 && feature_id_literal(172) == "baseline.selector.attribute-case");
    reveal_strlit("baseline.selector.attribute-case");
    reveal_strlit("baseline.selector.complex");
    assert("baseline.selector.attribute-case"@.take(18) =~= "baseline.selector.complex"@.take(18));
    assert(sorts_before_at("baseline.selector.attribute-case"@, "baseline.selector.complex"@, 18));
    assert(feature_order(203) == 167 && feature_id_literal(167) == "baseline.selector.complex");
    reveal_strlit("baseline.selector.complex");
    reveal_strlit("baseline.selector.extension-functional");
    assert("baseline.selector.complex"@.take(18) =~= "baseline.selector.extension-functional"@.take(18));
    assert(sorts_before_at("baseline.selector.complex"@, "baseline.selector.extension-functional"@, 18));
    assert(feature_order(204) == 171 && feature_id_literal(171) == "baseline.selector.extension-functional");
    reveal_strlit("baseline.selector.extension-functional");
    reveal_strlit("baseline.selector.extension-state");
    assert("baseline.selector.extension-functional"@.take(28) =~= "baseline.selector.extension-state"@.take(28));
    assert(sorts_before_at("baseline.selector.extension-functional"@, "baseline.selector.extension-state"@, 28));
    assert(feature_order(205) == 170 && feature_id_literal(170) == "baseline.selector.extension-state");
    reveal_strlit("baseline.selector.extension-state");
    reveal_strlit("baseline.selector.functional");
    assert("baseline.selector.extension-state"@.take(18) =~= "baseline.selector.functional"@.take(18));
    assert(sorts_before_at("baseline.selector.extension-state"@, "baseline.selector.functional"@, 18));
    assert(feature_order(206) == 169 && feature_id_literal(169) == "baseline.selector.functional");
    reveal_strlit("baseline.selector.functional");
    reveal_strlit("baseline.selector.nesting");
    assert("baseline.selector.functional"@.take(18) =~= "baseline.selector.nesting"@.take(18));
    assert(sorts_before_at("baseline.selector.functional"@, "baseline.selector.nesting"@, 18));
    assert(feature_order(207) == 174 && feature_id_literal(174) == "baseline.selector.nesting");
    reveal_strlit("baseline.selector.nesting");
    reveal_strlit("baseline.selector.pseudo-class");
    assert("baseline.selector.nesting"@.take(18) =~= "baseline.selector.pseudo-class"@.take(18));
    assert(sorts_before_at("baseline.selector.nesting"@, "baseline.selector.pseudo-class"@, 18));
    assert(feature_order(208) == 168 && feature_id_literal(168) == "baseline.selector.pseudo-class");
    reveal_strlit("baseline.selector.pseudo-class");
    reveal_strlit("baseline.selector.pseudo-element");
    assert("baseline.selector.pseudo-class"@.take(25) =~= "baseline.selector.pseudo-element"@.take(25));
    assert(sorts_before_at("baseline.selector.pseudo-class"@, "baseline.selector.pseudo-element"@, 25));
    assert(feature_order(209) == 173 && feature_id_literal(173) == "baseline.selector.pseudo-element");
    reveal_strlit("baseline.selector.pseudo-element");
    reveal_strlit("baseline.value.substitution-dependent");
    assert("baseline.selector.pseudo-element"@.take(9) =~= "baseline.value.substitution-dependent"@.take(9));
    assert(sorts_before_at("baseline.selector.pseudo-element"@, "baseline.value.substitution-dependent"@, 9));
    assert(feature_order(210) == 23 && feature_id_literal(23) == "baseline.value.substitution-dependent");
    reveal_strlit("baseline.value.substitution-dependent");
    reveal_strlit("ext.descriptor.font-stretch-range");
    assert("baseline.value.substitution-dependent"@.take(0) =~= "ext.descriptor.font-stretch-range"@.take(0));
    assert(sorts_before_at("baseline.value.substitution-dependent"@, "ext.descriptor.font-stretch-range"@, 0));
    assert(feature_order(211) == 165 && feature_id_literal(165) == "ext.descriptor.font-stretch-range");
    reveal_strlit("ext.descriptor.font-stretch-range");
    reveal_strlit("ext.descriptor.font-style-oblique-range");
    assert("ext.descriptor.font-stretch-range"@.take(22) =~= "ext.descriptor.font-style-oblique-range"@.take(22));
    assert(sorts_before_at("ext.descriptor.font-stretch-range"@, "ext.descriptor.font-style-oblique-range"@, 22));
    assert(feature_order(212) == 164 && feature_id_literal(164) == "ext.descriptor.font-style-oblique-range");
    reveal_strlit("ext.descriptor.font-style-oblique-range");
    reveal_strlit("ext.descriptor.font-weight-range");
    assert("ext.descriptor.font-style-oblique-range"@.take(20) =~= "ext.descriptor.font-weight-range"@.take(20));
    assert(sorts_before_at("ext.descriptor.font-style-oblique-range"@, "ext.descriptor.font-weight-range"@, 20));
    assert(feature_order(213) == 163 && feature_id_literal(163) == "ext.descriptor.font-weight-range");
    reveal_strlit("ext.descriptor.font-weight-range");
    reveal_strlit("ext.import.layer");
    assert("ext.descriptor.font-weight-range"@.take(4) =~= "ext.import.layer"@.take(4));
    assert(sorts_before_at("ext.descriptor.font-weight-range"@, "ext.import.layer"@, 4));
    assert(feature_order(214) == 1 && feature_id_literal(1) == "ext.import.layer");
    reveal_strlit("ext.import.layer");
    reveal_strlit("ext.media.any-hover");
    assert("ext.import.layer"@.take(4) =~= "ext.media.any-hover"@.take(4));
    assert(sorts_before_at("ext.import.layer"@, "ext.media.any-hover"@, 4));
    assert(feature_order(215) == 454 && feature_id_literal(454) == "ext.media.any-hover");
    reveal_strlit("ext.media.any-hover");
    reveal_strlit("ext.media.any-pointer");
    assert("ext.media.any-hover"@.take(14) =~= "ext.media.any-pointer"@.take(14));
    assert(sorts_before_at("ext.media.any-hover"@, "ext.media.any-pointer"@, 14));
    assert(feature_order(216) == 456 && feature_id_literal(456) == "ext.media.any-pointer");
    reveal_strlit("ext.media.any-pointer");
    reveal_strlit("ext.media.condition-syntax");
    assert("ext.media.any-pointer"@.take(10) =~= "ext.media.condition-syntax"@.take(10));
    assert(sorts_before_at("ext.media.any-pointer"@, "ext.media.condition-syntax"@, 10));
    assert(feature_order(217) == 430 && feature_id_literal(430) == "ext.media.condition-syntax");
    reveal_strlit("ext.media.condition-syntax");
    reveal_strlit("ext.media.display-mode");
    assert("ext.media.condition-syntax"@.take(10) =~= "ext.media.display-mode"@.take(10));
    assert(sorts_before_at("ext.media.condition-syntax"@, "ext.media.display-mode"@, 10));
    assert(feature_order(218) == 462 && feature_id_literal(462) == "ext.media.display-mode");
    reveal_strlit("ext.media.display-mode");
    reveal_strlit("ext.media.forced-colors");
    assert("ext.media.display-mode"@.take(10) =~= "ext.media.forced-colors"@.take(10));
    assert(sorts_before_at("ext.media.display-mode"@, "ext.media.forced-colors"@, 10));
    assert(feature_order(219) == 461 && feature_id_literal(461) == "ext.media.forced-colors");
    reveal_strlit("ext.media.forced-colors");
    reveal_strlit("ext.media.hover");
    assert("ext.media.forced-colors"@.take(10) =~= "ext.media.hover"@.take(10));
    assert(sorts_before_at("ext.media.forced-colors"@, "ext.media.hover"@, 10));
    assert(feature_order(220) == 453 && feature_id_literal(453) == "ext.media.hover");
    reveal_strlit("ext.media.hover");
    reveal_strlit("ext.media.malformed-member-never");
    assert("ext.media.hover"@.take(10) =~= "ext.media.malformed-member-never"@.take(10));
    assert(sorts_before_at("ext.media.hover"@, "ext.media.malformed-member-never"@, 10));
    assert(feature_order(221) == 431 && feature_id_literal(431) == "ext.media.malformed-member-never");
    reveal_strlit("ext.media.malformed-member-never");
    reveal_strlit("ext.media.pointer");
    assert("ext.media.malformed-member-never"@.take(10) =~= "ext.media.pointer"@.take(10));
    assert(sorts_before_at("ext.media.malformed-member-never"@, "ext.media.pointer"@, 10));
    assert(feature_order(222) == 455 && feature_id_literal(455) == "ext.media.pointer");
    reveal_strlit("ext.media.pointer");
    reveal_strlit("ext.media.prefers-color-scheme");
    assert("ext.media.pointer"@.take(11) =~= "ext.media.prefers-color-scheme"@.take(11));
    assert(sorts_before_at("ext.media.pointer"@, "ext.media.prefers-color-scheme"@, 11));
    assert(feature_order(223) == 457 && feature_id_literal(457) == "ext.media.prefers-color-scheme");
    reveal_strlit("ext.media.prefers-color-scheme");
    reveal_strlit("ext.media.prefers-contrast");
    assert("ext.media.prefers-color-scheme"@.take(20) =~= "ext.media.prefers-contrast"@.take(20));
    assert(sorts_before_at("ext.media.prefers-color-scheme"@, "ext.media.prefers-contrast"@, 20));
    assert(feature_order(224) == 460 && feature_id_literal(460) == "ext.media.prefers-contrast");
    reveal_strlit("ext.media.prefers-contrast");
    reveal_strlit("ext.media.prefers-reduced-motion");
    assert("ext.media.prefers-contrast"@.take(18) =~= "ext.media.prefers-reduced-motion"@.take(18));
    assert(sorts_before_at("ext.media.prefers-contrast"@, "ext.media.prefers-reduced-motion"@, 18));
    assert(feature_order(225) == 458 && feature_id_literal(458) == "ext.media.prefers-reduced-motion");
    reveal_strlit("ext.media.prefers-reduced-motion");
    reveal_strlit("ext.media.prefers-reduced-transparency");
    assert("ext.media.prefers-reduced-motion"@.take(26) =~= "ext.media.prefers-reduced-transparency"@.take(26));
    assert(sorts_before_at("ext.media.prefers-reduced-motion"@, "ext.media.prefers-reduced-transparency"@, 26));
    assert(feature_order(226) == 459 && feature_id_literal(459) == "ext.media.prefers-reduced-transparency");
    reveal_strlit("ext.media.prefers-reduced-transparency");
    reveal_strlit("ext.media.range.color");
    assert("ext.media.prefers-reduced-transparency"@.take(10) =~= "ext.media.range.color"@.take(10));
    assert(sorts_before_at("ext.media.prefers-reduced-transparency"@, "ext.media.range.color"@, 10));
    assert(feature_order(227) == 450 && feature_id_literal(450) == "ext.media.range.color");
    reveal_strlit("ext.media.range.color");
    reveal_strlit("ext.media.range.height");
    assert("ext.media.range.color"@.take(16) =~= "ext.media.range.height"@.take(16));
    assert(sorts_before_at("ext.media.range.color"@, "ext.media.range.height"@, 16));
    assert(feature_order(228) == 448 && feature_id_literal(448) == "ext.media.range.height");
    reveal_strlit("ext.media.range.height");
    reveal_strlit("ext.media.range.monochrome");
    assert("ext.media.range.height"@.take(16) =~= "ext.media.range.monochrome"@.take(16));
    assert(sorts_before_at("ext.media.range.height"@, "ext.media.range.monochrome"@, 16));
    assert(feature_order(229) == 451 && feature_id_literal(451) == "ext.media.range.monochrome");
    reveal_strlit("ext.media.range.monochrome");
    reveal_strlit("ext.media.range.resolution");
    assert("ext.media.range.monochrome"@.take(16) =~= "ext.media.range.resolution"@.take(16));
    assert(sorts_before_at("ext.media.range.monochrome"@, "ext.media.range.resolution"@, 16));
    assert(feature_order(230) == 449 && feature_id_literal(449) == "ext.media.range.resolution");
    reveal_strlit("ext.media.range.resolution");
    reveal_strlit("ext.media.range.width");
    assert("ext.media.range.resolution"@.take(16) =~= "ext.media.range.width"@.take(16));
    assert(sorts_before_at("ext.media.range.resolution"@, "ext.media.range.width"@, 16));
    assert(feature_order(231) == 447 && feature_id_literal(447) == "ext.media.range.width");
    reveal_strlit("ext.media.range.width");
    reveal_strlit("ext.media.resolution.dppx");
    assert("ext.media.range.width"@.take(11) =~= "ext.media.resolution.dppx"@.take(11));
    assert(sorts_before_at("ext.media.range.width"@, "ext.media.resolution.dppx"@, 11));
    assert(feature_order(232) == 444 && feature_id_literal(444) == "ext.media.resolution.dppx");
    reveal_strlit("ext.media.resolution.dppx");
    reveal_strlit("ext.property.font-weight-range");
    assert("ext.media.resolution.dppx"@.take(4) =~= "ext.property.font-weight-range"@.take(4));
    assert(sorts_before_at("ext.media.resolution.dppx"@, "ext.property.font-weight-range"@, 4));
    assert(feature_order(233) == 260 && feature_id_literal(260) == "ext.property.font-weight-range");
    reveal_strlit("ext.property.font-weight-range");
    reveal_strlit("ext.pseudo-element.backdrop");
    assert("ext.property.font-weight-range"@.take(5) =~= "ext.pseudo-element.backdrop"@.take(5));
    assert(sorts_before_at("ext.property.font-weight-range"@, "ext.pseudo-element.backdrop"@, 5));
    assert(feature_order(234) == 427 && feature_id_literal(427) == "ext.pseudo-element.backdrop");
    reveal_strlit("ext.pseudo-element.backdrop");
    reveal_strlit("ext.pseudo-element.generated-marker");
    assert("ext.pseudo-element.backdrop"@.take(19) =~= "ext.pseudo-element.generated-marker"@.take(19));
    assert(sorts_before_at("ext.pseudo-element.backdrop"@, "ext.pseudo-element.generated-marker"@, 19));
    assert(feature_order(235) == 428 && feature_id_literal(428) == "ext.pseudo-element.generated-marker");
    reveal_strlit("ext.pseudo-element.generated-marker");
    reveal_strlit("ext.pseudo-element.marker");
    assert("ext.pseudo-element.generated-marker"@.take(19) =~= "ext.pseudo-element.marker"@.take(19));
    assert(sorts_before_at("ext.pseudo-element.generated-marker"@, "ext.pseudo-element.marker"@, 19));
    assert(feature_order(236) == 425 && feature_id_literal(425) == "ext.pseudo-element.marker");
    reveal_strlit("ext.pseudo-element.marker");
    reveal_strlit("ext.pseudo-element.selection");
    assert("ext.pseudo-element.marker"@.take(19) =~= "ext.pseudo-element.selection"@.take(19));
    assert(sorts_before_at("ext.pseudo-element.marker"@, "ext.pseudo-element.selection"@, 19));
    assert(feature_order(237) == 426 && feature_id_literal(426) == "ext.pseudo-element.selection");
    reveal_strlit("ext.pseudo-element.selection");
    reveal_strlit("ext.stylesheet.prelude-order");
    assert("ext.pseudo-element.selection"@.take(4) =~= "ext.stylesheet.prelude-order"@.take(4));
    assert(sorts_before_at("ext.pseudo-element.selection"@, "ext.stylesheet.prelude-order"@, 4));
    assert(feature_order(238) == 2 && feature_id_literal(2) == "ext.stylesheet.prelude-order");
    reveal_strlit("ext.stylesheet.prelude-order");
    reveal_strlit("ext.supports.general-enclosed");
    assert("ext.stylesheet.prelude-order"@.take(5) =~= "ext.supports.general-enclosed"@.take(5));
    assert(sorts_before_at("ext.stylesheet.prelude-order"@, "ext.supports.general-enclosed"@, 5));
    assert(feature_order(239) == 445 && feature_id_literal(445) == "ext.supports.general-enclosed");
    assert(feature_order(240) == 446 && feature_id_literal(446) == "ext.supports.selector");
    reveal_strlit("ext.supports.general-enclosed");
    reveal_strlit("ext.supports.selector");
    assert("ext.supports.general-enclosed"@.take(13) =~= "ext.supports.selector"@.take(13));
    assert(sorts_before_at("ext.supports.general-enclosed"@, "ext.supports.selector"@, 13));
}

#[verifier::rlimit(100)]
proof fn lemma_feature_sorted_5()
    ensures
        forall|k: int| 240 <= k < 300 ==> sorts_before(
            feature_id_literal(#[trigger] feature_order(k))@,
            feature_id_literal(feature_order(k + 1))@,
        ),
{
    reveal(feature_order_chunk_5);
    reveal(feature_order_chunk_6);
    reveal(feature_id_chunk_1);
    reveal(feature_id_chunk_2);
    reveal(feature_id_chunk_3);
    reveal(feature_id_chunk_8);
    assert(feature_order(240) == 446 && feature_id_literal(446) == "ext.supports.selector");
    reveal_strlit("ext.supports.selector");
    reveal_strlit("ext.value.basic-shape");
    assert("ext.supports.selector"@.take(4) =~= "ext.value.basic-shape"@.take(4));
    assert(sorts_before_at("ext.supports.selector"@, "ext.value.basic-shape"@, 4));
    assert(feature_order(241) == 126 && feature_id_literal(126) == "ext.value.basic-shape");
    reveal_strlit("ext.value.basic-shape");
    reveal_strlit("ext.value.basic-shape.circle");
    assert("ext.value.basic-shape"@.take(21) =~= "ext.value.basic-shape.circle"@.take(21));
    assert(sorts_before_at("ext.value.basic-shape"@, "ext.value.basic-shape.circle"@, 21));
    assert(feature_order(242) == 128 && feature_id_literal(128) == "ext.value.basic-shape.circle");
    reveal_strlit("ext.value.basic-shape.circle");
    reveal_strlit("ext.value.basic-shape.ellipse");
    assert("ext.value.basic-shape.circle"@.take(22) =~= "ext.value.basic-shape.ellipse"@.take(22));
    assert(sorts_before_at("ext.value.basic-shape.circle"@, "ext.value.basic-shape.ellipse"@, 22));
    assert(feature_order(243) == 129 && feature_id_literal(129) == "ext.value.basic-shape.ellipse");
    reveal_strlit("ext.value.basic-shape.ellipse");
    reveal_strlit("ext.value.basic-shape.inset");
    assert("ext.value.basic-shape.ellipse"@.take(22) =~= "ext.value.basic-shape.inset"@.take(22));
    assert(sorts_before_at("ext.value.basic-shape.ellipse"@, "ext.value.basic-shape.inset"@, 22));
    assert(feature_order(244) == 127 && feature_id_literal(127) == "ext.value.basic-shape.inset");
    reveal_strlit("ext.value.basic-shape.inset");
    reveal_strlit("ext.value.basic-shape.polygon");
    assert("ext.value.basic-shape.inset"@.take(22) =~= "ext.value.basic-shape.polygon"@.take(22));
    assert(sorts_before_at("ext.value.basic-shape.inset"@, "ext.value.basic-shape.polygon"@, 22));
    assert(feature_order(245) == 130 && feature_id_literal(130) == "ext.value.basic-shape.polygon");
    reveal_strlit("ext.value.basic-shape.polygon");
    reveal_strlit("ext.value.color-mix");
    assert("ext.value.basic-shape.polygon"@.take(10) =~= "ext.value.color-mix"@.take(10));
    assert(sorts_before_at("ext.value.basic-shape.polygon"@, "ext.value.color-mix"@, 10));
    assert(feature_order(246) == 63 && feature_id_literal(63) == "ext.value.color-mix");
    reveal_strlit("ext.value.color-mix");
    reveal_strlit("ext.value.filter-function-list");
    assert("ext.value.color-mix"@.take(10) =~= "ext.value.filter-function-list"@.take(10));
    assert(sorts_before_at("ext.value.color-mix"@, "ext.value.filter-function-list"@, 10));
    assert(feature_order(247) == 115 && feature_id_literal(115) == "ext.value.filter-function-list");
    reveal_strlit("ext.value.filter-function-list");
    reveal_strlit("ext.value.filter.blur");
    assert("ext.value.filter-function-list"@.take(16) =~= "ext.value.filter.blur"@.take(16));
    assert(sorts_before_at("ext.value.filter-function-list"@, "ext.value.filter.blur"@, 16));
    assert(feature_order(248) == 116 && feature_id_literal(116) == "ext.value.filter.blur");
    reveal_strlit("ext.value.filter.blur");
    reveal_strlit("ext.value.filter.brightness");
    assert("ext.value.filter.blur"@.take(18) =~= "ext.value.filter.brightness"@.take(18));
    assert(sorts_before_at("ext.value.filter.blur"@, "ext.value.filter.brightness"@, 18));
    assert(feature_order(249) == 117 && feature_id_literal(117) == "ext.value.filter.brightness");
    reveal_strlit("ext.value.filter.brightness");
    reveal_strlit("ext.value.filter.contrast");
    assert("ext.value.filter.brightness"@.take(17) =~= "ext.value.filter.contrast"@.take(17));
    assert(sorts_before_at("ext.value.filter.brightness"@, "ext.value.filter.contrast"@, 17));
    assert(feature_order(250) == 118 && feature_id_literal(118) == "ext.value.filter.contrast");
    reveal_strlit("ext.value.filter.contrast");
    reveal_strlit("ext.value.filter.drop-shadow");
    assert("ext.value.filter.contrast"@.take(17) =~= "ext.value.filter.drop-shadow"@.take(17));
    assert(sorts_before_at("ext.value.filter.contrast"@, "ext.value.filter.drop-shadow"@, 17));
    assert(feature_order(251) == 125 && feature_id_literal(125) == "ext.value.filter.drop-shadow");
    reveal_strlit("ext.value.filter.drop-shadow");
    reveal_strlit("ext.value.filter.grayscale");
    assert("ext.value.filter.drop-shadow"@.take(17) =~= "ext.value.filter.grayscale"@.take(17));
    assert(sorts_before_at("ext.value.filter.drop-shadow"@, "ext.value.filter.grayscale"@, 17));
    assert(feature_order(252) == 119 && feature_id_literal(119) == "ext.value.filter.grayscale");
    reveal_strlit("ext.value.filter.grayscale");
    reveal_strlit("ext.value.filter.hue-rotate");
    assert("ext.value.filter.grayscale"@.take(17) =~= "ext.value.filter.hue-rotate"@.take(17));
    assert(sorts_before_at("ext.value.filter.grayscale"@, "ext.value.filter.hue-rotate"@, 17));
    assert(feature_order(253) == 120 && feature_id_literal(120) == "ext.value.filter.hue-rotate");
    reveal_strlit("ext.value.filter.hue-rotate");
    reveal_strlit("ext.value.filter.invert");
    assert("ext.value.filter.hue-rotate"@.take(17) =~= "ext.value.filter.invert"@.take(17));
    assert(sorts_before_at("ext.value.filter.hue-rotate"@, "ext.value.filter.invert"@, 17));
    assert(feature_order(254) == 121 && feature_id_literal(121) == "ext.value.filter.invert");
    reveal_strlit("ext.value.filter.invert");
    reveal_strlit("ext.value.filter.opacity");
    assert("ext.value.filter.invert"@.take(17) =~= "ext.value.filter.opacity"@.take(17));
    assert(sorts_before_at("ext.value.filter.invert"@, "ext.value.filter.opacity"@, 17));
    assert(feature_order(255) == 122 && feature_id_literal(122) == "ext.value.filter.opacity");
    reveal_strlit("ext.value.filter.opacity");
    reveal_strlit("ext.value.filter.saturate");
    assert("ext.value.filter.opacity"@.take(17) =~= "ext.value.filter.saturate"@.take(17));
    assert(sorts_before_at("ext.value.filter.opacity"@, "ext.value.filter.saturate"@, 17));
    assert(feature_order(256) == 123 && feature_id_literal(123) == "ext.value.filter.saturate");
    reveal_strlit("ext.value.filter.saturate");
    reveal_strlit("ext.value.filter.sepia");
    assert("ext.value.filter.saturate"@.take(18) =~= "ext.value.filter.sepia"@.take(18));
    assert(sorts_before_at("ext.value.filter.saturate"@, "ext.value.filter.sepia"@, 18));
    assert(feature_order(257) == 124 && feature_id_literal(124) == "ext.value.filter.sepia");
    reveal_strlit("ext.value.filter.sepia");
    reveal_strlit("ext.value.font-source-modern-hints");
    assert("ext.value.filter.sepia"@.take(11) =~= "ext.value.font-source-modern-hints"@.take(11));
    assert(sorts_before_at("ext.value.filter.sepia"@, "ext.value.font-source-modern-hints"@, 11));
    assert(feature_order(258) == 166 && feature_id_literal(166) == "ext.value.font-source-modern-hints");
    reveal_strlit("ext.value.font-source-modern-hints");
    reveal_strlit("ext.value.grid-repeat");
    assert("ext.value.font-source-modern-hints"@.take(10) =~= "ext.value.grid-repeat"@.take(10));
    assert(sorts_before_at("ext.value.font-source-modern-hints"@, "ext.value.grid-repeat"@, 10));
    assert(feature_order(259) == 64 && feature_id_literal(64) == "ext.value.grid-repeat");
    reveal_strlit("ext.value.grid-repeat");
    reveal_strlit("ext.value.relative-color");
    assert("ext.value.grid-repeat"@.take(10) =~= "ext.value.relative-color"@.take(10));
    assert(sorts_before_at("ext.value.grid-repeat"@, "ext.value.relative-color"@, 10));
    assert(feature_order(260) == 54 && feature_id_literal(54) == "ext.value.relative-color");
    reveal_strlit("ext.value.relative-color");
    reveal_strlit("ext.value.relative-color.hsl");
    assert("ext.value.relative-color"@.take(24) =~= "ext.value.relative-color.hsl"@.take(24));
    assert(sorts_before_at("ext.value.relative-color"@, "ext.value.relative-color.hsl"@, 24));
    assert(feature_order(261) == 56 && feature_id_literal(56) == "ext.value.relative-color.hsl");
    reveal_strlit("ext.value.relative-color.hsl");
    reveal_strlit("ext.value.relative-color.hwb");
    assert("ext.value.relative-color.hsl"@.take(26) =~= "ext.value.relative-color.hwb"@.take(26));
    assert(sorts_before_at("ext.value.relative-color.hsl"@, "ext.value.relative-color.hwb"@, 26));
    assert(feature_order(262) == 57 && feature_id_literal(57) == "ext.value.relative-color.hwb");
    reveal_strlit("ext.value.relative-color.hwb");
    reveal_strlit("ext.value.relative-color.lab");
    assert("ext.value.relative-color.hwb"@.take(25) =~= "ext.value.relative-color.lab"@.take(25));
    assert(sorts_before_at("ext.value.relative-color.hwb"@, "ext.value.relative-color.lab"@, 25));
    assert(feature_order(263) == 58 && feature_id_literal(58) == "ext.value.relative-color.lab");
    reveal_strlit("ext.value.relative-color.lab");
    reveal_strlit("ext.value.relative-color.lch");
    assert("ext.value.relative-color.lab"@.take(26) =~= "ext.value.relative-color.lch"@.take(26));
    assert(sorts_before_at("ext.value.relative-color.lab"@, "ext.value.relative-color.lch"@, 26));
    assert(feature_order(264) == 60 && feature_id_literal(60) == "ext.value.relative-color.lch");
    reveal_strlit("ext.value.relative-color.lch");
    reveal_strlit("ext.value.relative-color.oklab");
    assert("ext.value.relative-color.lch"@.take(25) =~= "ext.value.relative-color.oklab"@.take(25));
    assert(sorts_before_at("ext.value.relative-color.lch"@, "ext.value.relative-color.oklab"@, 25));
    assert(feature_order(265) == 59 && feature_id_literal(59) == "ext.value.relative-color.oklab");
    reveal_strlit("ext.value.relative-color.oklab");
    reveal_strlit("ext.value.relative-color.oklch");
    assert("ext.value.relative-color.oklab"@.take(28) =~= "ext.value.relative-color.oklch"@.take(28));
    assert(sorts_before_at("ext.value.relative-color.oklab"@, "ext.value.relative-color.oklch"@, 28));
    assert(feature_order(266) == 61 && feature_id_literal(61) == "ext.value.relative-color.oklch");
    reveal_strlit("ext.value.relative-color.oklch");
    reveal_strlit("ext.value.relative-color.predefined");
    assert("ext.value.relative-color.oklch"@.take(25) =~= "ext.value.relative-color.predefined"@.take(25));
    assert(sorts_before_at("ext.value.relative-color.oklch"@, "ext.value.relative-color.predefined"@, 25));
    assert(feature_order(267) == 62 && feature_id_literal(62) == "ext.value.relative-color.predefined");
    reveal_strlit("ext.value.relative-color.predefined");
    reveal_strlit("ext.value.relative-color.rgb");
    assert("ext.value.relative-color.predefined"@.take(25) =~= "ext.value.relative-color.rgb"@.take(25));
    assert(sorts_before_at("ext.value.relative-color.predefined"@, "ext.value.relative-color.rgb"@, 25));
    assert(feature_order(268) == 55 && feature_id_literal(55) == "ext.value.relative-color.rgb");
    reveal_strlit("ext.value.relative-color.rgb");
    reveal_strlit("ext.value.transform.matrix3d");
    assert("ext.value.relative-color.rgb"@.take(10) =~= "ext.value.transform.matrix3d"@.take(10));
    assert(sorts_before_at("ext.value.relative-color.rgb"@, "ext.value.transform.matrix3d"@, 10));
    assert(feature_order(269) == 105 && feature_id_literal(105) == "ext.value.transform.matrix3d");
    reveal_strlit("ext.value.transform.matrix3d");
    reveal_strlit("ext.value.transform.perspective");
    assert("ext.value.transform.matrix3d"@.take(20) =~= "ext.value.transform.perspective"@.take(20));
    assert(sorts_before_at("ext.value.transform.matrix3d"@, "ext.value.transform.perspective"@, 20));
    assert(feature_order(270) == 106 && feature_id_literal(106) == "ext.value.transform.perspective");
    reveal_strlit("ext.value.transform.perspective");
    reveal_strlit("ext.value.transform.rotate-x");
    assert("ext.value.transform.perspective"@.take(20) =~= "ext.value.transform.rotate-x"@.take(20));
    assert(sorts_before_at("ext.value.transform.perspective"@, "ext.value.transform.rotate-x"@, 20));
    assert(feature_order(271) == 108 && feature_id_literal(108) == "ext.value.transform.rotate-x");
    reveal_strlit("ext.value.transform.rotate-x");
    reveal_strlit("ext.value.transform.rotate-y");
    assert("ext.value.transform.rotate-x"@.take(27) =~= "ext.value.transform.rotate-y"@.take(27));
    assert(sorts_before_at("ext.value.transform.rotate-x"@, "ext.value.transform.rotate-y"@, 27));
    assert(feature_order(272) == 109 && feature_id_literal(109) == "ext.value.transform.rotate-y");
    reveal_strlit("ext.value.transform.rotate-y");
    reveal_strlit("ext.value.transform.rotate-z");
    assert("ext.value.transform.rotate-y"@.take(27) =~= "ext.value.transform.rotate-z"@.take(27));
    assert(sorts_before_at("ext.value.transform.rotate-y"@, "ext.value.transform.rotate-z"@, 27));
    assert(feature_order(273) == 110 && feature_id_literal(110) == "ext.value.transform.rotate-z");
    reveal_strlit("ext.value.transform.rotate-z");
    reveal_strlit("ext.value.transform.rotate3d");
    assert("ext.value.transform.rotate-z"@.take(26) =~= "ext.value.transform.rotate3d"@.take(26));
    assert(sorts_before_at("ext.value.transform.rotate-z"@, "ext.value.transform.rotate3d"@, 26));
    assert(feature_order(274) == 107 && feature_id_literal(107) == "ext.value.transform.rotate3d");
    reveal_strlit("ext.value.transform.rotate3d");
    reveal_strlit("ext.value.transform.scale-z");
    assert("ext.value.transform.rotate3d"@.take(20) =~= "ext.value.transform.scale-z"@.take(20));
    assert(sorts_before_at("ext.value.transform.rotate3d"@, "ext.value.transform.scale-z"@, 20));
    assert(feature_order(275) == 112 && feature_id_literal(112) == "ext.value.transform.scale-z");
    reveal_strlit("ext.value.transform.scale-z");
    reveal_strlit("ext.value.transform.scale3d");
    assert("ext.value.transform.scale-z"@.take(25) =~= "ext.value.transform.scale3d"@.take(25));
    assert(sorts_before_at("ext.value.transform.scale-z"@, "ext.value.transform.scale3d"@, 25));
    assert(feature_order(276) == 111 && feature_id_literal(111) == "ext.value.transform.scale3d");
    reveal_strlit("ext.value.transform.scale3d");
    reveal_strlit("ext.value.transform.translate-z");
    assert("ext.value.transform.scale3d"@.take(20) =~= "ext.value.transform.translate-z"@.take(20));
    assert(sorts_before_at("ext.value.transform.scale3d"@, "ext.value.transform.translate-z"@, 20));
    assert(feature_order(277) == 114 && feature_id_literal(114) == "ext.value.transform.translate-z");
    reveal_strlit("ext.value.transform.translate-z");
    reveal_strlit("ext.value.transform.translate3d");
    assert("ext.value.transform.translate-z"@.take(29) =~= "ext.value.transform.translate3d"@.take(29));
    assert(sorts_before_at("ext.value.transform.translate-z"@, "ext.value.transform.translate3d"@, 29));
    assert(feature_order(278) == 113 && feature_id_literal(113) == "ext.value.transform.translate3d");
    reveal_strlit("ext.value.transform.translate3d");
    reveal_strlit("foundation.declaration-list.style-attribute");
    assert("ext.value.transform.translate3d"@.take(0) =~= "foundation.declaration-list.style-attribute"@.take(0));
    assert(sorts_before_at("ext.value.transform.translate3d"@, "foundation.declaration-list.style-attribute"@, 0));
    assert(feature_order(279) == 15 && feature_id_literal(15) == "foundation.declaration-list.style-attribute");
    reveal_strlit("foundation.declaration-list.style-attribute");
    reveal_strlit("foundation.declaration.importance");
    assert("foundation.declaration-list.style-attribute"@.take(22) =~= "foundation.declaration.importance"@.take(22));
    assert(sorts_before_at("foundation.declaration-list.style-attribute"@, "foundation.declaration.importance"@, 22));
    assert(feature_order(280) == 16 && feature_id_literal(16) == "foundation.declaration.importance");
    reveal_strlit("foundation.declaration.importance");
    reveal_strlit("foundation.encoding.charset");
    assert("foundation.declaration.importance"@.take(11) =~= "foundation.encoding.charset"@.take(11));
    assert(sorts_before_at("foundation.declaration.importance"@, "foundation.encoding.charset"@, 11));
    assert(feature_order(281) == 14 && feature_id_literal(14) == "foundation.encoding.charset");
    reveal_strlit("foundation.encoding.charset");
    reveal_strlit("later.rule.counter-style");
    assert("foundation.encoding.charset"@.take(0) =~= "later.rule.counter-style"@.take(0));
    assert(sorts_before_at("foundation.encoding.charset"@, "later.rule.counter-style"@, 0));
    assert(feature_order(282) == 134 && feature_id_literal(134) == "later.rule.counter-style");
    reveal_strlit("later.rule.counter-style");
    reveal_strlit("later.rule.font-feature-values");
    assert("later.rule.counter-style"@.take(11) =~= "later.rule.font-feature-values"@.take(11));
    assert(sorts_before_at("later.rule.counter-style"@, "later.rule.font-feature-values"@, 11));
    assert(feature_order(283) == 152 && feature_id_literal(152) == "later.rule.font-feature-values");
    reveal_strlit("later.rule.font-feature-values");
    reveal_strlit("later.rule.namespace");
    assert("later.rule.font-feature-values"@.take(11) =~= "later.rule.namespace"@.take(11));
    assert(sorts_before_at("later.rule.font-feature-values"@, "later.rule.namespace"@, 11));
    assert(feature_order(284) == 132 && feature_id_literal(132) == "later.rule.namespace");
    reveal_strlit("later.rule.namespace");
    reveal_strlit("later.rule.page");
    assert("later.rule.namespace"@.take(11) =~= "later.rule.page"@.take(11));
    assert(sorts_before_at("later.rule.namespace"@, "later.rule.page"@, 11));
    assert(feature_order(285) == 150 && feature_id_literal(150) == "later.rule.page");
    reveal_strlit("later.rule.page");
    reveal_strlit("later.rule.supports");
    assert("later.rule.page"@.take(11) =~= "later.rule.supports"@.take(11));
    assert(sorts_before_at("later.rule.page"@, "later.rule.supports"@, 11));
    assert(feature_order(286) == 133 && feature_id_literal(133) == "later.rule.supports");
    reveal_strlit("later.rule.supports");
    reveal_strlit("official.declaration.generic");
    assert("later.rule.supports"@.take(0) =~= "official.declaration.generic"@.take(0));
    assert(sorts_before_at("later.rule.supports"@, "official.declaration.generic"@, 0));
    assert(feature_order(287) == 17 && feature_id_literal(17) == "official.declaration.generic");
    reveal_strlit("official.declaration.generic");
    reveal_strlit("official.descriptor.counter-style.additive-symbols");
    assert("official.declaration.generic"@.take(11) =~= "official.descriptor.counter-style.additive-symbols"@.take(11));
    assert(sorts_before_at("official.declaration.generic"@, "official.descriptor.counter-style.additive-symbols"@, 11));
    assert(feature_order(288) == 143 && feature_id_literal(143) == "official.descriptor.counter-style.additive-symbols");
    reveal_strlit("official.descriptor.counter-style.additive-symbols");
    reveal_strlit("official.descriptor.counter-style.fallback");
    assert("official.descriptor.counter-style.additive-symbols"@.take(34) =~= "official.descriptor.counter-style.fallback"@.take(34));
    assert(sorts_before_at("official.descriptor.counter-style.additive-symbols"@, "official.descriptor.counter-style.fallback"@, 34));
    assert(feature_order(289) == 141 && feature_id_literal(141) == "official.descriptor.counter-style.fallback");
    reveal_strlit("official.descriptor.counter-style.fallback");
    reveal_strlit("official.descriptor.counter-style.negative");
    assert("official.descriptor.counter-style.fallback"@.take(34) =~= "official.descriptor.counter-style.negative"@.take(34));
    assert(sorts_before_at("official.descriptor.counter-style.fallback"@, "official.descriptor.counter-style.negative"@, 34));
    assert(feature_order(290) == 136 && feature_id_literal(136) == "official.descriptor.counter-style.negative");
    reveal_strlit("official.descriptor.counter-style.negative");
    reveal_strlit("official.descriptor.counter-style.pad");
    assert("official.descriptor.counter-style.negative"@.take(34) =~= "official.descriptor.counter-style.pad"@.take(34));
    assert(sorts_before_at("official.descriptor.counter-style.negative"@, "official.descriptor.counter-style.pad"@, 34));
    assert(feature_order(291) == 140 && feature_id_literal(140) == "official.descriptor.counter-style.pad");
    reveal_strlit("official.descriptor.counter-style.pad");
    reveal_strlit("official.descriptor.counter-style.prefix");
    assert("official.descriptor.counter-style.pad"@.take(35) =~= "official.descriptor.counter-style.prefix"@.take(35));
    assert(sorts_before_at("official.descriptor.counter-style.pad"@, "official.descriptor.counter-style.prefix"@, 35));
    assert(feature_order(292) == 137 && feature_id_literal(137) == "official.descriptor.counter-style.prefix");
    reveal_strlit("official.descriptor.counter-style.prefix");
    reveal_strlit("official.descriptor.counter-style.range");
    assert("official.descriptor.counter-style.prefix"@.take(34) =~= "official.descriptor.counter-style.range"@.take(34));
    assert(sorts_before_at("official.descriptor.counter-style.prefix"@, "official.descriptor.counter-style.range"@, 34));
    assert(feature_order(293) == 139 && feature_id_literal(139) == "official.descriptor.counter-style.range");
    reveal_strlit("official.descriptor.counter-style.range");
    reveal_strlit("official.descriptor.counter-style.speak-as");
    assert("official.descriptor.counter-style.range"@.take(34) =~= "official.descriptor.counter-style.speak-as"@.take(34));
    assert(sorts_before_at("official.descriptor.counter-style.range"@, "official.descriptor.counter-style.speak-as"@, 34));
    assert(feature_order(294) == 144 && feature_id_literal(144) == "official.descriptor.counter-style.speak-as");
    reveal_strlit("official.descriptor.counter-style.speak-as");
    reveal_strlit("official.descriptor.counter-style.suffix");
    assert("official.descriptor.counter-style.speak-as"@.take(35) =~= "official.descriptor.counter-style.suffix"@.take(35));
    assert(sorts_before_at("official.descriptor.counter-style.speak-as"@, "official.descriptor.counter-style.suffix"@, 35));
    assert(feature_order(295) == 138 && feature_id_literal(138) == "official.descriptor.counter-style.suffix");
    reveal_strlit("official.descriptor.counter-style.suffix");
    reveal_strlit("official.descriptor.counter-style.symbols");
    assert("official.descriptor.counter-style.suffix"@.take(35) =~= "official.descriptor.counter-style.symbols"@.take(35));
    assert(sorts_before_at("official.descriptor.counter-style.suffix"@, "official.descriptor.counter-style.symbols"@, 35));
    assert(feature_order(296) == 142 && feature_id_literal(142) == "official.descriptor.counter-style.symbols");
    reveal_strlit("official.descriptor.counter-style.symbols");
    reveal_strlit("official.descriptor.counter-style.system");
    assert("official.descriptor.counter-style.symbols"@.take(36) =~= "official.descriptor.counter-style.system"@.take(36));
    assert(sorts_before_at("official.descriptor.counter-style.symbols"@, "official.descriptor.counter-style.system"@, 36));
    assert(feature_order(297) == 135 && feature_id_literal(135) == "official.descriptor.counter-style.system");
    reveal_strlit("official.descriptor.counter-style.system");
    reveal_strlit("official.descriptor.font-feature-settings");
    assert("official.descriptor.counter-style.system"@.take(20) =~= "official.descriptor.font-feature-settings"@.take(20));
    assert(sorts_before_at("official.descriptor.counter-style.system"@, "official.descriptor.font-feature-settings"@, 20));
    assert(feature_order(298) == 160 && feature_id_literal(160) == "official.descriptor.font-feature-settings");
    reveal_strlit("official.descriptor.font-feature-settings");
    reveal_strlit("official.media.feature.aspect-ratio");
    assert("official.descriptor.font-feature-settings"@.take(9) =~= "official.media.feature.aspect-ratio"@.take(9));
    assert(sorts_before_at("official.descriptor.font-feature-settings"@, "official.media.feature.aspect-ratio"@, 9));
    assert(feature_order(299) == 436 && feature_id_literal(436) == "official.media.feature.aspect-ratio");
    assert(feature_order(300) == 439 && feature_id_literal(439) == "official.media.feature.color");
    reveal_strlit("official.media.feature.aspect-ratio");
    reveal_strlit("official.media.feature.color");
    assert("official.media.feature.aspect-ratio"@.take(23) =~= "official.media.feature.color"@.take(23));
    assert(sorts_before_at("official.media.feature.aspect-ratio"@, "official.media.feature.color"@, 23));
}

#[verifier::rlimit(100)]
proof fn lemma_feature_sorted_6()
    ensures
        forall|k: int| 300 <= k < 360 ==> sorts_before(
            feature_id_literal(#[trigger] feature_order(k))@,
            feature_id_literal(feature_order(k + 1))@,
        ),
{
    reveal(feature_order_chunk_6);
    reveal(feature_order_chunk_7);
    reveal(feature_id_chunk_1);
    reveal(feature_id_chunk_5);
    reveal(feature_id_chunk_6);
    reveal(feature_id_chunk_7);
    reveal(feature_id_chunk_8);
    assert(feature_order(300) == 439 && feature_id_literal(439) == "official.media.feature.color");
    reveal_strlit("official.media.feature.color");
    reveal_strlit("official.media.feature.color-index");
    assert("official.media.feature.color"@.take(28) =~= "official.media.feature.color-index"@.take(28));
    assert(sorts_before_at("official.media.feature.color"@, "official.media.feature.color-index"@, 28));
    assert(feature_order(301) == 440 && feature_id_literal(440) == "official.media.feature.color-index");
    reveal_strlit("official.media.feature.color-index");
    reveal_strlit("official.media.feature.device-aspect-ratio");
    assert("official.media.feature.color-index"@.take(23) =~= "official.media.feature.device-aspect-ratio"@.take(23));
    assert(sorts_before_at("official.media.feature.color-index"@, "official.media.feature.device-aspect-ratio"@, 23));
    assert(feature_order(302) == 437 && feature_id_literal(437) == "official.media.feature.device-aspect-ratio");
    reveal_strlit("official.media.feature.device-aspect-ratio");
    reveal_strlit("official.media.feature.device-height");
    assert("official.media.feature.device-aspect-ratio"@.take(30) =~= "official.media.feature.device-height"@.take(30));
    assert(sorts_before_at("official.media.feature.device-aspect-ratio"@, "official.media.feature.device-height"@, 30));
    assert(feature_order(303) == 435 && feature_id_literal(435) == "official.media.feature.device-height");
    reveal_strlit("official.media.feature.device-height");
    reveal_strlit("official.media.feature.device-width");
    assert("official.media.feature.device-height"@.take(30) =~= "official.media.feature.device-width"@.take(30));
    assert(sorts_before_at("official.media.feature.device-height"@, "official.media.feature.device-width"@, 30));
    assert(feature_order(304) == 434 && feature_id_literal(434) == "official.media.feature.device-width");
    reveal_strlit("official.media.feature.device-width");
    reveal_strlit("official.media.feature.grid");
    assert("official.media.feature.device-width"@.take(23) =~= "official.media.feature.grid"@.take(23));
    assert(sorts_before_at("official.media.feature.device-width"@, "official.media.feature.grid"@, 23));
    assert(feature_order(305) == 443 && feature_id_literal(443) == "official.media.feature.grid");
    reveal_strlit("official.media.feature.grid");
    reveal_strlit("official.media.feature.height");
    assert("official.media.feature.grid"@.take(23) =~= "official.media.feature.height"@.take(23));
    assert(sorts_before_at("official.media.feature.grid"@, "official.media.feature.height"@, 23));
    assert(feature_order(306) == 433 && feature_id_literal(433) == "official.media.feature.height");
    reveal_strlit("official.media.feature.height");
    reveal_strlit("official.media.feature.monochrome");
    assert("official.media.feature.height"@.take(23) =~= "official.media.feature.monochrome"@.take(23));
    assert(sorts_before_at("official.media.feature.height"@, "official.media.feature.monochrome"@, 23));
    assert(feature_order(307) == 441 && feature_id_literal(441) == "official.media.feature.monochrome");
    reveal_strlit("official.media.feature.monochrome");
    reveal_strlit("official.media.feature.orientation");
    assert("official.media.feature.monochrome"@.take(23) =~= "official.media.feature.orientation"@.take(23));
    assert(sorts_before_at("official.media.feature.monochrome"@, "official.media.feature.orientation"@, 23));
    assert(feature_order(308) == 452 && feature_id_literal(452) == "official.media.feature.orientation");
    reveal_strlit("official.media.feature.orientation");
    reveal_strlit("official.media.feature.resolution");
    assert("official.media.feature.orientation"@.take(23) =~= "official.media.feature.resolution"@.take(23));
    assert(sorts_before_at("official.media.feature.orientation"@, "official.media.feature.resolution"@, 23));
    assert(feature_order(309) == 438 && feature_id_literal(438) == "official.media.feature.resolution");
    reveal_strlit("official.media.feature.resolution");
    reveal_strlit("official.media.feature.scan");
    assert("official.media.feature.resolution"@.take(23) =~= "official.media.feature.scan"@.take(23));
    assert(sorts_before_at("official.media.feature.resolution"@, "official.media.feature.scan"@, 23));
    assert(feature_order(310) == 442 && feature_id_literal(442) == "official.media.feature.scan");
    reveal_strlit("official.media.feature.scan");
    reveal_strlit("official.media.feature.width");
    assert("official.media.feature.scan"@.take(23) =~= "official.media.feature.width"@.take(23));
    assert(sorts_before_at("official.media.feature.scan"@, "official.media.feature.width"@, 23));
    assert(feature_order(311) == 432 && feature_id_literal(432) == "official.media.feature.width");
    reveal_strlit("official.media.feature.width");
    reveal_strlit("official.media.query-list-core");
    assert("official.media.feature.width"@.take(15) =~= "official.media.query-list-core"@.take(15));
    assert(sorts_before_at("official.media.feature.width"@, "official.media.query-list-core"@, 15));
    assert(feature_order(312) == 429 && feature_id_literal(429) == "official.media.query-list-core");
    reveal_strlit("official.media.query-list-core");
    reveal_strlit("official.property-alias.glyph-orientation-vertical");
    assert("official.media.query-list-core"@.take(9) =~= "official.property-alias.glyph-orientation-vertical"@.take(9));
    assert(sorts_before_at("official.media.query-list-core"@, "official.property-alias.glyph-orientation-vertical"@, 9));
    assert(feature_order(313) == 403 && feature_id_literal(403) == "official.property-alias.glyph-orientation-vertical");
    reveal_strlit("official.property-alias.glyph-orientation-vertical");
    reveal_strlit("official.property.background-blend-mode");
    assert("official.property-alias.glyph-orientation-vertical"@.take(17) =~= "official.property.background-blend-mode"@.take(17));
    assert(sorts_before_at("official.property-alias.glyph-orientation-vertical"@, "official.property.background-blend-mode"@, 17));
    assert(feature_order(314) == 400 && feature_id_literal(400) == "official.property.background-blend-mode");
    reveal_strlit("official.property.background-blend-mode");
    reveal_strlit("official.property.border-collapse");
    assert("official.property.background-blend-mode"@.take(19) =~= "official.property.border-collapse"@.take(19));
    assert(sorts_before_at("official.property.background-blend-mode"@, "official.property.border-collapse"@, 19));
    assert(feature_order(315) == 379 && feature_id_literal(379) == "official.property.border-collapse");
    reveal_strlit("official.property.border-collapse");
    reveal_strlit("official.property.border-image");
    assert("official.property.border-collapse"@.take(25) =~= "official.property.border-image"@.take(25));
    assert(sorts_before_at("official.property.border-collapse"@, "official.property.border-image"@, 25));
    assert(feature_order(316) == 300 && feature_id_literal(300) == "official.property.border-image");
    reveal_strlit("official.property.border-image");
    reveal_strlit("official.property.border-image-outset");
    assert("official.property.border-image"@.take(30) =~= "official.property.border-image-outset"@.take(30));
    assert(sorts_before_at("official.property.border-image"@, "official.property.border-image-outset"@, 30));
    assert(feature_order(317) == 301 && feature_id_literal(301) == "official.property.border-image-outset");
    reveal_strlit("official.property.border-image-outset");
    reveal_strlit("official.property.border-image-repeat");
    assert("official.property.border-image-outset"@.take(31) =~= "official.property.border-image-repeat"@.take(31));
    assert(sorts_before_at("official.property.border-image-outset"@, "official.property.border-image-repeat"@, 31));
    assert(feature_order(318) == 302 && feature_id_literal(302) == "official.property.border-image-repeat");
    reveal_strlit("official.property.border-image-repeat");
    reveal_strlit("official.property.border-image-slice");
    assert("official.property.border-image-repeat"@.take(31) =~= "official.property.border-image-slice"@.take(31));
    assert(sorts_before_at("official.property.border-image-repeat"@, "official.property.border-image-slice"@, 31));
    assert(feature_order(319) == 303 && feature_id_literal(303) == "official.property.border-image-slice");
    reveal_strlit("official.property.border-image-slice");
    reveal_strlit("official.property.border-image-source");
    assert("official.property.border-image-slice"@.take(32) =~= "official.property.border-image-source"@.take(32));
    assert(sorts_before_at("official.property.border-image-slice"@, "official.property.border-image-source"@, 32));
    assert(feature_order(320) == 304 && feature_id_literal(304) == "official.property.border-image-source");
    reveal_strlit("official.property.border-image-source");
    reveal_strlit("official.property.border-image-width");
    assert("official.property.border-image-source"@.take(31) =~= "official.property.border-image-width"@.take(31));
    assert(sorts_before_at("official.property.border-image-source"@, "official.property.border-image-width"@, 31));
    assert(feature_order(321) == 305 && feature_id_literal(305) == "official.property.border-image-width");
    reveal_strlit("official.property.border-image-width");
    reveal_strlit("official.property.border-spacing");
    assert("official.property.border-image-width"@.take(25) =~= "official.property.border-spacing"@.take(25));
    assert(sorts_before_at("official.property.border-image-width"@, "official.property.border-spacing"@, 25));
    assert(feature_order(322) == 380 && feature_id_literal(380) == "official.property.border-spacing");
    reveal_strlit("official.property.border-spacing");
    reveal_strlit("official.property.caption-side");
    assert("official.property.border-spacing"@.take(18) =~= "official.property.caption-side"@.take(18));
    assert(sorts_before_at("official.property.border-spacing"@, "official.property.caption-side"@, 18));
    assert(feature_order(323) == 381 && feature_id_literal(381) == "official.property.caption-side");
    reveal_strlit("official.property.caption-side");
    reveal_strlit("official.property.caret-color");
    assert("official.property.caption-side"@.take(20) =~= "official.property.caret-color"@.take(20));
    assert(sorts_before_at("official.property.caption-side"@, "official.property.caret-color"@, 20));
    assert(feature_order(324) == 395 && feature_id_literal(395) == "official.property.caret-color");
    reveal_strlit("official.property.caret-color");
    reveal_strlit("official.property.clip");
    assert("official.property.caret-color"@.take(19) =~= "official.property.clip"@.take(19));
    assert(sorts_before_at("official.property.caret-color"@, "official.property.clip"@, 19));
    assert(feature_order(325) == 382 && feature_id_literal(382) == "official.property.clip");
    reveal_strlit("official.property.clip");
    reveal_strlit("official.property.contain");
    assert("official.property.clip"@.take(19) =~= "official.property.contain"@.take(19));
    assert(sorts_before_at("official.property.clip"@, "official.property.contain"@, 19));
    assert(feature_order(326) == 398 && feature_id_literal(398) == "official.property.contain");
    reveal_strlit("official.property.contain");
    reveal_strlit("official.property.empty-cells");
    assert("official.property.contain"@.take(18) =~= "official.property.empty-cells"@.take(18));
    assert(sorts_before_at("official.property.contain"@, "official.property.empty-cells"@, 18));
    assert(feature_order(327) == 383 && feature_id_literal(383) == "official.property.empty-cells");
    reveal_strlit("official.property.empty-cells");
    reveal_strlit("official.property.font-kerning");
    assert("official.property.empty-cells"@.take(18) =~= "official.property.font-kerning"@.take(18));
    assert(sorts_before_at("official.property.empty-cells"@, "official.property.font-kerning"@, 18));
    assert(feature_order(328) == 257 && feature_id_literal(257) == "official.property.font-kerning");
    reveal_strlit("official.property.font-kerning");
    reveal_strlit("official.property.font-size-adjust");
    assert("official.property.font-kerning"@.take(23) =~= "official.property.font-size-adjust"@.take(23));
    assert(sorts_before_at("official.property.font-kerning"@, "official.property.font-size-adjust"@, 23));
    assert(feature_order(329) == 258 && feature_id_literal(258) == "official.property.font-size-adjust");
    reveal_strlit("official.property.font-size-adjust");
    reveal_strlit("official.property.font-synthesis");
    assert("official.property.font-size-adjust"@.take(24) =~= "official.property.font-synthesis"@.take(24));
    assert(sorts_before_at("official.property.font-size-adjust"@, "official.property.font-synthesis"@, 24));
    assert(feature_order(330) == 259 && feature_id_literal(259) == "official.property.font-synthesis");
    reveal_strlit("official.property.font-synthesis");
    reveal_strlit("official.property.font-variant-caps");
    assert("official.property.font-synthesis"@.take(23) =~= "official.property.font-variant-caps"@.take(23));
    assert(sorts_before_at("official.property.font-synthesis"@, "official.property.font-variant-caps"@, 23));
    assert(feature_order(331) == 251 && feature_id_literal(251) == "official.property.font-variant-caps");
    reveal_strlit("official.property.font-variant-caps");
    reveal_strlit("official.property.font-variant-east-asian");
    assert("official.property.font-variant-caps"@.take(31) =~= "official.property.font-variant-east-asian"@.take(31));
    assert(sorts_before_at("official.property.font-variant-caps"@, "official.property.font-variant-east-asian"@, 31));
    assert(feature_order(332) == 252 && feature_id_literal(252) == "official.property.font-variant-east-asian");
    reveal_strlit("official.property.font-variant-east-asian");
    reveal_strlit("official.property.font-variant-ligatures");
    assert("official.property.font-variant-east-asian"@.take(31) =~= "official.property.font-variant-ligatures"@.take(31));
    assert(sorts_before_at("official.property.font-variant-east-asian"@, "official.property.font-variant-ligatures"@, 31));
    assert(feature_order(333) == 253 && feature_id_literal(253) == "official.property.font-variant-ligatures");
    reveal_strlit("official.property.font-variant-ligatures");
    reveal_strlit("official.property.font-variant-numeric");
    assert("official.property.font-variant-ligatures"@.take(31) =~= "official.property.font-variant-numeric"@.take(31));
    assert(sorts_before_at("official.property.font-variant-ligatures"@, "official.property.font-variant-numeric"@, 31));
    assert(feature_order(334) == 254 && feature_id_literal(254) == "official.property.font-variant-numeric");
    reveal_strlit("official.property.font-variant-numeric");
    reveal_strlit("official.property.font-variant-position");
    assert("official.property.font-variant-numeric"@.take(31) =~= "official.property.font-variant-position"@.take(31));
    assert(sorts_before_at("official.property.font-variant-numeric"@, "official.property.font-variant-position"@, 31));
    assert(feature_order(335) == 255 && feature_id_literal(255) == "official.property.font-variant-position");
    reveal_strlit("official.property.font-variant-position");
    reveal_strlit("official.property.image-orientation");
    assert("official.property.font-variant-position"@.take(18) =~= "official.property.image-orientation"@.take(18));
    assert(sorts_before_at("official.property.font-variant-position"@, "official.property.image-orientation"@, 18));
    assert(feature_order(336) == 317 && feature_id_literal(317) == "official.property.image-orientation");
    reveal_strlit("official.property.image-orientation");
    reveal_strlit("official.property.image-rendering");
    assert("official.property.image-orientation"@.take(24) =~= "official.property.image-rendering"@.take(24));
    assert(sorts_before_at("official.property.image-orientation"@, "official.property.image-rendering"@, 24));
    assert(feature_order(337) == 318 && feature_id_literal(318) == "official.property.image-rendering");
    reveal_strlit("official.property.image-rendering");
    reveal_strlit("official.property.isolation");
    assert("official.property.image-rendering"@.take(19) =~= "official.property.isolation"@.take(19));
    assert(sorts_before_at("official.property.image-rendering"@, "official.property.isolation"@, 19));
    assert(feature_order(338) == 401 && feature_id_literal(401) == "official.property.isolation");
    reveal_strlit("official.property.isolation");
    reveal_strlit("official.property.mix-blend-mode");
    assert("official.property.isolation"@.take(18) =~= "official.property.mix-blend-mode"@.take(18));
    assert(sorts_before_at("official.property.isolation"@, "official.property.mix-blend-mode"@, 18));
    assert(feature_order(339) == 402 && feature_id_literal(402) == "official.property.mix-blend-mode");
    reveal_strlit("official.property.mix-blend-mode");
    reveal_strlit("official.property.object-fit");
    assert("official.property.mix-blend-mode"@.take(18) =~= "official.property.object-fit"@.take(18));
    assert(sorts_before_at("official.property.mix-blend-mode"@, "official.property.object-fit"@, 18));
    assert(feature_order(340) == 319 && feature_id_literal(319) == "official.property.object-fit");
    reveal_strlit("official.property.object-fit");
    reveal_strlit("official.property.object-position");
    assert("official.property.object-fit"@.take(25) =~= "official.property.object-position"@.take(25));
    assert(sorts_before_at("official.property.object-fit"@, "official.property.object-position"@, 25));
    assert(feature_order(341) == 316 && feature_id_literal(316) == "official.property.object-position");
    reveal_strlit("official.property.object-position");
    reveal_strlit("official.property.orphans");
    assert("official.property.object-position"@.take(19) =~= "official.property.orphans"@.take(19));
    assert(sorts_before_at("official.property.object-position"@, "official.property.orphans"@, 19));
    assert(feature_order(342) == 384 && feature_id_literal(384) == "official.property.orphans");
    reveal_strlit("official.property.orphans");
    reveal_strlit("official.property.outline-offset");
    assert("official.property.orphans"@.take(19) =~= "official.property.outline-offset"@.take(19));
    assert(sorts_before_at("official.property.orphans"@, "official.property.outline-offset"@, 19));
    assert(feature_order(343) == 396 && feature_id_literal(396) == "official.property.outline-offset");
    reveal_strlit("official.property.outline-offset");
    reveal_strlit("official.property.page-break-after");
    assert("official.property.outline-offset"@.take(18) =~= "official.property.page-break-after"@.take(18));
    assert(sorts_before_at("official.property.outline-offset"@, "official.property.page-break-after"@, 18));
    assert(feature_order(344) == 385 && feature_id_literal(385) == "official.property.page-break-after");
    reveal_strlit("official.property.page-break-after");
    reveal_strlit("official.property.page-break-before");
    assert("official.property.page-break-after"@.take(29) =~= "official.property.page-break-before"@.take(29));
    assert(sorts_before_at("official.property.page-break-after"@, "official.property.page-break-before"@, 29));
    assert(feature_order(345) == 386 && feature_id_literal(386) == "official.property.page-break-before");
    reveal_strlit("official.property.page-break-before");
    reveal_strlit("official.property.page-break-inside");
    assert("official.property.page-break-before"@.take(29) =~= "official.property.page-break-inside"@.take(29));
    assert(sorts_before_at("official.property.page-break-before"@, "official.property.page-break-inside"@, 29));
    assert(feature_order(346) == 387 && feature_id_literal(387) == "official.property.page-break-inside");
    reveal_strlit("official.property.page-break-inside");
    reveal_strlit("official.property.quotes");
    assert("official.property.page-break-inside"@.take(18) =~= "official.property.quotes"@.take(18));
    assert(sorts_before_at("official.property.page-break-inside"@, "official.property.quotes"@, 18));
    assert(feature_order(347) == 388 && feature_id_literal(388) == "official.property.quotes");
    reveal_strlit("official.property.quotes");
    reveal_strlit("official.property.resize");
    assert("official.property.quotes"@.take(18) =~= "official.property.resize"@.take(18));
    assert(sorts_before_at("official.property.quotes"@, "official.property.resize"@, 18));
    assert(feature_order(348) == 397 && feature_id_literal(397) == "official.property.resize");
    reveal_strlit("official.property.resize");
    reveal_strlit("official.property.table-layout");
    assert("official.property.resize"@.take(18) =~= "official.property.table-layout"@.take(18));
    assert(sorts_before_at("official.property.resize"@, "official.property.table-layout"@, 18));
    assert(feature_order(349) == 389 && feature_id_literal(389) == "official.property.table-layout");
    reveal_strlit("official.property.table-layout");
    reveal_strlit("official.property.text-combine-upright");
    assert("official.property.table-layout"@.take(19) =~= "official.property.text-combine-upright"@.take(19));
    assert(sorts_before_at("official.property.table-layout"@, "official.property.text-combine-upright"@, 19));
    assert(feature_order(350) == 392 && feature_id_literal(392) == "official.property.text-combine-upright");
    reveal_strlit("official.property.text-combine-upright");
    reveal_strlit("official.property.text-orientation");
    assert("official.property.text-combine-upright"@.take(23) =~= "official.property.text-orientation"@.take(23));
    assert(sorts_before_at("official.property.text-combine-upright"@, "official.property.text-orientation"@, 23));
    assert(feature_order(351) == 393 && feature_id_literal(393) == "official.property.text-orientation");
    reveal_strlit("official.property.text-orientation");
    reveal_strlit("official.property.transform-box");
    assert("official.property.text-orientation"@.take(19) =~= "official.property.transform-box"@.take(19));
    assert(sorts_before_at("official.property.text-orientation"@, "official.property.transform-box"@, 19));
    assert(feature_order(352) == 399 && feature_id_literal(399) == "official.property.transform-box");
    reveal_strlit("official.property.transform-box");
    reveal_strlit("official.property.unicode-bidi");
    assert("official.property.transform-box"@.take(18) =~= "official.property.unicode-bidi"@.take(18));
    assert(sorts_before_at("official.property.transform-box"@, "official.property.unicode-bidi"@, 18));
    assert(feature_order(353) == 394 && feature_id_literal(394) == "official.property.unicode-bidi");
    reveal_strlit("official.property.unicode-bidi");
    reveal_strlit("official.property.widows");
    assert("official.property.unicode-bidi"@.take(18) =~= "official.property.widows"@.take(18));
    assert(sorts_before_at("official.property.unicode-bidi"@, "official.property.widows"@, 18));
    assert(feature_order(354) == 390 && feature_id_literal(390) == "official.property.widows");
    reveal_strlit("official.property.widows");
    reveal_strlit("official.property.word-spacing");
    assert("official.property.widows"@.take(19) =~= "official.property.word-spacing"@.take(19));
    assert(sorts_before_at("official.property.widows"@, "official.property.word-spacing"@, 19));
    assert(feature_order(355) == 391 && feature_id_literal(391) == "official.property.word-spacing");
    reveal_strlit("official.property.word-spacing");
    reveal_strlit("official.qualified-rule.generic");
    assert("official.property.word-spacing"@.take(9) =~= "official.qualified-rule.generic"@.take(9));
    assert(sorts_before_at("official.property.word-spacing"@, "official.qualified-rule.generic"@, 9));
    assert(feature_order(356) == 9 && feature_id_literal(9) == "official.qualified-rule.generic");
    reveal_strlit("official.qualified-rule.generic");
    reveal_strlit("official.rule.at-rule");
    assert("official.qualified-rule.generic"@.take(9) =~= "official.rule.at-rule"@.take(9));
    assert(sorts_before_at("official.qualified-rule.generic"@, "official.rule.at-rule"@, 9));
    assert(feature_order(357) == 8 && feature_id_literal(8) == "official.rule.at-rule");
    reveal_strlit("official.rule.at-rule");
    reveal_strlit("official.rule.conditional-group-context");
    assert("official.rule.at-rule"@.take(14) =~= "official.rule.conditional-group-context"@.take(14));
    assert(sorts_before_at("official.rule.at-rule"@, "official.rule.conditional-group-context"@, 14));
    assert(feature_order(358) == 11 && feature_id_literal(11) == "official.rule.conditional-group-context");
    reveal_strlit("official.rule.conditional-group-context");
    reveal_strlit("official.selector.attribute-presence-value");
    assert("official.rule.conditional-group-context"@.take(9) =~= "official.selector.attribute-presence-value"@.take(9));
    assert(sorts_before_at("official.rule.conditional-group-context"@, "official.selector.attribute-presence-value"@, 9));
    assert(feature_order(359) == 407 && feature_id_literal(407) == "official.selector.attribute-presence-value");
    assert(feature_order(360) == 408 && feature_id_literal(408) == "official.selector.attribute-substring");
    reveal_strlit("official.selector.attribute-presence-value");
    reveal_strlit("official.selector.attribute-substring");
    assert("official.selector.attribute-presence-value"@.take(28) =~= "official.selector.attribute-substring"@.take(28));
    assert(sorts_before_at("official.selector.attribute-presence-value"@, "official.selector.attribute-substring"@, 28));
}

#[verifier::rlimit(100)]
proof fn lemma_feature_sorted_7()
    ensures
        forall|k: int| 360 <= k < 420 ==> sorts_before(
            feature_id_literal(#[trigger] feature_order(k))@,
            feature_id_literal(feature_order(k + 1))@,
        ),
{
    reveal(feature_order_chunk_7);
    reveal(feature_order_chunk_8);
    reveal(feature_id_chunk_1);
    reveal(feature_id_chunk_2);
    reveal(feature_id_chunk_3);
    reveal(feature_id_chunk_7);
    reveal(feature_id_chunk_8);
    assert(feature_order(360) == 408 && feature_id_literal(408) == "official.selector.attribute-substring");
    reveal_strlit("official.selector.attribute-substring");
    reveal_strlit("official.selector.class");
    assert("official.selector.attribute-substring"@.take(18) =~= "official.selector.class"@.take(18));
    assert(sorts_before_at("official.selector.attribute-substring"@, "official.selector.class"@, 18));
    assert(feature_order(361) == 409 && feature_id_literal(409) == "official.selector.class");
    reveal_strlit("official.selector.class");
    reveal_strlit("official.selector.combinator.child");
    assert("official.selector.class"@.take(19) =~= "official.selector.combinator.child"@.take(19));
    assert(sorts_before_at("official.selector.class"@, "official.selector.combinator.child"@, 19));
    assert(feature_order(362) == 421 && feature_id_literal(421) == "official.selector.combinator.child");
    reveal_strlit("official.selector.combinator.child");
    reveal_strlit("official.selector.combinator.descendant");
    assert("official.selector.combinator.child"@.take(29) =~= "official.selector.combinator.descendant"@.take(29));
    assert(sorts_before_at("official.selector.combinator.child"@, "official.selector.combinator.descendant"@, 29));
    assert(feature_order(363) == 420 && feature_id_literal(420) == "official.selector.combinator.descendant");
    reveal_strlit("official.selector.combinator.descendant");
    reveal_strlit("official.selector.combinator.next-sibling");
    assert("official.selector.combinator.descendant"@.take(29) =~= "official.selector.combinator.next-sibling"@.take(29));
    assert(sorts_before_at("official.selector.combinator.descendant"@, "official.selector.combinator.next-sibling"@, 29));
    assert(feature_order(364) == 422 && feature_id_literal(422) == "official.selector.combinator.next-sibling");
    reveal_strlit("official.selector.combinator.next-sibling");
    reveal_strlit("official.selector.combinator.subsequent-sibling");
    assert("official.selector.combinator.next-sibling"@.take(29) =~= "official.selector.combinator.subsequent-sibling"@.take(29));
    assert(sorts_before_at("official.selector.combinator.next-sibling"@, "official.selector.combinator.subsequent-sibling"@, 29));
    assert(feature_order(365) == 423 && feature_id_literal(423) == "official.selector.combinator.subsequent-sibling");
    reveal_strlit("official.selector.combinator.subsequent-sibling");
    reveal_strlit("official.selector.dynamic");
    assert("official.selector.combinator.subsequent-sibling"@.take(18) =~= "official.selector.dynamic"@.take(18));
    assert(sorts_before_at("official.selector.combinator.subsequent-sibling"@, "official.selector.dynamic"@, 18));
    assert(feature_order(366) == 411 && feature_id_literal(411) == "official.selector.dynamic");
    reveal_strlit("official.selector.dynamic");
    reveal_strlit("official.selector.first-letter");
    assert("official.selector.dynamic"@.take(18) =~= "official.selector.first-letter"@.take(18));
    assert(sorts_before_at("official.selector.dynamic"@, "official.selector.first-letter"@, 18));
    assert(feature_order(367) == 418 && feature_id_literal(418) == "official.selector.first-letter");
    reveal_strlit("official.selector.first-letter");
    reveal_strlit("official.selector.first-line");
    assert("official.selector.first-letter"@.take(25) =~= "official.selector.first-line"@.take(25));
    assert(sorts_before_at("official.selector.first-letter"@, "official.selector.first-line"@, 25));
    assert(feature_order(368) == 417 && feature_id_literal(417) == "official.selector.first-line");
    reveal_strlit("official.selector.first-line");
    reveal_strlit("official.selector.generated");
    assert("official.selector.first-line"@.take(18) =~= "official.selector.generated"@.take(18));
    assert(sorts_before_at("official.selector.first-line"@, "official.selector.generated"@, 18));
    assert(feature_order(369) == 419 && feature_id_literal(419) == "official.selector.generated");
    reveal_strlit("official.selector.generated");
    reveal_strlit("official.selector.group");
    assert("official.selector.generated"@.take(19) =~= "official.selector.group"@.take(19));
    assert(sorts_before_at("official.selector.generated"@, "official.selector.group"@, 19));
    assert(feature_order(370) == 404 && feature_id_literal(404) == "official.selector.group");
    reveal_strlit("official.selector.group");
    reveal_strlit("official.selector.id");
    assert("official.selector.group"@.take(18) =~= "official.selector.id"@.take(18));
    assert(sorts_before_at("official.selector.group"@, "official.selector.id"@, 18));
    assert(feature_order(371) == 410 && feature_id_literal(410) == "official.selector.id");
    reveal_strlit("official.selector.id");
    reveal_strlit("official.selector.lang");
    assert("official.selector.id"@.take(18) =~= "official.selector.lang"@.take(18));
    assert(sorts_before_at("official.selector.id"@, "official.selector.lang"@, 18));
    assert(feature_order(372) == 413 && feature_id_literal(413) == "official.selector.lang");
    reveal_strlit("official.selector.lang");
    reveal_strlit("official.selector.namespace-qualified-name");
    assert("official.selector.lang"@.take(18) =~= "official.selector.namespace-qualified-name"@.take(18));
    assert(sorts_before_at("official.selector.lang"@, "official.selector.namespace-qualified-name"@, 18));
    assert(feature_order(373) == 424 && feature_id_literal(424) == "official.selector.namespace-qualified-name");
    reveal_strlit("official.selector.namespace-qualified-name");
    reveal_strlit("official.selector.negation");
    assert("official.selector.namespace-qualified-name"@.take(19) =~= "official.selector.negation"@.take(19));
    assert(sorts_before_at("official.selector.namespace-qualified-name"@, "official.selector.negation"@, 19));
    assert(feature_order(374) == 416 && feature_id_literal(416) == "official.selector.negation");
    reveal_strlit("official.selector.negation");
    reveal_strlit("official.selector.page-pseudo");
    assert("official.selector.negation"@.take(18) =~= "official.selector.page-pseudo"@.take(18));
    assert(sorts_before_at("official.selector.negation"@, "official.selector.page-pseudo"@, 18));
    assert(feature_order(375) == 151 && feature_id_literal(151) == "official.selector.page-pseudo");
    reveal_strlit("official.selector.page-pseudo");
    reveal_strlit("official.selector.structural");
    assert("official.selector.page-pseudo"@.take(18) =~= "official.selector.structural"@.take(18));
    assert(sorts_before_at("official.selector.page-pseudo"@, "official.selector.structural"@, 18));
    assert(feature_order(376) == 415 && feature_id_literal(415) == "official.selector.structural");
    reveal_strlit("official.selector.structural");
    reveal_strlit("official.selector.target");
    assert("official.selector.structural"@.take(18) =~= "official.selector.target"@.take(18));
    assert(sorts_before_at("official.selector.structural"@, "official.selector.target"@, 18));
    assert(feature_order(377) == 412 && feature_id_literal(412) == "official.selector.target");
    reveal_strlit("official.selector.target");
    reveal_strlit("official.selector.type");
    assert("official.selector.target"@.take(19) =~= "official.selector.type"@.take(19));
    assert(sorts_before_at("official.selector.target"@, "official.selector.type"@, 19));
    assert(feature_order(378) == 405 && feature_id_literal(405) == "official.selector.type");
    reveal_strlit("official.selector.type");
    reveal_strlit("official.selector.ui-state");
    assert("official.selector.type"@.take(18) =~= "official.selector.ui-state"@.take(18));
    assert(sorts_before_at("official.selector.type"@, "official.selector.ui-state"@, 18));
    assert(feature_order(379) == 414 && feature_id_literal(414) == "official.selector.ui-state");
    reveal_strlit("official.selector.ui-state");
    reveal_strlit("official.selector.universal");
    assert("official.selector.ui-state"@.take(19) =~= "official.selector.universal"@.take(19));
    assert(sorts_before_at("official.selector.ui-state"@, "official.selector.universal"@, 19));
    assert(feature_order(380) == 406 && feature_id_literal(406) == "official.selector.universal");
    reveal_strlit("official.selector.universal");
    reveal_strlit("official.value.alpha");
    assert("official.selector.universal"@.take(9) =~= "official.value.alpha"@.take(9));
    assert(sorts_before_at("official.selector.universal"@, "official.value.alpha"@, 9));
    assert(feature_order(381) == 38 && feature_id_literal(38) == "official.value.alpha");
    reveal_strlit("official.value.alpha");
    reveal_strlit("official.value.angle");
    assert("official.value.alpha"@.take(16) =~= "official.value.angle"@.take(16));
    assert(sorts_before_at("official.value.alpha"@, "official.value.angle"@, 16));
    assert(feature_order(382) == 30 && feature_id_literal(30) == "official.value.angle");
    reveal_strlit("official.value.angle");
    reveal_strlit("official.value.angle-percentage");
    assert("official.value.angle"@.take(20) =~= "official.value.angle-percentage"@.take(20));
    assert(sorts_before_at("official.value.angle"@, "official.value.angle-percentage"@, 20));
    assert(feature_order(383) == 31 && feature_id_literal(31) == "official.value.angle-percentage");
    reveal_strlit("official.value.angle-percentage");
    reveal_strlit("official.value.background-attachment");
    assert("official.value.angle-percentage"@.take(15) =~= "official.value.background-attachment"@.take(15));
    assert(sorts_before_at("official.value.angle-percentage"@, "official.value.background-attachment"@, 15));
    assert(feature_order(384) == 70 && feature_id_literal(70) == "official.value.background-attachment");
    reveal_strlit("official.value.background-attachment");
    reveal_strlit("official.value.background-image");
    assert("official.value.background-attachment"@.take(26) =~= "official.value.background-image"@.take(26));
    assert(sorts_before_at("official.value.background-attachment"@, "official.value.background-image"@, 26));
    assert(feature_order(385) == 68 && feature_id_literal(68) == "official.value.background-image");
    reveal_strlit("official.value.background-image");
    reveal_strlit("official.value.background-layer");
    assert("official.value.background-image"@.take(26) =~= "official.value.background-layer"@.take(26));
    assert(sorts_before_at("official.value.background-image"@, "official.value.background-layer"@, 26));
    assert(feature_order(386) == 67 && feature_id_literal(67) == "official.value.background-layer");
    reveal_strlit("official.value.background-layer");
    reveal_strlit("official.value.background-position");
    assert("official.value.background-layer"@.take(26) =~= "official.value.background-position"@.take(26));
    assert(sorts_before_at("official.value.background-layer"@, "official.value.background-position"@, 26));
    assert(feature_order(387) == 71 && feature_id_literal(71) == "official.value.background-position");
    reveal_strlit("official.value.background-position");
    reveal_strlit("official.value.background-size");
    assert("official.value.background-position"@.take(26) =~= "official.value.background-size"@.take(26));
    assert(sorts_before_at("official.value.background-position"@, "official.value.background-size"@, 26));
    assert(feature_order(388) == 72 && feature_id_literal(72) == "official.value.background-size");
    reveal_strlit("official.value.background-size");
    reveal_strlit("official.value.blend-mode");
    assert("official.value.background-size"@.take(16) =~= "official.value.blend-mode"@.take(16));
    assert(sorts_before_at("official.value.background-size"@, "official.value.blend-mode"@, 16));
    assert(feature_order(389) == 99 && feature_id_literal(99) == "official.value.blend-mode");
    reveal_strlit("official.value.blend-mode");
    reveal_strlit("official.value.box-edge-keywords");
    assert("official.value.blend-mode"@.take(16) =~= "official.value.box-edge-keywords"@.take(16));
    assert(sorts_before_at("official.value.blend-mode"@, "official.value.box-edge-keywords"@, 16));
    assert(feature_order(390) == 66 && feature_id_literal(66) == "official.value.box-edge-keywords");
    reveal_strlit("official.value.box-edge-keywords");
    reveal_strlit("official.value.calc");
    assert("official.value.box-edge-keywords"@.take(15) =~= "official.value.calc"@.take(15));
    assert(sorts_before_at("official.value.box-edge-keywords"@, "official.value.calc"@, 15));
    assert(feature_order(391) == 131 && feature_id_literal(131) == "official.value.calc");
    reveal_strlit("official.value.calc");
    reveal_strlit("official.value.color");
    assert("official.value.calc"@.take(16) =~= "official.value.color"@.take(16));
    assert(sorts_before_at("official.value.calc"@, "official.value.color"@, 16));
    assert(feature_order(392) == 37 && feature_id_literal(37) == "official.value.color");
    reveal_strlit("official.value.color");
    reveal_strlit("official.value.color-stop-list");
    assert("official.value.color"@.take(20) =~= "official.value.color-stop-list"@.take(20));
    assert(sorts_before_at("official.value.color"@, "official.value.color-stop-list"@, 20));
    assert(feature_order(393) == 81 && feature_id_literal(81) == "official.value.color-stop-list");
    reveal_strlit("official.value.color-stop-list");
    reveal_strlit("official.value.counter-style");
    assert("official.value.color-stop-list"@.take(17) =~= "official.value.counter-style"@.take(17));
    assert(sorts_before_at("official.value.color-stop-list"@, "official.value.counter-style"@, 17));
    assert(feature_order(394) == 145 && feature_id_literal(145) == "official.value.counter-style");
    reveal_strlit("official.value.counter-style");
    reveal_strlit("official.value.counter-style-name");
    assert("official.value.counter-style"@.take(28) =~= "official.value.counter-style-name"@.take(28));
    assert(sorts_before_at("official.value.counter-style"@, "official.value.counter-style-name"@, 28));
    assert(feature_order(395) == 146 && feature_id_literal(146) == "official.value.counter-style-name");
    reveal_strlit("official.value.counter-style-name");
    reveal_strlit("official.value.cubic-bezier-easing");
    assert("official.value.counter-style-name"@.take(16) =~= "official.value.cubic-bezier-easing"@.take(16));
    assert(sorts_before_at("official.value.counter-style-name"@, "official.value.cubic-bezier-easing"@, 16));
    assert(feature_order(396) == 101 && feature_id_literal(101) == "official.value.cubic-bezier-easing");
    reveal_strlit("official.value.cubic-bezier-easing");
    reveal_strlit("official.value.currentcolor");
    assert("official.value.cubic-bezier-easing"@.take(17) =~= "official.value.currentcolor"@.take(17));
    assert(sorts_before_at("official.value.cubic-bezier-easing"@, "official.value.currentcolor"@, 17));
    assert(feature_order(397) == 46 && feature_id_literal(46) == "official.value.currentcolor");
    reveal_strlit("official.value.currentcolor");
    reveal_strlit("official.value.declaration-list");
    assert("official.value.currentcolor"@.take(15) =~= "official.value.declaration-list"@.take(15));
    assert(sorts_before_at("official.value.currentcolor"@, "official.value.declaration-list"@, 15));
    assert(feature_order(398) == 20 && feature_id_literal(20) == "official.value.declaration-list");
    reveal_strlit("official.value.declaration-list");
    reveal_strlit("official.value.deprecated-system-color");
    assert("official.value.declaration-list"@.take(17) =~= "official.value.deprecated-system-color"@.take(17));
    assert(sorts_before_at("official.value.declaration-list"@, "official.value.deprecated-system-color"@, 17));
    assert(feature_order(399) == 44 && feature_id_literal(44) == "official.value.deprecated-system-color");
    reveal_strlit("official.value.deprecated-system-color");
    reveal_strlit("official.value.dimension");
    assert("official.value.deprecated-system-color"@.take(16) =~= "official.value.dimension"@.take(16));
    assert(sorts_before_at("official.value.deprecated-system-color"@, "official.value.dimension"@, 16));
    assert(feature_order(400) == 26 && feature_id_literal(26) == "official.value.dimension");
    reveal_strlit("official.value.dimension");
    reveal_strlit("official.value.easing-function");
    assert("official.value.dimension"@.take(15) =~= "official.value.easing-function"@.take(15));
    assert(sorts_before_at("official.value.dimension"@, "official.value.easing-function"@, 15));
    assert(feature_order(401) == 100 && feature_id_literal(100) == "official.value.easing-function");
    reveal_strlit("official.value.easing-function");
    reveal_strlit("official.value.font-source");
    assert("official.value.easing-function"@.take(15) =~= "official.value.font-source"@.take(15));
    assert(sorts_before_at("official.value.easing-function"@, "official.value.font-source"@, 15));
    assert(feature_order(402) == 161 && feature_id_literal(161) == "official.value.font-source");
    reveal_strlit("official.value.font-source");
    reveal_strlit("official.value.frequency");
    assert("official.value.font-source"@.take(16) =~= "official.value.frequency"@.take(16));
    assert(sorts_before_at("official.value.font-source"@, "official.value.frequency"@, 16));
    assert(feature_order(403) == 34 && feature_id_literal(34) == "official.value.frequency");
    reveal_strlit("official.value.frequency");
    reveal_strlit("official.value.frequency-percentage");
    assert("official.value.frequency"@.take(24) =~= "official.value.frequency-percentage"@.take(24));
    assert(sorts_before_at("official.value.frequency"@, "official.value.frequency-percentage"@, 24));
    assert(feature_order(404) == 35 && feature_id_literal(35) == "official.value.frequency-percentage");
    reveal_strlit("official.value.frequency-percentage");
    reveal_strlit("official.value.gradient");
    assert("official.value.frequency-percentage"@.take(15) =~= "official.value.gradient"@.take(15));
    assert(sorts_before_at("official.value.frequency-percentage"@, "official.value.gradient"@, 15));
    assert(feature_order(405) == 76 && feature_id_literal(76) == "official.value.gradient");
    reveal_strlit("official.value.gradient");
    reveal_strlit("official.value.hex-color");
    assert("official.value.gradient"@.take(15) =~= "official.value.hex-color"@.take(15));
    assert(sorts_before_at("official.value.gradient"@, "official.value.hex-color"@, 15));
    assert(feature_order(406) == 41 && feature_id_literal(41) == "official.value.hex-color");
    reveal_strlit("official.value.hex-color");
    reveal_strlit("official.value.hsl");
    assert("official.value.hex-color"@.take(16) =~= "official.value.hsl"@.take(16));
    assert(sorts_before_at("official.value.hex-color"@, "official.value.hsl"@, 16));
    assert(feature_order(407) == 47 && feature_id_literal(47) == "official.value.hsl");
    reveal_strlit("official.value.hsl");
    reveal_strlit("official.value.hue");
    assert("official.value.hsl"@.take(16) =~= "official.value.hue"@.take(16));
    assert(sorts_before_at("official.value.hsl"@, "official.value.hue"@, 16));
    assert(feature_order(408) == 39 && feature_id_literal(39) == "official.value.hue");
    reveal_strlit("official.value.hue");
    reveal_strlit("official.value.hwb");
    assert("official.value.hue"@.take(16) =~= "official.value.hwb"@.take(16));
    assert(sorts_before_at("official.value.hue"@, "official.value.hwb"@, 16));
    assert(feature_order(409) == 48 && feature_id_literal(48) == "official.value.hwb");
    reveal_strlit("official.value.hwb");
    reveal_strlit("official.value.image");
    assert("official.value.hwb"@.take(15) =~= "official.value.image"@.take(15));
    assert(sorts_before_at("official.value.hwb"@, "official.value.image"@, 15));
    assert(feature_order(410) == 75 && feature_id_literal(75) == "official.value.image");
    reveal_strlit("official.value.image");
    reveal_strlit("official.value.integer");
    assert("official.value.image"@.take(16) =~= "official.value.integer"@.take(16));
    assert(sorts_before_at("official.value.image"@, "official.value.integer"@, 16));
    assert(feature_order(411) == 24 && feature_id_literal(24) == "official.value.integer");
    reveal_strlit("official.value.integer");
    reveal_strlit("official.value.lab");
    assert("official.value.integer"@.take(15) =~= "official.value.lab"@.take(15));
    assert(sorts_before_at("official.value.integer"@, "official.value.lab"@, 15));
    assert(feature_order(412) == 49 && feature_id_literal(49) == "official.value.lab");
    reveal_strlit("official.value.lab");
    reveal_strlit("official.value.lch");
    assert("official.value.lab"@.take(16) =~= "official.value.lch"@.take(16));
    assert(sorts_before_at("official.value.lab"@, "official.value.lch"@, 16));
    assert(feature_order(413) == 50 && feature_id_literal(50) == "official.value.lch");
    reveal_strlit("official.value.lch");
    reveal_strlit("official.value.length");
    assert("official.value.lch"@.take(16) =~= "official.value.length"@.take(16));
    assert(sorts_before_at("official.value.lch"@, "official.value.length"@, 16));
    assert(feature_order(414) == 28 && feature_id_literal(28) == "official.value.length");
    reveal_strlit("official.value.length");
    reveal_strlit("official.value.length-percentage");
    assert("official.value.length"@.take(21) =~= "official.value.length-percentage"@.take(21));
    assert(sorts_before_at("official.value.length"@, "official.value.length-percentage"@, 21));
    assert(feature_order(415) == 29 && feature_id_literal(29) == "official.value.length-percentage");
    reveal_strlit("official.value.length-percentage");
    reveal_strlit("official.value.line-style");
    assert("official.value.length-percentage"@.take(16) =~= "official.value.line-style"@.take(16));
    assert(sorts_before_at("official.value.length-percentage"@, "official.value.line-style"@, 16));
    assert(feature_order(416) == 73 && feature_id_literal(73) == "official.value.line-style");
    reveal_strlit("official.value.line-style");
    reveal_strlit("official.value.line-width");
    assert("official.value.line-style"@.take(20) =~= "official.value.line-width"@.take(20));
    assert(sorts_before_at("official.value.line-style"@, "official.value.line-width"@, 20));
    assert(feature_order(417) == 74 && feature_id_literal(74) == "official.value.line-width");
    reveal_strlit("official.value.line-width");
    reveal_strlit("official.value.linear-gradient");
    assert("official.value.line-width"@.take(19) =~= "official.value.linear-gradient"@.take(19));
    assert(sorts_before_at("official.value.line-width"@, "official.value.linear-gradient"@, 19));
    assert(feature_order(418) == 77 && feature_id_literal(77) == "official.value.linear-gradient");
    reveal_strlit("official.value.linear-gradient");
    reveal_strlit("official.value.named-color");
    assert("official.value.linear-gradient"@.take(15) =~= "official.value.named-color"@.take(15));
    assert(sorts_before_at("official.value.linear-gradient"@, "official.value.named-color"@, 15));
    assert(feature_order(419) == 42 && feature_id_literal(42) == "official.value.named-color");
    assert(feature_order(420) == 25 && feature_id_literal(25) == "official.value.number");
    reveal_strlit("official.value.named-color");
    reveal_strlit("official.value.number");
    assert("official.value.named-color"@.take(16) =~= "official.value.number"@.take(16));
    assert(sorts_before_at("official.value.named-color"@, "official.value.number"@, 16));
}

#[verifier::rlimit(100)]
proof fn lemma_feature_sorted_8()
    ensures
        forall|k: int| 420 <= k < 462 ==> sorts_before(
            feature_id_literal(#[trigger] feature_order(k))@,
            feature_id_literal(feature_order(k + 1))@,
        ),
{
    reveal(feature_order_chunk_8);
    reveal(feature_id_chunk_1);
    reveal(feature_id_chunk_2);
    reveal(feature_id_chunk_3);
    assert(feature_order(420) == 25 && feature_id_literal(25) == "official.value.number");
    reveal_strlit("official.value.number");
    reveal_strlit("official.value.oklab");
    assert("official.value.number"@.take(15) =~= "official.value.oklab"@.take(15));
    assert(sorts_before_at("official.value.number"@, "official.value.oklab"@, 15));
    assert(feature_order(421) == 51 && feature_id_literal(51) == "official.value.oklab");
    reveal_strlit("official.value.oklab");
    reveal_strlit("official.value.oklch");
    assert("official.value.oklab"@.take(18) =~= "official.value.oklch"@.take(18));
    assert(sorts_before_at("official.value.oklab"@, "official.value.oklch"@, 18));
    assert(feature_order(422) == 52 && feature_id_literal(52) == "official.value.oklch");
    reveal_strlit("official.value.oklch");
    reveal_strlit("official.value.opentype-tag");
    assert("official.value.oklch"@.take(16) =~= "official.value.opentype-tag"@.take(16));
    assert(sorts_before_at("official.value.oklch"@, "official.value.opentype-tag"@, 16));
    assert(feature_order(423) == 162 && feature_id_literal(162) == "official.value.opentype-tag");
    reveal_strlit("official.value.opentype-tag");
    reveal_strlit("official.value.percentage");
    assert("official.value.opentype-tag"@.take(15) =~= "official.value.percentage"@.take(15));
    assert(sorts_before_at("official.value.opentype-tag"@, "official.value.percentage"@, 15));
    assert(feature_order(424) == 27 && feature_id_literal(27) == "official.value.percentage");
    reveal_strlit("official.value.percentage");
    reveal_strlit("official.value.position");
    assert("official.value.percentage"@.take(16) =~= "official.value.position"@.take(16));
    assert(sorts_before_at("official.value.percentage"@, "official.value.position"@, 16));
    assert(feature_order(425) == 65 && feature_id_literal(65) == "official.value.position");
    reveal_strlit("official.value.position");
    reveal_strlit("official.value.predefined-color");
    assert("official.value.position"@.take(16) =~= "official.value.predefined-color"@.take(16));
    assert(sorts_before_at("official.value.position"@, "official.value.predefined-color"@, 16));
    assert(feature_order(426) == 53 && feature_id_literal(53) == "official.value.predefined-color");
    reveal_strlit("official.value.predefined-color");
    reveal_strlit("official.value.radial-extent");
    assert("official.value.predefined-color"@.take(15) =~= "official.value.radial-extent"@.take(15));
    assert(sorts_before_at("official.value.predefined-color"@, "official.value.radial-extent"@, 15));
    assert(feature_order(427) == 85 && feature_id_literal(85) == "official.value.radial-extent");
    reveal_strlit("official.value.radial-extent");
    reveal_strlit("official.value.radial-gradient");
    assert("official.value.radial-extent"@.take(22) =~= "official.value.radial-gradient"@.take(22));
    assert(sorts_before_at("official.value.radial-extent"@, "official.value.radial-gradient"@, 22));
    assert(feature_order(428) == 78 && feature_id_literal(78) == "official.value.radial-gradient");
    reveal_strlit("official.value.radial-gradient");
    reveal_strlit("official.value.radial-shape");
    assert("official.value.radial-gradient"@.take(22) =~= "official.value.radial-shape"@.take(22));
    assert(sorts_before_at("official.value.radial-gradient"@, "official.value.radial-shape"@, 22));
    assert(feature_order(429) == 83 && feature_id_literal(83) == "official.value.radial-shape");
    reveal_strlit("official.value.radial-shape");
    reveal_strlit("official.value.radial-size");
    assert("official.value.radial-shape"@.take(23) =~= "official.value.radial-size"@.take(23));
    assert(sorts_before_at("official.value.radial-shape"@, "official.value.radial-size"@, 23));
    assert(feature_order(430) == 84 && feature_id_literal(84) == "official.value.radial-size");
    reveal_strlit("official.value.radial-size");
    reveal_strlit("official.value.repeat-style");
    assert("official.value.radial-size"@.take(16) =~= "official.value.repeat-style"@.take(16));
    assert(sorts_before_at("official.value.radial-size"@, "official.value.repeat-style"@, 16));
    assert(feature_order(431) == 69 && feature_id_literal(69) == "official.value.repeat-style");
    reveal_strlit("official.value.repeat-style");
    reveal_strlit("official.value.repeating-linear-gradient");
    assert("official.value.repeat-style"@.take(21) =~= "official.value.repeating-linear-gradient"@.take(21));
    assert(sorts_before_at("official.value.repeat-style"@, "official.value.repeating-linear-gradient"@, 21));
    assert(feature_order(432) == 79 && feature_id_literal(79) == "official.value.repeating-linear-gradient");
    reveal_strlit("official.value.repeating-linear-gradient");
    reveal_strlit("official.value.repeating-radial-gradient");
    assert("official.value.repeating-linear-gradient"@.take(25) =~= "official.value.repeating-radial-gradient"@.take(25));
    assert(sorts_before_at("official.value.repeating-linear-gradient"@, "official.value.repeating-radial-gradient"@, 25));
    assert(feature_order(433) == 80 && feature_id_literal(80) == "official.value.repeating-radial-gradient");
    reveal_strlit("official.value.repeating-radial-gradient");
    reveal_strlit("official.value.resolution");
    assert("official.value.repeating-radial-gradient"@.take(17) =~= "official.value.resolution"@.take(17));
    assert(sorts_before_at("official.value.repeating-radial-gradient"@, "official.value.resolution"@, 17));
    assert(feature_order(434) == 36 && feature_id_literal(36) == "official.value.resolution");
    reveal_strlit("official.value.resolution");
    reveal_strlit("official.value.rgb");
    assert("official.value.resolution"@.take(16) =~= "official.value.rgb"@.take(16));
    assert(sorts_before_at("official.value.resolution"@, "official.value.rgb"@, 16));
    assert(feature_order(435) == 40 && feature_id_literal(40) == "official.value.rgb");
    reveal_strlit("official.value.rgb");
    reveal_strlit("official.value.rule-list");
    assert("official.value.rgb"@.take(16) =~= "official.value.rule-list"@.take(16));
    assert(sorts_before_at("official.value.rgb"@, "official.value.rule-list"@, 16));
    assert(feature_order(436) == 19 && feature_id_literal(19) == "official.value.rule-list");
    reveal_strlit("official.value.rule-list");
    reveal_strlit("official.value.shadow");
    assert("official.value.rule-list"@.take(15) =~= "official.value.shadow"@.take(15));
    assert(sorts_before_at("official.value.rule-list"@, "official.value.shadow"@, 15));
    assert(feature_order(437) == 104 && feature_id_literal(104) == "official.value.shadow");
    reveal_strlit("official.value.shadow");
    reveal_strlit("official.value.side-or-corner");
    assert("official.value.shadow"@.take(16) =~= "official.value.side-or-corner"@.take(16));
    assert(sorts_before_at("official.value.shadow"@, "official.value.side-or-corner"@, 16));
    assert(feature_order(438) == 82 && feature_id_literal(82) == "official.value.side-or-corner");
    reveal_strlit("official.value.side-or-corner");
    reveal_strlit("official.value.step-easing");
    assert("official.value.side-or-corner"@.take(16) =~= "official.value.step-easing"@.take(16));
    assert(sorts_before_at("official.value.side-or-corner"@, "official.value.step-easing"@, 16));
    assert(feature_order(439) == 102 && feature_id_literal(102) == "official.value.step-easing");
    reveal_strlit("official.value.step-easing");
    reveal_strlit("official.value.step-position");
    assert("official.value.step-easing"@.take(20) =~= "official.value.step-position"@.take(20));
    assert(sorts_before_at("official.value.step-easing"@, "official.value.step-position"@, 20));
    assert(feature_order(440) == 103 && feature_id_literal(103) == "official.value.step-position");
    reveal_strlit("official.value.step-position");
    reveal_strlit("official.value.style-block");
    assert("official.value.step-position"@.take(17) =~= "official.value.style-block"@.take(17));
    assert(sorts_before_at("official.value.step-position"@, "official.value.style-block"@, 17));
    assert(feature_order(441) == 21 && feature_id_literal(21) == "official.value.style-block");
    reveal_strlit("official.value.style-block");
    reveal_strlit("official.value.stylesheet");
    assert("official.value.style-block"@.take(20) =~= "official.value.stylesheet"@.take(20));
    assert(sorts_before_at("official.value.style-block"@, "official.value.stylesheet"@, 20));
    assert(feature_order(442) == 18 && feature_id_literal(18) == "official.value.stylesheet");
    reveal_strlit("official.value.stylesheet");
    reveal_strlit("official.value.symbol");
    assert("official.value.stylesheet"@.take(16) =~= "official.value.symbol"@.take(16));
    assert(sorts_before_at("official.value.stylesheet"@, "official.value.symbol"@, 16));
    assert(feature_order(443) == 147 && feature_id_literal(147) == "official.value.symbol");
    reveal_strlit("official.value.symbol");
    reveal_strlit("official.value.symbols-function");
    assert("official.value.symbol"@.take(21) =~= "official.value.symbols-function"@.take(21));
    assert(sorts_before_at("official.value.symbol"@, "official.value.symbols-function"@, 21));
    assert(feature_order(444) == 148 && feature_id_literal(148) == "official.value.symbols-function");
    reveal_strlit("official.value.symbols-function");
    reveal_strlit("official.value.symbols-type");
    assert("official.value.symbols-function"@.take(23) =~= "official.value.symbols-type"@.take(23));
    assert(sorts_before_at("official.value.symbols-function"@, "official.value.symbols-type"@, 23));
    assert(feature_order(445) == 149 && feature_id_literal(149) == "official.value.symbols-type");
    reveal_strlit("official.value.symbols-type");
    reveal_strlit("official.value.system-color");
    assert("official.value.symbols-type"@.take(17) =~= "official.value.system-color"@.take(17));
    assert(sorts_before_at("official.value.symbols-type"@, "official.value.system-color"@, 17));
    assert(feature_order(446) == 43 && feature_id_literal(43) == "official.value.system-color");
    reveal_strlit("official.value.system-color");
    reveal_strlit("official.value.time");
    assert("official.value.system-color"@.take(15) =~= "official.value.time"@.take(15));
    assert(sorts_before_at("official.value.system-color"@, "official.value.time"@, 15));
    assert(feature_order(447) == 32 && feature_id_literal(32) == "official.value.time");
    reveal_strlit("official.value.time");
    reveal_strlit("official.value.time-percentage");
    assert("official.value.time"@.take(19) =~= "official.value.time-percentage"@.take(19));
    assert(sorts_before_at("official.value.time"@, "official.value.time-percentage"@, 19));
    assert(feature_order(448) == 33 && feature_id_literal(33) == "official.value.time-percentage");
    reveal_strlit("official.value.time-percentage");
    reveal_strlit("official.value.transform-function");
    assert("official.value.time-percentage"@.take(16) =~= "official.value.transform-function"@.take(16));
    assert(sorts_before_at("official.value.time-percentage"@, "official.value.transform-function"@, 16));
    assert(feature_order(449) == 87 && feature_id_literal(87) == "official.value.transform-function");
    reveal_strlit("official.value.transform-function");
    reveal_strlit("official.value.transform-list");
    assert("official.value.transform-function"@.take(25) =~= "official.value.transform-list"@.take(25));
    assert(sorts_before_at("official.value.transform-function"@, "official.value.transform-list"@, 25));
    assert(feature_order(450) == 86 && feature_id_literal(86) == "official.value.transform-list");
    reveal_strlit("official.value.transform-list");
    reveal_strlit("official.value.transform.matrix");
    assert("official.value.transform-list"@.take(24) =~= "official.value.transform.matrix"@.take(24));
    assert(sorts_before_at("official.value.transform-list"@, "official.value.transform.matrix"@, 24));
    assert(feature_order(451) == 88 && feature_id_literal(88) == "official.value.transform.matrix");
    reveal_strlit("official.value.transform.matrix");
    reveal_strlit("official.value.transform.rotate");
    assert("official.value.transform.matrix"@.take(25) =~= "official.value.transform.rotate"@.take(25));
    assert(sorts_before_at("official.value.transform.matrix"@, "official.value.transform.rotate"@, 25));
    assert(feature_order(452) == 95 && feature_id_literal(95) == "official.value.transform.rotate");
    reveal_strlit("official.value.transform.rotate");
    reveal_strlit("official.value.transform.scale");
    assert("official.value.transform.rotate"@.take(25) =~= "official.value.transform.scale"@.take(25));
    assert(sorts_before_at("official.value.transform.rotate"@, "official.value.transform.scale"@, 25));
    assert(feature_order(453) == 92 && feature_id_literal(92) == "official.value.transform.scale");
    reveal_strlit("official.value.transform.scale");
    reveal_strlit("official.value.transform.scale-x");
    assert("official.value.transform.scale"@.take(30) =~= "official.value.transform.scale-x"@.take(30));
    assert(sorts_before_at("official.value.transform.scale"@, "official.value.transform.scale-x"@, 30));
    assert(feature_order(454) == 93 && feature_id_literal(93) == "official.value.transform.scale-x");
    reveal_strlit("official.value.transform.scale-x");
    reveal_strlit("official.value.transform.scale-y");
    assert("official.value.transform.scale-x"@.take(31) =~= "official.value.transform.scale-y"@.take(31));
    assert(sorts_before_at("official.value.transform.scale-x"@, "official.value.transform.scale-y"@, 31));
    assert(feature_order(455) == 94 && feature_id_literal(94) == "official.value.transform.scale-y");
    reveal_strlit("official.value.transform.scale-y");
    reveal_strlit("official.value.transform.skew");
    assert("official.value.transform.scale-y"@.take(26) =~= "official.value.transform.skew"@.take(26));
    assert(sorts_before_at("official.value.transform.scale-y"@, "official.value.transform.skew"@, 26));
    assert(feature_order(456) == 96 && feature_id_literal(96) == "official.value.transform.skew");
    reveal_strlit("official.value.transform.skew");
    reveal_strlit("official.value.transform.skew-x");
    assert("official.value.transform.skew"@.take(29) =~= "official.value.transform.skew-x"@.take(29));
    assert(sorts_before_at("official.value.transform.skew"@, "official.value.transform.skew-x"@, 29));
    assert(feature_order(457) == 97 && feature_id_literal(97) == "official.value.transform.skew-x");
    reveal_strlit("official.value.transform.skew-x");
    reveal_strlit("official.value.transform.skew-y");
    assert("official.value.transform.skew-x"@.take(30) =~= "official.value.transform.skew-y"@.take(30));
    assert(sorts_before_at("official.value.transform.skew-x"@, "official.value.transform.skew-y"@, 30));
    assert(feature_order(458) == 98 && feature_id_literal(98) == "official.value.transform.skew-y");
    reveal_strlit("official.value.transform.skew-y");
    reveal_strlit("official.value.transform.translate");
    assert("official.value.transform.skew-y"@.take(25) =~= "official.value.transform.translate"@.take(25));
    assert(sorts_before_at("official.value.transform.skew-y"@, "official.value.transform.translate"@, 25));
    assert(feature_order(459) == 89 && feature_id_literal(89) == "official.value.transform.translate");
    reveal_strlit("official.value.transform.translate");
    reveal_strlit("official.value.transform.translate-x");
    assert("official.value.transform.translate"@.take(34) =~= "official.value.transform.translate-x"@.take(34));
    assert(sorts_before_at("official.value.transform.translate"@, "official.value.transform.translate-x"@, 34));
    assert(feature_order(460) == 90 && feature_id_literal(90) == "official.value.transform.translate-x");
    reveal_strlit("official.value.transform.translate-x");
    reveal_strlit("official.value.transform.translate-y");
    assert("official.value.transform.translate-x"@.take(35) =~= "official.value.transform.translate-y"@.take(35));
    assert(sorts_before_at("official.value.transform.translate-x"@, "official.value.transform.translate-y"@, 35));
    assert(feature_order(461) == 91 && feature_id_literal(91) == "official.value.transform.translate-y");
    assert(feature_order(462) == 45 && feature_id_literal(45) == "official.value.transparent");
    reveal_strlit("official.value.transform.translate-y");
    reveal_strlit("official.value.transparent");
    assert("official.value.transform.translate-y"@.take(20) =~= "official.value.transparent"@.take(20));
    assert(sorts_before_at("official.value.transform.translate-y"@, "official.value.transparent"@, 20));
}

/// The stable identity of every one of the support-catalog records is the one [`feature_id_literal`] spells.
pub proof fn lemma_feature_ids_spelled()
    ensures
        spec_feature_catalog().len() == 463,
        forall|m: int| 0 <= m < 463 ==> #[trigger] spec_feature_catalog()[m].spec_id()@ == feature_id_literal(m)@,
{
    reveal(spec_feature_catalog);
    catalog_1::lemma_features_len();
    catalog_2::lemma_features_len();
    catalog_3::lemma_features_len();
    catalog_4::lemma_features_len();
    catalog_5::lemma_features_len();
    catalog_6::lemma_features_len();
    catalog_7::lemma_features_len();
    catalog_8::lemma_features_len();
    lemma_feature_chunk_1_ids();
    lemma_feature_chunk_2_ids();
    lemma_feature_chunk_3_ids();
    lemma_feature_chunk_4_ids();
    lemma_feature_chunk_5_ids();
    lemma_feature_chunk_6_ids();
    lemma_feature_chunk_7_ids();
    lemma_feature_chunk_8_ids();
    let c = spec_feature_catalog();
    assert forall|m: int| 0 <= m < 60 implies c[m] == catalog_1::features()[m - 0] by {}
    assert forall|m: int| 60 <= m < 120 implies c[m] == catalog_2::features()[m - 60] by {}
    assert forall|m: int| 120 <= m < 180 implies c[m] == catalog_3::features()[m - 120] by {}
    assert forall|m: int| 180 <= m < 240 implies c[m] == catalog_4::features()[m - 180] by {}
    assert forall|m: int| 240 <= m < 300 implies c[m] == catalog_5::features()[m - 240] by {}
    assert forall|m: int| 300 <= m < 360 implies c[m] == catalog_6::features()[m - 300] by {}
    assert forall|m: int| 360 <= m < 420 implies c[m] == catalog_7::features()[m - 360] by {}
    assert forall|m: int| 420 <= m < 463 implies c[m] == catalog_8::features()[m - 420] by {}
}

/// No two support-catalog records carry the same stable identity.
pub proof fn lemma_feature_ids_unique()
    ensures
        forall|i: int, j: int|
            0 <= i < spec_feature_catalog().len() && 0 <= j < spec_feature_catalog().len() && i != j ==> (#[trigger] spec_feature_catalog()[i]).spec_id()@
                != (#[trigger] spec_feature_catalog()[j]).spec_id()@,
{
    lemma_feature_ids_spelled();
    lemma_feature_rank_1();
    lemma_feature_rank_2();
    lemma_feature_rank_3();
    lemma_feature_rank_4();
    lemma_feature_rank_5();
    lemma_feature_rank_6();
    lemma_feature_rank_7();
    lemma_feature_rank_8();
    lemma_feature_sorted_1();
    lemma_feature_sorted_2();
    lemma_feature_sorted_3();
    lemma_feature_sorted_4();
    lemma_feature_sorted_5();
    lemma_feature_sorted_6();
    lemma_feature_sorted_7();
    lemma_feature_sorted_8();
    let ids = Seq::new(463, |m: int| feature_id_literal(m)@);
    let order = Seq::new(463, |k: int| feature_order(k));
    let rank = Seq::new(463, |m: int| feature_rank(m));
    assert forall|k: int| 0 <= k < order.len() - 1 implies sorts_before(ids[#[trigger] order[k]], ids[order[k + 1]]) by {
        assert(sorts_before(feature_id_literal(feature_order(k))@, feature_id_literal(feature_order(k + 1))@));
    }
    lemma_sorted_order_distinct(ids, order, rank);
    assert forall|i: int, j: int|
        0 <= i < spec_feature_catalog().len() && 0 <= j < spec_feature_catalog().len() && i != j implies (#[trigger] spec_feature_catalog()[i]).spec_id()@
        != (#[trigger] spec_feature_catalog()[j]).spec_id()@ by {
        assert(ids[i] != ids[j]);
    }
}

/// Looking up the identity of any of the support-catalog records finds that record and no other.
pub proof fn lemma_feature_lookup_finds_record(i: int)
    requires
        0 <= i < spec_feature_catalog().len(),
    ensures
        forall|k: int| 0 <= k < spec_feature_catalog().len() && feature_has_id(#[trigger] spec_feature_catalog()[k], spec_feature_catalog()[i].spec_id()@) ==> k == i,
        first_match(spec_feature_catalog(), |r: CssFeatureMetadata| feature_has_id(r, spec_feature_catalog()[i].spec_id()@)) == Some(spec_feature_catalog()[i]),
{
    lemma_feature_ids_unique();
    let wanted = |r: CssFeatureMetadata| feature_has_id(r, spec_feature_catalog()[i].spec_id()@);
    assert(is_first_match(spec_feature_catalog(), wanted, i));
    lemma_first_match_at(spec_feature_catalog(), wanted, i);
}

} // verus!
