//! The shared support-boundary descriptions cited by catalog records.
use vstd::prelude::*;

verus! {

/// The shared `informative_source_audit` description.
#[verifier::allow_in_spec]
pub fn informative_source_audit() -> &'static str
    returns
        "examples, explicitly non-normative notes, status/TOC, changelogs, acknowledgments, indexes, bibliography, test inventories, and conformance boilerplate",
{
    "examples, explicitly non-normative notes, status/TOC, changelogs, acknowledgments, indexes, bibliography, test inventories, and conformance boilerplate"
}

/// The shared `baseline_rule_subset` description.
#[verifier::allow_in_spec]
pub fn baseline_rule_subset() -> &'static str
    returns
        "The baseline parser spelling and the I01 recovery extensions are supported.",
{
    "The baseline parser spelling and the I01 recovery extensions are supported."
}

/// The shared `baseline_rule_remainder` description.
#[verifier::allow_in_spec]
pub fn baseline_rule_remainder() -> &'static str
    returns
        "Other valid forms of the cited rule production are outside the I01 subset.",
{
    "Other valid forms of the cited rule production are outside the I01 subset."
}

/// The shared `selector_remainder` description.
#[verifier::allow_in_spec]
pub fn selector_remainder() -> &'static str
    returns
        "Other valid forms of the cited Selectors production are outside the I01 subset.",
{
    "Other valid forms of the cited Selectors production are outside the I01 subset."
}

/// The shared `supports_selector_subset` description.
#[verifier::allow_in_spec]
pub fn supports_selector_subset() -> &'static str
    returns
        "selector() accepts complete Selectors 3 plus the selected I01 extensions: i and s attribute modifiers; :scope, :focus-visible, :focus-within, :required, :optional, :valid, :invalid, :placeholder-shown, :modal, :fullscreen, :popover-open, :default, :indeterminate, :read-only, :read-write, :in-range, and :out-of-range; :is(), :where(), :has(), selector-list :not(), and nth-child of lists; and ::marker, ::selection, ::backdrop, and generated-marker sequences.",
{
    "selector() accepts complete Selectors 3 plus the selected I01 extensions: i and s attribute modifiers; :scope, :focus-visible, :focus-within, :required, :optional, :valid, :invalid, :placeholder-shown, :modal, :fullscreen, :popover-open, :default, :indeterminate, :read-only, :read-write, :in-range, and :out-of-range; :is(), :where(), :has(), selector-list :not(), and nth-child of lists; and ::marker, ::selection, ::backdrop, and generated-marker sequences."
}

/// The shared `supports_selector_remainder` description.
#[verifier::allow_in_spec]
pub fn supports_selector_remainder() -> &'static str
    returns
        "The || combinator, unselected Selectors 4 pseudo-classes and pseudo-elements, and syntax outside those atomic extension rows remain outside the typed subset; balanced content is preserved as general-enclosed authored syntax.",
{
    "The || combinator, unselected Selectors 4 pseudo-classes and pseudo-elements, and syntax outside those atomic extension rows remain outside the typed subset; balanced content is preserved as general-enclosed authored syntax."
}

/// The shared `query_remainder` description.
#[verifier::allow_in_spec]
pub fn query_remainder() -> &'static str
    returns
        "Other valid forms of the cited query production are outside the I01 subset.",
{
    "Other valid forms of the cited query production are outside the I01 subset."
}

/// The shared `property_subset` description.
#[verifier::allow_in_spec]
pub fn property_subset() -> &'static str
    returns
        "The property-specific parser behavior at 4b288d6:src/parser/mod.rs, plus whole-value CSS-wide keywords and syntactically admissible substitution-dependent authored values, is supported.",
{
    "The property-specific parser behavior at 4b288d6:src/parser/mod.rs, plus whole-value CSS-wide keywords and syntactically admissible substitution-dependent authored values, is supported."
}

/// The shared `property_remainder` description.
#[verifier::allow_in_spec]
pub fn property_remainder() -> &'static str
    returns
        "Other valid forms of the cited property production are outside the I01 subset.",
{
    "Other valid forms of the cited property production are outside the I01 subset."
}

/// The shared `dimension_subset` description.
#[verifier::allow_in_spec]
pub fn dimension_subset() -> &'static str
    returns
        "Selected typed length, angle, time, frequency, and resolution dimensions are supported.",
{
    "Selected typed length, angle, time, frequency, and resolution dimensions are supported."
}

/// The shared `dimension_remainder` description.
#[verifier::allow_in_spec]
pub fn dimension_remainder() -> &'static str
    returns
        "Other valid CSS dimension families remain for their owning later grammar cycles.",
{
    "Other valid CSS dimension families remain for their owning later grammar cycles."
}

/// The shared `angle_subset` description.
#[verifier::allow_in_spec]
pub fn angle_subset() -> &'static str
    returns
        "The public typed angle model and calculation root are supported.",
{
    "The public typed angle model and calculation root are supported."
}

/// The shared `angle_remainder` description.
#[verifier::allow_in_spec]
pub fn angle_remainder() -> &'static str
    returns
        "Angle property consumers remain for their owning later grammar cycles.",
{
    "Angle property consumers remain for their owning later grammar cycles."
}

/// The shared `angle_percentage_subset` description.
#[verifier::allow_in_spec]
pub fn angle_percentage_subset() -> &'static str
    returns
        "The public typed angle and percentage calculation models are supported.",
{
    "The public typed angle and percentage calculation models are supported."
}

/// The shared `angle_percentage_remainder` description.
#[verifier::allow_in_spec]
pub fn angle_percentage_remainder() -> &'static str
    returns
        "Angle-percentage property consumers remain for their owning later grammar cycles.",
{
    "Angle-percentage property consumers remain for their owning later grammar cycles."
}

/// The shared `time_percentage_subset` description.
#[verifier::allow_in_spec]
pub fn time_percentage_subset() -> &'static str
    returns
        "The public typed time and percentage calculation models are supported.",
{
    "The public typed time and percentage calculation models are supported."
}

/// The shared `time_percentage_remainder` description.
#[verifier::allow_in_spec]
pub fn time_percentage_remainder() -> &'static str
    returns
        "Time-percentage property consumers remain for their owning later grammar cycles.",
{
    "Time-percentage property consumers remain for their owning later grammar cycles."
}

/// The shared `frequency_subset` description.
#[verifier::allow_in_spec]
pub fn frequency_subset() -> &'static str
    returns
        "The public typed frequency model and calculation root are supported.",
{
    "The public typed frequency model and calculation root are supported."
}

/// The shared `frequency_remainder` description.
#[verifier::allow_in_spec]
pub fn frequency_remainder() -> &'static str
    returns
        "Frequency property consumers remain for their owning later grammar cycles.",
{
    "Frequency property consumers remain for their owning later grammar cycles."
}

/// The shared `frequency_percentage_subset` description.
#[verifier::allow_in_spec]
pub fn frequency_percentage_subset() -> &'static str
    returns
        "The public typed frequency and percentage calculation models are supported.",
{
    "The public typed frequency and percentage calculation models are supported."
}

/// The shared `frequency_percentage_remainder` description.
#[verifier::allow_in_spec]
pub fn frequency_percentage_remainder() -> &'static str
    returns
        "Frequency-percentage property consumers remain for their owning later grammar cycles.",
{
    "Frequency-percentage property consumers remain for their owning later grammar cycles."
}

/// The shared `calc_subset` description.
#[verifier::allow_in_spec]
pub fn calc_subset() -> &'static str
    returns
        "Typed sum, product, division, negation, grouping, and nested calc() trees are supported for the C03 roots and integrated property consumers.",
{
    "Typed sum, product, division, negation, grouping, and nested calc() trees are supported for the C03 roots and integrated property consumers."
}

/// The shared `calc_remainder` description.
#[verifier::allow_in_spec]
pub fn calc_remainder() -> &'static str
    returns
        "Angle, frequency, Media resolution, keyframe percentage, font-feature numeric, and C05 function-owned consumer integrations remain for their owning later cycles.",
{
    "Angle, frequency, Media resolution, keyframe percentage, font-feature numeric, and C05 function-owned consumer integrations remain for their owning later cycles."
}

/// The shared `timing_subset` description.
#[verifier::allow_in_spec]
pub fn timing_subset() -> &'static str
    returns
        "The I01 shorthand components plus C03 duration, signed delay, iteration, and typed calculation syntax and C05 easing functions are supported.",
{
    "The I01 shorthand components plus C03 duration, signed delay, iteration, and typed calculation syntax and C05 easing functions are supported."
}

/// The shared `timing_remainder` description.
#[verifier::allow_in_spec]
pub fn timing_remainder() -> &'static str
    returns
        "Other valid forms of the cited shorthand production remain unsupported.",
{
    "Other valid forms of the cited shorthand production remain unsupported."
}

/// The shared `basic_shape_subset` description.
#[verifier::allow_in_spec]
pub fn basic_shape_subset() -> &'static str
    returns
        "Typed inset(), circle(), ellipse(), and polygon() functions are supported.",
{
    "Typed inset(), circle(), ellipse(), and polygon() functions are supported."
}

/// The shared `basic_shape_remainder` description.
#[verifier::allow_in_spec]
pub fn basic_shape_remainder() -> &'static str
    returns
        "path(), shape(), rect(), and xywh() remain unsupported.",
{
    "path(), shape(), rect(), and xywh() remain unsupported."
}

/// The shared `backdrop_filter_subset` description.
#[verifier::allow_in_spec]
pub fn backdrop_filter_subset() -> &'static str
    returns
        "The exact I01 filter-function-list subset preserved at bc5394f:src/parser/effects.rs is supported with typed current values.",
{
    "The exact I01 filter-function-list subset preserved at bc5394f:src/parser/effects.rs is supported with typed current values."
}

/// The shared `backdrop_filter_remainder` description.
#[verifier::allow_in_spec]
pub fn backdrop_filter_remainder() -> &'static str
    returns
        "Every Filter Effects 2 behavior absent from that preserved baseline subset remains unsupported.",
{
    "Every Filter Effects 2 behavior absent from that preserved baseline subset remains unsupported."
}

/// The shared `clip_path_subset` description.
#[verifier::allow_in_spec]
pub fn clip_path_subset() -> &'static str
    returns
        "none, URL, and typed inset(), circle(), ellipse(), and polygon() functions are supported.",
{
    "none, URL, and typed inset(), circle(), ellipse(), and polygon() functions are supported."
}

/// The shared `clip_path_remainder` description.
#[verifier::allow_in_spec]
pub fn clip_path_remainder() -> &'static str
    returns
        "Reference-box combinations and path(), shape(), rect(), and xywh() remain unsupported.",
{
    "Reference-box combinations and path(), shape(), rect(), and xywh() remain unsupported."
}

/// The shared `color5_relative_subset` description.
#[verifier::allow_in_spec]
pub fn color5_relative_subset() -> &'static str
    returns
        "The eight preserved relative-color families are supported: rgb()/rgba(), hsl()/hsla(), hwb(), lab(), lch(), oklab(), oklch(), and color() in a predefined RGB or XYZ space.",
{
    "The eight preserved relative-color families are supported: rgb()/rgba(), hsl()/hsla(), hwb(), lab(), lch(), oklab(), oklch(), and color() in a predefined RGB or XYZ space."
}

/// The shared `color5_relative_remainder` description.
#[verifier::allow_in_spec]
pub fn color5_relative_remainder() -> &'static str
    returns
        "alpha(), custom-profile parameters, and other unselected CSS Color 5 color functions remain unsupported.",
{
    "alpha(), custom-profile parameters, and other unselected CSS Color 5 color functions remain unsupported."
}

/// The shared `color5_mix_subset` description.
#[verifier::allow_in_spec]
pub fn color5_mix_subset() -> &'static str
    returns
        "The preserved color-mix() subset requires an interpolation method, exactly two colors, optional trailing percentages, and a predefined or polar color space.",
{
    "The preserved color-mix() subset requires an interpolation method, exactly two colors, optional trailing percentages, and a predefined or polar color space."
}

/// The shared `color5_mix_remainder` description.
#[verifier::allow_in_spec]
pub fn color5_mix_remainder() -> &'static str
    returns
        "Other valid forms of the dated CSS Color 5 color-mix() production remain unsupported.",
{
    "Other valid forms of the dated CSS Color 5 color-mix() production remain unsupported."
}

/// The shared `grid_repeat_subset` description.
#[verifier::allow_in_spec]
pub fn grid_repeat_subset() -> &'static str
    returns
        "Non-recursive integer track and fixed repeats, plus one fixed-size automatic repeat where the consumer permits it, are supported.",
{
    "Non-recursive integer track and fixed repeats, plus one fixed-size automatic repeat where the consumer permits it, are supported."
}

/// The shared `grid_repeat_remainder` description.
#[verifier::allow_in_spec]
pub fn grid_repeat_remainder() -> &'static str
    returns
        "Subgrid name-repeat and other unselected Grid 2 forms remain unsupported.",
{
    "Subgrid name-repeat and other unselected Grid 2 forms remain unsupported."
}

/// The shared `grid_property_subset` description.
#[verifier::allow_in_spec]
pub fn grid_property_subset() -> &'static str
    returns
        "The C07 structural grammar supports non-recursive integer track and fixed repeats, one fixed-size automatic repeat where permitted, and repeat-free automatic track-size lists.",
{
    "The C07 structural grammar supports non-recursive integer track and fixed repeats, one fixed-size automatic repeat where permitted, and repeat-free automatic track-size lists."
}

/// The shared `grid_property_remainder` description.
#[verifier::allow_in_spec]
pub fn grid_property_remainder() -> &'static str
    returns
        "Subgrid name-repeat and other unselected Grid 2 property grammar remain unsupported.",
{
    "Subgrid name-repeat and other unselected Grid 2 property grammar remain unsupported."
}

/// The shared `keyframes_subset` description.
#[verifier::allow_in_spec]
pub fn keyframes_subset() -> &'static str
    returns
        "Keyframe names, literal selectors, empty rules and blocks, duplicate selectors and blocks in authored order, and supported declarations with recovery are supported.",
{
    "Keyframe names, literal selectors, empty rules and blocks, duplicate selectors and blocks in authored order, and supported declarations with recovery are supported."
}

/// The shared `keyframes_remainder` description.
#[verifier::allow_in_spec]
pub fn keyframes_remainder() -> &'static str
    returns
        "Calculation selectors, string names, and declaration-processing grammar not selected by C07 remain unsupported.",
{
    "Calculation selectors, string names, and declaration-processing grammar not selected by C07 remain unsupported."
}

/// The shared `font_weight_range_subset` description.
#[verifier::allow_in_spec]
pub fn font_weight_range_subset() -> &'static str
    returns
        "Integer font-weight values from 1 through 1000 are supported.",
{
    "Integer font-weight values from 1 through 1000 are supported."
}

/// The shared `font_weight_range_remainder` description.
#[verifier::allow_in_spec]
pub fn font_weight_range_remainder() -> &'static str
    returns
        "Other unselected Fonts 4 font-weight property grammar remains unsupported.",
{
    "Other unselected Fonts 4 font-weight property grammar remains unsupported."
}

/// The shared `font_face_weight_range_subset` description.
#[verifier::allow_in_spec]
pub fn font_face_weight_range_subset() -> &'static str
    returns
        "Font-face font-weight numbers from 1 through 1000 and increasing two-value ranges are supported.",
{
    "Font-face font-weight numbers from 1 through 1000 and increasing two-value ranges are supported."
}

/// The shared `font_face_weight_range_remainder` description.
#[verifier::allow_in_spec]
pub fn font_face_weight_range_remainder() -> &'static str
    returns
        "Other unselected Fonts 4 font-weight descriptor grammar remains unsupported.",
{
    "Other unselected Fonts 4 font-weight descriptor grammar remains unsupported."
}

/// The shared `font_face_style_range_subset` description.
#[verifier::allow_in_spec]
pub fn font_face_style_range_subset() -> &'static str
    returns
        "Font-face oblique style with one or two increasing -90deg through 90deg angles is supported.",
{
    "Font-face oblique style with one or two increasing -90deg through 90deg angles is supported."
}

/// The shared `font_face_style_range_remainder` description.
#[verifier::allow_in_spec]
pub fn font_face_style_range_remainder() -> &'static str
    returns
        "Other unselected Fonts 4 font-style descriptor grammar remains unsupported.",
{
    "Other unselected Fonts 4 font-style descriptor grammar remains unsupported."
}

/// The shared `font_face_stretch_range_subset` description.
#[verifier::allow_in_spec]
pub fn font_face_stretch_range_subset() -> &'static str
    returns
        "Font-face non-negative percentage stretch values and increasing two-value ranges are supported.",
{
    "Font-face non-negative percentage stretch values and increasing two-value ranges are supported."
}

/// The shared `font_face_stretch_range_remainder` description.
#[verifier::allow_in_spec]
pub fn font_face_stretch_range_remainder() -> &'static str
    returns
        "Other unselected Fonts 4 font-stretch descriptor grammar remains unsupported.",
{
    "Other unselected Fonts 4 font-stretch descriptor grammar remains unsupported."
}

/// The shared `font_source_hints_subset` description.
#[verifier::allow_in_spec]
pub fn font_source_hints_subset() -> &'static str
    returns
        "The woff, woff2, truetype, opentype, collection, embedded-opentype, and svg format() hints and the variations, color-colrv0, color-colrv1, color-svg, color-sbix, color-cbdt, features-opentype, features-aat, features-graphite, and incremental tech() hints are supported.",
{
    "The woff, woff2, truetype, opentype, collection, embedded-opentype, and svg format() hints and the variations, color-colrv0, color-colrv1, color-svg, color-sbix, color-cbdt, features-opentype, features-aat, features-graphite, and incremental tech() hints are supported."
}

/// The shared `font_source_hints_remainder` description.
#[verifier::allow_in_spec]
pub fn font_source_hints_remainder() -> &'static str
    returns
        "Other unselected Fonts 4 font source format and technology hints remain unsupported.",
{
    "Other unselected Fonts 4 font source format and technology hints remain unsupported."
}

} // verus!
