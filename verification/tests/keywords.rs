use surgeist_css::{
    expand_radius_components, font_format_hint_from_str, font_tech_hint_from_str,
    is_css2_page_length, is_page_margin_box, is_page_margin_property, parse_builtin_counter_style,
    AllowedAlignmentKeywords, CssBuiltInCounterStyle, CssCalcLength, CssFontFormatHint,
    CssFontTechHint, CssKnownProperty, CssLength, CssLengthUnit, CssNumber,
};

fn px(value: f32) -> CssLength {
    CssLength::Px(CssNumber::from_bits(value.to_bits()))
}

#[test]
fn font_format_hints_ignore_ascii_case() {
    assert_eq!(font_format_hint_from_str("woff2"), Some(CssFontFormatHint::Woff2));
    assert_eq!(font_format_hint_from_str("WOFF"), Some(CssFontFormatHint::Woff));
    assert_eq!(font_format_hint_from_str("TrueType"), Some(CssFontFormatHint::TrueType));
    assert_eq!(
        font_format_hint_from_str("embedded-opentype"),
        Some(CssFontFormatHint::EmbeddedOpenType)
    );
    assert_eq!(font_format_hint_from_str("woff3"), None);
    assert_eq!(font_format_hint_from_str(""), None);
}

#[test]
fn font_tech_hints_ignore_ascii_case() {
    assert_eq!(font_tech_hint_from_str("variations"), Some(CssFontTechHint::Variations));
    assert_eq!(font_tech_hint_from_str("COLOR-COLRv1"), Some(CssFontTechHint::ColorCOLRv1));
    assert_eq!(font_tech_hint_from_str("features-aat"), Some(CssFontTechHint::FeaturesAAT));
    assert_eq!(font_tech_hint_from_str("palettes"), None);
}

#[test]
fn builtin_counter_styles_ignore_ascii_case() {
    assert_eq!(parse_builtin_counter_style("disc"), Some(CssBuiltInCounterStyle::Disc));
    assert_eq!(
        parse_builtin_counter_style("Decimal-Leading-Zero"),
        Some(CssBuiltInCounterStyle::DecimalLeadingZero)
    );
    assert_eq!(parse_builtin_counter_style("UPPER-ROMAN"), Some(CssBuiltInCounterStyle::UpperRoman));
    assert_eq!(parse_builtin_counter_style("hebrew"), None);
}

#[test]
fn page_margin_boxes() {
    assert!(is_page_margin_box("top-left-corner"));
    assert!(is_page_margin_box("RIGHT-MIDDLE"));
    assert!(!is_page_margin_box("top"));
    assert!(!is_page_margin_box("middle-left"));
    assert!(is_page_margin_property(CssKnownProperty::MarginTop));
    assert!(is_page_margin_property(CssKnownProperty::Margin));
    assert!(!is_page_margin_property(CssKnownProperty::Width));
}

#[test]
fn css2_page_lengths() {
    assert!(is_css2_page_length(&px(3.0)));
    assert!(is_css2_page_length(&CssLength::Zero));
    assert!(is_css2_page_length(&CssLength::Auto));
    assert!(is_css2_page_length(&CssLength::Dimension {
        value: CssNumber::from_bits(1.0f32.to_bits()),
        unit: CssLengthUnit::Cm
    }));
    assert!(!is_css2_page_length(&CssLength::Dimension {
        value: CssNumber::from_bits(1.0f32.to_bits()),
        unit: CssLengthUnit::Em
    }));
    assert!(!is_css2_page_length(&CssLength::Dimension {
        value: CssNumber::from_bits(1.0f32.to_bits()),
        unit: CssLengthUnit::Q
    }));
    assert!(!is_css2_page_length(&CssLength::Calc(CssCalcLength::Legacy("calc(1px)".to_string()))));
}

#[test]
fn radius_components_expand_to_four_corners() {
    let a = px(1.0);
    let b = px(2.0);
    let c = px(3.0);
    let d = px(4.0);
    assert_eq!(
        expand_radius_components(vec![a.clone()]),
        (a.clone(), a.clone(), a.clone(), a.clone())
    );
    assert_eq!(
        expand_radius_components(vec![a.clone(), b.clone()]),
        (a.clone(), b.clone(), a.clone(), b.clone())
    );
    assert_eq!(
        expand_radius_components(vec![a.clone(), b.clone(), c.clone()]),
        (a.clone(), b.clone(), c.clone(), b.clone())
    );
    assert_eq!(
        expand_radius_components(vec![a.clone(), b.clone(), c.clone(), d.clone()]),
        (a, b, c, d)
    );
}

#[test]
fn alignment_contexts() {
    let content = AllowedAlignmentKeywords::content();
    assert!(content.normal && content.distribution);
    let item = AllowedAlignmentKeywords::item();
    assert!(item.normal && !item.distribution);
}

#[test]
fn numbers_keep_their_bits() {
    let n = CssNumber::from_bits((-0.5f32).to_bits());
    assert_eq!(f32::from_bits(n.to_bits()), -0.5);
}
