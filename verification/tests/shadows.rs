use surgeist_css::{
    build_shadow, unsupported_value_at, CssShadow, CssSourceLocation, LocatedShadowComponent,
    ShadowComponent,
};

type Located = LocatedShadowComponent<&'static str, i32>;

fn loc(column: u32) -> CssSourceLocation {
    CssSourceLocation { line: 0, column }
}

fn inset(start: u32) -> Located {
    LocatedShadowComponent { component: ShadowComponent::Inset, start: loc(start), end: loc(start + 5) }
}

fn color(start: u32, value: &'static str) -> Located {
    LocatedShadowComponent {
        component: ShadowComponent::Value { color: Some(value), length: None, blur: None },
        start: loc(start),
        end: loc(start + 3),
    }
}

fn length(start: u32, value: i32) -> Located {
    LocatedShadowComponent {
        component: ShadowComponent::Value {
            color: None,
            length: Some(value),
            blur: if value >= 0 { Some(value) } else { None },
        },
        start: loc(start),
        end: loc(start + 3),
    }
}

fn other(start: u32) -> Located {
    LocatedShadowComponent {
        component: ShadowComponent::Value { color: None, length: None, blur: None },
        start: loc(start),
        end: loc(start + 3),
    }
}

fn build(components: Vec<Located>) -> Result<CssShadow<&'static str, i32>, CssSourceLocation> {
    build_shadow(components, loc(99)).map_err(|error| {
        assert_eq!(error, unsupported_value_at(error.location, None, ""));
        error.location
    })
}

#[test]
fn shadow_takes_two_offsets_and_color_in_any_order() {
    let shadow = build(vec![length(1, 2), color(4, "red"), length(8, -3)]).unwrap();
    assert_eq!(
        shadow,
        CssShadow { inset: false, offset_x: 2, offset_y: -3, blur: None, spread: None, color: Some("red") }
    );
}

#[test]
fn shadow_takes_blur_and_spread_in_order() {
    let shadow = build(vec![inset(1), length(7, 1), length(10, 2), length(13, 4), length(16, -5)]).unwrap();
    assert_eq!(
        shadow,
        CssShadow { inset: true, offset_x: 1, offset_y: 2, blur: Some(4), spread: Some(-5), color: None }
    );
}

#[test]
fn shadow_rejects_negative_blur_where_it_starts() {
    assert_eq!(build(vec![length(1, 1), length(4, 2), length(7, -4)]).unwrap_err(), loc(7));
}

#[test]
fn shadow_rejects_duplicate_inset_and_color_just_past_them() {
    assert_eq!(build(vec![inset(1), length(7, 1), inset(10)]).unwrap_err(), loc(15));
    assert_eq!(build(vec![color(1, "red"), color(5, "blue"), length(9, 1)]).unwrap_err(), loc(8));
}

#[test]
fn shadow_rejects_fifth_length_and_unknown_component_where_they_start() {
    let five = vec![length(1, 1), length(4, 2), length(7, 3), length(10, 4), length(13, 5)];
    assert_eq!(build(five).unwrap_err(), loc(13));
    assert_eq!(build(vec![length(1, 1), other(4)]).unwrap_err(), loc(4));
}

#[test]
fn shadow_needs_two_offsets() {
    assert_eq!(build(vec![length(1, 1), color(4, "red")]).unwrap_err(), loc(99));
    assert_eq!(build(Vec::new()).unwrap_err(), loc(99));
}
