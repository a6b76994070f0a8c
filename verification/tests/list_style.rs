use surgeist_css::{
    build_list_style, unsupported_value_at, CssListStyle, CssListStyleImage, CssListStylePosition,
    CssListStyleType, CssSourceLocation, ListStyleComponent, LocatedListStyleComponent,
};

type Component = ListStyleComponent<&'static str, &'static str, &'static str>;
type Located = LocatedListStyleComponent<&'static str, &'static str, &'static str>;
type Style = CssListStyle<&'static str, &'static str, &'static str>;

fn loc(column: u32) -> CssSourceLocation {
    CssSourceLocation { line: 0, column }
}

fn ends_at(column: u32, component: Component) -> Located {
    LocatedListStyleComponent { component, end: loc(column) }
}

fn build(components: Vec<Located>) -> Result<Style, CssSourceLocation> {
    build_list_style(components, loc(99)).map_err(|error| {
        assert_eq!(error, unsupported_value_at(error.location, None, ""));
        error.location
    })
}

#[test]
fn list_style_collects_each_part_once() {
    let style = build(vec![
        ends_at(8, ListStyleComponent::Position(CssListStylePosition::Inside)),
        ends_at(15, ListStyleComponent::Type(CssListStyleType::CounterStyle("square"))),
        ends_at(30, ListStyleComponent::Image(CssListStyleImage::Url("a.png"))),
    ])
    .unwrap();
    assert_eq!(style.style_type(), Some(&CssListStyleType::CounterStyle("square")));
    assert_eq!(style.position(), Some(CssListStylePosition::Inside));
    assert_eq!(style.image(), Some(&CssListStyleImage::Url("a.png")));
}

#[test]
fn list_style_lone_none_sets_type_and_image() {
    let style = build(vec![ends_at(5, ListStyleComponent::NoneKeyword)]).unwrap();
    assert_eq!(style.style_type(), Some(&CssListStyleType::NoneKeyword));
    assert_eq!(style.position(), None);
    assert_eq!(style.image(), Some(&CssListStyleImage::NoneKeyword));
}

#[test]
fn list_style_none_fills_the_part_not_given() {
    let style = build(vec![
        ends_at(5, ListStyleComponent::NoneKeyword),
        ends_at(20, ListStyleComponent::Image(CssListStyleImage::Url("a.png"))),
    ])
    .unwrap();
    assert_eq!(style.style_type(), Some(&CssListStyleType::NoneKeyword));
    assert_eq!(style.image(), Some(&CssListStyleImage::Url("a.png")));

    let style = build(vec![
        ends_at(7, ListStyleComponent::Type(CssListStyleType::String("-"))),
        ends_at(12, ListStyleComponent::NoneKeyword),
    ])
    .unwrap();
    assert_eq!(style.style_type(), Some(&CssListStyleType::String("-")));
    assert_eq!(style.image(), Some(&CssListStyleImage::NoneKeyword));
}

#[test]
fn list_style_rejects_none_beside_both_type_and_image() {
    let error = build(vec![
        ends_at(5, ListStyleComponent::NoneKeyword),
        ends_at(12, ListStyleComponent::Type(CssListStyleType::CounterStyle("disc"))),
        ends_at(30, ListStyleComponent::Image(CssListStyleImage::Url("a.png"))),
    ])
    .unwrap_err();
    assert_eq!(error, loc(99));
}

#[test]
fn list_style_rejects_repeated_part_just_past_it() {
    let error = build(vec![
        ends_at(7, ListStyleComponent::Position(CssListStylePosition::Outside)),
        ends_at(14, ListStyleComponent::NoneKeyword),
        ends_at(21, ListStyleComponent::NoneKeyword),
        ends_at(28, ListStyleComponent::Position(CssListStylePosition::Inside)),
    ])
    .unwrap_err();
    assert_eq!(error, loc(21));
}

#[test]
fn list_style_rejects_empty_shorthand_at_end() {
    assert_eq!(build(Vec::new()).unwrap_err(), loc(99));
}
