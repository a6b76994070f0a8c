use surgeist_css::{
    build_grid_track_list, unsupported_value_at, CssAuthoredGridAutoTrackComponent,
    CssAuthoredGridGeneralTrackComponent, CssAuthoredGridTrackList, CssGridTrackComponent,
    CssParsedGridTrackList, CssSourceLocation, LocatedGridTrackComponent, ParsedGridTrackComponent,
};

type Component = ParsedGridTrackComponent<String, &'static str, u32, &'static str, &'static str, &'static str, u64>;
type Located = LocatedGridTrackComponent<String, &'static str, u32, &'static str, &'static str, &'static str, u64>;
type Parsed = CssParsedGridTrackList<String, &'static str, u32, &'static str, &'static str, &'static str, u64>;

fn at(column: u32, component: Component) -> Located {
    LocatedGridTrackComponent { location: CssSourceLocation { line: 0, column }, component }
}

fn names(name: &str) -> Component {
    ParsedGridTrackComponent::LineNames(name.to_string())
}

fn size(size: &'static str, fixed: bool, i01: Option<u32>) -> Component {
    ParsedGridTrackComponent::TrackSize { size, fixed, i01 }
}

fn auto(value: &'static str, i01: Option<u64>) -> Component {
    ParsedGridTrackComponent::AutoRepeat { value, i01 }
}

fn integer(track: &'static str, fixed: Option<&'static str>, i01: Option<u64>) -> Component {
    ParsedGridTrackComponent::IntegerRepeat { track, fixed, i01 }
}

fn build(components: Vec<Located>) -> Result<Parsed, CssSourceLocation> {
    build_grid_track_list(components).map_err(|error| {
        assert_eq!(error, unsupported_value_at(error.location, None, ""));
        error.location
    })
}

#[test]
fn grid_track_list_without_automatic_repetition_is_general() {
    let list = build(vec![
        at(1, names("a")),
        at(5, size("1fr", false, Some(1))),
        at(9, integer("repeat(2, 10px)", Some("fixed"), Some(2))),
    ])
    .unwrap();
    match list.current {
        CssAuthoredGridTrackList::General(values) => {
            assert_eq!(values.len(), 3);
            assert!(matches!(&values[0], CssAuthoredGridGeneralTrackComponent::LineNames(n) if n == "a"));
            assert!(matches!(values[1], CssAuthoredGridGeneralTrackComponent::TrackSize("1fr")));
            assert!(matches!(values[2], CssAuthoredGridGeneralTrackComponent::Repeat("repeat(2, 10px)")));
        }
        CssAuthoredGridTrackList::Auto(_) => panic!("expected a general list"),
    }
    let i01 = list.i01.unwrap();
    assert_eq!(i01.len(), 3);
    assert!(matches!(&i01[0], CssGridTrackComponent::LineNames(n) if n == "a"));
    assert!(matches!(i01[1], CssGridTrackComponent::TrackSize(1)));
    assert!(matches!(i01[2], CssGridTrackComponent::Repeat(2)));
}

#[test]
fn grid_track_list_with_one_automatic_repetition_is_automatic() {
    let list = build(vec![
        at(1, size("10px", true, Some(7))),
        at(6, auto("repeat(auto-fill, 10px)", Some(3))),
        at(30, names("end")),
    ])
    .unwrap();
    match list.current {
        CssAuthoredGridTrackList::Auto(values) => {
            assert_eq!(values.len(), 3);
            assert!(matches!(values[0], CssAuthoredGridAutoTrackComponent::FixedSize("10px")));
            assert!(matches!(
                values[1],
                CssAuthoredGridAutoTrackComponent::AutoRepeat("repeat(auto-fill, 10px)")
            ));
            assert!(matches!(&values[2], CssAuthoredGridAutoTrackComponent::LineNames(n) if n == "end"));
        }
        CssAuthoredGridTrackList::General(_) => panic!("expected an automatic list"),
    }
    assert_eq!(list.i01.map(|v| v.len()), Some(3));
}

#[test]
fn grid_track_list_fixed_integer_repetition_stands_beside_automatic_repetition() {
    let list = build(vec![
        at(1, integer("repeat(2, 10px)", Some("repeat(2, fixed 10px)"), None)),
        at(17, auto("repeat(auto-fit, 5px)", Some(4))),
    ])
    .unwrap();
    match list.current {
        CssAuthoredGridTrackList::Auto(values) => {
            assert!(matches!(
                values[0],
                CssAuthoredGridAutoTrackComponent::Repeat("repeat(2, fixed 10px)")
            ));
        }
        CssAuthoredGridTrackList::General(_) => panic!("expected an automatic list"),
    }
    assert!(list.i01.is_none());
}

#[test]
fn grid_track_list_rejects_second_automatic_repetition_at_its_location() {
    let error = build(vec![
        at(1, auto("repeat(auto-fill, 1px)", None)),
        at(24, size("flexible", false, None)),
        at(33, auto("repeat(auto-fit, 2px)", None)),
        at(60, auto("repeat(auto-fit, 3px)", None)),
    ])
    .unwrap_err();
    assert_eq!(error, CssSourceLocation { line: 0, column: 33 });
}

#[test]
fn grid_track_list_rejects_flexible_track_beside_automatic_repetition() {
    let error = build(vec![
        at(1, size("10px", true, Some(1))),
        at(6, size("1fr", false, Some(2))),
        at(10, auto("repeat(auto-fill, 1px)", None)),
        at(40, size("auto", false, None)),
    ])
    .unwrap_err();
    assert_eq!(error, CssSourceLocation { line: 0, column: 6 });
}

#[test]
fn grid_track_list_rejects_unfixed_integer_repetition_beside_automatic_repetition() {
    let error = build(vec![
        at(1, auto("repeat(auto-fill, 1px)", None)),
        at(30, integer("repeat(2, 1fr)", None, Some(5))),
    ])
    .unwrap_err();
    assert_eq!(error, CssSourceLocation { line: 0, column: 30 });
}

#[test]
fn grid_track_list_drops_projection_when_one_component_has_none() {
    let list = build(vec![at(1, size("fit-content(10px)", false, None)), at(20, names("x"))]).unwrap();
    assert!(list.i01.is_none());
    assert!(matches!(list.current, CssAuthoredGridTrackList::General(ref v) if v.len() == 2));
}
