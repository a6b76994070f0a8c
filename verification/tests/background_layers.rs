use surgeist_css::{
    build_background_layer, unsupported_value_at, CssBackgroundAttachment, CssBackgroundBox,
    CssBackgroundLayerBoxes, CssParseError, CssSourceLocation, LocatedBackgroundComponent,
};

type Component = LocatedBackgroundComponent<&'static str, &'static str, &'static str, &'static str, &'static str, u8>;

fn loc(column: u32) -> CssSourceLocation {
    CssSourceLocation { line: 0, column }
}

fn blank(column: u32) -> Component {
    LocatedBackgroundComponent {
        image: None,
        position: None,
        repeat: None,
        attachment: None,
        background_box: None,
        color: None,
        start: loc(column),
    }
}

fn image(column: u32, value: &'static str) -> Component {
    Component { image: Some(Ok(value)), ..blank(column) }
}

fn position(column: u32, value: &'static str, size: Option<&'static str>) -> Component {
    Component { position: Some(Ok((value, size.map(Ok)))), ..blank(column) }
}

fn boxed(column: u32, value: CssBackgroundBox) -> Component {
    Component { background_box: Some(value), ..blank(column) }
}

fn color(column: u32, value: &'static str) -> Component {
    Component { color: Some((value, Some(7))), ..blank(column) }
}

fn failure(column: u32) -> CssParseError {
    unsupported_value_at(loc(column), None, "")
}

#[test]
fn background_layer_collects_components_in_any_order() {
    let (layer, projection, color_location) = build_background_layer(
        vec![
            color(1, "red"),
            position(5, "center", Some("cover")),
            image(20, "url(a.png)"),
            Component { attachment: Some(CssBackgroundAttachment::Fixed), ..blank(31) },
            boxed(37, CssBackgroundBox::PaddingBox),
            boxed(49, CssBackgroundBox::ContentBox),
        ],
        loc(99),
    )
    .unwrap();
    assert_eq!(layer.image, Some("url(a.png)"));
    assert_eq!(layer.position, Some("center"));
    assert_eq!(layer.size, Some("cover"));
    assert_eq!(layer.attachment, Some(CssBackgroundAttachment::Fixed));
    assert_eq!(
        layer.boxes,
        Some(CssBackgroundLayerBoxes::OriginAndClip { origin: CssBackgroundBox::PaddingBox, clip: CssBackgroundBox::ContentBox })
    );
    assert_eq!(layer.color, Some("red"));
    assert_eq!(projection, Some(7));
    assert_eq!(color_location, Some(loc(1)));
}

#[test]
fn background_layer_one_box_is_origin_and_clip() {
    let (layer, _, location) = build_background_layer(vec![boxed(1, CssBackgroundBox::BorderBox)], loc(99)).unwrap();
    assert_eq!(layer.boxes, Some(CssBackgroundLayerBoxes::One(CssBackgroundBox::BorderBox)));
    assert_eq!(location, None);
}

#[test]
fn background_layer_rejects_duplicates_where_they_start() {
    let error = build_background_layer(vec![color(1, "red"), color(5, "blue")], loc(99)).unwrap_err();
    assert_eq!(error, failure(5));
    let three = vec![
        boxed(1, CssBackgroundBox::BorderBox),
        boxed(12, CssBackgroundBox::PaddingBox),
        boxed(24, CssBackgroundBox::ContentBox),
    ];
    assert_eq!(build_background_layer(three, loc(99)).unwrap_err(), failure(24));
}

#[test]
fn background_layer_passes_on_component_failures_and_rejects_empty_layers() {
    let bad_size = Component { position: Some(Ok(("center", Some(Err(failure(12)))))), ..blank(1) };
    assert_eq!(build_background_layer(vec![bad_size], loc(99)).unwrap_err(), failure(12));
    let bad_image = Component { image: Some(Err(failure(3))), ..blank(1) };
    assert_eq!(build_background_layer(vec![bad_image], loc(99)).unwrap_err(), failure(3));
    assert_eq!(build_background_layer(Vec::<Component>::new(), loc(99)).unwrap_err(), failure(99));
}

#[test]
fn background_layer_second_image_falls_through_to_later_grammars() {
    let both = Component { image: Some(Ok("b.png")), color: Some(("blue", None)), ..blank(9) };
    let (layer, projection, _) = build_background_layer(vec![image(1, "a.png"), both], loc(99)).unwrap();
    assert_eq!(layer.image, Some("a.png"));
    assert_eq!(layer.color, Some("blue"));
    assert_eq!(projection, None);
}
