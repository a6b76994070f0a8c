use surgeist_css::{
    build_background_position, build_generic_position, contextual_legacy_components,
    horizontal_edge_offset, horizontal_keyword, invalid_atom_index, invalid_background_atom_index,
    is_horizontal_edge, is_vertical_edge, legacy_components, position_has_typed_calculation,
    vertical_edge_offset, vertical_keyword, CssCalcLength, CssHorizontalPosition,
    CssHorizontalPositionKeyword, CssLength, CssNumber, CssPosition, CssPositionComponent,
    CssPositionOffset, CssVerticalPosition, CssVerticalPositionKeyword, GenericPositionAtom,
};

use CssHorizontalPositionKeyword::{Left, Right};
use CssVerticalPositionKeyword::{Bottom, Top};

fn px(value: f32) -> CssLength {
    CssLength::Px(CssNumber::from_bits(value.to_bits()))
}

fn percent(value: f32) -> CssLength {
    CssLength::Percent(CssNumber::from_bits(value.to_bits()))
}

fn offset(length: CssLength) -> GenericPositionAtom {
    GenericPositionAtom::Offset(CssPositionOffset::new(length))
}

fn h(keyword: CssHorizontalPositionKeyword) -> GenericPositionAtom {
    GenericPositionAtom::Horizontal(keyword)
}

fn v(keyword: CssVerticalPositionKeyword) -> GenericPositionAtom {
    GenericPositionAtom::Vertical(keyword)
}

fn number_of(length: &CssLength) -> f32 {
    match length {
        CssLength::Px(n) | CssLength::Percent(n) => f32::from_bits(n.to_bits()),
        _ => panic!("not a simple length"),
    }
}

#[test]
fn generic_position_model_distinguishes_omitted_and_free_offset_axes() {
    check_free_offsets_read_horizontal_then_vertical();
    let (top, legacy) = build_generic_position(&[v(Top)]).expect("top");
    assert_eq!(top.horizontal(), &CssHorizontalPosition::Center);
    assert_eq!(top.vertical(), &CssVerticalPosition::Top);
    assert_eq!(legacy.components(), &[CssPositionComponent::Vertical(Top)]);

    let (center, legacy) = build_generic_position(&[GenericPositionAtom::Center]).expect("center");
    assert_eq!(center.horizontal(), &CssHorizontalPosition::Center);
    assert_eq!(center.vertical(), &CssVerticalPosition::Center);
    assert_eq!(
        legacy.components(),
        &[CssPositionComponent::Horizontal(CssHorizontalPositionKeyword::Center)]
    );
}

fn check_free_offsets_read_horizontal_then_vertical() {
    let (free, legacy) = build_generic_position(&[offset(percent(25.0)), offset(px(10.0))]).expect("free");
    match free.horizontal() {
        CssHorizontalPosition::Offset(o) => {
            assert!(matches!(o.value(), CssLength::Percent(_)));
            assert_eq!(number_of(o.value()), 25.0);
        }
        other => panic!("unexpected horizontal {other:?}"),
    }
    match free.vertical() {
        CssVerticalPosition::Offset(o) => {
            assert!(matches!(o.value(), CssLength::Px(_)));
            assert_eq!(number_of(o.value()), 10.0);
        }
        other => panic!("unexpected vertical {other:?}"),
    }
    assert_eq!(legacy.components().len(), 2);
}

#[test]
fn generic_position_model_retains_each_edge_offset_origin_and_pair_order() {
    check_typed_calculations_stay_in_edge_offsets();
    let forward = [h(Left), offset(px(10.0)), v(Bottom), offset(percent(20.0))];
    let backward = [v(Bottom), offset(percent(20.0)), h(Left), offset(px(10.0))];
    for atoms in [&forward[..], &backward[..]] {
        let (position, legacy) = build_generic_position(atoms).expect("edge offsets");
        match position.horizontal() {
            CssHorizontalPosition::LeftOffset(o) => assert_eq!(number_of(o.value()), 10.0),
            other => panic!("unexpected horizontal {other:?}"),
        }
        match position.vertical() {
            CssVerticalPosition::BottomOffset(o) => assert_eq!(number_of(o.value()), 20.0),
            other => panic!("unexpected vertical {other:?}"),
        }
        assert_eq!(legacy.components().len(), 4);
    }
    let (forward_position, forward_legacy) = build_generic_position(&forward).unwrap();
    let (backward_position, backward_legacy) = build_generic_position(&backward).unwrap();
    assert_eq!(forward_position, backward_position);
    assert_ne!(forward_legacy, backward_legacy);
    assert_eq!(forward_legacy.components()[0], CssPositionComponent::Horizontal(Left));
    assert_eq!(backward_legacy.components()[0], CssPositionComponent::Vertical(Bottom));
}

fn check_typed_calculations_stay_in_edge_offsets() {
    let typed = CssLength::Calc(CssCalcLength::Typed("calc(1px * 2)".to_string()));
    let legacy_calc = CssLength::Calc(CssCalcLength::Legacy("calc(10% + 2px)".to_string()));
    let atoms = [h(Right), offset(typed), v(Top), offset(legacy_calc)];
    let (position, legacy) = build_generic_position(&atoms).expect("calc offsets");
    match position.horizontal() {
        CssHorizontalPosition::RightOffset(o) => {
            assert!(matches!(o.value(), CssLength::Calc(CssCalcLength::Typed(_))))
        }
        other => panic!("unexpected horizontal {other:?}"),
    }
    assert!(matches!(position.vertical(), CssVerticalPosition::TopOffset(o) if matches!(o.value(), CssLength::Calc(_))));
    assert!(position_has_typed_calculation(&legacy));
    let background = build_background_position(&atoms).expect("background");
    assert!(background.legacy().is_none());
}

#[test]
fn rejected_atom_sequences() {
    assert!(build_generic_position(&[]).is_none());
    assert!(build_generic_position(&[h(Left), h(Right)]).is_none());
    assert!(build_generic_position(&[v(Top), v(Bottom)]).is_none());
    assert!(build_generic_position(&[offset(px(1.0)), h(Left)]).is_none());
    assert!(build_generic_position(&[v(Top), offset(px(1.0))]).is_none());
    assert!(build_generic_position(&[h(Left), offset(px(1.0)), v(Top)]).is_none());
    assert!(build_generic_position(&[
        h(CssHorizontalPositionKeyword::Center),
        offset(px(1.0)),
        v(Top),
        offset(px(2.0))
    ])
    .is_none());
    assert!(build_generic_position(&[h(Left), offset(px(1.0)), h(Right), offset(px(2.0))]).is_none());
}

#[test]
fn invalid_atom_index_points_at_the_responsible_atom() {
    assert_eq!(invalid_atom_index(&[h(Left)]), 0);
    assert_eq!(invalid_atom_index(&[h(Left), h(Right)]), 1);
    assert_eq!(invalid_atom_index(&[h(Left), offset(px(1.0)), v(Top)]), 2);
    assert_eq!(invalid_atom_index(&[h(Left), v(Top), offset(px(1.0)), v(Top)]), 2);
    assert_eq!(invalid_atom_index(&[offset(px(1.0)), h(Left), v(Top), offset(px(1.0))]), 0);
    assert_eq!(invalid_atom_index(&[h(Left), h(Left), v(Top), offset(px(1.0))]), 1);
    assert_eq!(invalid_atom_index(&[v(Top), offset(px(1.0)), GenericPositionAtom::Center, offset(px(1.0))]), 2);
    assert_eq!(invalid_atom_index(&[h(Left), offset(px(1.0)), v(Top), v(Top)]), 2);
    assert_eq!(invalid_atom_index(&[v(Top), offset(px(1.0)), h(Left), h(Left)]), 3);
    assert_eq!(invalid_atom_index(&[h(Left), offset(px(1.0)), h(Right), offset(px(2.0))]), 2);
    assert_eq!(invalid_atom_index(&[]), 0);
}

#[test]
fn background_accepts_three_atom_edge_offsets() {
    let atoms = [h(Left), offset(px(10.0)), GenericPositionAtom::Center];
    let background = build_background_position(&atoms).expect("three atoms");
    assert!(matches!(background.horizontal(), CssHorizontalPosition::LeftOffset(_)));
    assert_eq!(background.vertical(), &CssVerticalPosition::Center);
    let legacy = background.legacy().expect("legacy");
    assert_eq!(
        legacy.components()[2],
        CssPositionComponent::Vertical(CssVerticalPositionKeyword::Center)
    );

    let atoms = [GenericPositionAtom::Center, v(Bottom), offset(px(3.0))];
    let background = build_background_position(&atoms).expect("center first");
    assert_eq!(background.horizontal(), &CssHorizontalPosition::Center);
    assert!(matches!(background.vertical(), CssVerticalPosition::BottomOffset(_)));
    assert_eq!(
        background.legacy().unwrap().components()[0],
        CssPositionComponent::Horizontal(CssHorizontalPositionKeyword::Center)
    );

    assert!(build_generic_position(&atoms).is_none());
    assert!(build_background_position(&[h(Left), h(Right), offset(px(1.0))]).is_none());
}

#[test]
fn background_accepts_every_generic_position() {
    let samples: Vec<Vec<GenericPositionAtom>> = vec![
        vec![h(Left)],
        vec![v(Top), h(Right)],
        vec![offset(px(1.0)), GenericPositionAtom::Center],
        vec![h(Left), offset(px(1.0)), v(Bottom), offset(px(2.0))],
    ];
    for atoms in samples {
        let (generic, legacy) = build_generic_position(&atoms).expect("generic");
        let background = build_background_position(&atoms).expect("background");
        assert_eq!(background.horizontal(), generic.horizontal());
        assert_eq!(background.vertical(), generic.vertical());
        assert_eq!(background.legacy(), Some(&legacy));
    }
}

#[test]
fn invalid_background_atom_index_prefers_the_fourth_atom() {
    let atoms = [h(Left), offset(px(1.0)), GenericPositionAtom::Center, v(Top)];
    assert_eq!(invalid_background_atom_index(&atoms), 3);
    let atoms = [h(Left), h(Left), v(Top), offset(px(1.0))];
    assert_eq!(invalid_background_atom_index(&atoms), 1);
}

#[test]
fn legacy_component_lists() {
    let atoms = [h(Left), GenericPositionAtom::Center];
    assert_eq!(
        contextual_legacy_components(&atoms),
        vec![
            CssPositionComponent::Horizontal(Left),
            CssPositionComponent::Vertical(CssVerticalPositionKeyword::Center)
        ]
    );
    assert_eq!(
        legacy_components(&atoms),
        vec![
            CssPositionComponent::Horizontal(Left),
            CssPositionComponent::Horizontal(CssHorizontalPositionKeyword::Center)
        ]
    );
    let atoms = [GenericPositionAtom::Center, v(Top)];
    assert_eq!(
        contextual_legacy_components(&atoms)[0],
        CssPositionComponent::Horizontal(CssHorizontalPositionKeyword::Center)
    );
    assert!(!position_has_typed_calculation(&CssPosition::new(legacy_components(&atoms))));
}

#[test]
fn keyword_helpers() {
    assert_eq!(horizontal_keyword(Left), CssHorizontalPosition::Left);
    assert_eq!(vertical_keyword(Bottom), CssVerticalPosition::Bottom);
    assert!(is_horizontal_edge(Right));
    assert!(!is_horizontal_edge(CssHorizontalPositionKeyword::Center));
    assert!(is_vertical_edge(Top));
    assert!(!is_vertical_edge(CssVerticalPositionKeyword::Center));
    let o = CssPositionOffset::new(px(4.0));
    assert!(matches!(horizontal_edge_offset(Right, o.clone()), CssHorizontalPosition::RightOffset(_)));
    assert_eq!(
        horizontal_edge_offset(CssHorizontalPositionKeyword::Center, o.clone()),
        CssHorizontalPosition::Center
    );
    assert!(matches!(vertical_edge_offset(Top, o), CssVerticalPosition::TopOffset(_)));
}
