use surgeist_css::{
    unexpected_at, validate_grid_template_area_rectangles, CssGridTemplateAreaCell,
    CssGridTemplateAreaRow, CssSourceLocation,
};

fn location() -> CssSourceLocation {
    CssSourceLocation { line: 0, column: 20 }
}

fn row(spelling: &str) -> CssGridTemplateAreaRow {
    CssGridTemplateAreaRow::new(
        spelling
            .split_whitespace()
            .map(|token| {
                if token == "." {
                    CssGridTemplateAreaCell::Empty
                } else {
                    CssGridTemplateAreaCell::Named(token.to_string())
                }
            })
            .collect(),
    )
}

fn check(rows: &[&str]) -> bool {
    let rows: Vec<CssGridTemplateAreaRow> = rows.iter().map(|spelling| row(spelling)).collect();
    match validate_grid_template_area_rectangles(&rows, location()) {
        Ok(()) => true,
        Err(error) => {
            assert_eq!(error, unexpected_at(location()));
            false
        }
    }
}

#[test]
fn rectangular_areas_are_accepted() {
    assert!(check(&["head head", "nav main", "nav main"]));
    assert!(check(&["a a b", "a a b"]));
    assert!(check(&[". . ."]));
    assert!(check(&["a"]));
    assert!(check(&["a b c", "d e f"]));
}

#[test]
fn non_rectangular_areas_are_rejected() {
    assert!(!check(&["a b", "b a"]));
    assert!(!check(&["a . a"]));
    assert!(!check(&["a a", "a ."]));
    assert!(!check(&["a", ".", "a"]));
}

#[test]
fn grids_need_rows_of_one_width() {
    assert!(!check(&[]));
    assert!(!check(&["a a", "a"]));
    assert!(!check(&["a", "b b"]));
}

#[test]
fn rows_expose_their_cells() {
    let r = row("a . b");
    assert_eq!(r.cells().len(), 3);
    assert_eq!(r.cells()[1], CssGridTemplateAreaCell::Empty);
    assert_eq!(r.cells()[2], CssGridTemplateAreaCell::Named("b".to_string()));
}
