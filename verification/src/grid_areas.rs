//! The named grid areas of `grid-template-areas`: every named area must be a filled rectangle
//! of cells in a grid whose rows all have the same width.
use vstd::prelude::*;

use crate::diagnostics::{unsupported_value, CssParseError};
use crate::source::CssSourceLocation;
use crate::text::str_eq;

verus! {

/// One cell of a `grid-template-areas` row.
#[derive(Clone, Debug, PartialEq, Eq)]
pub enum CssGridTemplateAreaCell {
    /// A null cell token (one or more `.`).
    Empty,
    /// A cell of the named area.
    Named(String),
}

/// One `grid-template-areas` row: its cells in authored order.
#[derive(Clone, Debug, PartialEq, Eq)]
pub struct CssGridTemplateAreaRow {
    cells: Vec<CssGridTemplateAreaCell>,
}

impl View for CssGridTemplateAreaRow {
    type V = Seq<CssGridTemplateAreaCell>;

    closed spec fn view(&self) -> Seq<CssGridTemplateAreaCell> {
        self.cells@
    }
}

impl CssGridTemplateAreaRow {
    /// Creates the row of the given cells.
    pub fn new(cells: Vec<CssGridTemplateAreaCell>) -> (row: Self)
        ensures
            row@ == cells@,
    {
        CssGridTemplateAreaRow { cells }
    }

    /// Returns the cells in authored order.
    pub fn cells(&self) -> (cells: &[CssGridTemplateAreaCell])
        ensures
            cells@ == self@,
    {
        self.cells.as_slice()
    }
}

/// The grid of cells the rows spell, row by row.
pub open spec fn grid_of(rows: Seq<CssGridTemplateAreaRow>) -> Seq<Seq<CssGridTemplateAreaCell>> {
    rows.map_values(|row: CssGridTemplateAreaRow| row@)
}

/// Whether the cell at row `r` and column `c` exists and belongs to the area `name`.
pub open spec fn names_cell(grid: Seq<Seq<CssGridTemplateAreaCell>>, r: int, c: int, name: Seq<char>) -> bool {
    &&& 0 <= r < grid.len()
    &&& 0 <= c < grid[r].len()
    &&& grid[r][c] matches CssGridTemplateAreaCell::Named(n) && n@ == name
}

/// Whether the cells of the area `name` are exactly the rectangle of rows `r0..=r1` and columns
/// `c0..=c1`.
pub open spec fn is_rectangle_of(
    grid: Seq<Seq<CssGridTemplateAreaCell>>,
    name: Seq<char>,
    r0: int,
    r1: int,
    c0: int,
    c1: int,
) -> bool {
    forall|r: int, c: int| #[trigger] names_cell(grid, r, c, name) <==> (r0 <= r <= r1 && c0 <= c <= c1)
}

/// Whether the cells of the area `name` form one filled rectangle.
pub open spec fn area_is_rectangular(grid: Seq<Seq<CssGridTemplateAreaCell>>, name: Seq<char>) -> bool {
    exists|r0: int, r1: int, c0: int, c1: int| is_rectangle_of(grid, name, r0, r1, c0, c1)
}

/// Whether every row has `width` cells.
pub open spec fn rows_have_width(grid: Seq<Seq<CssGridTemplateAreaCell>>, width: int) -> bool {
    forall|r: int| 0 <= r < grid.len() ==> (#[trigger] grid[r]).len() == width
}

/// Whether the rows form a valid `grid-template-areas` grid: at least one row, rows of one
/// width, and every named area a filled rectangle.
pub open spec fn grid_areas_valid(grid: Seq<Seq<CssGridTemplateAreaCell>>) -> bool {
    &&& grid.len() > 0
    &&& rows_have_width(grid, grid[0].len() as int)
    &&& forall|r: int, c: int|
        0 <= r < grid.len() && 0 <= c < grid[r].len() && (#[trigger] grid[r][c]) is Named
            ==> area_is_rectangular(grid, grid[r][c]->Named_0@)
}

/// The bounding box `(r0, r1, c0, c1)` of the area `name` holds every cell of the area, and each
/// of its four edges holds a cell of the area.
pub open spec fn is_bounding_box(
    grid: Seq<Seq<CssGridTemplateAreaCell>>,
    name: Seq<char>,
    r0: int,
    r1: int,
    c0: int,
    c1: int,
) -> bool {
    &&& forall|r: int, c: int| #[trigger] names_cell(grid, r, c, name) ==> (r0 <= r <= r1 && c0 <= c <= c1)
    &&& exists|c: int| names_cell(grid, r0, c, name)
    &&& exists|c: int| names_cell(grid, r1, c, name)
    &&& exists|r: int| names_cell(grid, r, c0, name)
    &&& exists|r: int| names_cell(grid, r, c1, name)
}

/// Whether every cell of the box `(r0, r1, c0, c1)` belongs to the area `name`.
pub open spec fn box_filled(
    grid: Seq<Seq<CssGridTemplateAreaCell>>,
    name: Seq<char>,
    r0: int,
    r1: int,
    c0: int,
    c1: int,
) -> bool {
    forall|r: int, c: int| r0 <= r <= r1 && c0 <= c <= c1 ==> #[trigger] names_cell(grid, r, c, name)
}

/// An area is rectangular exactly when its bounding box is filled.
pub proof fn lemma_rectangular_iff_bounding_box_filled(
    grid: Seq<Seq<CssGridTemplateAreaCell>>,
    name: Seq<char>,
    r0: int,
    r1: int,
    c0: int,
    c1: int,
)
    requires
        is_bounding_box(grid, name, r0, r1, c0, c1),
    ensures
        area_is_rectangular(grid, name) == box_filled(grid, name, r0, r1, c0, c1),
{
    if box_filled(grid, name, r0, r1, c0, c1) {
        assert(is_rectangle_of(grid, name, r0, r1, c0, c1));
    }
    if area_is_rectangular(grid, name) {
        let (a0, a1, b0, b1) = choose|a0: int, a1: int, b0: int, b1: int| is_rectangle_of(grid, name, a0, a1, b0, b1);
        let top = choose|c: int| names_cell(grid, r0, c, name);
        let bottom = choose|c: int| names_cell(grid, r1, c, name);
        let left = choose|r: int| names_cell(grid, r, c0, name);
        let right = choose|r: int| names_cell(grid, r, c1, name);
        assert(names_cell(grid, r0, top, name));
        assert(names_cell(grid, r1, bottom, name));
        assert(names_cell(grid, left, c0, name));
        assert(names_cell(grid, right, c1, name));
        assert forall|r: int, c: int| r0 <= r <= r1 && c0 <= c <= c1 implies #[trigger] names_cell(grid, r, c, name) by {
            assert(a0 <= r <= a1 && b0 <= c <= b1);
        }
    }
}

/// Returns whether the cell at row `r` and column `c` belongs to the area `name`.
fn cell_names(rows: &[CssGridTemplateAreaRow], r: usize, c: usize, name: &str) -> (named: bool)
    requires
        r < rows@.len(),
        c < rows@[r as int]@.len(),
    ensures
        named == names_cell(grid_of(rows@), r as int, c as int, name@),
{
    match &rows[r].cells()[c] {
        CssGridTemplateAreaCell::Named(n) => str_eq(n.as_str(), name),
        CssGridTemplateAreaCell::Empty => false,
    }
}

/// Returns the bounding box `(r0, r1, c0, c1)` of the area `name`, which has a cell at row `r`
/// and column `c`.
fn area_bounds(rows: &[CssGridTemplateAreaRow], width: usize, name: &str, r: usize, c: usize) -> (bounds: (usize, usize, usize, usize))
    requires
        rows_have_width(grid_of(rows@), width as int),
        names_cell(grid_of(rows@), r as int, c as int, name@),
    ensures
        is_bounding_box(grid_of(rows@), name@, bounds.0 as int, bounds.1 as int, bounds.2 as int, bounds.3 as int),
{
    let ghost grid = grid_of(rows@);
    let mut r0 = r;
    let mut r1 = r;
    let mut c0 = c;
    let mut c1 = c;
    let mut i: usize = 0;
    while i < rows.len()
        invariant
            grid == grid_of(rows@),
            rows_have_width(grid, width as int),
            0 <= i <= rows@.len(),
            forall|x: int, y: int| 0 <= x < i && #[trigger] names_cell(grid, x, y, name@) ==> (r0 <= x <= r1 && c0 <= y <= c1),
            names_cell(grid, r as int, c as int, name@),
            r0 <= r <= r1,
            c0 <= c <= c1,
            exists|y: int| names_cell(grid, r0 as int, y, name@),
            exists|y: int| names_cell(grid, r1 as int, y, name@),
            exists|x: int| names_cell(grid, x, c0 as int, name@),
            exists|x: int| names_cell(grid, x, c1 as int, name@),
        decreases rows@.len() - i,
    {
        assert(grid[i as int].len() == width);
        let mut j: usize = 0;
        while j < width
            invariant
                grid == grid_of(rows@),
                rows_have_width(grid, width as int),
                0 <= i < rows@.len(),
                grid[i as int].len() == width,
                0 <= j <= width,
                forall|x: int, y: int| 0 <= x < i && #[trigger] names_cell(grid, x, y, name@) ==> (r0 <= x <= r1 && c0 <= y <= c1),
                forall|y: int| 0 <= y < j && #[trigger] names_cell(grid, i as int, y, name@) ==> (r0 <= i <= r1 && c0 <= y <= c1),
                names_cell(grid, r as int, c as int, name@),
                r0 <= r <= r1,
                c0 <= c <= c1,
                exists|y: int| names_cell(grid, r0 as int, y, name@),
                exists|y: int| names_cell(grid, r1 as int, y, name@),
                exists|x: int| names_cell(grid, x, c0 as int, name@),
                exists|x: int| names_cell(grid, x, c1 as int, name@),
            decreases width - j,
        {
            if cell_names(rows, i, j, name) {
                if i < r0 {
                    r0 = i;
                }
                if i > r1 {
                    r1 = i;
                }
                if j < c0 {
                    c0 = j;
                }
                if j > c1 {
                    c1 = j;
                }
            }
            j = j + 1;
        }
        i = i + 1;
    }
    (r0, r1, c0, c1)
}

/// Returns whether every cell of the box `(r0, r1, c0, c1)` belongs to the area `name`.
fn bounds_filled(rows: &[CssGridTemplateAreaRow], width: usize, name: &str, bounds: (usize, usize, usize, usize)) -> (filled: bool)
    requires
        rows_have_width(grid_of(rows@), width as int),
        bounds.0 <= bounds.1 < rows@.len(),
        bounds.2 <= bounds.3 < width,
    ensures
        filled == box_filled(grid_of(rows@), name@, bounds.0 as int, bounds.1 as int, bounds.2 as int, bounds.3 as int),
{
    let ghost grid = grid_of(rows@);
    let (r0, r1, c0, c1) = bounds;
    let height = rows.len();
    let mut i: usize = r0;
    while i <= r1
        invariant
            height == rows@.len(),
            bounds == (r0, r1, c0, c1),
            grid == grid_of(rows@),
            rows_have_width(grid, width as int),
            r0 <= i <= r1 + 1,
            r1 < rows@.len(),
            c0 <= c1 < width,
            forall|x: int, y: int| r0 <= x < i && c0 <= y <= c1 ==> #[trigger] names_cell(grid, x, y, name@),
        decreases r1 + 1 - i,
    {
        assert(grid[i as int].len() == width);
        let mut j: usize = c0;
        while j <= c1
            invariant
                grid == grid_of(rows@),
                bounds == (r0, r1, c0, c1),
                rows_have_width(grid, width as int),
                r0 <= i <= r1,
                r1 < rows@.len(),
                c0 <= j <= c1 + 1,
                c1 < width,
                grid[i as int].len() == width,
                forall|x: int, y: int| r0 <= x < i && c0 <= y <= c1 ==> #[trigger] names_cell(grid, x, y, name@),
                forall|y: int| c0 <= y < j ==> #[trigger] names_cell(grid, i as int, y, name@),
            decreases c1 + 1 - j,
        {
            if !cell_names(rows, i, j, name) {
                proof {
                    assert(!names_cell(grid, i as int, j as int, name@));
                }
                return false;
            }
            j = j + 1;
        }
        i = i + 1;
    }
    true
}

/// Returns `Ok` when the rows form a valid `grid-template-areas` grid: at least one row, every
/// row as wide as the first, and every named area a filled rectangle; otherwise the
/// unsupported-value diagnostic at `location`.
pub fn validate_grid_template_area_rectangles(rows: &[CssGridTemplateAreaRow], location: CssSourceLocation) -> (checked: Result<(), CssParseError>)
    ensures
        checked is Ok <==> grid_areas_valid(grid_of(rows@)),
        checked matches Err(e) ==> e == crate::diagnostics::custom_error_at(
            location,
            crate::error::ErrorKind::UnexpectedEnd(
                crate::error::CssUnexpectedEndError::new(crate::error::expect_declaration_value()),
            ),
        ),
{
    let ghost grid = grid_of(rows@);
    if rows.len() == 0 {
        return Err(unsupported_value(location, None, "grid-template-areas is missing rows"));
    }
    let width = rows[0].cells().len();
    let mut k: usize = 0;
    while k < rows.len()
        invariant
            grid == grid_of(rows@),
            rows@.len() > 0,
            width == grid[0].len(),
            0 <= k <= rows@.len(),
            forall|x: int| 0 <= x < k ==> (#[trigger] grid[x]).len() == width,
        decreases rows@.len() - k,
    {
        if rows[k].cells().len() != width {
            proof {
                assert(grid[k as int].len() != width);
            }
            return Err(unsupported_value(location, None, "grid-template-areas rows have inconsistent widths"));
        }
        k = k + 1;
    }
    assert(rows_have_width(grid, width as int));
    let mut i: usize = 0;
    while i < rows.len()
        invariant
            grid == grid_of(rows@),
            rows@.len() > 0,
            width == grid[0].len(),
            rows_have_width(grid, width as int),
            0 <= i <= rows@.len(),
            forall|x: int, y: int|
                0 <= x < i && 0 <= y < grid[x].len() && (#[trigger] grid[x][y]) is Named
                    ==> area_is_rectangular(grid, grid[x][y]->Named_0@),
        decreases rows@.len() - i,
    {
        assert(grid[i as int].len() == width);
        let mut j: usize = 0;
        while j < width
            invariant
                grid == grid_of(rows@),
                rows@.len() > 0,
                width == grid[0].len(),
                rows_have_width(grid, width as int),
                0 <= i < rows@.len(),
                grid[i as int].len() == width,
                0 <= j <= width,
                forall|x: int, y: int|
                    0 <= x < i && 0 <= y < grid[x].len() && (#[trigger] grid[x][y]) is Named
                        ==> area_is_rectangular(grid, grid[x][y]->Named_0@),
                forall|y: int|
                    0 <= y < j && (#[trigger] grid[i as int][y]) is Named
                        ==> area_is_rectangular(grid, grid[i as int][y]->Named_0@),
            decreases width - j,
        {
            if let CssGridTemplateAreaCell::Named(name) = &rows[i].cells()[j] {
                let name = name.as_str();
                proof {
                    assert(names_cell(grid, i as int, j as int, name@));
                }
                let bounds = area_bounds(rows, width, name, i, j);
                proof {
                    let top = choose|y: int| names_cell(grid, bounds.0 as int, y, name@);
                    let bottom = choose|y: int| names_cell(grid, bounds.1 as int, y, name@);
                    let left = choose|x: int| names_cell(grid, x, bounds.2 as int, name@);
                    let right = choose|x: int| names_cell(grid, x, bounds.3 as int, name@);
                    assert(names_cell(grid, bounds.0 as int, top, name@));
                    assert(names_cell(grid, bounds.1 as int, bottom, name@));
                    assert(names_cell(grid, left, bounds.2 as int, name@));
                    assert(names_cell(grid, right, bounds.3 as int, name@));
                    assert(grid[right].len() == width);
                    lemma_rectangular_iff_bounding_box_filled(
                        grid,
                        name@,
                        bounds.0 as int,
                        bounds.1 as int,
                        bounds.2 as int,
                        bounds.3 as int,
                    );
                }
                if !bounds_filled(rows, width, name, bounds) {
                    proof {
                        assert(grid[i as int][j as int] is Named);
                    }
                    return Err(unsupported_value(location, None, "grid template area is not rectangular"));
                }
            }
            j = j + 1;
        }
        i = i + 1;
    }
    Ok(())
}

} // verus!
