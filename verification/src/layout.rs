//! Grid layout: subdividing the display into per-cell geometry.
//!
//! The display is split into `horizontal` columns and `vertical` rows.
//! Every cell has the same size, `display_w / horizontal` by
//! `display_h / vertical` with integer (floor) division; when the display
//! dimensions are not evenly divisible, the leftover pixels on the right
//! and bottom edges are deliberately unused, not stretched over.

use vstd::prelude::*;

verus! {

/// One grid cell's placement on the display, in pixels.
#[derive(Clone, Copy, Debug, PartialEq, Eq, Structural)]
pub struct CellGeometry {
    pub x: usize,
    pub y: usize,
    pub width: usize,
    pub height: usize,
}

/// The grid's dimensions: `horizontal` columns by `vertical` rows.
#[derive(Clone, Copy, Debug, PartialEq, Eq, Structural)]
pub struct GridLayout {
    pub horizontal: usize,
    pub vertical: usize,
}

impl GridLayout {
    /// A grid is usable only when both counts are at least one (otherwise
    /// the cell size would divide by zero) and the cell count fits in a
    /// machine word.  Anything else is rejected as a configuration error
    /// before layout runs.
    pub open spec fn valid(self) -> bool {
        &&& 1 <= self.horizontal
        &&& 1 <= self.vertical
        &&& self.horizontal * self.vertical <= usize::MAX
    }

    /// Number of cells available to sources.
    pub open spec fn cell_count(self) -> int {
        self.horizontal * self.vertical
    }

    /// Checks `valid` at run time, so callers holding configuration input
    /// can reject bad grids before asking for a layout.
    pub fn check_valid(&self) -> (ok: bool)
        ensures
            ok == self.valid(),
    {
        if self.horizontal < 1 || self.vertical < 1 {
            return false;
        }
        match self.horizontal.checked_mul(self.vertical) {
            Some(_) => true,
            None => false,
        }
    }
}

/// Width of every cell: floor of the display width over the column count.
pub open spec fn spec_cell_width(display_w: int, layout: GridLayout) -> int {
    display_w / layout.horizontal as int
}

/// Height of every cell: floor of the display height over the row count.
pub open spec fn spec_cell_height(display_h: int, layout: GridLayout) -> int {
    display_h / layout.vertical as int
}

/// Cell `n` (row-major, zero-based) sits at column `n % horizontal` and
/// row `n / horizontal`; every cell has the same size.
pub open spec fn spec_cell_x(n: int, display_w: int, layout: GridLayout) -> int {
    (n % layout.horizontal as int) * spec_cell_width(display_w, layout)
}

/// See `spec_cell_x`; the row index scales the cell height.
pub open spec fn spec_cell_y(n: int, display_h: int, layout: GridLayout) -> int {
    (n / layout.horizontal as int) * spec_cell_height(display_h, layout)
}

/// The geometry the layout engine owes for cell `n` of a valid grid.
pub open spec fn is_cell_geometry(
    c: CellGeometry,
    n: int,
    display_w: int,
    display_h: int,
    layout: GridLayout,
) -> bool {
    &&& c.x == spec_cell_x(n, display_w, layout)
    &&& c.y == spec_cell_y(n, display_h, layout)
    &&& c.width == spec_cell_width(display_w, layout)
    &&& c.height == spec_cell_height(display_h, layout)
}

/// Whether pixel `(px, py)` lies inside cell `c`.
pub open spec fn cell_contains(c: CellGeometry, px: int, py: int) -> bool {
    &&& c.x <= px < c.x + c.width
    &&& c.y <= py < c.y + c.height
}

/// Computes the geometry of every cell of a valid grid, row-major, along
/// with the common cell width and height.
///
/// Pure and deterministic: the result is fixed by the display size and the
/// grid dimensions alone.
pub fn compute_layout(display_w: usize, display_h: usize, layout: GridLayout) -> (r: (
    Vec<CellGeometry>,
    usize,
    usize,
))
    requires
        layout.valid(),
    ensures
        r.1 == spec_cell_width(display_w as int, layout),
        r.2 == spec_cell_height(display_h as int, layout),
        r.0@.len() == layout.cell_count(),
        forall|n: int|
            0 <= n < r.0@.len() ==> is_cell_geometry(
                r.0@[n],
                n,
                display_w as int,
                display_h as int,
                layout,
            ),
{
    let cell_w: usize = display_w / layout.horizontal;
    let cell_h: usize = display_h / layout.vertical;
    let count: usize = layout.horizontal * layout.vertical;
    let mut cells: Vec<CellGeometry> = Vec::new();
    let mut n: usize = 0;
    while n < count
        invariant
            layout.valid(),
            count == layout.cell_count(),
            cell_w == spec_cell_width(display_w as int, layout),
            cell_h == spec_cell_height(display_h as int, layout),
            n <= count,
            cells@.len() == n,
            forall|k: int|
                0 <= k < n ==> is_cell_geometry(
                    cells@[k],
                    k,
                    display_w as int,
                    display_h as int,
                    layout,
                ),
        decreases count - n,
    {
        let col: usize = n % layout.horizontal;
        let row: usize = n / layout.horizontal;
        proof {
            lemma_scaled_index_bounded(col as int, layout.horizontal as int, display_w as int);
            lemma_row_of_cell_bounded(n as int, layout);
            lemma_scaled_index_bounded(row as int, layout.vertical as int, display_h as int);
        }
        let x: usize = col * cell_w;
        let y: usize = row * cell_h;
        cells.push(CellGeometry { x, y, width: cell_w, height: cell_h });
        n = n + 1;
    }
    (cells, cell_w, cell_h)
}

/// For `i < d`, the product `i * (total / d)` stays at least one cell short
/// of `total`, so cell positions and the following cell both fit on the
/// display.
proof fn lemma_scaled_index_bounded(i: int, d: int, total: int)
    requires
        1 <= d,
        0 <= i < d,
        0 <= total,
    ensures
        i * (total / d) + total / d <= total,
        0 <= i * (total / d),
{
    let cell: int = total / d;
    vstd::arithmetic::div_mod::lemma_div_pos_is_pos(total, d);
    vstd::arithmetic::mul::lemma_mul_nonnegative(i, cell);
    vstd::arithmetic::mul::lemma_mul_inequality(i, d - 1, cell);
    vstd::arithmetic::mul::lemma_mul_is_distributive_sub_other_way(cell, d, 1);
    vstd::arithmetic::div_mod::lemma_fundamental_div_mod(total, d);
    vstd::arithmetic::div_mod::lemma_mod_division_less_than_divisor(total, d);
}

/// The row of cell `n` is below the row count whenever `n` is a valid
/// cell index of the grid.
proof fn lemma_row_of_cell_bounded(n: int, layout: GridLayout)
    requires
        layout.valid(),
        0 <= n < layout.cell_count(),
    ensures
        0 <= n / (layout.horizontal as int) < layout.vertical as int,
{
    let h: int = layout.horizontal as int;
    let v: int = layout.vertical as int;
    vstd::arithmetic::div_mod::lemma_div_pos_is_pos(n, h);
    assert(n / h < v) by {
        if n / h >= v {
            vstd::arithmetic::mul::lemma_mul_inequality(v, n / h, h);
            vstd::arithmetic::div_mod::lemma_fundamental_div_mod(n, h);
            vstd::arithmetic::div_mod::lemma_mod_division_less_than_divisor(n, h);
            vstd::arithmetic::mul::lemma_mul_is_commutative(v, h);
        }
    }
}

/// Every cell of a valid layout lies wholly on the display: the
/// remainder strips on the right and bottom edges are unused, never a
/// cell reaching past the display.
pub proof fn lemma_cell_within_display(n: int, display_w: int, display_h: int, layout: GridLayout)
    requires
        layout.valid(),
        0 <= display_w,
        0 <= display_h,
        0 <= n < layout.cell_count(),
    ensures
        0 <= spec_cell_x(n, display_w, layout),
        0 <= spec_cell_y(n, display_h, layout),
        spec_cell_x(n, display_w, layout) + spec_cell_width(display_w, layout) <= display_w,
        spec_cell_y(n, display_h, layout) + spec_cell_height(display_h, layout) <= display_h,
{
    let h: int = layout.horizontal as int;
    vstd::arithmetic::div_mod::lemma_mod_division_less_than_divisor(n, h);
    vstd::arithmetic::div_mod::lemma_div_pos_is_pos(n, h);
    lemma_scaled_index_bounded(n % h, h, display_w);
    lemma_row_of_cell_bounded(n, layout);
    lemma_scaled_index_bounded(n / h, layout.vertical as int, display_h);
}

/// The cell that pixel `(px, py)` falls in: its column is `px / cell_w`
/// and its row is `py / cell_h`.
pub open spec fn spec_cell_of_point(
    px: int,
    py: int,
    display_w: int,
    display_h: int,
    layout: GridLayout,
) -> int {
    (py / spec_cell_height(display_h, layout)) * layout.horizontal
        + px / spec_cell_width(display_w, layout)
}

/// The cells of a valid layout tile the used display area without
/// overlap: every pixel of the used area (the display minus the dropped
/// remainder strips on the right and bottom) lies in the cell that
/// `spec_cell_of_point` names, and in no other cell.
pub proof fn lemma_layout_tiles_without_overlap(
    display_w: int,
    display_h: int,
    layout: GridLayout,
    px: int,
    py: int,
)
    requires
        layout.valid(),
        0 <= display_w,
        0 <= display_h,
        0 < spec_cell_width(display_w, layout),
        0 < spec_cell_height(display_h, layout),
        0 <= px < layout.horizontal * spec_cell_width(display_w, layout),
        0 <= py < layout.vertical * spec_cell_height(display_h, layout),
    ensures
        ({
            let home: int = spec_cell_of_point(px, py, display_w, display_h, layout);
            &&& 0 <= home < layout.cell_count()
            &&& forall|c: CellGeometry|
                is_cell_geometry(c, home, display_w, display_h, layout) ==> cell_contains(
                    c,
                    px,
                    py,
                )
            &&& forall|n: int, c: CellGeometry|
                0 <= n < layout.cell_count() && n != home && is_cell_geometry(
                    c,
                    n,
                    display_w,
                    display_h,
                    layout,
                ) ==> !cell_contains(c, px, py)
        }),
{
    let h: int = layout.horizontal as int;
    let v: int = layout.vertical as int;
    let cw: int = spec_cell_width(display_w, layout);
    let ch: int = spec_cell_height(display_h, layout);
    let col: int = px / cw;
    let row: int = py / ch;
    let home: int = row * h + col;

    lemma_coordinate_in_scaled_slot(px, cw, h);
    lemma_coordinate_in_scaled_slot(py, ch, v);

    // `home` is a valid row-major index, and splits back into `row` and `col`.
    vstd::arithmetic::mul::lemma_mul_nonnegative(row, h);
    assert(home < v * h) by {
        vstd::arithmetic::mul::lemma_mul_inequality(row + 1, v, h);
        vstd::arithmetic::mul::lemma_mul_is_distributive_add_other_way(h, row, 1);
    }
    vstd::arithmetic::mul::lemma_mul_is_commutative(v, h);
    vstd::arithmetic::div_mod::lemma_fundamental_div_mod_converse(home, h, row, col);

    assert forall|n: int, c: CellGeometry|
        0 <= n < layout.cell_count() && n != home && is_cell_geometry(
            c,
            n,
            display_w,
            display_h,
            layout,
        ) implies !cell_contains(c, px, py) by {
        let ncol: int = n % h;
        let nrow: int = n / h;
        vstd::arithmetic::div_mod::lemma_mod_division_less_than_divisor(n, h);
        vstd::arithmetic::div_mod::lemma_div_pos_is_pos(n, h);
        if cell_contains(c, px, py) {
            // A containing cell's column and row must match the point's.
            lemma_unique_scaled_slot(px, cw, ncol, col);
            lemma_unique_scaled_slot(py, ch, nrow, row);
            vstd::arithmetic::div_mod::lemma_fundamental_div_mod(n, h);
            vstd::arithmetic::mul::lemma_mul_is_commutative(h, nrow);
        }
    }
}

/// A coordinate inside slot `i = p / size` lies in the half-open interval
/// `[i * size, i * size + size)`.
proof fn lemma_coordinate_in_scaled_slot(p: int, size: int, slots: int)
    requires
        0 < size,
        1 <= slots,
        0 <= p < slots * size,
    ensures
        0 <= p / size < slots,
        (p / size) * size <= p < (p / size) * size + size,
{
    vstd::arithmetic::div_mod::lemma_fundamental_div_mod(p, size);
    vstd::arithmetic::div_mod::lemma_mod_division_less_than_divisor(p, size);
    vstd::arithmetic::div_mod::lemma_div_pos_is_pos(p, size);
    vstd::arithmetic::mul::lemma_mul_is_commutative(p / size, size);
    assert(p / size < slots) by {
        if p / size >= slots {
            vstd::arithmetic::mul::lemma_mul_inequality(slots, p / size, size);
            vstd::arithmetic::mul::lemma_mul_is_commutative(slots, size);
        }
    }
}

/// If `p` lies in the interval of slot `i` and also in the interval of
/// slot `j`, the two slots are the same.
proof fn lemma_unique_scaled_slot(p: int, size: int, i: int, j: int)
    requires
        0 < size,
        0 <= i,
        0 <= j,
        i * size <= p < i * size + size,
        j * size <= p < j * size + size,
    ensures
        i == j,
{
    if i < j {
        vstd::arithmetic::mul::lemma_mul_inequality(i + 1, j, size);
        vstd::arithmetic::mul::lemma_mul_is_distributive_add_other_way(size, i, 1);
    }
    if j < i {
        vstd::arithmetic::mul::lemma_mul_inequality(j + 1, i, size);
        vstd::arithmetic::mul::lemma_mul_is_distributive_add_other_way(size, j, 1);
    }
}

} // verus!
