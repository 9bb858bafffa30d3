//! How a single grain moves in one pass.
//!
//! The pass reaches every cell once. A grain is moved by the rule when the
//! pass reaches the cell it started in, on the grid as the cells reached
//! before have left it, and is not moved again in that pass. Its `landing`
//! is therefore a function of the grid before the pass and of its cell.

use vstd::prelude::*;
use crate::grid::{Cell, HEIGHT, WIDTH, in_bounds, well_formed};
use crate::physics::{
    destination, fall_cell, fall_row, fall_rows, lemma_destination, lemma_fall_row_well_formed,
    lemma_fall_rows_well_formed, step,
};

verus! {

/// The grid as the pass finds it on reaching the cell `(r, c)`: the rows
/// below `r` and the cells of row `r` to the left of `c` have had their turn.
pub open spec fn grid_before(g: Seq<Seq<Cell>>, r: int, c: int) -> Seq<Seq<Cell>> {
    fall_row(fall_rows(g, r + 1), r, c)
}

/// The cell in which a grain that starts the pass at `(r, c)` ends it. A
/// grain in the last row has nowhere to fall.
pub open spec fn landing(g: Seq<Seq<Cell>>, r: int, c: int) -> (int, int) {
    if r < HEIGHT - 1 {
        destination(grid_before(g, r, c), r, c)
    } else {
        (r, c)
    }
}

/// `(r1, c1)` has its turn before `(r2, c2)`: it lies in a lower row, or in
/// the same row further left.
pub open spec fn visited_before(r1: int, c1: int, r2: int, c2: int) -> bool {
    r1 > r2 || (r1 == r2 && c1 < c2)
}

/// What the rule applied to `(r, c)` does to a cell `(i, j)`: a grain
/// arrives at the destination, the cell it left is empty, and every other
/// cell is as before; in particular sand elsewhere stays sand.
pub proof fn lemma_fall_cell_effect(g: Seq<Seq<Cell>>, r: int, c: int, i: int, j: int)
    requires
        well_formed(g),
        in_bounds(r, c),
        r < HEIGHT - 1,
        in_bounds(i, j),
    ensures
        ({
            let d = destination(g, r, c);
            let h = fall_cell(g, r, c);
            &&& (i, j) != (r, c) && (i, j) != d ==> h[i][j] == g[i][j]
            &&& g[r][c] == Cell::Empty ==> h[i][j] == g[i][j]
            &&& g[r][c] == Cell::Sand ==> h[d.0][d.1] == Cell::Sand
            &&& g[r][c] == Cell::Sand && d != (r, c) ==> h[r][c] == Cell::Empty
            &&& g[i][j] == Cell::Sand && (i, j) != (r, c) ==> h[i][j] == Cell::Sand
            &&& g[i][j] == Cell::Empty && i != r + 1 ==> h[i][j] == Cell::Empty
        }),
{
    lemma_destination(g, r, c);
}

/// What the rule applied to the first `n` cells of row `r` leaves alone:
/// every row but `r` and `r + 1`, the cells of row `r` from column `n` on,
/// the cells of row `r + 1` beyond column `n`, sand that is not among the
/// cells visited, and empty cells outside row `r + 1`.
pub proof fn lemma_fall_row_effect(g: Seq<Seq<Cell>>, r: int, n: int, i: int, j: int)
    requires
        well_formed(g),
        0 <= r < HEIGHT - 1,
        0 <= n <= WIDTH,
        in_bounds(i, j),
    ensures
        ({
            let h = fall_row(g, r, n);
            &&& i != r && i != r + 1 ==> h[i][j] == g[i][j]
            &&& i == r && j >= n ==> h[i][j] == g[i][j]
            &&& i == r + 1 && j > n ==> h[i][j] == g[i][j]
            &&& g[i][j] == Cell::Sand && !(i == r && j < n) ==> h[i][j] == Cell::Sand
            &&& g[i][j] == Cell::Empty && i != r + 1 ==> h[i][j] == Cell::Empty
        }),
    decreases n,
{
    if n > 0 {
        lemma_fall_row_effect(g, r, n - 1, i, j);
        lemma_fall_row_well_formed(g, r, n - 1);
        lemma_fall_cell_effect(fall_row(g, r, n - 1), r, n - 1, i, j);
        lemma_destination(fall_row(g, r, n - 1), r, n - 1);
    }
}

/// What the rule applied to the rows from `r` down leaves alone: the rows
/// above `r`, sand in the last row, and empty cells of row `r`.
pub proof fn lemma_fall_rows_effect(g: Seq<Seq<Cell>>, r: int, i: int, j: int)
    requires
        well_formed(g),
        0 <= r <= HEIGHT - 1,
        in_bounds(i, j),
    ensures
        ({
            let h = fall_rows(g, r);
            &&& i < r ==> h[i][j] == g[i][j]
            &&& g[i][j] == Cell::Sand && i == HEIGHT - 1 ==> h[i][j] == Cell::Sand
            &&& g[i][j] == Cell::Empty && i <= r ==> h[i][j] == Cell::Empty
        }),
    decreases HEIGHT - r,
{
    if r < HEIGHT - 1 {
        lemma_fall_rows_effect(g, r + 1, i, j);
        lemma_fall_rows_well_formed(g, r + 1);
        lemma_fall_row_effect(fall_rows(g, r + 1), r, WIDTH as int, i, j);
    }
}

/// Sand at `(i, j)` after the first `n0` cells of row `r` have had their
/// turn is still there after the first `n1`, unless `(i, j)` is one of the
/// cells visited in between.
pub proof fn lemma_sand_persists_in_row(
    g: Seq<Seq<Cell>>,
    r: int,
    n0: int,
    n1: int,
    i: int,
    j: int,
)
    requires
        well_formed(g),
        0 <= r < HEIGHT - 1,
        0 <= n0 <= n1 <= WIDTH,
        in_bounds(i, j),
        !(i == r && n0 <= j),
        fall_row(g, r, n0)[i][j] == Cell::Sand,
    ensures
        fall_row(g, r, n1)[i][j] == Cell::Sand,
    decreases n1 - n0,
{
    if n0 < n1 {
        lemma_sand_persists_in_row(g, r, n0, n1 - 1, i, j);
        lemma_fall_row_well_formed(g, r, n1 - 1);
        lemma_fall_cell_effect(fall_row(g, r, n1 - 1), r, n1 - 1, i, j);
    }
}

/// Sand at `(i, j)` after the rows from `r0` down have had their turn is
/// still there after the rows from `r1` down, if `(i, j)` lies in none of the
/// rows visited in between.
pub proof fn lemma_sand_persists_in_rows(g: Seq<Seq<Cell>>, r0: int, r1: int, i: int, j: int)
    requires
        well_formed(g),
        0 <= r1 <= r0 <= HEIGHT - 1,
        in_bounds(i, j),
        r0 <= i,
        fall_rows(g, r0)[i][j] == Cell::Sand,
    ensures
        fall_rows(g, r1)[i][j] == Cell::Sand,
    decreases r0 - r1,
{
    if r1 < r0 {
        lemma_sand_persists_in_rows(g, r0, r1 + 1, i, j);
        lemma_fall_rows_well_formed(g, r1 + 1);
        lemma_fall_row_effect(fall_rows(g, r1 + 1), r1, WIDTH as int, i, j);
    }
}

/// When the pass reaches a cell, that cell is as it was before the pass.
pub proof fn lemma_untouched_until_visited(g: Seq<Seq<Cell>>, r: int, c: int)
    requires
        well_formed(g),
        in_bounds(r, c),
        r < HEIGHT - 1,
    ensures
        well_formed(grid_before(g, r, c)),
        grid_before(g, r, c)[r][c] == g[r][c],
{
    lemma_fall_rows_well_formed(g, r + 1);
    lemma_fall_rows_effect(g, r + 1, r, c);
    lemma_fall_row_well_formed(fall_rows(g, r + 1), r, c);
    lemma_fall_row_effect(fall_rows(g, r + 1), r, c, r, c);
}

/// Displacement bound: a grain ends the pass in its own row or in the next,
/// at most one column to either side, and its landing holds sand after the
/// pass.
pub proof fn lemma_grain_lands(g: Seq<Seq<Cell>>, r: int, c: int)
    requires
        well_formed(g),
        in_bounds(r, c),
        g[r][c] == Cell::Sand,
    ensures
        ({
            let d = landing(g, r, c);
            &&& in_bounds(d.0, d.1)
            &&& r <= d.0 <= r + 1
            &&& c - 1 <= d.1 <= c + 1
            &&& step(g)[d.0][d.1] == Cell::Sand
        }),
{
    if r < HEIGHT - 1 {
        let below = fall_rows(g, r + 1);
        let found = grid_before(g, r, c);
        let d = landing(g, r, c);
        lemma_untouched_until_visited(g, r, c);
        lemma_destination(found, r, c);
        lemma_fall_cell_effect(found, r, c, d.0, d.1);
        assert(fall_row(below, r, c + 1)[d.0][d.1] == Cell::Sand);
        lemma_fall_rows_well_formed(g, r + 1);
        lemma_sand_persists_in_row(below, r, c + 1, WIDTH as int, d.0, d.1);
        assert(fall_rows(g, r)[d.0][d.1] == Cell::Sand);
        lemma_sand_persists_in_rows(g, r, 0, d.0, d.1);
    } else {
        lemma_fall_rows_effect(g, 0, r, c);
    }
}

/// The landing of a grain holds sand from the moment the grain has had its
/// turn: the pass finds sand there on reaching any later cell.
pub proof fn lemma_landing_is_taken(g: Seq<Seq<Cell>>, r1: int, c1: int, r2: int, c2: int)
    requires
        well_formed(g),
        in_bounds(r1, c1),
        in_bounds(r2, c2),
        r2 < HEIGHT - 1,
        g[r1][c1] == Cell::Sand,
        visited_before(r1, c1, r2, c2),
    ensures
        ({
            let d = landing(g, r1, c1);
            grid_before(g, r2, c2)[d.0][d.1] == Cell::Sand
        }),
{
    let d = landing(g, r1, c1);
    let below2 = fall_rows(g, r2 + 1);
    lemma_fall_rows_well_formed(g, r2 + 1);
    if r1 == r2 {
        let found = grid_before(g, r1, c1);
        lemma_untouched_until_visited(g, r1, c1);
        lemma_destination(found, r1, c1);
        lemma_fall_cell_effect(found, r1, c1, d.0, d.1);
        assert(fall_row(below2, r1, c1 + 1)[d.0][d.1] == Cell::Sand);
        lemma_sand_persists_in_row(below2, r1, c1 + 1, c2, d.0, d.1);
    } else {
        if r1 < HEIGHT - 1 {
            let below1 = fall_rows(g, r1 + 1);
            let found = grid_before(g, r1, c1);
            lemma_untouched_until_visited(g, r1, c1);
            lemma_destination(found, r1, c1);
            lemma_fall_cell_effect(found, r1, c1, d.0, d.1);
            assert(fall_row(below1, r1, c1 + 1)[d.0][d.1] == Cell::Sand);
            lemma_fall_rows_well_formed(g, r1 + 1);
            lemma_sand_persists_in_row(below1, r1, c1 + 1, WIDTH as int, d.0, d.1);
            assert(fall_rows(g, r1)[d.0][d.1] == Cell::Sand);
            lemma_sand_persists_in_rows(g, r1, r2 + 1, d.0, d.1);
        } else {
            lemma_fall_rows_effect(g, r2 + 1, r1, c1);
        }
        assert(below2[d.0][d.1] == Cell::Sand);
        assert(fall_row(below2, r2, 0) == below2);
        lemma_sand_persists_in_row(below2, r2, 0, c2, d.0, d.1);
    }
}

/// No two grains end the pass in the same cell.
pub proof fn lemma_landings_differ(g: Seq<Seq<Cell>>, r1: int, c1: int, r2: int, c2: int)
    requires
        well_formed(g),
        in_bounds(r1, c1),
        in_bounds(r2, c2),
        g[r1][c1] == Cell::Sand,
        g[r2][c2] == Cell::Sand,
        (r1, c1) != (r2, c2),
    ensures
        landing(g, r1, c1) != landing(g, r2, c2),
{
    if visited_before(r1, c1, r2, c2) {
        lemma_later_landing_differs(g, r1, c1, r2, c2);
    } else {
        lemma_later_landing_differs(g, r2, c2, r1, c1);
    }
}

/// A grain does not end the pass where a grain visited before it has landed.
proof fn lemma_later_landing_differs(g: Seq<Seq<Cell>>, r1: int, c1: int, r2: int, c2: int)
    requires
        well_formed(g),
        in_bounds(r1, c1),
        in_bounds(r2, c2),
        g[r1][c1] == Cell::Sand,
        g[r2][c2] == Cell::Sand,
        visited_before(r1, c1, r2, c2),
    ensures
        landing(g, r1, c1) != landing(g, r2, c2),
{
    if r2 < HEIGHT - 1 {
        lemma_grain_lands(g, r1, c1);
        lemma_landing_is_taken(g, r1, c1, r2, c2);
        lemma_untouched_until_visited(g, r2, c2);
        lemma_destination(grid_before(g, r2, c2), r2, c2);
    }
}

/// Every sand cell after the pass is the landing of a grain: the result
/// names a cell that held sand before the pass and whose grain landed at
/// `(i, j)`. It lies in the same row or in the row above, at most one column
/// to either side.
pub proof fn lemma_sand_has_origin(g: Seq<Seq<Cell>>, i: int, j: int) -> (p: (int, int))
    requires
        well_formed(g),
        in_bounds(i, j),
        step(g)[i][j] == Cell::Sand,
    ensures
        in_bounds(p.0, p.1),
        g[p.0][p.1] == Cell::Sand,
        landing(g, p.0, p.1) == (i, j),
        i - 1 <= p.0 <= i,
        j - 1 <= p.1 <= j + 1,
{
    lemma_fall_rows_well_formed(g, 1);
    assert(fall_row(fall_rows(g, 1), 0, WIDTH as int) == step(g));
    let p = lemma_origin_so_far(g, 0, WIDTH as int, i, j);
    lemma_grain_lands(g, p.0, p.1);
    p
}

/// Sand found, after the first `n` cells of row `r` have had their turn, in
/// a cell that the pass has visited or that lies below row `r`, is the
/// landing of a grain.
proof fn lemma_origin_so_far(g: Seq<Seq<Cell>>, r: int, n: int, i: int, j: int) -> (p: (
    int,
    int,
))
    requires
        well_formed(g),
        0 <= r < HEIGHT - 1,
        0 <= n <= WIDTH,
        in_bounds(i, j),
        i > r || (i == r && j < n),
        grid_before(g, r, n)[i][j] == Cell::Sand,
    ensures
        in_bounds(p.0, p.1),
        g[p.0][p.1] == Cell::Sand,
        landing(g, p.0, p.1) == (i, j),
    decreases HEIGHT - r, n,
{
    if n > 0 {
        let found = grid_before(g, r, n - 1);
        let d = destination(found, r, n - 1);
        lemma_untouched_until_visited(g, r, n - 1);
        lemma_destination(found, r, n - 1);
        lemma_fall_cell_effect(found, r, n - 1, i, j);
        if found[r][n - 1] == Cell::Sand && ((i, j) == d || (i, j) == (r, n - 1)) {
            (r, n - 1)
        } else {
            lemma_origin_so_far(g, r, n - 1, i, j)
        }
    } else if r < HEIGHT - 2 {
        assert(grid_before(g, r, 0) == grid_before(g, r + 1, WIDTH as int));
        lemma_origin_so_far(g, r + 1, WIDTH as int, i, j)
    } else {
        assert(grid_before(g, r, 0) == g);
        (i, j)
    }
}

/// Priority in the rule: straight down is taken whenever that cell is empty,
/// whatever the diagonal cells hold, and down-left is taken before
/// down-right.
pub proof fn lemma_priority(g: Seq<Seq<Cell>>, r: int, c: int)
    ensures
        g[r + 1][c] == Cell::Empty ==> destination(g, r, c) == (r + 1, c),
        g[r + 1][c] != Cell::Empty && c > 1 && g[r + 1][c - 1] == Cell::Empty ==> destination(
            g,
            r,
            c,
        ) == (r + 1, c - 1),
{
}

/// Priority in the pass: a grain above a cell that is empty before the pass
/// falls straight down, whatever the diagonal cells hold, unless the grain to
/// its left has landed in that cell first.
pub proof fn lemma_falls_straight_down(g: Seq<Seq<Cell>>, r: int, c: int)
    requires
        well_formed(g),
        in_bounds(r, c),
        r < HEIGHT - 1,
        g[r][c] == Cell::Sand,
        g[r + 1][c] == Cell::Empty,
        !(c > 0 && g[r][c - 1] == Cell::Sand && landing(g, r, c - 1) == (r + 1, c)),
    ensures
        landing(g, r, c) == (r + 1, c),
{
    let below = fall_rows(g, r + 1);
    lemma_fall_rows_well_formed(g, r + 1);
    lemma_fall_rows_effect(g, r + 1, r + 1, c);
    if c > 0 {
        let found = grid_before(g, r, c - 1);
        lemma_untouched_until_visited(g, r, c - 1);
        lemma_fall_row_effect(below, r, c - 1, r + 1, c);
        lemma_fall_cell_effect(found, r, c - 1, r + 1, c);
    }
}

/// The boundary of the rule: a grain in column 1 is never sent to column 0.
/// With the cell below it taken and the cell down-right empty it goes
/// down-right, although the cell down-left may be empty too.
pub proof fn lemma_column_one_keeps_right(g: Seq<Seq<Cell>>, r: int)
    ensures
        destination(g, r, 1).1 >= 1,
        landing(g, r, 1).1 >= 1,
        g[r + 1][1] != Cell::Empty && g[r + 1][2] == Cell::Empty ==> destination(g, r, 1) == (
            r + 1,
            2int,
        ),
{
}

/// The boundary of the rule, seen on the grid: sand in column 0 after the
/// pass was in that cell before, or in the cell above it. No grain comes
/// from column 1.
pub proof fn lemma_column_zero_is_fed_from_above(g: Seq<Seq<Cell>>, i: int)
    requires
        well_formed(g),
        0 <= i < HEIGHT,
        step(g)[i][0] == Cell::Sand,
    ensures
        g[i][0] == Cell::Sand || (i > 0 && g[i - 1][0] == Cell::Sand),
{
    let p = lemma_sand_has_origin(g, i, 0);
    lemma_column_one_keeps_right(g, p.0);
}

} // verus!
