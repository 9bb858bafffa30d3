//! Every grid comes to rest.
//!
//! The depth of a grid is the sum of the row numbers of its grains. A pass
//! that moves a grain at all adds to the depth, and the depth of a grid
//! cannot exceed what its grains would have in the last row. So only so many
//! passes can change a grid.

use vstd::prelude::*;
use crate::conservation::{lemma_prefix_update, lemma_step_conserves, lemma_with_cell_count};
use crate::grid::{
    Cell, HEIGHT, WIDTH, grains, in_bounds, sand_count, sand_in_prefix, sand_in_rows,
    well_formed, with_cell,
};
use crate::motion::{lemma_falls_straight_down, lemma_grain_lands, lemma_sand_has_origin};
use crate::physics::{
    destination, fall_cell, fall_row, fall_rows, lemma_destination, lemma_fall_row_well_formed,
    lemma_fall_rows_well_formed, lemma_step_well_formed, lemma_steps_well_formed, step, steps,
};
use crate::rest::{at_rest, lemma_fixed_point_iff_at_rest, lemma_rest_is_final};

verus! {

/// The sum of the row numbers of the grains in the first `k` rows of `g`.
pub open spec fn depth_in_rows(g: Seq<Seq<Cell>>, k: int) -> int
    decreases k,
{
    if k <= 0 {
        0
    } else {
        depth_in_rows(g, k - 1) + (k - 1) * sand_in_prefix(g[k - 1], g[k - 1].len() as int)
    }
}

/// The sum of the row numbers of the grains of `g`.
pub open spec fn depth(g: Seq<Seq<Cell>>) -> int {
    depth_in_rows(g, g.len() as int)
}

/// The number of passes that can still change `g`, at most: what its depth
/// lacks of the depth that its grains would have in the last row.
pub open spec fn slack(g: Seq<Seq<Cell>>) -> int {
    (HEIGHT - 1) * sand_count(g) - depth(g)
}

/// The floor: the grid whose last row is all sand and whose other rows are
/// empty.
pub open spec fn sand_floor() -> Seq<Seq<Cell>> {
    Seq::new(
        HEIGHT as nat,
        |r: int|
            Seq::new(
                WIDTH as nat,
                |c: int|
                    if r == HEIGHT - 1 {
                        Cell::Sand
                    } else {
                        Cell::Empty
                    },
            ),
    )
}

/// The floor with a single grain at `(r, c)`.
pub open spec fn lone_grain(r: int, c: int) -> Seq<Seq<Cell>> {
    with_cell(sand_floor(), r, c, Cell::Sand)
}

/// Replacing one cell of a grid changes the depth of the leading rows that
/// hold it by the row number, once for a grain gained and once for one lost.
pub proof fn lemma_depth_update(g: Seq<Seq<Cell>>, r: int, c: int, v: Cell, k: int)
    requires
        well_formed(g),
        in_bounds(r, c),
        0 <= k <= HEIGHT,
    ensures
        depth_in_rows(with_cell(g, r, c, v), k) == if r < k {
            depth_in_rows(g, k) + r * (grains(v) - grains(g[r][c]))
        } else {
            depth_in_rows(g, k)
        },
    decreases k,
{
    if k > 0 {
        lemma_depth_update(g, r, c, v, k - 1);
        if r == k - 1 {
            lemma_prefix_update(g[r], c, v, WIDTH as int);
            let before = sand_in_prefix(g[r], WIDTH as int) as int;
            let after = sand_in_prefix(g[r].update(c, v), WIDTH as int) as int;
            let change = grains(v) - grains(g[r][c]);
            assert(r * after == r * before + r * change) by (nonlinear_arith)
                requires
                    after == before + change,
            ;
        }
    }
}

/// The rule applied to one cell adds one to the depth if it moves a grain,
/// and nothing if it does not.
pub proof fn lemma_fall_cell_depth(g: Seq<Seq<Cell>>, r: int, c: int)
    requires
        well_formed(g),
        in_bounds(r, c),
        r < HEIGHT - 1,
    ensures
        depth(fall_cell(g, r, c)) == depth(g) + if fall_cell(g, r, c) == g {
            0int
        } else {
            1int
        },
{
    let d = destination(g, r, c);
    lemma_destination(g, r, c);
    if g[r][c] == Cell::Sand && d != (r, c) {
        let lifted = with_cell(g, r, c, Cell::Empty);
        lemma_with_cell_count(g, r, c, Cell::Empty);
        lemma_depth_update(g, r, c, Cell::Empty, HEIGHT as int);
        lemma_depth_update(lifted, d.0, d.1, Cell::Sand, HEIGHT as int);
        assert(fall_cell(g, r, c)[r][c] == Cell::Empty);
        assert(r * (0 - 1) == -r) by (nonlinear_arith);
        assert((r + 1) * (1 - 0) == r + 1) by (nonlinear_arith);
    }
}

/// The rule applied along a row does not take from the depth, and leaves
/// the depth as it was only if it leaves the grid as it was.
pub proof fn lemma_fall_row_depth(g: Seq<Seq<Cell>>, r: int, n: int)
    requires
        well_formed(g),
        0 <= r < HEIGHT - 1,
        0 <= n <= WIDTH,
    ensures
        depth(fall_row(g, r, n)) >= depth(g),
        depth(fall_row(g, r, n)) == depth(g) ==> fall_row(g, r, n) == g,
    decreases n,
{
    if n > 0 {
        lemma_fall_row_depth(g, r, n - 1);
        lemma_fall_row_well_formed(g, r, n - 1);
        lemma_fall_cell_depth(fall_row(g, r, n - 1), r, n - 1);
    }
}

/// The rule applied to the rows from `r` down does not take from the depth,
/// and leaves the depth as it was only if it leaves the grid as it was.
pub proof fn lemma_fall_rows_depth(g: Seq<Seq<Cell>>, r: int)
    requires
        well_formed(g),
        0 <= r <= HEIGHT - 1,
    ensures
        depth(fall_rows(g, r)) >= depth(g),
        depth(fall_rows(g, r)) == depth(g) ==> fall_rows(g, r) == g,
    decreases HEIGHT - r,
{
    if r < HEIGHT - 1 {
        lemma_fall_rows_depth(g, r + 1);
        lemma_fall_rows_well_formed(g, r + 1);
        lemma_fall_row_depth(fall_rows(g, r + 1), r, WIDTH as int);
    }
}

/// The depth of the leading rows is at most what their grains would have in
/// the last row.
pub proof fn lemma_depth_bound(g: Seq<Seq<Cell>>, k: int)
    requires
        well_formed(g),
        0 <= k <= HEIGHT,
    ensures
        0 <= depth_in_rows(g, k) <= (HEIGHT - 1) * sand_in_rows(g, k),
    decreases k,
{
    if k > 0 {
        lemma_depth_bound(g, k - 1);
        let here = sand_in_prefix(g[k - 1], WIDTH as int) as int;
        assert(0 <= (k - 1) * here <= (HEIGHT - 1) * here) by (nonlinear_arith)
            requires
                0 <= k - 1 <= HEIGHT - 1,
                0 <= here,
        ;
    }
}

/// A pass takes one at least from the slack of a grid unless it leaves the
/// grid as it was, and the slack is never negative.
pub proof fn lemma_step_slack(g: Seq<Seq<Cell>>)
    requires
        well_formed(g),
    ensures
        0 <= slack(g),
        well_formed(step(g)),
        step(g) == g || slack(step(g)) < slack(g),
{
    lemma_depth_bound(g, HEIGHT as int);
    lemma_fall_rows_depth(g, 0);
    lemma_fall_rows_well_formed(g, 0);
    lemma_step_conserves(g);
}

/// Passes add up: `a + b` passes are `a` passes followed by `b` passes.
pub proof fn lemma_steps_add(g: Seq<Seq<Cell>>, a: nat, b: nat)
    ensures
        steps(g, a + b) == steps(steps(g, a), b),
    decreases b,
{
    if b > 0 {
        lemma_steps_add(g, a, (b - 1) as nat);
        assert(a + b - 1 == a + (b - 1));
    }
}

/// Settling: every grid comes to rest. The result is a number of passes, no
/// larger than the slack of the grid, after which the grid is at rest.
pub proof fn lemma_comes_to_rest(g: Seq<Seq<Cell>>) -> (n: nat)
    requires
        well_formed(g),
    ensures
        n <= slack(g),
        at_rest(steps(g, n)),
    decreases slack(g),
{
    lemma_step_slack(g);
    if step(g) == g {
        lemma_fixed_point_iff_at_rest(g);
        0
    } else {
        lemma_step_slack(step(g));
        let m = lemma_comes_to_rest(step(g));
        assert(steps(g, 1) == step(g)) by {
            assert(steps(g, 0) == g);
        }
        lemma_steps_add(g, 1, m);
        m + 1
    }
}

/// Settling: after as many passes as the slack of the grid, or more, the
/// grid is at rest, and further passes produce no change.
pub proof fn lemma_settled_after(g: Seq<Seq<Cell>>, n: nat, more: nat)
    requires
        well_formed(g),
        slack(g) <= n,
    ensures
        at_rest(steps(g, n)),
        steps(g, n + more) == steps(g, n),
{
    let first = lemma_comes_to_rest(g);
    let rested = steps(g, first);
    lemma_steps_well_formed(g, first);
    lemma_rest_is_final(rested, (n - first) as nat);
    lemma_steps_add(g, first, (n - first) as nat);
    assert(first + (n - first) as nat == n);
    lemma_rest_is_final(rested, (n + more - first) as nat);
    lemma_steps_add(g, first, (n + more - first) as nat);
    assert(first + (n + more - first) as nat == n + more);
}

/// A single grain above the floor, with nothing below it but the floor,
/// falls straight down by one row in a pass.
pub proof fn lemma_lone_grain_falls(r: int, c: int)
    requires
        in_bounds(r, c),
        r < HEIGHT - 2,
    ensures
        step(lone_grain(r, c)) == lone_grain(r + 1, c),
{
    let g = lone_grain(r, c);
    let h = step(g);
    let fallen = lone_grain(r + 1, c);
    lemma_step_well_formed(g);
    lemma_falls_straight_down(g, r, c);
    assert forall|i: int, j: int| in_bounds(i, j) implies #[trigger] h[i][j] == fallen[i][j] by {
        if h[i][j] == Cell::Sand {
            let p = lemma_sand_has_origin(g, i, j);
            assert(p == (r, c) || p.0 == HEIGHT - 1);
        } else if i == HEIGHT - 1 {
            lemma_grain_lands(g, i, j);
        } else if (i, j) == (r + 1, c) {
            lemma_grain_lands(g, r, c);
        }
    }
    assert(h =~~= fallen);
}

/// A single grain on the floor is at rest, and so is the grid.
pub proof fn lemma_lone_grain_rests(c: int)
    requires
        0 <= c < WIDTH,
    ensures
        at_rest(lone_grain(HEIGHT - 2, c)),
{
    let g = lone_grain(HEIGHT - 2, c);
    assert forall|i: int, j: int|
        in_bounds(i, j) && i < HEIGHT - 1 && g[i][j] == Cell::Sand implies #[trigger] destination(
        g,
        i,
        j,
    ) == (i, j) by {
        assert((i, j) == (HEIGHT - 2, c));
    }
}

/// Settling of a single grain: wherever it starts above the floor, it falls
/// by one row in each pass until it lies on the floor, and there it stays.
/// After `HEIGHT` passes it has come to rest, and further passes produce no
/// change.
pub proof fn lemma_lone_grain_settles(r: int, c: int, n: nat)
    requires
        in_bounds(r, c),
        r < HEIGHT - 1,
    ensures
        steps(lone_grain(r, c), n) == lone_grain(
            if r + n < HEIGHT - 2 {
                r + n
            } else {
                HEIGHT - 2
            },
            c,
        ),
        n >= HEIGHT ==> at_rest(steps(lone_grain(r, c), n)),
    decreases n,
{
    lemma_lone_grain_rests(c);
    if n > 0 {
        lemma_lone_grain_settles(r, c, (n - 1) as nat);
        if r + n - 1 < HEIGHT - 2 {
            lemma_lone_grain_falls(r + n - 1, c);
        } else {
            lemma_fixed_point_iff_at_rest(lone_grain(HEIGHT - 2, c));
        }
    }
}

} // verus!
