//! Grids on which the gravity rule changes nothing.

use vstd::prelude::*;
use crate::grid::{Cell, HEIGHT, WIDTH, in_bounds, well_formed};
use crate::motion::{grid_before, lemma_grain_lands};
use crate::physics::{destination, fall_row, fall_rows, lemma_destination, step, steps};

verus! {

/// No grain of `g` can move: each one has the cell below it taken, and the
/// diagonal cells that the rule would try are taken or out of its reach.
pub open spec fn at_rest(g: Seq<Seq<Cell>>) -> bool {
    forall|r: int, c: int|
        in_bounds(r, c) && r < HEIGHT - 1 && g[r][c] == Cell::Sand ==> #[trigger] destination(
            g,
            r,
            c,
        ) == (r, c)
}

/// On a grid at rest the rule changes nothing along a row.
proof fn lemma_rest_row(g: Seq<Seq<Cell>>, r: int, n: int)
    requires
        well_formed(g),
        at_rest(g),
        0 <= r < HEIGHT - 1,
        0 <= n <= WIDTH,
    ensures
        fall_row(g, r, n) == g,
    decreases n,
{
    if n > 0 {
        lemma_rest_row(g, r, n - 1);
        assert(g[r][n - 1] == Cell::Sand ==> destination(g, r, n - 1) == (r, n - 1));
    }
}

/// On a grid at rest the rule changes nothing in the rows from `r` down.
proof fn lemma_rest_rows(g: Seq<Seq<Cell>>, r: int)
    requires
        well_formed(g),
        at_rest(g),
        0 <= r <= HEIGHT - 1,
    ensures
        fall_rows(g, r) == g,
    decreases HEIGHT - r,
{
    if r < HEIGHT - 1 {
        lemma_rest_rows(g, r + 1);
        lemma_rest_row(g, r, WIDTH as int);
    }
}

/// A pass that changes nothing has found the grid unchanged at every cell.
proof fn lemma_unchanged_so_far(g: Seq<Seq<Cell>>, r: int, n: int)
    requires
        well_formed(g),
        step(g) == g,
        0 <= r < HEIGHT - 1,
        0 <= n <= WIDTH,
    ensures
        grid_before(g, r, n) == g,
    decreases HEIGHT - r, n,
{
    if n > 0 {
        lemma_unchanged_so_far(g, r, n - 1);
        if g[r][n - 1] == Cell::Sand {
            lemma_grain_lands(g, r, n - 1);
            lemma_destination(g, r, n - 1);
        }
    } else if r < HEIGHT - 2 {
        lemma_unchanged_so_far(g, r + 1, WIDTH as int);
    }
}

/// The grids that a pass leaves unchanged are exactly the grids at rest.
pub proof fn lemma_fixed_point_iff_at_rest(g: Seq<Seq<Cell>>)
    requires
        well_formed(g),
    ensures
        step(g) == g <==> at_rest(g),
{
    if at_rest(g) {
        lemma_rest_rows(g, 0);
    }
    if step(g) == g {
        assert forall|r: int, c: int|
            in_bounds(r, c) && r < HEIGHT - 1 && g[r][c] == Cell::Sand implies #[trigger] destination(
            g,
            r,
            c,
        ) == (r, c) by {
            lemma_unchanged_so_far(g, r, c);
            lemma_grain_lands(g, r, c);
            lemma_destination(g, r, c);
        }
    }
}

/// Once at rest, a grid stays as it is through any number of passes.
pub proof fn lemma_rest_is_final(g: Seq<Seq<Cell>>, n: nat)
    requires
        well_formed(g),
        at_rest(g),
    ensures
        steps(g, n) == g,
    decreases n,
{
    if n > 0 {
        lemma_rest_is_final(g, (n - 1) as nat);
        lemma_fixed_point_iff_at_rest(g);
    }
}

} // verus!
