//! The gravity rule neither creates nor destroys sand.

use vstd::prelude::*;
use crate::grid::{
    Cell, HEIGHT, WIDTH, grains, in_bounds, sand_count, sand_in_prefix, sand_in_rows,
    well_formed, with_cell,
};
use crate::physics::{
    destination, fall_cell, fall_row, fall_rows, lemma_destination, lemma_fall_row_well_formed,
    lemma_fall_rows_well_formed, lemma_steps_well_formed, step, steps,
};

verus! {

/// Replacing one cell of a row changes the count of a prefix that holds it
/// by the difference between the new and the old cell.
pub proof fn lemma_prefix_update(row: Seq<Cell>, c: int, v: Cell, n: int)
    requires
        0 <= c < row.len(),
        0 <= n <= row.len(),
    ensures
        sand_in_prefix(row.update(c, v), n) == if c < n {
            sand_in_prefix(row, n) - grains(row[c]) + grains(v)
        } else {
            sand_in_prefix(row, n) as int
        },
    decreases n,
{
    if n > 0 {
        lemma_prefix_update(row, c, v, n - 1);
    }
}

/// Replacing one cell of a grid changes the count of the leading rows that
/// hold it by the difference between the new and the old cell.
pub proof fn lemma_rows_update(g: Seq<Seq<Cell>>, r: int, c: int, v: Cell, k: int)
    requires
        well_formed(g),
        in_bounds(r, c),
        0 <= k <= HEIGHT,
    ensures
        sand_in_rows(with_cell(g, r, c, v), k) == if r < k {
            sand_in_rows(g, k) - grains(g[r][c]) + grains(v)
        } else {
            sand_in_rows(g, k) as int
        },
    decreases k,
{
    if k > 0 {
        lemma_rows_update(g, r, c, v, k - 1);
        if r == k - 1 {
            lemma_prefix_update(g[r], c, v, WIDTH as int);
        }
    }
}

/// Replacing one cell changes the number of sand cells by the difference
/// between the new and the old cell.
pub proof fn lemma_with_cell_count(g: Seq<Seq<Cell>>, r: int, c: int, v: Cell)
    requires
        well_formed(g),
        in_bounds(r, c),
    ensures
        well_formed(with_cell(g, r, c, v)),
        sand_count(with_cell(g, r, c, v)) == sand_count(g) - grains(g[r][c]) + grains(v),
{
    lemma_rows_update(g, r, c, v, HEIGHT as int);
}

/// The rule applied to one cell keeps the number of sand cells.
pub proof fn lemma_fall_cell_conserves(g: Seq<Seq<Cell>>, r: int, c: int)
    requires
        well_formed(g),
        in_bounds(r, c),
        r < HEIGHT - 1,
    ensures
        sand_count(fall_cell(g, r, c)) == sand_count(g),
{
    let d = destination(g, r, c);
    lemma_destination(g, r, c);
    if g[r][c] == Cell::Sand && d != (r, c) {
        let lifted = with_cell(g, r, c, Cell::Empty);
        lemma_with_cell_count(g, r, c, Cell::Empty);
        lemma_with_cell_count(lifted, d.0, d.1, Cell::Sand);
    }
}

/// The rule applied along a row keeps the number of sand cells.
pub proof fn lemma_fall_row_conserves(g: Seq<Seq<Cell>>, r: int, n: int)
    requires
        well_formed(g),
        0 <= r < HEIGHT - 1,
        0 <= n <= WIDTH,
    ensures
        sand_count(fall_row(g, r, n)) == sand_count(g),
    decreases n,
{
    if n > 0 {
        lemma_fall_row_conserves(g, r, n - 1);
        lemma_fall_row_well_formed(g, r, n - 1);
        lemma_fall_cell_conserves(fall_row(g, r, n - 1), r, n - 1);
    }
}

/// The rule applied to the rows from `r` down keeps the number of sand cells.
pub proof fn lemma_fall_rows_conserves(g: Seq<Seq<Cell>>, r: int)
    requires
        well_formed(g),
        0 <= r <= HEIGHT - 1,
    ensures
        sand_count(fall_rows(g, r)) == sand_count(g),
    decreases HEIGHT - r,
{
    if r < HEIGHT - 1 {
        lemma_fall_rows_conserves(g, r + 1);
        lemma_fall_rows_well_formed(g, r + 1);
        lemma_fall_row_conserves(fall_rows(g, r + 1), r, WIDTH as int);
    }
}

/// Conservation: a pass leaves the number of sand cells as it was.
pub proof fn lemma_step_conserves(g: Seq<Seq<Cell>>)
    requires
        well_formed(g),
    ensures
        sand_count(step(g)) == sand_count(g),
{
    lemma_fall_rows_conserves(g, 0);
}

/// Conservation: any number of passes leaves the number of sand cells as it
/// was.
pub proof fn lemma_steps_conserve(g: Seq<Seq<Cell>>, n: nat)
    requires
        well_formed(g),
    ensures
        sand_count(steps(g, n)) == sand_count(g),
    decreases n,
{
    if n > 0 {
        lemma_steps_conserve(g, (n - 1) as nat);
        lemma_steps_well_formed(g, (n - 1) as nat);
        lemma_step_conserves(steps(g, (n - 1) as nat));
    }
}

} // verus!
