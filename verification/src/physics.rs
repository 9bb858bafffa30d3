//! The gravity rule and one pass of it over the whole grid.
//!
//! A pass visits the rows from the last but one up to the top row, and the
//! cells of a row from left to right, and applies the rule to each cell in
//! turn on the grid as the earlier cells left it.

use vstd::prelude::*;
use crate::conservation::lemma_step_conserves;
use crate::grid::{Cell, Grid, HEIGHT, WIDTH, in_bounds, sand_count, well_formed, with_cell};

verus! {

/// Where the rule sends a grain that lies at `(r, c)` in `g`: straight down
/// if that cell is empty; else down-left, for columns beyond column 1, if
/// that cell is empty; else down-right if that cell exists and is empty;
/// else the grain stays.
pub open spec fn destination(g: Seq<Seq<Cell>>, r: int, c: int) -> (int, int) {
    if g[r + 1][c] == Cell::Empty {
        (r + 1, c)
    } else if c > 1 && g[r + 1][c - 1] == Cell::Empty {
        (r + 1, c - 1)
    } else if c + 1 < WIDTH && g[r + 1][c + 1] == Cell::Empty {
        (r + 1, c + 1)
    } else {
        (r, c)
    }
}

/// The rule applied to the cell `(r, c)` of `g`: a grain there moves to its
/// destination; an empty cell changes nothing.
pub open spec fn fall_cell(g: Seq<Seq<Cell>>, r: int, c: int) -> Seq<Seq<Cell>> {
    let d = destination(g, r, c);
    if g[r][c] == Cell::Sand && d != (r, c) {
        with_cell(with_cell(g, r, c, Cell::Empty), d.0, d.1, Cell::Sand)
    } else {
        g
    }
}

/// The rule applied in turn to the cells `(r, 0)`, ..., `(r, n - 1)`.
pub open spec fn fall_row(g: Seq<Seq<Cell>>, r: int, n: int) -> Seq<Seq<Cell>>
    decreases n,
{
    if n <= 0 {
        g
    } else {
        fall_cell(fall_row(g, r, n - 1), r, n - 1)
    }
}

/// The rule applied to the rows `HEIGHT - 2`, ..., `r`, in that order, each
/// of them from left to right.
pub open spec fn fall_rows(g: Seq<Seq<Cell>>, r: int) -> Seq<Seq<Cell>>
    decreases HEIGHT - r,
{
    if r >= HEIGHT - 1 {
        g
    } else {
        fall_row(fall_rows(g, r + 1), r, WIDTH as int)
    }
}

/// One pass of the rule over the whole grid.
pub open spec fn step(g: Seq<Seq<Cell>>) -> Seq<Seq<Cell>> {
    fall_rows(g, 0)
}

/// The grid after `n` passes.
pub open spec fn steps(g: Seq<Seq<Cell>>, n: nat) -> Seq<Seq<Cell>>
    decreases n,
{
    if n == 0 {
        g
    } else {
        step(steps(g, (n - 1) as nat))
    }
}

/// The destination of a grain is its own cell or an empty cell of the next
/// row, at most one column to either side.
pub proof fn lemma_destination(g: Seq<Seq<Cell>>, r: int, c: int)
    requires
        well_formed(g),
        in_bounds(r, c),
        r < HEIGHT - 1,
    ensures
        ({
            let d = destination(g, r, c);
            &&& in_bounds(d.0, d.1)
            &&& c - 1 <= d.1 <= c + 1
            &&& d == (r, c) || (d.0 == r + 1 && g[d.0][d.1] == Cell::Empty)
        }),
{
}

/// The rule keeps the dimensions of the grid.
pub proof fn lemma_fall_cell_well_formed(g: Seq<Seq<Cell>>, r: int, c: int)
    requires
        well_formed(g),
        in_bounds(r, c),
        r < HEIGHT - 1,
    ensures
        well_formed(fall_cell(g, r, c)),
{
    lemma_destination(g, r, c);
}

/// A row of the pass keeps the dimensions of the grid.
pub proof fn lemma_fall_row_well_formed(g: Seq<Seq<Cell>>, r: int, n: int)
    requires
        well_formed(g),
        0 <= r < HEIGHT - 1,
        0 <= n <= WIDTH,
    ensures
        well_formed(fall_row(g, r, n)),
    decreases n,
{
    if n > 0 {
        lemma_fall_row_well_formed(g, r, n - 1);
        lemma_fall_cell_well_formed(fall_row(g, r, n - 1), r, n - 1);
    }
}

/// The rows of the pass keep the dimensions of the grid.
pub proof fn lemma_fall_rows_well_formed(g: Seq<Seq<Cell>>, r: int)
    requires
        well_formed(g),
        0 <= r <= HEIGHT - 1,
    ensures
        well_formed(fall_rows(g, r)),
    decreases HEIGHT - r,
{
    if r < HEIGHT - 1 {
        lemma_fall_rows_well_formed(g, r + 1);
        lemma_fall_row_well_formed(fall_rows(g, r + 1), r, WIDTH as int);
    }
}

/// A pass keeps the dimensions of the grid.
pub proof fn lemma_step_well_formed(g: Seq<Seq<Cell>>)
    requires
        well_formed(g),
    ensures
        well_formed(step(g)),
{
    lemma_fall_rows_well_formed(g, 0);
}

/// Any number of passes keeps the dimensions of the grid.
pub proof fn lemma_steps_well_formed(g: Seq<Seq<Cell>>, n: nat)
    requires
        well_formed(g),
    ensures
        well_formed(steps(g, n)),
    decreases n,
{
    if n > 0 {
        lemma_steps_well_formed(g, (n - 1) as nat);
        lemma_step_well_formed(steps(g, (n - 1) as nat));
    }
}

/// Applies one pass of the gravity rule to `grid`.
pub fn sand_fall(grid: &mut Grid)
    ensures
        final(grid)@ == step(old(grid)@),
        sand_count(final(grid)@) == sand_count(old(grid)@),
{
    proof {
        grid.lemma_well_formed();
        lemma_step_conserves(grid@);
    }
    let mut y: usize = HEIGHT - 1;
    while y > 0
        invariant
            y <= HEIGHT - 1,
            grid@ == fall_rows(old(grid)@, y as int),
        decreases y,
    {
        y = y - 1;
        let mut x: usize = 0;
        while x < WIDTH
            invariant
                y < HEIGHT - 1,
                x <= WIDTH,
                grid@ == fall_row(fall_rows(old(grid)@, y + 1), y as int, x as int),
            decreases WIDTH - x,
        {
            let ghost before = grid@;
            proof {
                grid.lemma_well_formed();
            }
            if grid.at(y, x) == Cell::Sand {
                if grid.at(y + 1, x) == Cell::Empty {
                    grid.put(y, x, Cell::Empty);
                    grid.put(y + 1, x, Cell::Sand);
                } else if x > 1 && grid.at(y + 1, x - 1) == Cell::Empty {
                    grid.put(y, x, Cell::Empty);
                    grid.put(y + 1, x - 1, Cell::Sand);
                } else if x + 1 < WIDTH && grid.at(y + 1, x + 1) == Cell::Empty {
                    grid.put(y + 1, x + 1, Cell::Sand);
                    grid.put(y, x, Cell::Empty);
                }
            }
            assert(grid@ =~~= fall_cell(before, y as int, x as int));
            x = x + 1;
        }
    }
}

} // verus!
