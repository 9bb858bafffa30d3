//! The grid of cells and its mathematical model.
//!
//! A grid is modelled as a sequence of `HEIGHT` rows, each a sequence of
//! `WIDTH` cells; row 0 is the top row.

use vstd::prelude::*;

verus! {

/// Number of columns of the grid.
pub const WIDTH: usize = 60;

/// Number of rows of the grid.
pub const HEIGHT: usize = 24;

/// The state of one cell.
#[derive(Clone, Copy, Debug, PartialEq, Eq, Structural)]
pub enum Cell {
    Empty,
    Sand,
}

/// `(r, c)` addresses a cell of the grid.
pub open spec fn in_bounds(r: int, c: int) -> bool {
    0 <= r < HEIGHT && 0 <= c < WIDTH
}

/// `g` has `HEIGHT` rows of `WIDTH` cells each.
pub open spec fn well_formed(g: Seq<Seq<Cell>>) -> bool {
    &&& g.len() == HEIGHT
    &&& forall|r: int| 0 <= r < HEIGHT ==> (#[trigger] g[r]).len() == WIDTH
}

/// The grid in which every cell is empty.
pub open spec fn empty_grid() -> Seq<Seq<Cell>> {
    Seq::new(HEIGHT as nat, |r: int| Seq::new(WIDTH as nat, |c: int| Cell::Empty))
}

/// `g` with the cell at `(r, c)` replaced by `v`.
pub open spec fn with_cell(g: Seq<Seq<Cell>>, r: int, c: int, v: Cell) -> Seq<Seq<Cell>> {
    g.update(r, g[r].update(c, v))
}

/// Number of grains that a cell holds: one for sand, none for an empty cell.
pub open spec fn grains(cell: Cell) -> nat {
    if cell == Cell::Sand {
        1
    } else {
        0
    }
}

/// Number of sand cells among the first `n` cells of `row`.
pub open spec fn sand_in_prefix(row: Seq<Cell>, n: int) -> nat
    decreases n,
{
    if n <= 0 {
        0
    } else {
        sand_in_prefix(row, n - 1) + grains(row[n - 1])
    }
}

/// Number of sand cells in the first `k` rows of `g`.
pub open spec fn sand_in_rows(g: Seq<Seq<Cell>>, k: int) -> nat
    decreases k,
{
    if k <= 0 {
        0
    } else {
        sand_in_rows(g, k - 1) + sand_in_prefix(g[k - 1], g[k - 1].len() as int)
    }
}

/// Number of sand cells in `g`.
pub open spec fn sand_count(g: Seq<Seq<Cell>>) -> nat {
    sand_in_rows(g, g.len() as int)
}

/// The empty grid has the dimensions of a grid and holds no sand.
pub proof fn lemma_empty_grid()
    ensures
        well_formed(empty_grid()),
        sand_count(empty_grid()) == 0,
{
    lemma_empty_rows(HEIGHT as int);
}

/// An empty row holds no sand in any prefix.
proof fn lemma_empty_prefix(n: int)
    requires
        0 <= n <= WIDTH,
    ensures
        sand_in_prefix(Seq::new(WIDTH as nat, |c: int| Cell::Empty), n) == 0,
    decreases n,
{
    if n > 0 {
        lemma_empty_prefix(n - 1);
    }
}

/// The first `k` rows of the empty grid hold no sand.
proof fn lemma_empty_rows(k: int)
    requires
        0 <= k <= HEIGHT,
    ensures
        sand_in_rows(empty_grid(), k) == 0,
    decreases k,
{
    if k > 0 {
        lemma_empty_rows(k - 1);
        lemma_empty_prefix(WIDTH as int);
    }
}

/// A `WIDTH` x `HEIGHT` grid of cells, indexed by row, then column.
#[derive(Clone, Copy, Debug, PartialEq, Eq)]
pub struct Grid {
    cells: [[Cell; WIDTH]; HEIGHT],
}

impl Grid {
    /// The rows of the grid, top row first.
    pub closed spec fn view(&self) -> Seq<Seq<Cell>> {
        Seq::new(HEIGHT as nat, |r: int| self.cells@[r]@)
    }

    /// Every grid has the fixed dimensions.
    pub proof fn lemma_well_formed(&self)
        ensures
            well_formed(self@),
    {
    }

    /// An all-empty grid.
    pub fn new() -> (g: Grid)
        ensures
            g@ == empty_grid(),
    {
        let g = Grid { cells: [[Cell::Empty; WIDTH]; HEIGHT] };
        assert(g@ =~~= empty_grid());
        g
    }

    /// The cell at `(row, col)`, or `None` when the position lies outside the grid.
    pub fn get(&self, row: usize, col: usize) -> (cell: Option<Cell>)
        ensures
            cell == if in_bounds(row as int, col as int) {
                Some(self@[row as int][col as int])
            } else {
                None
            },
    {
        if row < HEIGHT && col < WIDTH {
            Some(self.cells[row][col])
        } else {
            None
        }
    }

    /// Writes `cell` at `(row, col)` and reports whether the position lies
    /// inside the grid; a position outside leaves the grid as it was.
    pub fn set(&mut self, row: usize, col: usize, cell: Cell) -> (written: bool)
        ensures
            written == in_bounds(row as int, col as int),
            final(self)@ == if written {
                with_cell(old(self)@, row as int, col as int, cell)
            } else {
                old(self)@
            },
    {
        if row < HEIGHT && col < WIDTH {
            self.cells[row][col] = cell;
            assert(self@ =~~= with_cell(old(self)@, row as int, col as int, cell));
            true
        } else {
            false
        }
    }

    /// Empties every cell.
    pub fn clear(&mut self)
        ensures
            final(self)@ == empty_grid(),
    {
        self.cells = [[Cell::Empty; WIDTH]; HEIGHT];
        assert(self@ =~~= empty_grid());
    }

    /// Counts the sand cells.
    pub fn count_sand(&self) -> (n: usize)
        ensures
            n == sand_count(self@),
    {
        let mut n: usize = 0;
        let mut row: usize = 0;
        while row < HEIGHT
            invariant
                row <= HEIGHT,
                n == sand_in_rows(self@, row as int),
                n <= row * WIDTH,
            decreases HEIGHT - row,
        {
            let mut in_row: usize = 0;
            let mut col: usize = 0;
            while col < WIDTH
                invariant
                    row < HEIGHT,
                    col <= WIDTH,
                    in_row == sand_in_prefix(self@[row as int], col as int),
                    in_row <= col,
                decreases WIDTH - col,
            {
                if self.cells[row][col] == Cell::Sand {
                    in_row = in_row + 1;
                }
                col = col + 1;
            }
            n = n + in_row;
            row = row + 1;
        }
        n
    }

    /// The cell at a position inside the grid.
    pub(crate) fn at(&self, row: usize, col: usize) -> (cell: Cell)
        requires
            in_bounds(row as int, col as int),
        ensures
            cell == self@[row as int][col as int],
    {
        self.cells[row][col]
    }

    /// Writes `cell` at a position inside the grid.
    pub(crate) fn put(&mut self, row: usize, col: usize, cell: Cell)
        requires
            in_bounds(row as int, col as int),
        ensures
            final(self)@ == with_cell(old(self)@, row as int, col as int, cell),
    {
        self.cells[row][col] = cell;
        assert(self@ =~~= with_cell(old(self)@, row as int, col as int, cell));
    }
}

} // verus!
