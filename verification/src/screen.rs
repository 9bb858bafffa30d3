//! What is drawn where: the picture of the grid, the border around it, and
//! the mapping between screen positions and cells.
//!
//! Screen positions are pairs of a column and a row, both counted from 0 at
//! the top left corner. The border takes column 0 and row 0, so the cell
//! `(r, c)` of the grid is drawn at column `c + 1` of row `r + 1`.

use vstd::prelude::*;
use crate::grid::{Cell, Grid, HEIGHT, WIDTH, in_bounds};

verus! {

/// One character to be written at one screen position.
#[derive(Clone, Copy, Debug, PartialEq, Eq, Structural)]
pub struct Draw {
    pub column: u16,
    pub row: u16,
    pub glyph: char,
}

/// The character that shows a cell.
pub open spec fn glyph_of(cell: Cell) -> char {
    match cell {
        Cell::Empty => ' ',
        Cell::Sand => '*',
    }
}

/// The cell `(row, column)` of the grid that is drawn at a screen position,
/// if the position lies on the canvas.
pub open spec fn cell_under(column: int, row: int) -> Option<(int, int)> {
    if 1 <= column <= WIDTH && 1 <= row <= HEIGHT {
        Some((row - 1, column - 1))
    } else {
        None
    }
}

/// The command that draws the cell `(r, c)` of `g`.
pub open spec fn cell_draw(g: Seq<Seq<Cell>>, r: int, c: int) -> Draw {
    Draw { column: (c + 1) as u16, row: (r + 1) as u16, glyph: glyph_of(g[r][c]) }
}

/// The picture of a grid: one command for each cell, row by row from the
/// top, each row from left to right.
pub open spec fn picture(g: Seq<Seq<Cell>>) -> Seq<Draw> {
    Seq::new(
        (WIDTH * HEIGHT) as nat,
        |k: int| cell_draw(g, k / (WIDTH as int), k % (WIDTH as int)),
    )
}

/// The character of the border at a screen position: corners, horizontal
/// edges above and below the canvas, vertical edges left and right of it.
pub open spec fn border_glyph(column: int, row: int) -> Option<char> {
    if 0 <= column <= WIDTH + 1 && (row == 0 || row == HEIGHT + 1) {
        if column == 0 || column == WIDTH + 1 {
            Some('+')
        } else {
            Some('-')
        }
    } else if 1 <= row <= HEIGHT && (column == 0 || column == WIDTH + 1) {
        Some('|')
    } else {
        None
    }
}

/// The command that draws the border at a position on it.
pub open spec fn border_draw(column: int, row: int) -> Draw {
    Draw { column: column as u16, row: row as u16, glyph: border_glyph(column, row).unwrap() }
}

/// The border as a sequence of commands: the top edge from left to right,
/// then for each row of the canvas its left and its right edge, then the
/// bottom edge from left to right.
pub open spec fn frame() -> Seq<Draw> {
    let top = Seq::new((WIDTH + 2) as nat, |k: int| border_draw(k, 0));
    let sides = Seq::new(
        (2 * HEIGHT) as nat,
        |k: int| border_draw(if k % 2 == 0 { 0 } else { WIDTH + 1 }, k / 2 + 1),
    );
    let bottom = Seq::new((WIDTH + 2) as nat, |k: int| border_draw(k, HEIGHT + 1));
    top + sides + bottom
}

/// Every cell is drawn once, at its place in the picture and on the screen
/// position that maps back to it.
pub proof fn lemma_picture(g: Seq<Seq<Cell>>, r: int, c: int)
    requires
        in_bounds(r, c),
    ensures
        picture(g).len() == WIDTH * HEIGHT,
        picture(g)[r * WIDTH + c] == cell_draw(g, r, c),
        cell_under(cell_draw(g, r, c).column as int, cell_draw(g, r, c).row as int) == Some(
            (r, c),
        ),
{
    let k = r * WIDTH + c;
    assert(k / (WIDTH as int) == r && k % (WIDTH as int) == c);
}

/// Every command of the frame draws the border's own character on a
/// position of the border, and none of them touches the canvas.
pub proof fn lemma_frame_on_border(k: int)
    requires
        0 <= k < frame().len(),
    ensures
        frame().len() == 2 * (WIDTH + 2) + 2 * HEIGHT,
        border_glyph(frame()[k].column as int, frame()[k].row as int) == Some(frame()[k].glyph),
        cell_under(frame()[k].column as int, frame()[k].row as int) is None,
{
}

/// Every position of the border is drawn by the frame: the result is the
/// index of the command that draws it.
pub proof fn lemma_border_in_frame(column: int, row: int) -> (k: int)
    requires
        border_glyph(column, row) is Some,
    ensures
        0 <= k < frame().len(),
        frame()[k] == border_draw(column, row),
{
    if row == 0 {
        column
    } else if row == HEIGHT + 1 {
        WIDTH + 2 + 2 * HEIGHT + column
    } else {
        let i = 2 * (row - 1) + if column == 0 { 0int } else { 1int };
        assert(i / 2 == row - 1);
        assert(i % 2 == 0 <==> column == 0);
        WIDTH + 2 + i
    }
}

/// The character that shows a cell.
pub fn glyph(cell: Cell) -> (ch: char)
    ensures
        ch == glyph_of(cell),
{
    match cell {
        Cell::Empty => ' ',
        Cell::Sand => '*',
    }
}

/// Maps a screen position to the cell `(row, column)` of the grid drawn
/// there; positions on the border and beyond it map to no cell.
pub fn cell_at(column: u16, row: u16) -> (cell: Option<(usize, usize)>)
    ensures
        match cell {
            Some((r, c)) => cell_under(column as int, row as int) == Some((r as int, c as int)),
            None => cell_under(column as int, row as int) is None,
        },
{
    let column = column as usize;
    let row = row as usize;
    if 1 <= column && column <= WIDTH && 1 <= row && row <= HEIGHT {
        Some((row - 1, column - 1))
    } else {
        None
    }
}

/// The commands that draw the grid.
pub fn render(grid: &Grid) -> (out: Vec<Draw>)
    ensures
        out@ == picture(grid@),
{
    let mut out: Vec<Draw> = Vec::new();
    let mut row: usize = 0;
    while row < HEIGHT
        invariant
            row <= HEIGHT,
            out@.len() == row * WIDTH,
            forall|k: int| 0 <= k < out@.len() ==> out@[k] == picture(grid@)[k],
        decreases HEIGHT - row,
    {
        let mut col: usize = 0;
        while col < WIDTH
            invariant
                row < HEIGHT,
                col <= WIDTH,
                out@.len() == row * WIDTH + col,
                forall|k: int| 0 <= k < out@.len() ==> out@[k] == picture(grid@)[k],
            decreases WIDTH - col,
        {
            out.push(
                Draw {
                    column: (col + 1) as u16,
                    row: (row + 1) as u16,
                    glyph: glyph(grid.at(row, col)),
                },
            );
            col = col + 1;
        }
        row = row + 1;
    }
    assert(out@ =~= picture(grid@));
    out
}

/// The commands that draw the border around the canvas.
pub fn draw_frame() -> (out: Vec<Draw>)
    ensures
        out@ == frame(),
{
    let mut out: Vec<Draw> = Vec::new();
    let right: u16 = (WIDTH + 1) as u16;
    let bottom: u16 = (HEIGHT + 1) as u16;
    out.push(Draw { column: 0, row: 0, glyph: '+' });
    let mut column: u16 = 1;
    while column < right
        invariant
            right == WIDTH + 1,
            1 <= column <= right,
            out@.len() == column,
            forall|k: int| 0 <= k < out@.len() ==> out@[k] == border_draw(k, 0),
        decreases right - column,
    {
        out.push(Draw { column, row: 0, glyph: '-' });
        column = column + 1;
    }
    out.push(Draw { column: right, row: 0, glyph: '+' });
    let mut row: u16 = 1;
    while row < bottom
        invariant
            right == WIDTH + 1,
            bottom == HEIGHT + 1,
            1 <= row <= bottom,
            out@.len() == WIDTH + 2 + 2 * (row - 1),
            forall|k: int| 0 <= k < out@.len() ==> out@[k] == frame()[k],
        decreases bottom - row,
    {
        let ghost k = 2 * (row - 1);
        assert(k % 2 == 0 && k / 2 == row - 1 && (k + 1) % 2 == 1 && (k + 1) / 2 == row - 1);
        out.push(Draw { column: 0, row, glyph: '|' });
        assert(out@[WIDTH + 2 + k] == frame()[WIDTH + 2 + k]);
        out.push(Draw { column: right, row, glyph: '|' });
        assert(out@[WIDTH + 2 + k + 1] == frame()[WIDTH + 2 + k + 1]);
        row = row + 1;
    }
    out.push(Draw { column: 0, row: bottom, glyph: '+' });
    let mut column: u16 = 1;
    while column < right
        invariant
            right == WIDTH + 1,
            bottom == HEIGHT + 1,
            1 <= column <= right,
            out@.len() == WIDTH + 2 + 2 * HEIGHT + column,
            forall|k: int| 0 <= k < out@.len() ==> out@[k] == frame()[k],
        decreases right - column,
    {
        out.push(Draw { column, row: bottom, glyph: '-' });
        column = column + 1;
    }
    out.push(Draw { column: right, row: bottom, glyph: '+' });
    assert(out@ =~= frame());
    out
}

/// The screen row of the line of instructions under the border.
pub fn banner_row() -> (row: u16)
    ensures
        row == HEIGHT + 3,
{
    (HEIGHT + 3) as u16
}

} // verus!
