use falling_sand::grid::{Cell, Grid, HEIGHT, WIDTH};
use falling_sand::screen::{banner_row, cell_at, draw_frame, glyph, render, Draw};

#[test]
fn sand_is_a_star_and_empty_a_blank() {
    assert_eq!(glyph(Cell::Sand), '*');
    assert_eq!(glyph(Cell::Empty), ' ');
}

#[test]
fn canvas_positions_map_to_cells() {
    assert_eq!(cell_at(1, 1), Some((0, 0)));
    assert_eq!(cell_at(60, 1), Some((0, 59)));
    assert_eq!(cell_at(1, 24), Some((23, 0)));
    assert_eq!(cell_at(60, 24), Some((23, 59)));
    assert_eq!(cell_at(17, 5), Some((4, 16)));
}

#[test]
fn border_and_beyond_map_to_no_cell() {
    assert_eq!(cell_at(0, 0), None);
    assert_eq!(cell_at(0, 5), None);
    assert_eq!(cell_at(5, 0), None);
    assert_eq!(cell_at(61, 5), None);
    assert_eq!(cell_at(5, 25), None);
    assert_eq!(cell_at(61, 25), None);
    assert_eq!(cell_at(0, 27), None);
    assert_eq!(cell_at(u16::MAX, u16::MAX), None);
    assert_eq!(cell_at(u16::MAX, 1), None);
    assert_eq!(cell_at(1, u16::MAX), None);
}

#[test]
fn every_cell_is_drawn_where_a_click_finds_it() {
    let picture = render(&Grid::new());
    for row in 0..HEIGHT {
        for col in 0..WIDTH {
            let draw = picture[row * WIDTH + col];
            assert_eq!(cell_at(draw.column, draw.row), Some((row, col)));
        }
    }
}

#[test]
fn render_draws_every_cell_in_reading_order() {
    let mut grid = Grid::new();
    assert!(grid.set(0, 0, Cell::Sand));
    assert!(grid.set(4, 16, Cell::Sand));
    assert!(grid.set(23, 59, Cell::Sand));
    let picture = render(&grid);
    assert_eq!(picture.len(), WIDTH * HEIGHT);
    assert_eq!(picture[0], Draw { column: 1, row: 1, glyph: '*' });
    assert_eq!(picture[1], Draw { column: 2, row: 1, glyph: ' ' });
    assert_eq!(picture[59], Draw { column: 60, row: 1, glyph: ' ' });
    assert_eq!(picture[60], Draw { column: 1, row: 2, glyph: ' ' });
    assert_eq!(picture[4 * 60 + 16], Draw { column: 17, row: 5, glyph: '*' });
    assert_eq!(picture[1439], Draw { column: 60, row: 24, glyph: '*' });
    for row in 0..HEIGHT {
        for col in 0..WIDTH {
            let draw = picture[row * WIDTH + col];
            assert_eq!(draw.column as usize, col + 1);
            assert_eq!(draw.row as usize, row + 1);
            assert_eq!(draw.glyph, glyph(grid.get(row, col).unwrap()));
        }
    }
}

#[test]
fn render_of_an_empty_grid_is_all_blanks() {
    let picture = render(&Grid::new());
    assert_eq!(picture.len(), 1440);
    assert!(picture.iter().all(|draw| draw.glyph == ' '));
}

#[test]
fn frame_has_corners_edges_and_sides() {
    let frame = draw_frame();
    assert_eq!(frame.len(), 2 * (WIDTH + 2) + 2 * HEIGHT);
    assert_eq!(frame.len(), 172);
    assert_eq!(frame[0], Draw { column: 0, row: 0, glyph: '+' });
    assert_eq!(frame[1], Draw { column: 1, row: 0, glyph: '-' });
    assert_eq!(frame[60], Draw { column: 60, row: 0, glyph: '-' });
    assert_eq!(frame[61], Draw { column: 61, row: 0, glyph: '+' });
    assert_eq!(frame[62], Draw { column: 0, row: 1, glyph: '|' });
    assert_eq!(frame[63], Draw { column: 61, row: 1, glyph: '|' });
    assert_eq!(frame[108], Draw { column: 0, row: 24, glyph: '|' });
    assert_eq!(frame[109], Draw { column: 61, row: 24, glyph: '|' });
    assert_eq!(frame[110], Draw { column: 0, row: 25, glyph: '+' });
    assert_eq!(frame[111], Draw { column: 1, row: 25, glyph: '-' });
    assert_eq!(frame[170], Draw { column: 60, row: 25, glyph: '-' });
    assert_eq!(frame[171], Draw { column: 61, row: 25, glyph: '+' });
}

#[test]
fn frame_draws_the_box_and_nothing_on_the_canvas() {
    let frame = draw_frame();
    let mut screen = vec![vec![' '; WIDTH + 2]; HEIGHT + 2];
    for draw in &frame {
        assert_eq!(cell_at(draw.column, draw.row), None);
        assert_eq!(screen[draw.row as usize][draw.column as usize], ' ');
        screen[draw.row as usize][draw.column as usize] = draw.glyph;
    }
    let edge: String = format!("+{}+", "-".repeat(WIDTH));
    let side: String = format!("|{}|", " ".repeat(WIDTH));
    for (row, line) in screen.iter().enumerate() {
        let text: String = line.iter().collect();
        if row == 0 || row == HEIGHT + 1 {
            assert_eq!(text, edge);
        } else {
            assert_eq!(text, side);
        }
    }
}

#[test]
fn banner_is_three_rows_below_the_canvas() {
    assert_eq!(banner_row(), 27);
}
