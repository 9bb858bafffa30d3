use falling_sand::grid::{Cell, Grid, HEIGHT, WIDTH};
use falling_sand::physics::sand_fall;

fn grid_with(sand: &[(usize, usize)]) -> Grid {
    let mut grid = Grid::new();
    for &(row, col) in sand {
        assert!(grid.set(row, col, Cell::Sand));
    }
    grid
}

fn sand_cells(grid: &Grid) -> Vec<(usize, usize)> {
    let mut cells = Vec::new();
    for row in 0..HEIGHT {
        for col in 0..WIDTH {
            if grid.get(row, col) == Some(Cell::Sand) {
                cells.push((row, col));
            }
        }
    }
    cells
}

fn scattered(seed: &mut u64, percent: u64) -> Grid {
    let mut grid = Grid::new();
    for row in 0..HEIGHT {
        for col in 0..WIDTH {
            *seed = seed.wrapping_mul(6364136223846793005).wrapping_add(1442695040888963407);
            if (*seed >> 33) % 100 < percent {
                assert!(grid.set(row, col, Cell::Sand));
            }
        }
    }
    grid
}

fn sand_down_to(grid: &Grid, last_row: usize) -> usize {
    sand_cells(grid).iter().filter(|&&(row, _)| row <= last_row).count()
}

fn pass_on_booleans(cells: &mut Vec<Vec<bool>>) {
    for row in (0..HEIGHT - 1).rev() {
        for col in 0..WIDTH {
            if !cells[row][col] {
                continue;
            }
            let mut tried = vec![col];
            if col > 1 {
                tried.push(col - 1);
            }
            if col + 1 < WIDTH {
                tried.push(col + 1);
            }
            if let Some(&free) = tried.iter().find(|&&below| !cells[row + 1][below]) {
                cells[row][col] = false;
                cells[row + 1][free] = true;
            }
        }
    }
}

#[test]
fn grain_falls_one_row_per_pass() {
    let mut grid = grid_with(&[(0, 5)]);
    sand_fall(&mut grid);
    assert_eq!(sand_cells(&grid), vec![(1, 5)]);
    sand_fall(&mut grid);
    assert_eq!(sand_cells(&grid), vec![(2, 5)]);
    sand_fall(&mut grid);
    assert_eq!(sand_cells(&grid), vec![(3, 5)]);
}

#[test]
fn empty_grid_stays_empty() {
    let mut grid = Grid::new();
    sand_fall(&mut grid);
    assert_eq!(grid, Grid::new());
}

#[test]
fn grain_in_the_last_row_stays() {
    let mut grid = grid_with(&[(HEIGHT - 1, 0), (HEIGHT - 1, 30), (HEIGHT - 1, WIDTH - 1)]);
    let before = grid;
    sand_fall(&mut grid);
    assert_eq!(grid, before);
}

#[test]
fn straight_down_beats_both_diagonals() {
    let mut grid = grid_with(&[(5, 10)]);
    assert_eq!(grid.get(6, 9), Some(Cell::Empty));
    assert_eq!(grid.get(6, 10), Some(Cell::Empty));
    assert_eq!(grid.get(6, 11), Some(Cell::Empty));
    sand_fall(&mut grid);
    assert_eq!(sand_cells(&grid), vec![(6, 10)]);
}

#[test]
fn down_left_beats_down_right() {
    let mut grid = grid_with(&[(22, 10), (23, 10)]);
    sand_fall(&mut grid);
    assert_eq!(sand_cells(&grid), vec![(23, 9), (23, 10)]);
}

#[test]
fn down_right_when_down_left_is_taken() {
    let mut grid = grid_with(&[(22, 10), (23, 9), (23, 10)]);
    sand_fall(&mut grid);
    assert_eq!(sand_cells(&grid), vec![(23, 9), (23, 10), (23, 11)]);
}

#[test]
fn grain_with_all_three_cells_taken_stays() {
    let mut grid = grid_with(&[(22, 10), (23, 9), (23, 10), (23, 11)]);
    let before = grid;
    sand_fall(&mut grid);
    assert_eq!(grid, before);
}

#[test]
fn column_one_does_not_fall_down_left() {
    let mut grid = grid_with(&[(22, 1), (23, 1)]);
    assert_eq!(grid.get(23, 0), Some(Cell::Empty));
    assert_eq!(grid.get(23, 2), Some(Cell::Empty));
    sand_fall(&mut grid);
    assert_eq!(grid.get(23, 0), Some(Cell::Empty));
    assert_eq!(sand_cells(&grid), vec![(23, 1), (23, 2)]);
}

#[test]
fn column_one_stays_when_only_down_left_is_free() {
    let mut grid = grid_with(&[(22, 1), (23, 1), (23, 2)]);
    let before = grid;
    sand_fall(&mut grid);
    assert_eq!(grid, before);
    assert_eq!(grid.get(23, 0), Some(Cell::Empty));
}

#[test]
fn column_two_falls_down_left() {
    let mut grid = grid_with(&[(22, 2), (23, 2)]);
    sand_fall(&mut grid);
    assert_eq!(sand_cells(&grid), vec![(23, 1), (23, 2)]);
}

#[test]
fn column_zero_falls_down_right_only() {
    let mut grid = grid_with(&[(22, 0), (23, 0)]);
    sand_fall(&mut grid);
    assert_eq!(sand_cells(&grid), vec![(23, 0), (23, 1)]);
    let mut grid = grid_with(&[(22, 0), (23, 0), (23, 1)]);
    let before = grid;
    sand_fall(&mut grid);
    assert_eq!(grid, before);
}

#[test]
fn last_column_falls_down_left_only() {
    let mut grid = grid_with(&[(22, WIDTH - 1), (23, WIDTH - 1)]);
    sand_fall(&mut grid);
    assert_eq!(sand_cells(&grid), vec![(23, WIDTH - 2), (23, WIDTH - 1)]);
    let mut grid = grid_with(&[(22, WIDTH - 1), (23, WIDTH - 2), (23, WIDTH - 1)]);
    let before = grid;
    sand_fall(&mut grid);
    assert_eq!(grid, before);
}

#[test]
fn stacked_grains_fall_together() {
    let mut grid = grid_with(&[(0, 5), (1, 5), (2, 5)]);
    sand_fall(&mut grid);
    assert_eq!(sand_cells(&grid), vec![(1, 5), (2, 5), (3, 5)]);
}

#[test]
fn no_grain_falls_two_rows_in_one_pass() {
    let mut grid = grid_with(&[(0, 0), (3, 20), (10, 59), (21, 30)]);
    sand_fall(&mut grid);
    assert_eq!(sand_cells(&grid), vec![(1, 0), (4, 20), (11, 59), (22, 30)]);
}

#[test]
fn left_neighbour_can_take_the_cell_below() {
    // The grain at (22, 10) has all three cells below it free before the
    // pass. The grains to its left are visited first: the one at (22, 8)
    // goes down-right to (23, 9), and the one at (22, 9) then goes
    // down-right to (23, 10). So the grain at (22, 10) finds the cell below
    // it taken and goes down-right itself.
    let mut grid = grid_with(&[(22, 8), (22, 9), (22, 10), (23, 7), (23, 8)]);
    assert_eq!(grid.get(23, 9), Some(Cell::Empty));
    assert_eq!(grid.get(23, 10), Some(Cell::Empty));
    assert_eq!(grid.get(23, 11), Some(Cell::Empty));
    sand_fall(&mut grid);
    assert_eq!(sand_cells(&grid), vec![(23, 7), (23, 8), (23, 9), (23, 10), (23, 11)]);
}

#[test]
fn pass_conserves_sand() {
    let mut grid = Grid::new();
    for row in 0..10 {
        for col in 20..40 {
            assert!(grid.set(row, col, Cell::Sand));
        }
    }
    assert_eq!(grid.count_sand(), 200);
    for _ in 0..100 {
        sand_fall(&mut grid);
        assert_eq!(grid.count_sand(), 200);
    }
}

#[test]
fn full_grid_is_at_rest() {
    let mut grid = Grid::new();
    for row in 0..HEIGHT {
        for col in 0..WIDTH {
            assert!(grid.set(row, col, Cell::Sand));
        }
    }
    let before = grid;
    sand_fall(&mut grid);
    assert_eq!(grid, before);
    assert_eq!(grid.count_sand(), WIDTH * HEIGHT);
}

#[test]
fn lone_grain_above_a_full_row_settles() {
    let mut grid = Grid::new();
    for col in 0..WIDTH {
        assert!(grid.set(HEIGHT - 1, col, Cell::Sand));
    }
    assert!(grid.set(0, 30, Cell::Sand));
    for pass in 1..=HEIGHT {
        sand_fall(&mut grid);
        let row = if pass < HEIGHT - 2 { pass } else { HEIGHT - 2 };
        assert_eq!(grid.get(row, 30), Some(Cell::Sand));
        assert_eq!(grid.count_sand(), WIDTH + 1);
    }
    let settled = grid;
    assert_eq!(settled.get(HEIGHT - 2, 30), Some(Cell::Sand));
    assert_eq!(settled.get(0, 30), Some(Cell::Empty));
    for _ in 0..10 {
        sand_fall(&mut grid);
        assert_eq!(grid, settled);
    }
}

#[test]
fn column_of_grains_settles_into_a_heap() {
    let mut grid = grid_with(&[(19, 10), (20, 10), (21, 10), (22, 10), (23, 10)]);
    for _ in 0..HEIGHT {
        sand_fall(&mut grid);
    }
    assert_eq!(sand_cells(&grid), vec![(22, 10), (23, 8), (23, 9), (23, 10), (23, 11)]);
    let settled = grid;
    sand_fall(&mut grid);
    assert_eq!(grid, settled);
}

#[test]
fn pass_moves_no_grain_up_and_none_by_two_rows() {
    let mut seed: u64 = 0x9e37_79b9_7f4a_7c15;
    for round in 0..20 {
        let mut grid = scattered(&mut seed, 5 + 4 * round);
        for _ in 0..30 {
            let before = grid;
            sand_fall(&mut grid);
            assert_eq!(grid.count_sand(), before.count_sand());
            for row in 0..HEIGHT {
                assert!(sand_down_to(&grid, row) <= sand_down_to(&before, row));
                if row + 1 < HEIGHT {
                    assert!(sand_down_to(&grid, row + 1) >= sand_down_to(&before, row));
                }
            }
        }
    }
}

#[test]
fn scattered_sand_comes_to_rest() {
    let mut seed: u64 = 0x1234_5678_9abc_def0;
    for round in 0..10 {
        let mut grid = scattered(&mut seed, 10 + 8 * round);
        let grains = grid.count_sand();
        let mut passes = 0;
        loop {
            let before = grid;
            sand_fall(&mut grid);
            if grid == before {
                break;
            }
            passes += 1;
            assert!(passes <= (HEIGHT - 1) * grains);
        }
        let rested = grid;
        sand_fall(&mut grid);
        assert_eq!(grid, rested);
        assert_eq!(grid.count_sand(), grains);
    }
}

#[test]
fn pass_agrees_with_the_sweep_on_booleans() {
    let mut seed: u64 = 0x2545_f491_4f6c_dd1d;
    for round in 0..20 {
        let grid_at_start = scattered(&mut seed, 20 + 3 * round);
        let mut grid = grid_at_start;
        let mut cells = vec![vec![false; WIDTH]; HEIGHT];
        for (row, col) in sand_cells(&grid_at_start) {
            cells[row][col] = true;
        }
        for _ in 0..30 {
            sand_fall(&mut grid);
            pass_on_booleans(&mut cells);
            for row in 0..HEIGHT {
                for col in 0..WIDTH {
                    let expected = if cells[row][col] { Cell::Sand } else { Cell::Empty };
                    assert_eq!(grid.get(row, col), Some(expected));
                }
            }
        }
    }
}
