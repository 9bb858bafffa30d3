use falling_sand::grid::{Cell, Grid, HEIGHT, WIDTH};

#[test]
fn dimensions_are_sixty_by_twenty_four() {
    assert_eq!(WIDTH, 60);
    assert_eq!(HEIGHT, 24);
}

#[test]
fn new_grid_is_empty() {
    let grid = Grid::new();
    for row in 0..HEIGHT {
        for col in 0..WIDTH {
            assert_eq!(grid.get(row, col), Some(Cell::Empty));
        }
    }
    assert_eq!(grid.count_sand(), 0);
}

#[test]
fn set_then_get_gives_the_cell_back() {
    let mut grid = Grid::new();
    assert!(grid.set(3, 7, Cell::Sand));
    assert_eq!(grid.get(3, 7), Some(Cell::Sand));
    assert_eq!(grid.get(7, 3), Some(Cell::Empty));
    assert_eq!(grid.get(3, 6), Some(Cell::Empty));
    assert_eq!(grid.get(3, 8), Some(Cell::Empty));
    assert!(grid.set(3, 7, Cell::Empty));
    assert_eq!(grid.get(3, 7), Some(Cell::Empty));
    assert_eq!(grid, Grid::new());
}

#[test]
fn corners_can_be_written() {
    let mut grid = Grid::new();
    assert!(grid.set(0, 0, Cell::Sand));
    assert!(grid.set(0, WIDTH - 1, Cell::Sand));
    assert!(grid.set(HEIGHT - 1, 0, Cell::Sand));
    assert!(grid.set(HEIGHT - 1, WIDTH - 1, Cell::Sand));
    assert_eq!(grid.get(0, 0), Some(Cell::Sand));
    assert_eq!(grid.get(0, WIDTH - 1), Some(Cell::Sand));
    assert_eq!(grid.get(HEIGHT - 1, 0), Some(Cell::Sand));
    assert_eq!(grid.get(HEIGHT - 1, WIDTH - 1), Some(Cell::Sand));
    assert_eq!(grid.count_sand(), 4);
}

#[test]
fn get_outside_the_grid_is_none() {
    let grid = Grid::new();
    assert_eq!(grid.get(HEIGHT, 0), None);
    assert_eq!(grid.get(0, WIDTH), None);
    assert_eq!(grid.get(HEIGHT, WIDTH), None);
    assert_eq!(grid.get(usize::MAX, usize::MAX), None);
}

#[test]
fn set_outside_the_grid_changes_nothing() {
    let mut grid = Grid::new();
    assert!(grid.set(2, 2, Cell::Sand));
    let before = grid;
    assert!(!grid.set(HEIGHT, 0, Cell::Sand));
    assert!(!grid.set(0, WIDTH, Cell::Sand));
    assert!(!grid.set(usize::MAX, 0, Cell::Sand));
    assert_eq!(grid, before);
    assert_eq!(grid.count_sand(), 1);
}

#[test]
fn count_sand_counts_every_grain_once() {
    let mut grid = Grid::new();
    for col in 0..WIDTH {
        assert!(grid.set(HEIGHT - 1, col, Cell::Sand));
    }
    assert_eq!(grid.count_sand(), WIDTH);
    assert!(grid.set(0, 0, Cell::Sand));
    assert!(grid.set(0, 0, Cell::Sand));
    assert_eq!(grid.count_sand(), WIDTH + 1);
    for row in 0..HEIGHT {
        for col in 0..WIDTH {
            assert!(grid.set(row, col, Cell::Sand));
        }
    }
    assert_eq!(grid.count_sand(), WIDTH * HEIGHT);
}

#[test]
fn clear_empties_a_grid_with_sand() {
    let mut grid = Grid::new();
    assert!(grid.set(1, 1, Cell::Sand));
    assert!(grid.set(20, 40, Cell::Sand));
    assert_eq!(grid.count_sand(), 2);
    grid.clear();
    assert_eq!(grid.count_sand(), 0);
    assert_eq!(grid, Grid::new());
    assert_eq!(grid.get(HEIGHT - 1, WIDTH - 1), Some(Cell::Empty));
    assert_eq!(grid.get(HEIGHT, WIDTH - 1), None);
}
