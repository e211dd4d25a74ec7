use tetris::grid::{Grid, GRID_COLS, GRID_ROWS};
use tetris::piece_type::PieceType;
use tetris::shape::{get_piece_shape, rotate_shape};

fn snapshot(grid: &Grid) -> Vec<Vec<Option<PieceType>>> {
    let mut rows = Vec::new();
    for r in 0..GRID_ROWS {
        let mut row = Vec::new();
        for c in 0..GRID_COLS {
            row.push(grid.get(r, c));
        }
        rows.push(row);
    }
    rows
}

fn empty_snapshot() -> Vec<Vec<Option<PieceType>>> {
    vec![vec![None; 10]; 20]
}

fn fill_row(grid: &mut Grid, row: usize, t: PieceType) {
    for c in 0..GRID_COLS {
        grid.set(row, c, Some(t));
    }
}

#[test]
fn dimensions_are_ten_by_twenty() {
    assert_eq!(GRID_ROWS, 20);
    assert_eq!(GRID_COLS, 10);
}

#[test]
fn new_grid_is_empty() {
    assert_eq!(snapshot(&Grid::new()), empty_snapshot());
}

#[test]
fn set_overwrites_one_cell() {
    let mut grid = Grid::new();
    grid.set(19, 9, Some(PieceType::Z));
    grid.set(0, 0, Some(PieceType::I));
    let mut expected = empty_snapshot();
    expected[19][9] = Some(PieceType::Z);
    expected[0][0] = Some(PieceType::I);
    assert_eq!(snapshot(&grid), expected);
    grid.set(19, 9, None);
    expected[19][9] = None;
    assert_eq!(snapshot(&grid), expected);
}

#[test]
fn can_place_checks_the_side_walls() {
    let grid = Grid::new();
    let bar = get_piece_shape(PieceType::I);
    assert!(grid.can_place(&bar, 0, 0));
    assert!(!grid.can_place(&bar, -1, 0));
    assert!(grid.can_place(&bar, 6, 0));
    assert!(!grid.can_place(&bar, 7, 0));
    assert!(!grid.can_place(&bar, 10, 0));
    assert!(!grid.can_place(&bar, i32::MAX, 0));
    assert!(!grid.can_place(&bar, i32::MIN, 0));
}

#[test]
fn can_place_checks_the_floor_but_not_the_top() {
    let grid = Grid::new();
    let bar = get_piece_shape(PieceType::I);
    assert!(grid.can_place(&bar, 3, 19));
    assert!(!grid.can_place(&bar, 3, 20));
    assert!(!grid.can_place(&bar, 3, i32::MAX));
    assert!(grid.can_place(&bar, 3, -1));
    assert!(grid.can_place(&bar, 3, -100));
    assert!(grid.can_place(&bar, 3, i32::MIN));
    let standing = rotate_shape(&bar);
    assert!(grid.can_place(&standing, 9, 16));
    assert!(!grid.can_place(&standing, 9, 17));
    assert!(grid.can_place(&standing, 0, -4));
}

#[test]
fn can_place_rejects_overlap_on_rows_of_the_playfield() {
    let mut grid = Grid::new();
    grid.set(0, 5, Some(PieceType::J));
    let bar = get_piece_shape(PieceType::I);
    assert!(!grid.can_place(&bar, 2, 0));
    assert!(!grid.can_place(&bar, 5, 0));
    assert!(grid.can_place(&bar, 6, 0));
    assert!(grid.can_place(&bar, 1, 0));
    assert!(grid.can_place(&bar, 2, 1));
    assert!(grid.can_place(&bar, 2, -1));
}

#[test]
fn can_place_looks_at_occupied_cells_only() {
    let mut grid = Grid::new();
    grid.set(18, 4, Some(PieceType::O));
    // The T layout has empty corners in its first row.
    let tee = get_piece_shape(PieceType::T);
    assert!(grid.can_place(&tee, 4, 18));
    assert!(!grid.can_place(&tee, 3, 18));
    // A shape without an occupied cell fits everywhere.
    let hollow = vec![vec![false, false], vec![false, false]];
    assert!(grid.can_place(&hollow, 100, 100));
    assert!(grid.can_place(&hollow, -100, 4));
    let none: Vec<Vec<bool>> = Vec::new();
    assert!(grid.can_place(&none, 55, 55));
    // The left column of this shape is empty, so it may hang over the wall.
    let right_only = vec![vec![false, true], vec![false, true]];
    assert!(grid.can_place(&right_only, -1, 0));
    assert!(!grid.can_place(&right_only, -2, 0));
    assert!(!grid.can_place(&right_only, 9, 0));
}

#[test]
fn can_place_takes_rows_of_different_lengths() {
    let grid = Grid::new();
    let ragged = vec![vec![true], vec![true, true, true]];
    assert!(grid.can_place(&ragged, 7, 18));
    assert!(!grid.can_place(&ragged, 8, 18));
    assert!(!grid.can_place(&ragged, 7, 19));
}

#[test]
fn lock_cells_writes_the_identity_where_the_shape_is_occupied() {
    let mut grid = Grid::new();
    grid.set(18, 3, Some(PieceType::Z));
    grid.lock_cells(&get_piece_shape(PieceType::T), 3, 18, PieceType::T);
    let mut expected = empty_snapshot();
    expected[18][3] = Some(PieceType::Z);
    expected[18][4] = Some(PieceType::T);
    expected[19][3] = Some(PieceType::T);
    expected[19][4] = Some(PieceType::T);
    expected[19][5] = Some(PieceType::T);
    assert_eq!(snapshot(&grid), expected);
}

#[test]
fn lock_cells_overwrites_occupied_cells() {
    let mut grid = Grid::new();
    grid.set(5, 5, Some(PieceType::J));
    grid.lock_cells(&get_piece_shape(PieceType::O), 4, 4, PieceType::O);
    let mut expected = empty_snapshot();
    expected[4][4] = Some(PieceType::O);
    expected[4][5] = Some(PieceType::O);
    expected[5][4] = Some(PieceType::O);
    expected[5][5] = Some(PieceType::O);
    assert_eq!(snapshot(&grid), expected);
}

#[test]
fn lock_cells_drops_cells_above_the_top() {
    let mut grid = Grid::new();
    grid.lock_cells(&get_piece_shape(PieceType::T), 3, -1, PieceType::T);
    let mut expected = empty_snapshot();
    expected[0][3] = Some(PieceType::T);
    expected[0][4] = Some(PieceType::T);
    expected[0][5] = Some(PieceType::T);
    assert_eq!(snapshot(&grid), expected);
    let mut other = Grid::new();
    other.lock_cells(&get_piece_shape(PieceType::I), 0, -3, PieceType::I);
    assert_eq!(snapshot(&other), empty_snapshot());
}

#[test]
fn row_is_complete_when_all_ten_cells_are_occupied() {
    let mut grid = Grid::new();
    assert!(!grid.is_row_complete(7));
    for c in 0..9 {
        grid.set(7, c, Some(PieceType::S));
    }
    assert!(!grid.is_row_complete(7));
    grid.set(7, 9, Some(PieceType::L));
    assert!(grid.is_row_complete(7));
    assert!(!grid.is_row_complete(6));
    assert!(!grid.is_row_complete(8));
    grid.set(7, 0, None);
    assert!(!grid.is_row_complete(7));
}

#[test]
fn clear_rows_leaves_a_grid_without_complete_rows_alone() {
    let mut grid = Grid::new();
    grid.set(19, 0, Some(PieceType::I));
    grid.set(3, 4, Some(PieceType::J));
    for c in 0..9 {
        grid.set(12, c, Some(PieceType::S));
    }
    let before = snapshot(&grid);
    grid.clear_rows();
    assert_eq!(snapshot(&grid), before);
}

#[test]
fn clear_rows_empties_a_full_grid() {
    let mut grid = Grid::new();
    let types = [PieceType::I, PieceType::J, PieceType::L, PieceType::O];
    for r in 0..GRID_ROWS {
        for c in 0..GRID_COLS {
            grid.set(r, c, Some(types[(r + c) % 4]));
        }
    }
    grid.clear_rows();
    assert_eq!(snapshot(&grid), empty_snapshot());
}

#[test]
fn clear_rows_removes_two_separated_rows() {
    let mut grid = Grid::new();
    fill_row(&mut grid, 5, PieceType::I);
    fill_row(&mut grid, 10, PieceType::O);
    grid.set(2, 3, Some(PieceType::J));
    grid.set(4, 0, Some(PieceType::T));
    grid.set(7, 1, Some(PieceType::L));
    grid.set(9, 9, Some(PieceType::Z));
    grid.set(15, 9, Some(PieceType::S));
    grid.clear_rows();
    let mut expected = empty_snapshot();
    // Above both removed rows: down by two.
    expected[4][3] = Some(PieceType::J);
    expected[6][0] = Some(PieceType::T);
    // Between them: down by one.
    expected[8][1] = Some(PieceType::L);
    expected[10][9] = Some(PieceType::Z);
    // Below both: where it was.
    expected[15][9] = Some(PieceType::S);
    assert_eq!(snapshot(&grid), expected);
}

#[test]
fn clear_rows_with_two_complete_rows_and_nothing_else_gives_an_empty_grid() {
    let mut grid = Grid::new();
    fill_row(&mut grid, 5, PieceType::I);
    fill_row(&mut grid, 10, PieceType::I);
    grid.clear_rows();
    assert_eq!(snapshot(&grid), empty_snapshot());
}

#[test]
fn clear_rows_removes_adjacent_rows_at_the_floor() {
    let mut grid = Grid::new();
    fill_row(&mut grid, 18, PieceType::Z);
    fill_row(&mut grid, 19, PieceType::S);
    grid.set(17, 2, Some(PieceType::T));
    grid.set(16, 2, Some(PieceType::T));
    grid.clear_rows();
    let mut expected = empty_snapshot();
    expected[19][2] = Some(PieceType::T);
    expected[18][2] = Some(PieceType::T);
    assert_eq!(snapshot(&grid), expected);
}

#[test]
fn clear_rows_does_not_look_at_the_top_row_alone() {
    let mut grid = Grid::new();
    fill_row(&mut grid, 0, PieceType::J);
    grid.set(10, 4, Some(PieceType::O));
    let before = snapshot(&grid);
    grid.clear_rows();
    assert_eq!(snapshot(&grid), before);
}

#[test]
fn clear_rows_removes_the_top_row_once_a_row_below_is_removed() {
    let mut grid = Grid::new();
    fill_row(&mut grid, 0, PieceType::J);
    fill_row(&mut grid, 1, PieceType::L);
    grid.set(10, 4, Some(PieceType::O));
    grid.clear_rows();
    let mut expected = empty_snapshot();
    expected[10][4] = Some(PieceType::O);
    assert_eq!(snapshot(&grid), expected);

    let mut other = Grid::new();
    fill_row(&mut other, 0, PieceType::J);
    fill_row(&mut other, 19, PieceType::L);
    other.set(10, 4, Some(PieceType::O));
    other.clear_rows();
    let mut moved = empty_snapshot();
    moved[11][4] = Some(PieceType::O);
    assert_eq!(snapshot(&other), moved);
}

#[test]
fn clear_rows_keeps_the_identities_of_the_rows_that_stay() {
    let mut grid = Grid::new();
    fill_row(&mut grid, 19, PieceType::I);
    for c in 0..GRID_COLS {
        if c != 6 {
            grid.set(18, c, Some(PieceType::from_index((c % 7) as u32).unwrap()));
        }
    }
    let row_before = snapshot(&grid)[18].clone();
    grid.clear_rows();
    let after = snapshot(&grid);
    assert_eq!(after[19], row_before);
    for r in 0..19 {
        assert_eq!(after[r], vec![None; 10]);
    }
}
