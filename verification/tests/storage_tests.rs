use viewtris::storage::BoardStorage;
use viewtris::tetromino::{Cell, MinoVariant};

fn empty_grid(rows: usize, columns: usize) -> Vec<Vec<Cell>> {
    (0..rows).map(|_| vec![Cell::Empty; columns]).collect()
}

#[test]
fn dimensions_follow_rows() {
    let grid = BoardStorage::new_from_rows_unchecked(empty_grid(4, 10));
    assert_eq!(grid.dimensions(), (4, 10));
    assert_eq!(grid.root(), (0, 0));
}

#[test]
fn dimensions_of_empty_grid() {
    let grid = BoardStorage::<Cell>::new_from_rows_unchecked(Vec::new());
    assert_eq!(grid.dimensions(), (0, 0));
}

#[test]
fn get_set_replace() {
    let mut grid = BoardStorage::new_from_rows_unchecked(empty_grid(4, 10));
    assert_eq!(*grid.get_unchecked(2, 5), Cell::Empty);
    grid.set_unchecked(2, 5, Cell::Garbage);
    assert_eq!(*grid.get_unchecked(2, 5), Cell::Garbage);
    let old = grid.replace_unchecked(2, 5, Cell::Tetromino(MinoVariant::T));
    assert_eq!(old, Cell::Garbage);
    assert_eq!(*grid.get_unchecked(2, 5), Cell::Tetromino(MinoVariant::T));
    assert_eq!(*grid.get_unchecked(2, 4), Cell::Empty);
}

#[test]
fn clear_line_shifts_rows_up() {
    let mut rows = empty_grid(4, 3);
    rows[1] = vec![Cell::Garbage; 3];
    rows[2] = vec![Cell::Tetromino(MinoVariant::O); 3];
    let mut grid = BoardStorage::new_from_rows_unchecked(rows);

    grid.clear_line(1);

    // rows after index 1 shift up by one; the vacated last row is empty
    assert_eq!(grid.dimensions(), (4, 3));
    assert_eq!(*grid.get_unchecked(1, 0), Cell::Tetromino(MinoVariant::O));
    assert_eq!(*grid.get_unchecked(2, 0), Cell::Empty);
    assert_eq!(*grid.get_unchecked(3, 0), Cell::Empty);
}

#[test]
fn clear_line_preserves_dimensions() {
    let mut grid = BoardStorage::new_from_rows_unchecked(empty_grid(7, 5));
    for l in [0usize, 3, 6] {
        grid.clear_line(l);
        assert_eq!(grid.dimensions(), (7, 5));
    }
}

#[test]
fn restore_line_undoes_clear_line() {
    let mut rows = empty_grid(4, 3);
    rows[2] = vec![Cell::Tetromino(MinoVariant::L); 3];
    let original = rows.clone();
    let mut grid = BoardStorage::new_from_rows_unchecked(rows);

    let saved = grid.line(2);
    grid.clear_line(2);
    grid.restore_line(2, saved);

    assert_eq!(grid.storage, original);
}

#[test]
fn add_garbage_fills_and_scrolls() {
    let mut rows = empty_grid(4, 3);
    rows[0] = vec![Cell::Tetromino(MinoVariant::J); 3];
    let mut grid = BoardStorage::new_from_rows_unchecked(rows);

    grid.add_garbage(1, 2);

    assert_eq!(grid.dimensions(), (4, 3));
    // first two rows are garbage with an open cell in column 1
    for r in 0..2 {
        assert_eq!(*grid.get_unchecked(r, 0), Cell::Garbage);
        assert_eq!(*grid.get_unchecked(r, 1), Cell::Empty);
        assert_eq!(*grid.get_unchecked(r, 2), Cell::Garbage);
    }
    // the old first row shifted to index 2
    assert_eq!(*grid.get_unchecked(2, 0), Cell::Tetromino(MinoVariant::J));
    assert_eq!(*grid.get_unchecked(3, 0), Cell::Empty);
}

#[test]
fn remove_garbage_restores_empty_rows() {
    let mut grid = BoardStorage::new_from_rows_unchecked(empty_grid(4, 3));
    grid.add_garbage(0, 3);
    grid.remove_garbage(3);
    for r in 0..4 {
        for c in 0..3 {
            assert_eq!(*grid.get_unchecked(r, c), Cell::Empty);
        }
    }
    assert_eq!(grid.dimensions(), (4, 3));
}
