use viewtris::action::ActionKind;
use viewtris::board::{Board, BoardError, BOARD_COLUMNS, BOARD_ROWS};
use viewtris::storage::BoardStorage;
use viewtris::tetromino::{Cell, Direction, Mino, MinoVariant};

fn empty_grid(rows: usize, columns: usize) -> Vec<Vec<Cell>> {
    (0..rows).map(|_| vec![Cell::Empty; columns]).collect()
}

fn small_board(rows: usize, columns: usize) -> Board {
    Board {
        cells: BoardStorage::new_from_rows_unchecked(empty_grid(rows, columns)),
        active: None,
        hold: None,
        cleared_rows: Vec::new(),
        holds_passed: 0,
    }
}

#[test]
fn empty_board_state() {
    let board = Board::empty();
    assert_eq!(board.cells.dimensions(), (BOARD_ROWS, BOARD_COLUMNS));
    for r in 0..BOARD_ROWS {
        for c in 0..BOARD_COLUMNS {
            assert_eq!(*board.cells.get_unchecked(r, c), Cell::Empty);
        }
    }
    assert_eq!(board.active, None);
    assert_eq!(board.hold, None);
    assert!(board.cleared_rows.is_empty());
    assert_eq!(board.holds_passed, 0);
}

#[test]
fn garbage_round_trip() {
    let mut board = small_board(4, 10);
    let action = ActionKind::Garbage { column: 3, height: 2 };

    board.apply_action(&action);
    // rows 0-1 are garbage, open in column 3
    for r in 0..2 {
        for c in 0..10 {
            let expected = if c == 3 { Cell::Empty } else { Cell::Garbage };
            assert_eq!(*board.cells.get_unchecked(r, c), expected);
        }
    }
    // rows 2-3 hold the original rows 0-1, garbage-free
    for r in 2..4 {
        for c in 0..10 {
            assert_eq!(*board.cells.get_unchecked(r, c), Cell::Empty);
        }
    }

    board.rollback_action(&action);
    assert_eq!(board.cells.storage, empty_grid(4, 10));
    assert_eq!(board.cells.dimensions(), (4, 10));
}

#[test]
fn line_clear_round_trip() {
    let mut board = Board::empty();
    let o_row = vec![Cell::Tetromino(MinoVariant::O); 10];
    for c in 0..10 {
        board.apply_action(&ActionKind::Cell {
            position: (c, 2),
            kind: Cell::Tetromino(MinoVariant::O),
        });
    }
    let action = ActionKind::LineClear { row: 2 };

    board.apply_action(&action);
    for c in 0..10 {
        assert_eq!(*board.cells.get_unchecked(2, c), Cell::Empty);
    }
    assert_eq!(board.cleared_rows.len(), 1);
    assert_eq!(board.cleared_rows[0], o_row);

    board.rollback_action(&action);
    for c in 0..10 {
        assert_eq!(
            *board.cells.get_unchecked(2, c),
            Cell::Tetromino(MinoVariant::O)
        );
    }
    assert!(board.cleared_rows.is_empty());
    assert_eq!(board.cells.dimensions(), (BOARD_ROWS, BOARD_COLUMNS));
}

#[test]
fn mixed_sequence_round_trip() {
    // for a sequence of garbage and line clears, rolling back in exact
    // reverse order restores the state before the first application
    let mut board = small_board(6, 4);
    board.apply_action(&ActionKind::Cell {
        position: (1, 0),
        kind: Cell::Tetromino(MinoVariant::S),
    });
    let before = board.cells.storage.clone();

    let actions = [
        ActionKind::Garbage { column: 0, height: 2 },
        ActionKind::LineClear { row: 1 },
        ActionKind::Garbage { column: 3, height: 1 },
        ActionKind::LineClear { row: 4 },
    ];
    for a in &actions {
        board.apply_action(a);
    }
    for a in actions.iter().rev() {
        board.rollback_action(a);
    }

    assert_eq!(board.cells.storage, before);
    assert!(board.cleared_rows.is_empty());
}

#[test]
fn reposition_sets_active() {
    let mut board = Board::empty();
    let piece = Mino {
        variant: MinoVariant::T,
        direction: Direction::Left,
        coord: (4, 20),
    };
    board.apply_action(&ActionKind::Reposition { piece });
    assert_eq!(board.active, Some(piece));
    // rollback re-applies the same piece: not a true inverse
    board.rollback_action(&ActionKind::Reposition { piece });
    assert_eq!(board.active, Some(piece));
}

#[test]
fn cell_action_sets_and_rollback_empties() {
    let mut board = Board::empty();
    let action = ActionKind::Cell {
        position: (7, 13),
        kind: Cell::Tetromino(MinoVariant::Z),
    };
    board.apply_action(&action);
    assert_eq!(
        *board.cells.get_unchecked(13, 7),
        Cell::Tetromino(MinoVariant::Z)
    );
    board.rollback_action(&action);
    assert_eq!(*board.cells.get_unchecked(13, 7), Cell::Empty);
}

#[test]
fn hold_sequence() {
    let mut board = Board::empty();
    let i_piece = Mino {
        variant: MinoVariant::I,
        direction: Direction::Down,
        coord: (5, 18),
    };
    board.apply_action(&ActionKind::Reposition { piece: i_piece });

    board.apply_action(&ActionKind::Hold);
    assert_eq!(board.hold, Some(MinoVariant::I));
    assert_eq!(board.active, None);
    assert_eq!(board.holds_passed, 1);

    let o_piece = Mino {
        variant: MinoVariant::O,
        direction: Direction::Up,
        coord: (3, 21),
    };
    board.apply_action(&ActionKind::Reposition { piece: o_piece });
    board.apply_action(&ActionKind::Hold);
    assert_eq!(board.hold, Some(MinoVariant::O));
    // the previously held shape comes back at default orientation and origin
    assert_eq!(
        board.active,
        Some(Mino {
            variant: MinoVariant::I,
            direction: Direction::Up,
            coord: (0, 0),
        })
    );
    assert_eq!(board.holds_passed, 2);

    // rollback of the second hold: counter above one hands the active
    // piece's shape back to the hold slot
    board.rollback_action(&ActionKind::Hold);
    assert_eq!(board.holds_passed, 1);
    assert_eq!(board.hold, Some(MinoVariant::I));

    // rollback at exactly one empties the hold slot
    board.rollback_action(&ActionKind::Hold);
    assert_eq!(board.holds_passed, 0);
    assert_eq!(board.hold, None);

    // rollback at zero is a no-op
    board.rollback_action(&ActionKind::Hold);
    assert_eq!(board.holds_passed, 0);
    assert_eq!(board.hold, None);
}

#[test]
fn try_apply_out_of_bounds() {
    let mut board = Board::empty();
    let too_tall = ActionKind::Garbage { column: 0, height: BOARD_ROWS + 1 };
    assert_eq!(board.try_apply(&too_tall), Err(BoardError::OutOfBounds));
    let bad_cell = ActionKind::Cell {
        position: (BOARD_COLUMNS, 0),
        kind: Cell::Garbage,
    };
    assert_eq!(board.try_apply(&bad_cell), Err(BoardError::OutOfBounds));
    let bad_clear = ActionKind::LineClear { row: BOARD_ROWS };
    assert_eq!(board.try_apply(&bad_clear), Err(BoardError::OutOfBounds));
    // the board is untouched
    assert_eq!(board.cells.storage, empty_grid(BOARD_ROWS, BOARD_COLUMNS));
}

#[test]
fn try_apply_ok() {
    let mut board = Board::empty();
    assert_eq!(
        board.try_apply(&ActionKind::Garbage { column: 9, height: 40 }),
        Ok(())
    );
    assert_eq!(*board.cells.get_unchecked(39, 0), Cell::Garbage);
    assert_eq!(*board.cells.get_unchecked(39, 9), Cell::Empty);
}

#[test]
fn try_apply_hold_limit() {
    let mut board = Board::empty();
    for _ in 0..u16::MAX {
        assert_eq!(board.try_apply(&ActionKind::Hold), Ok(()));
    }
    assert_eq!(board.holds_passed, u16::MAX);
    assert_eq!(
        board.try_apply(&ActionKind::Hold),
        Err(BoardError::HoldLimitReached)
    );
    assert_eq!(board.holds_passed, u16::MAX);
}

#[test]
fn try_rollback_empty_undo_stack() {
    let mut board = Board::empty();
    assert_eq!(
        board.try_rollback(&ActionKind::LineClear { row: 0 }),
        Err(BoardError::EmptyUndoStack)
    );
    assert_eq!(
        board.try_rollback(&ActionKind::LineClear { row: BOARD_ROWS }),
        Err(BoardError::OutOfBounds)
    );
}

#[test]
fn try_rollback_missing_active_piece() {
    let mut board = Board::empty();
    // two holds with no active piece: counter is 2, active is still none
    board.apply_action(&ActionKind::Hold);
    board.apply_action(&ActionKind::Hold);
    assert_eq!(board.holds_passed, 2);
    assert_eq!(board.active, None);
    assert_eq!(
        board.try_rollback(&ActionKind::Hold),
        Err(BoardError::MissingActivePiece)
    );
    assert_eq!(board.holds_passed, 2);
}
