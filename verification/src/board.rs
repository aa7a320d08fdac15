//! The board state machine: a grid of cells plus auxiliary state (active
//! piece, hold slot, undo stack for cleared rows, hold-parity counter), with
//! one forward transition and one rollback transition per [`ActionKind`].
//!
//! Every transition is specified against the mathematical model
//! [`BoardView`]: `apply_action` realises [`apply_kind`] and
//! `rollback_action` realises [`rollback_kind`], exactly.

use vstd::prelude::*;

use crate::action::ActionKind;
use crate::storage::{empty_row, empty_row_vec, garbage_row, BoardStorage};
use crate::tetromino::{Cell, Direction, Mino, MinoVariant};

verus! {

/// Row count of the playing field a fresh board is created with.
pub const BOARD_ROWS: usize = 40;

/// Column count of the playing field a fresh board is created with.
pub const BOARD_COLUMNS: usize = 10;

/// The mathematical state of a [`Board`]: the grid as a sequence of rows of
/// cells, the declared column count, the active and held pieces, the stack of
/// saved cleared rows, and the hold-parity counter.
#[verifier::ext_equal]
pub ghost struct BoardView {
    pub grid: Seq<Seq<Cell>>,
    pub columns: int,
    pub active: Option<Mino>,
    pub hold: Option<MinoVariant>,
    pub cleared: Seq<Seq<Cell>>,
    pub holds_passed: int,
}

impl BoardView {
    /// Well-formedness: the grid is rectangular, every saved cleared row is as
    /// wide as the grid, and the hold counter is a `u16` value.
    pub open spec fn wf(self) -> bool {
        &&& 0 <= self.columns
        &&& 0 <= self.holds_passed <= u16::MAX
        &&& forall|i: int|
            0 <= i < self.grid.len() ==> (#[trigger] self.grid[i]).len() == self.columns
        &&& forall|i: int|
            0 <= i < self.cleared.len() ==> (#[trigger] self.cleared[i]).len() == self.columns
    }
}

/// The state a fresh board starts in: `BOARD_ROWS` all-empty rows of
/// `BOARD_COLUMNS` cells, no active or held piece, an empty undo stack, and a
/// zero hold counter.
pub open spec fn empty_board() -> BoardView {
    BoardView {
        grid: Seq::new(BOARD_ROWS as nat, |i: int| empty_row(BOARD_COLUMNS as nat)),
        columns: BOARD_COLUMNS as int,
        active: None,
        hold: None,
        cleared: Seq::empty(),
        holds_passed: 0,
    }
}

/// When a forward application of `k` is allowed on state `v`: the action's
/// coordinates lie within the grid, and a hold does not overflow the counter.
pub open spec fn kind_applicable(v: BoardView, k: ActionKind) -> bool {
    match k {
        ActionKind::Garbage { column, height } => height as int <= v.grid.len() && (column as int)
            < v.columns,
        ActionKind::Reposition { .. } => true,
        ActionKind::LineClear { row } => (row as int) < v.grid.len(),
        ActionKind::Cell { position, .. } => (position.1 as int) < v.grid.len() && (
        position.0 as int) < v.columns,
        ActionKind::Hold => v.holds_passed < u16::MAX,
    }
}

/// When a rollback of `k` is allowed on state `v`: coordinates in bounds, a
/// saved row available for a line clear, and an active piece available when a
/// hold with `holds_passed > 1` is undone.
pub open spec fn kind_rollback_applicable(v: BoardView, k: ActionKind) -> bool {
    match k {
        ActionKind::Garbage { height, .. } => height as int <= v.grid.len(),
        ActionKind::Reposition { .. } => true,
        ActionKind::LineClear { row } => (row as int) < v.grid.len() && v.cleared.len() > 0,
        ActionKind::Cell { position, .. } => (position.1 as int) < v.grid.len() && (
        position.0 as int) < v.columns,
        ActionKind::Hold => v.holds_passed > 1 ==> v.active is Some,
    }
}

/// The forward transition: the exact state after applying `k` to `v`.
///
/// - `Garbage`: the last `height` rows scroll off the end, the rest shift
///   towards the end, and `height` garbage rows (open at `column`) take the
///   first positions.
/// - `Reposition`: the active piece is replaced unconditionally.
/// - `LineClear`: row `row` is saved on the undo stack and removed; an
///   all-empty row is appended at the end of the window.
/// - `Cell`: the single cell at `position` is overwritten.
/// - `Hold`: the active piece's shape moves into the hold slot; a previously
///   held shape comes back as the active piece at default orientation and
///   position; the hold counter increments.
pub open spec fn apply_kind(v: BoardView, k: ActionKind) -> BoardView {
    match k {
        ActionKind::Garbage { column, height } => BoardView {
            grid: Seq::new(height as nat, |i: int| garbage_row(v.columns as nat, column as int))
                + v.grid.take(v.grid.len() - height as int),
            ..v
        },
        ActionKind::Reposition { piece } => BoardView { active: Some(piece), ..v },
        ActionKind::LineClear { row } => BoardView {
            grid: v.grid.remove(row as int).push(empty_row(v.columns as nat)),
            cleared: v.cleared.push(v.grid[row as int]),
            ..v
        },
        ActionKind::Cell { position, kind } => BoardView {
            grid: v.grid.update(
                position.1 as int,
                v.grid[position.1 as int].update(position.0 as int, kind),
            ),
            ..v
        },
        ActionKind::Hold => BoardView {
            active: match v.hold {
                Some(h) => Some(Mino { variant: h, direction: Direction::Up, coord: (0i32, 0i32) }),
                None => None,
            },
            hold: match v.active {
                Some(m) => Some(m.variant),
                None => None,
            },
            holds_passed: v.holds_passed + 1,
            ..v
        },
    }
}

/// The rollback transition: the exact state after undoing `k` on `v`.
///
/// `Garbage` and `LineClear` are exact inverses of their forward transitions
/// (see [`crate::laws`]). `Reposition` re-applies the same piece and `Cell`
/// resets the cell to empty: the forward transitions never retained the
/// overwritten value, so no true inverse exists for them. `Hold` branches on
/// the counter: above one it hands the active piece's shape back to the hold
/// slot, at one it empties the hold slot, at zero it does nothing.
pub open spec fn rollback_kind(v: BoardView, k: ActionKind) -> BoardView {
    match k {
        ActionKind::Garbage { height, .. } => BoardView {
            grid: v.grid.skip(height as int) + Seq::new(
                height as nat,
                |i: int| empty_row(v.columns as nat),
            ),
            ..v
        },
        ActionKind::Reposition { piece } => BoardView { active: Some(piece), ..v },
        ActionKind::LineClear { row } => BoardView {
            grid: v.grid.drop_last().insert(row as int, v.cleared.last()),
            cleared: v.cleared.drop_last(),
            ..v
        },
        ActionKind::Cell { position, .. } => BoardView {
            grid: v.grid.update(
                position.1 as int,
                v.grid[position.1 as int].update(position.0 as int, Cell::Empty),
            ),
            ..v
        },
        ActionKind::Hold => if v.holds_passed > 1 {
            BoardView {
                holds_passed: v.holds_passed - 1,
                hold: match v.active {
                    Some(m) => Some(m.variant),
                    None => None,
                },
                ..v
            }
        } else if v.holds_passed == 1 {
            BoardView { holds_passed: 0, hold: None, ..v }
        } else {
            v
        },
    }
}

/// The board: grid cells plus auxiliary state, mutated exclusively through
/// [`Board::apply_action`] and [`Board::rollback_action`] for the lifetime of
/// a playback session.
///
/// The fields are public so that a consumer (rendering, tests) can read the
/// state; well-formedness is carried by [`BoardView::wf`] as a precondition of
/// every transition.
pub struct Board {
    pub cells: BoardStorage<Cell>,
    pub active: Option<Mino>,
    pub hold: Option<MinoVariant>,
    pub cleared_rows: Vec<Vec<Cell>>,
    pub holds_passed: u16,
}

impl View for Board {
    type V = BoardView;

    open spec fn view(&self) -> BoardView {
        BoardView {
            grid: self.cells@,
            columns: self.cells.spec_columns(),
            active: self.active,
            hold: self.hold,
            cleared: Seq::new(self.cleared_rows@.len(), |i: int| self.cleared_rows@[i]@),
            holds_passed: self.holds_passed as int,
        }
    }
}

impl Board {
    /// A fresh board: all cells empty, nothing active or held, an empty undo
    /// stack, and a zero hold counter.
    pub fn empty() -> (r: Board)
        ensures
            r@ == empty_board(),
            r@.wf(),
    {
        let mut rows: Vec<Vec<Cell>> = Vec::new();
        let mut i: usize = 0;
        while i < BOARD_ROWS
            invariant
                i <= BOARD_ROWS,
                rows@.len() == i,
                forall|k: int|
                    0 <= k < i ==> (#[trigger] rows@[k])@ == empty_row(BOARD_COLUMNS as nat),
            decreases BOARD_ROWS - i,
        {
            let row = empty_row_vec(BOARD_COLUMNS);
            rows.push(row);
            i += 1;
        }
        let cells = BoardStorage::new_from_rows_unchecked(rows);
        let r = Board { cells, active: None, hold: None, cleared_rows: Vec::new(), holds_passed: 0 };
        proof {
            assert(r@ =~~= empty_board());
        }
        r
    }

    /// Applies one action forward, realising [`apply_kind`] exactly.
    pub fn apply_action(&mut self, action: &ActionKind)
        requires
            old(self)@.wf(),
            kind_applicable(old(self)@, *action),
        ensures
            final(self)@ == apply_kind(old(self)@, *action),
            final(self)@.wf(),
    {
        match *action {
            ActionKind::Garbage { column, height } => {
                self.cells.add_garbage(column, height);
                proof {
                    assert(self@ =~~= apply_kind(old(self)@, *action));
                }
            },
            ActionKind::Reposition { piece } => {
                self.active = Some(piece);
                proof {
                    assert(self@ =~~= apply_kind(old(self)@, *action));
                }
            },
            ActionKind::LineClear { row } => {
                let saved = self.cells.line(row);
                self.cleared_rows.push(saved);
                self.cells.clear_line(row);
                proof {
                    assert(self@.cleared =~~= apply_kind(old(self)@, *action).cleared);
                    assert(self@ =~~= apply_kind(old(self)@, *action));
                }
            },
            ActionKind::Cell { position, kind } => {
                let (x, y) = position;
                self.cells.set_unchecked(y, x, kind);
                proof {
                    assert(self@ =~~= apply_kind(old(self)@, *action));
                }
            },
            ActionKind::Hold => {
                let prev_active = self.active;
                let prev_hold = self.hold;
                self.hold = match prev_active {
                    Some(m) => Some(m.variant),
                    None => None,
                };
                self.active = match prev_hold {
                    Some(h) => Some(Mino::from_variant(h)),
                    None => None,
                };
                self.holds_passed = self.holds_passed + 1;
                proof {
                    assert(self@ =~~= apply_kind(old(self)@, *action));
                }
            },
        }
        proof {
            lemma_apply_kind_wf(old(self)@, *action);
        }
    }

    /// Rolls one action back, realising [`rollback_kind`] exactly. Must be
    /// called in exact reverse order of the forward applications on this
    /// board; the stated preconditions are what that ordering guarantees.
    pub fn rollback_action(&mut self, action: &ActionKind)
        requires
            old(self)@.wf(),
            kind_rollback_applicable(old(self)@, *action),
        ensures
            final(self)@ == rollback_kind(old(self)@, *action),
            final(self)@.wf(),
    {
        match *action {
            ActionKind::Garbage { column: _, height } => {
                self.cells.remove_garbage(height);
                proof {
                    assert(self@ =~~= rollback_kind(old(self)@, *action));
                }
            },
            ActionKind::Reposition { piece } => {
                self.active = Some(piece);
                proof {
                    assert(self@ =~~= rollback_kind(old(self)@, *action));
                }
            },
            ActionKind::LineClear { row } => {
                let restored = self.cleared_rows.pop().unwrap();
                self.cells.restore_line(row, restored);
                proof {
                    assert(self@.cleared =~~= rollback_kind(old(self)@, *action).cleared);
                    assert(self@ =~~= rollback_kind(old(self)@, *action));
                }
            },
            ActionKind::Cell { position, kind: _ } => {
                let (x, y) = position;
                self.cells.set_unchecked(y, x, Cell::Empty);
                proof {
                    assert(self@ =~~= rollback_kind(old(self)@, *action));
                }
            },
            ActionKind::Hold => {
                if self.holds_passed > 1 {
                    self.holds_passed = self.holds_passed - 1;
                    self.hold = match self.active {
                        Some(m) => Some(m.variant),
                        None => None,
                    };
                } else if self.holds_passed == 1 {
                    self.holds_passed = 0;
                    self.hold = None;
                }
                proof {
                    assert(self@ =~~= rollback_kind(old(self)@, *action));
                }
            },
        }
        proof {
            lemma_rollback_kind_wf(old(self)@, *action);
        }
    }
}

/// Why a checked transition was refused.
#[derive(Clone, Copy, Debug, PartialEq, Eq, Structural)]
pub enum BoardError {
    /// The action names a row, column or garbage height outside the grid.
    OutOfBounds,
    /// The hold counter is at its maximum and cannot record another hold.
    HoldLimitReached,
    /// A line-clear rollback was asked for with no saved row to restore.
    EmptyUndoStack,
    /// A hold rollback with a counter above one needs an active piece.
    MissingActivePiece,
}

/// The error, if any, with which a checked forward application of `k` on `v`
/// is refused; `None` exactly when `k` is applicable.
pub open spec fn apply_error(v: BoardView, k: ActionKind) -> Option<BoardError> {
    if kind_applicable(v, k) {
        None
    } else {
        match k {
            ActionKind::Hold => Some(BoardError::HoldLimitReached),
            _ => Some(BoardError::OutOfBounds),
        }
    }
}

/// The error, if any, with which a checked rollback of `k` on `v` is refused;
/// `None` exactly when the rollback is allowed. Bounds are checked before the
/// undo stack.
pub open spec fn rollback_error(v: BoardView, k: ActionKind) -> Option<BoardError> {
    match k {
        ActionKind::Garbage { column: _, height } => if height as int <= v.grid.len() {
            None
        } else {
            Some(BoardError::OutOfBounds)
        },
        ActionKind::Reposition { .. } => None,
        ActionKind::LineClear { row } => if (row as int) >= v.grid.len() {
            Some(BoardError::OutOfBounds)
        } else if v.cleared.len() == 0 {
            Some(BoardError::EmptyUndoStack)
        } else {
            None
        },
        ActionKind::Cell { position, .. } => if (position.1 as int) < v.grid.len() && (
        position.0 as int) < v.columns {
            None
        } else {
            Some(BoardError::OutOfBounds)
        },
        ActionKind::Hold => if v.holds_passed > 1 && v.active is None {
            Some(BoardError::MissingActivePiece)
        } else {
            None
        },
    }
}

impl Board {
    /// Checked forward application: validates the action against the current
    /// shape, applies it if allowed, and otherwise reports why and leaves the
    /// board untouched.
    pub fn try_apply(&mut self, action: &ActionKind) -> (r: Result<(), BoardError>)
        requires
            old(self)@.wf(),
        ensures
            final(self)@.wf(),
            match apply_error(old(self)@, *action) {
                None => r == Ok::<(), BoardError>(()) && final(self)@ == apply_kind(
                    old(self)@,
                    *action,
                ),
                Some(e) => r == Err::<(), BoardError>(e) && final(self)@ == old(self)@,
            },
    {
        let (rows, columns) = self.cells.dimensions();
        let ok = match *action {
            ActionKind::Garbage { column, height } => height <= rows && column < columns,
            ActionKind::Reposition { .. } => true,
            ActionKind::LineClear { row } => row < rows,
            ActionKind::Cell { position, .. } => position.1 < rows && position.0 < columns,
            ActionKind::Hold => self.holds_passed < u16::MAX,
        };
        if ok {
            self.apply_action(action);
            Ok(())
        } else {
            match *action {
                ActionKind::Hold => Err(BoardError::HoldLimitReached),
                _ => Err(BoardError::OutOfBounds),
            }
        }
    }

    /// Checked rollback: validates, rolls back if allowed, and otherwise
    /// reports why and leaves the board untouched.
    pub fn try_rollback(&mut self, action: &ActionKind) -> (r: Result<(), BoardError>)
        requires
            old(self)@.wf(),
        ensures
            final(self)@.wf(),
            match rollback_error(old(self)@, *action) {
                None => r == Ok::<(), BoardError>(()) && final(self)@ == rollback_kind(
                    old(self)@,
                    *action,
                ),
                Some(e) => r == Err::<(), BoardError>(e) && final(self)@ == old(self)@,
            },
    {
        let (rows, columns) = self.cells.dimensions();
        let err = match *action {
            ActionKind::Garbage { column: _, height } => if height <= rows {
                None
            } else {
                Some(BoardError::OutOfBounds)
            },
            ActionKind::Reposition { .. } => None,
            ActionKind::LineClear { row } => if row >= rows {
                Some(BoardError::OutOfBounds)
            } else if self.cleared_rows.len() == 0 {
                Some(BoardError::EmptyUndoStack)
            } else {
                None
            },
            ActionKind::Cell { position, .. } => if position.1 < rows && position.0 < columns {
                None
            } else {
                Some(BoardError::OutOfBounds)
            },
            ActionKind::Hold => if self.holds_passed > 1 && self.active.is_none() {
                Some(BoardError::MissingActivePiece)
            } else {
                None
            },
        };
        match err {
            None => {
                self.rollback_action(action);
                Ok(())
            },
            Some(e) => Err(e),
        }
    }
}

/// A forward transition on a well-formed, applicable state yields a
/// well-formed state of the same dimensions (rectangularity is preserved).
pub proof fn lemma_apply_kind_wf(v: BoardView, k: ActionKind)
    requires
        v.wf(),
        kind_applicable(v, k),
    ensures
        apply_kind(v, k).wf(),
        apply_kind(v, k).grid.len() == v.grid.len(),
        apply_kind(v, k).columns == v.columns,
{
    let a = apply_kind(v, k);
    match k {
        ActionKind::Garbage { column: _, height } => {
            assert forall|i: int| 0 <= i < a.grid.len() implies (#[trigger] a.grid[i]).len()
                == a.columns by {
                if i >= height as int {
                    assert(a.grid[i] == v.grid[i - height]);
                }
            }
        },
        ActionKind::Reposition { .. } => {},
        ActionKind::LineClear { row } => {
            assert forall|i: int| 0 <= i < a.grid.len() implies (#[trigger] a.grid[i]).len()
                == a.columns by {
                if i < a.grid.len() - 1 {
                    assert(a.grid[i] == v.grid.remove(row as int)[i]);
                }
            }
        },
        ActionKind::Cell { .. } => {},
        ActionKind::Hold => {},
    }
}

/// A rollback transition on a well-formed state whose rollback is allowed
/// yields a well-formed state of the same dimensions.
pub proof fn lemma_rollback_kind_wf(v: BoardView, k: ActionKind)
    requires
        v.wf(),
        kind_rollback_applicable(v, k),
    ensures
        rollback_kind(v, k).wf(),
        rollback_kind(v, k).grid.len() == v.grid.len(),
        rollback_kind(v, k).columns == v.columns,
{
    let a = rollback_kind(v, k);
    match k {
        ActionKind::Garbage { column: _, height } => {
            assert forall|i: int| 0 <= i < a.grid.len() implies (#[trigger] a.grid[i]).len()
                == a.columns by {
                if i < v.grid.len() - height as int {
                    assert(a.grid[i] == v.grid[i + height]);
                }
            }
        },
        ActionKind::Reposition { .. } => {},
        ActionKind::LineClear { row } => {
            assert(v.cleared.last().len() == a.columns);
            assert forall|i: int| 0 <= i < a.grid.len() implies (#[trigger] a.grid[i]).len()
                == a.columns by {
                if i != row as int {
                    let d = v.grid.drop_last();
                    if i < row as int {
                        assert(a.grid[i] == d[i]);
                    } else {
                        assert(a.grid[i] == d[i - 1]);
                    }
                }
            }
        },
        ActionKind::Cell { .. } => {},
        ActionKind::Hold => {},
    }
}

} // verus!
