//! The discrete actions a recorded session replays against the board, and the
//! frame-stamped records the reconstruction step hands over.

use vstd::prelude::*;

use crate::tetromino::{Cell, Mino};

verus! {

/// One discrete board transition.
#[derive(Clone, Copy, Debug, PartialEq, Eq)]
pub enum ActionKind {
    /// Inject `height` rows of garbage at the bottom of the row list, each
    /// with a single open cell in column `column`.
    Garbage { column: usize, height: usize },
    /// Replace the active piece unconditionally.
    Reposition { piece: Mino },
    /// Clear the row at index `row`, shifting the rows after it up by one.
    LineClear { row: usize },
    /// Overwrite the single cell at `position` (column, row) with `kind`.
    Cell { position: (usize, usize), kind: Cell },
    /// Bank the active piece's shape, releasing any previously held shape.
    Hold,
}

/// An action stamped with the frame at which it was recorded.
#[derive(Clone, Copy, Debug, PartialEq, Eq)]
pub struct Action {
    pub frame: u64,
    pub kind: ActionKind,
}

} // verus!
