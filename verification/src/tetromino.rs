//! The cell payloads and piece data carried by the board: shape variants,
//! rotation states, single cells, and placed pieces.

use vstd::prelude::*;

verus! {

/// The seven tetromino shape variants.
#[derive(Clone, Copy, Debug, PartialEq, Eq, Structural)]
pub enum MinoVariant {
    L,
    J,
    T,
    S,
    Z,
    O,
    I,
}

/// One of the four rotation states a piece can be in.
#[derive(Clone, Copy, Debug, PartialEq, Eq, Structural)]
pub enum Direction {
    Up,
    Right,
    Down,
    Left,
}

/// One cell of the playfield: empty, injected garbage, or part of a placed
/// piece of a given shape.
#[derive(Clone, Copy, Debug, PartialEq, Eq, Structural)]
pub enum Cell {
    Empty,
    Garbage,
    Tetromino(MinoVariant),
}

/// A placed or falling piece: its shape, rotation state and `(x, y)` position.
#[derive(Clone, Copy, Debug, PartialEq, Eq)]
pub struct Mino {
    pub variant: MinoVariant,
    pub direction: Direction,
    pub coord: (i32, i32),
}

impl Mino {
    /// The piece a banked shape comes back as when released from the hold
    /// slot: default orientation (facing up) at the origin.
    pub fn from_variant(variant: MinoVariant) -> (r: Mino)
        ensures
            r == (Mino { variant, direction: Direction::Up, coord: (0i32, 0i32) }),
    {
        Mino { variant, direction: Direction::Up, coord: (0, 0) }
    }
}

} // verus!
