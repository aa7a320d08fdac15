//! Bidirectional board-simulation engine for replaying a recorded
//! block-stacking game session: a dense rectangular grid store, a board state
//! machine that applies and exactly rolls back discrete actions, and a
//! frame-indexed cursor that feeds a recorded action stream into the board.

pub mod action;
pub mod board;
pub mod laws;
pub mod player;
pub mod storage;
pub mod tetromino;
