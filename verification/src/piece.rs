use vstd::prelude::*;

verus! {

/// One of the two sides of a game.
#[derive(Debug, Clone, Copy, PartialEq, Eq, Structural)]
pub enum Player {
    /// Starts on the high rows and moves toward row zero.
    One,
    /// Starts on the low rows and moves toward the last row.
    Two,
}

/// A piece on the board.
#[derive(Debug, Clone, Copy, PartialEq, Eq, Structural)]
pub struct Piece {
    pub player: Player,
    pub king: bool,
}

} // verus!
