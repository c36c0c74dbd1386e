use vstd::prelude::*;

use crate::piece::{Piece, Player};
use crate::position::Position;

verus! {

/// What stands on each square of the board: a piece, or nothing.
pub type Cells = Map<Position, Option<Piece>>;

/// Why a move is refused.
#[derive(Debug, Clone, Copy, PartialEq, Eq, Structural)]
pub enum MoveError {
    /// The destination is neither catty-corner to the source nor a jump over
    /// a piece of the other player.
    IsNotCattyCorner,
    /// The destination already holds a piece.
    BlockedByPiece,
    /// The source holds no piece.
    FromPieceMissing,
    /// A piece that is no king would move back toward its own side.
    WrongDirection,
}

/// What stands on a square when a game begins. Pieces stand on the squares
/// whose row and column add up to an even number: those of player two on
/// the first three rows, those of player one on the last three. None is a
/// king, and the two rows in the middle are empty.
pub open spec fn opening_cell(position: Position) -> Option<Piece> {
    if (position.row + position.column) % 2 != 0 {
        None
    } else if position.row < 3 {
        Some(Piece { player: Player::Two, king: false })
    } else if 5 <= position.row < 8 {
        Some(Piece { player: Player::One, king: false })
    } else {
        None
    }
}

/// The board at the beginning of a game.
pub open spec fn opening() -> Cells {
    Map::new(|position: Position| position.on_board(), |position: Position| opening_cell(position))
}

/// The piece may travel from row `from.row` to row `to.row`: a king may go
/// either way, any other piece only toward the far side of the board.
pub open spec fn heads_forward(piece: Piece, from: Position, to: Position) -> bool {
    piece.king || match piece.player {
        Player::One => to.row < from.row,
        Player::Two => to.row > from.row,
    }
}

/// The move from `from` to `to` jumps over a piece that does not belong to
/// `player`.
pub open spec fn jumps_opponent(
    cells: Cells,
    player: Player,
    from: Position,
    to: Position,
) -> bool {
    &&& from.double_catty_corner(to)
    &&& cells[from.midway(to)] matches Some(jumped)
    &&& jumped.player != player
}

/// The verdict on a move from `from` to `to`. The four conditions are taken
/// in order and the first that fails names the error: the source holds a
/// piece, the destination is empty, the piece heads the right way, and the
/// destination is one step along a diagonal or a jump over an opponent.
pub open spec fn verdict(cells: Cells, from: Position, to: Position) -> Result<(), MoveError> {
    match cells[from] {
        None => Err(MoveError::FromPieceMissing),
        Some(piece) => {
            if cells[to] is Some {
                Err(MoveError::BlockedByPiece)
            } else if !heads_forward(piece, from, to) {
                Err(MoveError::WrongDirection)
            } else if from.catty_corner(to) || jumps_opponent(cells, piece.player, from, to) {
                Ok(())
            } else {
                Err(MoveError::IsNotCattyCorner)
            }
        },
    }
}

/// The piece that a legal move from `from` to `to` takes: the one jumped
/// over, if the move is a jump.
pub open spec fn captured(cells: Cells, from: Position, to: Position) -> Option<Piece> {
    if from.double_catty_corner(to) {
        cells[from.midway(to)]
    } else {
        None
    }
}

/// The board after a legal move: the piece stands on `to`, `from` is empty,
/// and where the move was a jump the square jumped over is empty too.
pub open spec fn after_move(cells: Cells, from: Position, to: Position) -> Cells {
    let landed = cells.insert(to, cells[from]).insert(from, None);
    if from.double_catty_corner(to) {
        landed.insert(from.midway(to), None)
    } else {
        landed
    }
}

} // verus!
