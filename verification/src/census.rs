use vstd::prelude::*;

use crate::piece::{Piece, Player};
use crate::position::Position;
use crate::rules::{after_move, captured, opening, verdict, Cells};

verus! {

/// The square holds a piece of `player`.
pub open spec fn owned_by(cell: Option<Piece>, player: Player) -> bool {
    cell matches Some(piece) && piece.player == player
}

/// What a square adds to the count of `player`: one if it holds a piece of
/// that player, nothing if not.
pub open spec fn counts_for(cell: Option<Piece>, player: Player) -> nat {
    if owned_by(cell, player) {
        1
    } else {
        0
    }
}

/// The squares of the board on which `player` has a piece.
pub open spec fn squares_of(cells: Cells, player: Player) -> Set<Position> {
    Set::new(|position: Position| position.on_board() && owned_by(cells[position], player))
}

/// How many pieces `player` has on the board.
pub open spec fn piece_count(cells: Cells, player: Player) -> nat {
    squares_of(cells, player).len()
}

/// No player has more than the twelve pieces that a game begins with.
pub open spec fn within_limits(cells: Cells) -> bool {
    piece_count(cells, Player::One) <= 12 && piece_count(cells, Player::Two) <= 12
}

/// The squares numbered row by row: square 0 is row 0, column 0, square 8
/// is row 1, column 0, and square 63 is the last.
pub open spec fn square(index: int) -> Position {
    Position { row: (index / 8) as usize, column: (index % 8) as usize }
}

/// How many of the first `upto` squares hold a piece of `player`.
pub open spec fn tally(cells: Cells, player: Player, upto: nat) -> nat
    decreases upto,
{
    if upto == 0 {
        0
    } else {
        tally(cells, player, (upto - 1) as nat) + counts_for(cells[square(upto - 1)], player)
    }
}

/// The squares among the first `upto` on which `player` has a piece.
spec fn squares_before(cells: Cells, player: Player, upto: nat) -> Set<Position> {
    Set::new(
        |position: Position|
            position.on_board() && position.row * 8 + position.column < upto && owned_by(
                cells[position],
                player,
            ),
    )
}

proof fn lemma_tally_counts_squares_before(cells: Cells, player: Player, upto: nat)
    requires
        upto <= 64,
    ensures
        squares_before(cells, player, upto).finite(),
        squares_before(cells, player, upto).len() == tally(cells, player, upto),
        tally(cells, player, upto) <= upto,
    decreases upto,
{
    if upto == 0 {
        assert(squares_before(cells, player, upto) =~= Set::empty());
    } else {
        let earlier = (upto - 1) as nat;
        lemma_tally_counts_squares_before(cells, player, earlier);
        let last = square(upto - 1);
        if owned_by(cells[last], player) {
            assert(squares_before(cells, player, upto) =~= squares_before(
                cells,
                player,
                earlier,
            ).insert(last));
        } else {
            assert(squares_before(cells, player, upto) =~= squares_before(cells, player, earlier));
        }
    }
}

/// A player's pieces stand on finitely many squares, and counting them is
/// the same as going through the 64 squares one by one.
pub proof fn lemma_count_is_tally(cells: Cells, player: Player)
    ensures
        squares_of(cells, player).finite(),
        piece_count(cells, player) == tally(cells, player, 64),
        piece_count(cells, player) <= 64,
{
    lemma_tally_counts_squares_before(cells, player, 64);
    assert(squares_of(cells, player) =~= squares_before(cells, player, 64));
}

/// Putting `cell` on a square takes one from the count of the player whose
/// piece stood there and adds one to the count of the player whose piece
/// stands there now.
pub proof fn lemma_count_after_insert(
    cells: Cells,
    position: Position,
    cell: Option<Piece>,
    player: Player,
)
    requires
        position.on_board(),
    ensures
        piece_count(cells.insert(position, cell), player) == piece_count(cells, player)
            - counts_for(cells[position], player) + counts_for(cell, player),
{
    lemma_count_is_tally(cells, player);
    let before = squares_of(cells, player);
    let after = squares_of(cells.insert(position, cell), player);
    if owned_by(cell, player) {
        assert(after =~= before.insert(position));
    } else {
        assert(after =~= before.remove(position));
    }
}

/// A player without a piece on any square has a count of zero.
pub proof fn lemma_count_of_none(cells: Cells, player: Player)
    requires
        forall|position: Position|
            position.on_board() ==> !owned_by(#[trigger] cells[position], player),
    ensures
        piece_count(cells, player) == 0,
{
    assert(squares_of(cells, player) =~= Set::empty());
}

/// How many squares of one row hold a piece of `player`.
spec fn row_count(cells: Cells, player: Player, row: usize) -> nat {
    counts_for(cells[Position { row, column: 0 }], player)
        + counts_for(cells[Position { row, column: 1 }], player)
        + counts_for(cells[Position { row, column: 2 }], player)
        + counts_for(cells[Position { row, column: 3 }], player)
        + counts_for(cells[Position { row, column: 4 }], player)
        + counts_for(cells[Position { row, column: 5 }], player)
        + counts_for(cells[Position { row, column: 6 }], player)
        + counts_for(cells[Position { row, column: 7 }], player)
}

proof fn lemma_tally_row(cells: Cells, player: Player, row: usize)
    requires
        row < 8,
    ensures
        tally(cells, player, (8 * row + 8) as nat) == tally(cells, player, (8 * row) as nat)
            + row_count(cells, player, row),
{
    reveal_with_fuel(tally, 9);
}

/// Each player begins a game with twelve pieces.
pub proof fn lemma_opening_count(player: Player)
    ensures
        piece_count(opening(), player) == 12,
{
    lemma_count_is_tally(opening(), player);
    lemma_tally_row(opening(), player, 0);
    lemma_tally_row(opening(), player, 1);
    lemma_tally_row(opening(), player, 2);
    lemma_tally_row(opening(), player, 3);
    lemma_tally_row(opening(), player, 4);
    lemma_tally_row(opening(), player, 5);
    lemma_tally_row(opening(), player, 6);
    lemma_tally_row(opening(), player, 7);
}

/// A legal move leaves each player's count as it was, but for a jump, which
/// takes one from the count of the player whose piece was jumped over.
pub proof fn lemma_count_after_move(cells: Cells, from: Position, to: Position, player: Player)
    requires
        from.on_board(),
        to.on_board(),
        verdict(cells, from, to) is Ok,
    ensures
        piece_count(after_move(cells, from, to), player) == piece_count(cells, player)
            - counts_for(captured(cells, from, to), player),
{
    let lifted = cells.insert(to, cells[from]);
    let landed = lifted.insert(from, None);
    lemma_count_after_insert(cells, to, cells[from], player);
    lemma_count_after_insert(lifted, from, None, player);
    if from.double_catty_corner(to) {
        lemma_count_after_insert(landed, from.midway(to), None, player);
    }
}

} // verus!
