use vstd::array::axiom_spec_array_fill_for_copy_type;
use vstd::prelude::*;

use crate::census::{
    counts_for, lemma_count_after_move, lemma_count_is_tally, lemma_count_of_none,
    lemma_opening_count, piece_count, tally, within_limits,
};
use crate::piece::{Piece, Player};
use crate::position::Position;
use crate::rules::{after_move, captured, opening, opening_cell, verdict, Cells, MoveError};

verus! {

/// An 8x8 board, each square of which holds a piece or nothing.
#[derive(Debug, Clone, PartialEq, Eq)]
pub struct Board {
    places: [[Option<Piece>; 8]; 8],
}

impl View for Board {
    type V = Cells;

    /// The board as a map from each of its 64 squares, and from nothing
    /// else, to what stands there.
    open spec fn view(&self) -> Cells {
        Map::new(
            |position: Position| position.on_board(),
            |position: Position| self.holds(position),
        )
    }
}

/// The character that stands for a square in the text of a board.
pub open spec fn marker(cell: Option<Piece>) -> char {
    match cell {
        None => '.',
        Some(piece) => match piece.player {
            Player::One => '1',
            Player::Two => '2',
        },
    }
}

/// The text of a board: one line for each row, from row 0 down, each of
/// eight markers, from column 0 on, and a line feed.
pub open spec fn rendered(cells: Cells) -> Seq<char> {
    Seq::new(
        72,
        |i: int|
            if i % 9 == 8 {
                '\n'
            } else {
                marker(cells[Position { row: (i / 9) as usize, column: (i % 9) as usize }])
            },
    )
}

impl Board {
    /// What stands on a square of the board.
    pub closed spec fn holds(self, position: Position) -> Option<Piece> {
        self.places[position.row as int][position.column as int]
    }

    /// How many pieces `player` has on the board.
    pub open spec fn count(self, player: Player) -> nat {
        piece_count(self@, player)
    }

    /// Neither player has more pieces than a game begins with.
    pub open spec fn well_formed(self) -> bool {
        within_limits(self@)
    }

    /// Initializes the board for a new game: whatever stood on it goes, and
    /// each player gets twelve pieces, none of them a king, in the opening
    /// position.
    pub fn new_game(&mut self)
        ensures
            final(self)@ == opening(),
            final(self).count(Player::One) == 12,
            final(self).count(Player::Two) == 12,
            final(self).well_formed(),
            forall|position: Position|
                position.on_board() ==> (#[trigger] final(self)@[position] matches Some(piece) ==> {
                    &&& !piece.king
                    &&& (position.row + position.column) % 2 == 0
                    &&& piece.player == Player::Two ==> position.row < 3
                    &&& piece.player == Player::One ==> 5 <= position.row < 8
                }),
    {
        let mut row: usize = 0;
        while row < 8
            invariant
                row <= 8,
                forall|i: int, j: int|
                    0 <= i < row && 0 <= j < 8 ==> self.places[i][j] == opening_cell(
                        Position { row: i as usize, column: j as usize },
                    ),
            decreases 8 - row,
        {
            let mut column: usize = 0;
            while column < 8
                invariant
                    row < 8,
                    column <= 8,
                    forall|i: int, j: int|
                        0 <= i < row && 0 <= j < 8 ==> self.places[i][j] == opening_cell(
                            Position { row: i as usize, column: j as usize },
                        ),
                    forall|j: int|
                        0 <= j < column ==> self.places[row as int][j] == opening_cell(
                            Position { row, column: j as usize },
                        ),
                decreases 8 - column,
            {
                self.places[row][column] = opening_piece(Position { row, column });
                column += 1;
            }
            row += 1;
        }
        proof {
            assert(self@ =~= opening());
            lemma_opening_count(Player::One);
            lemma_opening_count(Player::Two);
        }
    }

    /// Returns what stands at the given position.
    pub fn get_at_position(&self, position: Position) -> (cell: Option<Piece>)
        requires
            position.on_board(),
        ensures
            cell == self@[position],
    {
        self.places[position.row][position.column]
    }

    /// Puts `cell` on the given position, in place of what stood there. The
    /// board that results must not hold more pieces of a player than a game
    /// begins with.
    pub fn set_at_position(&mut self, position: Position, cell: Option<Piece>)
        requires
            position.on_board(),
            within_limits(old(self)@.insert(position, cell)),
        ensures
            final(self)@ == old(self)@.insert(position, cell),
            final(self).well_formed(),
    {
        self.places[position.row][position.column] = cell;
    }

    /// Counts the pieces that `player` has on the board.
    pub fn count_pieces(&self, player: Player) -> (count: usize)
        ensures
            count == self.count(player),
    {
        let mut count: usize = 0;
        let mut index: usize = 0;
        while index < 64
            invariant
                index <= 64,
                count <= index,
                count == tally(self@, player, index as nat),
            decreases 64 - index,
        {
            let position = Position { row: index / 8, column: index % 8 };
            if let Some(piece) = self.get_at_position(position) {
                if piece.player == player {
                    count += 1;
                }
            }
            index += 1;
        }
        proof {
            lemma_count_is_tally(self@, player);
        }
        count
    }

    /// Decides whether the piece on `from` may move to `to`, whoever's turn
    /// it is, and says why not if it may not. The board is left as it is.
    pub fn valid_move(&self, from: Position, to: Position) -> (outcome: Result<(), MoveError>)
        requires
            from.on_board(),
            to.on_board(),
        ensures
            outcome == verdict(self@, from, to),
            self@[from] is None ==> outcome == Err::<(), MoveError>(MoveError::FromPieceMissing),
            self@[from] is Some && self@[to] is Some ==> outcome == Err::<(), MoveError>(
                MoveError::BlockedByPiece,
            ),
    {
        let from_piece = match self.get_at_position(from) {
            Some(piece) => piece,
            None => return Err(MoveError::FromPieceMissing),
        };
        if self.get_at_position(to).is_some() {
            return Err(MoveError::BlockedByPiece);
        }
        if !from_piece.king {
            let forward = match from_piece.player {
                Player::One => to.row < from.row,
                Player::Two => to.row > from.row,
            };
            if !forward {
                return Err(MoveError::WrongDirection);
            }
        }
        if from.is_catty_corner(to) {
            return Ok(());
        }
        if from.is_double_catty_corner(to) {
            if let Some(jumped) = self.get_at_position(from.between(to)) {
                if jumped.player != from_piece.player {
                    return Ok(());
                }
            }
        }
        Err(MoveError::IsNotCattyCorner)
    }

    /// Moves the piece on `from` to `to` if `valid_move` allows it, and takes
    /// the piece that was jumped over, if any, off the board. A refused move
    /// leaves the board untouched.
    pub fn move_piece(&mut self, from: Position, to: Position) -> (outcome: Result<(), MoveError>)
        requires
            from.on_board(),
            to.on_board(),
        ensures
            outcome == verdict(old(self)@, from, to),
            outcome is Err ==> *final(self) == *old(self),
            outcome is Ok ==> final(self)@ == after_move(old(self)@, from, to),
            old(self)@[from] is None ==> outcome == Err::<(), MoveError>(
                MoveError::FromPieceMissing,
            ),
            old(self)@[from] is Some && old(self)@[to] is Some ==> outcome == Err::<(), MoveError>(
                MoveError::BlockedByPiece,
            ),
            outcome is Ok ==> forall|player: Player| #[trigger]
                final(self).count(player) == old(self).count(player) - counts_for(
                    captured(old(self)@, from, to),
                    player,
                ),
            forall|player: Player| #[trigger]
                final(self).count(player) <= old(self).count(player),
            old(self).well_formed() ==> final(self).well_formed(),
    {
        match self.valid_move(from, to) {
            Ok(()) => {
                let piece = self.get_at_position(from);
                self.places[to.row][to.column] = piece;
                self.places[from.row][from.column] = None;
                if from.is_double_catty_corner(to) {
                    let jumped = from.between(to);
                    self.places[jumped.row][jumped.column] = None;
                }
                proof {
                    assert(self@ =~= after_move(old(self)@, from, to));
                    lemma_count_after_move(old(self)@, from, to, Player::One);
                    lemma_count_after_move(old(self)@, from, to, Player::Two);
                }
                Ok(())
            },
            Err(refusal) => Err(refusal),
        }
    }

    /// The board as text: a line for each row, a character for each square,
    /// `1` or `2` for the player whose piece stands there and `.` for none.
    pub fn render(&self) -> (text: String)
        ensures
            text@ == rendered(self@),
    {
        let mut text = String::new();
        let mut row: usize = 0;
        while row < 8
            invariant
                row <= 8,
                text@.len() == 9 * row,
                forall|i: int| 0 <= i < text@.len() ==> text@[i] == rendered(self@)[i],
            decreases 8 - row,
        {
            let mut column: usize = 0;
            while column < 8
                invariant
                    row < 8,
                    column <= 8,
                    text@.len() == 9 * row + column,
                    forall|i: int| 0 <= i < text@.len() ==> text@[i] == rendered(self@)[i],
                decreases 8 - column,
            {
                let mark = marker_text(self.get_at_position(Position { row, column }));
                text.append(mark);
                column += 1;
            }
            proof {
                reveal_strlit("\n");
            }
            text.append("\n");
            row += 1;
        }
        text
    }
}

/// What stands on a square when a game begins.
fn opening_piece(position: Position) -> (cell: Option<Piece>)
    requires
        position.on_board(),
    ensures
        cell == opening_cell(position),
{
    if (position.row + position.column) % 2 != 0 {
        None
    } else if position.row < 3 {
        Some(Piece { player: Player::Two, king: false })
    } else if position.row >= 5 {
        Some(Piece { player: Player::One, king: false })
    } else {
        None
    }
}

/// The marker of a square, as a text of one character.
fn marker_text(cell: Option<Piece>) -> (mark: &'static str)
    ensures
        mark@ == seq![marker(cell)],
{
    proof {
        reveal_strlit(".");
        reveal_strlit("1");
        reveal_strlit("2");
    }
    let mark = match cell {
        None => ".",
        Some(piece) => match piece.player {
            Player::One => "1",
            Player::Two => "2",
        },
    };
    mark
}

impl Default for Board {
    /// A board with nothing on it.
    fn default() -> (board: Board)
        ensures
            forall|position: Position|
                position.on_board() ==> #[trigger] board@[position] is None,
            board.count(Player::One) == 0,
            board.count(Player::Two) == 0,
            board.well_formed(),
    {
        let nothing: Option<Piece> = None;
        let empty_row: [Option<Piece>; 8] = [nothing; 8];
        let blank = Board { places: [empty_row; 8] };
        proof {
            axiom_spec_array_fill_for_copy_type::<Option<Piece>, 8>(nothing);
            axiom_spec_array_fill_for_copy_type::<[Option<Piece>; 8], 8>(empty_row);
            lemma_count_of_none(blank@, Player::One);
            lemma_count_of_none(blank@, Player::Two);
        }
        blank
    }
}

} // verus!
