use vstd::prelude::*;

verus! {

/// Number of rows, and of columns, of the board.
pub const BOARD_SIZE: usize = 8;

/// A square of the board, named by its row and its column.
#[derive(Debug, Clone, Copy, PartialEq, Eq, Structural)]
pub struct Position {
    pub row: usize,
    pub column: usize,
}

/// Distance between two coordinates along one axis.
pub open spec fn gap(a: usize, b: usize) -> int {
    if a >= b {
        a - b
    } else {
        b - a
    }
}

impl Position {
    /// The square lies on the board.
    pub open spec fn on_board(self) -> bool {
        self.row < BOARD_SIZE && self.column < BOARD_SIZE
    }

    /// `other` touches this square at a corner: one row and one column away.
    pub open spec fn catty_corner(self, other: Position) -> bool {
        gap(self.row, other.row) == 1 && gap(self.column, other.column) == 1
    }

    /// `other` lies two rows and two columns away, one square further along a
    /// diagonal than a catty-corner square.
    pub open spec fn double_catty_corner(self, other: Position) -> bool {
        gap(self.row, other.row) == 2 && gap(self.column, other.column) == 2
    }

    /// The square halfway between this one and `other`.
    pub open spec fn midway(self, other: Position) -> Position {
        Position {
            row: ((self.row + other.row) / 2) as usize,
            column: ((self.column + other.column) / 2) as usize,
        }
    }

    /// Checks that the square lies on the board.
    pub fn is_on_board(&self) -> (inside: bool)
        ensures
            inside == self.on_board(),
    {
        self.row < BOARD_SIZE && self.column < BOARD_SIZE
    }

    /// Checks if the other position is catty-corner to this one.
    pub fn is_catty_corner(&self, other: Position) -> (adjacent: bool)
        ensures
            adjacent == self.catty_corner(other),
    {
        distance(self.row, other.row) == 1 && distance(self.column, other.column) == 1
    }

    /// Checks if the other position is two squares away along a diagonal.
    pub fn is_double_catty_corner(&self, other: Position) -> (apart: bool)
        ensures
            apart == self.double_catty_corner(other),
    {
        distance(self.row, other.row) == 2 && distance(self.column, other.column) == 2
    }

    /// The square halfway between this one and `other`.
    pub fn between(&self, other: Position) -> (middle: Position)
        ensures
            middle == self.midway(other),
    {
        Position {
            row: halfway(self.row, other.row),
            column: halfway(self.column, other.column),
        }
    }
}

/// Distance between two coordinates, whichever is the larger.
fn distance(a: usize, b: usize) -> (d: usize)
    ensures
        d == gap(a, b),
{
    if a >= b {
        a - b
    } else {
        b - a
    }
}

/// The mean of two coordinates, rounded down.
fn halfway(a: usize, b: usize) -> (m: usize)
    ensures
        m == (a + b) / 2,
{
    if a >= b {
        b + (a - b) / 2
    } else {
        a + (b - a) / 2
    }
}

/// No square is catty-corner to itself.
pub proof fn catty_corner_irreflexive(a: Position, b: Position)
    requires
        a == b,
    ensures
        !a.catty_corner(b),
{
}

/// Catty-corner is symmetric: it holds of `a` and `b` exactly when it holds
/// of `b` and `a`.
pub proof fn catty_corner_symmetric(a: Position, b: Position)
    ensures
        a.catty_corner(b) == b.catty_corner(a),
{
}

} // verus!
