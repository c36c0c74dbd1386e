//! A minimal checkers engine: an 8x8 board, the opening position and the
//! legality of a single move.

pub mod board;
pub mod census;
pub mod piece;
pub mod position;
pub mod rules;
