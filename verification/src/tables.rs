//! Piece-square tables.
//!
//! One table of 64 entries for each kind of piece, read from White's side of
//! the board: entry 0 is a1, entry 7 is h1, entry 63 is h8. A black piece is
//! looked up on the square mirrored across the middle of the board.

use crate::rules::Role;
use vstd::prelude::*;

verus! {

/// The king: safe behind its pawns, and nowhere else.
pub const KING_VALUE: [i32; 64] = [
     20,  30,  10,   0,   0,  10,  30,  20,
     20,  20,   0,   0,   0,   0,  20,  20,
    -10, -20, -20, -20, -20, -20, -20, -10,
    -20, -30, -30, -40, -40, -30, -30, -20,
    -30, -40, -40, -50, -50, -40, -40, -30,
    -30, -40, -40, -50, -50, -40, -40, -30,
    -30, -40, -40, -50, -50, -40, -40, -30,
    -30, -40, -40, -50, -50, -40, -40, -30,
];

/// The queen: off the edges.
pub const QUEEN_VALUE: [i32; 64] = [
    -20, -10, -10,  -5,  -5, -10, -10, -20,
    -10,   0,   5,   0,   0,   0,   0, -10,
    -10,   5,   5,   5,   5,   5,   0, -10,
      0,   0,   5,   5,   5,   5,   0,  -5,
     -5,   0,   5,   5,   5,   5,   0,  -5,
    -10,   0,   5,   5,   5,   5,   0, -10,
    -10,   0,   0,   0,   0,   0,   0, -10,
    -20, -10, -10,  -5,  -5, -10, -10, -20,
];

/// The rook: on the seventh rank, and on the middle files at home.
pub const ROOK_VALUE: [i32; 64] = [
      0,   0,   0,   5,   5,   0,   0,   0,
     -5,   0,   0,   0,   0,   0,   0,  -5,
     -5,   0,   0,   0,   0,   0,   0,  -5,
     -5,   0,   0,   0,   0,   0,   0,  -5,
     -5,   0,   0,   0,   0,   0,   0,  -5,
     -5,   0,   0,   0,   0,   0,   0,  -5,
      5,  10,  10,  10,  10,  10,  10,  10,
      0,   0,   0,   0,   0,   0,   0,   0,
];

/// The knight: in the middle, not on the rim.
pub const KNIGHT_VALUE: [i32; 64] = [
    -50, -40, -30, -30, -30, -30, -40, -50,
    -40, -20,   0,   0,   0,   0, -20, -40,
    -30,   0,  10,  15,  15,  10,   0, -30,
    -30,   5,  15,  20,  20,  15,   5, -30,
    -30,   5,  15,  20,  20,  15,   5, -30,
    -30,   0,  10,  15,  15,  10,   0, -30,
    -40, -20,   0,   0,   0,   0, -20, -40,
    -50, -40, -30, -30, -30, -30, -40, -50,
];

/// The bishop: off the edges, on the long lines.
pub const BISHOP_VALUE: [i32; 64] = [
    -20, -10, -10, -10, -10, -10, -10, -20,
    -10,   5,   0,   0,   0,   0,   0, -10,
    -10,  10,  10,  10,  10,  10,  10, -10,
    -10,   0,  10,  10,  10,  10,   0, -10,
    -10,   5,   5,  10,  10,   5,   5, -10,
    -10,   0,   5,  10,  10,   5,   0, -10,
    -10,   0,   0,   0,   0,   0,   0, -10,
    -20, -10, -10, -10, -10, -10, -10, -20,
];

/// The pawn: forward, most of all in the middle.
pub const PAWN_VALUE: [i32; 64] = [
      0,   0,   0,   0,   0,   0,   0,   0,
      5,  10,  10, -20, -20,  10,  10,   5,
      5,  -5, -10,   0,   0, -10,  -5,   5,
      0,   0,   0,  20,  20,   0,   0,   0,
      5,   5,  10,  25,  25,  10,   5,   5,
     10,  10,  20,  30,  30,  20,  10,  10,
     50,  50,  50,  50,  50,  50,  50,  50,
      0,   0,   0,   0,   0,   0,   0,   0,
];

/// The entry of a role's table for a square, as White sees it.
pub open spec fn table_entry(role: Role, index: int) -> int {
    match role {
        Role::Pawn => PAWN_VALUE[index] as int,
        Role::Knight => KNIGHT_VALUE[index] as int,
        Role::Bishop => BISHOP_VALUE[index] as int,
        Role::Rook => ROOK_VALUE[index] as int,
        Role::Queen => QUEEN_VALUE[index] as int,
        Role::King => KING_VALUE[index] as int,
    }
}

/// Looks up the entry of a role's table.
pub fn table_value(role: Role, index: usize) -> (value: i32)
    requires
        index < 64,
    ensures
        value == table_entry(role, index as int),
        -50 <= value <= 50,
{
    match role {
        Role::Pawn => PAWN_VALUE[index],
        Role::Knight => KNIGHT_VALUE[index],
        Role::Bishop => BISHOP_VALUE[index],
        Role::Rook => ROOK_VALUE[index],
        Role::Queen => QUEEN_VALUE[index],
        Role::King => KING_VALUE[index],
    }
}

} // verus!
