//! The evaluator: a score for a board, from White's point of view.
//!
//! The score is the material of White less that of Black, plus, for each
//! piece, the entry of its table at its square: added for a white piece,
//! and, looked up on the mirrored square, taken off for a black one.

use crate::board::{board_of, material_side_of, sum_squares, Board, MaterialSide};
use crate::pieces::{lemma_occupied_bounds, occupied, Pieces};
use crate::rules::{Color, Piece, Position, Role};
use crate::tables::{table_entry, table_value};
use vstd::prelude::*;

verus! {

/// The square on the same file and on the rank mirrored across the middle
/// of the board.
pub open spec fn mirror_spec(square: int) -> int {
    (7 - square / 8) * 8 + square % 8
}

/// What the piece on a square, if any, adds to the positional term.
pub open spec fn square_score(piece: Option<Piece>, square: int) -> int {
    match piece {
        None => 0,
        Some(p) => match p.color {
            Color::White => table_entry(p.role, square),
            Color::Black => -table_entry(p.role, mirror_spec(square)),
        },
    }
}

/// The positional term: the sum over the squares of what the piece on each
/// adds.
pub open spec fn positional(board: Seq<Option<Piece>>) -> int {
    sum_squares(|square: int| square_score(board[square], square), 64)
}

/// The worth of one side's material.
pub open spec fn material_value(side: MaterialSide) -> int {
    side.pawns * 100 + side.knights * 300 + side.bishops * 300 + side.rooks * 500 + side.queens
        * 900
}

/// The material term: White's material less Black's.
pub open spec fn material_balance(board: Seq<Option<Piece>>) -> int {
    material_value(material_side_of(board, Color::White)) - material_value(
        material_side_of(board, Color::Black),
    )
}

/// The score of a board.
pub open spec fn evaluate_spec(board: Seq<Option<Piece>>) -> int {
    material_balance(board) + positional(board)
}

/// What one entry of a list of pieces adds to the positional term.
pub open spec fn entry_score(entry: (u8, Role, Color)) -> int {
    square_score(Some(Piece { color: entry.2, role: entry.1 }), entry.0 as int)
}

/// The sum of what the first `n` entries of a list add.
pub open spec fn entries_score(list: Seq<(u8, Role, Color)>, n: int) -> int
    decreases n,
{
    if n <= 0 {
        0
    } else {
        entries_score(list, n - 1) + entry_score(list[n - 1])
    }
}

/// An entry put at the end of a list changes nothing for the entries before
/// it.
proof fn lemma_entries_score_push(list: Seq<(u8, Role, Color)>, entry: (u8, Role, Color), n: int)
    requires
        0 <= n <= list.len(),
    ensures
        entries_score(list.push(entry), n) == entries_score(list, n),
    decreases n,
{
    if n > 0 {
        lemma_entries_score_push(list, entry, n - 1);
    }
}

/// Summing over the list of the occupied squares is summing over the
/// squares.
proof fn lemma_entries_score_occupied(board: Seq<Option<Piece>>, n: int)
    requires
        0 <= n <= 64,
    ensures
        entries_score(occupied(board, n), occupied(board, n).len() as int) == sum_squares(
            |square: int| square_score(board[square], square),
            n,
        ),
    decreases n,
{
    if n > 0 {
        lemma_entries_score_occupied(board, n - 1);
        let rest = occupied(board, n - 1);
        match board[n - 1] {
            Some(piece) => {
                lemma_entries_score_push(
                    rest,
                    ((n - 1) as u8, piece.role, piece.color),
                    rest.len() as int,
                );
            },
            None => {},
        }
    }
}

/// The positional term stays within fifty a square.
pub proof fn lemma_positional_bounds(board: Seq<Option<Piece>>, n: int)
    requires
        0 <= n <= 64,
    ensures
        -50 * n <= sum_squares(|square: int| square_score(board[square], square), n) <= 50 * n,
    decreases n,
{
    if n > 0 {
        lemma_positional_bounds(board, n - 1);
    }
}

/// The score stays far inside the range of an `i32`, clear of the two
/// extreme values, which stand for a won game.
pub proof fn lemma_evaluate_range(board: Seq<Option<Piece>>)
    ensures
        -600000 < evaluate_spec(board) < 600000,
{
    lemma_positional_bounds(board, 64);
}

/// The mirrored square, found by flipping the three bits that hold the rank.
pub fn mirror(square: u8) -> (mirrored: u8)
    requires
        square < 64,
    ensures
        mirrored == mirror_spec(square as int),
        mirrored < 64,
{
    assert(square < 64 ==> (square ^ 0x38) == (7 - square / 8) * 8 + square % 8) by (bit_vector);
    square ^ 0x38
}

/// The worth of one side's material: 100 a pawn, 300 a knight or a bishop,
/// 500 a rook, 900 a queen; the king counts for nothing.
pub fn mat_score(side: &MaterialSide) -> (score: i32)
    ensures
        score == material_value(*side),
        0 <= score <= 535500,
{
    side.pawns as i32 * 100 + side.knights as i32 * 300 + side.bishops as i32 * 300
        + side.rooks as i32 * 500 + side.queens as i32 * 900
}

/// The positional term of a board.
pub fn loc_score(board: &Board) -> (score: i32)
    ensures
        score == positional(board@),
        -3200 <= score <= 3200,
{
    let pieces = Pieces::of(board);
    let len: usize = pieces.len();
    proof {
        lemma_occupied_bounds(board@, 64);
        lemma_entries_score_occupied(board@, 64);
        lemma_positional_bounds(board@, 64);
    }
    let mut total_score: i32 = 0;
    let mut index: usize = 0;
    while index < len
        invariant
            index <= len,
            len == pieces@.len(),
            len <= 64,
            pieces@ == occupied(board@, 64),
            forall|k: int| 0 <= k < pieces@.len() ==> (#[trigger] pieces@[k]).0 < 64,
            total_score == entries_score(pieces@, index as int),
            -50 * index <= total_score <= 50 * index,
        decreases len - index,
    {
        match pieces.get(index) {
            Some((square, role, color)) => {
                let idx: u8 = match color {
                    Color::Black => mirror(square),
                    Color::White => square,
                };
                let score: i32 = table_value(role, idx as usize);
                total_score = total_score + match color {
                    Color::White => score,
                    Color::Black => -score,
                };
            },
            None => {},
        }
        index = index + 1;
    }
    total_score
}

impl Board {
    /// The score of the board: positive where White stands better,
    /// negative where Black does, whoever is to move.
    pub fn evaluate(&self) -> (score: i32)
        ensures
            score == evaluate_spec(self@),
            -600000 < score < 600000,
    {
        let material = self.material();
        mat_score(&material.white) - mat_score(&material.black) + loc_score(self)
    }
}

impl Position {
    /// The score of the position, which is that of its board.
    pub fn evaluate(&self) -> (score: i32)
        ensures
            score == evaluate_spec(board_of(*self)),
            -600000 < score < 600000,
    {
        self.board().evaluate()
    }
}

} // verus!
