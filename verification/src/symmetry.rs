//! The evaluator under a change of sides.
//!
//! Turning the board upside down and giving each piece to the other side
//! negates the score: the evaluator has no side of its own.

use crate::board::{board_of, count, holds, material_side_of, sum_squares};
use crate::eval::{evaluate_spec, material_balance, mirror_spec, positional, square_score};
use crate::rules::{initial_piece, is_starting_position, Color, Piece, Position, Role};
use vstd::prelude::*;

verus! {

/// The same piece in the other side's colours.
pub open spec fn swap_color(piece: Option<Piece>) -> Option<Piece> {
    match piece {
        None => None,
        Some(p) => Some(Piece { color: p.color.spec_other(), role: p.role }),
    }
}

/// The board seen from the other side: every piece on the mirrored square,
/// in the other side's colours.
pub open spec fn color_mirror(board: Seq<Option<Piece>>) -> Seq<Option<Piece>> {
    Seq::new(64, |square: int| swap_color(board[mirror_spec(square)]))
}

/// Mirroring a square twice gives the square back.
pub proof fn lemma_mirror_involution(square: int)
    requires
        0 <= square < 64,
    ensures
        0 <= mirror_spec(square) < 64,
        mirror_spec(mirror_spec(square)) == square,
{
}

/// Two functions that agree on the squares below `n` have the same sum
/// over them.
proof fn lemma_sum_congruence(f: spec_fn(int) -> int, g: spec_fn(int) -> int, n: int)
    requires
        forall|square: int| 0 <= square < n ==> #[trigger] f(square) == g(square),
    ensures
        sum_squares(f, n) == sum_squares(g, n),
    decreases n,
{
    if n > 0 {
        lemma_sum_congruence(f, g, n - 1);
    }
}

/// The sum of the negated values is the negated sum.
proof fn lemma_sum_negate(f: spec_fn(int) -> int, n: int)
    ensures
        sum_squares(|square: int| -f(square), n) == -sum_squares(f, n),
    decreases n,
{
    if n > 0 {
        lemma_sum_negate(f, n - 1);
    }
}

/// The sum of `f` over one rank.
spec fn rank_sum(f: spec_fn(int) -> int, rank: int) -> int {
    f(8 * rank) + f(8 * rank + 1) + f(8 * rank + 2) + f(8 * rank + 3) + f(8 * rank + 4) + f(
        8 * rank + 5,
    ) + f(8 * rank + 6) + f(8 * rank + 7)
}

/// The sum over the squares up to the end of a rank is the sum up to its
/// beginning and the sum over the rank.
proof fn lemma_sum_rank(f: spec_fn(int) -> int, rank: int)
    requires
        0 <= rank,
    ensures
        sum_squares(f, 8 * rank + 8) == sum_squares(f, 8 * rank) + rank_sum(f, rank),
{
    reveal_with_fuel(sum_squares, 9);
}

/// The sum over the board is the sum of the sums over its eight ranks.
proof fn lemma_sum_by_ranks(f: spec_fn(int) -> int)
    ensures
        sum_squares(f, 64) == rank_sum(f, 0) + rank_sum(f, 1) + rank_sum(f, 2) + rank_sum(f, 3)
            + rank_sum(f, 4) + rank_sum(f, 5) + rank_sum(f, 6) + rank_sum(f, 7),
{
    lemma_sum_rank(f, 0);
    lemma_sum_rank(f, 1);
    lemma_sum_rank(f, 2);
    lemma_sum_rank(f, 3);
    lemma_sum_rank(f, 4);
    lemma_sum_rank(f, 5);
    lemma_sum_rank(f, 6);
    lemma_sum_rank(f, 7);
}

/// A sum over the board does not change when every square is taken for its
/// mirror image: the ranks are summed in the opposite order.
proof fn lemma_sum_mirror(f: spec_fn(int) -> int)
    ensures
        sum_squares(|square: int| f(mirror_spec(square)), 64) == sum_squares(f, 64),
{
    let g = |square: int| f(mirror_spec(square));
    lemma_sum_by_ranks(f);
    lemma_sum_by_ranks(g);
}

/// The seen-from-the-other-side board holds as many of one side's pieces of
/// a kind as the board holds of the other side's.
pub proof fn lemma_count_color_mirror(board: Seq<Option<Piece>>, piece: Piece)
    ensures
        count(color_mirror(board), piece) == count(
            board,
            Piece { color: piece.color.spec_other(), role: piece.role },
        ),
{
    let other = Piece { color: piece.color.spec_other(), role: piece.role };
    let mirrored = color_mirror(board);
    let f = |square: int| holds(board, other, square);
    let g = |square: int| f(mirror_spec(square));
    let h = |square: int| holds(mirrored, piece, square);
    assert forall|square: int| 0 <= square < 64 implies #[trigger] h(square) == g(square) by {
        lemma_mirror_involution(square);
    }
    lemma_sum_congruence(h, g, 64);
    lemma_sum_mirror(f);
}

/// The positional term of the seen-from-the-other-side board is the
/// negated positional term of the board.
pub proof fn lemma_positional_color_mirror(board: Seq<Option<Piece>>)
    ensures
        positional(color_mirror(board)) == -positional(board),
{
    let mirrored = color_mirror(board);
    let f = |square: int| square_score(board[square], square);
    let g = |square: int| f(mirror_spec(square));
    let negated = |square: int| -g(square);
    let h = |square: int| square_score(mirrored[square], square);
    assert forall|square: int| 0 <= square < 64 implies #[trigger] h(square) == negated(square) by {
        lemma_mirror_involution(square);
    }
    lemma_sum_congruence(h, negated, 64);
    lemma_sum_negate(g, 64);
    lemma_sum_mirror(f);
}

/// Evaluating a board and evaluating it with the sides reversed gives
/// negated scores.
pub proof fn lemma_color_reversal(board: Seq<Option<Piece>>)
    ensures
        evaluate_spec(color_mirror(board)) == -evaluate_spec(board),
{
    lemma_positional_color_mirror(board);
    lemma_material_color_mirror(board, Color::White);
    lemma_material_color_mirror(board, Color::Black);
}

/// The material of one side on the seen-from-the-other-side board is the
/// material of the other side on the board.
proof fn lemma_material_color_mirror(board: Seq<Option<Piece>>, color: Color)
    ensures
        material_side_of(color_mirror(board), color) == material_side_of(
            board,
            color.spec_other(),
        ),
{
    lemma_count_color_mirror(board, Piece { color, role: Role::Pawn });
    lemma_count_color_mirror(board, Piece { color, role: Role::Knight });
    lemma_count_color_mirror(board, Piece { color, role: Role::Bishop });
    lemma_count_color_mirror(board, Piece { color, role: Role::Rook });
    lemma_count_color_mirror(board, Piece { color, role: Role::Queen });
    lemma_count_color_mirror(board, Piece { color, role: Role::King });
}

/// A board that looks the same from both sides scores nothing, in its
/// material and in its positional term.
pub proof fn lemma_balanced_board_scores_zero(board: Seq<Option<Piece>>)
    requires
        color_mirror(board) == board,
    ensures
        positional(board) == 0,
        material_balance(board) == 0,
        evaluate_spec(board) == 0,
{
    lemma_positional_color_mirror(board);
    lemma_material_color_mirror(board, Color::White);
}

/// The positional term of the starting position is exactly 0, and so is its
/// score: the tables cancel between the two sides.
pub proof fn lemma_starting_position_scores_zero(pos: Position)
    requires
        is_starting_position(pos),
    ensures
        positional(board_of(pos)) == 0,
        evaluate_spec(board_of(pos)) == 0,
{
    let board = board_of(pos);
    assert forall|square: int| 0 <= square < 64 implies #[trigger] color_mirror(board)[square]
        == board[square] by {
        lemma_mirror_involution(square);
    }
    assert(color_mirror(board) =~= board);
    lemma_balanced_board_scores_zero(board);
}

} // verus!
