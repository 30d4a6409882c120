//! Depth-limited minimax search with alpha-beta pruning.
//!
//! `minimax` says what a position is worth when both sides look `depth`
//! plies ahead: White picks the successor of greatest worth, Black the one
//! of least. `searchmax` and `searchmin` compute that worth inside a window
//! of two bounds, and leave out what cannot change the answer; their
//! contracts say what they return in terms of `minimax`, so that the
//! pruning is proved to lose nothing. With a window that is shut, `lower`
//! not below `upper`, they still answer, with one of the two bounds.

use crate::board::board_of;
use crate::eval::{evaluate_spec, lemma_evaluate_range};
use crate::rules::{
    classification_of, legal_moves_of, moves_fit_class, successor, turn_of, ChessMove,
    Classification, Color, Position,
};
use vstd::prelude::*;

verus! {

/// The score of a position that White has won.
pub const WHITE_WIN: i32 = i32::MAX;

/// The score of a position that Black has won.
pub const BLACK_WIN: i32 = i32::MIN;

/// What a position is worth without looking ahead: a sentinel where one side
/// has won, nothing where the game is drawn, and the evaluator's score
/// where it goes on.
pub open spec fn static_value(pos: Position) -> int {
    match classification_of(pos) {
        Classification::WonBy(Color::White) => WHITE_WIN as int,
        Classification::WonBy(Color::Black) => BLACK_WIN as int,
        Classification::Drawn => 0,
        Classification::Ongoing => evaluate_spec(board_of(pos)),
    }
}

/// The search does not look beyond `pos`: the game is over there, or the
/// depth is used up.
pub open spec fn is_leaf(pos: Position, depth: nat) -> bool {
    depth == 0 || !(classification_of(pos) is Ongoing)
}

/// The worth of a position to a search of `depth` plies, without any
/// pruning. At a position that is no leaf the side to choose, the
/// maximizing or the minimizing one, takes the best of the successors, and
/// the other side chooses there.
pub open spec fn minimax(pos: Position, depth: nat, maximizing: bool) -> int
    decreases depth, 1nat, 0nat,
{
    if is_leaf(pos, depth) {
        static_value(pos)
    } else {
        best_of(pos, depth, maximizing, legal_moves_of(pos).len())
    }
}

/// The best worth among the first `n` successors of `pos`: the greatest for
/// the maximizing side, the least for the minimizing one. With no successor
/// to choose from it is the sentinel of the other side's win.
pub open spec fn best_of(pos: Position, depth: nat, maximizing: bool, n: nat) -> int
    decreases depth, 0nat, n,
{
    if n == 0 || depth == 0 {
        if maximizing {
            BLACK_WIN as int
        } else {
            WHITE_WIN as int
        }
    } else {
        let before = best_of(pos, depth, maximizing, (n - 1) as nat);
        let value = minimax(successor(pos, n - 1), (depth - 1) as nat, !maximizing);
        if better(maximizing, value, before) {
            value
        } else {
            before
        }
    }
}

/// `value` is strictly better than `other` for the side that chooses.
pub open spec fn better(maximizing: bool, value: int, other: int) -> bool {
    if maximizing {
        value > other
    } else {
        value < other
    }
}

/// The first of the first `n` successors of `pos` that is worth
/// `best_of(pos, depth, maximizing, n)`: the successor that the side to
/// choose prefers, the earlier one where two are worth the same.
pub open spec fn best_index(pos: Position, depth: nat, maximizing: bool, n: nat) -> int
    decreases n,
{
    if n <= 1 {
        0
    } else {
        let before = best_of(pos, depth, maximizing, (n - 1) as nat);
        let value = minimax(successor(pos, n - 1), (depth - 1) as nat, !maximizing);
        if better(maximizing, value, before) {
            n - 1
        } else {
            best_index(pos, depth, maximizing, (n - 1) as nat)
        }
    }
}

/// `value`, held inside the window: a value at or below `lower` becomes
/// `lower`, one at or above `upper` becomes `upper`.
pub open spec fn clamp(value: int, lower: int, upper: int) -> int {
    if value <= lower {
        lower
    } else if value >= upper {
        upper
    } else {
        value
    }
}

/// The `index`-th successor of `pos` ends a step whose window is shut, one
/// with `lower >= upper`: it is no leaf, and so answers with one of the two
/// bounds, or it is a leaf whose worth meets the far bound.
pub open spec fn blocks(
    pos: Position,
    depth: nat,
    maximizing: bool,
    lower: int,
    upper: int,
    index: int,
) -> bool {
    let next = successor(pos, index);
    !is_leaf(next, (depth - 1) as nat) || if maximizing {
        static_value(next) >= upper
    } else {
        static_value(next) <= lower
    }
}

/// The score of a step whose window is shut. Nothing lies between the
/// bounds, so no successor can better the near one: the step gives the far
/// bound if a successor ends it, and the near bound if none does.
pub open spec fn shut_score(
    pos: Position,
    depth: nat,
    maximizing: bool,
    lower: int,
    upper: int,
) -> int {
    if (exists|index: int|
        0 <= index < legal_moves_of(pos).len() && #[trigger] blocks(
            pos,
            depth,
            maximizing,
            lower,
            upper,
            index,
        )) == maximizing {
        upper
    } else {
        lower
    }
}

/// The score that a search of `pos` inside the window returns. A leaf gives
/// its own worth whatever the window; any other position gives its minimax
/// worth held inside the window, where the window is open (`lower < upper`),
/// and one of the bounds where it is shut.
pub open spec fn window_score(
    pos: Position,
    depth: nat,
    maximizing: bool,
    lower: int,
    upper: int,
) -> int {
    if is_leaf(pos, depth) {
        static_value(pos)
    } else if lower < upper {
        clamp(minimax(pos, depth, maximizing), lower, upper)
    } else {
        shut_score(pos, depth, maximizing, lower, upper)
    }
}

/// The move that a search of `pos` inside the window returns: the first
/// move to the best successor, where the position's worth lies strictly
/// inside the window; none at a leaf, none where the worth meets a bound,
/// and so none where the window is shut.
pub open spec fn window_move(
    pos: Position,
    depth: nat,
    maximizing: bool,
    lower: int,
    upper: int,
) -> Option<ChessMove> {
    if !is_leaf(pos, depth) && lower < minimax(pos, depth, maximizing) < upper {
        Some(
            legal_moves_of(pos)[best_index(pos, depth, maximizing, legal_moves_of(pos).len())],
        )
    } else {
        None
    }
}

/// The number of positions that a search of `pos` inside the window
/// visits, `pos` included.
pub open spec fn nodes(pos: Position, depth: nat, maximizing: bool, lower: int, upper: int) -> nat
    decreases depth, 1nat, 0nat,
{
    if is_leaf(pos, depth) {
        1
    } else {
        1 + nodes_from(pos, depth, maximizing, lower, upper, 0)
    }
}

/// The number of positions visited below `pos` from its successor `from`
/// on, with the window as it stands when that successor's turn comes. A
/// successor whose answer meets the far bound ends the visit; one whose
/// answer betters the near bound narrows the window for those after it.
pub open spec fn nodes_from(
    pos: Position,
    depth: nat,
    maximizing: bool,
    lower: int,
    upper: int,
    from: nat,
) -> nat
    decreases depth, 0nat, legal_moves_of(pos).len() - from,
{
    if depth == 0 || from >= legal_moves_of(pos).len() {
        0
    } else {
        let next = successor(pos, from as int);
        let below = nodes(next, (depth - 1) as nat, !maximizing, lower, upper);
        let value = window_score(next, (depth - 1) as nat, !maximizing, lower, upper);
        if maximizing {
            if value >= upper {
                below
            } else {
                below + nodes_from(
                    pos,
                    depth,
                    maximizing,
                    if value > lower {
                        value
                    } else {
                        lower
                    },
                    upper,
                    from + 1,
                )
            }
        } else {
            if value <= lower {
                below
            } else {
                below + nodes_from(
                    pos,
                    depth,
                    maximizing,
                    lower,
                    if value < upper {
                        value
                    } else {
                        upper
                    },
                    from + 1,
                )
            }
        }
    }
}

/// A count of visited positions, kept in an `i64`: it stops at the greatest
/// value and does not wrap.
pub open spec fn saturated(count: int) -> int {
    if count > i64::MAX {
        i64::MAX as int
    } else {
        count
    }
}

/// A static value is a sentinel, zero, or a score of the evaluator, and so
/// within the range of an `i32`.
pub proof fn lemma_static_value_range(pos: Position)
    ensures
        i32::MIN <= static_value(pos) <= i32::MAX,
{
    lemma_evaluate_range(board_of(pos));
}

/// The worth of a position lies between the two sentinels.
pub proof fn lemma_minimax_range(pos: Position, depth: nat, maximizing: bool)
    ensures
        i32::MIN <= minimax(pos, depth, maximizing) <= i32::MAX,
    decreases depth, 1nat, 0nat,
{
    lemma_static_value_range(pos);
    if !is_leaf(pos, depth) {
        lemma_best_of_range(pos, depth, maximizing, legal_moves_of(pos).len());
    }
}

/// The best of some successors lies between the two sentinels.
pub proof fn lemma_best_of_range(pos: Position, depth: nat, maximizing: bool, n: nat)
    ensures
        i32::MIN <= best_of(pos, depth, maximizing, n) <= i32::MAX,
    decreases depth, 0nat, n,
{
    if n > 0 && depth > 0 {
        lemma_best_of_range(pos, depth, maximizing, (n - 1) as nat);
        lemma_minimax_range(successor(pos, n - 1), (depth - 1) as nat, !maximizing);
    }
}

/// The best of more successors is no worse than the best of fewer.
pub proof fn lemma_best_of_monotonic(pos: Position, depth: nat, maximizing: bool, m: nat, n: nat)
    requires
        m <= n,
    ensures
        !better(maximizing, best_of(pos, depth, maximizing, m), best_of(pos, depth, maximizing, n)),
    decreases n,
{
    if m < n && depth > 0 {
        lemma_best_of_monotonic(pos, depth, maximizing, m, (n - 1) as nat);
    }
}

/// What `best_index` picks: a successor among the first `n` that is worth
/// the best of them, and the first such.
pub proof fn lemma_best_index(pos: Position, depth: nat, maximizing: bool, n: nat)
    requires
        n > 0,
        depth > 0,
    ensures
        0 <= best_index(pos, depth, maximizing, n) < n,
        minimax(
            successor(pos, best_index(pos, depth, maximizing, n)),
            (depth - 1) as nat,
            !maximizing,
        ) == best_of(pos, depth, maximizing, n),
        forall|i: int|
            0 <= i < best_index(pos, depth, maximizing, n) ==> better(
                maximizing,
                best_of(pos, depth, maximizing, n),
                minimax(#[trigger] successor(pos, i), (depth - 1) as nat, !maximizing),
            ),
        forall|i: int|
            0 <= i < n ==> !better(
                maximizing,
                minimax(#[trigger] successor(pos, i), (depth - 1) as nat, !maximizing),
                best_of(pos, depth, maximizing, n),
            ),
    decreases n,
{
    reveal_with_fuel(best_of, 2);
    lemma_minimax_range(successor(pos, 0), (depth - 1) as nat, !maximizing);
    if n > 1 {
        lemma_best_index(pos, depth, maximizing, (n - 1) as nat);
    }
}

/// A window with its bounds in order tells on which side of each bound the
/// worth of a position lies, and gives the worth itself where it lies
/// strictly between them.
pub proof fn lemma_window_score(
    pos: Position,
    depth: nat,
    maximizing: bool,
    lower: int,
    upper: int,
)
    requires
        lower < upper,
    ensures
        window_score(pos, depth, maximizing, lower, upper) >= upper <==> minimax(
            pos,
            depth,
            maximizing,
        ) >= upper,
        window_score(pos, depth, maximizing, lower, upper) <= lower <==> minimax(
            pos,
            depth,
            maximizing,
        ) <= lower,
        lower < window_score(pos, depth, maximizing, lower, upper) < upper ==> window_score(
            pos,
            depth,
            maximizing,
            lower,
            upper,
        ) == minimax(pos, depth, maximizing),
{
}

/// Counts one more visited position.
fn count_node(visited: &mut i64)
    ensures
        *final(visited) == saturated(*old(visited) + 1),
{
    if *visited < i64::MAX {
        *visited = *visited + 1;
    }
}

/// The maximizing step: the best that the side to move can reach from
/// `position` within `depth` plies, as far as it lies inside the window from
/// `lower` to `upper`.
///
/// The successors are tried in the rules provider's order. One that reaches
/// `upper` ends the search of this position, with `upper` for its score and
/// no move; one that betters `lower` becomes the move to play and raises
/// `lower` for those after it. A leaf answers with its own worth and no
/// move, whatever the bounds.
pub fn searchmax(
    position: &Position,
    upper: i32,
    lower: i32,
    depth: u32,
    visited: &mut i64,
) -> (found: (Option<ChessMove>, i32))
    ensures
        found.1 == window_score(*position, depth as nat, true, lower as int, upper as int),
        found.0 == window_move(*position, depth as nat, true, lower as int, upper as int),
        *final(visited) == saturated(
            *old(visited) + nodes(*position, depth as nat, true, lower as int, upper as int),
        ),
        moves_fit_class(*position),
    decreases depth,
{
    count_node(visited);
    match position.classify() {
        Classification::WonBy(Color::White) => {
            return (None, WHITE_WIN);
        },
        Classification::WonBy(Color::Black) => {
            return (None, BLACK_WIN);
        },
        Classification::Drawn => {
            return (None, 0);
        },
        Classification::Ongoing => {},
    }
    if depth == 0 {
        return (None, position.evaluate());
    }
    let mut moves = position.legal_moves();
    let mut best_move: Option<usize> = None;
    let mut bound: i32 = lower;
    let mut index: usize = 0;
    let ghost mut spent: nat = 0;
    while index < moves.len()
        invariant
            index <= moves.len(),
            moves@ == legal_moves_of(*position),
            depth > 0,
            !is_leaf(*position, depth as nat),
            lower < upper ==> lower <= bound < upper,
            lower < upper ==> bound == if best_of(*position, depth as nat, true, index as nat) > lower {
                best_of(*position, depth as nat, true, index as nat)
            } else {
                lower as int
            },
            lower < upper ==> (best_move is Some <==> bound > lower),
            best_move matches Some(best) ==> best == best_index(
                *position,
                depth as nat,
                true,
                index as nat,
            ) && best < index,
            *visited == saturated(*old(visited) + 1 + spent),
            spent + nodes_from(
                *position,
                depth as nat,
                true,
                bound as int,
                upper as int,
                index as nat,
            ) == nodes_from(*position, depth as nat, true, lower as int, upper as int, 0),
            lower >= upper ==> bound == lower && best_move is None,
            lower >= upper ==> forall|i: int|
                0 <= i < index ==> !#[trigger] blocks(
                    *position,
                    depth as nat,
                    true,
                    lower as int,
                    upper as int,
                    i,
                ),
        decreases moves.len() - index,
    {
        let next = position.play_listed(&moves, index);
        let eval: i32 = searchmin(&next, upper, bound, depth - 1, visited).1;
        proof {
            if lower < upper {
                lemma_window_score(next, (depth - 1) as nat, false, bound as int, upper as int);
                lemma_minimax_range(next, (depth - 1) as nat, false);
            }
            spent = spent + nodes(next, (depth - 1) as nat, false, bound as int, upper as int);
        }
        if eval >= upper {
            proof {
                if lower < upper {
                    lemma_best_of_monotonic(
                        *position,
                        depth as nat,
                        true,
                        (index + 1) as nat,
                        moves@.len(),
                    );
                } else {
                    assert(blocks(
                        *position,
                        depth as nat,
                        true,
                        lower as int,
                        upper as int,
                        index as int,
                    ));
                }
            }
            return (None, upper);
        }
        if eval > bound {
            bound = eval;
            best_move = Some(index);
        }
        index = index + 1;
    }
    match best_move {
        Some(best) => (Some(moves.swap_remove(best)), bound),
        None => (None, bound),
    }
}

/// The minimizing step: the mirror image of `searchmax`. A successor that
/// falls to `lower` ends the search of this position, with `lower` for its
/// score and no move; one that betters `upper` becomes the move to play and
/// lowers `upper` for those after it.
pub fn searchmin(
    position: &Position,
    upper: i32,
    lower: i32,
    depth: u32,
    visited: &mut i64,
) -> (found: (Option<ChessMove>, i32))
    ensures
        found.1 == window_score(*position, depth as nat, false, lower as int, upper as int),
        found.0 == window_move(*position, depth as nat, false, lower as int, upper as int),
        *final(visited) == saturated(
            *old(visited) + nodes(*position, depth as nat, false, lower as int, upper as int),
        ),
        moves_fit_class(*position),
    decreases depth,
{
    count_node(visited);
    match position.classify() {
        Classification::WonBy(Color::White) => {
            return (None, WHITE_WIN);
        },
        Classification::WonBy(Color::Black) => {
            return (None, BLACK_WIN);
        },
        Classification::Drawn => {
            return (None, 0);
        },
        Classification::Ongoing => {},
    }
    if depth == 0 {
        return (None, position.evaluate());
    }
    let mut moves = position.legal_moves();
    let mut best_move: Option<usize> = None;
    let mut bound: i32 = upper;
    let mut index: usize = 0;
    let ghost mut spent: nat = 0;
    while index < moves.len()
        invariant
            index <= moves.len(),
            moves@ == legal_moves_of(*position),
            depth > 0,
            !is_leaf(*position, depth as nat),
            lower < upper ==> lower < bound <= upper,
            lower < upper ==> bound == if best_of(*position, depth as nat, false, index as nat) < upper {
                best_of(*position, depth as nat, false, index as nat)
            } else {
                upper as int
            },
            lower < upper ==> (best_move is Some <==> bound < upper),
            best_move matches Some(best) ==> best == best_index(
                *position,
                depth as nat,
                false,
                index as nat,
            ) && best < index,
            *visited == saturated(*old(visited) + 1 + spent),
            spent + nodes_from(
                *position,
                depth as nat,
                false,
                lower as int,
                bound as int,
                index as nat,
            ) == nodes_from(*position, depth as nat, false, lower as int, upper as int, 0),
            lower >= upper ==> bound == upper && best_move is None,
            lower >= upper ==> forall|i: int|
                0 <= i < index ==> !#[trigger] blocks(
                    *position,
                    depth as nat,
                    false,
                    lower as int,
                    upper as int,
                    i,
                ),
        decreases moves.len() - index,
    {
        let next = position.play_listed(&moves, index);
        let eval: i32 = searchmax(&next, bound, lower, depth - 1, visited).1;
        proof {
            if lower < upper {
                lemma_window_score(next, (depth - 1) as nat, true, lower as int, bound as int);
                lemma_minimax_range(next, (depth - 1) as nat, true);
            }
            spent = spent + nodes(next, (depth - 1) as nat, true, lower as int, bound as int);
        }
        if eval <= lower {
            proof {
                if lower < upper {
                    lemma_best_of_monotonic(
                        *position,
                        depth as nat,
                        false,
                        (index + 1) as nat,
                        moves@.len(),
                    );
                } else {
                    assert(blocks(
                        *position,
                        depth as nat,
                        false,
                        lower as int,
                        upper as int,
                        index as int,
                    ));
                }
            }
            return (None, lower);
        }
        if eval < bound {
            bound = eval;
            best_move = Some(index);
        }
        index = index + 1;
    }
    match best_move {
        Some(best) => (Some(moves.swap_remove(best)), bound),
        None => (None, bound),
    }
}

/// The side that chooses at the root is the side to move: White maximizes.
pub open spec fn root_maximizes(pos: Position) -> bool {
    turn_of(pos) == Color::White
}

/// The score that a search of `depth` plies gives a position: its
/// minimax worth.
pub open spec fn search_score(pos: Position, depth: nat) -> int {
    minimax(pos, depth, root_maximizes(pos))
}

/// The move that a search of `depth` plies finds: the first move to the
/// best successor, where the worth of the position is no sentinel; none at
/// a leaf, and none where it is one.
pub open spec fn search_move(pos: Position, depth: nat) -> Option<ChessMove> {
    window_move(pos, depth, root_maximizes(pos), BLACK_WIN as int, WHITE_WIN as int)
}

/// The number of positions that a search of `depth` plies visits.
pub open spec fn search_nodes(pos: Position, depth: nat) -> nat {
    nodes(pos, depth, root_maximizes(pos), BLACK_WIN as int, WHITE_WIN as int)
}

/// A step at a leaf gives the leaf's own worth and no move, and visits the
/// leaf alone, whatever the bounds, open or shut: a sentinel where the game
/// is won, not held inside the window, and the evaluator's score, as White
/// sees it, at depth 0 where the game goes on.
pub proof fn lemma_step_of_leaf(
    pos: Position,
    depth: nat,
    maximizing: bool,
    lower: int,
    upper: int,
)
    requires
        is_leaf(pos, depth),
    ensures
        window_score(pos, depth, maximizing, lower, upper) == static_value(pos),
        window_move(pos, depth, maximizing, lower, upper) is None,
        nodes(pos, depth, maximizing, lower, upper) == 1,
        classification_of(pos) == Classification::WonBy(Color::White) ==> window_score(
            pos,
            depth,
            maximizing,
            lower,
            upper,
        ) == WHITE_WIN,
        classification_of(pos) == Classification::WonBy(Color::Black) ==> window_score(
            pos,
            depth,
            maximizing,
            lower,
            upper,
        ) == BLACK_WIN,
        classification_of(pos) is Ongoing ==> window_score(pos, depth, maximizing, lower, upper)
            == evaluate_spec(board_of(pos)),
{
}

/// A search of a leaf gives the leaf's own worth and no move, and visits
/// the leaf alone: a sentinel where the game is won, at any depth, and the
/// evaluator's score at depth 0 where it goes on.
pub proof fn lemma_search_of_leaf(pos: Position, depth: nat)
    requires
        is_leaf(pos, depth),
    ensures
        search_score(pos, depth) == static_value(pos),
        search_move(pos, depth) is None,
        search_nodes(pos, depth) == 1,
        classification_of(pos) == Classification::WonBy(Color::White) ==> search_score(pos, depth)
            == WHITE_WIN,
        classification_of(pos) == Classification::WonBy(Color::Black) ==> search_score(pos, depth)
            == BLACK_WIN,
        classification_of(pos) is Ongoing ==> search_score(pos, depth) == evaluate_spec(
            board_of(pos),
        ),
{
}

/// The move that a search finds is the first among the moves to a
/// successor of the best worth: every move before it leads to a worse one,
/// and no move leads to a better one.
pub proof fn lemma_search_move(pos: Position, depth: nat)
    requires
        search_move(pos, depth) is Some,
    ensures
        depth > 0,
        legal_moves_of(pos).len() > 0,
        ({
            let index = best_index(pos, depth, root_maximizes(pos), legal_moves_of(pos).len());
            &&& 0 <= index < legal_moves_of(pos).len()
            &&& search_move(pos, depth) == Some(legal_moves_of(pos)[index])
            &&& minimax(successor(pos, index), (depth - 1) as nat, !root_maximizes(pos))
                == search_score(pos, depth)
            &&& forall|i: int|
                0 <= i < index ==> better(
                    root_maximizes(pos),
                    search_score(pos, depth),
                    minimax(#[trigger] successor(pos, i), (depth - 1) as nat, !root_maximizes(pos)),
                )
            &&& forall|i: int|
                0 <= i < legal_moves_of(pos).len() ==> !better(
                    root_maximizes(pos),
                    minimax(#[trigger] successor(pos, i), (depth - 1) as nat, !root_maximizes(pos)),
                    search_score(pos, depth),
                )
        }),
{
    lemma_best_index(pos, depth, root_maximizes(pos), legal_moves_of(pos).len());
}

/// Searches `position` to `depth` plies: White to move maximizes, Black to
/// move minimizes, and the window is the whole range between the two
/// sentinels. Every position visited is counted in `visited`.
///
/// The score is the minimax worth of the position: the pruning changes
/// nothing. A won position gives the winner's sentinel at any depth, and a
/// position that goes on gives the evaluator's score at depth 0, both
/// without a move.
pub fn search(position: &Position, depth: u32, visited: &mut i64) -> (found: (
    Option<ChessMove>,
    i32,
))
    ensures
        found.1 == search_score(*position, depth as nat),
        found.0 == search_move(*position, depth as nat),
        *final(visited) == saturated(*old(visited) + search_nodes(*position, depth as nat)),
        classification_of(*position) == Classification::WonBy(Color::White) ==> found.0 is None
            && found.1 == WHITE_WIN,
        classification_of(*position) == Classification::WonBy(Color::Black) ==> found.0 is None
            && found.1 == BLACK_WIN,
        classification_of(*position) == Classification::Drawn ==> found.0 is None && found.1 == 0,
        depth == 0 && classification_of(*position) is Ongoing ==> found.0 is None && found.1
            == evaluate_spec(board_of(*position)),
        moves_fit_class(*position),
{
    proof {
        lemma_minimax_range(*position, depth as nat, root_maximizes(*position));
    }
    match position.side_to_move() {
        Color::White => searchmax(position, WHITE_WIN, BLACK_WIN, depth, visited),
        Color::Black => searchmin(position, WHITE_WIN, BLACK_WIN, depth, visited),
    }
}

} // verus!
