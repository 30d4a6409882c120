use xanadu::rules::{ChessMove, Classification, Color, Position};
use xanadu::search::{search, searchmax, searchmin, BLACK_WIN, WHITE_WIN};

const POSITIONS: [&str; 8] = [
    "rnbqkbnr/pppppppp/8/8/8/8/PPPPPPPP/RNBQKBNR w KQkq - 0 1",
    "rnbqkbnr/pppppppp/8/8/4P3/8/PPPP1PPP/RNBQKBNR b KQkq - 0 1",
    "r1bqkbnr/pppp1ppp/2n5/4p3/2B1P3/5N2/PPPP1PPP/RNBQK2R b KQkq - 3 3",
    "8/5k2/3p4/1p1Pp2p/pP2Pp1P/P4P1K/8/8 b - - 99 50",
    "6k1/5ppp/8/8/8/8/8/R5K1 w - - 0 1",
    "r5k1/8/8/8/8/8/5PPP/6K1 b - - 0 1",
    "7k/8/5K2/6Q1/8/8/8/8 w - - 0 1",
    "8/8/8/8/8/4k3/4p3/4K3 b - - 0 1",
];

fn position(fen: &str) -> Position {
    Position::parse(fen.as_bytes()).expect("a legal position")
}

/// Minimax without bounds: the worth of a position, and the first move to a
/// successor of that worth.
fn plain(pos: &Position, depth: u32, maximizing: bool) -> (Option<ChessMove>, i32) {
    match pos.classify() {
        Classification::WonBy(Color::White) => return (None, i32::MAX),
        Classification::WonBy(Color::Black) => return (None, i32::MIN),
        Classification::Drawn => return (None, 0),
        Classification::Ongoing => {}
    }
    if depth == 0 {
        return (None, pos.evaluate());
    }
    let mut best: Option<(ChessMove, i32)> = None;
    for (mv, next) in pos.legal_successors() {
        let value = plain(&next, depth - 1, !maximizing).1;
        let better = match &best {
            None => true,
            Some((_, kept)) => {
                if maximizing {
                    value > *kept
                } else {
                    value < *kept
                }
            }
        };
        if better {
            best = Some((mv, value));
        }
    }
    match best {
        Some((mv, value)) => (Some(mv), value),
        None => (None, if maximizing { i32::MIN } else { i32::MAX }),
    }
}

/// The number of positions that a search without pruning visits.
fn tree_size(pos: &Position, depth: u32) -> i64 {
    if depth == 0 || pos.classify() != Classification::Ongoing {
        return 1;
    }
    1 + pos.legal_successors().iter().map(|(_, next)| tree_size(next, depth - 1)).sum::<i64>()
}

#[test]
fn pruning_does_not_change_the_score() {
    for fen in POSITIONS {
        let pos = position(fen);
        let maximizing = pos.side_to_move() == Color::White;
        for depth in 0..=3 {
            let mut visited = 0;
            let found = search(&pos, depth, &mut visited);
            let expected = plain(&pos, depth, maximizing);
            assert_eq!(expected.1, found.1, "{} at depth {}", fen, depth);
        }
    }
}

#[test]
fn the_move_found_is_the_first_best_move() {
    for fen in POSITIONS {
        let pos = position(fen);
        let maximizing = pos.side_to_move() == Color::White;
        for depth in 0..=3 {
            let mut visited = 0;
            let found = search(&pos, depth, &mut visited);
            let expected = plain(&pos, depth, maximizing);
            if BLACK_WIN < expected.1 && expected.1 < WHITE_WIN {
                assert_eq!(expected.0, found.0, "{} at depth {}", fen, depth);
            } else {
                assert_eq!(None, found.0, "{} at depth {}", fen, depth);
            }
        }
    }
}

#[test]
fn pruning_visits_no_more_than_the_whole_tree() {
    for fen in POSITIONS {
        let pos = position(fen);
        for depth in 0..=3 {
            let mut visited = 0;
            search(&pos, depth, &mut visited);
            assert!(visited >= 1);
            assert!(visited <= tree_size(&pos, depth), "{} at depth {}", fen, depth);
        }
    }
}

#[test]
fn depth_zero_gives_the_evaluators_score_and_no_move() {
    for fen in POSITIONS {
        let pos = position(fen);
        assert_eq!(Classification::Ongoing, pos.classify());
        let mut visited = 0;
        let found = search(&pos, 0, &mut visited);
        assert_eq!((None, pos.evaluate()), found);
        assert_eq!(1, visited);
    }
    let pos = position("rnbqkbnr/pppppppp/8/8/8/8/PPPPPPPP/RNB1KBNR w KQkq - 0 1");
    let mut visited = 0;
    assert_eq!((None, -895), search(&pos, 0, &mut visited));
}

#[test]
fn a_position_won_by_white_gives_whites_sentinel_at_any_depth() {
    let pos = position("R5k1/5ppp/8/8/8/8/8/6K1 b - - 0 1");
    assert_eq!(Classification::WonBy(Color::White), pos.classify());
    for depth in [0, 1, 2, 3, 4, 7, 1000, u32::MAX] {
        let mut visited = 5;
        assert_eq!((None, WHITE_WIN), search(&pos, depth, &mut visited));
        assert_eq!((None, i32::MAX), searchmax(&pos, 10, -10, depth, &mut visited));
        assert_eq!((None, i32::MAX), searchmin(&pos, 10, -10, depth, &mut visited));
        assert_eq!(8, visited);
    }
}

#[test]
fn a_position_won_by_black_gives_blacks_sentinel_at_any_depth() {
    let pos = position("rnb1kbnr/pppp1ppp/8/4p3/6Pq/5P2/PPPPP2P/RNBQKBNR w KQkq - 1 3");
    assert_eq!(Classification::WonBy(Color::Black), pos.classify());
    for depth in [0, 1, 4, u32::MAX] {
        let mut visited = 0;
        assert_eq!((None, BLACK_WIN), search(&pos, depth, &mut visited));
        assert_eq!((None, i32::MIN), searchmax(&pos, 10, -10, depth, &mut visited));
        assert_eq!(2, visited);
    }
}

#[test]
fn a_drawn_position_gives_zero_at_any_depth() {
    for fen in ["7k/5Q2/6K1/8/8/8/8/8 b - - 0 1", "4k3/8/8/8/8/8/8/6K1 w - - 0 1"] {
        let pos = position(fen);
        assert_eq!(Classification::Drawn, pos.classify());
        for depth in [0, 1, 4, u32::MAX] {
            let mut visited = 0;
            assert_eq!((None, 0), search(&pos, depth, &mut visited));
            assert_eq!(1, visited);
        }
    }
}

#[test]
fn one_ply_takes_the_best_successor() {
    let pos = Position::startpos();
    let mut visited = 0;
    let (mv, score) = search(&pos, 1, &mut visited);
    assert_eq!(21, visited);
    let best = pos
        .legal_successors()
        .iter()
        .map(|(_, next)| next.evaluate())
        .max()
        .expect("twenty successors");
    assert_eq!(best, score);
    assert_eq!(50, score);
    let mv = mv.expect("a move at one ply");
    let first = pos
        .legal_successors()
        .into_iter()
        .find(|(_, next)| next.evaluate() == best)
        .expect("a best successor");
    assert_eq!(first.0, mv);
}

#[test]
fn black_minimizes() {
    let pos = position("rnbqkbnr/pppppppp/8/8/4P3/8/PPPP1PPP/RNBQKBNR b KQkq - 0 1");
    let mut visited = 0;
    let (mv, score) = search(&pos, 1, &mut visited);
    let least = pos
        .legal_successors()
        .iter()
        .map(|(_, next)| next.evaluate())
        .min()
        .expect("twenty successors");
    assert_eq!(least, score);
    assert!(mv.is_some());
    // White, asked to choose in Black's place, would take the greatest.
    let mut visited = 0;
    let (_, greatest) = searchmax(&pos, i32::MAX, i32::MIN, 1, &mut visited);
    assert!(greatest > least);
}

#[test]
fn a_mate_in_one_is_scored_and_comes_without_a_move() {
    let pos = position("6k1/5ppp/8/8/8/8/8/R5K1 w - - 0 1");
    let mut visited = 0;
    let (mv, score) = search(&pos, 1, &mut visited);
    assert_eq!(WHITE_WIN, score);
    assert_eq!(None, mv);
    let mut visited = 0;
    let (mv, score) = search(&pos, 3, &mut visited);
    assert_eq!(WHITE_WIN, score);
    assert_eq!(None, mv);
}

#[test]
fn the_window_holds_the_score() {
    let pos = Position::startpos();
    let mut visited = 0;
    let (_, exact) = searchmax(&pos, i32::MAX, i32::MIN, 2, &mut visited);
    assert_eq!(plain(&pos, 2, true).1, exact);

    // A window above the worth: the lower bound comes back, without a move.
    let mut visited = 0;
    assert_eq!((None, exact + 10), searchmax(&pos, exact + 20, exact + 10, 2, &mut visited));
    // A window below the worth: the search is cut off at the upper bound.
    let mut visited = 0;
    assert_eq!((None, exact - 10), searchmax(&pos, exact - 10, exact - 20, 2, &mut visited));
    assert!(visited < tree_size(&pos, 2));
    // A window around the worth: the worth itself, with the move.
    let mut visited = 0;
    let (mv, score) = searchmax(&pos, exact + 1, exact - 1, 2, &mut visited);
    assert_eq!(exact, score);
    assert_eq!(plain(&pos, 2, true).0, mv);

    let mut visited = 0;
    let (_, exact) = searchmin(&pos, i32::MAX, i32::MIN, 2, &mut visited);
    assert_eq!(plain(&pos, 2, false).1, exact);
    let mut visited = 0;
    assert_eq!((None, exact - 10), searchmin(&pos, exact - 10, exact - 20, 2, &mut visited));
    let mut visited = 0;
    assert_eq!((None, exact + 10), searchmin(&pos, exact + 20, exact + 10, 2, &mut visited));
}

const BOUNDS: [(i32, i32); 9] = [
    (i32::MIN, i32::MAX),
    (-10, 10),
    (10, -10),
    (0, 0),
    (i32::MAX, i32::MIN),
    (i32::MAX, i32::MAX),
    (i32::MIN, i32::MIN),
    (-1000000, -999999),
    (999999, 1000000),
];

#[test]
fn a_step_at_depth_zero_gives_the_evaluators_score_whatever_the_bounds() {
    for fen in POSITIONS {
        let pos = position(fen);
        for (lower, upper) in BOUNDS {
            let mut visited = 0;
            assert_eq!((None, pos.evaluate()), searchmax(&pos, upper, lower, 0, &mut visited));
            assert_eq!((None, pos.evaluate()), searchmin(&pos, upper, lower, 0, &mut visited));
            assert_eq!(2, visited);
        }
    }
}

#[test]
fn a_step_at_a_won_position_gives_the_sentinel_whatever_the_bounds() {
    let won_by_white = position("R5k1/5ppp/8/8/8/8/8/6K1 b - - 0 1");
    let won_by_black =
        position("rnb1kbnr/pppp1ppp/8/4p3/6Pq/5P2/PPPPP2P/RNBQKBNR w KQkq - 1 3");
    let drawn = position("7k/5Q2/6K1/8/8/8/8/8 b - - 0 1");
    for depth in [0, 1, 2, 5, u32::MAX] {
        for (lower, upper) in BOUNDS {
            let mut visited = 0;
            assert_eq!((None, i32::MAX), searchmax(&won_by_white, upper, lower, depth, &mut visited));
            assert_eq!((None, i32::MAX), searchmin(&won_by_white, upper, lower, depth, &mut visited));
            assert_eq!((None, i32::MIN), searchmax(&won_by_black, upper, lower, depth, &mut visited));
            assert_eq!((None, i32::MIN), searchmin(&won_by_black, upper, lower, depth, &mut visited));
            assert_eq!((None, 0), searchmax(&drawn, upper, lower, depth, &mut visited));
            assert_eq!((None, 0), searchmin(&drawn, upper, lower, depth, &mut visited));
            assert_eq!(6, visited);
        }
    }
}

#[test]
fn a_shut_window_gives_one_of_its_bounds_and_no_move() {
    let pos = Position::startpos();
    let mut visited = 0;
    // At one ply the successors are leaves, each worth between 0 and 50.
    // None reaches 1000: the maximizing step keeps its lower bound.
    assert_eq!((None, 2000), searchmax(&pos, 1000, 2000, 1, &mut visited));
    assert_eq!(21, visited);
    // The first reaches -10: the step ends there with its upper bound.
    let mut visited = 0;
    assert_eq!((None, -10), searchmax(&pos, -10, 10, 1, &mut visited));
    assert_eq!(2, visited);
    // None falls to -2000: the minimizing step keeps its upper bound.
    let mut visited = 0;
    assert_eq!((None, -3000), searchmin(&pos, -3000, -2000, 1, &mut visited));
    assert_eq!(21, visited);
    // The first falls to 100: the step ends there with its lower bound.
    let mut visited = 0;
    assert_eq!((None, 100), searchmin(&pos, 50, 100, 1, &mut visited));
    assert_eq!(2, visited);
    // At two plies the first successor is no leaf and answers with a bound,
    // which ends the step whatever the bounds are.
    for (lower, upper) in [(2000, 1000), (10, -10), (0, 0), (-2000, -3000)] {
        let mut visited = 0;
        assert_eq!((None, upper), searchmax(&pos, upper, lower, 2, &mut visited));
        let mut visited = 0;
        assert_eq!((None, lower), searchmin(&pos, upper, lower, 2, &mut visited));
    }
}

#[test]
fn the_count_goes_on_from_where_it_stood_and_stops_at_the_greatest_value() {
    let pos = Position::startpos();
    let mut visited = 100;
    search(&pos, 1, &mut visited);
    assert_eq!(121, visited);
    let mut visited = i64::MAX - 5;
    search(&pos, 1, &mut visited);
    assert_eq!(i64::MAX, visited);
    let mut visited = -30;
    search(&pos, 1, &mut visited);
    assert_eq!(-9, visited);
}
