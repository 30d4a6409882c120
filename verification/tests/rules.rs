use xanadu::rules::{Classification, Color, IllegalMoveError, ParseError, Piece, Position, Role};

const OPENING_MOVES: [&str; 20] = [
    "a2a3", "a2a4", "b2b3", "b2b4", "c2c3", "c2c4", "d2d3", "d2d4", "e2e3", "e2e4", "f2f3",
    "f2f4", "g2g3", "g2g4", "h2h3", "h2h4", "b1a3", "b1c3", "g1f3", "g1h3",
];

fn position(fen: &str) -> Position {
    Position::parse(fen.as_bytes()).expect("a legal position")
}

#[test]
fn the_game_begins_with_white_and_twenty_moves() {
    let pos = Position::startpos();
    assert_eq!(Color::White, pos.side_to_move());
    assert_eq!(Classification::Ongoing, pos.classify());
    let moves = pos.legal_moves();
    assert_eq!(20, moves.len());
    let mut names: Vec<String> = moves.iter().map(|m| pos.format_move(m)).collect();
    names.sort();
    let mut expected: Vec<String> = OPENING_MOVES.iter().map(|m| m.to_string()).collect();
    expected.sort();
    assert_eq!(expected, names);
}

#[test]
fn parsing_the_starting_layout_gives_the_starting_position() {
    let parsed = position("rnbqkbnr/pppppppp/8/8/8/8/PPPPPPPP/RNBQKBNR w KQkq - 0 1");
    let start = Position::startpos();
    assert_eq!(start.board(), parsed.board());
    assert_eq!(start.side_to_move(), parsed.side_to_move());
    assert_eq!(start.legal_moves(), parsed.legal_moves());
}

#[test]
fn parse_tells_the_side_to_move() {
    let pos = position("rnbqkbnr/pppppppp/8/8/4P3/8/PPPP1PPP/RNBQKBNR b KQkq - 0 1");
    assert_eq!(Color::Black, pos.side_to_move());
    assert_eq!(Some(Piece { color: Color::White, role: Role::Pawn }), pos.board().piece_at(28));
    assert_eq!(None, pos.board().piece_at(12));
}

#[test]
fn parse_refuses_what_is_no_layout() {
    assert!(matches!(Position::parse(b""), Err(ParseError::Notation)));
    assert!(matches!(Position::parse(b"startpos"), Err(ParseError::Notation)));
    assert!(matches!(
        Position::parse(b"rnbqkbnr/pppppppp/8/8/8/8/PPPPPPPP/RNBQKBNR x KQkq - 0 1"),
        Err(ParseError::Notation)
    ));
    assert!(matches!(
        Position::parse(b"rnbqkbnr/pppppppp/9/8/8/8/PPPPPPPP/RNBQKBNR w KQkq - 0 1"),
        Err(ParseError::Notation)
    ));
    assert!(matches!(
        Position::parse(b"w KQkq - 0 1"),
        Err(ParseError::Notation)
    ));
}

#[test]
fn parse_refuses_a_layout_that_is_no_position() {
    assert!(matches!(Position::parse(b"8/8/8/8/8/8/8/8 w - - 0 1"), Err(ParseError::Setup)));
    assert!(matches!(
        Position::parse(b"4k3/8/8/8/8/8/8/8 w - - 0 1"),
        Err(ParseError::Setup)
    ));
    // The side that is not to move stands in check.
    assert!(matches!(
        Position::parse(b"4k3/8/8/8/8/8/8/4RK2 w - - 0 1"),
        Err(ParseError::Setup)
    ));
    assert!(matches!(
        Position::parse(b"P3k3/8/8/8/8/8/8/4K3 w - - 0 1"),
        Err(ParseError::Setup)
    ));
}

#[test]
fn parse_refuses_a_layout_without_each_sides_one_king() {
    // A pawn of the side to move attacks the square named for a capture in
    // passing, and that side has no king.
    assert!(matches!(
        Position::parse(b"8/8/8/4P3/8/8/8/8 w - d6 0 1"),
        Err(ParseError::Setup)
    ));
    assert!(matches!(
        Position::parse(b"4k3/8/8/3pP3/8/8/8/8 w - d6 0 1"),
        Err(ParseError::Setup)
    ));
    assert!(matches!(
        Position::parse(b"4k3/8/8/8/3pP3/8/8/8 b - e3 0 1"),
        Err(ParseError::Setup)
    ));
    // Two kings of the side to move.
    assert!(matches!(
        Position::parse(b"4k3/8/8/3pP3/8/8/8/3KK3 w - d6 0 1"),
        Err(ParseError::Setup)
    ));
    // A king marked as promoted is not the side's king.
    assert!(matches!(
        Position::parse(b"4k3/8/8/3pP3/8/8/8/4K~3 w - d6 0 1"),
        Err(ParseError::Setup)
    ));
    // One king, and a second one marked as promoted.
    assert!(matches!(
        Position::parse(b"4k3/8/8/8/8/8/8/3KK~3 w - - 0 1"),
        Err(ParseError::Setup)
    ));
    assert!(matches!(
        Position::parse(b"8/8/8/8/8/8/8/4K3 w - - 0 1"),
        Err(ParseError::Setup)
    ));
    // With both kings the capture in passing is set up.
    let pos = Position::parse(b"4k3/8/8/3pP3/8/8/8/4K3 w - d6 0 1").expect("a legal position");
    assert!(pos.apply_move(b"e5d6").is_ok());
}

#[test]
fn parse_refuses_a_text_of_many_slashes_unread() {
    let mut text = Vec::new();
    for _ in 0..200 {
        text.extend_from_slice(b"8/");
    }
    text.extend_from_slice(b"8[]");
    assert!(matches!(Position::parse(&text), Err(ParseError::Notation)));
    assert!(matches!(Position::parse(b"/////////"), Err(ParseError::Notation)));
    assert!(matches!(Position::parse(b"8/8/8/8/8/8/8/8/8 w - - 0 1"), Err(ParseError::Notation)));
}

#[test]
fn positions_are_classified() {
    assert_eq!(Classification::Ongoing, Position::startpos().classify());
    assert_eq!(
        Classification::WonBy(Color::Black),
        position("rnb1kbnr/pppp1ppp/8/4p3/6Pq/5P2/PPPPP2P/RNBQKBNR w KQkq - 1 3").classify()
    );
    assert_eq!(
        Classification::WonBy(Color::White),
        position("R5k1/5ppp/8/8/8/8/8/6K1 b - - 0 1").classify()
    );
    assert_eq!(Classification::Drawn, position("7k/5Q2/6K1/8/8/8/8/8 b - - 0 1").classify());
    assert_eq!(Classification::Drawn, position("4k3/8/8/8/8/8/8/6K1 w - - 0 1").classify());
}

#[test]
fn a_won_position_has_no_moves_and_one_that_goes_on_has() {
    let fens = [
        "rnb1kbnr/pppp1ppp/8/4p3/6Pq/5P2/PPPPP2P/RNBQKBNR w KQkq - 1 3",
        "R5k1/5ppp/8/8/8/8/8/6K1 b - - 0 1",
        "rnbqkbnr/pppppppp/8/8/8/8/PPPPPPPP/RNBQKBNR w KQkq - 0 1",
        "8/8/8/8/8/4k3/4p3/4K3 b - - 0 1",
        "6k1/5ppp/8/8/8/8/8/R5K1 w - - 0 1",
    ];
    for fen in fens {
        let pos = position(fen);
        match pos.classify() {
            Classification::WonBy(winner) => {
                assert!(pos.legal_moves().is_empty());
                assert_eq!(pos.side_to_move().other(), winner);
            }
            Classification::Ongoing => assert!(!pos.legal_moves().is_empty()),
            Classification::Drawn => {}
        }
    }
}

#[test]
fn a_finished_game_has_no_moves_where_it_is_mate_or_stalemate() {
    assert!(position("rnb1kbnr/pppp1ppp/8/4p3/6Pq/5P2/PPPPP2P/RNBQKBNR w KQkq - 1 3")
        .legal_moves()
        .is_empty());
    assert!(position("7k/5Q2/6K1/8/8/8/8/8 b - - 0 1").legal_moves().is_empty());
    assert!(position("7k/5Q2/6K1/8/8/8/8/8 b - - 0 1").legal_successors().is_empty());
}

#[test]
fn apply_move_plays_a_move_in_notation() {
    let start = Position::startpos();
    let next = start.apply_move(b"g1f3").expect("a legal move");
    assert_eq!(Color::Black, next.side_to_move());
    assert_eq!(Some(Piece { color: Color::White, role: Role::Knight }), next.board().piece_at(21));
    assert_eq!(None, next.board().piece_at(6));
    // The position played from is as it was.
    assert_eq!(Color::White, start.side_to_move());
    assert_eq!(None, start.board().piece_at(21));
}

#[test]
fn apply_move_castles_captures_in_passing_and_promotes() {
    let pos = position("r3k2r/8/8/8/8/8/8/R3K2R w KQkq - 0 1");
    let castled = pos.apply_move(b"e1g1").expect("castling");
    assert_eq!(Some(Piece { color: Color::White, role: Role::King }), castled.board().piece_at(6));
    assert_eq!(Some(Piece { color: Color::White, role: Role::Rook }), castled.board().piece_at(5));
    assert_eq!(None, castled.board().piece_at(7));

    let pos = position("4k3/8/8/3pP3/8/8/8/4K3 w - d6 0 1");
    let taken = pos.apply_move(b"e5d6").expect("en passant");
    assert_eq!(Some(Piece { color: Color::White, role: Role::Pawn }), taken.board().piece_at(43));
    assert_eq!(None, taken.board().piece_at(35));

    let pos = position("4k3/P7/8/8/8/8/8/4K3 w - - 0 1");
    let promoted = pos.apply_move(b"a7a8q").expect("promotion");
    assert_eq!(Some(Piece { color: Color::White, role: Role::Queen }), promoted.board().piece_at(56));
    assert!(pos.apply_move(b"a7a8").is_err());
}

#[test]
fn apply_move_refuses_what_cannot_be_played() {
    let start = Position::startpos();
    assert_eq!(Some(IllegalMoveError), start.apply_move(b"e2e5").err());
    assert_eq!(Some(IllegalMoveError), start.apply_move(b"e7e5").err());
    assert_eq!(Some(IllegalMoveError), start.apply_move(b"e3e4").err());
    assert_eq!(Some(IllegalMoveError), start.apply_move(b"").err());
    assert_eq!(Some(IllegalMoveError), start.apply_move(b"moves").err());
    assert_eq!(Some(IllegalMoveError), start.apply_move(b"0000").err());
    assert_eq!(Some(IllegalMoveError), start.apply_move(b"e2e4 ").err());
    assert_eq!(Some(IllegalMoveError), start.apply_move(b"Q@f7").err());
}

#[test]
fn legal_successors_pair_each_move_with_its_position() {
    let pos = position("r1bqkbnr/pppp1ppp/2n5/4p3/2B1P3/5N2/PPPP1PPP/RNBQK2R b KQkq - 3 3");
    let moves = pos.legal_moves();
    let successors = pos.legal_successors();
    assert_eq!(moves.len(), successors.len());
    for (index, (mv, next)) in successors.iter().enumerate() {
        assert_eq!(&moves[index], mv);
        let name = pos.format_move(mv);
        let played = pos.apply_move(name.as_bytes()).expect("a listed move");
        assert_eq!(played.board(), next.board());
        assert_eq!(Color::White, next.side_to_move());
        let listed = pos.play_listed(&moves, index);
        assert_eq!(listed.board(), next.board());
        assert_ne!(pos.board(), next.board());
    }
}

#[test]
fn format_move_writes_the_protocols_notation() {
    let pos = position("r3k2r/8/8/8/8/8/6p1/R3K3 b Qkq - 0 1");
    let names: Vec<String> = pos.legal_moves().iter().map(|m| pos.format_move(m)).collect();
    assert!(names.contains(&"e8g8".to_string()));
    assert!(names.contains(&"e8c8".to_string()));
    assert!(names.contains(&"g2g1q".to_string()));
    assert!(names.contains(&"g2g1n".to_string()));
    assert!(names.contains(&"a8a1".to_string()));
    for name in &names {
        assert!(name.len() == 4 || name.len() == 5);
        assert!(pos.apply_move(name.as_bytes()).is_ok());
    }
}

#[test]
fn copies_are_the_same_position_and_move() {
    let pos = position("r1bqkbnr/pppp1ppp/2n5/4p3/2B1P3/5N2/PPPP1PPP/RNBQK2R b KQkq - 3 3");
    let copy = pos.clone();
    assert_eq!(pos.board(), copy.board());
    assert_eq!(pos.side_to_move(), copy.side_to_move());
    assert_eq!(pos.legal_moves(), copy.legal_moves());
    for mv in pos.legal_moves() {
        assert_eq!(mv, mv.clone());
    }
}

#[test]
fn the_other_side() {
    assert_eq!(Color::Black, Color::White.other());
    assert_eq!(Color::White, Color::Black.other());
}
