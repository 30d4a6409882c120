//! The rules provider.
//!
//! Positions and moves are `shakmaty`'s, and so is a layout string once it
//! is read. The library carries them in [`Position`], [`ChessMove`] and
//! [`Layout`] and never looks inside: what it needs to know of them it asks
//! through the private functions of this module, each of which calls into
//! `shakmaty` and hands back plain values. Their contracts are believed,
//! not proved. What such a call returns is a function of its arguments
//! alone, and the uninterpreted spec functions below are the names of those
//! functions. The verified code of the other modules is proved against
//! these names.

use crate::board::{board_of, sum_squares, Board};
use vstd::prelude::*;

verus! {

/// The two sides.
#[derive(Clone, Copy, PartialEq, Eq, Structural, Debug)]
pub enum Color {
    White,
    Black,
}

impl Color {
    /// The opposite side.
    pub open spec fn spec_other(self) -> Color {
        match self {
            Color::White => Color::Black,
            Color::Black => Color::White,
        }
    }

    /// The opposite side.
    #[verifier::when_used_as_spec(spec_other)]
    pub fn other(self) -> (c: Color)
        ensures
            c == self.spec_other(),
    {
        match self {
            Color::White => Color::Black,
            Color::Black => Color::White,
        }
    }
}

/// The six kinds of piece.
#[derive(Clone, Copy, PartialEq, Eq, Structural, Debug)]
pub enum Role {
    Pawn,
    Knight,
    Bishop,
    Rook,
    Queen,
    King,
}

/// A piece of one side.
#[derive(Clone, Copy, PartialEq, Eq, Structural, Debug)]
pub struct Piece {
    pub color: Color,
    pub role: Role,
}

/// Whether a game goes on, and how it ended if it does not.
#[derive(Clone, Copy, PartialEq, Eq, Structural, Debug)]
pub enum Classification {
    Ongoing,
    WonBy(Color),
    Drawn,
}

/// Why a layout string gave no position.
#[derive(Clone, Copy, PartialEq, Eq, Structural, Debug)]
pub enum ParseError {
    /// The text is not a layout string.
    Notation,
    /// The text is a layout string, but what it lays out is not a legal
    /// position.
    Setup,
}

/// A move, given in notation, that cannot be played in a position.
#[derive(Clone, Copy, PartialEq, Eq, Structural, Debug)]
pub struct IllegalMoveError;

/// `shakmaty::Chess`, a legal position of standard chess. The verifier
/// does not look inside.
#[verifier::external_type_specification]
#[verifier::external_body]
pub struct ExChess(shakmaty::Chess);

/// `shakmaty::Move`, a move with what it needs to be played. The verifier
/// does not look inside.
#[verifier::external_type_specification]
#[verifier::external_body]
pub struct ExMove(shakmaty::Move);

/// `shakmaty::fen::Fen`, a layout string read field by field: a board, the
/// side to move, and what else the string says. Nothing has checked yet
/// that a game of chess can stand so. The verifier does not look inside.
#[verifier::external_type_specification]
#[verifier::external_body]
pub struct ExFen(shakmaty::fen::Fen);

/// `shakmaty::Chess` derives `Clone`: the copy is the position itself.
pub assume_specification[ <shakmaty::Chess as Clone>::clone ](pos: &shakmaty::Chess) -> (copy:
    shakmaty::Chess)
    ensures
        copy == *pos,
;

/// `shakmaty::Move` derives `Clone`: the copy is the move itself.
pub assume_specification[ <shakmaty::Move as Clone>::clone ](mv: &shakmaty::Move) -> (copy:
    shakmaty::Move)
    ensures
        copy == *mv,
;

/// A legal position of standard chess.
#[derive(Debug)]
pub struct Position {
    inner: shakmaty::Chess,
}

/// What a layout string lays out, before it is known to be a legal
/// position.
#[derive(Debug)]
pub struct Layout {
    inner: shakmaty::fen::Fen,
}

/// A move, as the rules provider lists it for some position.
#[derive(PartialEq, Eq, Debug)]
pub struct ChessMove {
    inner: shakmaty::Move,
}

impl Clone for Position {
    /// A copy of the position.
    fn clone(&self) -> (copy: Position)
        ensures
            copy == *self,
    {
        Position { inner: self.inner.clone() }
    }
}

impl Clone for ChessMove {
    /// A copy of the move.
    fn clone(&self) -> (copy: ChessMove)
        ensures
            copy == *self,
    {
        ChessMove { inner: self.inner.clone() }
    }
}

/// The piece that stands on `square` (0 is a1, 7 is h1, 63 is h8).
pub uninterp spec fn piece_on(pos: Position, square: int) -> Option<Piece>;

/// The side that is to move.
pub uninterp spec fn turn_of(pos: Position) -> Color;

/// How the game stands.
pub uninterp spec fn classification_of(pos: Position) -> Classification;

/// The legal moves, in the order in which the rules provider lists them.
pub uninterp spec fn legal_moves_of(pos: Position) -> Seq<ChessMove>;

/// The position after a legal move.
pub uninterp spec fn played(pos: Position, mv: ChessMove) -> Position;

/// What a layout string (FEN) lays out.
pub uninterp spec fn laid_out(notation: Seq<u8>) -> Result<Layout, ParseError>;

/// The piece that a layout has on `square`.
pub uninterp spec fn layout_piece_on(layout: Layout, square: int) -> Option<Piece>;

/// Whether a layout marks the piece on `square` as one that a pawn was
/// promoted to.
pub uninterp spec fn layout_promoted_on(layout: Layout, square: int) -> bool;

/// The position that a layout sets up.
pub uninterp spec fn set_up_from(layout: Layout) -> Result<Position, ParseError>;

/// The move that a move string (UCI) stands for in a position.
pub uninterp spec fn move_named(pos: Position, notation: Seq<u8>) -> Result<
    ChessMove,
    IllegalMoveError,
>;

/// The move string (UCI) of a move in a position.
pub uninterp spec fn notation_of(pos: Position, mv: ChessMove) -> Seq<char>;

/// The pieces of the standard starting position, square by square.
pub open spec fn initial_piece(square: int) -> Option<Piece> {
    let file = square % 8;
    let back = if file == 0 || file == 7 {
        Role::Rook
    } else if file == 1 || file == 6 {
        Role::Knight
    } else if file == 2 || file == 5 {
        Role::Bishop
    } else if file == 3 {
        Role::Queen
    } else {
        Role::King
    };
    if 0 <= square < 8 {
        Some(Piece { color: Color::White, role: back })
    } else if 8 <= square < 16 {
        Some(Piece { color: Color::White, role: Role::Pawn })
    } else if 48 <= square < 56 {
        Some(Piece { color: Color::Black, role: Role::Pawn })
    } else if 56 <= square < 64 {
        Some(Piece { color: Color::Black, role: back })
    } else {
        None
    }
}

/// `pos` is set up as a game of chess begins: the pieces on their home
/// squares and White to move, with twenty moves to choose from.
pub open spec fn is_starting_position(pos: Position) -> bool {
    &&& turn_of(pos) == Color::White
    &&& classification_of(pos) is Ongoing
    &&& legal_moves_of(pos).len() == 20
    &&& forall|square: int|
        0 <= square < 64 ==> #[trigger] piece_on(pos, square) == initial_piece(square)
}

/// The legal moves of `pos` are as its classification says: there is one
/// where the game goes on, and none where it is won.
pub open spec fn moves_fit_class(pos: Position) -> bool {
    &&& classification_of(pos) is Ongoing ==> legal_moves_of(pos).len() > 0
    &&& classification_of(pos) is WonBy ==> legal_moves_of(pos).len() == 0
}

/// The position after the `index`-th legal move.
pub open spec fn successor(pos: Position, index: int) -> Position {
    played(pos, legal_moves_of(pos)[index])
}

/// `shakmaty::Chess::default`: the standard starting position, in which
/// the game goes on and 20 moves are legal.
#[verifier::external_body]
fn starting_position() -> (pos: Position)
    ensures
        is_starting_position(pos),
{
    Position { inner: shakmaty::Chess::default() }
}

/// The byte that parts the ranks of a layout string.
pub const SLASH: u8 = 47;

/// The greatest number of `/` in a layout string: seven between the eight
/// ranks, and one more before what a variant of chess keeps beside the
/// board.
pub const MAX_SLASHES: usize = 8;

/// The number of `/` among the first `n` bytes of a text.
pub open spec fn slashes(text: Seq<u8>, n: int) -> int
    decreases n,
{
    if n <= 0 {
        0
    } else {
        slashes(text, n - 1) + if text[n - 1] == SLASH {
            1int
        } else {
            0int
        }
    }
}

/// One where a layout has the king of `color` on `square`, not marked as
/// promoted; zero elsewhere.
pub open spec fn king_here(layout: Layout, color: Color, square: int) -> int {
    if layout_piece_on(layout, square) == Some(Piece { color, role: Role::King })
        && !layout_promoted_on(layout, square) {
        1
    } else {
        0
    }
}

/// The number of squares on which a layout has the king of `color`, not
/// marked as promoted.
pub open spec fn kings(layout: Layout, color: Color) -> int {
    sum_squares(|square: int| king_here(layout, color, square), 64)
}

/// Each side has its one king.
pub open spec fn has_kings(layout: Layout) -> bool {
    kings(layout, Color::White) == 1 && kings(layout, Color::Black) == 1
}

/// What reading a layout string gives: the position that it stands for, or
/// why there is none. A text with more `/` than a layout string can have is
/// no layout string, and a layout in which a side lacks its one king is no
/// position.
pub open spec fn read_position(notation: Seq<u8>) -> Result<Position, ParseError> {
    if slashes(notation, notation.len() as int) > MAX_SLASHES {
        Err(ParseError::Notation)
    } else {
        match laid_out(notation) {
            Err(e) => Err(e),
            Ok(layout) => if has_kings(layout) {
                set_up_from(layout)
            } else {
                Err(ParseError::Setup)
            },
        }
    }
}

/// There are no fewer `/` among more bytes.
proof fn lemma_slashes_grow(text: Seq<u8>, m: int, n: int)
    requires
        m <= n,
    ensures
        slashes(text, m) <= slashes(text, n),
    decreases n - m,
{
    if m < n {
        lemma_slashes_grow(text, m, n - 1);
    }
}

/// `shakmaty::fen::Fen::from_ascii`: reads the layout string field by
/// field. The result is named, not described. It counts the ranks down in
/// an `i8`, one for a `/` at most, which overflows on a text of some
/// hundred `/`: such a text is not admitted.
#[verifier::external_body]
fn read_layout(notation: &[u8]) -> (r: Result<Layout, ParseError>)
    requires
        slashes(notation@, notation@.len() as int) <= MAX_SLASHES,
    ensures
        r == laid_out(notation@),
{
    match shakmaty::fen::Fen::from_ascii(notation) {
        Err(_) => Err(ParseError::Notation),
        Ok(inner) => Ok(Layout { inner }),
    }
}

/// `shakmaty::Board::piece_at`, on the board of the layout. `Square::new`
/// panics on an index above 63.
#[verifier::external_body]
fn layout_piece_at(layout: &Layout, square: u8) -> (piece: Option<Piece>)
    requires
        square < 64,
    ensures
        piece == layout_piece_on(*layout, square as int),
{
    let found = layout.inner.board.piece_at(shakmaty::Square::new(square as u32))?;
    Some(Piece {
        color: match found.color {
            shakmaty::Color::White => Color::White,
            shakmaty::Color::Black => Color::Black,
        },
        role: match found.role {
            shakmaty::Role::Pawn => Role::Pawn,
            shakmaty::Role::Knight => Role::Knight,
            shakmaty::Role::Bishop => Role::Bishop,
            shakmaty::Role::Rook => Role::Rook,
            shakmaty::Role::Queen => Role::Queen,
            shakmaty::Role::King => Role::King,
        },
    })
}

/// `shakmaty::Board::promoted`, asked for one square with
/// `Bitboard::contains`. `Square::new` panics on an index above 63.
#[verifier::external_body]
fn layout_promoted_at(layout: &Layout, square: u8) -> (promoted: bool)
    requires
        square < 64,
    ensures
        promoted == layout_promoted_on(*layout, square as int),
{
    layout.inner.board.promoted().contains(shakmaty::Square::new(square as u32))
}

/// `shakmaty::fen::Fen::position`: sets the layout up and checks that it is
/// a legal position. The result is named, not described. The check looks
/// for a capture in passing before it looks for the kings, and there takes
/// the king of the side to move for granted: without each side's one king,
/// not marked as promoted, it may panic, so such a layout is not admitted.
#[verifier::external_body]
fn layout_position(layout: &Layout) -> (r: Result<Position, ParseError>)
    requires
        has_kings(*layout),
    ensures
        r == set_up_from(*layout),
{
    match layout.inner.position::<shakmaty::Chess>() {
        Err(_) => Err(ParseError::Setup),
        Ok(inner) => Ok(Position { inner }),
    }
}

/// Counts the squares on which `layout` has the king of `color`, not
/// marked as promoted.
fn count_kings(layout: &Layout, color: Color) -> (n: u8)
    ensures
        n == kings(*layout, color),
{
    let ghost f = |square: int| king_here(*layout, color, square);
    let mut n: u8 = 0;
    let mut square: u8 = 0;
    while square < 64
        invariant
            square <= 64,
            n == sum_squares(f, square as int),
            n <= square,
            f == |square: int| king_here(*layout, color, square),
        decreases 64 - square,
    {
        let king = match layout_piece_at(layout, square) {
            Some(p) => p.color == color && p.role == Role::King,
            None => false,
        };
        if king && !layout_promoted_at(layout, square) {
            n = n + 1;
        }
        square = square + 1;
    }
    n
}

/// `shakmaty::Setup::turn`.
#[verifier::external_body]
fn turn(pos: &Position) -> (c: Color)
    ensures
        c == turn_of(*pos),
{
    match shakmaty::Setup::turn(&pos.inner) {
        shakmaty::Color::White => Color::White,
        shakmaty::Color::Black => Color::Black,
    }
}

/// `shakmaty::Board::piece_at`, on the board of the position. `Square::new`
/// panics on an index above 63.
#[verifier::external_body]
fn piece_at(pos: &Position, square: u8) -> (piece: Option<Piece>)
    requires
        square < 64,
    ensures
        piece == piece_on(*pos, square as int),
{
    let found = shakmaty::Setup::board(&pos.inner).piece_at(shakmaty::Square::new(square as u32))?;
    Some(Piece {
        color: match found.color {
            shakmaty::Color::White => Color::White,
            shakmaty::Color::Black => Color::Black,
        },
        role: match found.role {
            shakmaty::Role::Pawn => Role::Pawn,
            shakmaty::Role::Knight => Role::Knight,
            shakmaty::Role::Bishop => Role::Bishop,
            shakmaty::Role::Rook => Role::Rook,
            shakmaty::Role::Queen => Role::Queen,
            shakmaty::Role::King => Role::King,
        },
    })
}

/// `shakmaty::Position::outcome`. A position of standard chess without a
/// legal move is checkmate or stalemate, so one that goes on has a move;
/// and it is won only by checkmate, which leaves the side to move none.
#[verifier::external_body]
fn outcome(pos: &Position) -> (class: Classification)
    ensures
        class == classification_of(*pos),
        class is Ongoing ==> legal_moves_of(*pos).len() > 0,
        class is WonBy ==> legal_moves_of(*pos).len() == 0,
{
    match shakmaty::Position::outcome(&pos.inner) {
        None => Classification::Ongoing,
        Some(shakmaty::Outcome::Draw) => Classification::Drawn,
        Some(shakmaty::Outcome::Decisive { winner: shakmaty::Color::White }) => {
            Classification::WonBy(Color::White)
        },
        Some(shakmaty::Outcome::Decisive { winner: shakmaty::Color::Black }) => {
            Classification::WonBy(Color::Black)
        },
    }
}

/// `shakmaty::Position::legals`, the list handed out as a `Vec`.
#[verifier::external_body]
fn legals(pos: &Position) -> (moves: Vec<ChessMove>)
    ensures
        moves@ == legal_moves_of(*pos),
{
    shakmaty::Position::legals(&pos.inner).into_iter().map(|inner| ChessMove { inner }).collect()
}

/// `shakmaty::Position::play_unchecked`, on a copy of the position. An
/// illegal move may corrupt the copy or panic, so only a listed move is
/// admitted.
#[verifier::external_body]
fn play_unchecked(pos: &Position, mv: &ChessMove) -> (next: Position)
    requires
        legal_moves_of(*pos).contains(*mv),
    ensures
        next == played(*pos, *mv),
{
    let mut inner = pos.inner.clone();
    shakmaty::Position::play_unchecked(&mut inner, &mv.inner);
    Position { inner }
}

/// `shakmaty::uci::Uci::from_ascii`, then `Uci::to_move`: the first reads
/// the move string, the second finds the legal move it stands for, and
/// refuses where there is none.
#[verifier::external_body]
fn move_from_notation(pos: &Position, notation: &[u8]) -> (r: Result<ChessMove, IllegalMoveError>)
    ensures
        r == move_named(*pos, notation@),
        r matches Ok(mv) ==> legal_moves_of(*pos).contains(mv),
{
    match shakmaty::uci::Uci::from_ascii(notation) {
        Err(_) => Err(IllegalMoveError),
        Ok(uci) => match uci.to_move(&pos.inner) {
            Err(_) => Err(IllegalMoveError),
            Ok(inner) => Ok(ChessMove { inner }),
        },
    }
}

/// `shakmaty::uci::Uci::from_move`, written out with `to_string`.
#[verifier::external_body]
fn move_to_notation(pos: &Position, mv: &ChessMove) -> (text: String)
    ensures
        text@ == notation_of(*pos, *mv),
{
    shakmaty::uci::Uci::from_move(&pos.inner, &mv.inner).to_string()
}

impl Position {
    /// The standard starting position.
    pub fn startpos() -> (pos: Position)
        ensures
            is_starting_position(pos),
    {
        starting_position()
    }

    /// Reads a layout string (FEN). A text that is no layout string is
    /// refused as `Notation`, a layout that is no legal position as
    /// `Setup`.
    pub fn parse(notation: &[u8]) -> (r: Result<Position, ParseError>)
        ensures
            r == read_position(notation@),
    {
        let mut count: usize = 0;
        let mut index: usize = 0;
        while index < notation.len()
            invariant
                index <= notation.len(),
                count == slashes(notation@, index as int),
                count <= MAX_SLASHES,
            decreases notation.len() - index,
        {
            if notation[index] == SLASH {
                if count == MAX_SLASHES {
                    proof {
                        lemma_slashes_grow(notation@, index + 1, notation@.len() as int);
                    }
                    return Err(ParseError::Notation);
                }
                count = count + 1;
            }
            index = index + 1;
        }
        match read_layout(notation) {
            Err(e) => Err(e),
            Ok(layout) => {
                if count_kings(&layout, Color::White) == 1 && count_kings(&layout, Color::Black)
                    == 1 {
                    layout_position(&layout)
                } else {
                    Err(ParseError::Setup)
                }
            },
        }
    }

    /// The side that is to move.
    pub fn side_to_move(&self) -> (c: Color)
        ensures
            c == turn_of(*self),
    {
        turn(self)
    }

    /// Whether the game goes on, is won, or is drawn. A game that goes on
    /// has a legal move, and a game that is won has none.
    pub fn classify(&self) -> (class: Classification)
        ensures
            class == classification_of(*self),
            moves_fit_class(*self),
    {
        outcome(self)
    }

    /// The board, square by square.
    pub fn board(&self) -> (board: Board)
        ensures
            board@ == board_of(*self),
    {
        let mut board = Board::empty();
        let mut square: u8 = 0;
        while square < 64
            invariant
                square <= 64,
                board@.len() == 64,
                forall|s: int| 0 <= s < square ==> board@[s] == piece_on(*self, s),
            decreases 64 - square,
        {
            board.set(square, piece_at(self, square));
            square = square + 1;
        }
        board
    }

    /// The legal moves, in the rules provider's order.
    pub fn legal_moves(&self) -> (moves: Vec<ChessMove>)
        ensures
            moves@ == legal_moves_of(*self),
    {
        legals(self)
    }

    /// The legal moves in the rules provider's order, each with the
    /// position that it leads to.
    pub fn legal_successors(&self) -> (successors: Vec<(ChessMove, Position)>)
        ensures
            successors.len() == legal_moves_of(*self).len(),
            forall|i: int|
                0 <= i < successors.len() ==> (#[trigger] successors[i]).0 == legal_moves_of(
                    *self,
                )[i] && successors[i].1 == successor(*self, i),
    {
        let moves = legals(self);
        let mut successors: Vec<(ChessMove, Position)> = Vec::new();
        let mut index: usize = 0;
        while index < moves.len()
            invariant
                index <= moves.len(),
                moves@ == legal_moves_of(*self),
                successors.len() == index,
                forall|i: int|
                    0 <= i < index ==> (#[trigger] successors[i]).0 == moves[i] && successors[i].1
                        == successor(*self, i),
            decreases moves.len() - index,
        {
            let next = play_unchecked(self, &moves[index]);
            successors.push((moves[index].clone(), next));
            index = index + 1;
        }
        successors
    }

    /// The position after the `index`-th of `moves`, which are the legal
    /// moves of this position.
    pub fn play_listed(&self, moves: &Vec<ChessMove>, index: usize) -> (next: Position)
        requires
            moves@ == legal_moves_of(*self),
            index < moves.len(),
        ensures
            next == successor(*self, index as int),
    {
        play_unchecked(self, &moves[index])
    }

    /// Plays the move that `notation` (UCI) stands for.
    pub fn apply_move(&self, notation: &[u8]) -> (r: Result<Position, IllegalMoveError>)
        ensures
            r == applied(*self, notation@),
    {
        match move_from_notation(self, notation) {
            Ok(mv) => Ok(play_unchecked(self, &mv)),
            Err(e) => Err(e),
        }
    }

    /// The move string (UCI) of `mv`.
    pub fn format_move(&self, mv: &ChessMove) -> (text: String)
        ensures
            text@ == notation_of(*self, *mv),
    {
        move_to_notation(self, mv)
    }
}

/// The position after the move that `notation` stands for, if it stands for
/// a legal one.
pub open spec fn applied(pos: Position, notation: Seq<u8>) -> Result<Position, IllegalMoveError> {
    match move_named(pos, notation) {
        Ok(mv) => Ok(played(pos, mv)),
        Err(e) => Err(e),
    }
}

} // verus!
