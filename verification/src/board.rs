//! The board as plain values: what stands on each of the 64 squares.

use crate::rules::{piece_on, Color, Piece, Position, Role};
use vstd::prelude::*;

verus! {

/// Sixty-four squares, a1 first, then along the first rank to h1, and so on
/// up to h8, each empty or holding a piece.
#[derive(Clone, Copy, PartialEq, Eq, Debug)]
pub struct Board {
    squares: [Option<Piece>; 64],
}

impl View for Board {
    type V = Seq<Option<Piece>>;

    closed spec fn view(&self) -> Seq<Option<Piece>> {
        self.squares@
    }
}

/// The number of one side's pieces of each kind.
#[derive(Clone, Copy, PartialEq, Eq, Structural, Debug)]
pub struct MaterialSide {
    pub pawns: u8,
    pub knights: u8,
    pub bishops: u8,
    pub rooks: u8,
    pub queens: u8,
    pub kings: u8,
}

/// The material of both sides.
#[derive(Clone, Copy, PartialEq, Eq, Structural, Debug)]
pub struct Material {
    pub white: MaterialSide,
    pub black: MaterialSide,
}

/// The sum of `f` over the squares below `n`.
pub open spec fn sum_squares(f: spec_fn(int) -> int, n: int) -> int
    decreases n,
{
    if n <= 0 {
        0
    } else {
        sum_squares(f, n - 1) + f(n - 1)
    }
}

/// One where `piece` stands on `square`, zero elsewhere.
pub open spec fn holds(board: Seq<Option<Piece>>, piece: Piece, square: int) -> int {
    if board[square] == Some(piece) {
        1
    } else {
        0
    }
}

/// The number of squares on which `piece` stands.
pub open spec fn count(board: Seq<Option<Piece>>, piece: Piece) -> int {
    sum_squares(|square: int| holds(board, piece, square), 64)
}

/// The material of one side: how many of its pieces of each kind stand on
/// the board.
pub open spec fn material_side_of(board: Seq<Option<Piece>>, color: Color) -> MaterialSide {
    MaterialSide {
        pawns: count(board, Piece { color, role: Role::Pawn }) as u8,
        knights: count(board, Piece { color, role: Role::Knight }) as u8,
        bishops: count(board, Piece { color, role: Role::Bishop }) as u8,
        rooks: count(board, Piece { color, role: Role::Rook }) as u8,
        queens: count(board, Piece { color, role: Role::Queen }) as u8,
        kings: count(board, Piece { color, role: Role::King }) as u8,
    }
}

/// The material of both sides.
pub open spec fn material_of(board: Seq<Option<Piece>>) -> Material {
    Material {
        white: material_side_of(board, Color::White),
        black: material_side_of(board, Color::Black),
    }
}

/// The board of a position, square by square.
pub open spec fn board_of(pos: Position) -> Seq<Option<Piece>> {
    Seq::new(64, |square: int| piece_on(pos, square))
}

impl Board {
    /// A board has 64 squares.
    pub proof fn lemma_len(self)
        ensures
            self@.len() == 64,
    {
    }

    /// The board with no piece on it.
    pub fn empty() -> (board: Board)
        ensures
            board@ == Seq::new(64, |square: int| None::<Piece>),
    {
        Board { squares: [None; 64] }
    }

    /// Puts `piece` on `square`, or clears the square. A square beyond the
    /// board is ignored.
    pub fn set(&mut self, square: u8, piece: Option<Piece>)
        ensures
            final(self)@ == if square < 64 {
                old(self)@.update(square as int, piece)
            } else {
                old(self)@
            },
    {
        if square < 64 {
            self.squares[square as usize] = piece;
        }
    }

    /// What stands on `square`; nothing beyond the board.
    pub fn piece_at(&self, square: u8) -> (piece: Option<Piece>)
        ensures
            piece == if square < 64 {
                self@[square as int]
            } else {
                None
            },
    {
        if square < 64 {
            self.squares[square as usize]
        } else {
            None
        }
    }

    /// How many squares hold `piece`.
    pub fn count(&self, piece: Piece) -> (n: u8)
        ensures
            n == count(self@, piece),
            n <= 64,
    {
        let ghost f = |square: int| holds(self@, piece, square);
        let mut n: u8 = 0;
        let mut square: u8 = 0;
        while square < 64
            invariant
                square <= 64,
                n == sum_squares(f, square as int),
                n <= square,
                f == |square: int| holds(self@, piece, square),
            decreases 64 - square,
        {
            let here = match self.piece_at(square) {
                Some(p) => p.color == piece.color && p.role == piece.role,
                None => false,
            };
            if here {
                n = n + 1;
            }
            square = square + 1;
        }
        n
    }

    /// The material of one side.
    pub fn material_side(&self, color: Color) -> (side: MaterialSide)
        ensures
            side == material_side_of(self@, color),
    {
        MaterialSide {
            pawns: self.count(Piece { color, role: Role::Pawn }),
            knights: self.count(Piece { color, role: Role::Knight }),
            bishops: self.count(Piece { color, role: Role::Bishop }),
            rooks: self.count(Piece { color, role: Role::Rook }),
            queens: self.count(Piece { color, role: Role::Queen }),
            kings: self.count(Piece { color, role: Role::King }),
        }
    }

    /// The material of both sides.
    pub fn material(&self) -> (material: Material)
        ensures
            material == material_of(self@),
    {
        Material {
            white: self.material_side(Color::White),
            black: self.material_side(Color::Black),
        }
    }
}

} // verus!
