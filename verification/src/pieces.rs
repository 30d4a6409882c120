//! The pieces of a board as a list.
//!
//! The list is an `arrayvec::ArrayVec` with room for one entry per square,
//! so that it never needs the heap and never runs full.

use crate::board::Board;
use crate::rules::{Color, Piece, Role};
use vstd::prelude::*;

verus! {

/// `arrayvec::ArrayVec`, a vector of at most `CAP` entries that holds them
/// in place. The verifier does not look inside.
#[verifier::external_type_specification]
#[verifier::external_body]
#[verifier::reject_recursive_types(T)]
pub struct ExArrayVec<T, const CAP: usize>(arrayvec::ArrayVec<T, CAP>);

/// The entries of a list, first to last: each a square, and the kind and
/// side of the piece on it.
pub uninterp spec fn entries(list: arrayvec::ArrayVec<(u8, Role, Color), 64>) -> Seq<
    (u8, Role, Color),
>;

/// `ArrayVec::new`: a list without entries.
#[verifier::external_body]
fn list_new() -> (list: arrayvec::ArrayVec<(u8, Role, Color), 64>)
    ensures
        entries(list) == Seq::<(u8, Role, Color)>::empty(),
{
    arrayvec::ArrayVec::new()
}

/// `ArrayVec::push`: the entry goes to the end. It panics on a full list,
/// and this one is full at 64 entries.
#[verifier::external_body]
fn list_push(list: &mut arrayvec::ArrayVec<(u8, Role, Color), 64>, entry: (u8, Role, Color))
    requires
        entries(*old(list)).len() < 64,
    ensures
        entries(*final(list)) == entries(*old(list)).push(entry),
{
    list.push(entry)
}

/// `ArrayVec::len`.
#[verifier::external_body]
fn list_len(list: &arrayvec::ArrayVec<(u8, Role, Color), 64>) -> (len: usize)
    ensures
        len == entries(*list).len(),
{
    list.len()
}

/// Indexing, which an `ArrayVec` has from the slice it dereferences to; it
/// panics beyond the last entry.
#[verifier::external_body]
fn list_get(list: &arrayvec::ArrayVec<(u8, Role, Color), 64>, index: usize) -> (entry: (
    u8,
    Role,
    Color,
))
    requires
        index < entries(*list).len(),
    ensures
        entry == entries(*list)[index as int],
{
    list[index]
}

/// The occupied squares among those below `n`, in ascending order, each
/// with the piece on it.
pub open spec fn occupied(board: Seq<Option<Piece>>, n: int) -> Seq<(u8, Role, Color)>
    decreases n,
{
    if n <= 0 {
        Seq::empty()
    } else {
        match board[n - 1] {
            Some(piece) => occupied(board, n - 1).push(((n - 1) as u8, piece.role, piece.color)),
            None => occupied(board, n - 1),
        }
    }
}

/// There are no more occupied squares below `n` than squares, and each of
/// them lies below `n`.
pub proof fn lemma_occupied_bounds(board: Seq<Option<Piece>>, n: int)
    requires
        0 <= n <= 64,
    ensures
        occupied(board, n).len() <= n,
        forall|k: int| 0 <= k < occupied(board, n).len() ==> (#[trigger] occupied(board, n)[k]).0 < n,
    decreases n,
{
    if n > 0 {
        lemma_occupied_bounds(board, n - 1);
    }
}

/// The pieces of a board, listed by ascending square.
pub struct Pieces {
    list: arrayvec::ArrayVec<(u8, Role, Color), 64>,
}

impl View for Pieces {
    type V = Seq<(u8, Role, Color)>;

    closed spec fn view(&self) -> Seq<(u8, Role, Color)> {
        entries(self.list)
    }
}

impl Pieces {
    /// Lists the pieces of `board`.
    pub fn of(board: &Board) -> (pieces: Pieces)
        ensures
            pieces@ == occupied(board@, 64),
    {
        let mut list = list_new();
        let mut square: u8 = 0;
        while square < 64
            invariant
                square <= 64,
                entries(list) == occupied(board@, square as int),
            decreases 64 - square,
        {
            proof {
                board.lemma_len();
                lemma_occupied_bounds(board@, square as int);
            }
            match board.piece_at(square) {
                Some(piece) => list_push(&mut list, (square, piece.role, piece.color)),
                None => {},
            }
            square = square + 1;
        }
        Pieces { list }
    }

    /// The number of pieces.
    pub fn len(&self) -> (len: usize)
        ensures
            len == self@.len(),
    {
        list_len(&self.list)
    }

    /// The `index`-th piece: its square, its kind and its side. None
    /// beyond the last.
    pub fn get(&self, index: usize) -> (entry: Option<(u8, Role, Color)>)
        ensures
            entry == if index < self@.len() {
                Some(self@[index as int])
            } else {
                None
            },
    {
        if index < list_len(&self.list) {
            Some(list_get(&self.list, index))
        } else {
            None
        }
    }
}

} // verus!
