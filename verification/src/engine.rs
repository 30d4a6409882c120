//! The session: one position, one pending search.

use crate::rules::{
    classification_of, is_starting_position, legal_moves_of, ChessMove, Position,
};
use crate::search::{lemma_search_move, saturated, search, search_move, search_nodes};
use vstd::prelude::*;

verus! {

/// How long a search is meant to run.
#[derive(Clone, Copy, PartialEq, Eq, Structural, Debug)]
pub enum SearchType {
    /// Until it is told to stop.
    Infinite,
    /// Until it has a move.
    Timed,
}

/// A search was asked of a position in which no move can be played.
#[derive(Clone, Copy, PartialEq, Eq, Structural, Debug)]
pub struct NoLegalMoveError;

/// The number of plies that a search looks ahead.
pub const SEARCH_DEPTH: u32 = 4;

/// The session's state.
pub struct Engine {
    position: Position,
    active: bool,
    mode: SearchType,
    best_move: Option<ChessMove>,
    position_count: i64,
}

/// What a session holds: the current position, whether a search is wanted,
/// the kind of search, the best move found so far, and the number of
/// positions that the last search visited.
pub struct Session {
    pub position: Position,
    pub active: bool,
    pub mode: SearchType,
    pub best_move: Option<ChessMove>,
    pub position_count: i64,
}

impl View for Engine {
    type V = Session;

    closed spec fn view(&self) -> Session {
        Session {
            position: self.position,
            active: self.active,
            mode: self.mode,
            best_move: self.best_move,
            position_count: self.position_count,
        }
    }
}

/// The move that a session plays from `pos`: the one that the search finds
/// or, where it finds none, the first legal move; none where there is no
/// legal move.
pub open spec fn chosen_move(pos: Position) -> Option<ChessMove> {
    match search_move(pos, SEARCH_DEPTH as nat) {
        Some(mv) => Some(mv),
        None => if legal_moves_of(pos).len() > 0 {
            Some(legal_moves_of(pos)[0])
        } else {
            None
        },
    }
}

/// The session after `run_search`. With a best move in hand nothing
/// changes. Without one, the position is searched: the count starts anew,
/// and the move chosen becomes the best move.
pub open spec fn searched(session: Session) -> Session {
    if session.best_move is Some {
        session
    } else {
        Session {
            best_move: chosen_move(session.position),
            position_count: saturated(search_nodes(session.position, SEARCH_DEPTH as nat) as int)
                as i64,
            ..session
        }
    }
}

/// The session after `deactivate`.
pub open spec fn deactivated(session: Session) -> Session {
    Session { active: false, mode: SearchType::Timed, best_move: None, ..session }
}

/// The move that a session plays is a legal move of the position, and
/// there is one wherever the position has a legal move.
pub proof fn lemma_chosen_move(pos: Position)
    ensures
        chosen_move(pos) is Some <==> legal_moves_of(pos).len() > 0,
        chosen_move(pos) matches Some(mv) ==> legal_moves_of(pos).contains(mv),
{
    if search_move(pos, SEARCH_DEPTH as nat) is Some {
        lemma_search_move(pos, SEARCH_DEPTH as nat);
    }
}

/// Searching is idempotent: with a best move in hand it changes nothing,
/// not the move and not the number of positions counted, and a second
/// search after a first leaves the session as the first left it.
pub proof fn lemma_searched_is_idempotent(session: Session)
    ensures
        session.best_move is Some ==> searched(session) == session,
        searched(searched(session)) == searched(session),
{
}

/// Deactivating a session leaves no search wanted, no best move, and the
/// kind of search `Timed`, whatever the session was before; the position
/// and the count stay.
pub proof fn lemma_deactivated(session: Session)
    ensures
        !deactivated(session).active,
        deactivated(session).mode == SearchType::Timed,
        deactivated(session).best_move is None,
        deactivated(session).position == session.position,
        deactivated(session).position_count == session.position_count,
        deactivated(deactivated(session)) == deactivated(session),
{
}

/// `rand::Rng::gen_range` on the thread's generator, over the indices below
/// `bound`. It panics on an empty range. Which index comes is left open.
#[verifier::external_body]
fn random_below(bound: usize) -> (index: usize)
    requires
        bound > 0,
    ensures
        index < bound,
{
    rand::Rng::gen_range(&mut rand::thread_rng(), 0..bound)
}

impl Engine {
    /// Replaces the current position. Whether a search is wanted, and what
    /// has been found, stays as it is.
    pub fn set_position(&mut self, position: Position)
        ensures
            final(self)@ == (Session { position, ..old(self)@ }),
    {
        self.position = position;
    }

    /// Whether a search is wanted.
    pub fn active(&self) -> (active: bool)
        ensures
            active == self@.active,
    {
        self.active
    }

    /// Asks for a search. The search itself is `run_search`.
    pub fn activate(&mut self)
        ensures
            final(self)@ == (Session { active: true, ..old(self)@ }),
    {
        self.active = true;
    }

    /// Ends the wish for a search: the best move is forgotten and the kind
    /// of search is `Timed` again, whether or not a search was wanted.
    pub fn deactivate(&mut self)
        ensures
            final(self)@ == deactivated(old(self)@),
            !final(self)@.active,
            final(self)@.mode == SearchType::Timed,
            final(self)@.best_move is None,
    {
        self.active = false;
        self.set_search_type(SearchType::Timed);
        self.best_move = None
    }

    /// Keeps the `index`-th of `moves` as the best move, if none is kept
    /// yet and there is such a move.
    pub fn keep_move(&mut self, moves: Vec<ChessMove>, index: usize)
        ensures
            final(self)@ == if old(self)@.best_move is None && index < moves.len() {
                Session { best_move: Some(moves[index as int]), ..old(self)@ }
            } else {
                old(self)@
            },
    {
        let mut moves = moves;
        if self.best_move.is_none() && index < moves.len() {
            self.best_move = Some(moves.swap_remove(index));
        }
    }

    /// Picks a legal move at random for the best move, if none is kept yet.
    /// Where the position has no legal move, none is picked.
    pub fn random_search(&mut self)
        ensures
            old(self)@.best_move is Some || legal_moves_of(old(self)@.position).len() == 0
                ==> final(self)@ == old(self)@,
            old(self)@.best_move is None && legal_moves_of(old(self)@.position).len() > 0
                ==> exists|index: int|
                0 <= index < legal_moves_of(old(self)@.position).len() && final(self)@ == (Session {
                    best_move: Some(#[trigger] legal_moves_of(old(self)@.position)[index]),
                    ..old(self)@
                }),
    {
        let moves = self.position.legal_moves();
        if moves.len() > 0 {
            let index: usize = random_below(moves.len());
            self.keep_move(moves, index);
        }
    }

    /// Searches the current position, unless a best move is already kept:
    /// then nothing happens, and nothing is counted.
    ///
    /// The search looks `SEARCH_DEPTH` plies ahead. Where it finds no move
    /// the first legal move is kept instead. It fails, and keeps none, only
    /// where there is no legal move; a position that goes on always has
    /// one, and a position that is won never.
    pub fn run_search(&mut self) -> (r: Result<(), NoLegalMoveError>)
        ensures
            final(self)@ == searched(old(self)@),
            old(self)@.best_move is Some ==> final(self)@ == old(self)@,
            r is Ok <==> final(self)@.best_move is Some,
            r is Err ==> !(classification_of(old(self)@.position) is Ongoing),
            old(self)@.best_move is None && classification_of(old(self)@.position) is WonBy
                ==> r is Err,
    {
        if self.best_move.is_none() {
            self.position_count = 0;
            let (mov, _) = search(&self.position, SEARCH_DEPTH, &mut self.position_count);
            match mov {
                Some(mov) => {
                    self.best_move = Some(mov);
                },
                None => {
                    let mut moves = self.position.legal_moves();
                    if moves.len() > 0 {
                        self.best_move = Some(moves.swap_remove(0));
                    }
                },
            }
        }
        if self.best_move.is_some() {
            Ok(())
        } else {
            Err(NoLegalMoveError)
        }
    }

    /// Sets the kind of search.
    pub fn set_search_type(&mut self, mode: SearchType)
        ensures
            final(self)@ == (Session { mode, ..old(self)@ }),
    {
        self.mode = mode;
    }

    /// The kind of search.
    pub fn get_search_type(&self) -> (mode: SearchType)
        ensures
            mode == self@.mode,
    {
        self.mode
    }

    /// The best move found so far, if there is one.
    pub fn get_best_move(&self) -> (best_move: Option<&ChessMove>)
        ensures
            best_move == match self@.best_move {
                Some(mv) => Some(&mv),
                None => None,
            },
    {
        self.best_move.as_ref()
    }

    /// The current position.
    pub fn get_current_position(&self) -> (position: &Position)
        ensures
            *position == self@.position,
    {
        &self.position
    }

    /// The number of positions that the last search visited.
    pub fn get_position_count(&self) -> (count: i64)
        ensures
            count == self@.position_count,
    {
        self.position_count
    }
}

impl Default for Engine {
    /// A session at the starting position: no search wanted, `Timed`, no
    /// best move, nothing counted.
    fn default() -> (engine: Engine)
        ensures
            is_starting_position(engine@.position),
            !engine@.active,
            engine@.mode == SearchType::Timed,
            engine@.best_move is None,
            engine@.position_count == 0,
    {
        Engine {
            position: Position::startpos(),
            active: false,
            mode: SearchType::Timed,
            best_move: None,
            position_count: 0,
        }
    }
}

} // verus!
