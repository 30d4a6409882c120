//! The command loop: one command a line, words parted by single spaces.
//!
//! A runner takes the lines one by one. What it has to say to the other
//! side of the protocol goes to the output of a [`Transcript`]; what went
//! wrong goes to its diagnostics, and never among the output. Reading the
//! lines and printing the transcript is left to the caller.

use crate::engine::{deactivated, lemma_chosen_move, searched, Engine, SearchType, Session};
use crate::rules::{
    applied, classification_of, is_starting_position, legal_moves_of, moves_fit_class,
    notation_of, read_position, ChessMove, ParseError, Position,
};
use crate::text::{bytes_of, is_word, join_spec, split_line, split_spec, texts, word, SPACE};
use vstd::prelude::*;
use vstd::string::StringExecFns;

verus! {

/// What can go wrong with a command. None of it ends the loop.
#[derive(Clone, Copy, PartialEq, Eq, Structural, Debug)]
pub enum Diagnostic {
    /// The first word of the line is no command.
    UnknownCommand,
    /// `position` came without a position.
    MissingPosition,
    /// After `startpos` came a word other than `moves`; the current
    /// position stays.
    UnexpectedWord,
    /// The layout string gave no position; the current one stays.
    BadPosition(ParseError),
    /// A move of the list could not be played; the moves before it stand,
    /// those after it are dropped.
    IllegalMove,
    /// A search was wanted where no move can be played.
    NoLegalMove,
}

/// What a runner has said and reported.
pub struct Transcript {
    pub output: Vec<String>,
    pub diagnostics: Vec<Diagnostic>,
}

/// A transcript as plain text.
pub struct Record {
    pub output: Seq<Seq<char>>,
    pub diagnostics: Seq<Diagnostic>,
}

impl Record {
    /// The record with one more line of output.
    pub open spec fn say(self, line: Seq<char>) -> Record {
        Record { output: self.output.push(line), ..self }
    }

    /// The record with one more diagnostic.
    pub open spec fn report(self, diagnostic: Diagnostic) -> Record {
        Record { diagnostics: self.diagnostics.push(diagnostic), ..self }
    }
}

impl View for Transcript {
    type V = Record;

    open spec fn view(&self) -> Record {
        Record {
            output: Seq::new(self.output@.len(), |i: int| self.output@[i]@),
            diagnostics: self.diagnostics@,
        }
    }
}

impl Transcript {
    /// A transcript with nothing in it.
    pub fn new() -> (transcript: Transcript)
        ensures
            transcript@ == (Record { output: Seq::empty(), diagnostics: Seq::empty() }),
    {
        let transcript = Transcript { output: Vec::new(), diagnostics: Vec::new() };
        assert(transcript@.output =~= Seq::empty());
        transcript
    }

    /// Adds a line of output.
    pub fn say(&mut self, line: String)
        ensures
            final(self)@ == old(self)@.say(line@),
    {
        self.output.push(line);
        assert(final(self)@.output =~= old(self)@.output.push(line@));
    }

    /// Adds a diagnostic.
    pub fn report(&mut self, diagnostic: Diagnostic)
        ensures
            final(self)@ == old(self)@.report(diagnostic),
    {
        self.diagnostics.push(diagnostic);
    }
}

/// The line that announces a move.
pub open spec fn announcement(pos: Position, mv: ChessMove) -> Seq<char> {
    "bestmove "@ + notation_of(pos, mv)
}

/// The line that announces `best_move`, played in `position`.
pub fn output_best_move(position: &Position, best_move: &ChessMove) -> (line: String)
    ensures
        line@ == announcement(*position, *best_move),
{
    let uci = position.format_move(best_move);
    String::from_str("bestmove ").concat(uci.as_str())
}

/// The index of the first `moves` among the words from `start` on, or the
/// number of words if there is none.
pub open spec fn fen_end(words: Seq<Seq<u8>>, start: int) -> int
    decreases words.len() - start,
{
    if start >= words.len() {
        words.len() as int
    } else if words[start] == word("moves") {
        start
    } else {
        fen_end(words, start + 1)
    }
}

/// The layout string that the words from `start` on spell: all of them up
/// to the word `moves`, joined by single spaces. With it comes the index of
/// the first word after `moves`, which is the number of words where there
/// is no `moves`.
pub open spec fn fen_string_spec(words: Seq<Seq<u8>>, start: int) -> (Seq<u8>, int) {
    if start >= words.len() {
        (Seq::empty(), start)
    } else {
        let end = fen_end(words, start);
        (
            join_spec(words.subrange(start, end)),
            if end < words.len() {
                end + 1
            } else {
                end
            },
        )
    }
}

/// Collects the layout string from the words of a command, beginning with
/// `tokens[start]`, and tells where the list of moves begins.
pub fn get_fen_string(tokens: &Vec<Vec<u8>>, start: usize) -> (found: (Vec<u8>, usize))
    ensures
        found.0@ == fen_string_spec(texts(tokens@), start as int).0,
        found.1 == fen_string_spec(texts(tokens@), start as int).1,
{
    let mut fen_string: Vec<u8> = Vec::new();
    if start >= tokens.len() {
        return (fen_string, start);
    }
    let ghost words = texts(tokens@);
    let mut first = true;
    let mut index: usize = start;
    while index < tokens.len()
        invariant
            start <= index <= tokens.len(),
            words == texts(tokens@),
            first == (index == start),
            fen_end(words, start as int) == fen_end(words, index as int),
            fen_string@ == join_spec(words.subrange(start as int, index as int)),
        decreases tokens.len() - index,
    {
        if is_word(&tokens[index], "moves") {
            return (fen_string, index + 1);
        }
        let ghost before = fen_string@;
        if !first {
            fen_string.push(SPACE);
        }
        let part = &tokens[index];
        let mut k: usize = 0;
        while k < part.len()
            invariant
                k <= part.len(),
                fen_string@ == (if first {
                    before
                } else {
                    before.push(SPACE)
                }) + part@.take(k as int),
            decreases part.len() - k,
        {
            fen_string.push(part[k]);
            k = k + 1;
        }
        proof {
            let grown = words.subrange(start as int, index + 1);
            assert(grown.drop_last() =~= words.subrange(start as int, index as int));
        }
        first = false;
        index = index + 1;
    }
    (fen_string, index)
}

/// The position reached from `start` by the moves that the words from
/// `from` on spell, and whether all of them could be played. The moves are
/// played in order up to the first that is not legal; that one and those
/// after it are left out.
pub open spec fn replayed(start: Position, words: Seq<Seq<u8>>, from: int) -> (Position, bool)
    decreases words.len() - from,
{
    if from >= words.len() {
        (start, true)
    } else {
        match applied(start, words[from]) {
            Ok(next) => replayed(next, words, from + 1),
            Err(_) => (start, false),
        }
    }
}

/// Plays the moves `tokens[from..]` from `start`, as far as they are legal.
pub fn replay(start: Position, tokens: &Vec<Vec<u8>>, from: usize) -> (reached: (Position, bool))
    ensures
        reached == replayed(start, texts(tokens@), from as int),
{
    let mut position = start;
    let mut index: usize = from;
    while index < tokens.len()
        invariant
            replayed(start, texts(tokens@), from as int) == replayed(
                position,
                texts(tokens@),
                index as int,
            ),
        decreases tokens.len() - index,
    {
        match position.apply_move(tokens[index].as_slice()) {
            Ok(next) => {
                position = next;
            },
            Err(_) => {
                return (position, false);
            },
        }
        index = index + 1;
    }
    (position, true)
}

/// Where the game of a `position` command begins, and at which word its
/// list of moves: at `start` for the word `startpos`, after which the word
/// `moves` and the moves may follow, and nothing else; else at the position
/// that the layout string stands for, before which the word `fen` may
/// stand.
pub open spec fn set_up(start: Position, words: Seq<Seq<u8>>) -> Result<(Position, int), Diagnostic> {
    if words.len() < 2 {
        Err(Diagnostic::MissingPosition)
    } else if words[1] == word("startpos") {
        if words.len() > 2 && words[2] != word("moves") {
            Err(Diagnostic::UnexpectedWord)
        } else {
            Ok((start, 3))
        }
    } else {
        let found = fen_string_spec(
            words,
            if words[1] == word("fen") {
                2
            } else {
                1
            },
        );
        match read_position(found.0) {
            Ok(position) => Ok((position, found.1)),
            Err(e) => Err(Diagnostic::BadPosition(e)),
        }
    }
}

/// The session and the record after a `position` command. Where the
/// command names no position that can be set up, that is reported and the
/// session stays as it is. Else the moves are replayed, the position
/// reached becomes the current one, and a move that could not be played is
/// reported.
pub open spec fn positioned(
    session: Session,
    record: Record,
    start: Position,
    words: Seq<Seq<u8>>,
) -> (Session, Record) {
    match set_up(start, words) {
        Err(diagnostic) => (session, record.report(diagnostic)),
        Ok((position, from)) => {
            let reached = replayed(position, words, from);
            (
                Session { position: reached.0, ..session },
                if reached.1 {
                    record
                } else {
                    record.report(Diagnostic::IllegalMove)
                },
            )
        },
    }
}

/// Whether a `go` command asks for an infinite search: one of the words
/// after `go` is `infinite`.
pub open spec fn wants_infinite(words: Seq<Seq<u8>>) -> bool {
    exists|i: int| 1 <= i < words.len() && #[trigger] words[i] == word("infinite")
}

/// The session after a `go` command: a search is wanted, and it is an
/// infinite one if the command says so.
pub open spec fn started(session: Session, words: Seq<Seq<u8>>) -> Session {
    Session {
        active: true,
        mode: if wants_infinite(words) {
            SearchType::Infinite
        } else {
            session.mode
        },
        ..session
    }
}

/// The session and the record after a `stop` command: the best move, if
/// there is one, is announced, and the session is deactivated.
pub open spec fn stopped(session: Session, record: Record) -> (Session, Record) {
    (
        deactivated(session),
        match session.best_move {
            Some(mv) => record.say(announcement(session.position, mv)),
            None => record,
        },
    )
}

/// The session and the record once a command has been dealt with. Where no
/// search is wanted nothing happens. Else the position is searched, unless
/// a best move is in hand already. A search that is not infinite announces
/// its move at once and ends; an infinite one keeps it for `stop`. That no
/// move can be played is reported.
pub open spec fn settled(session: Session, record: Record) -> (Session, Record) {
    if !session.active {
        (session, record)
    } else {
        let after = searched(session);
        match after.best_move {
            None => (after, record.report(Diagnostic::NoLegalMove)),
            Some(mv) => if after.mode != SearchType::Infinite {
                (deactivated(after), record.say(announcement(after.position, mv)))
            } else {
                (after, record)
            },
        }
    }
}

/// The session, the record and whether the loop goes on, after the command
/// that `words` spell has been carried out.
pub open spec fn processed(
    session: Session,
    record: Record,
    start: Position,
    words: Seq<Seq<u8>>,
) -> (Session, Record, bool) {
    let command = words[0];
    if command == word("uci") {
        (session, record.say("id name xanadu"@).say("id author Max Morehead"@).say("uciok"@), true)
    } else if command == word("isready") {
        (session, record.say("readyok"@), true)
    } else if command == word("position") {
        let after = positioned(session, record, start, words);
        (after.0, after.1, true)
    } else if command == word("go") {
        (started(session, words), record, true)
    } else if command == word("stop") {
        let after = stopped(session, record);
        (after.0, after.1, true)
    } else if command == word("quit") {
        (session, record, false)
    } else if command == word("debug") || command == word("setoption") || command == word(
        "register",
    ) || command == word("ucinewgame") || command == word("ponderhit") {
        (session, record, true)
    } else {
        (session, record.report(Diagnostic::UnknownCommand), true)
    }
}

/// The session, the record and whether the loop goes on, after one line:
/// the command is carried out and, unless it was `quit`, the session is
/// settled.
#[verifier::opaque]
pub open spec fn stepped(session: Session, record: Record, start: Position, line: Seq<u8>) -> (
    Session,
    Record,
    bool,
) {
    let after = processed(session, record, start, split_spec(line));
    if after.2 {
        let rest = settled(after.0, after.1);
        (rest.0, rest.1, true)
    } else {
        after
    }
}

/// The session and the record after the lines from `from` on: each is
/// taken in turn, up to the end or to the first `quit`.
pub open spec fn ran(
    session: Session,
    record: Record,
    start: Position,
    lines: Seq<Seq<u8>>,
    from: int,
) -> (Session, Record)
    decreases lines.len() - from,
{
    if from >= lines.len() {
        (session, record)
    } else {
        let after = stepped(session, record, start, lines[from]);
        if after.2 {
            ran(after.0, after.1, start, lines, from + 1)
        } else {
            (after.0, after.1)
        }
    }
}

/// A session at rest keeps no best move: where no search is wanted, none
/// is in hand.
pub open spec fn at_rest(session: Session) -> bool {
    !session.active ==> session.best_move is None
}

/// Once a command has been dealt with, a search that is still wanted is an
/// infinite one, or one that has found no move: a search that is not
/// infinite ends as soon as it has a move.
pub proof fn lemma_settled_ends_searches(session: Session, record: Record)
    ensures
        settled(session, record).0.active ==> settled(session, record).0.mode
            == SearchType::Infinite || settled(session, record).0.best_move is None,
{
}

/// No line makes a session keep a best move while no search is wanted, and
/// no line touches what was said and reported before it.
pub proof fn lemma_stepped_stays_at_rest(
    session: Session,
    record: Record,
    start: Position,
    line: Seq<u8>,
)
    requires
        at_rest(session),
    ensures
        at_rest(stepped(session, record, start, line).0),
        record.output.is_prefix_of(stepped(session, record, start, line).1.output),
        record.diagnostics.is_prefix_of(stepped(session, record, start, line).1.diagnostics),
{
    reveal(stepped);
}

/// What holds of one line holds of a run of lines.
pub proof fn lemma_ran_stays_at_rest(
    session: Session,
    record: Record,
    start: Position,
    lines: Seq<Seq<u8>>,
    from: int,
)
    requires
        at_rest(session),
        0 <= from,
    ensures
        at_rest(ran(session, record, start, lines, from).0),
        record.output.is_prefix_of(ran(session, record, start, lines, from).1.output),
        record.diagnostics.is_prefix_of(ran(session, record, start, lines, from).1.diagnostics),
    decreases lines.len() - from,
{
    if from < lines.len() {
        let after = stepped(session, record, start, lines[from]);
        lemma_stepped_stays_at_rest(session, record, start, lines[from]);
        if after.2 {
            lemma_ran_stays_at_rest(after.0, after.1, start, lines, from + 1);
        }
    }
}

/// Where no move can be played and none is in hand, none is announced:
/// not when the session is settled, not after a `go`, whatever its
/// arguments, and not at a `stop` after that. A position that is won is
/// such a position: the rules provider lists no move there.
pub proof fn lemma_no_move_no_announcement(session: Session, record: Record, words: Seq<Seq<u8>>)
    requires
        session.best_move is None,
        legal_moves_of(session.position).len() == 0,
    ensures
        settled(session, record).0.best_move is None,
        settled(session, record).0.position == session.position,
        settled(session, record).1.output == record.output,
        settled(started(session, words), record).0.best_move is None,
        settled(started(session, words), record).1.output == record.output,
        stopped(
            settled(started(session, words), record).0,
            settled(started(session, words), record).1,
        ).1.output == record.output,
{
    lemma_chosen_move(session.position);
}

/// A position that is won, with no move in hand, brings no announcement:
/// not after a `go`, whatever its arguments, and not at a `stop` after
/// that.
pub proof fn lemma_won_position_no_announcement(
    session: Session,
    record: Record,
    words: Seq<Seq<u8>>,
)
    requires
        session.best_move is None,
        classification_of(session.position) is WonBy,
        moves_fit_class(session.position),
    ensures
        settled(started(session, words), record).0.best_move is None,
        settled(started(session, words), record).1.output == record.output,
        stopped(
            settled(started(session, words), record).0,
            settled(started(session, words), record).1,
        ).1.output == record.output,
{
    lemma_no_move_no_announcement(session, record, words);
}

/// What a runner ever says: one of its four fixed answers, or the
/// announcement of a move.
pub open spec fn is_answer(line: Seq<char>) -> bool {
    ||| line == "id name xanadu"@
    ||| line == "id author Max Morehead"@
    ||| line == "uciok"@
    ||| line == "readyok"@
    ||| exists|pos: Position, mv: ChessMove| line == #[trigger] announcement(pos, mv)
}

/// Every line of the record's output is an answer.
pub open spec fn all_answers(record: Record) -> bool {
    forall|i: int| 0 <= i < record.output.len() ==> is_answer(#[trigger] record.output[i])
}

/// No line makes a runner say anything but its answers: a move is
/// announced in full or not at all.
pub proof fn lemma_stepped_says_answers(
    session: Session,
    record: Record,
    start: Position,
    line: Seq<u8>,
)
    requires
        all_answers(record),
    ensures
        all_answers(stepped(session, record, start, line).1),
{
    reveal(stepped);
}

/// What holds of one line holds of a run of lines.
pub proof fn lemma_ran_says_answers(
    session: Session,
    record: Record,
    start: Position,
    lines: Seq<Seq<u8>>,
    from: int,
)
    requires
        all_answers(record),
        0 <= from,
    ensures
        all_answers(ran(session, record, start, lines, from).1),
    decreases lines.len() - from,
{
    if from < lines.len() {
        let after = stepped(session, record, start, lines[from]);
        lemma_stepped_says_answers(session, record, start, lines[from]);
        if after.2 {
            lemma_ran_says_answers(after.0, after.1, start, lines, from + 1);
        }
    }
}

/// The bytes of each of some lines.
pub open spec fn lines_bytes(lines: Seq<String>) -> Seq<Seq<u8>> {
    Seq::new(lines.len(), |i: int| bytes_of(lines[i]@))
}

/// The command loop's state: a session, and the starting position that
/// `position startpos` sets up.
pub struct Runner {
    engine: Engine,
    start: Position,
}

/// What a runner holds.
pub struct RunnerView {
    pub session: Session,
    pub start: Position,
}

impl View for Runner {
    type V = RunnerView;

    closed spec fn view(&self) -> RunnerView {
        RunnerView { session: self.engine@, start: self.start }
    }
}

impl Runner {
    /// A runner with a fresh session at the starting position.
    pub fn new() -> (runner: Runner)
        ensures
            is_starting_position(runner@.start),
            is_starting_position(runner@.session.position),
            !runner@.session.active,
            runner@.session.mode == SearchType::Timed,
            runner@.session.best_move is None,
            runner@.session.position_count == 0,
    {
        Runner { engine: Engine::default(), start: Position::startpos() }
    }

    /// The session, to look at.
    pub fn engine(&self) -> (engine: &Engine)
        ensures
            engine@ == self@.session,
    {
        &self.engine
    }

    /// Takes all of `lines`, up to the end or to the first `quit`, and
    /// hands back what was said and reported on the way.
    pub fn main_loop(&mut self, lines: &Vec<String>) -> (transcript: Transcript)
        ensures
            final(self)@.start == old(self)@.start,
            (final(self)@.session, transcript@) == ran(
                old(self)@.session,
                Record { output: Seq::empty(), diagnostics: Seq::empty() },
                old(self)@.start,
                lines_bytes(lines@),
                0,
            ),
    {
        let mut transcript = Transcript::new();
        let ghost texts = lines_bytes(lines@);
        let ghost empty = Record { output: Seq::empty(), diagnostics: Seq::empty() };
        let mut index: usize = 0;
        while index < lines.len()
            invariant
                index <= lines.len(),
                self@.start == old(self)@.start,
                texts == lines_bytes(lines@),
                empty == (Record { output: Seq::empty(), diagnostics: Seq::empty() }),
                ran(old(self)@.session, empty, old(self)@.start, texts, 0) == ran(
                    self@.session,
                    transcript@,
                    self@.start,
                    texts,
                    index as int,
                ),
            decreases lines.len() - index,
        {
            let ghost session = self@.session;
            let ghost record = transcript@;
            let go_on = self.step(lines[index].as_str(), &mut transcript);
            assert((self@.session, transcript@, go_on) == stepped(
                session,
                record,
                self@.start,
                texts[index as int],
            ));
            if !go_on {
                return transcript;
            }
            index = index + 1;
        }
        transcript
    }

    /// Takes one line: carries out its command and, unless that was
    /// `quit`, settles the session. Tells whether the loop goes on.
    pub fn step(&mut self, line: &str, transcript: &mut Transcript) -> (go_on: bool)
        ensures
            final(self)@.start == old(self)@.start,
            (final(self)@.session, final(transcript)@, go_on) == stepped(
                old(self)@.session,
                old(transcript)@,
                old(self)@.start,
                bytes_of(line@),
            ),
    {
        reveal(stepped);
        let go_on = self.process(line, transcript);
        if go_on {
            self.settle(transcript);
        }
        go_on
    }

    /// Settles the session after a command: searches where a search is
    /// wanted, and announces the move of a search that is not infinite.
    pub fn settle(&mut self, transcript: &mut Transcript)
        ensures
            final(self)@.start == old(self)@.start,
            (final(self)@.session, final(transcript)@) == settled(
                old(self)@.session,
                old(transcript)@,
            ),
            old(self)@.session.best_move is None && classification_of(old(self)@.session.position)
                is WonBy ==> final(transcript)@.output == old(transcript)@.output,
            old(self)@.session.best_move is None && classification_of(old(self)@.session.position)
                is WonBy ==> final(self)@.session.best_move is None,
    {
        if self.engine.active() {
            match self.engine.run_search() {
                Ok(()) => {},
                Err(_) => {
                    transcript.report(Diagnostic::NoLegalMove);
                },
            }
            if self.engine.get_search_type() != SearchType::Infinite {
                match self.engine.get_best_move() {
                    Some(best_move) => {
                        transcript.say(
                            output_best_move(self.engine.get_current_position(), best_move),
                        );
                        self.engine.deactivate();
                    },
                    None => {},
                }
            }
        }
    }

    /// Carries out the command of one line. Tells whether the loop goes on:
    /// it does after every command but `quit`.
    pub fn process(&mut self, line: &str, transcript: &mut Transcript) -> (go_on: bool)
        ensures
            final(self)@.start == old(self)@.start,
            (final(self)@.session, final(transcript)@, go_on) == processed(
                old(self)@.session,
                old(transcript)@,
                old(self)@.start,
                split_spec(bytes_of(line@)),
            ),
    {
        let tokens = split_line(line.as_bytes());
        let command = &tokens[0];
        if is_word(command, "uci") {
            self.uci_cmd(transcript);
        } else if is_word(command, "isready") {
            self.isready_cmd(transcript);
        } else if is_word(command, "position") {
            self.position_cmd(&tokens, transcript);
        } else if is_word(command, "go") {
            self.go_cmd(&tokens);
        } else if is_word(command, "stop") {
            self.stop_cmd(transcript);
        } else if is_word(command, "quit") {
            return false;
        } else if is_word(command, "debug") || is_word(command, "setoption") || is_word(
            command,
            "register",
        ) || is_word(command, "ucinewgame") || is_word(command, "ponderhit") {
        } else {
            transcript.report(Diagnostic::UnknownCommand);
        }
        true
    }

    /// `uci`: the runner names itself and acknowledges.
    pub fn uci_cmd(&mut self, transcript: &mut Transcript)
        ensures
            final(self)@ == old(self)@,
            final(transcript)@ == old(transcript)@.say("id name xanadu"@).say(
                "id author Max Morehead"@,
            ).say("uciok"@),
    {
        transcript.say(String::from_str("id name xanadu"));
        transcript.say(String::from_str("id author Max Morehead"));
        transcript.say(String::from_str("uciok"));
    }

    /// `isready`: the runner is.
    pub fn isready_cmd(&mut self, transcript: &mut Transcript)
        ensures
            final(self)@ == old(self)@,
            final(transcript)@ == old(transcript)@.say("readyok"@),
    {
        transcript.say(String::from_str("readyok"));
    }

    /// `position`: sets up a position, replays the moves given with it, and
    /// makes the position reached the current one.
    pub fn position_cmd(&mut self, tokens: &Vec<Vec<u8>>, transcript: &mut Transcript)
        ensures
            final(self)@.start == old(self)@.start,
            (final(self)@.session, final(transcript)@) == positioned(
                old(self)@.session,
                old(transcript)@,
                old(self)@.start,
                texts(tokens@),
            ),
    {
        if tokens.len() < 2 {
            transcript.report(Diagnostic::MissingPosition);
            return ;
        }
        let (position, from): (Position, usize) = if is_word(&tokens[1], "startpos") {
            if tokens.len() > 2 && !is_word(&tokens[2], "moves") {
                transcript.report(Diagnostic::UnexpectedWord);
                return ;
            }
            (self.start.clone(), 3)
        } else {
            let first: usize = if is_word(&tokens[1], "fen") {
                2
            } else {
                1
            };
            let (fen_string, from) = get_fen_string(tokens, first);
            match Position::parse(fen_string.as_slice()) {
                Ok(position) => (position, from),
                Err(e) => {
                    transcript.report(Diagnostic::BadPosition(e));
                    return ;
                },
            }
        };
        let (position, complete) = replay(position, tokens, from);
        if !complete {
            transcript.report(Diagnostic::IllegalMove);
        }
        self.engine.set_position(position);
    }

    /// `go`: a search is wanted. The word `infinite` among the arguments
    /// makes it an infinite one; the other arguments are taken in and not
    /// looked at.
    pub fn go_cmd(&mut self, tokens: &Vec<Vec<u8>>)
        ensures
            final(self)@.start == old(self)@.start,
            final(self)@.session == started(old(self)@.session, texts(tokens@)),
    {
        let mut index: usize = 1;
        let mut infinite = false;
        while index < tokens.len()
            invariant
                1 <= index,
                infinite <==> exists|i: int|
                    1 <= i < index && i < tokens.len() && #[trigger] texts(tokens@)[i] == word(
                        "infinite",
                    ),
            decreases tokens.len() - index,
        {
            assert(texts(tokens@)[index as int] == tokens@[index as int]@);
            if is_word(&tokens[index], "infinite") {
                infinite = true;
            }
            index = index + 1;
        }
        if infinite {
            self.engine.set_search_type(SearchType::Infinite);
        }
        self.engine.activate();
    }

    /// `stop`: the best move found so far, if there is one, is announced,
    /// and the session is deactivated.
    pub fn stop_cmd(&mut self, transcript: &mut Transcript)
        ensures
            final(self)@.start == old(self)@.start,
            (final(self)@.session, final(transcript)@) == stopped(
                old(self)@.session,
                old(transcript)@,
            ),
    {
        match self.engine.get_best_move() {
            Some(m) => {
                transcript.say(output_best_move(self.engine.get_current_position(), m));
            },
            None => {},
        }
        self.engine.deactivate();
    }
}

} // verus!
