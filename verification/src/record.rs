//! The stored form of a session, and the rules for reading one back.
//!
//! A session is stored as five named fields: `initial_board` (the notation of
//! the starting position), `moves`, `start_time`, `time_limit` and `increment`.
//! All five are needed to read a session back, none may come twice, the
//! stored notation must be one of a position that the engine plays from, and
//! the stored moves must fit a session from that position.

use vstd::prelude::*;
use pleco::Board;
use crate::accounting::{
    final_position, history_has_room, lemma_position_step, lemma_prefix_step, lemma_take_all,
    lemma_total_time_prefix, total_time, SessionView,
};
use crate::engine::{apply_uci, copy_position, notation_of, parse_outcome, parse_position, render};
use crate::position::{
    capacity, capacity_of, check_shape, counted, fit_to_play, is_playable, moves_fit,
    moves_fit_of, on_course, playable, shape_is_safe,
};
use crate::moves::{moves_view, Move, MoveView};
use crate::session::ChessGame;

verus! {

/// One of the five stored fields.
#[derive(Clone, Copy, Debug, PartialEq, Eq, Structural)]
pub enum FieldName {
    InitialBoard,
    Moves,
    StartTime,
    TimeLimit,
    Increment,
}

impl FieldName {
    /// The name of the field in the stored form.
    pub open spec fn name_spec(self) -> Seq<char> {
        match self {
            FieldName::InitialBoard => "initial_board"@,
            FieldName::Moves => "moves"@,
            FieldName::StartTime => "start_time"@,
            FieldName::TimeLimit => "time_limit"@,
            FieldName::Increment => "increment"@,
        }
    }

    /// The name of the field in the stored form.
    pub fn name(&self) -> (text: &'static str)
        ensures
            text@ == self.name_spec(),
    {
        match self {
            FieldName::InitialBoard => "initial_board",
            FieldName::Moves => "moves",
            FieldName::StartTime => "start_time",
            FieldName::TimeLimit => "time_limit",
            FieldName::Increment => "increment",
        }
    }
}

/// Why stored data could not be read back as a session.
#[derive(Debug)]
pub enum RecordError {
    /// The field is not in the stored data.
    MissingField(FieldName),
    /// The field is in the stored data more than once.
    DuplicateField(FieldName),
    /// The stored notation is not one of a position that the engine plays
    /// from. The notation is given back.
    PositionParse { notation: String },
    /// The stored moves are more than can be played from the stored position,
    /// took longer than a session can add up, or lead to a position with
    /// more pieces than the engine can list the moves of.
    HistoryTooLong,
}

/// A session in its stored form.
#[derive(Debug)]
pub struct SessionRecord {
    /// The notation of the position the game started from.
    pub initial_board: String,
    /// The moves played, oldest first.
    pub moves: Vec<Move>,
    /// The clock reading, in milliseconds, at which the session was created.
    pub start_time: u64,
    /// The time each player has, in milliseconds.
    pub time_limit: u32,
    /// The milliseconds credited after each move.
    pub increment: u32,
}

impl View for SessionRecord {
    type V = SessionView;

    open spec fn view(&self) -> SessionView {
        SessionView {
            initial: self.initial_board@,
            moves: moves_view(self.moves@),
            start_time: self.start_time as nat,
            time_limit: self.time_limit as nat,
            increment: self.increment as nat,
        }
    }
}

/// The position that a stored notation is read back as: what the engine's
/// parser makes of it, where its shape is one the parser can be given and the
/// position is one the engine plays from.
pub open spec fn loaded_position(text: Seq<char>) -> Option<Seq<char>> {
    if !shape_is_safe(text) {
        None
    } else {
        match parse_outcome(text) {
            Some(initial) => if playable(initial) {
                Some(initial)
            } else {
                None
            },
            None => None,
        }
    }
}

/// Whether a stored history fits a session that starts from the position
/// `initial`: the time of its moves adds up in 32 bits, the engine plays from
/// `initial`, there are no more moves than it can count from there, and the
/// moves of every position along the history fit its list.
pub open spec fn fits(record: SessionView, initial: Seq<char>) -> bool {
    &&& total_time(record.moves) <= u32::MAX
    &&& playable(initial)
    &&& record.moves.len() <= capacity(initial)
    &&& history_has_room(initial, record.moves)
}

/// Whether the moves of every position along `moves`, played from `board`,
/// fit the engine's list.
fn history_has_room_of(board: &Board, moves: &Vec<Move>) -> (yes: bool)
    requires
        fit_to_play(*board),
        moves@.len() <= capacity(notation_of(*board)),
    ensures
        yes == history_has_room(notation_of(*board), moves_view(moves@)),
{
    let ghost initial = notation_of(*board);
    let ghost history = moves_view(moves@);
    let mut at = copy_position(board);
    let mut played: usize = 0;
    assert(history.take(0) =~= Seq::empty());
    assert forall|k: int| 0 <= k <= 0 implies moves_fit(
        final_position(initial, #[trigger] history.take(k)),
    ) by {
        assert(history.take(k) =~= Seq::empty());
    }
    while played < moves.len()
        invariant
            played <= moves.len(),
            moves@.len() <= capacity(initial),
            initial == notation_of(*board),
            history == moves_view(moves@),
            playable(initial),
            counted(at),
            on_course(initial, notation_of(at), played as int),
            notation_of(at) == final_position(initial, history.take(played as int)),
            forall|k: int|
                0 <= k <= played ==> moves_fit(final_position(initial, #[trigger] history.take(k))),
        decreases moves.len() - played,
    {
        proof {
            lemma_position_step(initial, history, played as int);
        }
        apply_uci(&mut at, moves[played].uci_move());
        played += 1;
        if !moves_fit_of(&at) {
            assert(!moves_fit(final_position(initial, history.take(played as int))));
            return false;
        }
    }
    true
}

/// The session read back from `record` when the engine has parsed the stored
/// notation as `board`: the record's history and time control, starting from
/// that board.
pub open spec fn restored(record: SessionView, board: Board) -> SessionView {
    SessionView { initial: notation_of(board), ..record }
}

impl SessionRecord {
    /// Whether the time of all stored moves fits in 32 bits, as a session
    /// needs it to.
    pub fn durations_fit(&self) -> (fit: bool)
        ensures
            fit == (total_time(self@.moves) <= u32::MAX),
    {
        let mut elapsed: u32 = 0;
        let mut seen: usize = 0;
        assert(self@.moves.take(0) =~= Seq::empty());
        while seen < self.moves.len()
            invariant
                seen <= self.moves.len(),
                elapsed as nat == total_time(self@.moves.take(seen as int)),
            decreases self.moves.len() - seen,
        {
            proof {
                lemma_prefix_step(self@.moves, seen as int);
                lemma_total_time_prefix(self@.moves, seen + 1);
            }
            match elapsed.checked_add(self.moves[seen].time_taken()) {
                Some(sum) => {
                    elapsed = sum;
                },
                None => {
                    return false;
                },
            }
            seen += 1;
        }
        proof {
            lemma_take_all(self@.moves);
        }
        true
    }
}

impl ChessGame {
    /// The stored form of the session.
    pub fn to_record(&self) -> (record: SessionRecord)
        ensures
            record@ == self@,
    {
        let history = self.moves();
        let mut moves: Vec<Move> = Vec::new();
        let mut copied: usize = 0;
        while copied < history.len()
            invariant
                copied <= history.len(),
                moves@.len() == copied,
                forall|i: int| 0 <= i < copied ==> moves@[i]@ == history@[i]@,
            decreases history.len() - copied,
        {
            moves.push(history[copied].clone());
            copied += 1;
        }
        assert(moves_view(moves@) =~= moves_view(history@));
        SessionRecord {
            initial_board: render(self.initial_board()),
            moves,
            start_time: self.start_time(),
            time_limit: self.time_limit(),
            increment: self.increment(),
        }
    }

    /// Reads a session back from its stored form. `parsed` is what the
    /// engine's parser made of the stored notation: with a board, the session
    /// has the record's history and time control and starts from that board;
    /// without one, the notation is given back in the error. A board must hold
    /// a position the engine plays from, and the history must fit the session.
    pub fn restore(record: SessionRecord, parsed: Option<Board>) -> (read: Result<
        ChessGame,
        RecordError,
    >)
        requires
            parsed matches Some(board) ==> counted(board) && fits(record@, notation_of(board)),
        ensures
            match parsed {
                Some(board) => read is Ok && read->Ok_0@ == restored(record@, board),
                None => read is Err && read->Err_0 == (RecordError::PositionParse {
                    notation: record.initial_board,
                }),
            },
    {
        match parsed {
            Some(board) => Ok(
                ChessGame::assemble(
                    board,
                    record.moves,
                    record.start_time,
                    record.time_limit,
                    record.increment,
                ),
            ),
            None => Err(RecordError::PositionParse { notation: record.initial_board }),
        }
    }

    /// Reads a session back from its stored form, asking the engine to parse
    /// the stored notation. The notation is refused where its shape is not one
    /// the parser can be given, where the parser refuses it, and where the
    /// position is not one the engine plays from. The history is refused where
    /// it does not fit a session from that position. What is left is read
    /// back with the record's history and time control.
    pub fn load(record: SessionRecord) -> (read: Result<ChessGame, RecordError>)
        ensures
            match loaded_position(record@.initial) {
                None => read is Err && read->Err_0 == (RecordError::PositionParse {
                    notation: record.initial_board,
                }),
                Some(initial) => if fits(record@, initial) {
                    read is Ok && read->Ok_0@ == (SessionView { initial, ..record@ })
                } else {
                    read is Err && read->Err_0 == RecordError::HistoryTooLong
                },
            },
    {
        if !check_shape(record.initial_board.as_str()) {
            return Err(RecordError::PositionParse { notation: record.initial_board });
        }
        let board = match parse_position(record.initial_board.as_str()) {
            Some(board) => board,
            None => {
                return Err(RecordError::PositionParse { notation: record.initial_board });
            },
        };
        if !is_playable(&board) {
            return Err(RecordError::PositionParse { notation: record.initial_board });
        }
        if !record.durations_fit() || record.moves.len() > capacity_of(&board) as usize
            || !history_has_room_of(&board, &record.moves) {
            return Err(RecordError::HistoryTooLong);
        }
        ChessGame::restore(record, Some(board))
    }
}

/// What has been read of a stored session so far: each field is there once it
/// has been supplied.
pub struct RecordFields {
    initial_board: Option<String>,
    moves: Option<Vec<Move>>,
    start_time: Option<u64>,
    time_limit: Option<u32>,
    increment: Option<u32>,
}

/// What a `RecordFields` stands for.
pub struct FieldsView {
    pub initial_board: Option<Seq<char>>,
    pub moves: Option<Seq<MoveView>>,
    pub start_time: Option<nat>,
    pub time_limit: Option<nat>,
    pub increment: Option<nat>,
}

impl FieldsView {
    /// Whether `field` has been supplied.
    pub open spec fn has(self, field: FieldName) -> bool {
        match field {
            FieldName::InitialBoard => self.initial_board is Some,
            FieldName::Moves => self.moves is Some,
            FieldName::StartTime => self.start_time is Some,
            FieldName::TimeLimit => self.time_limit is Some,
            FieldName::Increment => self.increment is Some,
        }
    }

    /// The field that a reader reports as missing: the first one not supplied,
    /// asked for in the order `initial_board`, `moves`, `increment`,
    /// `start_time`, `time_limit`. `None` when all five are there.
    pub open spec fn first_missing(self) -> Option<FieldName> {
        if !self.has(FieldName::InitialBoard) {
            Some(FieldName::InitialBoard)
        } else if !self.has(FieldName::Moves) {
            Some(FieldName::Moves)
        } else if !self.has(FieldName::Increment) {
            Some(FieldName::Increment)
        } else if !self.has(FieldName::StartTime) {
            Some(FieldName::StartTime)
        } else if !self.has(FieldName::TimeLimit) {
            Some(FieldName::TimeLimit)
        } else {
            None
        }
    }

    /// The record that the five fields make up.
    pub open spec fn record(self) -> SessionView
        recommends
            self.first_missing() is None,
    {
        SessionView {
            initial: self.initial_board->Some_0,
            moves: self.moves->Some_0,
            start_time: self.start_time->Some_0,
            time_limit: self.time_limit->Some_0,
            increment: self.increment->Some_0,
        }
    }
}

impl View for RecordFields {
    type V = FieldsView;

    closed spec fn view(&self) -> FieldsView {
        FieldsView {
            initial_board: match self.initial_board {
                Some(notation) => Some(notation@),
                None => None,
            },
            moves: match self.moves {
                Some(moves) => Some(moves_view(moves@)),
                None => None,
            },
            start_time: match self.start_time {
                Some(millis) => Some(millis as nat),
                None => None,
            },
            time_limit: match self.time_limit {
                Some(millis) => Some(millis as nat),
                None => None,
            },
            increment: match self.increment {
                Some(millis) => Some(millis as nat),
                None => None,
            },
        }
    }
}

impl RecordFields {
    /// Nothing read yet.
    pub fn new() -> (fields: RecordFields)
        ensures
            fields@ == (FieldsView {
                initial_board: None,
                moves: None,
                start_time: None,
                time_limit: None,
                increment: None,
            }),
    {
        RecordFields {
            initial_board: None,
            moves: None,
            start_time: None,
            time_limit: None,
            increment: None,
        }
    }

    /// Supplies `initial_board`. A second value is refused and the first one
    /// stays.
    pub fn set_initial_board(&mut self, notation: String) -> (set: Result<(), RecordError>)
        ensures
            !old(self)@.has(FieldName::InitialBoard) ==> set is Ok && final(self)@ == (FieldsView {
                initial_board: Some(notation@),
                ..old(self)@
            }),
            old(self)@.has(FieldName::InitialBoard) ==> set is Err && set->Err_0
                == RecordError::DuplicateField(FieldName::InitialBoard) && final(self)@ == old(
                self,
            )@,
    {
        if self.initial_board.is_some() {
            return Err(RecordError::DuplicateField(FieldName::InitialBoard));
        }
        self.initial_board = Some(notation);
        Ok(())
    }

    /// Supplies `moves`. A second value is refused and the first one stays.
    pub fn set_moves(&mut self, moves: Vec<Move>) -> (set: Result<(), RecordError>)
        ensures
            !old(self)@.has(FieldName::Moves) ==> set is Ok && final(self)@ == (FieldsView {
                moves: Some(moves_view(moves@)),
                ..old(self)@
            }),
            old(self)@.has(FieldName::Moves) ==> set is Err && set->Err_0
                == RecordError::DuplicateField(FieldName::Moves) && final(self)@ == old(self)@,
    {
        if self.moves.is_some() {
            return Err(RecordError::DuplicateField(FieldName::Moves));
        }
        self.moves = Some(moves);
        Ok(())
    }

    /// Supplies `start_time`. A second value is refused and the first one
    /// stays.
    pub fn set_start_time(&mut self, millis: u64) -> (set: Result<(), RecordError>)
        ensures
            !old(self)@.has(FieldName::StartTime) ==> set is Ok && final(self)@ == (FieldsView {
                start_time: Some(millis as nat),
                ..old(self)@
            }),
            old(self)@.has(FieldName::StartTime) ==> set is Err && set->Err_0
                == RecordError::DuplicateField(FieldName::StartTime) && final(self)@ == old(
                self,
            )@,
    {
        if self.start_time.is_some() {
            return Err(RecordError::DuplicateField(FieldName::StartTime));
        }
        self.start_time = Some(millis);
        Ok(())
    }

    /// Supplies `time_limit`. A second value is refused and the first one
    /// stays.
    pub fn set_time_limit(&mut self, millis: u32) -> (set: Result<(), RecordError>)
        ensures
            !old(self)@.has(FieldName::TimeLimit) ==> set is Ok && final(self)@ == (FieldsView {
                time_limit: Some(millis as nat),
                ..old(self)@
            }),
            old(self)@.has(FieldName::TimeLimit) ==> set is Err && set->Err_0
                == RecordError::DuplicateField(FieldName::TimeLimit) && final(self)@ == old(
                self,
            )@,
    {
        if self.time_limit.is_some() {
            return Err(RecordError::DuplicateField(FieldName::TimeLimit));
        }
        self.time_limit = Some(millis);
        Ok(())
    }

    /// Supplies `increment`. A second value is refused and the first one
    /// stays.
    pub fn set_increment(&mut self, millis: u32) -> (set: Result<(), RecordError>)
        ensures
            !old(self)@.has(FieldName::Increment) ==> set is Ok && final(self)@ == (FieldsView {
                increment: Some(millis as nat),
                ..old(self)@
            }),
            old(self)@.has(FieldName::Increment) ==> set is Err && set->Err_0
                == RecordError::DuplicateField(FieldName::Increment) && final(self)@ == old(
                self,
            )@,
    {
        if self.increment.is_some() {
            return Err(RecordError::DuplicateField(FieldName::Increment));
        }
        self.increment = Some(millis);
        Ok(())
    }

    /// The record made of the five fields, or the first field that is
    /// missing.
    pub fn finish(self) -> (read: Result<SessionRecord, RecordError>)
        ensures
            match self@.first_missing() {
                Some(field) => read is Err && read->Err_0 == RecordError::MissingField(field),
                None => read is Ok && read->Ok_0@ == self@.record(),
            },
    {
        let initial_board = match self.initial_board {
            Some(notation) => notation,
            None => {
                return Err(RecordError::MissingField(FieldName::InitialBoard));
            },
        };
        let moves = match self.moves {
            Some(moves) => moves,
            None => {
                return Err(RecordError::MissingField(FieldName::Moves));
            },
        };
        let increment = match self.increment {
            Some(millis) => millis,
            None => {
                return Err(RecordError::MissingField(FieldName::Increment));
            },
        };
        let start_time = match self.start_time {
            Some(millis) => millis,
            None => {
                return Err(RecordError::MissingField(FieldName::StartTime));
            },
        };
        let time_limit = match self.time_limit {
            Some(millis) => millis,
            None => {
                return Err(RecordError::MissingField(FieldName::TimeLimit));
            },
        };
        Ok(SessionRecord { initial_board, moves, start_time, time_limit, increment })
    }
}

} // verus!
