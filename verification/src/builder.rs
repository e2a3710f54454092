//! Setting up a session.

use vstd::prelude::*;
use pleco::Board;
use crate::accounting::SessionView;
use crate::clock::wall_clock_millis;
use crate::engine::{notation_of, start_notation, start_position};
use crate::moves::{moves_view, Move};
use crate::accounting::lemma_room_empty;
use crate::position::{fit_to_play, is_playable};
use crate::session::ChessGame;

verus! {

/// Collects the starting position and the time control of a session to be.
pub struct ChessGameBuilder {
    initial_board: Board,
    time_limit: u32,
    increment: u32,
}

/// What a builder has collected.
pub struct SetupView {
    /// The notation of the position the game will start from.
    pub initial: Seq<char>,
    /// The time each player will have, in milliseconds.
    pub time_limit: nat,
    /// The milliseconds credited after each move.
    pub increment: nat,
}

impl SetupView {
    /// The session that this setup gives when it is created at the clock
    /// reading `start_time`: no move has been played.
    pub open spec fn session_at(self, start_time: nat) -> SessionView {
        SessionView {
            initial: self.initial,
            moves: Seq::empty(),
            start_time,
            time_limit: self.time_limit,
            increment: self.increment,
        }
    }
}

impl View for ChessGameBuilder {
    type V = SetupView;

    closed spec fn view(&self) -> SetupView {
        SetupView {
            initial: notation_of(self.initial_board),
            time_limit: self.time_limit as nat,
            increment: self.increment as nat,
        }
    }
}

impl ChessGameBuilder {
    /// The game will start from a board the engine plays from.
    #[verifier::type_invariant]
    closed spec fn well_kept(&self) -> bool {
        fit_to_play(self.initial_board)
    }

    /// A setup with the standard starting position, no time and no increment.
    pub fn new() -> (builder: ChessGameBuilder)
        ensures
            builder@ == (SetupView { initial: start_notation(), time_limit: 0, increment: 0 }),
    {
        ChessGameBuilder { initial_board: start_position(), time_limit: 0, increment: 0 }
    }

    /// The same setup, starting from `board`, which must be one the engine
    /// plays from.
    pub fn with_initial_board(self, board: Board) -> (builder: ChessGameBuilder)
        requires
            fit_to_play(board),
        ensures
            builder@ == (SetupView { initial: notation_of(board), ..self@ }),
    {
        ChessGameBuilder { initial_board: board, time_limit: self.time_limit, increment: self.increment }
    }

    /// The same setup, starting from `board` where the engine plays from it.
    /// Where it does not, the setup comes back as it was.
    pub fn with_initial_board_if_playable(self, board: Board) -> (set: Result<
        ChessGameBuilder,
        ChessGameBuilder,
    >)
        ensures
            fit_to_play(board) ==> set is Ok && set->Ok_0@ == (SetupView {
                initial: notation_of(board),
                ..self@
            }),
            !fit_to_play(board) ==> set is Err && set->Err_0@ == self@,
    {
        if is_playable(&board) {
            Ok(self.with_initial_board(board))
        } else {
            Err(self)
        }
    }

    /// The same setup, with `time_limit` milliseconds for each player.
    pub fn with_time_limit(self, time_limit: u32) -> (builder: ChessGameBuilder)
        ensures
            builder@ == (SetupView { time_limit: time_limit as nat, ..self@ }),
    {
        proof {
            use_type_invariant(&self);
        }
        ChessGameBuilder { initial_board: self.initial_board, time_limit, increment: self.increment }
    }

    /// The same setup, with `increment` milliseconds credited after each move.
    pub fn with_increment(self, increment: u32) -> (builder: ChessGameBuilder)
        ensures
            builder@ == (SetupView { increment: increment as nat, ..self@ }),
    {
        proof {
            use_type_invariant(&self);
        }
        ChessGameBuilder { initial_board: self.initial_board, time_limit: self.time_limit, increment }
    }

    /// The session created at the clock reading `start_time`.
    pub fn build_at(self, start_time: u64) -> (game: ChessGame)
        ensures
            game@ == self@.session_at(start_time as nat),
            game@.history_is_legal(),
    {
        proof {
            use_type_invariant(&self);
        }
        let moves: Vec<Move> = Vec::new();
        assert(moves_view(moves@) =~= Seq::empty());
        proof {
            lemma_room_empty(notation_of(self.initial_board), moves_view(moves@));
        }
        ChessGame::assemble(
            self.initial_board,
            moves,
            start_time,
            self.time_limit,
            self.increment,
        )
    }

    /// The session created now, by the wall clock.
    pub fn build(self) -> (game: ChessGame)
        ensures
            exists|start_time: u64| game@ == self@.session_at(start_time as nat),
            game@.history_is_legal(),
    {
        self.build_at(wall_clock_millis())
    }
}

} // verus!
