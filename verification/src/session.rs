//! The game session: a starting position, the moves played from it, and the
//! time control.

use vstd::prelude::*;
use pleco::Board;
use crate::accounting::{
    final_position, history_has_room, lemma_room_drop_last, lemma_room_push, step, lemma_legal_history_drop_last, lemma_legal_history_push,
    lemma_position_step, lemma_prefix_step, lemma_pure_time_bound, lemma_pure_time_split,
    lemma_take_all, lemma_time_with_increment_bound, lemma_total_time_prefix,
    lemma_total_time_with_increment_bound, pure_time, time_with_increment, total_time,
    total_time_with_increment, SessionView,
};
use crate::clock::wall_clock_millis;
use crate::engine::{apply_uci, copy_position, is_mate, mate_in, notation_of, turn_of};
use crate::position::{
    capacity, capacity_of, counted, fit_to_play, moves_fit, moves_fit_of, on_course, playable,
};
use crate::error::SessionError;
use crate::moves::{moves_view, Move, MoveView};
use crate::side::Side;

verus! {

/// One game of chess with a clock for each player.
///
/// The session stores only where the game started and what was played. The
/// current position, the player to move and every clock reading are derived
/// by replaying the moves through the engine.
pub struct ChessGame {
    initial_board: Board,
    moves: Vec<Move>,
    start_time: u64,
    time_limit: u32,
    increment: u32,
    capacity: u16,
}

impl View for ChessGame {
    type V = SessionView;

    closed spec fn view(&self) -> SessionView {
        SessionView {
            initial: notation_of(self.initial_board),
            moves: moves_view(self.moves@),
            start_time: self.start_time as nat,
            time_limit: self.time_limit as nat,
            increment: self.increment as nat,
        }
    }
}

impl ChessGame {
    /// The time of all recorded moves fits the 32 bits that sums are returned
    /// in. The game started from a board the engine plays from, holds no more
    /// moves than the engine can count from there, and has led only to
    /// positions whose moves fit the engine's list.
    #[verifier::type_invariant]
    closed spec fn well_kept(&self) -> bool {
        &&& total_time(moves_view(self.moves@)) <= u32::MAX
        &&& fit_to_play(self.initial_board)
        &&& self.capacity as int == capacity(notation_of(self.initial_board))
        &&& self.moves@.len() <= self.capacity
        &&& history_has_room(notation_of(self.initial_board), moves_view(self.moves@))
    }

    /// Whether the session can take `mov` where the engine accepts it: its
    /// time adds up with the time of the moves before it in 32 bits, the
    /// session has not reached its capacity, and the moves of the position
    /// that it leads to fit the engine's list.
    pub open spec fn has_room_for(&self, mov: MoveView) -> bool {
        self@.accepts(mov.uci_move) ==> {
            &&& self@.total_pure_time() + mov.time_taken <= u32::MAX
            &&& self@.moves.len() < self.capacity_spec()
            &&& moves_fit(step(self@.current_position(), mov.uci_move))
        }
    }

    /// The number of moves that the session can record.
    pub closed spec fn capacity_spec(&self) -> u16 {
        self.capacity
    }

    /// The number of moves that the session can record: as many as the
    /// engine can count from the initial position.
    #[verifier::when_used_as_spec(capacity_spec)]
    pub fn capacity(&self) -> (moves: u16)
        ensures
            moves == self.capacity_spec(),
            moves as int == capacity(self@.initial),
            self@.moves.len() <= moves,
            playable(self@.initial),
            history_has_room(self@.initial, self@.moves),
    {
        proof {
            use_type_invariant(self);
        }
        self.capacity
    }

    /// A session that starts from `initial_board` with the given history.
    pub(crate) fn assemble(
        initial_board: Board,
        moves: Vec<Move>,
        start_time: u64,
        time_limit: u32,
        increment: u32,
    ) -> (game: ChessGame)
        requires
            total_time(moves_view(moves@)) <= u32::MAX,
            fit_to_play(initial_board),
            moves@.len() <= capacity(notation_of(initial_board)),
            history_has_room(notation_of(initial_board), moves_view(moves@)),
        ensures
            game@ == (SessionView {
                initial: notation_of(initial_board),
                moves: moves_view(moves@),
                start_time: start_time as nat,
                time_limit: time_limit as nat,
                increment: increment as nat,
            }),
            game.capacity_spec() as int == capacity(notation_of(initial_board)),
    {
        let capacity = capacity_of(&initial_board);
        ChessGame { initial_board, moves, start_time, time_limit, increment, capacity }
    }

    /// The position the game started from.
    pub fn initial_board(&self) -> (board: &Board)
        ensures
            notation_of(*board) == self@.initial,
            fit_to_play(*board),
    {
        proof {
            use_type_invariant(self);
        }
        &self.initial_board
    }

    /// The moves played, oldest first.
    pub fn moves(&self) -> (moves: &Vec<Move>)
        ensures
            moves_view(moves@) == self@.moves,
            total_time(moves_view(moves@)) <= u32::MAX,
    {
        proof {
            use_type_invariant(self);
        }
        &self.moves
    }

    /// The clock reading, in milliseconds, at which the session was created.
    pub fn start_time(&self) -> (millis: u64)
        ensures
            millis as nat == self@.start_time,
    {
        self.start_time
    }

    /// The time each player has for the game, in milliseconds.
    pub fn time_limit(&self) -> (millis: u32)
        ensures
            millis as nat == self@.time_limit,
    {
        self.time_limit
    }

    /// The milliseconds credited to a player after each of their moves.
    pub fn increment(&self) -> (millis: u32)
        ensures
            millis as nat == self@.increment,
    {
        self.increment
    }

    /// The position after the first `count` moves.
    fn replay(&self, count: usize) -> (board: Board)
        requires
            count <= self@.moves.len(),
        ensures
            notation_of(board) == final_position(self@.initial, self@.moves.take(count as int)),
            on_course(self@.initial, notation_of(board), count as int),
            fit_to_play(board),
    {
        proof {
            use_type_invariant(self);
        }
        let mut board = copy_position(&self.initial_board);
        let mut played: usize = 0;
        assert(self@.moves.take(0) =~= Seq::empty());
        while played < count
            invariant
                played <= count <= self.moves.len(),
                self.moves.len() <= capacity(self@.initial),
                playable(self@.initial),
                history_has_room(self@.initial, self@.moves),
                counted(board),
                on_course(self@.initial, notation_of(board), played as int),
                notation_of(board) == final_position(
                    self@.initial,
                    self@.moves.take(played as int),
                ),
            decreases count - played,
        {
            proof {
                lemma_position_step(self@.initial, self@.moves, played as int);
            }
            apply_uci(&mut board, self.moves[played].uci_move());
            played += 1;
        }
        board
    }

    /// The position after all moves played.
    pub fn compute_current_board(&self) -> (board: Board)
        ensures
            notation_of(board) == self@.current_position(),
    {
        proof {
            lemma_take_all(self@.moves);
        }
        self.replay(self.moves.len())
    }

    /// The position after the first `target_turn` moves: the initial position
    /// for turn 0, and the current position for a turn beyond the history.
    pub fn compute_board_at_turn(&self, target_turn: u16) -> (board: Board)
        ensures
            notation_of(board) == self@.position_at(target_turn as nat),
    {
        let target = target_turn as usize;
        if target <= self.moves.len() {
            self.replay(target)
        } else {
            self.replay(self.moves.len())
        }
    }

    /// The player to move in the current position.
    pub fn turn(&self) -> (side: Side)
        ensures
            side == self@.turn(),
    {
        let board = self.compute_current_board();
        turn_of(&board)
    }

    /// Whether the engine accepts `mov` in the current position. The session
    /// is not changed: the move is tried on a copy.
    pub fn is_move_legal(&self, mov: &Move) -> (legal: bool)
        ensures
            legal == self@.accepts(mov@.uci_move),
    {
        proof {
            lemma_take_all(self@.moves);
        }
        let mut board = self.replay(self.moves.len());
        apply_uci(&mut board, mov.uci_move())
    }

    /// Plays `mov` if it is legal in the current position: the move is
    /// appended to the history and nothing else changes. An illegal move is
    /// refused and the session stays as it was. Either way a history of legal
    /// moves stays one. The session must have room for a move that is
    /// accepted; `play_move_if_room` tests that first.
    pub fn play_move(&mut self, mov: Move) -> (played: Result<(), SessionError>)
        requires
            old(self).has_room_for(mov@),
        ensures
            final(self).capacity_spec() == old(self).capacity_spec(),
            old(self)@.accepts(mov@.uci_move) ==> played is Ok && final(self)@ == old(
                self,
            )@.with_move(mov@),
            !old(self)@.accepts(mov@.uci_move) ==> played == Err::<(), SessionError>(
                SessionError::IllegalMove,
            ) && final(self)@ == old(self)@,
            old(self)@.history_is_legal() ==> final(self)@.history_is_legal(),
    {
        if self.is_move_legal(&mov) {
            proof {
                use_type_invariant(&*self);
                assert(self@.moves.push(mov@).drop_last() =~= self@.moves);
                lemma_room_push(self@.initial, self@.moves, mov@);
                if self@.history_is_legal() {
                    lemma_legal_history_push(self@.initial, self@.moves, mov@);
                }
                assert(moves_view(self.moves@.push(mov)) =~= moves_view(self.moves@).push(mov@));
                assert(moves_view(self.moves@).push(mov@).drop_last() =~= moves_view(self.moves@));
            }
            // The history is moved out, extended and put back, so that the
            // session never holds one whose times have not been accounted for.
            let mut history: Vec<Move> = Vec::new();
            std::mem::swap(&mut self.moves, &mut history);
            history.push(mov);
            self.moves = history;
            Ok(())
        } else {
            Err(SessionError::IllegalMove)
        }
    }

    /// Plays `mov` as `play_move` does, where the session has room for it.
    /// Where it has not, nothing is played and the session stays as it was.
    pub fn play_move_if_room(&mut self, mov: Move) -> (played: Option<Result<(), SessionError>>)
        ensures
            final(self).capacity_spec() == old(self).capacity_spec(),
            !old(self).has_room_for(mov@) ==> played is None && final(self)@ == old(self)@,
            old(self).has_room_for(mov@) && old(self)@.accepts(mov@.uci_move) ==> played is Some
                && played->Some_0 is Ok && final(self)@ == old(self)@.with_move(mov@),
            old(self).has_room_for(mov@) && !old(self)@.accepts(mov@.uci_move) ==> played == Some(
                Err::<(), SessionError>(SessionError::IllegalMove),
            ) && final(self)@ == old(self)@,
            old(self)@.history_is_legal() ==> final(self)@.history_is_legal(),
    {
        proof {
            lemma_take_all(self@.moves);
        }
        let mut board = self.replay(self.moves.len());
        if apply_uci(&mut board, mov.uci_move()) {
            let spent = self.compute_total_moves_pure_time();
            let fits = mov.time_taken() <= u32::MAX - spent && self.moves.len() < self.capacity()
                as usize && moves_fit_of(&board);
            if !fits {
                return None;
            }
        }
        Some(self.play_move(mov))
    }

    /// Takes back the last move. With no move played the session stays as it
    /// was and the call is refused. Either way a history of legal moves stays
    /// one.
    pub fn undo_move(&mut self) -> (undone: Result<(), SessionError>)
        ensures
            old(self)@.moves.len() > 0 ==> undone is Ok && final(self)@ == old(
                self,
            )@.without_last_move(),
            old(self)@.moves.len() == 0 ==> undone == Err::<(), SessionError>(
                SessionError::EmptyHistory,
            ) && final(self)@ == old(self)@,
            old(self)@.history_is_legal() ==> final(self)@.history_is_legal(),
            final(self).capacity_spec() == old(self).capacity_spec(),
    {
        proof {
            use_type_invariant(&*self);
            if self.moves@.len() > 0 {
                lemma_room_drop_last(self@.initial, self@.moves);
            }
            if self@.history_is_legal() && self.moves@.len() > 0 {
                lemma_legal_history_drop_last(self@.initial, self@.moves);
            }
            if self.moves@.len() > 0 {
                assert(moves_view(self.moves@.drop_last()) =~= moves_view(self.moves@).drop_last());
            }
        }
        // As in `play_move`, the history is moved out while it changes.
        let mut history: Vec<Move> = Vec::new();
        std::mem::swap(&mut self.moves, &mut history);
        let last = history.pop();
        self.moves = history;
        match last {
            Some(_) => Ok(()),
            None => Err(SessionError::EmptyHistory),
        }
    }

    /// The time of the moves charged to `side`, with no increment taken off.
    fn side_pure_time(&self, side: Side) -> (millis: u32)
        ensures
            millis as nat == self@.pure_time(side),
    {
        proof {
            use_type_invariant(self);
        }
        let mut board = copy_position(&self.initial_board);
        let mut elapsed: u32 = 0;
        let mut played: usize = 0;
        assert(self@.moves.take(0) =~= Seq::empty());
        while played < self.moves.len()
            invariant
                played <= self.moves.len(),
                total_time(self@.moves) <= u32::MAX,
                self.moves.len() <= capacity(self@.initial),
                playable(self@.initial),
                history_has_room(self@.initial, self@.moves),
                counted(board),
                on_course(self@.initial, notation_of(board), played as int),
                notation_of(board) == final_position(
                    self@.initial,
                    self@.moves.take(played as int),
                ),
                elapsed as nat == pure_time(self@.initial, self@.moves.take(played as int), side),
            decreases self.moves.len() - played,
        {
            proof {
                let next = self@.moves.take(played + 1);
                lemma_prefix_step(self@.moves, played as int);
                lemma_position_step(self@.initial, self@.moves, played as int);
                lemma_pure_time_bound(self@.initial, next, side);
                lemma_total_time_prefix(self@.moves, played + 1);
            }
            apply_uci(&mut board, self.moves[played].uci_move());
            if turn_of(&board) == side.opponent() {
                elapsed = elapsed + self.moves[played].time_taken();
            }
            played += 1;
        }
        proof {
            lemma_take_all(self@.moves);
        }
        elapsed
    }

    /// The time charged to `side` with the increment credited after each of
    /// its moves.
    fn side_time_with_increment(&self, side: Side) -> (millis: u32)
        ensures
            millis as nat == self@.time_with_increment(side),
    {
        proof {
            use_type_invariant(self);
        }
        let mut board = copy_position(&self.initial_board);
        let mut elapsed: u32 = 0;
        let mut played: usize = 0;
        assert(self@.moves.take(0) =~= Seq::empty());
        while played < self.moves.len()
            invariant
                played <= self.moves.len(),
                total_time(self@.moves) <= u32::MAX,
                self.moves.len() <= capacity(self@.initial),
                playable(self@.initial),
                history_has_room(self@.initial, self@.moves),
                counted(board),
                on_course(self@.initial, notation_of(board), played as int),
                notation_of(board) == final_position(
                    self@.initial,
                    self@.moves.take(played as int),
                ),
                elapsed as nat == time_with_increment(
                    self@.initial,
                    self@.moves.take(played as int),
                    side,
                    self@.increment,
                ),
            decreases self.moves.len() - played,
        {
            proof {
                let earlier = self@.moves.take(played as int);
                let next = self@.moves.take(played + 1);
                lemma_prefix_step(self@.moves, played as int);
                lemma_position_step(self@.initial, self@.moves, played as int);
                lemma_time_with_increment_bound(self@.initial, earlier, side, self@.increment);
                lemma_pure_time_bound(self@.initial, next, side);
                lemma_total_time_prefix(self@.moves, played + 1);
            }
            apply_uci(&mut board, self.moves[played].uci_move());
            if turn_of(&board) == side.opponent() {
                elapsed = elapsed + self.moves[played].time_taken();
                if elapsed >= self.increment {
                    elapsed = elapsed - self.increment;
                } else {
                    elapsed = 0;
                }
            }
            played += 1;
        }
        proof {
            lemma_take_all(self@.moves);
        }
        elapsed
    }

    /// The time of White's moves, with no increment taken off.
    pub fn compute_white_moves_pure_time(&self) -> (millis: u32)
        ensures
            millis as nat == self@.pure_time(Side::White),
    {
        self.side_pure_time(Side::White)
    }

    /// The time of Black's moves, with no increment taken off.
    pub fn compute_black_moves_pure_time(&self) -> (millis: u32)
        ensures
            millis as nat == self@.pure_time(Side::Black),
    {
        self.side_pure_time(Side::Black)
    }

    /// The time charged to White: the increment is credited after each of
    /// White's moves and never takes the running total below zero.
    pub fn compute_white_moves_time_with_increment(&self) -> (millis: u32)
        ensures
            millis as nat == self@.time_with_increment(Side::White),
    {
        self.side_time_with_increment(Side::White)
    }

    /// The time charged to Black: the increment is credited after each of
    /// Black's moves and never takes the running total below zero.
    pub fn compute_black_moves_time_with_increment(&self) -> (millis: u32)
        ensures
            millis as nat == self@.time_with_increment(Side::Black),
    {
        self.side_time_with_increment(Side::Black)
    }

    /// The time of all moves played, which is the pure time of White's moves
    /// and of Black's moves together.
    pub fn compute_total_moves_pure_time(&self) -> (millis: u32)
        ensures
            millis as nat == self@.total_pure_time(),
            millis as nat == self@.pure_time(Side::White) + self@.pure_time(Side::Black),
    {
        proof {
            use_type_invariant(self);
            lemma_pure_time_split(self@.initial, self@.moves);
        }
        let mut elapsed: u32 = 0;
        let mut played: usize = 0;
        assert(self@.moves.take(0) =~= Seq::empty());
        while played < self.moves.len()
            invariant
                played <= self.moves.len(),
                total_time(self@.moves) <= u32::MAX,
                elapsed as nat == total_time(self@.moves.take(played as int)),
            decreases self.moves.len() - played,
        {
            proof {
                lemma_prefix_step(self@.moves, played as int);
                lemma_total_time_prefix(self@.moves, played + 1);
            }
            elapsed = elapsed + self.moves[played].time_taken();
            played += 1;
        }
        proof {
            lemma_take_all(self@.moves);
        }
        elapsed
    }

    /// One running total over all moves, with the increment credited after
    /// each move whoever made it.
    pub fn compute_total_move_time_with_increment(&self) -> (millis: u32)
        ensures
            millis as nat == self@.total_time_with_increment(),
    {
        proof {
            use_type_invariant(self);
        }
        let mut elapsed: u32 = 0;
        let mut played: usize = 0;
        assert(self@.moves.take(0) =~= Seq::empty());
        while played < self.moves.len()
            invariant
                played <= self.moves.len(),
                total_time(self@.moves) <= u32::MAX,
                elapsed as nat == total_time_with_increment(
                    self@.moves.take(played as int),
                    self@.increment,
                ),
            decreases self.moves.len() - played,
        {
            proof {
                let earlier = self@.moves.take(played as int);
                lemma_prefix_step(self@.moves, played as int);
                lemma_total_time_with_increment_bound(earlier, self@.increment);
                lemma_total_time_prefix(self@.moves, played + 1);
            }
            elapsed = elapsed + self.moves[played].time_taken();
            if elapsed >= self.increment {
                elapsed = elapsed - self.increment;
            } else {
                elapsed = 0;
            }
            played += 1;
        }
        proof {
            lemma_take_all(self@.moves);
        }
        elapsed
    }

    /// The time spent at the clock reading `now` on the move not yet made:
    /// what has passed since the start and the time of all moves made. A
    /// reading earlier than that gives zero.
    pub fn current_move_time_at(&self, now: u64) -> (millis: u64)
        ensures
            millis as nat == self@.current_move_time(now as nat),
    {
        let spent = self.compute_total_moves_pure_time();
        let begun: u128 = self.start_time as u128 + spent as u128;
        if now as u128 >= begun {
            (now as u128 - begun) as u64
        } else {
            0
        }
    }

    /// The time of both players' moves and of the move not yet made, at the
    /// clock reading `now`.
    pub fn total_elapsed_time_at(&self, now: u64) -> (millis: u64)
        ensures
            millis as nat == self@.total_elapsed_time(now as nat),
    {
        proof {
            use_type_invariant(self);
            lemma_pure_time_split(self@.initial, self@.moves);
        }
        let black_time = self.compute_black_moves_pure_time();
        let white_time = self.compute_white_moves_pure_time();
        let current_move_time = self.current_move_time_at(now);
        black_time as u64 + white_time as u64 + current_move_time
    }

    /// The clock reading of `side` at `now`.
    fn side_used_time_at(&self, side: Side, now: u64) -> (millis: u64)
        ensures
            millis as nat == self@.used_time(side, now as nat),
    {
        proof {
            lemma_time_with_increment_bound(self@.initial, self@.moves, side, self@.increment);
            lemma_pure_time_bound(self@.initial, self@.moves, side);
        }
        let moves_time = self.side_time_with_increment(side);
        let current_move_time = self.current_move_time_at(now);
        if self.turn() == side {
            moves_time as u64 + current_move_time
        } else {
            moves_time as u64
        }
    }

    /// White's clock reading at `now`: White's time with increment, and the
    /// time of the move not yet made where White is to move.
    pub fn white_used_time_at(&self, now: u64) -> (millis: u64)
        ensures
            millis as nat == self@.used_time(Side::White, now as nat),
    {
        self.side_used_time_at(Side::White, now)
    }

    /// Black's clock reading at `now`: Black's time with increment, and the
    /// time of the move not yet made where Black is to move.
    pub fn black_used_time_at(&self, now: u64) -> (millis: u64)
        ensures
            millis as nat == self@.used_time(Side::Black, now as nat),
    {
        self.side_used_time_at(Side::Black, now)
    }

    /// Whether White has used more than the time limit at `now`.
    pub fn is_white_time_over_at(&self, now: u64) -> (over: bool)
        ensures
            over == self@.time_over(Side::White, now as nat),
    {
        self.white_used_time_at(now) > self.time_limit as u64
    }

    /// Whether Black has used more than the time limit at `now`.
    pub fn is_black_time_over_at(&self, now: u64) -> (over: bool)
        ensures
            over == self@.time_over(Side::Black, now as nat),
    {
        self.black_used_time_at(now) > self.time_limit as u64
    }

    /// The time spent on the move not yet made, by the wall clock.
    pub fn compute_current_move_time(&self) -> (millis: u64)
        ensures
            exists|now: u64| millis as nat == self@.current_move_time(now as nat),
    {
        self.current_move_time_at(wall_clock_millis())
    }

    /// The time of both players' moves and of the move not yet made, by the
    /// wall clock.
    pub fn compute_total_elapsed_time(&self) -> (millis: u64)
        ensures
            exists|now: u64| millis as nat == self@.total_elapsed_time(now as nat),
    {
        self.total_elapsed_time_at(wall_clock_millis())
    }

    /// White's clock reading, by the wall clock.
    pub fn compute_white_used_time(&self) -> (millis: u64)
        ensures
            exists|now: u64| millis as nat == self@.used_time(Side::White, now as nat),
    {
        self.white_used_time_at(wall_clock_millis())
    }

    /// Black's clock reading, by the wall clock.
    pub fn compute_black_used_time(&self) -> (millis: u64)
        ensures
            exists|now: u64| millis as nat == self@.used_time(Side::Black, now as nat),
    {
        self.black_used_time_at(wall_clock_millis())
    }

    /// Whether White has used more than the time limit, by the wall clock.
    pub fn is_white_time_over(&self) -> (over: bool)
        ensures
            exists|now: u64| over == self@.time_over(Side::White, now as nat),
    {
        self.is_white_time_over_at(wall_clock_millis())
    }

    /// Whether Black has used more than the time limit, by the wall clock.
    pub fn is_black_time_over(&self) -> (over: bool)
        ensures
            exists|now: u64| over == self@.time_over(Side::Black, now as nat),
    {
        self.is_black_time_over_at(wall_clock_millis())
    }

    /// Whether the player to move is checkmated in the current position.
    pub fn is_checkmate(&self) -> (mate: bool)
        ensures
            mate == is_mate(self@.current_position()),
    {
        proof {
            lemma_take_all(self@.moves);
        }
        let board = self.replay(self.moves.len());
        mate_in(&board)
    }
}

} // verus!
