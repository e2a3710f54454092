//! What holds of every session, proved over the model in `accounting`.
//!
//! The session's functions are specified by that model, so each law here is a
//! law of what they return.

use vstd::prelude::*;
use pleco::Board;
use crate::accounting::{
    charged_to, discounted, lemma_legal_history_drop_last, lemma_legal_history_push,
    lemma_pure_time_split, lemma_take_all, pure_time, step, time_with_increment, SessionView,
};
use crate::engine::{notation_of, parse_outcome, start_notation};
use crate::position::{after_first_space, playable, shape_is_safe, side_to_move};
use crate::moves::MoveView;
use crate::record::{loaded_position, restored};
use crate::side::Side;

verus! {

/// Before any move is played no time has been charged to anybody, the
/// current position is the initial one (so the session is checkmate exactly
/// when the initial position is), and a player's clock reads zero unless that
/// player is to move and the clock has gone past the start: then it reads the
/// time since the start.
pub proof fn law_fresh_session(session: SessionView, side: Side, now: nat)
    requires
        session.moves.len() == 0,
    ensures
        session.pure_time(side) == 0,
        session.total_pure_time() == 0,
        session.time_with_increment(side) == 0,
        session.total_time_with_increment() == 0,
        session.current_position() == session.initial,
        session.turn() != side || now <= session.start_time ==> session.used_time(side, now) == 0,
        session.turn() == side && now > session.start_time ==> session.used_time(side, now) == now
            - session.start_time,
{
}

/// The time of all moves is the pure time of White's moves and the pure time
/// of Black's moves together.
pub proof fn law_pure_times_add_up(session: SessionView)
    ensures
        session.total_pure_time() == session.pure_time(Side::White) + session.pure_time(
            Side::Black,
        ),
{
    lemma_pure_time_split(session.initial, session.moves);
}

/// A player to whom no move is charged has no time charged.
proof fn lemma_nothing_charged(
    initial: Seq<char>,
    moves: Seq<MoveView>,
    side: Side,
    increment: nat,
)
    requires
        forall|j: int| 0 <= j < moves.len() ==> charged_to(initial, moves, j) != side,
    ensures
        time_with_increment(initial, moves, side, increment) == 0,
        pure_time(initial, moves, side) == 0,
    decreases moves.len(),
{
    if moves.len() > 0 {
        let earlier = moves.drop_last();
        assert forall|j: int| 0 <= j < earlier.len() implies charged_to(initial, earlier, j)
            != side by {
            assert(earlier.take(j + 1) =~= moves.take(j + 1));
            assert(charged_to(initial, moves, j) != side);
        }
        lemma_nothing_charged(initial, earlier, side, increment);
        assert(moves.take(moves.len() as int) =~= moves);
        assert(charged_to(initial, moves, moves.len() - 1) != side);
    }
}

/// The floor of the increment: where exactly one move is charged to a player
/// and it took less than the increment, the player's time with increment is
/// zero.
pub proof fn law_increment_floor(session: SessionView, side: Side, index: int)
    requires
        0 <= index < session.moves.len(),
        charged_to(session.initial, session.moves, index) == side,
        forall|j: int|
            0 <= j < session.moves.len() && j != index ==> charged_to(
                session.initial,
                session.moves,
                j,
            ) != side,
        session.moves[index].time_taken < session.increment,
    ensures
        session.time_with_increment(side) == 0,
    decreases session.moves.len(),
{
    let moves = session.moves;
    let earlier = moves.drop_last();
    assert(moves.take(moves.len() as int) =~= moves);
    assert forall|j: int| 0 <= j < earlier.len() implies charged_to(session.initial, earlier, j)
        == charged_to(session.initial, moves, j) by {
        assert(earlier.take(j + 1) =~= moves.take(j + 1));
    }
    if index == moves.len() - 1 {
        lemma_nothing_charged(session.initial, earlier, side, session.increment);
    } else {
        assert(charged_to(session.initial, moves, moves.len() - 1) != side);
        law_increment_floor(SessionView { moves: earlier, ..session }, side, index);
    }
}

/// The turns of a session: turn zero is the initial position, and from the
/// length of the history on every turn is the current position.
pub proof fn law_turn_positions(session: SessionView, turn: nat)
    ensures
        session.position_at(0) == session.initial,
        turn >= session.moves.len() ==> session.position_at(turn) == session.current_position(),
{
    assert(session.moves.take(0) =~= Seq::empty());
    lemma_take_all(session.moves);
}

/// What a played move changes: the position moves one step on, the move's
/// time is added to the time of all moves and to the pure time of the player
/// it is charged to, and that player's running total is credited the
/// increment once. The other player's times stay as they were.
pub proof fn law_play_charges_the_mover(session: SessionView, mov: MoveView, side: Side)
    ensures
        ({
            let after = session.with_move(mov);
            let charged = after.turn() == side.opponent_spec();
            &&& after.current_position() == step(session.current_position(), mov.uci_move)
            &&& after.total_pure_time() == session.total_pure_time() + mov.time_taken
            &&& charged ==> after.pure_time(side) == session.pure_time(side) + mov.time_taken
            &&& charged ==> after.time_with_increment(side) == discounted(
                session.time_with_increment(side) + mov.time_taken,
                session.increment,
            )
            &&& !charged ==> after.pure_time(side) == session.pure_time(side)
            &&& !charged ==> after.time_with_increment(side) == session.time_with_increment(side)
        }),
{
    assert(session.moves.push(mov).drop_last() =~= session.moves);
}

/// Taking back a move that was just played gives the session as it was
/// before: the same history, move for move, and so the same position, the
/// same times for each player and the same clock readings.
pub proof fn law_undo_reverts_play(session: SessionView, mov: MoveView, side: Side, now: nat)
    ensures
        session.with_move(mov).moves.len() == session.moves.len() + 1,
        session.with_move(mov).without_last_move() == session,
        session.with_move(mov).without_last_move().moves == session.moves,
        session.with_move(mov).without_last_move().current_position()
            == session.current_position(),
        session.with_move(mov).without_last_move().pure_time(side) == session.pure_time(side),
        session.with_move(mov).without_last_move().total_pure_time() == session.total_pure_time(),
        session.with_move(mov).without_last_move().time_with_increment(side)
            == session.time_with_increment(side),
        session.with_move(mov).without_last_move().used_time(side, now) == session.used_time(
            side,
            now,
        ),
{
    assert(session.moves.push(mov).drop_last() =~= session.moves);
}

/// A session with no move played has a legal history, and playing a move
/// that the current position accepts, or taking the last move back, keeps
/// the history legal.
pub proof fn law_history_stays_legal(session: SessionView, mov: MoveView)
    ensures
        session.moves.len() == 0 ==> session.history_is_legal(),
        session.history_is_legal() && session.accepts(mov.uci_move) ==> session.with_move(
            mov,
        ).history_is_legal(),
        session.history_is_legal() && session.moves.len() > 0
            ==> session.without_last_move().history_is_legal(),
{
    if session.history_is_legal() && session.accepts(mov.uci_move) {
        lemma_legal_history_push(session.initial, session.moves, mov);
    }
    if session.history_is_legal() && session.moves.len() > 0 {
        lemma_legal_history_drop_last(session.initial, session.moves);
    }
}

/// A stored session whose notation the engine parses back to a board that
/// renders the same, and whose position and history fit a session, is loaded
/// as the session that was stored: `load` then gives a session with the
/// record's own view.
pub proof fn law_load_round_trip(record: SessionView)
    requires
        shape_is_safe(record.initial),
        parse_outcome(record.initial) == Some(record.initial),
        playable(record.initial),
    ensures
        loaded_position(record.initial) == Some(record.initial),
        (SessionView { initial: loaded_position(record.initial)->Some_0, ..record }) == record,
{
}

/// White is to move in the standard starting position.
pub proof fn law_white_moves_first()
    ensures
        side_to_move(start_notation()) == Side::White,
{
    reveal_strlit("rnbqkbnr/pppppppp/8/8/8/8/PPPPPPPP/RNBQKBNR w KQkq - 0 1");
    let text = start_notation();
    lemma_first_space(text, 43);
}

/// Where the first space of a text stands at `index`, the text after the
/// first space begins behind it.
proof fn lemma_first_space(text: Seq<char>, index: int)
    requires
        0 <= index < text.len(),
        text[index] == ' ',
        forall|i: int| 0 <= i < index ==> text[i] != ' ',
    ensures
        after_first_space(text) == text.skip(index + 1),
    decreases index,
{
    if index == 0 {
        assert(text.drop_first() =~= text.skip(1));
    } else {
        lemma_first_space(text.drop_first(), index - 1);
        assert(text.drop_first().skip(index) =~= text.skip(index + 1));
    }
}

/// Reading a stored session back keeps the history, the start time, the time
/// limit and the increment. Where the board that the engine parsed renders as
/// the stored notation, the session read back is the one that was stored,
/// current position included.
pub proof fn law_restore_keeps_record(record: SessionView, board: Board)
    ensures
        restored(record, board).moves == record.moves,
        restored(record, board).start_time == record.start_time,
        restored(record, board).time_limit == record.time_limit,
        restored(record, board).increment == record.increment,
        notation_of(board) == record.initial ==> restored(record, board) == record && restored(
            record,
            board,
        ).current_position() == record.current_position(),
{
}

} // verus!
