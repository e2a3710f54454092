//! The mathematical model of a session: the position that a history leads to,
//! the player each move is charged to, and the sums of time that follow.
//!
//! Everything here is a function of the initial position's notation and the
//! sequence of recorded moves. A move is charged to the player who is *not* to
//! move in the position that results from it.

use vstd::prelude::*;
use crate::engine::uci_outcome;
use crate::position::{moves_fit, side_to_move};
use crate::side::Side;
use crate::moves::MoveView;

verus! {

/// The notation after the engine has been asked to play `uci_move` in the
/// position `notation`: the new position where the move is legal, the old one
/// where it is not.
pub open spec fn step(notation: Seq<char>, uci_move: Seq<char>) -> Seq<char> {
    match uci_outcome(notation, uci_move) {
        Some(next) => next,
        None => notation,
    }
}

/// The position reached from `initial` by replaying all of `moves` in order.
pub open spec fn final_position(initial: Seq<char>, moves: Seq<MoveView>) -> Seq<char>
    decreases moves.len(),
{
    if moves.len() == 0 {
        initial
    } else {
        step(final_position(initial, moves.drop_last()), moves.last().uci_move)
    }
}

/// The number of moves replayed for a target turn: the turn itself, capped by
/// the length of the history.
pub open spec fn replayed(moves: Seq<MoveView>, turn: nat) -> int {
    if turn <= moves.len() {
        turn as int
    } else {
        moves.len() as int
    }
}

/// The position after the first `turn` moves; turn 0 is the initial position,
/// and a turn beyond the history is the final position.
pub open spec fn position_at(initial: Seq<char>, moves: Seq<MoveView>, turn: nat) -> Seq<char> {
    final_position(initial, moves.take(replayed(moves, turn)))
}

/// The player that the last move of a non-empty history is charged to: the
/// opponent of the player to move once it has been played.
pub open spec fn last_mover(initial: Seq<char>, moves: Seq<MoveView>) -> Side {
    side_to_move(final_position(initial, moves)).opponent_spec()
}

/// The player that move `index` of the history is charged to.
pub open spec fn charged_to(initial: Seq<char>, moves: Seq<MoveView>, index: int) -> Side
    recommends
        0 <= index < moves.len(),
{
    last_mover(initial, moves.take(index + 1))
}

/// Whether every move of the history was legal in the position it was played
/// in.
pub open spec fn history_is_legal(initial: Seq<char>, moves: Seq<MoveView>) -> bool {
    forall|i: int|
        0 <= i < moves.len() ==> (#[trigger] uci_outcome(
            final_position(initial, moves.take(i)),
            moves[i].uci_move,
        )).is_some()
}

/// Whether the moves of every position along the history, from the initial
/// position to the last, are sure to fit the engine's list of moves.
pub open spec fn history_has_room(initial: Seq<char>, moves: Seq<MoveView>) -> bool {
    forall|k: int|
        0 <= k <= moves.len() ==> moves_fit(final_position(initial, #[trigger] moves.take(k)))
}

/// The time of all moves, whoever made them.
pub open spec fn total_time(moves: Seq<MoveView>) -> nat
    decreases moves.len(),
{
    if moves.len() == 0 {
        0
    } else {
        total_time(moves.drop_last()) + moves.last().time_taken
    }
}

/// The time of the moves charged to `side`, with no increment taken off.
pub open spec fn pure_time(initial: Seq<char>, moves: Seq<MoveView>, side: Side) -> nat
    decreases moves.len(),
{
    if moves.len() == 0 {
        0
    } else if last_mover(initial, moves) == side {
        pure_time(initial, moves.drop_last(), side) + moves.last().time_taken
    } else {
        pure_time(initial, moves.drop_last(), side)
    }
}

/// A running total after the increment has been credited: the total less the
/// increment, and zero where the total is smaller than the increment.
pub open spec fn discounted(total: nat, increment: nat) -> nat {
    if total >= increment {
        (total - increment) as nat
    } else {
        0
    }
}

/// The time charged to `side` under the increment: after each of the side's
/// moves its time is added to the running total and the increment is credited
/// at once, never taking the total below zero.
pub open spec fn time_with_increment(
    initial: Seq<char>,
    moves: Seq<MoveView>,
    side: Side,
    increment: nat,
) -> nat
    decreases moves.len(),
{
    if moves.len() == 0 {
        0
    } else if last_mover(initial, moves) == side {
        discounted(
            time_with_increment(initial, moves.drop_last(), side, increment)
                + moves.last().time_taken,
            increment,
        )
    } else {
        time_with_increment(initial, moves.drop_last(), side, increment)
    }
}

/// One running total over all moves, with the increment credited after each.
pub open spec fn total_time_with_increment(moves: Seq<MoveView>, increment: nat) -> nat
    decreases moves.len(),
{
    if moves.len() == 0 {
        0
    } else {
        discounted(
            total_time_with_increment(moves.drop_last(), increment) + moves.last().time_taken,
            increment,
        )
    }
}

/// The time spent so far on the move that has not been made yet: what has
/// passed at `now` since the start plus the time of all moves made. A clock
/// that reads earlier than that gives zero.
pub open spec fn in_flight_time(start_time: nat, spent: nat, now: nat) -> nat {
    if now >= start_time + spent {
        (now - (start_time + spent)) as nat
    } else {
        0
    }
}

/// What a session stands for.
pub struct SessionView {
    /// The notation of the position the game started from.
    pub initial: Seq<char>,
    /// The moves played, oldest first.
    pub moves: Seq<MoveView>,
    /// The clock reading, in milliseconds, at which the session was created.
    pub start_time: nat,
    /// The time each player has for the game, in milliseconds.
    pub time_limit: nat,
    /// The milliseconds credited to a player after each of their moves.
    pub increment: nat,
}

impl SessionView {
    /// The position after all moves played.
    pub open spec fn current_position(self) -> Seq<char> {
        final_position(self.initial, self.moves)
    }

    /// The position after the first `turn` moves.
    pub open spec fn position_at(self, turn: nat) -> Seq<char> {
        position_at(self.initial, self.moves, turn)
    }

    /// The player to move now.
    pub open spec fn turn(self) -> Side {
        side_to_move(self.current_position())
    }

    /// Whether `uci_move` is legal in the current position.
    pub open spec fn accepts(self, uci_move: Seq<char>) -> bool {
        uci_outcome(self.current_position(), uci_move).is_some()
    }

    /// Whether every recorded move was legal where it was played.
    pub open spec fn history_is_legal(self) -> bool {
        history_is_legal(self.initial, self.moves)
    }

    /// The time of the moves charged to `side`, without increment.
    pub open spec fn pure_time(self, side: Side) -> nat {
        pure_time(self.initial, self.moves, side)
    }

    /// The time of all moves.
    pub open spec fn total_pure_time(self) -> nat {
        total_time(self.moves)
    }

    /// The time charged to `side` with the increment credited after each of
    /// its moves.
    pub open spec fn time_with_increment(self, side: Side) -> nat {
        time_with_increment(self.initial, self.moves, side, self.increment)
    }

    /// One running total over all moves with the increment credited after
    /// each.
    pub open spec fn total_time_with_increment(self) -> nat {
        total_time_with_increment(self.moves, self.increment)
    }

    /// The time spent at `now` on the move not yet made.
    pub open spec fn current_move_time(self, now: nat) -> nat {
        in_flight_time(self.start_time, self.total_pure_time(), now)
    }

    /// The time of both players' moves and of the move not yet made.
    pub open spec fn total_elapsed_time(self, now: nat) -> nat {
        self.pure_time(Side::Black) + self.pure_time(Side::White) + self.current_move_time(now)
    }

    /// The clock reading of `side` at `now`: its time with increment, and the
    /// time of the move not yet made where that move is the side's own.
    pub open spec fn used_time(self, side: Side, now: nat) -> nat {
        if self.turn() == side {
            self.time_with_increment(side) + self.current_move_time(now)
        } else {
            self.time_with_increment(side)
        }
    }

    /// Whether `side` has used more than the time limit at `now`.
    pub open spec fn time_over(self, side: Side, now: nat) -> bool {
        self.used_time(side, now) > self.time_limit
    }

    /// The session with `mov` appended to its history.
    pub open spec fn with_move(self, mov: MoveView) -> SessionView {
        SessionView { moves: self.moves.push(mov), ..self }
    }

    /// The session with the last move taken off its history.
    pub open spec fn without_last_move(self) -> SessionView {
        SessionView { moves: self.moves.drop_last(), ..self }
    }
}

/// The first `k + 1` moves are the first `k` moves and then move `k`.
pub proof fn lemma_prefix_step(moves: Seq<MoveView>, k: int)
    requires
        0 <= k < moves.len(),
    ensures
        moves.take(k + 1).len() == k + 1,
        moves.take(k + 1).drop_last() == moves.take(k),
        moves.take(k + 1).last() == moves[k],
{
    assert(moves.take(k + 1).drop_last() =~= moves.take(k));
}

/// Replaying one move more: the position after `k + 1` moves is one step from
/// the position after `k`.
pub proof fn lemma_position_step(initial: Seq<char>, moves: Seq<MoveView>, k: int)
    requires
        0 <= k < moves.len(),
    ensures
        final_position(initial, moves.take(k + 1)) == step(
            final_position(initial, moves.take(k)),
            moves[k].uci_move,
        ),
{
    lemma_prefix_step(moves, k);
}

/// The whole history is its own longest prefix.
pub proof fn lemma_take_all(moves: Seq<MoveView>)
    ensures
        moves.take(moves.len() as int) == moves,
{
    assert(moves.take(moves.len() as int) =~= moves);
}

/// A legal history stays legal when a move is added that the position it
/// leads to accepts.
pub proof fn lemma_legal_history_push(initial: Seq<char>, moves: Seq<MoveView>, mov: MoveView)
    requires
        history_is_legal(initial, moves),
        uci_outcome(final_position(initial, moves), mov.uci_move).is_some(),
    ensures
        history_is_legal(initial, moves.push(mov)),
{
    let longer = moves.push(mov);
    assert forall|i: int| 0 <= i < longer.len() implies (#[trigger] uci_outcome(
        final_position(initial, longer.take(i)),
        longer[i].uci_move,
    )).is_some() by {
        assert(longer.take(i) =~= moves.take(i));
        if i == moves.len() {
            lemma_take_all(moves);
        }
    }
}

/// A legal history stays legal when its last move is taken off.
pub proof fn lemma_legal_history_drop_last(initial: Seq<char>, moves: Seq<MoveView>)
    requires
        history_is_legal(initial, moves),
        moves.len() > 0,
    ensures
        history_is_legal(initial, moves.drop_last()),
{
    let shorter = moves.drop_last();
    assert forall|i: int| 0 <= i < shorter.len() implies (#[trigger] uci_outcome(
        final_position(initial, shorter.take(i)),
        shorter[i].uci_move,
    )).is_some() by {
        assert(shorter.take(i) =~= moves.take(i));
    }
}

/// A history with room keeps it when a move is added that leads to a position
/// whose moves fit.
pub proof fn lemma_room_push(initial: Seq<char>, moves: Seq<MoveView>, mov: MoveView)
    requires
        history_has_room(initial, moves),
        moves_fit(final_position(initial, moves.push(mov))),
    ensures
        history_has_room(initial, moves.push(mov)),
{
    let longer = moves.push(mov);
    assert forall|k: int| 0 <= k <= longer.len() implies moves_fit(
        final_position(initial, #[trigger] longer.take(k)),
    ) by {
        if k == longer.len() {
            lemma_take_all(longer);
        } else {
            assert(longer.take(k) =~= moves.take(k));
        }
    }
}

/// A history with room keeps it when its last move is taken off.
pub proof fn lemma_room_drop_last(initial: Seq<char>, moves: Seq<MoveView>)
    requires
        history_has_room(initial, moves),
        moves.len() > 0,
    ensures
        history_has_room(initial, moves.drop_last()),
{
    let shorter = moves.drop_last();
    assert forall|k: int| 0 <= k <= shorter.len() implies moves_fit(
        final_position(initial, #[trigger] shorter.take(k)),
    ) by {
        assert(shorter.take(k) =~= moves.take(k));
    }
}

/// A history with no move has room where the moves of the initial position
/// fit.
pub proof fn lemma_room_empty(initial: Seq<char>, moves: Seq<MoveView>)
    requires
        moves.len() == 0,
        moves_fit(initial),
    ensures
        history_has_room(initial, moves),
{
    assert forall|k: int| 0 <= k <= moves.len() implies moves_fit(
        final_position(initial, #[trigger] moves.take(k)),
    ) by {
        assert(moves.take(k) =~= moves);
    }
}

/// The time of a prefix of the history is at most the time of all of it.
pub proof fn lemma_total_time_prefix(moves: Seq<MoveView>, k: int)
    requires
        0 <= k <= moves.len(),
    ensures
        total_time(moves.take(k)) <= total_time(moves),
    decreases moves.len(),
{
    if k == moves.len() {
        lemma_take_all(moves);
    } else {
        assert(moves.drop_last().take(k) =~= moves.take(k));
        lemma_total_time_prefix(moves.drop_last(), k);
    }
}

/// The pure times of the two players add up to the time of all moves.
pub proof fn lemma_pure_time_split(initial: Seq<char>, moves: Seq<MoveView>)
    ensures
        pure_time(initial, moves, Side::White) + pure_time(initial, moves, Side::Black)
            == total_time(moves),
    decreases moves.len(),
{
    if moves.len() > 0 {
        lemma_pure_time_split(initial, moves.drop_last());
    }
}

/// A player's pure time is at most the time of all moves.
pub proof fn lemma_pure_time_bound(initial: Seq<char>, moves: Seq<MoveView>, side: Side)
    ensures
        pure_time(initial, moves, side) <= total_time(moves),
    decreases moves.len(),
{
    if moves.len() > 0 {
        lemma_pure_time_bound(initial, moves.drop_last(), side);
    }
}

/// Crediting the increment never charges a player more than the player's
/// moves took.
pub proof fn lemma_time_with_increment_bound(
    initial: Seq<char>,
    moves: Seq<MoveView>,
    side: Side,
    increment: nat,
)
    ensures
        time_with_increment(initial, moves, side, increment) <= pure_time(initial, moves, side),
    decreases moves.len(),
{
    if moves.len() > 0 {
        lemma_time_with_increment_bound(initial, moves.drop_last(), side, increment);
    }
}

/// The single running total with increment is at most the time of all moves.
pub proof fn lemma_total_time_with_increment_bound(moves: Seq<MoveView>, increment: nat)
    ensures
        total_time_with_increment(moves, increment) <= total_time(moves),
    decreases moves.len(),
{
    if moves.len() > 0 {
        lemma_total_time_with_increment_bound(moves.drop_last(), increment);
    }
}

} // verus!
