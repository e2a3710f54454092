//! A played move: its notation and the time its player spent on it.

use vstd::prelude::*;

verus! {

/// A move as the session records it.
#[derive(Debug)]
pub struct Move {
    uci_move: String,
    time_taken: u32,
}

/// What a `Move` stands for: the UCI text of the move and the milliseconds
/// that its player took before committing it.
pub struct MoveView {
    pub uci_move: Seq<char>,
    pub time_taken: nat,
}

impl View for Move {
    type V = MoveView;

    closed spec fn view(&self) -> MoveView {
        MoveView { uci_move: self.uci_move@, time_taken: self.time_taken as nat }
    }
}

impl Move {
    /// A record of the move `uci_move`, made after `time_taken` milliseconds.
    pub fn new(uci_move: String, time_taken: u32) -> (mov: Move)
        ensures
            mov@ == (MoveView { uci_move: uci_move@, time_taken: time_taken as nat }),
    {
        Move { uci_move, time_taken }
    }

    /// The move in UCI notation.
    pub fn uci_move(&self) -> (text: &str)
        ensures
            text@ == self@.uci_move,
    {
        self.uci_move.as_str()
    }

    /// The milliseconds spent on the move.
    pub fn time_taken(&self) -> (millis: u32)
        ensures
            millis as nat == self@.time_taken,
    {
        self.time_taken
    }
}

impl Clone for Move {
    fn clone(&self) -> (copy: Move)
        ensures
            copy@ == self@,
    {
        Move { uci_move: self.uci_move.clone(), time_taken: self.time_taken }
    }
}

/// The views of a sequence of moves, in order.
pub open spec fn moves_view(moves: Seq<Move>) -> Seq<MoveView> {
    moves.map_values(|m: Move| m@)
}

} // verus!
