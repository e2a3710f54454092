//! Why a change to a session was refused.

use vstd::prelude::*;
use vstd::string::StringExecFns;

verus! {

/// A refused change. The session is as it was before the call.
#[derive(Clone, Copy, Debug, PartialEq, Eq, Structural)]
pub enum SessionError {
    /// The move is not legal in the current position.
    IllegalMove,
    /// There is no move to take back.
    EmptyHistory,
}

impl SessionError {
    /// The text that describes the error.
    pub open spec fn message_spec(self) -> Seq<char> {
        match self {
            SessionError::IllegalMove => "Tried playing an illegal move"@,
            SessionError::EmptyHistory => "Tried undoing a move when there are no moves to undo"@,
        }
    }

    /// The text that describes the error.
    pub fn message(&self) -> (text: String)
        ensures
            text@ == self.message_spec(),
    {
        match self {
            SessionError::IllegalMove => String::from_str("Tried playing an illegal move"),
            SessionError::EmptyHistory => String::from_str(
                "Tried undoing a move when there are no moves to undo",
            ),
        }
    }
}

} // verus!
