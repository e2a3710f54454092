//! The two players.

use vstd::prelude::*;

verus! {

/// One of the two players.
#[derive(Clone, Copy, Debug, PartialEq, Eq, Structural)]
pub enum Side {
    White,
    Black,
}

impl Side {
    /// The other player.
    pub open spec fn opponent_spec(self) -> Side {
        match self {
            Side::White => Side::Black,
            Side::Black => Side::White,
        }
    }

    /// The other player.
    #[verifier::when_used_as_spec(opponent_spec)]
    pub fn opponent(self) -> (other: Side)
        ensures
            other == self.opponent_spec(),
    {
        match self {
            Side::White => Side::Black,
            Side::Black => Side::White,
        }
    }
}

} // verus!
