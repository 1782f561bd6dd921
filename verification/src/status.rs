//! The victory status of a finished game.

use vstd::prelude::*;

verus! {

/// The outcome of a game, always read from the point of view of the player
/// whose turn it is in the position being evaluated.
#[derive(Debug, Copy, Clone, PartialEq, Eq, Structural)]
pub enum Status {
    Win,
    Draw,
    Loss,
}

/// What an outcome for one player means for the other: `Win` and `Loss`
/// invert into each other, and `Draw` is its own inverse.
pub open spec fn spec_negate(status: Status) -> Status {
    match status {
        Status::Win => Status::Loss,
        Status::Draw => Status::Draw,
        Status::Loss => Status::Win,
    }
}

impl core::ops::Not for Status {
    type Output = Status;

    /// Returns the status as seen by the opposing player.
    fn not(self) -> (r: Status)
        ensures
            r == spec_negate(self),
    {
        match self {
            Status::Win => Status::Loss,
            Status::Draw => Status::Draw,
            Status::Loss => Status::Win,
        }
    }
}

impl vstd::std_specs::ops::NotSpecImpl for Status {
    open spec fn obeys_not_spec() -> bool {
        true
    }

    open spec fn not_req(self) -> bool {
        true
    }

    open spec fn not_spec(self) -> Status {
        spec_negate(self)
    }
}

} // verus!
