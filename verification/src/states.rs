//! The tri-state tag that governs the slot.

use vstd::prelude::*;

verus! {

/// Tag value of a slot that holds no value.
pub const EMPTY: u8 = 0;

/// Tag value of a slot whose value is being transitioned.
pub const IN_TRANSITION: u8 = 1;

/// Tag value of a slot that holds a value.
pub const OCCUPIED: u8 = 2;

/// The state of the slot, as read from its tag.
#[derive(Debug, Clone, Copy, PartialEq, Eq, Structural)]
pub enum State {
    /// The slot has no value.
    Empty,
    /// The slot holds a value.
    Occupied,
    /// The slot is currently reserved for a mutation.
    InTransition,
}

impl State {
    /// Decodes a raw tag byte into a [`State`].
    pub fn new(state: u8) -> (s: State)
        requires
            state == EMPTY || state == IN_TRANSITION || state == OCCUPIED,
        ensures
            s == (if state == EMPTY {
                State::Empty
            } else if state == OCCUPIED {
                State::Occupied
            } else {
                State::InTransition
            }),
    {
        if state == EMPTY {
            State::Empty
        } else if state == OCCUPIED {
            State::Occupied
        } else {
            State::InTransition
        }
    }
}

} // verus!
