//! Construction of a slot, occupied or empty.

use crate::concurrent_option::ConcurrentOption;
use crate::states::{EMPTY, OCCUPIED};
use vstd::prelude::*;

verus! {

impl<T> ConcurrentOption<T> {
    /// Creates a slot that holds `value`.
    pub fn some(value: T) -> (r: Self)
        ensures
            r.wf(),
            r@ == Some(value),
    {
        Self { value: Some(value), state: OCCUPIED }
    }

    /// Creates an empty slot.
    pub fn none() -> (r: Self)
        ensures
            r.wf(),
            r@ is None,
    {
        Self { value: None, state: EMPTY }
    }
}

} // verus!
