//! A handle on an acquired transition window with direct access to the
//! storage cell.

use crate::concurrent_option::ConcurrentOption;
use crate::states::{EMPTY, IN_TRANSITION, OCCUPIED};
use vstd::prelude::*;

verus! {

/// A held transition window over a slot.
///
/// While the handle lives, the slot's tag reads in-transition and the handle
/// owns the storage cell.  Releasing the handle publishes the terminal tag
/// that was chosen when the handle was acquired.  The release is an explicit
/// call here, so that it can carry the contract that ends the window.
pub struct MutHandle<'a, T> {
    /// The slot's tag, held for the duration of the window.
    pub state: &'a mut u8,
    /// The terminal tag to publish when the handle is released.
    pub success_state: u8,
    /// Direct access to the slot's storage cell; the holder of the window
    /// reads and writes the cell through this field.
    pub value: &'a mut Option<T>,
}

impl<'a, T> MutHandle<'a, T> {
    /// Acquires a transition window over `option` if its tag reads
    /// `initial_state`; the retry of a contended tag can never run under an
    /// exclusive borrow, so the single attempt decides.
    pub(crate) fn spin_get(
        option: &'a mut ConcurrentOption<T>,
        initial_state: u8,
        success_state: u8,
    ) -> (r: Option<MutHandle<'a, T>>)
        requires
            old(option).wf(),
        ensures
            (r is Some) == (old(option).state == initial_state),
            r is None ==> *final(option) == *old(option),
            r is Some ==> {
                let h = r->0;
                &&& *h.state == IN_TRANSITION
                &&& h.success_state == success_state
                &&& *h.value == old(option).value
                &&& *final(option) == (ConcurrentOption {
                    value: *final(h.value),
                    state: *final(h.state),
                })
            },
    {
        if option.state == initial_state {
            option.state = IN_TRANSITION;
            Some(
                MutHandle {
                    state: &mut option.state,
                    success_state,
                    value: &mut option.value,
                },
            )
        } else {
            None
        }
    }

    /// Ends the transition window: publishes the success tag chosen at
    /// acquisition.  The cell must agree with the tag being published, so
    /// the slot behind the handle comes out well formed.
    pub fn release(self)
        requires
            *self.state == IN_TRANSITION,
            self.success_state == EMPTY || self.success_state == OCCUPIED,
            (self.success_state == OCCUPIED) <==> (*self.value) is Some,
        ensures
            *final(self.state) == self.success_state,
            *final(self.value) == *old(self.value),
    {
        *self.state = self.success_state;
    }
}

impl<T> ConcurrentOption<T> {
    /// Acquires a transition window on this slot: the tag must read
    /// `initial_state` for the acquisition to succeed, and releasing the
    /// returned handle publishes `success_state`.
    pub fn mut_handle(&mut self, initial_state: u8, success_state: u8) -> (r: Option<
        MutHandle<'_, T>,
    >)
        requires
            old(self).wf(),
        ensures
            (r is Some) == (old(self).state == initial_state),
            r is None ==> *final(self) == *old(self),
            r is Some ==> {
                let h = r->0;
                &&& *h.state == IN_TRANSITION
                &&& h.success_state == success_state
                &&& *h.value == old(self).value
                &&& *final(self) == (ConcurrentOption {
                    value: *final(h.value),
                    state: *final(h.state),
                })
            },
    {
        MutHandle::spin_get(self, initial_state, success_state)
    }
}

} // verus!
