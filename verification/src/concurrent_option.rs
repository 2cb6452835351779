//! The slot type and its guarded transition protocol.

use crate::states::{EMPTY, IN_TRANSITION, OCCUPIED};
use vstd::prelude::*;

verus! {

/// An optional-value slot guarded by a tri-state tag.
///
/// The tag is the single source of truth for whether the storage holds a
/// value: the slot is well formed exactly when the tag reads occupied and the
/// storage is full, or the tag reads empty and the storage is empty.  Every
/// mutating primitive drives the tag through the in-transition state while it
/// touches the storage, and publishes a terminal tag before it returns.
#[derive(Debug, Ord)]
pub struct ConcurrentOption<T> {
    /// The storage cell: holds the value exactly while the tag is occupied.
    pub value: Option<T>,
    /// The tri-state tag governing the storage cell.
    pub state: u8,
}

impl<T> View for ConcurrentOption<T> {
    type V = Option<T>;

    open spec fn view(&self) -> Option<T> {
        self.value
    }
}

impl<T> ConcurrentOption<T> {
    /// Well-formedness: the tag agrees with the storage, which also rules
    /// out a tag left in transition.
    pub open spec fn wf(&self) -> bool {
        &&& (self.state == OCCUPIED <==> self.value is Some)
        &&& (self.state == EMPTY <==> self.value is None)
    }

    /// First half of the transition guard: a compare-and-swap of the tag from
    /// `initial_state` to the in-transition tag.  Succeeds exactly when the
    /// tag read `initial_state`; on success the caller holds the transition
    /// window until it calls [`Self::release_handle`].
    pub(crate) fn get_handle(&mut self, initial_state: u8) -> (entered: bool)
        requires
            old(self).wf(),
        ensures
            entered == (old(self).state == initial_state),
            entered ==> final(self).state == IN_TRANSITION && final(self).value == old(
                self,
            ).value,
            !entered ==> *final(self) == *old(self),
    {
        if self.state == initial_state {
            self.state = IN_TRANSITION;
            true
        } else {
            false
        }
    }

    /// Variant of [`Self::get_handle`] that would retry while the tag is in
    /// transition.  Exclusive access to the slot means a transition window
    /// held elsewhere cannot exist, so the retry loop can never run and the
    /// single attempt already decides.
    #[inline(always)]
    pub(crate) fn spin_get_handle(&mut self, initial_state: u8) -> (entered: bool)
        requires
            old(self).wf(),
        ensures
            entered == (old(self).state == initial_state),
            entered ==> final(self).state == IN_TRANSITION && final(self).value == old(
                self,
            ).value,
            !entered ==> *final(self) == *old(self),
    {
        self.get_handle(initial_state)
    }

    /// Second half of the transition guard: publishes the terminal tag
    /// `success_state` chosen by the holder of the transition window.  The
    /// storage must already agree with the tag being published, so the slot
    /// comes out well formed.
    pub(crate) fn release_handle(&mut self, success_state: u8)
        requires
            old(self).state == IN_TRANSITION,
            success_state == EMPTY || success_state == OCCUPIED,
            (success_state == OCCUPIED) <==> old(self).value is Some,
        ensures
            final(self).value == old(self).value,
            final(self).wf(),
    {
        self.state = success_state;
    }
}

} // verus!
