//! The primitive mutating operations: each one acquires the transition
//! guard, touches the storage cell, and publishes a terminal tag.

use crate::concurrent_option::ConcurrentOption;
use crate::laws::{initialize_accepted, initialize_step};
use crate::states::{EMPTY, OCCUPIED};
use vstd::prelude::*;

verus! {

impl<T> ConcurrentOption<T> {
    /// Initializes the slot with `value` if it is empty.
    ///
    /// Succeeds, returning `true`, exactly when the slot was empty; an
    /// occupied slot is left untouched, `value` is discarded, and the call
    /// returns `false`.  This operation never retries a contended tag: a
    /// mismatch is answered at once.
    pub fn initialize_if_none(&mut self, value: T) -> (inserted: bool)
        requires
            old(self).wf(),
        ensures
            final(self).wf(),
            inserted == initialize_accepted(old(self)@),
            final(self)@ == initialize_step(old(self)@, value),
            !inserted ==> *final(self) == *old(self),
    {
        if self.get_handle(EMPTY) {
            self.value = Some(value);
            self.release_handle(OCCUPIED);
            true
        } else {
            false
        }
    }

    /// Initializes the slot with `value` without negotiating the tag.
    ///
    /// The slot must be empty: this writes the storage directly and then
    /// stores the occupied tag, skipping the transition guard.
    pub fn initialize_unchecked(&mut self, value: T)
        requires
            old(self).wf(),
            old(self)@ is None,
        ensures
            final(self).wf(),
            final(self)@ == Some(value),
    {
        self.value = Some(value);
        self.state = OCCUPIED;
    }

    /// Applies `f` to a mutable reference to the value if the slot is
    /// occupied, in place, under the transition guard.  Returns whether the
    /// slot held a value; an empty slot is left untouched.
    pub fn update_if_some<F: FnOnce(&mut T)>(&mut self, f: F) -> (updated: bool)
        requires
            old(self).wf(),
            forall|v: &mut T| *v == old(self)@->0 ==> call_requires(f, (v,)),
        ensures
            final(self).wf(),
            updated == (old(self)@ is Some),
            old(self)@ is None ==> *final(self) == *old(self),
            old(self)@ is Some ==> exists|v: &mut T|
                {
                    &&& *v == old(self)@->0
                    &&& call_ensures(f, (v,), ())
                    &&& final(self)@ == Some(*final(v))
                },
    {
        if self.spin_get_handle(OCCUPIED) {
            let x = self.value.as_mut().unwrap();
            f(x);
            self.release_handle(OCCUPIED);
            true
        } else {
            false
        }
    }

    /// Takes the value out of an occupied slot, leaving it empty; an empty
    /// slot is left untouched, with its tag unchanged, and `None` is
    /// returned.
    pub fn take(&mut self) -> (r: Option<T>)
        requires
            old(self).wf(),
        ensures
            final(self).wf(),
            r == old(self)@,
            final(self)@ is None,
            old(self)@ is None ==> *final(self) == *old(self),
    {
        if self.spin_get_handle(OCCUPIED) {
            let value = self.value.take();
            self.release_handle(EMPTY);
            value
        } else {
            None
        }
    }

    /// Takes the value out of an occupied slot only if `predicate`, applied
    /// to a mutable reference to the value, answers `true`.
    ///
    /// The terminal tag is chosen only inside the transition window, by the
    /// answer of the predicate: `true` empties the slot and hands the value
    /// back, `false` keeps the possibly mutated value in place and hands
    /// back `None`.  An empty slot is left untouched.
    pub fn take_if<P: FnOnce(&mut T) -> bool>(&mut self, predicate: P) -> (r: Option<T>)
        requires
            old(self).wf(),
            forall|v: &mut T| *v == old(self)@->0 ==> call_requires(predicate, (v,)),
        ensures
            final(self).wf(),
            old(self)@ is None ==> r is None && *final(self) == *old(self),
            old(self)@ is Some ==> exists|v: &mut T, verdict: bool|
                {
                    &&& *v == old(self)@->0
                    &&& call_ensures(predicate, (v,), verdict)
                    &&& (verdict ==> r == Some(*final(v)) && final(self)@ is None)
                    &&& (!verdict ==> r is None && final(self)@ == Some(*final(v)))
                },
    {
        if self.spin_get_handle(OCCUPIED) {
            let x = self.value.as_mut().unwrap();
            let verdict = predicate(x);
            if verdict {
                let out = self.value.take();
                self.release_handle(EMPTY);
                out
            } else {
                self.release_handle(OCCUPIED);
                None
            }
        } else {
            None
        }
    }

    /// Replaces the slot's contents with `value`, returning the displaced
    /// value if the slot was occupied.  Tries the occupied-to-occupied entry
    /// first and the empty-to-occupied entry second; under exclusive access
    /// one of the two always succeeds.
    pub fn replace(&mut self, value: T) -> (old_value: Option<T>)
        requires
            old(self).wf(),
        ensures
            final(self).wf(),
            final(self)@ == Some(value),
            old_value == old(self)@,
    {
        if self.spin_get_handle(OCCUPIED) {
            let old_value = self.value.take();
            self.value = Some(value);
            self.release_handle(OCCUPIED);
            old_value
        } else {
            let _entered = self.get_handle(EMPTY);
            self.value = Some(value);
            self.release_handle(OCCUPIED);
            None
        }
    }

    /// Inserts `value` into the slot, dropping any previous value, and
    /// returns a mutable reference to the stored value.
    pub fn insert(&mut self, value: T) -> (r: &mut T)
        requires
            old(self).wf(),
        ensures
            *r == value,
            final(self)@ == Some(*final(r)),
            final(self).wf(),
    {
        if self.spin_get_handle(OCCUPIED) {
            self.value = Some(value);
            self.release_handle(OCCUPIED);
        } else {
            let _entered = self.get_handle(EMPTY);
            self.value = Some(value);
            self.release_handle(OCCUPIED);
        }
        self.value.as_mut().unwrap()
    }

    /// Inserts `value` into the slot if it is empty, then returns a mutable
    /// reference to the stored value.
    pub fn get_or_insert(&mut self, value: T) -> (r: &mut T)
        requires
            old(self).wf(),
        ensures
            *r == (match old(self)@ {
                Some(x) => x,
                None => value,
            }),
            final(self)@ == Some(*final(r)),
            final(self).wf(),
    {
        if self.spin_get_handle(OCCUPIED) {
            self.release_handle(OCCUPIED);
        } else {
            let _entered = self.get_handle(EMPTY);
            self.value = Some(value);
            self.release_handle(OCCUPIED);
        }
        self.value.as_mut().unwrap()
    }

    /// Inserts the value computed by `f` into the slot if it is empty, then
    /// returns a mutable reference to the stored value.  `f` is invoked at
    /// most once, only on the empty path.
    pub fn get_or_insert_with<F: FnOnce() -> T>(&mut self, f: F) -> (r: &mut T)
        requires
            old(self).wf(),
            old(self)@ is None ==> call_requires(f, ()),
        ensures
            (match old(self)@ {
                Some(x) => *r == x,
                None => call_ensures(f, (), *r),
            }),
            final(self)@ == Some(*final(r)),
            final(self).wf(),
    {
        if self.spin_get_handle(OCCUPIED) {
            self.release_handle(OCCUPIED);
        } else {
            let _entered = self.get_handle(EMPTY);
            self.value = Some(f());
            self.release_handle(OCCUPIED);
        }
        self.value.as_mut().unwrap()
    }
}

} // verus!
