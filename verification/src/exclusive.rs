//! Operations that take the slot by exclusive borrow.  Exclusivity comes from
//! the type system, so these manipulate the tag directly instead of
//! negotiating the transition guard.

use crate::concurrent_option::ConcurrentOption;
use crate::states::{EMPTY, IN_TRANSITION, OCCUPIED};
use core::ops::DerefMut;
use vstd::prelude::*;

verus! {

impl<T> ConcurrentOption<T> {
    /// A mutable reference to the value, if the slot is occupied.
    pub fn exclusive_as_mut(&mut self) -> (r: Option<&mut T>)
        requires
            old(self).wf(),
        ensures
            old(self)@ is None ==> r is None && *final(self) == *old(self),
            old(self)@ is Some ==> r is Some && *r->0 == old(self)@->0 && final(self)@ == Some(
                *final(r->0),
            ) && final(self).wf(),
    {
        if self.state == OCCUPIED {
            self.value.as_mut()
        } else {
            None
        }
    }

    /// A mutable reference to the value's dereference target, if the slot is
    /// occupied.  Dereferencing carries no specification, so only the
    /// presence of the result and the slot's occupancy are pinned down here.
    pub fn exclusive_as_deref_mut(&mut self) -> (r: Option<
        &mut <T as core::ops::Deref>::Target,
    >) where T: core::ops::DerefMut
        requires
            old(self).wf(),
        ensures
            old(self)@ is None ==> r is None && *final(self) == *old(self),
            old(self)@ is Some ==> r is Some && final(self)@ is Some && final(self).wf(),
    {
        match self.exclusive_as_mut() {
            Some(x) => Some(x.deref_mut()),
            None => None,
        }
    }

    /// Takes the value out of an occupied slot, leaving it empty; an empty
    /// slot is left untouched and `None` is returned.
    pub fn exclusive_take(&mut self) -> (r: Option<T>)
        requires
            old(self).wf(),
        ensures
            final(self).wf(),
            r == old(self)@,
            final(self)@ is None,
            old(self)@ is None ==> *final(self) == *old(self),
    {
        if self.state == OCCUPIED {
            self.state = EMPTY;
            self.value.take()
        } else {
            None
        }
    }

    /// Takes the value out of an occupied slot only if `predicate`, applied
    /// to a mutable reference to the value, answers `true`; a `false` verdict
    /// keeps the (possibly mutated) value in place.
    pub fn exclusive_take_if<P: FnOnce(&mut T) -> bool>(&mut self, predicate: P) -> (r: Option<T>)
        requires
            old(self).wf(),
            forall|v: &mut T| *v == old(self)@->0 ==> call_requires(predicate, (v,)),
        ensures
            final(self).wf(),
            old(self)@ is None ==> r is None && *final(self) == *old(self),
            old(self)@ is Some ==> exists|v: &mut T, verdict: bool|
                {
                    &&& *v == old(self)@->0
                    &&& call_ensures(predicate, (v,), verdict)
                    &&& (verdict ==> r == Some(*final(v)) && final(self)@ is None)
                    &&& (!verdict ==> r is None && final(self)@ == Some(*final(v)))
                },
    {
        let verdict = match self.exclusive_as_mut() {
            Some(x) => predicate(x),
            None => false,
        };
        if verdict {
            self.exclusive_take()
        } else {
            None
        }
    }

    /// A mutable iterator over the slot's value: one element if occupied,
    /// none otherwise.
    pub fn exclusive_iter_mut(&mut self) -> (r: crate::iter::IterMut<'_, T>)
        requires
            old(self).wf(),
        ensures
            old(self)@ is None ==> r.maybe is None && *final(self) == *old(self),
            old(self)@ is Some ==> r.maybe is Some && *r.maybe->0 == old(self)@->0 && final(self)@
                == Some(*final(r.maybe->0)) && final(self).wf(),
    {
        let maybe = self.exclusive_as_mut();
        crate::iter::IterMut { maybe }
    }

    /// Replaces the slot's contents with `value`, returning the displaced
    /// value if the slot was occupied.
    pub fn exclusive_replace(&mut self, value: T) -> (old_value: Option<T>)
        requires
            old(self).wf(),
        ensures
            final(self).wf(),
            final(self)@ == Some(value),
            old_value == old(self)@,
    {
        if self.state == OCCUPIED {
            self.state = IN_TRANSITION;
            let old_value = self.value.take();
            self.value = Some(value);
            self.state = OCCUPIED;
            old_value
        } else {
            self.state = IN_TRANSITION;
            self.value = Some(value);
            self.state = OCCUPIED;
            None
        }
    }

    /// Inserts `value` into the slot, dropping any previous value, and
    /// returns a mutable reference to the stored value.
    pub fn exclusive_insert(&mut self, value: T) -> (r: &mut T)
        requires
            old(self).wf(),
        ensures
            *r == value,
            final(self)@ == Some(*final(r)),
            final(self).wf(),
    {
        self.state = IN_TRANSITION;
        self.value = Some(value);
        self.state = OCCUPIED;
        self.value.as_mut().unwrap()
    }

    /// Inserts `value` into the slot if it is empty, then returns a mutable
    /// reference to the stored value.
    pub fn exclusive_get_or_insert(&mut self, value: T) -> (r: &mut T)
        requires
            old(self).wf(),
        ensures
            *r == (match old(self)@ {
                Some(x) => x,
                None => value,
            }),
            final(self)@ == Some(*final(r)),
            final(self).wf(),
    {
        if self.state != OCCUPIED {
            self.state = IN_TRANSITION;
            self.value = Some(value);
            self.state = OCCUPIED;
        }
        self.value.as_mut().unwrap()
    }

    /// Inserts the value computed by `f` into the slot if it is empty, then
    /// returns a mutable reference to the stored value.  `f` is invoked at
    /// most once, only on the empty path.
    pub fn exclusive_get_or_insert_with<F: FnOnce() -> T>(&mut self, f: F) -> (r: &mut T)
        requires
            old(self).wf(),
            old(self)@ is None ==> call_requires(f, ()),
        ensures
            (match old(self)@ {
                Some(x) => *r == x,
                None => call_ensures(f, (), *r),
            }),
            final(self)@ == Some(*final(r)),
            final(self).wf(),
    {
        if self.state != OCCUPIED {
            self.state = IN_TRANSITION;
            self.value = Some(f());
            self.state = OCCUPIED;
        }
        self.value.as_mut().unwrap()
    }
}

} // verus!
