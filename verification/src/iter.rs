//! Iterators over the slot, yielding at most one element.

use vstd::prelude::*;

verus! {

/// Iterator over a slot, yielding its value by reference: one element if the
/// slot was occupied, none otherwise.
pub struct Iter<'a, T> {
    /// The element not yet yielded, if any.
    pub maybe: Option<&'a T>,
}

impl<'a, T> Iter<'a, T> {
    /// Yields the remaining element, if any, leaving the iterator exhausted.
    pub fn next(&mut self) -> (r: Option<&'a T>)
        ensures
            r == (*old(self)).maybe,
            final(self).maybe is None,
    {
        self.maybe.take()
    }

    /// How many elements remain: one or zero.
    pub fn len(&self) -> (r: usize)
        ensures
            r == (if self.maybe is Some {
                1int
            } else {
                0int
            }),
    {
        if self.maybe.is_some() {
            1
        } else {
            0
        }
    }

    /// Yields from the back; with at most one element this is [`Self::next`].
    pub fn next_back(&mut self) -> (r: Option<&'a T>)
        ensures
            r == (*old(self)).maybe,
            final(self).maybe is None,
    {
        self.next()
    }
}

/// Iterator over a slot, yielding its value by mutable reference: one element
/// if the slot was occupied, none otherwise.
pub struct IterMut<'a, T> {
    /// The element not yet yielded, if any.
    pub maybe: Option<&'a mut T>,
}

impl<'a, T> IterMut<'a, T> {
    /// Yields the remaining element, if any, leaving the iterator exhausted.
    pub fn next(&mut self) -> (r: Option<&'a mut T>)
        ensures
            (*old(self)).maybe is Some ==> r is Some && r->0 == (*old(self)).maybe->0,
            (*old(self)).maybe is None ==> r is None,
            final(self).maybe is None,
    {
        self.maybe.take()
    }

    /// How many elements remain: one or zero.
    pub fn len(&self) -> (r: usize)
        ensures
            r == (if self.maybe is Some {
                1int
            } else {
                0int
            }),
    {
        if self.maybe.is_some() {
            1
        } else {
            0
        }
    }

    /// Yields from the back; with at most one element this is [`Self::next`].
    pub fn next_back(&mut self) -> (r: Option<&'a mut T>)
        ensures
            (*old(self)).maybe is Some ==> r is Some && r->0 == (*old(self)).maybe->0,
            (*old(self)).maybe is None ==> r is None,
            final(self).maybe is None,
    {
        self.next()
    }
}

} // verus!
