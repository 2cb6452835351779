//! Read-through operations: every one reads the tag and, only if the tag is
//! occupied, reaches the storage cell.  A shared borrow of the slot already
//! rules out a mutation running at the same time, so these never transition
//! the tag.

use crate::concurrent_option::ConcurrentOption;
use crate::into_option::IntoOption;
use crate::states::OCCUPIED;
use core::ops::Deref;
use vstd::pervasive::cloned;
use vstd::prelude::*;

verus! {

impl<T> ConcurrentOption<T> {
    /// Whether the slot holds a value.
    pub fn is_some(&self) -> (r: bool)
        requires
            self.wf(),
        ensures
            r == (self@ is Some),
    {
        self.state == OCCUPIED
    }

    /// Whether the slot is empty.
    pub fn is_none(&self) -> (r: bool)
        requires
            self.wf(),
        ensures
            r == (self@ is None),
    {
        self.state != OCCUPIED
    }

    /// A reference to the value, if the slot is occupied.
    pub fn as_ref(&self) -> (r: Option<&T>)
        requires
            self.wf(),
        ensures
            r is Some <==> self@ is Some,
            r is Some ==> r->0 == self@->0,
    {
        if self.state == OCCUPIED {
            self.value.as_ref()
        } else {
            None
        }
    }

    /// A reference to the value's dereference target, if the slot is
    /// occupied.  Dereferencing carries no specification, so only the
    /// presence of the result is pinned down here.
    pub fn as_deref(&self) -> (r: Option<&<T as core::ops::Deref>::Target>) where
        T: core::ops::Deref,

        requires
            self.wf(),
        ensures
            r is Some <==> self@ is Some,
    {
        match self.as_ref() {
            Some(x) => Some(x.deref()),
            None => None,
        }
    }

    /// An iterator over the slot's value: one element if occupied, none
    /// otherwise.
    pub fn iter(&self) -> (r: crate::iter::Iter<'_, T>)
        requires
            self.wf(),
        ensures
            r.maybe is Some <==> self@ is Some,
            r.maybe is Some ==> r.maybe->0 == self@->0,
    {
        crate::iter::Iter { maybe: self.as_ref() }
    }

    /// Applies `f` to a reference to the value if the slot is occupied and
    /// returns the result; returns `None` on an empty slot without calling
    /// `f`.  The reference never escapes the call.
    pub fn map<U, F: FnOnce(&T) -> U>(&self, f: F) -> (r: Option<U>)
        requires
            self.wf(),
            self@ is Some ==> call_requires(f, (&(self@->0),)),
        ensures
            self@ is None ==> r is None,
            self@ is Some ==> r is Some && call_ensures(f, (&(self@->0),), r->0),
    {
        match self.as_ref() {
            Some(x) => Some(f(x)),
            None => None,
        }
    }

    /// Applies `f` to the value if the slot is occupied, or returns the
    /// provided default.
    pub fn map_or<U, F: FnOnce(&T) -> U>(&self, default: U, f: F) -> (r: U)
        requires
            self.wf(),
            self@ is Some ==> call_requires(f, (&(self@->0),)),
        ensures
            self@ is None ==> r == default,
            self@ is Some ==> call_ensures(f, (&(self@->0),), r),
    {
        match self.as_ref() {
            Some(x) => f(x),
            None => default,
        }
    }

    /// Applies `f` to the value if the slot is occupied, or computes the
    /// default from `default`.
    pub fn map_or_else<U, D: FnOnce() -> U, F: FnOnce(&T) -> U>(&self, default: D, f: F) -> (r: U)
        requires
            self.wf(),
            self@ is Some ==> call_requires(f, (&(self@->0),)),
            self@ is None ==> call_requires(default, ()),
        ensures
            self@ is None ==> call_ensures(default, (), r),
            self@ is Some ==> call_ensures(f, (&(self@->0),), r),
    {
        match self.as_ref() {
            Some(x) => f(x),
            None => default(),
        }
    }

    /// Whether the slot is occupied and its value satisfies `f`.
    pub fn is_some_and<F: FnOnce(&T) -> bool>(&self, f: F) -> (r: bool)
        requires
            self.wf(),
            self@ is Some ==> call_requires(f, (&(self@->0),)),
        ensures
            self@ is None ==> !r,
            self@ is Some ==> call_ensures(f, (&(self@->0),), r),
    {
        match self.as_ref() {
            Some(x) => f(x),
            None => false,
        }
    }

    /// Returns `None` if the slot is empty, otherwise converts `other` into
    /// an optional value and returns it.
    pub fn and<U, V: IntoOption<U>>(&self, other: V) -> (r: Option<U>)
        requires
            self.wf(),
        ensures
            self@ is None ==> r is None,
            self@ is Some ==> r == other.spec_into_option(),
    {
        if self.is_some() {
            other.into_option()
        } else {
            None
        }
    }

    /// Returns `None` if the slot is empty, otherwise applies `f` to a
    /// reference to the value and converts the result into an optional value.
    pub fn and_then<U, V: IntoOption<U>, F: FnOnce(&T) -> V>(&self, f: F) -> (r: Option<U>)
        requires
            self.wf(),
            self@ is Some ==> call_requires(f, (&(self@->0),)),
        ensures
            self@ is None ==> r is None,
            self@ is Some ==> exists|v: V|
                call_ensures(f, (&(self@->0),), v) && r == v.spec_into_option(),
    {
        match self.as_ref() {
            Some(x) => f(x).into_option(),
            None => None,
        }
    }

    /// Returns a reference to the value if the slot is occupied and the value
    /// satisfies `predicate`; returns `None` otherwise.
    pub fn filter<P: FnOnce(&T) -> bool>(&self, predicate: P) -> (r: Option<&T>)
        requires
            self.wf(),
            self@ is Some ==> call_requires(predicate, (&(self@->0),)),
        ensures
            self@ is None ==> r is None,
            self@ is Some ==> exists|b: bool|
                {
                    &&& call_ensures(predicate, (&(self@->0),), b)
                    &&& (b ==> r is Some && r->0 == self@->0)
                    &&& (!b ==> r is None)
                },
    {
        match self.as_ref() {
            Some(x) => if predicate(x) {
                Some(x)
            } else {
                None
            },
            None => None,
        }
    }
}

impl<'a, T: Clone> ConcurrentOption<&'a T> {
    /// Takes the reference out of the slot and clones the referent.
    pub fn cloned(self) -> (r: Option<T>)
        requires
            self.wf(),
        ensures
            self@ is None ==> r is None,
            self@ is Some ==> r is Some && cloned::<T>(*self@->0, r->0),
    {
        let mut this = self;
        this.exclusive_take().cloned()
    }
}

impl<'a, T: Copy> ConcurrentOption<&'a T> {
    /// Takes the reference out of the slot and copies the referent.
    pub fn copied(self) -> (r: Option<T>)
        requires
            self.wf(),
        ensures
            self@ is None ==> r is None,
            self@ is Some ==> r == Some(*self@->0),
    {
        let mut this = self;
        match this.exclusive_take() {
            Some(x) => Some(*x),
            None => None,
        }
    }
}

impl<T> ConcurrentOption<ConcurrentOption<T>> {
    /// Flattens a slot of slots into the inner contents.
    pub fn flatten(self) -> (r: Option<T>)
        requires
            self.wf(),
        ensures
            r == (match self@ {
                Some(inner) => inner@,
                None => None::<T>,
            }),
    {
        let mut this = self;
        match this.exclusive_take() {
            Some(inner) => inner.into_option(),
            None => None,
        }
    }
}

impl<T> ConcurrentOption<Option<T>> {
    /// Flattens a slot holding an optional value into that value.
    pub fn flatten(self) -> (r: Option<T>)
        requires
            self.wf(),
        ensures
            r == (match self@ {
                Some(inner) => inner,
                None => None::<T>,
            }),
    {
        let mut this = self;
        match this.exclusive_take() {
            Some(inner) => inner,
            None => None,
        }
    }
}

} // verus!
