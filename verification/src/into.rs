//! Operations that consume the slot and yield its value.

use crate::concurrent_option::ConcurrentOption;
use vstd::prelude::*;

verus! {

impl<T> ConcurrentOption<T> {
    /// Returns the contained value, consuming the slot.  The slot must be
    /// occupied; an unverified caller breaking that contract gets a panic
    /// with `message`.
    pub fn expect(self, message: &str) -> (r: T)
        requires
            self.wf(),
            self@ is Some,
        ensures
            r == self@->0,
    {
        self.value.expect(message)
    }

    /// Returns the contained value, consuming the slot.  The slot must be
    /// occupied; an unverified caller breaking that contract gets a panic.
    pub fn unwrap(self) -> (r: T)
        requires
            self.wf(),
            self@ is Some,
        ensures
            r == self@->0,
    {
        self.expect("called `unwrap()` on a `None` value")
    }

    /// Returns the contained value, or `default` if the slot is empty.
    pub fn unwrap_or(self, default: T) -> (r: T)
        requires
            self.wf(),
        ensures
            self@ is Some ==> r == self@->0,
            self@ is None ==> r == default,
    {
        self.value.unwrap_or(default)
    }

    /// Returns the contained value, or the type's default value if the slot
    /// is empty.
    pub fn unwrap_or_default(self) -> (r: T) where T: Default
        requires
            self.wf(),
        ensures
            self@ is Some ==> r == self@->0,
            self@ is None ==> call_ensures(T::default, (), r),
    {
        self.value.unwrap_or_default()
    }

    /// Returns the contained value, or computes one from `f` if the slot is
    /// empty.
    pub fn unwrap_or_else<F: FnOnce() -> T>(self, f: F) -> (r: T)
        requires
            self.wf(),
            self@ is None ==> call_requires(f, ()),
        ensures
            self@ is Some ==> r == self@->0,
            self@ is None ==> call_ensures(f, (), r),
    {
        self.value.unwrap_or_else(f)
    }

    /// Returns the contained value without reading the tag first.  The
    /// emptiness check is replaced by the precondition: the slot must be
    /// occupied.
    pub fn unwrap_unchecked(self) -> (r: T)
        requires
            self.wf(),
            self@ is Some,
        ensures
            r == self@->0,
    {
        self.value.unwrap()
    }
}

} // verus!
