//! Reads parameterized by a caller-chosen memory ordering.
//!
//! The slot synchronizes through the borrow that reaches it, so the requested
//! ordering has no further effect here; the parameter is kept so that callers
//! can state the ordering they would need when the slot is shared.

use crate::concurrent_option::ConcurrentOption;
use crate::states::OCCUPIED;
use crate::states::State;
use core::ops::Deref;
use core::sync::atomic::Ordering;
use vstd::pervasive::cloned;
use vstd::prelude::*;
use vstd::std_specs::cmp::PartialEqSpec;
use vstd::std_specs::cmp::OrdSpec;
use vstd::std_specs::cmp::PartialOrdSpec;

verus! {

/// The slot-level equality that a well-behaved element equality induces:
/// two slots agree when both are empty or both hold values that compare
/// equal.
pub open spec fn eq_contents<T: PartialEq>(a: Option<T>, b: Option<T>) -> bool {
    match (a, b) {
        (Some(x), Some(y)) => x.eq_spec(&y),
        (None, None) => true,
        _ => false,
    }
}

/// The slot-level order that a well-behaved element order induces: an empty
/// slot comes before every occupied one.
pub open spec fn cmp_contents<T: PartialOrd>(a: Option<T>, b: Option<T>) -> Option<
    core::cmp::Ordering,
> {
    match (a, b) {
        (Some(x), Some(y)) => x.partial_cmp_spec(&y),
        (Some(_), None) => Some(core::cmp::Ordering::Greater),
        (None, Some(_)) => Some(core::cmp::Ordering::Less),
        (None, None) => Some(core::cmp::Ordering::Equal),
    }
}

/// As [`cmp_contents`], under a total order on the elements.
pub open spec fn total_cmp_contents<T: Ord>(a: Option<T>, b: Option<T>) -> core::cmp::Ordering {
    match (a, b) {
        (Some(x), Some(y)) => x.cmp_spec(&y),
        (Some(_), None) => core::cmp::Ordering::Greater,
        (None, Some(_)) => core::cmp::Ordering::Less,
        (None, None) => core::cmp::Ordering::Equal,
    }
}

impl<T> ConcurrentOption<T> {
    /// Reads the tag with the given ordering and decodes it.
    pub fn state(&self, _order: Ordering) -> (s: State)
        requires
            self.wf(),
        ensures
            s == (if self@ is Some {
                State::Occupied
            } else {
                State::Empty
            }),
    {
        State::new(self.state)
    }

    /// Whether the slot holds a value, reading the tag with the given
    /// ordering.
    pub fn is_some_with_order(&self, _order: Ordering) -> (r: bool)
        requires
            self.wf(),
        ensures
            r == (self@ is Some),
    {
        self.state == OCCUPIED
    }

    /// Whether the slot is empty, reading the tag with the given ordering.
    pub fn is_none_with_order(&self, _order: Ordering) -> (r: bool)
        requires
            self.wf(),
        ensures
            r == (self@ is None),
    {
        self.state != OCCUPIED
    }

    /// A reference to the value, if the slot is occupied, reading the tag
    /// with the given ordering.
    pub fn as_ref_with_order(&self, _order: Ordering) -> (r: Option<&T>)
        requires
            self.wf(),
        ensures
            r is Some <==> self@ is Some,
            r is Some ==> r->0 == self@->0,
    {
        if self.state == OCCUPIED {
            self.value.as_ref()
        } else {
            None
        }
    }

    /// A reference to the value's dereference target, if the slot is
    /// occupied, reading the tag with the given ordering.  Dereferencing
    /// carries no specification, so only the presence of the result is
    /// pinned down here.
    pub fn as_deref_with_order(&self, order: Ordering) -> (r: Option<
        &<T as core::ops::Deref>::Target,
    >) where T: core::ops::Deref
        requires
            self.wf(),
        ensures
            r is Some <==> self@ is Some,
    {
        match self.as_ref_with_order(order) {
            Some(x) => Some(x.deref()),
            None => None,
        }
    }

    /// An iterator over the slot's value, reading the tag with the given
    /// ordering.
    pub fn iter_with_order(&self, order: Ordering) -> (r: crate::iter::Iter<'_, T>)
        requires
            self.wf(),
        ensures
            r.maybe is Some <==> self@ is Some,
            r.maybe is Some ==> r.maybe->0 == self@->0,
    {
        crate::iter::Iter { maybe: self.as_ref_with_order(order) }
    }

    /// Clones the slot's contents into a plain optional value, reading the
    /// tag with the given ordering.
    pub fn clone_with_order(&self, order: Ordering) -> (r: Option<T>) where T: Clone
        requires
            self.wf(),
        ensures
            self@ is None ==> r is None,
            self@ is Some ==> r is Some && cloned::<T>(self@->0, r->0),
    {
        self.as_ref_with_order(order).cloned()
    }

    /// Whether the two slots hold equal contents, reading both tags with the
    /// given ordering.
    pub fn eq_with_order(&self, other: &Self, order: Ordering) -> (r: bool) where T: PartialEq
        requires
            self.wf(),
            other.wf(),
        ensures
            T::obeys_eq_spec() ==> r == eq_contents(self@, other@),
    {
        match (self.as_ref_with_order(order), other.as_ref_with_order(order)) {
            (None, None) => true,
            (Some(x), Some(y)) => x.eq(y),
            _ => false,
        }
    }

    /// Orders the two slots by their contents, an empty slot first, reading
    /// both tags with the given ordering.
    pub fn partial_cmp_with_order(&self, other: &Self, order: Ordering) -> (r: Option<
        core::cmp::Ordering,
    >) where T: PartialOrd
        requires
            self.wf(),
            other.wf(),
        ensures
            T::obeys_partial_cmp_spec() ==> r == cmp_contents(self@, other@),
    {
        match (self.as_ref_with_order(order), other.as_ref_with_order(order)) {
            (Some(x), Some(y)) => x.partial_cmp(y),
            (Some(_), None) => Some(core::cmp::Ordering::Greater),
            (None, Some(_)) => Some(core::cmp::Ordering::Less),
            (None, None) => Some(core::cmp::Ordering::Equal),
        }
    }

    /// Orders the two slots by their contents under a total order, an empty
    /// slot first, reading both tags with the given ordering.
    pub fn cmp_with_order(&self, other: &Self, order: Ordering) -> (r: core::cmp::Ordering) where
        T: Ord,

        requires
            self.wf(),
            other.wf(),
        ensures
            T::obeys_cmp_spec() ==> r == total_cmp_contents(self@, other@),
    {
        match (self.as_ref_with_order(order), other.as_ref_with_order(order)) {
            (Some(x), Some(y)) => x.cmp(y),
            (Some(_), None) => core::cmp::Ordering::Greater,
            (None, Some(_)) => core::cmp::Ordering::Less,
            (None, None) => core::cmp::Ordering::Equal,
        }
    }
}

} // verus!
