//! Standard trait adapters for the slot: cloning, default construction,
//! equality, partial order, and conversions from and to a plain optional
//! value.  Each one consumes only the read and take primitives and never
//! bypasses the tag.

use crate::concurrent_option::ConcurrentOption;
use crate::states::{EMPTY, OCCUPIED};
use crate::with_order::{cmp_contents, eq_contents};
use vstd::pervasive::cloned;
use vstd::prelude::*;
use vstd::std_specs::cmp::PartialEqSpec;
use vstd::std_specs::cmp::PartialOrdSpec;

verus! {

impl<T: Clone> Clone for ConcurrentOption<T> {
    /// Clones the slot: an empty slot stays empty, an occupied one holds a
    /// clone of the value.
    fn clone(&self) -> (r: Self)
        ensures
            r.wf(),
            r@ is Some <==> self@ is Some,
            self@ is Some ==> cloned::<T>(self@->0, r@->0),
    {
        match self.value.as_ref() {
            Some(x) => Self::some(x.clone()),
            None => Self::none(),
        }
    }
}

impl<T> Default for ConcurrentOption<T> {
    /// The default slot is empty.
    fn default() -> (r: Self)
        ensures
            r.wf(),
            r@ is None,
    {
        Self::none()
    }
}

impl<T: PartialEq> PartialEq for ConcurrentOption<T> {
    /// Two slots compare equal when both are empty or both hold values that
    /// compare equal.
    fn eq(&self, other: &Self) -> (r: bool) {
        match (self.value.as_ref(), other.value.as_ref()) {
            (Some(x), Some(y)) => x.eq(y),
            (None, None) => true,
            _ => false,
        }
    }
}

impl<T: PartialEq> vstd::std_specs::cmp::PartialEqSpecImpl for ConcurrentOption<T> {
    open spec fn obeys_eq_spec() -> bool {
        T::obeys_eq_spec()
    }

    open spec fn eq_spec(&self, other: &Self) -> bool {
        eq_contents(self@, other@)
    }
}

impl<T: Eq> Eq for ConcurrentOption<T> {

}

impl<T: PartialOrd> PartialOrd for ConcurrentOption<T> {
    /// Orders two slots by their contents, an empty slot before every
    /// occupied one.
    fn partial_cmp(&self, other: &Self) -> (r: Option<core::cmp::Ordering>) {
        match (self.value.as_ref(), other.value.as_ref()) {
            (Some(x), Some(y)) => x.partial_cmp(y),
            (Some(_), None) => Some(core::cmp::Ordering::Greater),
            (None, Some(_)) => Some(core::cmp::Ordering::Less),
            (None, None) => Some(core::cmp::Ordering::Equal),
        }
    }
}

impl<T: PartialOrd> vstd::std_specs::cmp::PartialOrdSpecImpl for ConcurrentOption<T> {
    open spec fn obeys_partial_cmp_spec() -> bool {
        T::obeys_partial_cmp_spec()
    }

    open spec fn partial_cmp_spec(&self, other: &Self) -> Option<core::cmp::Ordering> {
        cmp_contents(self@, other@)
    }
}

impl<T> From<T> for ConcurrentOption<T> {
    /// Wraps a value into an occupied slot.
    fn from(value: T) -> (r: Self) {
        ConcurrentOption::some(value)
    }
}

impl<T> vstd::std_specs::convert::FromSpecImpl<T> for ConcurrentOption<T> {
    open spec fn obeys_from_spec() -> bool {
        true
    }

    open spec fn from_spec(value: T) -> Self {
        ConcurrentOption { value: Some(value), state: OCCUPIED }
    }
}

impl<T> From<Option<T>> for ConcurrentOption<T> {
    /// Converts a plain optional value into a slot with the same contents.
    fn from(value: Option<T>) -> (r: Self) {
        match value {
            Some(value) => ConcurrentOption::some(value),
            None => ConcurrentOption::none(),
        }
    }
}

impl<T> vstd::std_specs::convert::FromSpecImpl<Option<T>> for ConcurrentOption<T> {
    open spec fn obeys_from_spec() -> bool {
        true
    }

    open spec fn from_spec(value: Option<T>) -> Self {
        match value {
            Some(v) => ConcurrentOption { value: Some(v), state: OCCUPIED },
            None => ConcurrentOption { value: None, state: EMPTY },
        }
    }
}

impl<T> From<ConcurrentOption<T>> for Option<T> {
    /// Converts a slot into a plain optional value with the same contents.
    fn from(value: ConcurrentOption<T>) -> (r: Self) {
        value.value
    }
}

impl<T> vstd::std_specs::convert::FromSpecImpl<ConcurrentOption<T>> for Option<T> {
    open spec fn obeys_from_spec() -> bool {
        true
    }

    open spec fn from_spec(value: ConcurrentOption<T>) -> Self {
        value@
    }
}

} // verus!
