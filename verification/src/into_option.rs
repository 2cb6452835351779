//! Conversion of optional-like values into a plain optional value.

use crate::concurrent_option::ConcurrentOption;
use vstd::prelude::*;

verus! {

/// Types that can be converted into a plain optional value.
pub trait IntoOption<T>: Sized {
    /// The optional value that the conversion yields.
    spec fn spec_into_option(self) -> Option<T>;

    /// Converts `self` into a plain optional value.
    fn into_option(self) -> (r: Option<T>)
        ensures
            r == self.spec_into_option(),
    ;
}

impl<T> IntoOption<T> for Option<T> {
    open spec fn spec_into_option(self) -> Option<T> {
        self
    }

    fn into_option(self) -> (r: Option<T>) {
        self
    }
}

impl<T> IntoOption<T> for ConcurrentOption<T> {
    open spec fn spec_into_option(self) -> Option<T> {
        self@
    }

    fn into_option(self) -> (r: Option<T>) {
        self.value
    }
}

} // verus!
