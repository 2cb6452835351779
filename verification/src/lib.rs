//! An optional-value slot guarded by a tri-state tag.
//!
//! A [`ConcurrentOption`] owns at most one value of type `T` together with a
//! byte-sized tag recording whether the slot is empty, occupied, or in the
//! middle of a transition.  Every mutating primitive negotiates the tag
//! through a guarded two-step protocol — enter the transition, touch the
//! storage, publish the outcome — and every contract pins down exactly how
//! the slot's contents change.  Exclusive access comes from the borrow that
//! reaches the slot, so read-throughs never touch the tag, while each
//! mutation still drives it through the in-transition state.

pub mod common_traits;
pub mod concurrent;
pub mod concurrent_option;
pub mod exclusive;
pub mod into;
pub mod into_option;
pub mod iter;
pub mod laws;
pub mod mut_handle;
pub mod new;
pub mod option;
pub mod states;
pub mod with_order;

pub use concurrent_option::ConcurrentOption;
pub use into_option::IntoOption;
pub use mut_handle::MutHandle;
pub use states::State;
