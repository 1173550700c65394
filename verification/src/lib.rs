//! Shared, reference-counted containers whose value stays where it is.
//!
//! [`PinRc`] is for one thread: a counted allocation around a cell that
//! checks its borrows as they are asked for. [`PinArc`] is for many threads:
//! an atomically counted allocation around a reader-writer lock. Both hand out
//! guards; only an exclusive guard gives a pinned mutable view of the value.
//!
//! The pinned view is built with `Pin::new`, so it is offered where the
//! value's type is `Unpin`. A value of any other type can be stored, shared
//! and read, and it too stays where it is; it cannot be written through a
//! guard.
//!
//! Every function here returns. A request for access is answered at once,
//! with a guard or a refusal. A caller that wants to wait for the lock takes
//! it from [`PinArc::rwlock`], waits on it, and hands the answer to
//! [`PinRwLockReadGuard::from_read`] or [`PinRwLockWriteGuard::from_write`].
//!
//! The counting, the borrow flags and the lock are the standard library's.
//! Verus cannot see the state they keep behind a shared reference, so the
//! contracts here speak of what a handle or a guard is, not of what the
//! allocation holds at the moment of a call. They say which allocation a
//! handle points to, that an answer is one that the standard library gives
//! for this very handle or guard, and how each answer is handed on. Which
//! answer comes at which moment they leave open.
use vstd::prelude::*;

pub mod pin_arc;
pub mod pin_rc;

pub use pin_arc::{PinArc, PinRwLockReadGuard, PinRwLockWriteGuard};
pub use pin_rc::{PinRc, PinRef, PinRefMut};

verus! {

/// `std::pin::Pin`: a pointer whose target will not be moved. Verus carries it
/// through and sees nothing inside.
#[verifier::external_type_specification]
#[verifier::external_body]
#[verifier::reject_recursive_types(Ptr)]
pub struct ExPin<Ptr>(std::pin::Pin<Ptr>);

/// Whether `view` is a pin that `Pin::new` can make of `target`.
pub closed spec fn pins<T: Unpin + ?Sized>(target: &mut T, view: std::pin::Pin<&mut T>) -> bool {
    call_ensures(pin_new::<T>, (target,), view)
}

/// Whether `target` is a reference that `Pin::get_mut` can take out of `view`.
pub closed spec fn unpins<T: Unpin + ?Sized>(view: std::pin::Pin<&mut T>, target: &mut T) -> bool {
    call_ensures(pin_target::<T>, (view,), target)
}

/// Brings what Verus learns from a call of `Pin::new` or `Pin::get_mut`
/// under the names [`pins`] and [`unpins`].
pub(crate) proof fn pin_calls_are_named<T: Unpin + ?Sized>()
    ensures
        forall|target: &mut T, view: std::pin::Pin<&mut T>| #[trigger]
            call_ensures(pin_new::<T>, (target,), view) ==> pins(target, view),
        forall|view: std::pin::Pin<&mut T>, target: &mut T| #[trigger]
            call_ensures(pin_target::<T>, (view,), target) ==> unpins(view, target),
{
}

/// `Pin::new`: pins a reference whose target may be moved anyway.
#[verifier::external_body]
pub(crate) fn pin_new<'r, T: Unpin + ?Sized>(target: &'r mut T) -> (view: std::pin::Pin<
    &'r mut T,
>) {
    std::pin::Pin::new(target)
}

/// `Pin::get_mut`: the reference inside a pin whose target may be moved
/// anyway.
#[verifier::external_body]
pub(crate) fn pin_target<'r, T: Unpin + ?Sized>(view: std::pin::Pin<&'r mut T>) -> (target:
    &'r mut T) {
    std::pin::Pin::get_mut(view)
}

} // verus!
