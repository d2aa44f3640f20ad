//! The standard library's mutex as this crate sees it: the opaque std types
//! and the few calls made into them. Every contract in this file is
//! believed, not proved.

use std::sync::{Mutex, MutexGuard, PoisonError};
use vstd::prelude::*;

verus! {

/// `std::sync::Mutex`, carried through as an opaque value.
#[verifier::external_type_specification]
#[verifier::external_body]
#[verifier::reject_recursive_types(T)]
pub struct ExMutex<T: ?Sized>(Mutex<T>);

/// `std::sync::MutexGuard`, carried through as an opaque value.
#[verifier::external_type_specification]
#[verifier::external_body]
#[verifier::reject_recursive_types(T)]
pub struct ExMutexGuard<'a, T: ?Sized + 'a>(MutexGuard<'a, T>);

/// `std::sync::PoisonError`, carried through as an opaque value.
#[verifier::external_type_specification]
#[verifier::external_body]
#[verifier::reject_recursive_types(T)]
pub struct ExPoisonError<T>(PoisonError<T>);

/// Calls `Mutex::new`. Nothing is claimed of the result: what a mutex
/// protects is shared between threads and is no function of the mutex.
#[verifier::external_body]
pub(crate) fn mutex_new<T>(content: T) -> (mutex: Mutex<T>) {
    Mutex::new(content)
}

/// Calls `Mutex::lock`, which blocks until the lock is free. Whether it
/// returns the guard or a poison error depends on what other threads did,
/// so nothing is claimed of the result.
///
/// std leaves open what happens when the calling thread already holds the
/// lock (it may panic or never return). No contract can speak of that here:
/// it is the permission tokens that keep a thread from asking twice.
#[verifier::external_body]
pub(crate) fn mutex_lock<'a, T>(mutex: &'a Mutex<T>) -> (outcome: Result<
    MutexGuard<'a, T>,
    PoisonError<MutexGuard<'a, T>>,
>) {
    mutex.lock()
}

/// A held lock together with the value it gives access to.
///
/// A `MutexGuard` is opaque here, so the protected value is kept beside it
/// as a ghost: `value` stands for what the guard dereferences to for as
/// long as the lock is held. The ghost is never computed from: `hold`
/// leaves it open, and `read` and `write` say how the references they hand
/// out relate to it. That the holder of a lock is the only one to change
/// the protected value is what `std::sync::Mutex` is trusted for.
#[verifier::reject_recursive_types(T)]
pub struct Locked<'a, T> {
    raw: MutexGuard<'a, T>,
    shadow: Ghost<T>,
}

impl<'a, T> Locked<'a, T> {
    /// The std guard that holds the lock.
    pub closed spec fn raw(&self) -> MutexGuard<'a, T> {
        self.raw
    }

    /// The value that the lock protects, as its holder sees it now.
    pub closed spec fn value(&self) -> T {
        self.shadow@
    }

    /// Takes charge of a guard that `Mutex::lock` returned. The protected
    /// value is whatever the last holder left, so nothing is claimed of
    /// `value`; the ghost written in the body is erased and stands for no
    /// particular value.
    #[verifier::external_body]
    pub(crate) fn hold(raw: MutexGuard<'a, T>) -> (locked: Self)
        ensures
            locked.raw() == raw,
    {
        Locked { raw, shadow: Ghost(arbitrary()) }
    }

    /// Calls `MutexGuard::deref`: the reference that comes back points to
    /// the protected value.
    #[verifier::external_body]
    pub(crate) fn read(&self) -> (value: &T)
        ensures
            *value == self.value(),
    {
        &*self.raw
    }

    /// Calls `MutexGuard::deref_mut`: the reference that comes back points
    /// to the protected value, and what the caller leaves behind it is the
    /// protected value from then on.
    #[verifier::external_body]
    pub(crate) fn write(&mut self) -> (value: &mut T)
        ensures
            *value == old(self).value(),
            final(self).value() == *final(value),
    {
        &mut *self.raw
    }
}

} // verus!
