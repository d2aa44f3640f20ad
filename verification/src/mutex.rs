//! The guarded mutex.

use crate::guard::{DeadlockProofMutexGuard, DeadlockProofNestedMutexGuard};
use crate::locked::{mutex_lock, mutex_new};
use crate::permission::{MutexPermission, NestedMutexPermission, Step};
use std::marker::PhantomData;
use std::sync::{Mutex, MutexGuard, PoisonError};
use vstd::prelude::*;

verus! {

/// A mutex that can be claimed only in exchange for a permission token of
/// type `P`. `I` tells apart mutexes that would otherwise have one type.
#[verifier::reject_recursive_types(T)]
#[verifier::reject_recursive_types(P)]
pub struct DeadlockProofMutex<T, P: MutexPermission, I: 'static> {
    raw: Mutex<T>,
    initial: Ghost<T>,
    permission: PhantomData<Ghost<P>>,
    identifier: PhantomData<I>,
}

impl<T, P: MutexPermission, I: 'static> DeadlockProofMutex<T, P, I> {
    /// The value that the mutex was created with.
    pub closed spec fn initial(&self) -> T {
        self.initial@
    }

    /// The steps a thread has taken through the hierarchy when it holds the
    /// token that this mutex asks for.
    pub open spec fn required_path(&self) -> Seq<Step> {
        P::path()
    }

    /// Creates a new deadlock-proof mutex around `content`.
    pub fn new(content: T, _identifier: I) -> (mutex: Self)
        ensures
            mutex.initial() == content,
    {
        let ghost initial = content;
        DeadlockProofMutex {
            raw: mutex_new(content),
            initial: Ghost(initial),
            permission: PhantomData,
            identifier: PhantomData,
        }
    }

    /// Claims this mutex, blocking the current thread until it is able to
    /// do so. The guard keeps `permission` until it is unlocked. Whether
    /// the claim succeeds is decided by the inner mutex alone: where its
    /// lock is poisoned its error is returned, and `permission` is lost.
    /// `DeadlockProofMutexGuard::from_lock_result` says what becomes of each
    /// outcome.
    pub fn lock(&self, permission: P) -> (claim: Result<
        DeadlockProofMutexGuard<'_, T, P, I>,
        PoisonError<MutexGuard<'_, T>>,
    >)
        ensures
            claim matches Ok(guard) ==> guard.permission() == permission,
    {
        DeadlockProofMutexGuard::from_lock_result(mutex_lock(&self.raw), permission)
    }

    /// Claims this mutex as `lock` does, and also mints the token for
    /// claiming a mutex nested inside this one.
    /// `DeadlockProofNestedMutexGuard::from_lock_result` says what becomes
    /// of each outcome of the inner lock.
    pub fn lock_for_nested(&self, permission: P) -> (claim: Result<
        (DeadlockProofNestedMutexGuard<'_, T, P, I>, NestedMutexPermission<P, I>),
        PoisonError<MutexGuard<'_, T>>,
    >)
        ensures
            claim matches Ok((guard, _)) ==> guard.permission() == permission,
    {
        DeadlockProofNestedMutexGuard::from_lock_result(mutex_lock(&self.raw), permission)
    }
}

} // verus!
