//! Guards: a claimed mutex together with the permission that claimed it.

use crate::locked::Locked;
use crate::permission::{MutexPermission, NestedMutexPermission, SequentialMutexPermission};
use std::marker::PhantomData;
use std::ops::{Deref, DerefMut};
use std::sync::{MutexGuard, PoisonError};
use vstd::prelude::*;

verus! {

/// A claimed mutex: exclusive access to the protected value, and the
/// permission token that was spent on the claim.
#[verifier::reject_recursive_types(T)]
pub struct DeadlockProofMutexGuard<'a, T, P: MutexPermission, I: 'static> {
    locked: Locked<'a, T>,
    permission: P,
    identifier: PhantomData<I>,
}

impl<'a, T, P: MutexPermission, I: 'static> View for DeadlockProofMutexGuard<'a, T, P, I> {
    type V = T;

    /// The protected value as the holder sees it now.
    closed spec fn view(&self) -> T {
        self.locked.value()
    }
}

impl<'a, T, P: MutexPermission, I: 'static> DeadlockProofMutexGuard<'a, T, P, I> {
    /// The token that was spent to claim the mutex.
    pub closed spec fn permission(&self) -> P {
        self.permission
    }

    /// The std guard that holds the lock.
    pub closed spec fn raw(&self) -> MutexGuard<'a, T> {
        self.locked.raw()
    }

    /// Turns the outcome of locking the inner mutex into the outcome of the
    /// claim: the guard keeps `permission` where the lock was obtained, and
    /// a poison error is passed on as it is (the token is lost with it).
    pub fn from_lock_result(
        outcome: Result<MutexGuard<'a, T>, PoisonError<MutexGuard<'a, T>>>,
        permission: P,
    ) -> (claim: Result<Self, PoisonError<MutexGuard<'a, T>>>)
        ensures
            match (outcome, claim) {
                (Ok(raw), Ok(guard)) => guard.raw() == raw && guard.permission() == permission,
                (Err(poisoned), Err(error)) => error == poisoned,
                _ => false,
            },
    {
        match outcome {
            Ok(raw) => Ok(
                DeadlockProofMutexGuard { locked: Locked::hold(raw), permission, identifier: PhantomData },
            ),
            Err(poisoned) => Err(poisoned),
        }
    }

    /// Unlocks the mutex and returns the permission token that claimed it.
    pub fn unlock(self) -> (permission: P)
        ensures
            permission == self.permission(),
    {
        self.permission
    }

    /// Unlocks the mutex and returns a sequential permission token, which
    /// wraps the token that claimed it.
    pub fn unlock_for_sequential(self) -> (token: SequentialMutexPermission<P, I>)
        ensures
            token.earlier() == self.permission(),
    {
        SequentialMutexPermission::new(self.permission)
    }
}

impl<T, P: MutexPermission, I: 'static> Deref for DeadlockProofMutexGuard<'_, T, P, I> {
    type Target = T;

    /// The protected value.
    fn deref(&self) -> (value: &T)
        ensures
            *value == self@,
    {
        self.locked.read()
    }
}

impl<T, P: MutexPermission, I: 'static> DerefMut for DeadlockProofMutexGuard<'_, T, P, I> {
    /// The protected value, to be changed in place. The permission stays
    /// with the guard.
    fn deref_mut(&mut self) -> (value: &mut T)
        ensures
            *value == old(self)@,
            final(self)@ == *final(value),
            final(self).permission() == old(self).permission(),
    {
        self.locked.write()
    }
}

/// A claimed mutex inside which further mutexes may be claimed: exclusive
/// access to the protected value, and the permission token that was spent
/// on the claim.
#[verifier::reject_recursive_types(T)]
pub struct DeadlockProofNestedMutexGuard<'a, T, P: MutexPermission, I: 'static> {
    locked: Locked<'a, T>,
    permission: P,
    identifier: PhantomData<I>,
}

impl<'a, T, P: MutexPermission, I: 'static> View for DeadlockProofNestedMutexGuard<'a, T, P, I> {
    type V = T;

    /// The protected value as the holder sees it now.
    closed spec fn view(&self) -> T {
        self.locked.value()
    }
}

impl<'a, T, P: MutexPermission, I: 'static> DeadlockProofNestedMutexGuard<'a, T, P, I> {
    /// The token that was spent to claim the mutex.
    pub closed spec fn permission(&self) -> P {
        self.permission
    }

    /// The std guard that holds the lock.
    pub closed spec fn raw(&self) -> MutexGuard<'a, T> {
        self.locked.raw()
    }

    /// Turns the outcome of locking the inner mutex into the outcome of a
    /// nested claim: the guard keeps `permission` and comes with a freshly
    /// minted nested token where the lock was obtained, and a poison error
    /// is passed on as it is (the token is lost with it).
    pub fn from_lock_result(
        outcome: Result<MutexGuard<'a, T>, PoisonError<MutexGuard<'a, T>>>,
        permission: P,
    ) -> (claim: Result<(Self, NestedMutexPermission<P, I>), PoisonError<MutexGuard<'a, T>>>)
        ensures
            match (outcome, claim) {
                (Ok(raw), Ok((guard, _))) => guard.raw() == raw && guard.permission()
                    == permission,
                (Err(poisoned), Err(error)) => error == poisoned,
                _ => false,
            },
    {
        match outcome {
            Ok(raw) => Ok(
                (
                    DeadlockProofNestedMutexGuard {
                        locked: Locked::hold(raw),
                        permission,
                        identifier: PhantomData,
                    },
                    NestedMutexPermission::new(),
                ),
            ),
            Err(poisoned) => Err(poisoned),
        }
    }

    /// Unlocks the mutex in exchange for the nested permission token that
    /// was minted with this guard, and returns the token that claimed it.
    pub fn unlock(self, _token: NestedMutexPermission<P, I>) -> (permission: P)
        ensures
            permission == self.permission(),
    {
        self.permission
    }

    /// Unlocks the mutex and returns a sequential permission token, which
    /// wraps the token that claimed it.
    pub fn unlock_for_sequential(self) -> (token: SequentialMutexPermission<P, I>)
        ensures
            token.earlier() == self.permission(),
    {
        SequentialMutexPermission::new(self.permission)
    }
}

impl<T, P: MutexPermission, I: 'static> Deref for DeadlockProofNestedMutexGuard<'_, T, P, I> {
    type Target = T;

    /// The protected value.
    fn deref(&self) -> (value: &T)
        ensures
            *value == self@,
    {
        self.locked.read()
    }
}

impl<T, P: MutexPermission, I: 'static> DerefMut for DeadlockProofNestedMutexGuard<'_, T, P, I> {
    /// The protected value, to be changed in place. The permission stays
    /// with the guard.
    fn deref_mut(&mut self) -> (value: &mut T)
        ensures
            *value == old(self)@,
            final(self)@ == *final(value),
            final(self).permission() == old(self).permission(),
    {
        self.locked.write()
    }
}

} // verus!
