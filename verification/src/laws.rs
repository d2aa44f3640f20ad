//! What holds of the protocol as a whole, proved from the contracts of its
//! operations.

use crate::guard::{DeadlockProofMutexGuard, DeadlockProofNestedMutexGuard};
use crate::permission::{
    MutexPermission, NestedMutexPermission, OuterMutexPermission, PermissionSlot,
    SequentialMutexPermission, Step,
};
use vstd::prelude::*;

verus! {

/// A slot issues its token once: the first claim on a fresh slot yields a
/// token, and a claim that follows any other claim yields none.
pub proof fn lemma_single_issuance(
    fresh: PermissionSlot,
    first: Option<OuterMutexPermission>,
    claimed: PermissionSlot,
    second: Option<OuterMutexPermission>,
    spent: PermissionSlot,
)
    requires
        PermissionSlot::claims(fresh, first, claimed),
        PermissionSlot::claims(claimed, second, spent),
    ensures
        fresh.is_available() ==> first.is_some(),
        second.is_none(),
        !spent.is_available(),
{
}

/// Unlocking a guard gives back the token that claimed the mutex: if
/// `guard` came from a claim with `token`, and `returned` is what `unlock`
/// hands out, then `returned` is `token`, with which the same mutex can be
/// claimed again.
pub proof fn lemma_token_round_trip<'a, T, P: MutexPermission, I: 'static>(
    token: P,
    guard: DeadlockProofMutexGuard<'a, T, P, I>,
    returned: P,
)
    requires
        guard.permission() == token,
        returned == guard.permission(),
    ensures
        returned == token,
{
}

/// A nested guard, unlocked with its nested token, gives back the token that
/// claimed the mutex, whatever was done to the protected value meanwhile.
pub proof fn lemma_nested_round_trip<'a, T, P: MutexPermission, I: 'static>(
    token: P,
    guard: DeadlockProofNestedMutexGuard<'a, T, P, I>,
    returned: P,
)
    requires
        guard.permission() == token,
        returned == guard.permission(),
    ensures
        returned == token,
{
}

/// The sequential token that a guard is unlocked into wraps the token that
/// claimed the mutex, and gives it back when asked for the earlier one.
pub proof fn lemma_sequential_wraps_claim<'a, T, P: MutexPermission, I: 'static>(
    token: P,
    guard: DeadlockProofMutexGuard<'a, T, P, I>,
    next: SequentialMutexPermission<P, I>,
    earlier: P,
)
    requires
        guard.permission() == token,
        next.earlier() == guard.permission(),
        earlier == next.earlier(),
    ensures
        earlier == token,
{
}

/// A token derived from a `P`, nested or sequential, lies one step further
/// along the hierarchy than `P`: a mutex that asks for it is no mutex that
/// asks for `P`, and the two ways of deriving it are told apart.
pub proof fn lemma_derived_path<P: MutexPermission, I: 'static>()
    ensures
        SequentialMutexPermission::<P, I>::path().len() == P::path().len() + 1,
        NestedMutexPermission::<P, I>::path().len() == P::path().len() + 1,
        SequentialMutexPermission::<P, I>::path() != P::path(),
        NestedMutexPermission::<P, I>::path() != P::path(),
        SequentialMutexPermission::<P, I>::path() != NestedMutexPermission::<P, I>::path(),
        P::path().is_prefix_of(SequentialMutexPermission::<P, I>::path()),
        P::path().is_prefix_of(NestedMutexPermission::<P, I>::path()),
{
    let base = P::path();
    let sequential = SequentialMutexPermission::<P, I>::path();
    let nested = NestedMutexPermission::<P, I>::path();
    assert(sequential[base.len() as int] == Step::Sequential);
    assert(nested[base.len() as int] == Step::Nested);
    assert(base =~= sequential.subrange(0, base.len() as int));
    assert(base =~= nested.subrange(0, base.len() as int));
}

} // verus!
