//! Permission tokens: the values a thread spends to claim a mutex, and the
//! per-thread slot that hands out the root token once.

use std::marker::PhantomData;
use std::rc::Rc;
use vstd::prelude::*;

verus! {

/// One step by which a permission type was derived from the root permission.
pub enum Step {
    /// A mutex was claimed and is still held.
    Nested,
    /// A mutex was claimed and released again.
    Sequential,
}

/// Some type of permission token required to claim a mutex.
///
/// The type of a token records the path through the lock hierarchy that
/// led to it; `path` is that record, outermost step first.
pub trait MutexPermission: 'static {
    /// The steps that lead from the root permission to a token of this type.
    spec fn path() -> Seq<Step>;
}

/// Permission to claim an "outer" mutex: one of a class of mutexes of which
/// a thread holds at most one at a time.
pub struct OuterMutexPermission {
    local: PhantomData<Rc<()>>,
}

impl MutexPermission for OuterMutexPermission {
    open spec fn path() -> Seq<Step> {
        Seq::empty()
    }
}

/// Permission to claim a mutex while the mutex identified by `I`, itself
/// claimed with a `P`, is still held.
pub struct NestedMutexPermission<P: MutexPermission, I: 'static> {
    local: PhantomData<Rc<()>>,
    outer: PhantomData<P>,
    identifier: PhantomData<I>,
}

impl<P: MutexPermission, I: 'static> MutexPermission for NestedMutexPermission<P, I> {
    open spec fn path() -> Seq<Step> {
        P::path().push(Step::Nested)
    }
}

impl<P: MutexPermission, I: 'static> NestedMutexPermission<P, I> {
    /// Mints the token that goes with a nested claim of the mutex `I`.
    pub(crate) fn new() -> (token: Self) {
        NestedMutexPermission { local: PhantomData, outer: PhantomData, identifier: PhantomData }
    }
}

/// Permission to claim the mutex that follows the mutex identified by `I`,
/// after that one, claimed with a `P`, was released.
pub struct SequentialMutexPermission<P: MutexPermission, I: 'static> {
    local: PhantomData<Rc<()>>,
    earlier: P,
    identifier: PhantomData<I>,
}

impl<P: MutexPermission, I: 'static> MutexPermission for SequentialMutexPermission<P, I> {
    open spec fn path() -> Seq<Step> {
        P::path().push(Step::Sequential)
    }
}

impl<P: MutexPermission, I: 'static> SequentialMutexPermission<P, I> {
    /// The token that this one was made from.
    pub closed spec fn earlier(&self) -> P {
        self.earlier
    }

    /// Wraps the permission that claimed the mutex `I`, once `I` is released.
    pub(crate) fn new(permission: P) -> (token: Self)
        ensures
            token.earlier() == permission,
    {
        SequentialMutexPermission { local: PhantomData, earlier: permission, identifier: PhantomData }
    }

    /// Consumes this sequential permission and returns the permission token
    /// earlier in the sequence.
    pub fn to_earlier(self) -> (permission: P)
        ensures
            permission == self.earlier(),
    {
        self.earlier
    }
}

/// The per-thread source of the root permission: it holds the one token of
/// its thread until that token is claimed.
///
/// A thread is meant to own exactly one slot for its whole life (a
/// thread-local one). The protocol's guarantees are stated per slot: they
/// are lost for a thread that makes itself a second one.
pub struct PermissionSlot {
    token: Option<OuterMutexPermission>,
}

impl PermissionSlot {
    /// Whether the root permission has not been handed out yet.
    pub closed spec fn is_available(&self) -> bool {
        self.token.is_some()
    }

    /// A slot that still holds its token.
    pub fn new() -> (slot: Self)
        ensures
            slot.is_available(),
    {
        PermissionSlot { token: Some(OuterMutexPermission { local: PhantomData }) }
    }

    /// Whether the root permission has been handed out.
    pub fn is_claimed(&self) -> (claimed: bool)
        ensures
            claimed == !self.is_available(),
    {
        self.token.is_none()
    }

    /// What one claim does: it yields a token exactly if the slot still
    /// had one, and leaves the slot empty.
    pub open spec fn claims(
        before: PermissionSlot,
        token: Option<OuterMutexPermission>,
        after: PermissionSlot,
    ) -> bool {
        &&& token.is_some() == before.is_available()
        &&& !after.is_available()
    }

    /// Hands out the root permission if it is still there. The slot is
    /// empty afterwards in either case.
    pub fn take(&mut self) -> (token: Option<OuterMutexPermission>)
        ensures
            PermissionSlot::claims(*old(self), token, *final(self)),
    {
        self.token.take()
    }
}

impl OuterMutexPermission {
    /// Claims the root permission of the thread that owns `slot`. This can
    /// be done once per slot.
    pub fn get(slot: &mut PermissionSlot) -> (token: OuterMutexPermission)
        requires
            old(slot).is_available(),
        ensures
            PermissionSlot::claims(*old(slot), Some(token), *final(slot)),
    {
        let claimed = slot.take();
        claimed.unwrap()
    }
}

} // verus!
