//! Mutexes whose acquisition order is fixed by the types of single-use
//! permission tokens, so that a thread cannot take the locks of one
//! hierarchy in conflicting orders.
//!
//! A thread starts with the root permission of its [`PermissionSlot`]. It
//! spends a permission to claim a [`DeadlockProofMutex`], and the guard it
//! gets hands back a permission when it is unlocked: the same one, or one
//! that opens the next mutex in sequence. A nested claim mints at once the
//! permission for the mutex inside.

pub mod guard;
pub mod laws;
mod locked;
pub mod mutex;
pub mod network;
pub mod permission;

pub use crate::guard::{DeadlockProofMutexGuard, DeadlockProofNestedMutexGuard};
pub use crate::mutex::DeadlockProofMutex;
pub use crate::network::{
    DeviceLock, DeviceState, IpLock, IpState, NetworkStack, TransportLock, TransportState,
};
pub use crate::permission::{
    MutexPermission, NestedMutexPermission, OuterMutexPermission, PermissionSlot,
    SequentialMutexPermission,
};
