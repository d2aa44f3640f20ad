//! A three-layer network stack whose layers are claimed in a fixed
//! sequence: IP, then device, then transport.

use crate::mutex::DeadlockProofMutex;
use crate::permission::{OuterMutexPermission, SequentialMutexPermission};
use vstd::prelude::*;

verus! {

/// State of the IP layer.
pub struct IpState {
    pub packets_processed: u64,
    pub routing_table_size: usize,
}

/// State of the device layer.
pub struct DeviceState {
    pub interfaces_active: u32,
    pub bytes_transmitted: u64,
}

/// State of the transport layer.
pub struct TransportState {
    pub tcp_connections: u32,
    pub udp_sockets: u32,
}

/// Identifies the lock of the IP layer.
pub struct IpLock;

/// Identifies the lock of the device layer.
pub struct DeviceLock;

/// Identifies the lock of the transport layer.
pub struct TransportLock;

/// The token that claims the device layer: the IP layer has been released.
pub type DevicePermission = SequentialMutexPermission<OuterMutexPermission, IpLock>;

/// The token that claims the transport layer: the IP layer and then the
/// device layer have been released.
pub type TransportPermission = SequentialMutexPermission<DevicePermission, DeviceLock>;

/// The three layers, each behind the mutex of its place in the sequence.
pub struct NetworkStack {
    pub ip_layer: DeadlockProofMutex<IpState, OuterMutexPermission, IpLock>,
    pub device_layer: DeadlockProofMutex<DeviceState, DevicePermission, DeviceLock>,
    pub transport_layer: DeadlockProofMutex<TransportState, TransportPermission, TransportLock>,
}

impl NetworkStack {
    /// A stack in which every counter of every layer is zero.
    pub fn new() -> (stack: Self)
        ensures
            stack.ip_layer.initial() == (IpState { packets_processed: 0, routing_table_size: 0 }),
            stack.device_layer.initial() == (DeviceState {
                interfaces_active: 0,
                bytes_transmitted: 0,
            }),
            stack.transport_layer.initial() == (TransportState {
                tcp_connections: 0,
                udp_sockets: 0,
            }),
    {
        NetworkStack {
            ip_layer: DeadlockProofMutex::new(
                IpState { packets_processed: 0, routing_table_size: 0 },
                IpLock,
            ),
            device_layer: DeadlockProofMutex::new(
                DeviceState { interfaces_active: 0, bytes_transmitted: 0 },
                DeviceLock,
            ),
            transport_layer: DeadlockProofMutex::new(
                TransportState { tcp_connections: 0, udp_sockets: 0 },
                TransportLock,
            ),
        }
    }
}

} // verus!
