use deadlock_proof_mutex::{
    DeadlockProofMutex, DeadlockProofMutexGuard, DeadlockProofNestedMutexGuard, NestedMutexPermission,
    NetworkStack, OuterMutexPermission, PermissionSlot, SequentialMutexPermission,
};
use std::sync::{Arc, Mutex, PoisonError};

struct One;
struct Two;
struct Three;

#[test]
fn exclusive_mutexes_keep_what_a_worker_wrote() {
    let mutex1: Arc<DeadlockProofMutex<i32, OuterMutexPermission, One>> =
        Arc::new(DeadlockProofMutex::new(0i32, One));
    let mutex2: Arc<DeadlockProofMutex<i32, OuterMutexPermission, Two>> =
        Arc::new(DeadlockProofMutex::new(0i32, Two));
    let c_mutex1 = Arc::clone(&mutex1);
    let c_mutex2 = Arc::clone(&mutex2);

    // The worker, with a slot of its own.
    {
        let mut slot = PermissionSlot::new();
        let permission = OuterMutexPermission::get(&mut slot);
        let mut guard1 = c_mutex1.lock(permission).unwrap();
        *guard1 = 42;
        let permission = guard1.unlock();
        let mut guard2 = c_mutex2.lock(permission).unwrap();
        *guard2 = 84;
    }

    let mut slot = PermissionSlot::new();
    let permission = OuterMutexPermission::get(&mut slot);
    let guard1 = mutex1.lock(permission).unwrap();
    assert_eq!(*guard1, 42);
    let permission = guard1.unlock();
    let guard2 = mutex2.lock(permission).unwrap();
    assert_eq!(*guard2, 84);
}

#[test]
fn poison_error_is_passed_on_unchanged() {
    let raw = Mutex::new(3u8);
    let mut slot = PermissionSlot::new();
    let poisoned = Err(PoisonError::new(raw.lock().unwrap()));
    let claim: Result<DeadlockProofMutexGuard<'_, u8, OuterMutexPermission, One>, _> =
        DeadlockProofMutexGuard::from_lock_result(poisoned, OuterMutexPermission::get(&mut slot));
    assert!(claim.is_err());
    let mut held = claim.err().unwrap().into_inner();
    assert_eq!(*held, 3);
    *held = 4;
    drop(held);
    assert_eq!(*raw.lock().unwrap(), 4);
}

#[test]
fn poison_error_fails_a_nested_claim() {
    let raw = Mutex::new(5u8);
    let mut slot = PermissionSlot::new();
    let poisoned = Err(PoisonError::new(raw.lock().unwrap()));
    let claim: Result<
        (
            DeadlockProofNestedMutexGuard<'_, u8, OuterMutexPermission, One>,
            NestedMutexPermission<OuterMutexPermission, One>,
        ),
        _,
    > = DeadlockProofNestedMutexGuard::from_lock_result(
        poisoned,
        OuterMutexPermission::get(&mut slot),
    );
    assert!(claim.is_err());
    assert_eq!(**claim.err().unwrap().get_ref(), 5);
}

#[test]
fn one_sequence_walked_many_times() {
    let a: DeadlockProofMutex<u64, OuterMutexPermission, One> = DeadlockProofMutex::new(0, One);
    let b: DeadlockProofMutex<u64, SequentialMutexPermission<OuterMutexPermission, One>, Two> =
        DeadlockProofMutex::new(0, Two);
    let c: DeadlockProofMutex<
        u64,
        SequentialMutexPermission<SequentialMutexPermission<OuterMutexPermission, One>, Two>,
        Three,
    > = DeadlockProofMutex::new(0, Three);

    for _ in 0..8 {
        let mut slot = PermissionSlot::new();
        let mut token = OuterMutexPermission::get(&mut slot);
        for _ in 0..200 {
            let mut guard = a.lock(token).unwrap();
            *guard += 1;
            let mut guard = b.lock(guard.unlock_for_sequential()).unwrap();
            *guard += 2;
            let mut guard = c.lock(guard.unlock_for_sequential()).unwrap();
            *guard += 3;
            token = guard.unlock().to_earlier().to_earlier();
        }
    }
    let mut slot = PermissionSlot::new();
    let guard = a.lock(OuterMutexPermission::get(&mut slot)).unwrap();
    assert_eq!(*guard, 1600);
    let guard = b.lock(guard.unlock_for_sequential()).unwrap();
    assert_eq!(*guard, 3200);
    let guard = c.lock(guard.unlock_for_sequential()).unwrap();
    assert_eq!(*guard, 4800);
}

#[test]
fn network_stack_starts_at_zero_and_is_walked_in_order() {
    let stack = Arc::new(NetworkStack::new());
    let c_stack = Arc::clone(&stack);

    {
        let mut slot = PermissionSlot::new();
        let mut ip_guard = c_stack.ip_layer.lock(OuterMutexPermission::get(&mut slot)).unwrap();
        assert_eq!(ip_guard.packets_processed, 0);
        assert_eq!(ip_guard.routing_table_size, 0);
        ip_guard.packets_processed += 100;
        ip_guard.routing_table_size = 50;
        let device_perm = ip_guard.unlock_for_sequential();

        let mut device_guard = c_stack.device_layer.lock(device_perm).unwrap();
        assert_eq!(device_guard.interfaces_active, 0);
        assert_eq!(device_guard.bytes_transmitted, 0);
        device_guard.interfaces_active = 3;
        device_guard.bytes_transmitted += 1024;
        let transport_perm = device_guard.unlock_for_sequential();

        let mut transport_guard = c_stack.transport_layer.lock(transport_perm).unwrap();
        assert_eq!(transport_guard.tcp_connections, 0);
        assert_eq!(transport_guard.udp_sockets, 0);
        transport_guard.tcp_connections = 5;
        transport_guard.udp_sockets = 8;
    }

    let mut slot = PermissionSlot::new();
    let ip_guard = stack.ip_layer.lock(OuterMutexPermission::get(&mut slot)).unwrap();
    assert_eq!(ip_guard.packets_processed, 100);
    assert_eq!(ip_guard.routing_table_size, 50);
    let device_guard = stack.device_layer.lock(ip_guard.unlock_for_sequential()).unwrap();
    assert_eq!(device_guard.interfaces_active, 3);
    assert_eq!(device_guard.bytes_transmitted, 1024);
    let transport_guard =
        stack.transport_layer.lock(device_guard.unlock_for_sequential()).unwrap();
    assert_eq!(transport_guard.tcp_connections, 5);
    assert_eq!(transport_guard.udp_sockets, 8);
}
