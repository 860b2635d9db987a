use netsup::lease::{
    LeasePool, LeaseServer, LeaseServerAction, LeaseServerConfig, LeaseServerEvent,
    LeaseServerPhase, LEASE_RETRY_INTERVAL_MS, LEASE_SERVICE_PORT,
};

#[test]
fn lease_service_port_is_the_standard_one() {
    assert_eq!(LEASE_SERVICE_PORT, 67);
}

#[test]
fn distinct_clients_get_distinct_addresses() {
    let mut pool = LeasePool::new(0xC0A8_0202, 4, 1000);
    let a = pool.allocate(1, 0).unwrap();
    let b = pool.allocate(2, 0).unwrap();
    let c = pool.allocate(3, 0).unwrap();
    assert_ne!(a, b);
    assert_ne!(a, c);
    assert_ne!(b, c);
}

#[test]
fn same_client_renews_and_keeps_its_address() {
    let mut pool = LeasePool::new(100, 4, 1000);
    let first = pool.allocate(7, 0).unwrap();
    let again = pool.allocate(7, 500).unwrap();
    assert_eq!(first, again);
    // The renewal did not consume a second slot.
    let other = pool.allocate(8, 0).unwrap();
    assert_ne!(other, first);
}

#[test]
fn exhausted_pool_refuses_new_clients() {
    let mut pool = LeasePool::new(10, 2, 1000);
    assert!(pool.allocate(1, 0).is_some());
    assert!(pool.allocate(2, 0).is_some());
    assert_eq!(pool.allocate(3, 0), None);
}

#[test]
fn expired_entries_become_reassignable() {
    let mut pool = LeasePool::new(10, 1, 100);
    let a = pool.allocate(1, 0).unwrap();
    // While client 1's lease runs, client 2 is refused.
    assert_eq!(pool.allocate(2, 50), None);
    // Once it expires, the same address may be granted anew.
    let b = pool.allocate(2, 100).unwrap();
    assert_eq!(a, b);
}

#[test]
fn released_slot_is_granted_again() {
    let mut pool = LeasePool::new(10, 1, 1000);
    let a = pool.allocate(1, 0).unwrap();
    assert!(pool.release(1));
    assert!(!pool.release(1));
    let b = pool.allocate(2, 0).unwrap();
    assert_eq!(a, b);
}

#[test]
fn addresses_come_from_the_configured_range() {
    let mut pool = LeasePool::new(200, 3, 1000);
    for client in 0..3u64 {
        let addr = pool.allocate(client, 0).unwrap();
        assert!((200..203).contains(&addr));
    }
}


#[test]
fn server_advertises_itself_as_gateway_and_authority() {
    let cfg = LeaseServerConfig { own_addr: 0xC0A8_0201 };
    assert_eq!(cfg.advertised_gateway(), 0xC0A8_0201);
    assert_eq!(cfg.advertised_authority(), 0xC0A8_0201);
}

#[test]
fn serve_error_backs_off_then_rebinds() {
    let mut s = LeaseServer::new();
    assert_eq!(s.step(&LeaseServerEvent::BindOk), LeaseServerAction::Serve);
    assert_eq!(s.step(&LeaseServerEvent::ServeFailed), LeaseServerAction::Sleep);
    assert_eq!(s.step(&LeaseServerEvent::BackoffElapsed), LeaseServerAction::Bind);
    assert_eq!(s.phase, LeaseServerPhase::Binding);
    assert_eq!(s.step(&LeaseServerEvent::BindOk), LeaseServerAction::Serve);
}

#[test]
fn bind_failure_backs_off_too() {
    let mut s = LeaseServer::new();
    assert_eq!(s.step(&LeaseServerEvent::BindFailed), LeaseServerAction::Sleep);
    assert_eq!(s.step(&LeaseServerEvent::BackoffElapsed), LeaseServerAction::Bind);
    assert_eq!(LEASE_RETRY_INTERVAL_MS, 500);
}
