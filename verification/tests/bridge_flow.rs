use miwear_bridge::bridge::{
    ensure_core_initialized, miwear_connect, miwear_disconnect, register_event_sink, MiwearBridge,
};
use miwear_bridge::info::{ConnectionInfo, EventKind};
use miwear_bridge::registry::{SessionManager, SubsystemSet};
use miwear_bridge::session::{TeardownStep, XiaomiSpp};
use miwear_bridge::SessionError;

fn fresh_link(serial: &str) -> XiaomiSpp {
    XiaomiSpp::new(1, Some(serial.to_string()), None, None, 0)
}

#[test]
fn scenario_connect_success() {
    let mut b = MiwearBridge::new();
    assert!(ensure_core_initialized(&mut b));
    assert!(!ensure_core_initialized(&mut b));
    register_event_sink(&mut b, 7);

    let mut link = fresh_link("SN123");
    assert_eq!(link.device_addr(), "serial:SN123");
    let name = link.resolve_name("Watch");
    assert_eq!(name, "Watch");
    let addr = link.resolve_address("");
    assert_eq!(addr, "serial:SN123");
    let writer = link.start(2, 3);
    assert_eq!(writer, 3);

    let handshake = Ok(ConnectionInfo { name, addr });
    let (result, deliveries) = miwear_connect(&mut b, link, SubsystemSet::full(), handshake);

    let info = result.result.expect("connect should succeed");
    assert_eq!(info.name, "Watch");
    assert_eq!(info.addr, "serial:SN123");
    assert!(result.steps.is_empty());
    assert_eq!(result.events.len(), 1);
    assert_eq!(result.events[0].kind, EventKind::DeviceConnected);
    assert_eq!(result.events[0].event_name(), "device-connected");
    assert_eq!(result.events[0].info.name, "Watch");
    assert_eq!(result.events[0].info.addr, "serial:SN123");
    assert_eq!(deliveries.len(), 1);
    assert_eq!(deliveries[0].0, 7);
    assert_eq!(deliveries[0].1.info.addr, "serial:SN123");

    let listed = b.sessions.miwear_get_connected_devices();
    assert_eq!(listed.len(), 1);
    assert_eq!(listed[0].name, "Watch");
    assert_eq!(listed[0].addr, "serial:SN123");
}

#[test]
fn scenario_connect_handshake_failure() {
    let mut b = MiwearBridge::new();
    let mut link = fresh_link("SN123");
    let _ = link.start(2, 3);

    let handshake = Err("bad authkey".to_string());
    let (result, deliveries) = miwear_connect(&mut b, link, SubsystemSet::full(), handshake);

    match result.result {
        Err(SessionError::HandshakeFailed(cause)) => assert_eq!(cause, "bad authkey"),
        other => panic!("expected a handshake failure, got {:?}", other),
    }
    // The transport is released: writer closed, reader released, port closed.
    assert_eq!(
        result.steps,
        vec![
            TeardownStep::CloseWriter(3),
            TeardownStep::ReleaseReader(2),
            TeardownStep::CloseTransport(1),
        ]
    );
    assert!(result.events.is_empty());
    assert!(deliveries.is_empty());
    assert!(b.sessions.miwear_get_connected_devices().is_empty());
}

#[test]
fn scenario_disconnect_unknown_address() {
    let mut b = MiwearBridge::new();
    register_event_sink(&mut b, 9);
    let addr = "unknown-addr".to_string();
    let (outcome, deliveries) = miwear_disconnect(&mut b, &addr);

    assert_eq!(outcome.info, ConnectionInfo { name: String::new(), addr: addr.clone() });
    assert!(outcome.steps.is_empty());
    assert_eq!(outcome.events.len(), 1);
    assert_eq!(outcome.events[0].kind, EventKind::DeviceDisconnected);
    assert_eq!(outcome.events[0].event_name(), "device-disconnected");
    assert_eq!(outcome.events[0].info.name, "");
    assert_eq!(outcome.events[0].info.addr, "unknown-addr");
    assert_eq!(deliveries.len(), 1);
    assert_eq!(deliveries[0].0, 9);
}

#[test]
fn disconnect_twice_tears_down_once() {
    let mut b = MiwearBridge::new();
    let mut link = fresh_link("SN9");
    let name = link.resolve_name("");
    let addr = link.resolve_address("");
    let _ = link.start(20, 30);
    let handshake = Ok(ConnectionInfo { name, addr: addr.clone() });
    let (result, _) = miwear_connect(&mut b, link, SubsystemSet::full(), handshake);
    result.result.expect("connect should succeed");

    let (first, _) = miwear_disconnect(&mut b, &addr);
    assert_eq!(first.info.addr, "serial:SN9");
    // No explicit name was given, so the probed label became the name.
    assert_eq!(first.info.name, "SN9");
    // One real teardown, in order: writer, reader, transport, context.
    assert_eq!(
        first.steps,
        vec![
            TeardownStep::CloseWriter(30),
            TeardownStep::ReleaseReader(20),
            TeardownStep::CloseTransport(1),
            TeardownStep::DropContext,
        ]
    );
    assert_eq!(first.events.len(), 1);

    let (second, _) = miwear_disconnect(&mut b, &addr);
    // The second call finds nothing: no teardown, empty name, but still
    // exactly one notification.
    assert!(second.steps.is_empty());
    assert_eq!(second.info.name, "");
    assert_eq!(second.info.addr, "serial:SN9");
    assert_eq!(second.events.len(), 1);
    assert_eq!(second.events[0].kind, EventKind::DeviceDisconnected);
    assert!(b.sessions.miwear_get_connected_devices().is_empty());
}

#[test]
fn registry_holds_at_most_one_session_per_address() {
    let mut mgr = SessionManager::new();
    let mut link = fresh_link("SNX");
    let name = link.resolve_name("First");
    let addr = link.resolve_address("");
    let _ = link.start(4, 5);
    let r = mgr.complete_connect(
        link,
        SubsystemSet::full(),
        Ok(ConnectionInfo { name, addr: addr.clone() }),
    );
    r.result.expect("connect should succeed");
    assert_eq!(mgr.miwear_get_connected_devices().len(), 1);

    // A new connect first drains every session; the registry never holds
    // two entries under one address.
    let drained = mgr.disconnect_all_sessions();
    assert_eq!(drained.len(), 1);
    assert_eq!(drained[0].info.name, "First");
    assert_eq!(drained[0].info.addr, "serial:SNX");
    assert!(mgr.miwear_get_connected_devices().is_empty());

    let mut link2 = fresh_link("SNX");
    let name2 = link2.resolve_name("Second");
    let addr2 = link2.resolve_address("");
    let _ = link2.start(6, 7);
    let r2 = mgr.complete_connect(
        link2,
        SubsystemSet::full(),
        Ok(ConnectionInfo { name: name2, addr: addr2 }),
    );
    r2.result.expect("connect should succeed");
    let listed = mgr.miwear_get_connected_devices();
    assert_eq!(listed.len(), 1);
    assert_eq!(listed[0].name, "Second");
}

#[test]
fn remote_disconnect_notifies_exactly_once() {
    let mut mgr = SessionManager::new();
    let mut link = fresh_link("SNR");
    let name = link.resolve_name("");
    let addr = link.resolve_address("");
    let _ = link.start(2, 3);
    let r = mgr.complete_connect(
        link,
        SubsystemSet::full(),
        Ok(ConnectionInfo { name, addr: addr.clone() }),
    );
    r.result.expect("connect should succeed");

    // A transport stream-end fires the remote trigger with no explicit
    // disconnect call; one notification results.
    let outcome = mgr.handle_remote_disconnect(&addr);
    assert_eq!(outcome.events.len(), 1);
    assert_eq!(outcome.events[0].kind, EventKind::DeviceDisconnected);
    assert_eq!(outcome.events[0].info.addr, "serial:SNR");
    assert!(mgr.miwear_get_connected_devices().is_empty());

    // The late explicit disconnect is the losing trigger: a no-op with one
    // more (empty-name) notification.
    let late = mgr.disconnect(&addr);
    assert!(late.steps.is_empty());
    assert_eq!(late.info.name, "");
    assert_eq!(late.events.len(), 1);
}
