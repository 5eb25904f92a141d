use miwear_bridge::bridge::{
    check_subsystem, emit_event, get_app_info, register_event_sink, AppInfo, MiwearBridge,
    Subsystem,
};
use miwear_bridge::info::{ConnectionInfo, Event, EventKind};
use miwear_bridge::registry::{SessionManager, SubsystemSet};
use miwear_bridge::session::XiaomiSpp;
use miwear_bridge::SessionError;

fn connect_with(mgr: &mut SessionManager, subsystems: SubsystemSet, serial: &str) -> String {
    let mut link = XiaomiSpp::new(1, Some(serial.to_string()), None, None, 0);
    let name = link.resolve_name("");
    let addr = link.resolve_address("");
    let _ = link.start(2, 3);
    let r = mgr.complete_connect(link, subsystems, Ok(ConnectionInfo { name, addr: addr.clone() }));
    r.result.expect("connect should succeed");
    addr
}

#[test]
fn subsystem_call_on_unknown_device_fails() {
    let mgr = SessionManager::new();
    let addr = "nowhere".to_string();
    assert_eq!(check_subsystem(&mgr, &addr, Subsystem::Info), Err(SessionError::DeviceNotFound));
}

#[test]
fn missing_subsystem_is_a_per_call_error() {
    let mut mgr = SessionManager::new();
    let mut set = SubsystemSet::full();
    set.install = false;
    let addr = connect_with(&mut mgr, set, "SNA");
    assert_eq!(check_subsystem(&mgr, &addr, Subsystem::Install), Err(SessionError::SubsystemNotFound));
    // The failure leaves the session untouched.
    assert_eq!(check_subsystem(&mgr, &addr, Subsystem::Info), Ok(()));
    assert_eq!(check_subsystem(&mgr, &addr, Subsystem::Resource), Ok(()));
    assert_eq!(check_subsystem(&mgr, &addr, Subsystem::Watchface), Ok(()));
    assert_eq!(check_subsystem(&mgr, &addr, Subsystem::ThirdPartyApp), Ok(()));
    assert_eq!(mgr.miwear_get_connected_devices().len(), 1);
}

#[test]
fn app_lookup_finds_first_match() {
    let apps = vec![
        AppInfo { package_name: "com.a".to_string(), fingerprint: vec![1, 2] },
        AppInfo { package_name: "com.b".to_string(), fingerprint: vec![3] },
        AppInfo { package_name: "com.b".to_string(), fingerprint: vec![4] },
    ];
    let target = "com.b".to_string();
    let found = get_app_info(&apps, &target).expect("the app should be found");
    assert_eq!(found.package_name, "com.b");
    assert_eq!(found.fingerprint, vec![3]);
    let missing = "com.c".to_string();
    assert!(get_app_info(&apps, &missing).is_none());
    assert!(get_app_info(&Vec::new(), &target).is_none());
}

#[test]
fn sink_registration_replaces_previous() {
    let mut b = MiwearBridge::new();
    let ev = Event {
        kind: EventKind::DeviceConnected,
        info: ConnectionInfo { name: "n".to_string(), addr: "a".to_string() },
    };
    assert!(emit_event(&b, ev.snapshot()).is_none());
    register_event_sink(&mut b, 1);
    register_event_sink(&mut b, 2);
    let delivered = emit_event(&b, ev).expect("a sink is registered");
    assert_eq!(delivered.0, 2);
    assert_eq!(delivered.1.info.addr, "a");
}
