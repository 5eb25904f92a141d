//! The bridge context: the one object owning the session registry, the
//! one-shot initialization flag and the single notification sink, passed
//! explicitly into every entry point.
//!
//! The sink is an opaque callback handle; emitting means handing back
//! `(sink, event)` pairs for the caller to invoke. At most one sink is
//! active at a time: registering a new one replaces the previous.

use vstd::prelude::*;

use crate::info::{ConnectionInfo, Event, EventKind, EventV};
use crate::lookup::{has_key, index_of_key};
use crate::registry::{
    addrs_of, disconnected_name, remove_addr, removal_steps, ConnectResult, DisconnectOutcome,
    SessionManager, SessionV, SubsystemSet,
};
use crate::session::{abort_steps, SppV, XiaomiSpp};
use crate::strutil::{eq_ignore_ascii_case, lower_seq};
use crate::SessionError;

verus! {

/// How the physical link is carried.
#[derive(Debug, Clone, Copy, PartialEq, Eq, Structural)]
pub enum ConnectType {
    /// The serial-profile stream transport (the default).
    Spp,
    /// The secondary-radio transport.
    Ble,
}

/// The connect type a request string selects: the secondary radio when the
/// string spells it (in any ASCII case), the stream transport otherwise.
pub open spec fn connect_type_of(s: Seq<char>) -> ConnectType {
    if lower_seq(s) == "ble"@ {
        ConnectType::Ble
    } else {
        ConnectType::Spp
    }
}

/// Parses the requested connect type.
pub fn connect_type_from_str(value: &str) -> (r: ConnectType)
    ensures
        r == connect_type_of(value@),
{
    proof {
        reveal_strlit("ble");
        assert(lower_seq("ble"@) =~= "ble"@);
    }
    if eq_ignore_ascii_case(value, "ble") {
        ConnectType::Ble
    } else {
        ConnectType::Spp
    }
}

/// Which device datum a caller may request.
#[derive(Debug, Clone, Copy, PartialEq, Eq, Structural)]
pub enum DataKind {
    Info,
    Status,
    Storage,
}

/// The datum a request string selects, compared without regard to ASCII
/// case; anything else selects nothing and is an unsupported request.
pub open spec fn data_kind_of(s: Seq<char>) -> Option<DataKind> {
    if lower_seq(s) == "info"@ {
        Some(DataKind::Info)
    } else if lower_seq(s) == "status"@ {
        Some(DataKind::Status)
    } else if lower_seq(s) == "storage"@ {
        Some(DataKind::Storage)
    } else {
        None
    }
}

/// Parses the requested device datum.
pub fn data_kind_from_str(s: &str) -> (r: Option<DataKind>)
    ensures
        r == data_kind_of(s@),
{
    proof {
        reveal_strlit("info");
        reveal_strlit("status");
        reveal_strlit("storage");
        assert(lower_seq("info"@) =~= "info"@);
        assert(lower_seq("status"@) =~= "status"@);
        assert(lower_seq("storage"@) =~= "storage"@);
    }
    if eq_ignore_ascii_case(s, "info") {
        Some(DataKind::Info)
    } else if eq_ignore_ascii_case(s, "status") {
        Some(DataKind::Status)
    } else if eq_ignore_ascii_case(s, "storage") {
        Some(DataKind::Storage)
    } else {
        None
    }
}

/// One of a device's subsystems.
#[derive(Debug, Clone, Copy, PartialEq, Eq, Structural)]
pub enum Subsystem {
    Info,
    Install,
    Resource,
    Watchface,
    ThirdPartyApp,
}

/// Whether a device's subsystem set carries the requested subsystem.
pub open spec fn subsystem_present(set: SubsystemSet, which: Subsystem) -> bool {
    match which {
        Subsystem::Info => set.info,
        Subsystem::Install => set.install,
        Subsystem::Resource => set.resource,
        Subsystem::Watchface => set.watchface,
        Subsystem::ThirdPartyApp => set.thirdparty_app,
    }
}

/// Resolves a subsystem call's target: the device must be registered under
/// `addr` and must carry the subsystem. Either failure is surfaced per
/// call and leaves every session untouched.
pub fn check_subsystem(mgr: &SessionManager, addr: &String, which: Subsystem) -> (r: Result<
    (),
    SessionError,
>)
    ensures
        ({
            let i = index_of_key(addrs_of(mgr@), addr@);
            if i < 0 {
                r matches Err(e) && e is DeviceNotFound
            } else if !subsystem_present(mgr@[i].subsystems, which) {
                r matches Err(e) && e is SubsystemNotFound
            } else {
                r is Ok
            }
        }),
{
    match mgr.get_subsystems(addr) {
        Some(set) => {
            let present = match which {
                Subsystem::Info => set.info,
                Subsystem::Install => set.install,
                Subsystem::Resource => set.resource,
                Subsystem::Watchface => set.watchface,
                Subsystem::ThirdPartyApp => set.thirdparty_app,
            };
            if present {
                Ok(())
            } else {
                Err(SessionError::SubsystemNotFound)
            }
        },
        None => Err(SessionError::DeviceNotFound),
    }
}

/// A third-party app's identity on the device.
#[derive(Debug)]
pub struct AppInfo {
    pub package_name: String,
    pub fingerprint: Vec<u8>,
}

/// The mathematical value of an [`AppInfo`].
pub ghost struct AppInfoV {
    pub package_name: Seq<char>,
    pub fingerprint: Seq<u8>,
}

impl View for AppInfo {
    type V = AppInfoV;

    open spec fn view(&self) -> AppInfoV {
        AppInfoV { package_name: self.package_name@, fingerprint: self.fingerprint@ }
    }
}

/// The views of a sequence of app identities.
pub open spec fn apps_view(apps: Seq<AppInfo>) -> Seq<AppInfoV> {
    apps.map_values(|a: AppInfo| a@)
}

/// The package names of a sequence of app identities, in order.
pub open spec fn app_names_of(apps: Seq<AppInfoV>) -> Seq<Seq<char>> {
    apps.map_values(|a: AppInfoV| a.package_name)
}

/// Looks a package name up in the device's known quick apps: the first
/// entry with that package name, or nothing when none carries it.
pub fn get_app_info(apps: &Vec<AppInfo>, package_name: &String) -> (r: Option<AppInfo>)
    ensures
        ({
            let i = index_of_key(app_names_of(apps_view(apps@)), package_name@);
            match r {
                Some(a) => i >= 0 && a@ == apps_view(apps@)[i],
                None => i == -1,
            }
        }),
{
    let n = apps.len();
    let mut i: usize = 0;
    while i < n
        invariant
            i <= n,
            n == apps@.len(),
            forall|j: int| 0 <= j < i ==> app_names_of(apps_view(apps@))[j] != package_name@,
        decreases n - i,
    {
        let a = &apps[i];
        if a.package_name == *package_name {
            proof {
                assert(app_names_of(apps_view(apps@))[i as int] == package_name@);
                crate::lookup::lemma_index_of_key_at(
                    app_names_of(apps_view(apps@)),
                    package_name@,
                    i as int,
                );
            }
            let found = AppInfo {
                package_name: a.package_name.clone(),
                fingerprint: vstd::slice::slice_to_vec(a.fingerprint.as_slice()),
            };
            return Some(found);
        }
        i = i + 1;
    }
    proof {
        crate::lookup::lemma_index_of_key(app_names_of(apps_view(apps@)), package_name@);
    }
    None
}

/// The explicit context every entry point receives: the session registry,
/// the one-shot initialization flag, and the single notification sink (an
/// opaque callback handle owned by the caller).
pub struct MiwearBridge {
    pub initialized: bool,
    pub sink: Option<u64>,
    pub sessions: SessionManager,
}

impl MiwearBridge {
    /// A fresh context: uninitialized, no sink, empty registry.
    pub fn new() -> (r: MiwearBridge)
        ensures
            !r.initialized,
            (r.sink is None),
            r.sessions@ == Seq::<SessionV>::empty(),
            r.sessions.wf(),
    {
        MiwearBridge { initialized: false, sink: None, sessions: SessionManager::new() }
    }
}

/// Marks the core initialized, once: the first call reports that the
/// caller must run its one-time setup; later calls change nothing.
pub fn ensure_core_initialized(b: &mut MiwearBridge) -> (first: bool)
    ensures
        final(b).initialized,
        first == !old(b).initialized,
        final(b).sink == old(b).sink,
        final(b).sessions@ == old(b).sessions@,
{
    let first = !b.initialized;
    b.initialized = true;
    first
}

/// Installs the notification sink. At most one is active: a new handle
/// replaces whatever was registered before.
pub fn register_event_sink(b: &mut MiwearBridge, sink: u64)
    ensures
        final(b).sink == Some(sink),
        final(b).initialized == old(b).initialized,
        final(b).sessions@ == old(b).sessions@,
{
    b.sink = Some(sink);
}

/// Emits one event: hands back the `(sink, event)` pair to invoke, or
/// nothing when no sink is registered.
pub fn emit_event(b: &MiwearBridge, event: Event) -> (r: Option<(u64, Event)>)
    ensures
        b.sink matches Some(s) ==> (r matches Some(d) && d.0 == s && d.1@ == event@),
        (b.sink is None) ==> (r is None),
{
    match b.sink {
        Some(s) => Some((s, event)),
        None => None,
    }
}

/// Routes a batch of events to the registered sink: one delivery per
/// event, in order, or none at all when no sink is registered.
pub fn route_events(b: &MiwearBridge, events: &Vec<Event>) -> (r: Vec<(u64, Event)>)
    ensures
        b.sink matches Some(s) ==> r@.len() == events@.len() && (forall|i: int|
            0 <= i < events@.len() ==> (#[trigger] r@[i]).0 == s && r@[i].1@ == events@[i]@),
        (b.sink is None) ==> r@.len() == 0,
{
    let mut out: Vec<(u64, Event)> = Vec::new();
    match b.sink {
        Some(s) => {
            let n = events.len();
            let mut i: usize = 0;
            while i < n
                invariant
                    i <= n,
                    n == events@.len(),
                    out@.len() == i,
                    forall|j: int|
                        0 <= j < i ==> (#[trigger] out@[j]).0 == s && out@[j].1@ == events@[j]@,
                decreases n - i,
            {
                out.push((s, events[i].snapshot()));
                i = i + 1;
            }
            out
        },
        None => out,
    }
}

/// Completes a connect: applies the handshake outcome to the cleaned
/// registry (a connect tears every session down first, so the registry is
/// empty here) and routes the "device-connected" notification. On success
/// the session is registered under the handshake's address; on failure
/// nothing is registered, nothing is emitted, and the caller performs the
/// returned handle releases and surfaces the handshake error.
pub fn miwear_connect(
    b: &mut MiwearBridge,
    link: XiaomiSpp,
    subsystems: SubsystemSet,
    handshake: Result<ConnectionInfo, String>,
) -> (r: (ConnectResult, Vec<(u64, Event)>))
    requires
        old(b).sessions@.len() == 0,
    ensures
        final(b).sessions.wf(),
        final(b).sink == old(b).sink,
        final(b).initialized == old(b).initialized,
        (match handshake {
            Ok(info) => {
                &&& final(b).sessions@.len() == 1
                &&& final(b).sessions@[0] == (SessionV {
                    name: info@.name,
                    addr: info@.addr,
                    subsystems,
                    link: SppV { started: true, ..link@ },
                })
                &&& r.0.result matches Ok(out)
                &&& out@ == info@
                &&& r.0.steps@.len() == 0
                &&& r.0.events@.len() == 1
                &&& r.0.events@[0]@ == (EventV { kind: EventKind::DeviceConnected, info: info@ })
            },
            Err(cause) => {
                &&& final(b).sessions@.len() == 0
                &&& r.0.result matches Err(e)
                &&& e matches SessionError::HandshakeFailed(c)
                &&& c@ == cause@
                &&& r.0.steps@ == abort_steps(link@)
                &&& r.0.events@.len() == 0
            },
        }),
        old(b).sink matches Some(s) ==> r.1@.len() == r.0.events@.len() && (forall|i: int|
            0 <= i < r.0.events@.len() ==> (#[trigger] r.1@[i]).0 == s && r.1@[i].1@
                == r.0.events@[i]@),
        (old(b).sink is None) ==> r.1@.len() == 0,
{
    let result = b.sessions.complete_connect(link, subsystems, handshake);
    let deliveries = route_events(b, &result.events);
    (result, deliveries)
}

/// An explicit disconnect: removes the session registered under `addr` (a
/// no-op when none is), yields its teardown, and routes exactly one
/// "device-disconnected" notification — with an empty name when the
/// address was unknown or already gone.
pub fn miwear_disconnect(b: &mut MiwearBridge, addr: &String) -> (r: (
    DisconnectOutcome,
    Vec<(u64, Event)>,
))
    requires
        old(b).sessions.wf(),
    ensures
        final(b).sessions.wf(),
        final(b).sink == old(b).sink,
        final(b).initialized == old(b).initialized,
        final(b).sessions@ == remove_addr(old(b).sessions@, addr@),
        !has_key(addrs_of(final(b).sessions@), addr@),
        r.0.info@.addr == addr@,
        r.0.info@.name == disconnected_name(old(b).sessions@, addr@),
        r.0.steps@ == removal_steps(old(b).sessions@, addr@),
        r.0.events@.len() == 1,
        r.0.events@[0]@ == (EventV { kind: EventKind::DeviceDisconnected, info: r.0.info@ }),
        old(b).sink matches Some(s) ==> r.1@.len() == 1 && (#[trigger] r.1@[0]).0 == s
            && r.1@[0].1@ == r.0.events@[0]@,
        (old(b).sink is None) ==> r.1@.len() == 0,
{
    let outcome = b.sessions.disconnect(addr);
    let deliveries = route_events(b, &outcome.events);
    (outcome, deliveries)
}

} // verus!
