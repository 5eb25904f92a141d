//! Connection snapshots: the `{name, address}` value handed to callers and to
//! the notification sink on connect and disconnect.

use vstd::prelude::*;

verus! {

/// A snapshot of a session's identity. Not owned by the session: produced on
/// connect and on disconnect (possibly with an empty name if the session was
/// already gone).
#[derive(Debug)]
pub struct ConnectionInfo {
    pub name: String,
    pub addr: String,
}

/// The mathematical value of a [`ConnectionInfo`]: both fields as character
/// sequences.
pub ghost struct ConnectionInfoV {
    pub name: Seq<char>,
    pub addr: Seq<char>,
}

impl View for ConnectionInfo {
    type V = ConnectionInfoV;

    open spec fn view(&self) -> ConnectionInfoV {
        ConnectionInfoV { name: self.name@, addr: self.addr@ }
    }
}

impl ConnectionInfo {
    /// An independent copy carrying the same name and address.
    pub fn snapshot(&self) -> (r: ConnectionInfo)
        ensures
            r@ == self@,
    {
        ConnectionInfo { name: self.name.clone(), addr: self.addr.clone() }
    }
}

/// Which notification an event carries.
#[derive(Debug, Clone, Copy, PartialEq, Eq, Structural)]
pub enum EventKind {
    DeviceConnected,
    DeviceDisconnected,
}

/// A notification handed to the registered sink: an event name and its
/// `{name, address}` payload.
#[derive(Debug)]
pub struct Event {
    pub kind: EventKind,
    pub info: ConnectionInfo,
}

/// The mathematical value of an [`Event`].
pub ghost struct EventV {
    pub kind: EventKind,
    pub info: ConnectionInfoV,
}

impl View for Event {
    type V = EventV;

    open spec fn view(&self) -> EventV {
        EventV { kind: self.kind, info: self.info@ }
    }
}

/// The wire name of each event kind.
pub open spec fn spec_event_name(kind: EventKind) -> Seq<char> {
    match kind {
        EventKind::DeviceConnected => "device-connected"@,
        EventKind::DeviceDisconnected => "device-disconnected"@,
    }
}

impl Event {
    /// The name under which this event is emitted.
    pub fn event_name(&self) -> (r: &str)
        ensures
            r@ == spec_event_name(self@.kind),
    {
        match self.kind {
            EventKind::DeviceConnected => "device-connected",
            EventKind::DeviceDisconnected => "device-disconnected",
        }
    }

    /// An independent copy carrying the same kind and payload.
    pub fn snapshot(&self) -> (r: Event)
        ensures
            r@ == self@,
    {
        Event { kind: self.kind, info: self.info.snapshot() }
    }
}

impl PartialEq for ConnectionInfo {
    fn eq(&self, other: &ConnectionInfo) -> (r: bool) {
        self.name == other.name && self.addr == other.addr
    }
}

impl Eq for ConnectionInfo {}

impl vstd::std_specs::cmp::PartialEqSpecImpl for ConnectionInfo {
    open spec fn obeys_eq_spec() -> bool {
        true
    }

    open spec fn eq_spec(&self, other: &ConnectionInfo) -> bool {
        self@ == other@
    }
}

} // verus!
