//! The session registry: the one serialized mapping from device address to
//! live session, and the connect/disconnect transitions over it.
//!
//! Addresses are unique keys. A disconnect — local request or remote
//! stream-end — removes the entry first, so a second trigger for the same
//! address finds nothing and tears nothing down, while still yielding a
//! best-effort snapshot and exactly one notification.

use vstd::prelude::*;

use crate::info::{ConnectionInfo, Event, EventKind, EventV};
use crate::lookup::{has_key, index_of_key, lemma_index_of_key, lemma_index_of_key_at};
use crate::session::{abort_steps, spp_teardown, SppV, StartOutcome, TeardownStep, XiaomiSpp};
use crate::SessionError;

verus! {

/// Which subsystems a device's entity carries. Fetching a subsystem that the
/// device lacks is a per-call error, not a session failure.
#[derive(Debug, Clone, Copy, PartialEq, Eq, Structural)]
pub struct SubsystemSet {
    pub info: bool,
    pub install: bool,
    pub resource: bool,
    pub watchface: bool,
    pub thirdparty_app: bool,
}

impl SubsystemSet {
    /// A device carrying every subsystem.
    pub fn full() -> (r: SubsystemSet)
        ensures
            r == (SubsystemSet {
                info: true,
                install: true,
                resource: true,
                watchface: true,
                thirdparty_app: true,
            }),
    {
        SubsystemSet { info: true, install: true, resource: true, watchface: true, thirdparty_app: true }
    }
}

/// A live session: the binding between a device address, its display name,
/// its subsystems and its exclusively owned transport link.
pub struct Session {
    pub name: String,
    pub addr: String,
    pub subsystems: SubsystemSet,
    pub link: XiaomiSpp,
}

/// The mathematical value of a [`Session`].
pub ghost struct SessionV {
    pub name: Seq<char>,
    pub addr: Seq<char>,
    pub subsystems: SubsystemSet,
    pub link: SppV,
}

impl View for Session {
    type V = SessionV;

    open spec fn view(&self) -> SessionV {
        SessionV { name: self.name@, addr: self.addr@, subsystems: self.subsystems, link: self.link@ }
    }
}

/// The addresses of a registry value, in registry order.
pub open spec fn addrs_of(m: Seq<SessionV>) -> Seq<Seq<char>> {
    m.map_values(|s: SessionV| s.addr)
}

/// No two entries share an address.
pub open spec fn unique_addrs(m: Seq<SessionV>) -> bool {
    forall|i: int, j: int|
        0 <= i < m.len() && 0 <= j < m.len() && i != j ==> addrs_of(m)[i] != addrs_of(m)[j]
}

/// The registry after removing `addr`: unchanged when the address is
/// absent, else with its (single) entry taken out.
pub open spec fn remove_addr(m: Seq<SessionV>, addr: Seq<char>) -> Seq<SessionV> {
    let i = index_of_key(addrs_of(m), addr);
    if i < 0 {
        m
    } else {
        m.remove(i)
    }
}

/// The name a disconnect for `addr` reports: the registered session's name,
/// or empty when the address is unknown.
pub open spec fn disconnected_name(m: Seq<SessionV>, addr: Seq<char>) -> Seq<char> {
    let i = index_of_key(addrs_of(m), addr);
    if i < 0 {
        Seq::<char>::empty()
    } else {
        m[i].name
    }
}

/// The teardown a disconnect for `addr` performs: the registered link's
/// teardown, or nothing when the address is unknown.
pub open spec fn removal_steps(m: Seq<SessionV>, addr: Seq<char>) -> Seq<TeardownStep> {
    let i = index_of_key(addrs_of(m), addr);
    if i < 0 {
        Seq::<TeardownStep>::empty()
    } else {
        spp_teardown(m[i].link)
    }
}

/// What one disconnect call yields: the `{name, address}` snapshot, the
/// teardown steps the caller performs (empty when nothing was registered),
/// and the notifications to emit — always exactly one, "device-disconnected",
/// carrying the snapshot.
pub struct DisconnectOutcome {
    pub info: ConnectionInfo,
    pub steps: Vec<TeardownStep>,
    pub events: Vec<Event>,
}

/// The registry of live sessions, keyed by address.
pub struct SessionManager {
    sessions: Vec<Session>,
}

impl View for SessionManager {
    type V = Seq<SessionV>;

    closed spec fn view(&self) -> Seq<SessionV> {
        self.sessions@.map_values(|s: Session| s@)
    }
}

impl SessionManager {
    /// Addresses are unique: the registry holds at most one session per
    /// address.
    pub open spec fn wf(&self) -> bool {
        unique_addrs(self@)
    }

    /// An empty registry.
    pub fn new() -> (r: SessionManager)
        ensures
            r@ == Seq::<SessionV>::empty(),
            r.wf(),
    {
        let r = SessionManager { sessions: Vec::new() };
        proof {
            assert(r@ =~= Seq::<SessionV>::empty());
        }
        r
    }

    /// Where `addr` is registered, as the first (and, with `wf`, only)
    /// matching position.
    fn find_index(&self, addr: &String) -> (r: Option<usize>)
        ensures
            (match r {
                Some(i) => i as int == index_of_key(addrs_of(self@), addr@),
                None => index_of_key(addrs_of(self@), addr@) == -1,
            }),
    {
        let n = self.sessions.len();
        let mut i: usize = 0;
        while i < n
            invariant
                i <= n,
                n == self.sessions@.len(),
                forall|j: int| 0 <= j < i ==> addrs_of(self@)[j] != addr@,
            decreases n - i,
        {
            if self.sessions[i].addr == *addr {
                proof {
                    assert(addrs_of(self@)[i as int] == addr@);
                    lemma_index_of_key_at(addrs_of(self@), addr@, i as int);
                }
                return Some(i);
            }
            i = i + 1;
        }
        proof {
            lemma_index_of_key(addrs_of(self@), addr@);
        }
        None
    }

    /// Whether a session is registered under `addr`.
    pub fn contains_device(&self, addr: &String) -> (r: bool)
        ensures
            r == has_key(addrs_of(self@), addr@),
    {
        proof {
            lemma_index_of_key(addrs_of(self@), addr@);
        }
        match self.find_index(addr) {
            Some(_) => true,
            None => false,
        }
    }

    /// Registers a session under an address not yet held.
    pub fn register(&mut self, s: Session)
        requires
            old(self).wf(),
            !has_key(addrs_of(old(self)@), s@.addr),
        ensures
            final(self)@ == old(self)@.push(s@),
            final(self).wf(),
    {
        self.sessions.push(s);
        proof {
            assert(final(self)@ =~= old(self)@.push(s@));
            assert forall|i: int, j: int|
                0 <= i < final(self)@.len() && 0 <= j < final(self)@.len() && i != j implies addrs_of(
                final(self)@,
            )[i] != addrs_of(final(self)@)[j] by {
                let m = old(self)@;
                if i < m.len() && j < m.len() {
                    assert(addrs_of(final(self)@)[i] == addrs_of(m)[i]);
                    assert(addrs_of(final(self)@)[j] == addrs_of(m)[j]);
                } else if i == m.len() {
                    assert(addrs_of(final(self)@)[i] == s@.addr);
                    assert(addrs_of(m)[j] != s@.addr);
                } else {
                    assert(addrs_of(final(self)@)[j] == s@.addr);
                    assert(addrs_of(m)[i] != s@.addr);
                }
            }
        }
    }

    /// Removes and returns the session registered under `addr`, if any. The
    /// address is guaranteed absent afterwards.
    pub fn remove_session(&mut self, addr: &String) -> (r: Option<Session>)
        requires
            old(self).wf(),
        ensures
            final(self).wf(),
            final(self)@ == remove_addr(old(self)@, addr@),
            !has_key(addrs_of(final(self)@), addr@),
            (match r {
                Some(s) => has_key(addrs_of(old(self)@), addr@) && s@ == old(self)@[index_of_key(
                    addrs_of(old(self)@),
                    addr@,
                )],
                None => !has_key(addrs_of(old(self)@), addr@),
            }),
    {
        proof {
            lemma_index_of_key(addrs_of(self@), addr@);
        }
        match self.find_index(addr) {
            Some(i) => {
                let s = self.sessions.remove(i);
                proof {
                    let m = old(self)@;
                    let gi = i as int;
                    assert(final(self)@ =~= m.remove(gi));
                    lemma_unique_after_remove(m, addr@, gi);
                }
                Some(s)
            },
            None => {
                None
            },
        }
    }

    /// A snapshot of every registered session, in registry order; callers
    /// must not read anything into the order.
    pub fn miwear_get_connected_devices(&self) -> (r: Vec<ConnectionInfo>)
        ensures
            r@.len() == self@.len(),
            forall|i: int|
                0 <= i < self@.len() ==> (#[trigger] r@[i])@.name == self@[i].name && r@[i]@.addr
                    == self@[i].addr,
    {
        let n = self.sessions.len();
        let mut out: Vec<ConnectionInfo> = Vec::new();
        let mut i: usize = 0;
        while i < n
            invariant
                i <= n,
                n == self.sessions@.len(),
                out@.len() == i,
                forall|j: int|
                    0 <= j < i ==> (#[trigger] out@[j])@.name == self@[j].name && out@[j]@.addr
                        == self@[j].addr,
            decreases n - i,
        {
            let s = &self.sessions[i];
            out.push(ConnectionInfo { name: s.name.clone(), addr: s.addr.clone() });
            i = i + 1;
        }
        out
    }
    /// The subsystems of the device registered under `addr`, or nothing
    /// when the address is unknown.
    pub fn get_subsystems(&self, addr: &String) -> (r: Option<SubsystemSet>)
        ensures
            (match r {
                Some(s) => index_of_key(addrs_of(self@), addr@) >= 0 && s == self@[index_of_key(
                    addrs_of(self@),
                    addr@,
                )].subsystems,
                None => index_of_key(addrs_of(self@), addr@) == -1,
            }),
    {
        proof {
            lemma_index_of_key(addrs_of(self@), addr@);
        }
        match self.find_index(addr) {
            Some(i) => Some(self.sessions[i].subsystems),
            None => None,
        }
    }

    /// The local disconnect trigger: removes the session registered under
    /// `addr` — first, so a racing trigger finds nothing — and yields its
    /// teardown and exactly one "device-disconnected" notification. With no
    /// session under `addr` this is a no-op that still yields the
    /// notification, with an empty name.
    pub fn disconnect(&mut self, addr: &String) -> (r: DisconnectOutcome)
        requires
            old(self).wf(),
        ensures
            final(self).wf(),
            final(self)@ == remove_addr(old(self)@, addr@),
            !has_key(addrs_of(final(self)@), addr@),
            r.info@.addr == addr@,
            r.info@.name == disconnected_name(old(self)@, addr@),
            r.steps@ == removal_steps(old(self)@, addr@),
            r.events@.len() == 1,
            r.events@[0]@ == (EventV { kind: EventKind::DeviceDisconnected, info: r.info@ }),
    {
        proof {
            lemma_index_of_key(addrs_of(self@), addr@);
        }
        let removed = self.remove_session(addr);
        let (name, steps): (String, Vec<TeardownStep>) = match removed {
            Some(s) => {
                let Session { name, addr: _, subsystems: _, link } = s;
                (name, link.disconnect())
            },
            None => {
                let empty_steps: Vec<TeardownStep> = Vec::new();
                proof {
                    assert(empty_steps@ =~= removal_steps(old(self)@, addr@));
                }
                (String::new(), empty_steps)
            },
        };
        let info = ConnectionInfo { name, addr: addr.clone() };
        let mut events: Vec<Event> = Vec::new();
        events.push(Event { kind: EventKind::DeviceDisconnected, info: info.snapshot() });
        DisconnectOutcome { info, steps, events }
    }

    /// The remote disconnect trigger, invoked when a session's inbound
    /// stream ends: the same transition as an explicit disconnect, so
    /// whichever trigger still finds the session wins and the other finds
    /// nothing.
    pub fn handle_remote_disconnect(&mut self, addr: &String) -> (r: DisconnectOutcome)
        requires
            old(self).wf(),
        ensures
            final(self).wf(),
            final(self)@ == remove_addr(old(self)@, addr@),
            !has_key(addrs_of(final(self)@), addr@),
            r.info@.addr == addr@,
            r.info@.name == disconnected_name(old(self)@, addr@),
            r.steps@ == removal_steps(old(self)@, addr@),
            r.events@.len() == 1,
            r.events@[0]@ == (EventV { kind: EventKind::DeviceDisconnected, info: r.info@ }),
    {
        self.disconnect(addr)
    }

    /// Tears every session down, in registry order, leaving the registry
    /// empty: one teardown and one "device-disconnected" notification per
    /// session. A connect begins with this, guaranteeing a clean slate.
    pub fn disconnect_all_sessions(&mut self) -> (r: Vec<DisconnectOutcome>)
        requires
            old(self).wf(),
        ensures
            final(self)@ == Seq::<SessionV>::empty(),
            final(self).wf(),
            r@.len() == old(self)@.len(),
            forall|i: int|
                0 <= i < old(self)@.len() ==> {
                    let o = #[trigger] r@[i];
                    &&& o.info@.addr == old(self)@[i].addr
                    &&& o.info@.name == old(self)@[i].name
                    &&& o.steps@ == spp_teardown(old(self)@[i].link)
                    &&& o.events@.len() == 1
                    &&& o.events@[0]@ == (EventV {
                        kind: EventKind::DeviceDisconnected,
                        info: o.info@,
                    })
                },
    {
        let ghost m0 = self@;
        let mut out: Vec<DisconnectOutcome> = Vec::new();
        proof {
            assert(self@ =~= m0.subrange(out@.len() as int, m0.len() as int));
        }
        while self.sessions.len() > 0
            invariant
                out@.len() + self@.len() == m0.len(),
                self@ == m0.subrange(out@.len() as int, m0.len() as int),
                self@.len() == self.sessions@.len(),
                forall|i: int|
                    0 <= i < out@.len() ==> {
                        let o = #[trigger] out@[i];
                        &&& o.info@.addr == m0[i].addr
                        &&& o.info@.name == m0[i].name
                        &&& o.steps@ == spp_teardown(m0[i].link)
                        &&& o.events@.len() == 1
                        &&& o.events@[0]@ == (EventV {
                            kind: EventKind::DeviceDisconnected,
                            info: o.info@,
                        })
                    },
            decreases self.sessions@.len(),
        {
            let ghost k = out@.len() as int;
            let ghost pre = self@;
            let s = self.sessions.remove(0);
            proof {
                assert(s@ == pre[0]);
                assert(s@ == m0[k]);
                assert(self@ =~= pre.subrange(1, pre.len() as int));
                assert(self@ =~= m0.subrange(k + 1, m0.len() as int));
            }
            let Session { name, addr, subsystems: _, link } = s;
            let info = ConnectionInfo { name, addr };
            let steps = link.disconnect();
            let mut events: Vec<Event> = Vec::new();
            events.push(Event { kind: EventKind::DeviceDisconnected, info: info.snapshot() });
            out.push(DisconnectOutcome { info, steps, events });
            proof {
                assert(self@ =~= m0.subrange(out@.len() as int, m0.len() as int));
            }
        }
        proof {
            assert(final(self)@ =~= Seq::<SessionV>::empty());
        }
        out
    }

    /// Applies the handshake outcome of a connect to a clean registry. On
    /// success the session is registered under the handshake's address and
    /// exactly one "device-connected" notification is yielded. On failure
    /// nothing is registered, no notification is yielded, and the caller
    /// performs the returned handle releases and surfaces the handshake
    /// error.
    pub fn complete_connect(
        &mut self,
        link: XiaomiSpp,
        subsystems: SubsystemSet,
        handshake: Result<ConnectionInfo, String>,
    ) -> (r: ConnectResult)
        requires
            old(self)@.len() == 0,
        ensures
            final(self).wf(),
            (match handshake {
                Ok(info) => {
                    &&& final(self)@.len() == 1
                    &&& final(self)@[0] == (SessionV {
                        name: info@.name,
                        addr: info@.addr,
                        subsystems,
                        link: SppV { started: true, ..link@ },
                    })
                    &&& r.result matches Ok(out)
                    &&& out@ == info@
                    &&& r.steps@.len() == 0
                    &&& r.events@.len() == 1
                    &&& r.events@[0]@ == (EventV { kind: EventKind::DeviceConnected, info: info@ })
                },
                Err(cause) => {
                    &&& final(self)@ == old(self)@
                    &&& r.result matches Err(e)
                    &&& e matches SessionError::HandshakeFailed(c)
                    &&& c@ == cause@
                    &&& r.steps@ == abort_steps(link@)
                    &&& r.events@.len() == 0
                },
            }),
    {
        let mut link = link;
        let outcome = link.finish_start(handshake);
        match outcome {
            StartOutcome::Established(info) => {
                let s = Session {
                    name: info.name.clone(),
                    addr: info.addr.clone(),
                    subsystems,
                    link,
                };
                proof {
                    assert(self.wf());
                    assert(!has_key(addrs_of(self@), s@.addr));
                }
                self.register(s);
                let mut events: Vec<Event> = Vec::new();
                events.push(Event { kind: EventKind::DeviceConnected, info: info.snapshot() });
                let empty_steps: Vec<TeardownStep> = Vec::new();
                ConnectResult { result: Ok(info), steps: empty_steps, events }
            },
            StartOutcome::Failed(e, steps) => {
                proof {
                    assert(self.wf());
                }
                let events: Vec<Event> = Vec::new();
                ConnectResult { result: Err(e), steps, events }
            },
        }
    }
}

/// What a connect yields: the result surfaced to the caller, the handle
/// releases to perform on failure, and the notifications to emit — one
/// "device-connected" on success, none on failure.
pub struct ConnectResult {
    pub result: Result<ConnectionInfo, SessionError>,
    pub steps: Vec<TeardownStep>,
    pub events: Vec<Event>,
}

/// The registry holds at most one session per address: two positions
/// carrying the same address are one and the same.
pub proof fn lemma_registry_at_most_one(m: Seq<SessionV>, i: int, j: int)
    requires
        unique_addrs(m),
        0 <= i < m.len(),
        0 <= j < m.len(),
        m[i].addr == m[j].addr,
    ensures
        i == j,
{
    if i != j {
        assert(addrs_of(m)[i] == m[i].addr);
        assert(addrs_of(m)[j] == m[j].addr);
    }
}

/// Disconnecting the same address twice in sequence performs exactly one
/// teardown: the second transition removes nothing, tears nothing down and
/// reports an empty name — while each call still notifies exactly once.
pub proof fn lemma_disconnect_idempotent(m: Seq<SessionV>, addr: Seq<char>)
    requires
        unique_addrs(m),
    ensures
        remove_addr(remove_addr(m, addr), addr) == remove_addr(m, addr),
        removal_steps(remove_addr(m, addr), addr) == Seq::<TeardownStep>::empty(),
        disconnected_name(remove_addr(m, addr), addr) == Seq::<char>::empty(),
{
    lemma_index_of_key(addrs_of(m), addr);
    let i = index_of_key(addrs_of(m), addr);
    if i >= 0 {
        lemma_unique_after_remove(m, addr, i);
        let m1 = m.remove(i);
        lemma_index_of_key(addrs_of(m1), addr);
        assert(index_of_key(addrs_of(m1), addr) == -1);
    } else {
        assert(remove_addr(m, addr) == m);
    }
}

/// Removing the one entry under `addr` leaves a registry in which `addr` is
/// absent and uniqueness still holds.
pub proof fn lemma_unique_after_remove(m: Seq<SessionV>, addr: Seq<char>, i: int)
    requires
        unique_addrs(m),
        0 <= i < m.len(),
        addrs_of(m)[i] == addr,
    ensures
        unique_addrs(m.remove(i)),
        !has_key(addrs_of(m.remove(i)), addr),
{
    let r = m.remove(i);
    assert forall|a: int, b: int|
        0 <= a < r.len() && 0 <= b < r.len() && a != b implies addrs_of(r)[a] != addrs_of(r)[b] by {
        let oa = if a < i { a } else { a + 1 };
        let ob = if b < i { b } else { b + 1 };
        assert(addrs_of(r)[a] == addrs_of(m)[oa]);
        assert(addrs_of(r)[b] == addrs_of(m)[ob]);
    }
    assert forall|k: int| 0 <= k < r.len() implies addrs_of(r)[k] != addr by {
        let ok = if k < i { k } else { k + 1 };
        assert(addrs_of(r)[k] == addrs_of(m)[ok]);
        assert(addrs_of(m)[ok] != addrs_of(m)[i]);
    }
}

} // verus!
