//! The per-session transport link: exclusively owned handles to the port,
//! its reader and its writer, and the transitions a session goes through
//! while it is being started and torn down.
//!
//! Handles are opaque to the library and are carried as numbers issued by
//! the caller; the library decides which handles are acquired, released and
//! closed, and in what order.

use vstd::prelude::*;

use crate::info::ConnectionInfo;
use crate::probe::{derive_address, derive_label, derived_address, derived_label, opt_str_view};
use crate::strutil::is_blank;
use crate::SessionError;

verus! {

/// The display name a session resolves to: the requested name if one was
/// given, else the probed label, else a generic default.
pub open spec fn resolved_name_chars(requested: Seq<char>, label: Option<Seq<char>>) -> Seq<char> {
    if requested.len() > 0 {
        requested
    } else if label is Some {
        label->0
    } else {
        "Bluetooth Device"@
    }
}

/// One step of releasing a session's resources. The caller performs the
/// steps, in order; each is best-effort and its failure is logged, not
/// propagated.
#[derive(Debug, Clone, Copy, PartialEq, Eq, Structural)]
pub enum TeardownStep {
    /// Close and flush the outbound writer handle.
    CloseWriter(u64),
    /// Release the inbound reader handle.
    ReleaseReader(u64),
    /// Close the transport handle.
    CloseTransport(u64),
    /// Drop the session's execution context, cancelling any pump tasks still
    /// alive by closing their channels.
    DropContext,
}

/// The mathematical value of a transport link.
#[verifier::ext_equal]
pub ghost struct SppV {
    pub port: u64,
    pub reader: Option<u64>,
    pub writer: Option<u64>,
    pub device_addr: Seq<char>,
    pub device_label: Option<Seq<char>>,
    pub started: bool,
}

/// The full teardown of a live link, in order: close the writer if one was
/// acquired, release the reader if the pump started, close the transport,
/// drop the execution context.
pub open spec fn spp_teardown(l: SppV) -> Seq<TeardownStep> {
    (if l.writer is Some {
        seq![TeardownStep::CloseWriter(l.writer->0)]
    } else {
        Seq::<TeardownStep>::empty()
    }) + (if l.reader is Some {
        seq![TeardownStep::ReleaseReader(l.reader->0)]
    } else {
        Seq::<TeardownStep>::empty()
    }) + seq![TeardownStep::CloseTransport(l.port), TeardownStep::DropContext]
}

/// Releasing a link whose handshake failed: the same handle releases as a
/// full teardown, but no execution context was armed, so none is dropped.
pub open spec fn abort_steps(l: SppV) -> Seq<TeardownStep> {
    (if l.writer is Some {
        seq![TeardownStep::CloseWriter(l.writer->0)]
    } else {
        Seq::<TeardownStep>::empty()
    }) + (if l.reader is Some {
        seq![TeardownStep::ReleaseReader(l.reader->0)]
    } else {
        Seq::<TeardownStep>::empty()
    }) + seq![TeardownStep::CloseTransport(l.port)]
}

/// A serial transport link to one device.
pub struct XiaomiSpp {
    port: u64,
    reader: Option<u64>,
    writer: Option<u64>,
    device_addr: String,
    device_label: Option<String>,
    started: bool,
}

impl View for XiaomiSpp {
    type V = SppV;

    closed spec fn view(&self) -> SppV {
        SppV {
            port: self.port,
            reader: self.reader,
            writer: self.writer,
            device_addr: self.device_addr@,
            device_label: match self.device_label {
                Some(l) => Some(l@),
                None => None,
            },
            started: self.started,
        }
    }
}

/// What applying the handshake outcome to a prepared link produces.
pub enum StartOutcome {
    /// The handshake succeeded: the link is live and the session may be
    /// registered under this identity.
    Established(ConnectionInfo),
    /// The handshake failed: the error to surface, and the handle releases
    /// the caller must perform. No session is registered.
    Failed(SessionError, Vec<TeardownStep>),
}

impl XiaomiSpp {
    /// Builds the link over a freshly opened transport. The port descriptors
    /// (serial number, vendor and product id) and the timestamp for the
    /// fallback come from the probe; the address and label are derived here,
    /// by priority.
    pub fn new(
        port: u64,
        serial_number: Option<String>,
        vendor_id: Option<u16>,
        product_id: Option<u16>,
        fallback_ts: u64,
    ) -> (s: XiaomiSpp)
        ensures
            s@.port == port,
            s@.reader is None,
            s@.writer is None,
            !s@.started,
            s@.device_addr == derived_address(
                opt_str_view(serial_number),
                vendor_id,
                product_id,
                fallback_ts,
            ),
            s@.device_label == derived_label(opt_str_view(serial_number), vendor_id, product_id),
    {
        let device_addr = derive_address(&serial_number, vendor_id, product_id, fallback_ts);
        let device_label = derive_label(&serial_number, vendor_id, product_id);
        XiaomiSpp { port, reader: None, writer: None, device_addr, device_label, started: false }
    }

    /// The address derived for this device.
    pub fn device_addr(&self) -> (r: &str)
        ensures
            r@ == self@.device_addr,
    {
        self.device_addr.as_str()
    }

    /// The label derived for this device, if any.
    pub fn device_label(&self) -> (r: Option<&str>)
        ensures
            match r {
                Some(l) => self@.device_label == Some(l@),
                None => self@.device_label is None,
            },
    {
        match &self.device_label {
            Some(l) => Some(l.as_str()),
            None => None,
        }
    }

    /// The writer handle, acquired lazily: the first call installs `fresh`,
    /// later calls return the handle already held.
    pub fn ensure_writer(&mut self, fresh: u64) -> (w: u64)
        ensures
            (final(self)@.writer is Some),
            final(self)@.writer->0 == w,
            (old(self)@.writer is Some) ==> w == old(self)@.writer->0,
            (old(self)@.writer is None) ==> w == fresh,
            final(self)@ == (SppV { writer: final(self)@.writer, ..old(self)@ }),
    {
        match self.writer {
            Some(w) => w,
            None => {
                self.writer = Some(fresh);
                fresh
            },
        }
    }

    /// The display name the session will carry: the requested name if one
    /// was given, else the probed label, else a generic default.
    pub fn resolve_name(&self, requested: &str) -> (r: String)
        ensures
            r@ == resolved_name_chars(requested@, self@.device_label),
    {
        if requested.unicode_len() > 0 {
            String::from_str(requested)
        } else {
            match &self.device_label {
                Some(l) => l.clone(),
                None => String::from_str("Bluetooth Device"),
            }
        }
    }

    /// The address the session will be registered under: the explicit hint
    /// if it is non-blank, else the derived device address.
    pub fn resolve_address(&self, hint: &str) -> (r: String)
        ensures
            r@ == if is_blank(hint@) {
                self@.device_addr
            } else {
                hint@
            },
    {
        if crate::strutil::str_is_blank(hint) {
            self.device_addr.clone()
        } else {
            String::from_str(hint)
        }
    }

    /// Arms the pump: records the inbound reader handle and acquires the
    /// writer (lazily, keeping one already held). The caller spawns the two
    /// pump tasks against the returned writer and the recorded reader.
    pub fn start(&mut self, reader: u64, fresh_writer: u64) -> (w: u64)
        ensures
            final(self)@.reader == Some(reader),
            (final(self)@.writer is Some),
            final(self)@.writer->0 == w,
            (old(self)@.writer is Some) ==> w == old(self)@.writer->0,
            (old(self)@.writer is None) ==> w == fresh_writer,
            final(self)@ == (SppV {
                reader: Some(reader),
                writer: final(self)@.writer,
                ..old(self)@
            }),
    {
        self.reader = Some(reader);
        self.ensure_writer(fresh_writer)
    }

    /// Applies the handshake outcome. On success the link is live. On
    /// failure the link surrenders its handles: the caller performs the
    /// returned releases (writer close, reader release, transport close) and
    /// surfaces the handshake error; no session is registered.
    pub fn finish_start(&mut self, handshake: Result<ConnectionInfo, String>) -> (r: StartOutcome)
        ensures
            (match handshake {
                Ok(info) => {
                    &&& r matches StartOutcome::Established(out)
                    &&& out@ == info@
                    &&& final(self)@ == (SppV { started: true, ..old(self)@ })
                },
                Err(cause) => {
                    &&& r matches StartOutcome::Failed(e, steps)
                    &&& e matches SessionError::HandshakeFailed(c)
                    &&& c@ == cause@
                    &&& steps@ == abort_steps(old(self)@)
                    &&& final(self)@ == (SppV {
                        reader: None,
                        writer: None,
                        started: false,
                        ..old(self)@
                    })
                },
            }),
    {
        match handshake {
            Ok(info) => {
                self.started = true;
                proof {
                    assert(self@ =~= (SppV { started: true, ..old(self)@ }));
                }
                StartOutcome::Established(info)
            },
            Err(cause) => {
                self.started = false;
                let mut steps: Vec<TeardownStep> = Vec::new();
                if let Some(w) = self.writer {
                    steps.push(TeardownStep::CloseWriter(w));
                }
                self.writer = None;
                if let Some(rd) = self.reader {
                    steps.push(TeardownStep::ReleaseReader(rd));
                }
                self.reader = None;
                steps.push(TeardownStep::CloseTransport(self.port));
                proof {
                    assert(steps@ =~= abort_steps(old(self)@));
                }
                StartOutcome::Failed(SessionError::HandshakeFailed(cause), steps)
            },
        }
    }

    /// Consumes the link and yields its teardown, in order: writer close,
    /// reader release, transport close, execution-context drop. Each step is
    /// performed best-effort by the caller.
    pub fn disconnect(self) -> (steps: Vec<TeardownStep>)
        ensures
            steps@ == spp_teardown(self@),
    {
        let mut steps: Vec<TeardownStep> = Vec::new();
        if let Some(w) = self.writer {
            steps.push(TeardownStep::CloseWriter(w));
        }
        if let Some(rd) = self.reader {
            steps.push(TeardownStep::ReleaseReader(rd));
        }
        steps.push(TeardownStep::CloseTransport(self.port));
        steps.push(TeardownStep::DropContext);
        proof {
            assert(steps@ =~= spp_teardown(self@));
        }
        steps
    }
}

} // verus!
