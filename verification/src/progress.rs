//! The install-progress pipeline: a per-install, unbounded relay that
//! decouples the transfer producer from an optional progress consumer.
//!
//! The producer enqueues events without ever blocking on the consumer; a
//! forwarding task drains the queue in arrival order and relays each event
//! to the callback registered at call time, or discards everything when
//! none was. The transfer's terminal result is decided independently of the
//! relay.

use vstd::prelude::*;

use crate::SessionError;

verus! {

/// One progress report of a bulk transfer.
#[derive(Debug, Clone, Copy, PartialEq, Eq, Structural)]
pub struct ProgressEvent {
    /// How much has been pushed so far.
    pub current: u64,
    /// The size of the whole transfer.
    pub total: u64,
}

/// What the forwarding task delivers: every event, in arrival order, when a
/// callback was registered at call time; nothing otherwise.
pub open spec fn relayed_of(events: Seq<ProgressEvent>, has_callback: bool) -> Seq<ProgressEvent> {
    if has_callback {
        events
    } else {
        Seq::<ProgressEvent>::empty()
    }
}

/// What the forwarding task does with one drained event.
pub fn relay_step(ev: ProgressEvent, has_callback: bool) -> (r: Option<ProgressEvent>)
    ensures
        has_callback ==> r == Some(ev),
        !has_callback ==> (r is None),
{
    if has_callback {
        Some(ev)
    } else {
        None
    }
}

/// Replays the forwarding task over everything the producer emitted.
pub fn relay_progress(events: Vec<ProgressEvent>, has_callback: bool) -> (r: Vec<ProgressEvent>)
    ensures
        r@ == relayed_of(events@, has_callback),
{
    if has_callback {
        events
    } else {
        let r: Vec<ProgressEvent> = Vec::new();
        proof {
            assert(r@ =~= Seq::<ProgressEvent>::empty());
        }
        r
    }
}

/// The install's terminal result: the transfer's own outcome, independent
/// of the progress relay. A transfer failure aborts the install with its
/// cause; events already relayed remain valid and are not retracted.
pub fn install_finish(transfer: Result<(), String>) -> (r: Result<(), SessionError>)
    ensures
        (transfer is Ok) <==> (r is Ok),
        (match transfer {
            Ok(u) => r is Ok,
            Err(cause) => r matches Err(e) && e matches SessionError::TransferFailed(c) && c@
                == cause@,
        }),
{
    match transfer {
        Ok(u) => Ok(u),
        Err(cause) => Err(SessionError::TransferFailed(cause)),
    }
}

/// Progress pipeline safety: with no callback registered nothing is
/// delivered, however much the producer emitted — the relay discards
/// instead of blocking — and with a callback everything is delivered
/// unchanged, in order. The install's terminal result is stated by
/// [`install_finish`] over the transfer outcome alone, so it does not
/// depend on either.
pub proof fn lemma_progress_pipeline_safety(events: Seq<ProgressEvent>)
    ensures
        relayed_of(events, false) == Seq::<ProgressEvent>::empty(),
        relayed_of(events, true) == events,
{
}

} // verus!
