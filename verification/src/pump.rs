//! The per-session byte pumps, as replayable logic.
//!
//! The inbound task reads the transport and forwards each non-empty chunk,
//! in arrival order, to the dispatcher; a stream end or a read error
//! terminates it and fires the remote-disconnect trigger exactly once. The
//! outbound task drains the session's queue in submission order and stops at
//! the first failed write, which by design does not itself trigger a
//! disconnect. The blocking reads and writes happen outside the library;
//! what the tasks decide on each outcome, and what a whole run delivers, is
//! verified here.

use vstd::prelude::*;

verus! {

/// What one blocking read of the transport yielded.
pub enum ReadEvent {
    /// A chunk of bytes arrived.
    Data(Vec<u8>),
    /// The stream ended.
    Closed,
    /// The read failed.
    Failed,
}

/// What the inbound task does with one read outcome.
pub enum PumpAction {
    /// Forward the chunk to the dispatcher, tagged with the session's
    /// address.
    Forward(Vec<u8>),
    /// Stop pumping and fire the remote-disconnect trigger.
    Disconnect,
}

/// A read outcome that terminates the inbound task: stream end, read error,
/// or a zero-length read.
pub open spec fn is_terminal(ev: ReadEvent) -> bool {
    match ev {
        ReadEvent::Data(d) => d@.len() == 0,
        ReadEvent::Closed => true,
        ReadEvent::Failed => true,
    }
}

/// The bytes a read outcome carries.
pub open spec fn chunk_of(ev: ReadEvent) -> Seq<u8> {
    match ev {
        ReadEvent::Data(d) => d@,
        ReadEvent::Closed => Seq::<u8>::empty(),
        ReadEvent::Failed => Seq::<u8>::empty(),
    }
}

/// The chunks a whole inbound run forwards to the dispatcher: every chunk
/// before the first terminating outcome, in arrival order.
pub open spec fn forwarded_of(evs: Seq<ReadEvent>) -> Seq<Seq<u8>>
    decreases evs.len(),
{
    if evs.len() == 0 {
        Seq::<Seq<u8>>::empty()
    } else if is_terminal(evs[0]) {
        Seq::<Seq<u8>>::empty()
    } else {
        seq![chunk_of(evs[0])] + forwarded_of(evs.subrange(1, evs.len() as int))
    }
}

/// How many times a whole inbound run fires the remote-disconnect trigger:
/// once if any outcome terminates it, never otherwise (the task is then
/// still pumping, or was cancelled by an explicit disconnect closing its
/// channels).
pub open spec fn remote_triggers_of(evs: Seq<ReadEvent>) -> nat
    decreases evs.len(),
{
    if evs.len() == 0 {
        0
    } else if is_terminal(evs[0]) {
        1
    } else {
        remote_triggers_of(evs.subrange(1, evs.len() as int))
    }
}

/// The views of a sequence of byte buffers.
pub open spec fn chunks_view(v: Seq<Vec<u8>>) -> Seq<Seq<u8>> {
    v.map_values(|d: Vec<u8>| d@)
}

/// What the inbound task does with one read outcome: forward a non-empty
/// chunk, stop and trigger the remote disconnect on anything else.
pub fn inbound_step(ev: ReadEvent) -> (r: PumpAction)
    ensures
        is_terminal(ev) ==> (r is Disconnect),
        !is_terminal(ev) ==> (r matches PumpAction::Forward(d) && d@ == chunk_of(ev)),
{
    match ev {
        ReadEvent::Data(d) => {
            if d.len() > 0 {
                PumpAction::Forward(d)
            } else {
                PumpAction::Disconnect
            }
        },
        ReadEvent::Closed => PumpAction::Disconnect,
        ReadEvent::Failed => PumpAction::Disconnect,
    }
}

/// What a whole inbound run produced.
pub struct InboundRun {
    /// The chunks handed to the dispatcher, in arrival order.
    pub forwarded: Vec<Vec<u8>>,
    /// Whether the run ended by firing the remote-disconnect trigger.
    pub remote_disconnect: bool,
}

/// Replays the inbound task over a sequence of read outcomes.
#[verifier::loop_isolation(false)]
pub fn run_inbound(events: Vec<ReadEvent>) -> (r: InboundRun)
    ensures
        chunks_view(r.forwarded@) == forwarded_of(events@),
        r.remote_disconnect == (remote_triggers_of(events@) == 1),
{
    let mut events = events;
    let ghost e0 = events@;
    let mut forwarded: Vec<Vec<u8>> = Vec::new();
    proof {
        assert(chunks_view(forwarded@) =~= Seq::<Seq<u8>>::empty());
        assert(chunks_view(forwarded@) + forwarded_of(events@) =~= forwarded_of(e0));
    }
    while events.len() > 0
        invariant
            forwarded_of(e0) == chunks_view(forwarded@) + forwarded_of(events@),
            remote_triggers_of(e0) == remote_triggers_of(events@),
        decreases events@.len(),
    {
        let ghost pre = events@;
        let ev = events.remove(0);
        proof {
            assert(ev == pre[0]);
            assert(events@ =~= pre.subrange(1, pre.len() as int));
        }
        match inbound_step(ev) {
            PumpAction::Forward(d) => {
                forwarded.push(d);
                proof {
                    assert(chunks_view(forwarded@) + forwarded_of(events@) =~= forwarded_of(e0));
                }
            },
            PumpAction::Disconnect => {
                proof {
                    assert(is_terminal(ev));
                    assert(pre.len() > 0);
                    assert(forwarded_of(pre) =~= Seq::<Seq<u8>>::empty());
                    assert(remote_triggers_of(pre) == 1);
                    assert(remote_triggers_of(e0) == 1);
                    assert(chunks_view(forwarded@) =~= forwarded_of(e0));
                }
                return InboundRun { forwarded, remote_disconnect: true };
            },
        }
    }
    proof {
        assert(forwarded_of(events@) =~= Seq::<Seq<u8>>::empty());
        assert(chunks_view(forwarded@) =~= forwarded_of(e0));
    }
    InboundRun { forwarded, remote_disconnect: false }
}

/// Order preservation: while nothing terminates the inbound task, every
/// chunk is forwarded, in exactly the order it arrived, and the remote
/// disconnect never fires.
pub proof fn lemma_inbound_order_preserved(evs: Seq<ReadEvent>)
    requires
        forall|i: int| 0 <= i < evs.len() ==> !is_terminal(#[trigger] evs[i]),
    ensures
        forwarded_of(evs).len() == evs.len(),
        forall|i: int| 0 <= i < evs.len() ==> forwarded_of(evs)[i] == chunk_of(#[trigger] evs[i]),
        remote_triggers_of(evs) == 0,
    decreases evs.len(),
{
    if evs.len() > 0 {
        let rest = evs.subrange(1, evs.len() as int);
        assert forall|i: int| 0 <= i < rest.len() implies !is_terminal(#[trigger] rest[i]) by {
            assert(rest[i] == evs[i + 1]);
        }
        lemma_inbound_order_preserved(rest);
        assert forall|i: int| 0 <= i < evs.len() implies forwarded_of(evs)[i] == chunk_of(
            #[trigger] evs[i],
        ) by {
            if i > 0 {
                assert(forwarded_of(evs)[i] == forwarded_of(rest)[i - 1]);
                assert(rest[i - 1] == evs[i]);
            }
        }
    }
}

/// Remote-disconnect auto-notification: a run that meets a stream end or a
/// read error fires the remote-disconnect trigger exactly once.
pub proof fn lemma_remote_disconnect_once(evs: Seq<ReadEvent>)
    requires
        exists|i: int| 0 <= i < evs.len() && is_terminal(#[trigger] evs[i]),
    ensures
        remote_triggers_of(evs) == 1,
    decreases evs.len(),
{
    let w = choose|i: int| 0 <= i < evs.len() && is_terminal(#[trigger] evs[i]);
    if !is_terminal(evs[0]) {
        let rest = evs.subrange(1, evs.len() as int);
        assert(rest[w - 1] == evs[w]);
        lemma_remote_disconnect_once(rest);
    }
}

/// The per-session outbound queue: multi-producer, single-consumer, ordered,
/// unbounded. The dispatcher's write callback enqueues byte buffers; the
/// outbound task dequeues them in submission order.
pub struct OutboundQueue {
    items: Vec<Vec<u8>>,
}

impl View for OutboundQueue {
    type V = Seq<Seq<u8>>;

    closed spec fn view(&self) -> Seq<Seq<u8>> {
        chunks_view(self.items@)
    }
}

impl OutboundQueue {
    /// An empty queue.
    pub fn new() -> (r: OutboundQueue)
        ensures
            r@ == Seq::<Seq<u8>>::empty(),
    {
        let r = OutboundQueue { items: Vec::new() };
        proof {
            assert(r@ =~= Seq::<Seq<u8>>::empty());
        }
        r
    }

    /// How many buffers are queued.
    pub fn len(&self) -> (r: usize)
        ensures
            r == self@.len(),
    {
        self.items.len()
    }

    /// Submits a buffer: it takes its place at the back of the queue.
    pub fn enqueue(&mut self, buf: Vec<u8>)
        ensures
            final(self)@ == old(self)@.push(buf@),
    {
        self.items.push(buf);
        proof {
            assert(final(self)@ =~= old(self)@.push(buf@));
        }
    }

    /// Takes the oldest buffer, if any: the queue is first-in, first-out,
    /// with no reordering and no coalescing.
    pub fn dequeue(&mut self) -> (r: Option<Vec<u8>>)
        ensures
            old(self)@.len() == 0 ==> (r is None) && final(self)@ == old(self)@,
            old(self)@.len() > 0 ==> (r matches Some(d) && d@ == old(self)@[0]) && final(self)@
                == old(self)@.subrange(1, old(self)@.len() as int),
    {
        if self.items.len() == 0 {
            None
        } else {
            let d = self.items.remove(0);
            proof {
                assert(final(self)@ =~= old(self)@.subrange(1, old(self)@.len() as int));
            }
            Some(d)
        }
    }
}

/// The buffers a whole outbound run writes to the transport: the longest
/// prefix of the queue whose writes all succeed, in submission order. The
/// first failed write terminates the task; nothing after it is written.
pub open spec fn written_of(bufs: Seq<Seq<u8>>, ok: Seq<bool>) -> Seq<Seq<u8>>
    recommends
        ok.len() == bufs.len(),
    decreases bufs.len(),
{
    if bufs.len() == 0 {
        Seq::<Seq<u8>>::empty()
    } else if !ok[0] {
        Seq::<Seq<u8>>::empty()
    } else {
        seq![bufs[0]] + written_of(
            bufs.subrange(1, bufs.len() as int),
            ok.subrange(1, ok.len() as int),
        )
    }
}

/// Replays the outbound task: drains the queue in order, writing each
/// buffer, until the queue is empty or a write fails. `ok[i]` is whether
/// the transport accepted the `i`-th write.
#[verifier::loop_isolation(false)]
pub fn run_outbound(queue: OutboundQueue, ok: &Vec<bool>) -> (written: Vec<Vec<u8>>)
    requires
        ok@.len() == queue@.len(),
    ensures
        chunks_view(written@) == written_of(queue@, ok@),
{
    let mut queue = queue;
    let total: usize = queue.len();
    let ghost q0 = queue@;
    let ghost k0 = ok@;
    let mut written: Vec<Vec<u8>> = Vec::new();
    let mut i: usize = 0;
    proof {
        assert(chunks_view(written@) =~= Seq::<Seq<u8>>::empty());
        assert(q0.subrange(0, q0.len() as int) =~= q0);
        assert(k0.subrange(0, k0.len() as int) =~= k0);
        assert(chunks_view(written@) + written_of(q0, k0) =~= written_of(q0, k0));
    }
    loop
        invariant
            i <= q0.len(),
            q0.len() == total,
            ok@ == k0,
            k0.len() == q0.len(),
            queue@ == q0.subrange(i as int, q0.len() as int),
            written_of(q0, k0) == chunks_view(written@) + written_of(
                queue@,
                k0.subrange(i as int, k0.len() as int),
            ),
        decreases q0.len() - i,
    {
        let ghost pre = queue@;
        match queue.dequeue() {
            Some(d) => {
                if ok[i] {
                    written.push(d);
                    proof {
                        assert(queue@ =~= q0.subrange(i + 1, q0.len() as int));
                        assert(k0.subrange(i as int, k0.len() as int).subrange(
                            1,
                            k0.len() - i,
                        ) =~= k0.subrange(i + 1, k0.len() as int));
                        assert(chunks_view(written@) + written_of(
                            queue@,
                            k0.subrange(i + 1, k0.len() as int),
                        ) =~= written_of(q0, k0));
                    }
                    i = i + 1;
                } else {
                    proof {
                        assert(written_of(pre, k0.subrange(i as int, k0.len() as int))
                            =~= Seq::<Seq<u8>>::empty());
                        assert(chunks_view(written@) =~= written_of(q0, k0));
                    }
                    return written;
                }
            },
            None => {
                proof {
                    assert(written_of(pre, k0.subrange(i as int, k0.len() as int))
                        =~= Seq::<Seq<u8>>::empty());
                    assert(chunks_view(written@) =~= written_of(q0, k0));
                }
                return written;
            },
        }
    }
}

/// Outbound order preservation: while every write succeeds, the whole queue
/// is written, in exactly submission order.
pub proof fn lemma_outbound_order_preserved(bufs: Seq<Seq<u8>>, ok: Seq<bool>)
    requires
        ok.len() == bufs.len(),
        forall|i: int| 0 <= i < ok.len() ==> #[trigger] ok[i],
    ensures
        written_of(bufs, ok) == bufs,
    decreases bufs.len(),
{
    if bufs.len() > 0 {
        let brest = bufs.subrange(1, bufs.len() as int);
        let krest = ok.subrange(1, ok.len() as int);
        assert forall|i: int| 0 <= i < krest.len() implies #[trigger] krest[i] by {
            assert(krest[i] == ok[i + 1]);
        }
        lemma_outbound_order_preserved(brest, krest);
        assert(written_of(bufs, ok) =~= bufs);
    }
}

} // verus!
