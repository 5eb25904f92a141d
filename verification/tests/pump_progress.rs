use miwear_bridge::progress::{install_finish, relay_progress, relay_step, ProgressEvent};
use miwear_bridge::pump::{
    inbound_step, run_inbound, run_outbound, InboundRun, OutboundQueue, PumpAction, ReadEvent,
};
use miwear_bridge::SessionError;

#[test]
fn inbound_preserves_chunk_order() {
    let c1 = vec![1u8, 2, 3];
    let c2 = vec![4u8];
    let c3 = vec![5u8, 6];
    let events = vec![
        ReadEvent::Data(c1.clone()),
        ReadEvent::Data(c2.clone()),
        ReadEvent::Data(c3.clone()),
    ];
    let run: InboundRun = run_inbound(events);
    assert_eq!(run.forwarded, vec![c1, c2, c3]);
    assert!(!run.remote_disconnect);
}

#[test]
fn inbound_stream_end_triggers_remote_disconnect_once() {
    let events = vec![
        ReadEvent::Data(vec![1u8]),
        ReadEvent::Closed,
        // Nothing after the stream end is read or forwarded.
        ReadEvent::Data(vec![2u8]),
        ReadEvent::Failed,
    ];
    let run = run_inbound(events);
    assert_eq!(run.forwarded, vec![vec![1u8]]);
    assert!(run.remote_disconnect);
}

#[test]
fn inbound_read_error_triggers_remote_disconnect() {
    let run = run_inbound(vec![ReadEvent::Failed]);
    assert!(run.forwarded.is_empty());
    assert!(run.remote_disconnect);
}

#[test]
fn inbound_zero_length_read_terminates() {
    match inbound_step(ReadEvent::Data(Vec::new())) {
        PumpAction::Disconnect => {},
        PumpAction::Forward(_) => panic!("a zero-length read must terminate the pump"),
    }
    match inbound_step(ReadEvent::Data(vec![9u8])) {
        PumpAction::Forward(d) => assert_eq!(d, vec![9u8]),
        PumpAction::Disconnect => panic!("a non-empty chunk must be forwarded"),
    }
}

#[test]
fn outbound_queue_is_fifo() {
    let mut q = OutboundQueue::new();
    assert_eq!(q.len(), 0);
    q.enqueue(vec![1u8]);
    q.enqueue(vec![2u8]);
    q.enqueue(vec![3u8]);
    assert_eq!(q.len(), 3);
    assert_eq!(q.dequeue(), Some(vec![1u8]));
    assert_eq!(q.dequeue(), Some(vec![2u8]));
    assert_eq!(q.dequeue(), Some(vec![3u8]));
    assert_eq!(q.dequeue(), None);
}

#[test]
fn outbound_writes_in_submission_order() {
    let mut q = OutboundQueue::new();
    q.enqueue(vec![1u8]);
    q.enqueue(vec![2u8]);
    q.enqueue(vec![3u8]);
    let ok = vec![true, true, true];
    let written = run_outbound(q, &ok);
    assert_eq!(written, vec![vec![1u8], vec![2u8], vec![3u8]]);
}

#[test]
fn outbound_stops_at_first_failed_write() {
    let mut q = OutboundQueue::new();
    q.enqueue(vec![1u8]);
    q.enqueue(vec![2u8]);
    q.enqueue(vec![3u8]);
    // The second write fails: the task terminates; it does not retry and
    // does not write anything submitted after the failure.
    let ok = vec![true, false, true];
    let written = run_outbound(q, &ok);
    assert_eq!(written, vec![vec![1u8]]);
}

#[test]
fn progress_without_callback_discards_and_install_completes() {
    // A bounded but large workload: the producer never blocks on a missing
    // consumer, the relay simply discards.
    let mut events: Vec<ProgressEvent> = Vec::new();
    let mut i: u64 = 0;
    while i < 10_000 {
        events.push(ProgressEvent { current: i, total: 10_000 });
        i += 1;
    }
    let delivered = relay_progress(events, false);
    assert!(delivered.is_empty());
    assert_eq!(install_finish(Ok(())), Ok(()));
}

#[test]
fn progress_with_callback_delivers_all_in_order() {
    let events = vec![
        ProgressEvent { current: 10, total: 30 },
        ProgressEvent { current: 20, total: 30 },
        ProgressEvent { current: 30, total: 30 },
    ];
    let delivered = relay_progress(events.clone(), true);
    assert_eq!(delivered, events);
    assert_eq!(relay_step(events[0], true), Some(events[0]));
    assert_eq!(relay_step(events[0], false), None);
}

#[test]
fn transfer_failure_aborts_install_with_its_cause() {
    match install_finish(Err("device rejected chunk".to_string())) {
        Err(SessionError::TransferFailed(cause)) => assert_eq!(cause, "device rejected chunk"),
        other => panic!("expected a transfer failure, got {:?}", other),
    }
}
