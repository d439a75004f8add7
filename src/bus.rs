use vstd::prelude::*;
use crossbeam_channel::{Receiver, Sender};
use crate::midi::{SynthEvent, accepts_spec};

verus! {

#[verifier::external_type_specification]
#[verifier::external_body]
#[verifier::reject_recursive_types(T)]
pub struct ExReceiver<T>(Receiver<T>);

#[verifier::external_type_specification]
#[verifier::external_body]
#[verifier::reject_recursive_types(T)]
pub struct ExSender<T>(Sender<T>);

/// Relies on `crossbeam_channel::Receiver::try_recv`: takes the oldest
/// queued event if there is one, without blocking. What is queued depends
/// on other threads, so nothing is promised of the result.
#[verifier::external_body]
fn try_recv_event(rx: &Receiver<SynthEvent>) -> (r: Option<SynthEvent>) {
    rx.try_recv().ok()
}

/// Relies on `crossbeam_channel::Sender::try_send`: queues the event unless
/// the channel is full or disconnected, without blocking; tells whether it
/// was queued.
#[verifier::external_body]
fn try_send_event(tx: &Sender<SynthEvent>, e: SynthEvent) -> (sent: bool) {
    tx.try_send(e).is_ok()
}

/// Most events moved from the main queue in one audio block; any beyond
/// stay queued for the next block, which bounds the work of a callback.
pub const MAX_EVENTS_PER_BLOCK: usize = 4096;

/// What one broadcast did.
#[derive(Debug, Clone, Copy, PartialEq, Eq, Structural)]
pub struct BroadcastReport {
    /// Events taken from the main queue.
    pub received: usize,
    /// Events of which at least one instance queue refused its copy
    /// (full or disconnected).
    pub dropped: usize,
}

/// Whether every copy so far was accepted, after one more queue answered
/// `sent`.
pub fn and_accepted(all_so_far: bool, sent: bool) -> (r: bool)
    ensures
        r == (all_so_far && sent),
{
    all_so_far && sent
}

/// The report after one more event was taken: it is counted as received,
/// and as dropped unless every instance queue accepted its copy.
pub fn tally(r: BroadcastReport, all_sent: bool) -> (s: BroadcastReport)
    requires
        r.dropped <= r.received < MAX_EVENTS_PER_BLOCK,
    ensures
        s.received == r.received + 1,
        s.dropped == r.dropped + if all_sent {
            0usize
        } else {
            1usize
        },
        s.dropped <= s.received <= MAX_EVENTS_PER_BLOCK,
{
    BroadcastReport {
        received: r.received + 1,
        dropped: if all_sent {
            r.dropped
        } else {
            r.dropped + 1
        },
    }
}

/// Offers a copy of `event` to every instance queue in instance order and
/// tells whether each one accepted it.
fn send_to_all(instance_txs: &[Sender<SynthEvent>], event: SynthEvent) -> (all_sent: bool) {
    let mut all_sent = true;
    let mut i: usize = 0;
    while i < instance_txs.len()
        invariant
            i <= instance_txs@.len(),
        decreases instance_txs@.len() - i,
    {
        let sent = try_send_event(&instance_txs[i], event);
        all_sent = and_accepted(all_sent, sent);
        i = i + 1;
    }
    all_sent
}

/// Takes the events queued on `main_rx`, oldest first and at most
/// `MAX_EVENTS_PER_BLOCK` of them, and offers a copy of each to every
/// instance queue in instance order. A refused copy is dropped, and the
/// event counted; nothing blocks. What the queues hold and accept is up
/// to other threads; the report is the `tally` of what they answered.
pub fn broadcast_events(main_rx: &Receiver<SynthEvent>, instance_txs: &[Sender<SynthEvent>]) -> (r: BroadcastReport)
    ensures
        r.dropped <= r.received <= MAX_EVENTS_PER_BLOCK,
{
    let mut report = BroadcastReport { received: 0, dropped: 0 };
    while report.received < MAX_EVENTS_PER_BLOCK
        invariant
            report.dropped <= report.received <= MAX_EVENTS_PER_BLOCK,
        decreases MAX_EVENTS_PER_BLOCK - report.received,
    {
        let event = match try_recv_event(main_rx) {
            Some(e) => e,
            None => {
                break;
            },
        };
        let all_sent = send_to_all(instance_txs, event);
        report = tally(report, all_sent);
    }
    report
}

/// Takes queued events until one that an instrument listening on `filter`
/// acts on, and returns it; events of other channels are discarded. Gives
/// `None` once the queue is empty or `MAX_EVENTS_PER_BLOCK` events were
/// discarded in a row.
pub fn next_accepted(rx: &Receiver<SynthEvent>, filter: u8) -> (r: Option<SynthEvent>)
    ensures
        r matches Some(e) ==> accepts_spec(filter, e),
{
    let mut skipped: usize = 0;
    while skipped < MAX_EVENTS_PER_BLOCK
        decreases MAX_EVENTS_PER_BLOCK - skipped,
    {
        match try_recv_event(rx) {
            Some(e) => {
                if e.accepted_by(filter) {
                    return Some(e);
                }
            },
            None => {
                return None;
            },
        }
        skipped = skipped + 1;
    }
    None
}

} // verus!
