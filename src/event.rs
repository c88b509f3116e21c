use vstd::prelude::*;
use tokio::sync::mpsc;

verus! {

#[verifier::external_type_specification]
#[verifier::external_body]
#[verifier::reject_recursive_types(T)]
pub struct ExMpscSender<T>(mpsc::Sender<T>);

#[verifier::external_type_specification]
#[verifier::external_body]
#[verifier::reject_recursive_types(T)]
pub struct ExMpscReceiver<T>(mpsc::Receiver<T>);

/// How many events may wait in the event channel before senders are held back.
pub const EVENT_CAPACITY: usize = 16;

/// The bound that an event channel was made with.
pub uninterp spec fn event_bound(tx: mpsc::Sender<i32>) -> nat;

/// What became of an event offered to the event channel.
#[derive(Debug, Clone, Copy, PartialEq, Eq, Structural)]
pub enum SendOutcome {
    /// The event was queued.
    Sent,
    /// The channel holds as many events as its bound: the event is handed back.
    Full(i32),
    /// The receiving side is gone: the event is handed back.
    Closed(i32),
}

/// What the consumer of the event channel found when it looked.
#[derive(Debug, Clone, Copy, PartialEq, Eq, Structural)]
pub enum EventRecv {
    /// The oldest pending event.
    Event(i32),
    /// Nothing is pending, and some sender is still alive.
    Empty,
    /// Every sender is gone and every event was taken: the stream has ended.
    Ended,
}

/// Whether the channel of `rx` is closed and drained: every sender is gone,
/// or the receiver closed it, and no event is left. No sender can then come
/// back, so an ended stream stays ended.
pub uninterp spec fn event_stream_ended(rx: mpsc::Receiver<i32>) -> bool;

/// Relies on tokio::sync::mpsc::channel: a bounded channel whose bound is
/// `capacity`, as `Sender::max_capacity` reports it. It panics on a zero bound,
/// and on one above the semaphore's `MAX_PERMITS`, which is `usize::MAX >> 3`
/// (that is, `usize::MAX / 8`).
#[verifier::external_body]
fn mpsc_channel(capacity: usize) -> (r: (mpsc::Sender<i32>, mpsc::Receiver<i32>))
    requires
        0 < capacity <= usize::MAX / 8,
    ensures
        event_bound(r.0) == capacity,
{
    mpsc::channel(capacity)
}

/// Relies on tokio::sync::mpsc::Sender::max_capacity: the bound the channel was
/// made with, which never changes.
#[verifier::external_body]
fn mpsc_max_capacity(tx: &mpsc::Sender<i32>) -> (r: usize)
    ensures
        r == event_bound(*tx),
{
    tx.max_capacity()
}

/// Relies on tokio::sync::mpsc::Sender::try_send: it queues the message, or
/// hands the same message back inside `Full` or `Closed`.
#[verifier::external_body]
fn mpsc_try_send(tx: &mpsc::Sender<i32>, e: i32) -> (r: SendOutcome)
    ensures
        r matches SendOutcome::Full(v) ==> v == e,
        r matches SendOutcome::Closed(v) ==> v == e,
{
    match tx.try_send(e) {
        Ok(()) => SendOutcome::Sent,
        Err(mpsc::error::TrySendError::Full(v)) => SendOutcome::Full(v),
        Err(mpsc::error::TrySendError::Closed(v)) => SendOutcome::Closed(v),
    }
}

/// Relies on tokio::sync::mpsc::Receiver::try_recv: a pending message, `Empty`,
/// or `Disconnected` once the channel is closed and the buffer is drained,
/// after which no value can ever be received.
#[verifier::external_body]
fn mpsc_try_recv(rx: &mut mpsc::Receiver<i32>) -> (r: EventRecv)
    ensures
        event_stream_ended(*old(rx)) ==> r == EventRecv::Ended,
        r == EventRecv::Ended ==> event_stream_ended(*final(rx)),
{
    match rx.try_recv() {
        Ok(e) => EventRecv::Event(e),
        Err(mpsc::error::TryRecvError::Empty) => EventRecv::Empty,
        Err(mpsc::error::TryRecvError::Disconnected) => EventRecv::Ended,
    }
}

/// Creates the event channel: many producers, one consumer, bounded by
/// `EVENT_CAPACITY` pending events.
pub fn event_channel() -> (r: (mpsc::Sender<i32>, mpsc::Receiver<i32>))
    ensures
        event_bound(r.0) == EVENT_CAPACITY,
{
    mpsc_channel(EVENT_CAPACITY)
}

/// The number of events that may wait in the channel of `tx`.
pub fn event_capacity(tx: &mpsc::Sender<i32>) -> (r: usize)
    ensures
        r == event_bound(*tx),
{
    mpsc_max_capacity(tx)
}

/// Offers `e` to the event channel without waiting. An event that cannot be
/// queued is never dropped: it comes back to the caller.
pub fn send_event(tx: &mpsc::Sender<i32>, e: i32) -> (r: SendOutcome)
    ensures
        r matches SendOutcome::Full(v) ==> v == e,
        r matches SendOutcome::Closed(v) ==> v == e,
{
    mpsc_try_send(tx, e)
}

/// Takes the oldest pending event, without waiting. Once the stream has
/// ended, every later call reports the end again.
pub fn recv_event(rx: &mut mpsc::Receiver<i32>) -> (r: EventRecv)
    ensures
        event_stream_ended(*old(rx)) ==> r == EventRecv::Ended,
        r == EventRecv::Ended ==> event_stream_ended(*final(rx)),
{
    mpsc_try_recv(rx)
}

} // verus!
