use vstd::prelude::*;
use tokio::sync::broadcast;

verus! {

#[verifier::external_type_specification]
#[verifier::external_body]
#[verifier::reject_recursive_types(T)]
pub struct ExBroadcastSender<T>(broadcast::Sender<T>);

#[verifier::external_type_specification]
#[verifier::external_body]
#[verifier::reject_recursive_types(T)]
pub struct ExBroadcastReceiver<T>(broadcast::Receiver<T>);

/// How many states each subscriber may fall behind before it lags.
pub const STATE_CAPACITY: usize = 16;

/// The number of states the ring buffer of the channel of `tx` holds, which
/// is how far a subscriber may fall behind before it lags.
pub uninterp spec fn state_window(tx: broadcast::Sender<i32>) -> nat;

/// Whether the channel of `rx` is closed for it: every sender is gone and
/// `rx` has taken every value left. While `rx` lives, no sender can come back.
pub uninterp spec fn state_stream_closed(rx: broadcast::Receiver<i32>) -> bool;

/// The least power of two that is at least `c` (one for zero).
pub open spec fn next_power_of_two(c: nat) -> nat
    decreases c,
{
    if c <= 1 {
        1
    } else {
        2 * next_power_of_two(((c + 1) / 2) as nat)
    }
}

/// The report of one broadcast. Only a broadcast makes one: its fields are
/// private to this module.
#[derive(Debug, Clone, Copy)]
pub struct Broadcast {
    state: i32,
    receivers: usize,
}

impl Broadcast {
    /// The state that was handed to the channel.
    pub closed spec fn state_spec(&self) -> i32 {
        self.state
    }

    /// How many live subscribers stored the state; zero when it was refused.
    pub closed spec fn receivers_spec(&self) -> nat {
        self.receivers as nat
    }

    /// The state that was handed to the channel.
    pub fn state(&self) -> (r: i32)
        ensures
            r == self.state_spec(),
    {
        self.state
    }

    /// How many live subscribers stored the state; zero when no subscriber
    /// was alive and the state was handed back.
    pub fn receivers(&self) -> (r: usize)
        ensures
            r == self.receivers_spec(),
    {
        self.receivers
    }
}

/// What a subscriber of the state channel found when it looked.
#[derive(Debug, Clone, Copy, PartialEq, Eq, Structural)]
pub enum StateRecv {
    /// The next state broadcast since this subscriber last looked.
    Value(i32),
    /// The subscriber fell behind and this many states were overwritten; it
    /// now stands at the oldest state the channel still holds.
    Lagged(u64),
    /// Nothing new has been broadcast, and the sender is still alive.
    Empty,
    /// The sender is gone.
    Closed,
}

/// Relies on tokio::sync::broadcast::channel, which panics on a zero capacity
/// and on one above `usize::MAX / 2`. It rounds the capacity up to a power of
/// two and allocates that many slots.
#[verifier::external_body]
fn broadcast_channel(capacity: usize) -> (r: (broadcast::Sender<i32>, broadcast::Receiver<i32>))
    requires
        0 < capacity <= usize::MAX / 2,
    ensures
        state_window(r.0) == next_power_of_two(capacity as nat),
{
    broadcast::channel(capacity)
}

/// Relies on tokio::sync::broadcast::Sender::subscribe: a receiver of what is
/// sent after the call.
#[verifier::external_body]
fn broadcast_subscribe(tx: &broadcast::Sender<i32>) -> (r: broadcast::Receiver<i32>) {
    tx.subscribe()
}

/// Relies on tokio::sync::broadcast::Receiver::resubscribe: a new receiver of
/// what is sent after the call, independent of `rx`.
#[verifier::external_body]
fn broadcast_resubscribe(rx: &broadcast::Receiver<i32>) -> (r: broadcast::Receiver<i32>) {
    rx.resubscribe()
}

/// Relies on tokio::sync::broadcast::Sender::send: `Ok` with the number of
/// receivers, which is never zero, or `SendError` with the same value handed
/// back when there is no receiver.
#[verifier::external_body]
fn broadcast_send(tx: &broadcast::Sender<i32>, s: i32) -> (r: Broadcast)
    ensures
        r.state_spec() == s,
{
    match tx.send(s) {
        Ok(n) => Broadcast { state: s, receivers: n },
        Err(broadcast::error::SendError(v)) => Broadcast { state: v, receivers: 0 },
    }
}

/// Relies on tokio::sync::broadcast::Receiver::try_recv: a value, or one of
/// the errors `Lagged`, `Empty` and `Closed`. `Lagged` carries the number of
/// missed values, which is never zero; `Closed` comes once every sender is
/// gone and the receiver is drained, and nothing can be sent to it after.
#[verifier::external_body]
fn broadcast_try_recv(rx: &mut broadcast::Receiver<i32>) -> (r: StateRecv)
    ensures
        r matches StateRecv::Lagged(n) ==> n >= 1,
        state_stream_closed(*old(rx)) ==> r == StateRecv::Closed,
        r == StateRecv::Closed ==> state_stream_closed(*final(rx)),
{
    match rx.try_recv() {
        Ok(s) => StateRecv::Value(s),
        Err(broadcast::error::TryRecvError::Lagged(n)) => StateRecv::Lagged(n),
        Err(broadcast::error::TryRecvError::Empty) => StateRecv::Empty,
        Err(broadcast::error::TryRecvError::Closed) => StateRecv::Closed,
    }
}

/// Creates the state channel: one producer, any number of subscribers, each
/// of which may fall `STATE_CAPACITY` states behind before it lags.
pub fn state_channel() -> (r: (broadcast::Sender<i32>, broadcast::Receiver<i32>))
    ensures
        state_window(r.0) == STATE_CAPACITY,
{
    let r = broadcast_channel(STATE_CAPACITY);
    proof {
        assert(next_power_of_two(1) == 1);
        assert(next_power_of_two(2) == 2);
        assert(next_power_of_two(4) == 4);
        assert(next_power_of_two(8) == 8);
        assert(next_power_of_two(16) == 16);
    }
    r
}

/// A new subscriber, which sees only the states broadcast after this call.
pub fn subscribe(tx: &broadcast::Sender<i32>) -> (r: broadcast::Receiver<i32>) {
    broadcast_subscribe(tx)
}

/// A new subscriber beside `rx`, which sees only the states broadcast after
/// this call.
pub fn resubscribe(rx: &broadcast::Receiver<i32>) -> (r: broadcast::Receiver<i32>) {
    broadcast_resubscribe(rx)
}

/// Broadcasts `s` to every live subscriber, and reports how many stored it.
pub fn broadcast_state(tx: &broadcast::Sender<i32>, s: i32) -> (r: Broadcast)
    ensures
        r.state_spec() == s,
{
    broadcast_send(tx, s)
}

/// Takes the next state for this subscriber, without waiting. A lag is
/// reported with the number of states missed, at least one; once closed, the
/// subscriber stays closed.
pub fn recv_state(rx: &mut broadcast::Receiver<i32>) -> (r: StateRecv)
    ensures
        r matches StateRecv::Lagged(n) ==> n >= 1,
        state_stream_closed(*old(rx)) ==> r == StateRecv::Closed,
        r == StateRecv::Closed ==> state_stream_closed(*final(rx)),
{
    broadcast_try_recv(rx)
}

} // verus!
