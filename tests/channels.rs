use snippets::event::{event_capacity, event_channel, recv_event, send_event, EventRecv, SendOutcome, EVENT_CAPACITY};
use snippets::state::{
    broadcast_state, recv_state, resubscribe, state_channel, subscribe, Broadcast, StateRecv,
};

fn assert_delivered(b: Broadcast, state: i32, receivers: usize) {
    assert_eq!(b.state(), state);
    assert_eq!(b.receivers(), receivers);
}

#[test]
fn event_channel_has_bound_sixteen() {
    let (tx, _rx) = event_channel();
    assert_eq!(event_capacity(&tx), 16);
    assert_eq!(EVENT_CAPACITY, 16);
}

#[test]
fn events_arrive_in_send_order() {
    let (tx, mut rx) = event_channel();
    for e in [5, -3, 9, 9, 0, 42, 7] {
        assert_eq!(send_event(&tx, e), SendOutcome::Sent);
    }
    for e in [5, -3, 9, 9, 0, 42, 7] {
        assert_eq!(recv_event(&mut rx), EventRecv::Event(e));
    }
    assert_eq!(recv_event(&mut rx), EventRecv::Empty);
}

#[test]
fn events_of_each_sender_keep_their_order() {
    let (tx, mut rx) = event_channel();
    let world = tx.clone();
    assert_eq!(send_event(&tx, 1), SendOutcome::Sent);
    assert_eq!(send_event(&world, 100), SendOutcome::Sent);
    assert_eq!(send_event(&tx, 2), SendOutcome::Sent);
    assert_eq!(send_event(&world, 200), SendOutcome::Sent);
    let mut from_tx = Vec::new();
    let mut from_world = Vec::new();
    while let EventRecv::Event(e) = recv_event(&mut rx) {
        if e < 100 {
            from_tx.push(e);
        } else {
            from_world.push(e);
        }
    }
    assert_eq!(from_tx, vec![1, 2]);
    assert_eq!(from_world, vec![100, 200]);
}

#[test]
fn full_event_channel_hands_the_event_back() {
    let (tx, mut rx) = event_channel();
    for e in 0..16 {
        assert_eq!(send_event(&tx, e), SendOutcome::Sent);
    }
    assert_eq!(send_event(&tx, 16), SendOutcome::Full(16));
    assert_eq!(recv_event(&mut rx), EventRecv::Event(0));
    assert_eq!(send_event(&tx, 16), SendOutcome::Sent);
    for e in 1..17 {
        assert_eq!(recv_event(&mut rx), EventRecv::Event(e));
    }
    assert_eq!(recv_event(&mut rx), EventRecv::Empty);
}

#[test]
fn dropping_every_sender_ends_the_stream() {
    let (tx, mut rx) = event_channel();
    let world = tx.clone();
    assert_eq!(send_event(&world, 3), SendOutcome::Sent);
    drop(tx);
    drop(world);
    assert_eq!(recv_event(&mut rx), EventRecv::Event(3));
    assert_eq!(recv_event(&mut rx), EventRecv::Ended);
    assert_eq!(recv_event(&mut rx), EventRecv::Ended);
}

#[test]
fn send_after_consumer_is_gone_hands_the_event_back() {
    let (tx, rx) = event_channel();
    drop(rx);
    assert_eq!(send_event(&tx, 8), SendOutcome::Closed(8));
}

#[test]
fn subscriber_receives_each_state_once() {
    let (tx, _rx) = state_channel();
    let mut sub = subscribe(&tx);
    for s in [1, 2, 2, 3] {
        assert_delivered(broadcast_state(&tx, s), s, 2);
    }
    for s in [1, 2, 2, 3] {
        assert_eq!(recv_state(&mut sub), StateRecv::Value(s));
    }
    assert_eq!(recv_state(&mut sub), StateRecv::Empty);
}

#[test]
fn late_subscriber_never_sees_earlier_state() {
    let (tx, rx) = state_channel();
    assert_delivered(broadcast_state(&tx, 10), 10, 1);
    let mut late = subscribe(&tx);
    let mut late_twin = resubscribe(&rx);
    assert_eq!(recv_state(&mut late), StateRecv::Empty);
    assert_delivered(broadcast_state(&tx, 20), 20, 3);
    assert_eq!(recv_state(&mut late), StateRecv::Value(20));
    assert_eq!(recv_state(&mut late_twin), StateRecv::Value(20));
    assert_eq!(recv_state(&mut late), StateRecv::Empty);
}

#[test]
fn lagging_subscriber_is_told_and_skips_forward() {
    let (tx, mut rx) = state_channel();
    for s in 1..=20 {
        assert_delivered(broadcast_state(&tx, s), s, 1);
    }
    assert_eq!(recv_state(&mut rx), StateRecv::Lagged(4));
    for s in 5..=20 {
        assert_eq!(recv_state(&mut rx), StateRecv::Value(s));
    }
    assert_eq!(recv_state(&mut rx), StateRecv::Empty);
}

#[test]
fn subscriber_sixteen_behind_does_not_lag() {
    let (tx, mut rx) = state_channel();
    for s in 1..=16 {
        assert_delivered(broadcast_state(&tx, s), s, 1);
    }
    assert_eq!(recv_state(&mut rx), StateRecv::Value(1));
}

#[test]
fn broadcast_without_subscribers_hands_the_state_back() {
    let (tx, rx) = state_channel();
    drop(rx);
    assert_delivered(broadcast_state(&tx, 4), 4, 0);
}

#[test]
fn subscriber_sees_closed_once_sender_is_gone() {
    let (tx, mut rx) = state_channel();
    assert_delivered(broadcast_state(&tx, 1), 1, 1);
    drop(tx);
    assert_eq!(recv_state(&mut rx), StateRecv::Value(1));
    assert_eq!(recv_state(&mut rx), StateRecv::Closed);
    assert_eq!(recv_state(&mut rx), StateRecv::Closed);
}

#[test]
fn lag_reports_at_least_one_missed_state() {
    let (tx, mut rx) = state_channel();
    for s in 0..17 {
        assert_delivered(broadcast_state(&tx, s), s, 1);
    }
    assert_eq!(recv_state(&mut rx), StateRecv::Lagged(1));
    assert_eq!(recv_state(&mut rx), StateRecv::Value(1));
}
