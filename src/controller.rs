use vstd::prelude::*;
use tokio::sync::broadcast;
use crate::event::EventRecv;
use crate::state::{broadcast_state, Broadcast};

verus! {

/// What the controller does next.
#[derive(Debug)]
pub enum ControllerAction {
    /// Broadcast these states, in this order.
    Publish(Vec<i32>),
    /// No event is pending: wait for one.
    Wait,
    /// The event stream has ended: the controller is done.
    Stop,
}

/// Decides the controller's next action from what the event channel gave.
/// An event is turned into zero or more states by `derive`, the mapping from
/// events to states that the embedding program supplies.
pub fn controller_step<F: Fn(i32) -> Vec<i32>>(recv: EventRecv, derive: &F) -> (r: ControllerAction)
    requires
        forall|e: i32| call_requires(*derive, (e,)),
    ensures
        recv matches EventRecv::Event(e) ==> (r matches ControllerAction::Publish(states)
            && call_ensures(*derive, (e,), states)),
        recv == EventRecv::Empty ==> r matches ControllerAction::Wait,
        recv == EventRecv::Ended ==> r matches ControllerAction::Stop,
{
    match recv {
        EventRecv::Event(e) => ControllerAction::Publish(derive(e)),
        EventRecv::Empty => ControllerAction::Wait,
        EventRecv::Ended => ControllerAction::Stop,
    }
}

/// Broadcasts each of `states` in order on the state channel, and returns the
/// report of each broadcast, in the same order.
pub fn publish_all(tx: &broadcast::Sender<i32>, states: &Vec<i32>) -> (r: Vec<Broadcast>)
    ensures
        r@.len() == states@.len(),
        forall|i: int| 0 <= i < r@.len() ==> #[trigger] r@[i].state_spec() == states@[i],
{
    let mut r: Vec<Broadcast> = Vec::new();
    let mut i: usize = 0;
    while i < states.len()
        invariant
            i <= states@.len(),
            r@.len() == i,
            forall|j: int| 0 <= j < r@.len() ==> #[trigger] r@[j].state_spec() == states@[j],
        decreases states@.len() - i,
    {
        let o = broadcast_state(tx, states[i]);
        r.push(o);
        i = i + 1;
    }
    r
}

} // verus!
