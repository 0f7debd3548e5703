//! Runs of a protocol.
//!
//! An intercepted operation is a protocol between the interceptor and its
//! host. A state of the protocol has one pending action, which the host is to
//! perform; the host answers with an event, and the event leads to the next
//! state. A run is what a sequence of such answers produces.
use vstd::prelude::*;

verus! {

/// A protocol, given by its states.
pub trait Protocol: Sized {
    /// What the host reports back.
    type Event;

    /// What the host is asked to do.
    type Action;

    /// The action pending in this state.
    spec fn action(self) -> Self::Action;

    /// Whether `event` answers the pending action.
    spec fn accepts(self, event: Self::Event) -> bool;

    /// The state that follows when the pending action is answered by `event`.
    spec fn next(self, event: Self::Event) -> Self;
}

/// Whether each of `events`, in order, answers the action that was pending
/// when it arrived, in a run that begins in `start`.
pub open spec fn admissible<P: Protocol>(start: P, events: Seq<P::Event>) -> bool
    decreases events.len(),
{
    events.len() > 0 ==> {
        &&& admissible(start, events.drop_last())
        &&& state_after(start, events.drop_last()).accepts(events.last())
    }
}

/// The state reached from `start` once `events` have been answered.
pub open spec fn state_after<P: Protocol>(start: P, events: Seq<P::Event>) -> P
    decreases events.len(),
{
    if events.len() == 0 {
        start
    } else {
        state_after(start, events.drop_last()).next(events.last())
    }
}

/// Every action issued in the run, in order: the one pending in `start`, then
/// the one that followed each event.
pub open spec fn issued<P: Protocol>(start: P, events: Seq<P::Event>) -> Seq<P::Action>
    decreases events.len(),
{
    if events.len() == 0 {
        seq![start.action()]
    } else {
        issued(start, events.drop_last()).push(state_after(start, events).action())
    }
}

/// A run issues one action at its start and one more for each event.
pub proof fn issued_len<P: Protocol>(start: P, events: Seq<P::Event>)
    ensures
        issued(start, events).len() == events.len() + 1,
    decreases events.len(),
{
    if events.len() > 0 {
        issued_len(start, events.drop_last());
    }
}

} // verus!
