//! The protocol for rolling back to a savepoint.
//!
//! The wrapped log rolls back first. The interceptor then only checks that a
//! replication session is there: frames that were already handed to the
//! session are not taken back from it.
use crate::failure::{Failure, Refusal};
use crate::protocol::{admissible, issued, state_after, Protocol};
use vstd::prelude::*;

verus! {

/// What the host is asked to do during a rollback.
#[derive(Clone, Copy, Debug, PartialEq, Eq)]
pub enum SavepointAction {
    /// Let the wrapped log roll back, with the markers the engine gave.
    DelegateUndo,
    /// Lock the session slot and report whether it holds a session.
    AcquireSession,
    /// Unlock the session slot.
    ReleaseSession,
    /// Return this result to the engine. The run is over.
    Finish(Result<(), Failure>),
}

/// What the host reports back during a rollback.
#[derive(Clone, Copy, Debug, PartialEq, Eq)]
pub enum SavepointEvent {
    /// The wrapped log returned from the rollback.
    Engine(Result<(), libsql_sys::wal::Error>),
    /// The slot is locked; `present` tells whether it holds a session.
    Session { present: bool },
    /// The slot is unlocked.
    Completed,
}

/// Where a rollback stands.
#[derive(Clone, Copy, Debug, PartialEq, Eq)]
pub enum SavepointUndo {
    /// Rolling back in the wrapped log.
    Delegating,
    /// Locking the session slot.
    Acquiring,
    /// Unlocking the slot; the result is settled.
    Releasing(Result<(), Failure>),
    /// Over, with this result.
    Done(Result<(), Failure>),
}

impl Protocol for SavepointUndo {
    type Event = SavepointEvent;

    type Action = SavepointAction;

    open spec fn action(self) -> SavepointAction {
        match self {
            SavepointUndo::Delegating => SavepointAction::DelegateUndo,
            SavepointUndo::Acquiring => SavepointAction::AcquireSession,
            SavepointUndo::Releasing(_) => SavepointAction::ReleaseSession,
            SavepointUndo::Done(result) => SavepointAction::Finish(result),
        }
    }

    open spec fn accepts(self, event: SavepointEvent) -> bool {
        match self {
            SavepointUndo::Delegating => event is Engine,
            SavepointUndo::Acquiring => event is Session,
            SavepointUndo::Releasing(_) => event is Completed,
            SavepointUndo::Done(_) => false,
        }
    }

    open spec fn next(self, event: SavepointEvent) -> SavepointUndo {
        match (self, event) {
            (SavepointUndo::Delegating, SavepointEvent::Engine(Ok(_))) => SavepointUndo::Acquiring,
            (SavepointUndo::Delegating, SavepointEvent::Engine(Err(error))) => SavepointUndo::Done(
                Err(Failure::Engine(error)),
            ),
            (SavepointUndo::Acquiring, SavepointEvent::Session { present: true }) =>
                SavepointUndo::Releasing(Ok(())),
            (SavepointUndo::Acquiring, SavepointEvent::Session { present: false }) =>
                SavepointUndo::Releasing(Err(Failure::Refused(Refusal::ReplicationUnavailable))),
            (SavepointUndo::Releasing(result), SavepointEvent::Completed) => SavepointUndo::Done(
                result,
            ),
            _ => self,
        }
    }
}

impl SavepointUndo {
    /// The state in which a rollback begins.
    pub open spec fn start() -> SavepointUndo {
        SavepointUndo::Delegating
    }

    /// Begins a rollback and issues its first action.
    pub fn begin() -> (run: (SavepointUndo, SavepointAction))
        ensures
            run.0 == SavepointUndo::start(),
            run.1 == run.0.action(),
    {
        (SavepointUndo::Delegating, SavepointAction::DelegateUndo)
    }

    /// The action the host is to perform in this state.
    pub fn pending(&self) -> (action: SavepointAction)
        ensures
            action == self.action(),
    {
        match *self {
            SavepointUndo::Delegating => SavepointAction::DelegateUndo,
            SavepointUndo::Acquiring => SavepointAction::AcquireSession,
            SavepointUndo::Releasing(_) => SavepointAction::ReleaseSession,
            SavepointUndo::Done(result) => SavepointAction::Finish(result),
        }
    }

    /// Takes the host's answer to the pending action.
    ///
    /// When `event` answers the pending action, the rollback moves on and
    /// the next action is returned. When it does not, nothing changes and
    /// `None` is returned.
    pub fn step(&mut self, event: SavepointEvent) -> (issued: Option<SavepointAction>)
        ensures
            old(self).accepts(event) ==> *final(self) == old(self).next(event) && issued == Some(
                final(self).action(),
            ),
            !old(self).accepts(event) ==> *final(self) == *old(self) && issued is None,
    {
        let next: SavepointUndo = match (*self, event) {
            (SavepointUndo::Delegating, SavepointEvent::Engine(outcome)) => match outcome {
                Ok(_) => SavepointUndo::Acquiring,
                Err(error) => SavepointUndo::Done(Err(Failure::Engine(error))),
            },
            (SavepointUndo::Acquiring, SavepointEvent::Session { present }) => if present {
                SavepointUndo::Releasing(Ok(()))
            } else {
                SavepointUndo::Releasing(Err(Failure::Refused(Refusal::ReplicationUnavailable)))
            },
            (SavepointUndo::Releasing(result), SavepointEvent::Completed) => SavepointUndo::Done(
                result,
            ),
            _ => {
                return None;
            },
        };
        *self = next;
        Some(self.pending())
    }
}

/// What the history of a rollback looks like when it has reached `state`.
spec fn consistent(
    state: SavepointUndo,
    events: Seq<SavepointEvent>,
    actions: Seq<SavepointAction>,
) -> bool {
    let locked = seq![
        SavepointAction::DelegateUndo,
        SavepointAction::AcquireSession,
        SavepointAction::ReleaseSession,
    ];
    match state {
        SavepointUndo::Delegating => events.len() == 0 && actions =~= locked.take(1),
        SavepointUndo::Acquiring => {
            &&& events =~= seq![SavepointEvent::Engine(Ok(()))]
            &&& actions =~= locked.take(2)
        },
        SavepointUndo::Releasing(result) => {
            &&& !(result matches Err(Failure::Engine(_)))
            &&& consistent_when_done(result, events.push(SavepointEvent::Completed), actions.push(SavepointAction::Finish(result)))
        },
        SavepointUndo::Done(result) => consistent_when_done(result, events, actions),
    }
}

spec fn consistent_when_done(
    result: Result<(), Failure>,
    events: Seq<SavepointEvent>,
    actions: Seq<SavepointAction>,
) -> bool {
    match result {
        Err(Failure::Engine(error)) => {
            &&& events =~= seq![SavepointEvent::Engine(Err(error))]
            &&& actions =~= seq![SavepointAction::DelegateUndo, SavepointAction::Finish(result)]
        },
        _ => {
            &&& result == Ok::<(), Failure>(()) || result == Err::<(), Failure>(
                Failure::Refused(Refusal::ReplicationUnavailable),
            )
            &&& events =~= seq![
                SavepointEvent::Engine(Ok(())),
                SavepointEvent::Session { present: result is Ok },
                SavepointEvent::Completed,
            ]
            &&& actions =~= seq![
                SavepointAction::DelegateUndo,
                SavepointAction::AcquireSession,
                SavepointAction::ReleaseSession,
                SavepointAction::Finish(result),
            ]
        },
    }
}

proof fn lemma_run_consistent(events: Seq<SavepointEvent>)
    requires
        admissible(SavepointUndo::start(), events),
    ensures
        consistent(
            state_after(SavepointUndo::start(), events),
            events,
            issued(SavepointUndo::start(), events),
        ),
    decreases events.len(),
{
    if events.len() > 0 {
        let earlier = events.drop_last();
        lemma_run_consistent(earlier);
        assert(earlier.push(events.last()) =~= events);
        if let SavepointEvent::Engine(Ok(unit)) = events.last() {
            assert(unit == ());
        }
    }
}

/// A finished rollback has one of three histories. If the wrapped log
/// failed, its error is returned as it came and the session slot was never
/// locked. If the wrapped log rolled back, the slot was locked once and
/// unlocked again, and the rollback succeeds exactly when a session was
/// there; otherwise it is refused with `ReplicationUnavailable`.
pub proof fn rollback_histories(events: Seq<SavepointEvent>)
    requires
        admissible(SavepointUndo::start(), events),
        state_after(SavepointUndo::start(), events) is Done,
    ensures
        match state_after(SavepointUndo::start(), events) {
            SavepointUndo::Done(Err(Failure::Engine(error))) => {
                &&& events == seq![SavepointEvent::Engine(Err(error))]
                &&& issued(SavepointUndo::start(), events) == seq![
                    SavepointAction::DelegateUndo,
                    SavepointAction::Finish(Err(Failure::Engine(error))),
                ]
            },
            SavepointUndo::Done(result) => {
                &&& result == Ok::<(), Failure>(()) || result == Err::<(), Failure>(
                    Failure::Refused(Refusal::ReplicationUnavailable),
                )
                &&& events == seq![
                    SavepointEvent::Engine(Ok(())),
                    SavepointEvent::Session { present: result is Ok },
                    SavepointEvent::Completed,
                ]
                &&& issued(SavepointUndo::start(), events) == seq![
                    SavepointAction::DelegateUndo,
                    SavepointAction::AcquireSession,
                    SavepointAction::ReleaseSession,
                    SavepointAction::Finish(result),
                ]
            },
            _ => false,
        },
{
    lemma_run_consistent(events);
}

} // verus!
