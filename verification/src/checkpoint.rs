//! The checkpoint protocol.
//!
//! A checkpoint folds the log into the main database file and cuts the log.
//! Frames that exist only in the log would be lost with it, so the wrapped
//! log is asked to checkpoint only after the replicator has confirmed the
//! last known frame and the previous generation is fully snapshotted. When
//! the wrapped checkpoint has succeeded, a new generation begins and the main
//! database file is snapshotted.
use crate::failure::{Failure, Refusal};
use crate::mode::CheckpointMode;
use crate::protocol::Protocol;
use vstd::prelude::*;

verus! {

/// Seconds the replicator is given to confirm the durability target.
pub const DURABILITY_TIMEOUT_SECS: u64 = 1;

/// How the wait for the durability target ended.
#[derive(Clone, Copy, Debug, PartialEq, Eq)]
pub enum Durability {
    /// The replicator confirmed the target frame as committed.
    Confirmed,
    /// The wait ended in an error.
    Failed,
    /// The time allowed ran out first.
    TimedOut,
}

impl Durability {
    /// Reads the outcome of a wait that was given a time limit: `Err` when the
    /// limit was reached first, otherwise what the wait itself returned.
    pub fn from_bounded_wait<T, E, Elapsed>(outcome: Result<Result<T, E>, Elapsed>) -> (durability:
        Durability)
        ensures
            durability == match outcome {
                Ok(Ok(_)) => Durability::Confirmed,
                Ok(Err(_)) => Durability::Failed,
                Err(_) => Durability::TimedOut,
            },
    {
        match outcome {
            Ok(Ok(_)) => Durability::Confirmed,
            Ok(Err(_)) => Durability::Failed,
            Err(_) => Durability::TimedOut,
        }
    }
}

/// What the host is asked to do during a checkpoint.
#[derive(Clone, Copy, Debug, PartialEq, Eq)]
pub enum CheckpointAction {
    /// Lock the session slot and report whether it holds a session.
    AcquireSession,
    /// Ask the session for the last frame it knows of in this generation.
    ReadLastKnownFrame,
    /// Ask the session to flush pending work without waiting for it.
    RequestFlush,
    /// Mark the current generation's snapshot as deliberately skipped.
    SkipSnapshot,
    /// Wait until the session confirms `frame` as committed, for at most
    /// `timeout_secs` seconds.
    AwaitCommitted { frame: u32, timeout_secs: u64 },
    /// Ask the session whether the previous generation is fully snapshotted.
    QuerySnapshotted,
    /// Unlock the session slot.
    ReleaseSession,
    /// Run the wrapped log's checkpoint with the arguments the engine gave.
    DelegateCheckpoint,
    /// Start a new generation in the session.
    NewGeneration,
    /// Snapshot the main database file and wait for the snapshot.
    SnapshotMainDbFile,
    /// Return this result to the engine. The run is over.
    Finish(Result<(), Failure>),
}

/// What the host reports back during a checkpoint.
#[derive(Clone, Copy, Debug, PartialEq, Eq)]
pub enum CheckpointEvent {
    /// The slot is locked; `present` tells whether it holds a session.
    Session { present: bool },
    /// The last frame the session knows of.
    LastKnownFrame(u32),
    /// An action that reports nothing back has been carried out.
    Completed,
    /// The wait for the durability target is over.
    Waited(Durability),
    /// Whether the previous generation is fully snapshotted.
    Snapshotted(bool),
    /// The wrapped log's checkpoint returned.
    Engine(Result<(), libsql_sys::wal::Error>),
    /// The snapshot of the main database file ended, well or not.
    Snapshot { ok: bool },
}

/// Where a checkpoint stands. Each state is named after what the host is
/// doing while the protocol rests in it.
#[derive(Clone, Copy, Debug, PartialEq, Eq)]
pub enum Checkpoint {
    /// Locking the slot, before anything else.
    Acquiring,
    /// Reading the last known frame.
    Reading,
    /// Requesting a flush; `frame` is the last known frame.
    Flushing { frame: u32 },
    /// Marking the snapshot as skipped, since no frame is committed.
    Skipping,
    /// Waiting for `frame` to be confirmed.
    Awaiting { frame: u32 },
    /// Asking whether the previous generation is snapshotted.
    Querying,
    /// Unlocking the slot so that the wrapped log can run.
    Yielding,
    /// Running the wrapped log's checkpoint.
    Delegating,
    /// Locking the slot again after the wrapped checkpoint succeeded.
    Reacquiring,
    /// Starting the new generation.
    Advancing,
    /// Snapshotting the main database file.
    Snapshotting,
    /// Unlocking the slot; the result is settled.
    Releasing(Result<(), Failure>),
    /// Over, with this result.
    Done(Result<(), Failure>),
}

impl Protocol for Checkpoint {
    type Event = CheckpointEvent;

    type Action = CheckpointAction;

    open spec fn action(self) -> CheckpointAction {
        match self {
            Checkpoint::Acquiring => CheckpointAction::AcquireSession,
            Checkpoint::Reading => CheckpointAction::ReadLastKnownFrame,
            Checkpoint::Flushing { .. } => CheckpointAction::RequestFlush,
            Checkpoint::Skipping => CheckpointAction::SkipSnapshot,
            Checkpoint::Awaiting { frame } => CheckpointAction::AwaitCommitted {
                frame,
                timeout_secs: DURABILITY_TIMEOUT_SECS,
            },
            Checkpoint::Querying => CheckpointAction::QuerySnapshotted,
            Checkpoint::Yielding => CheckpointAction::ReleaseSession,
            Checkpoint::Delegating => CheckpointAction::DelegateCheckpoint,
            Checkpoint::Reacquiring => CheckpointAction::AcquireSession,
            Checkpoint::Advancing => CheckpointAction::NewGeneration,
            Checkpoint::Snapshotting => CheckpointAction::SnapshotMainDbFile,
            Checkpoint::Releasing(_) => CheckpointAction::ReleaseSession,
            Checkpoint::Done(result) => CheckpointAction::Finish(result),
        }
    }

    open spec fn accepts(self, event: CheckpointEvent) -> bool {
        match self.action() {
            CheckpointAction::AcquireSession => event is Session,
            CheckpointAction::ReadLastKnownFrame => event is LastKnownFrame,
            CheckpointAction::AwaitCommitted { .. } => event is Waited,
            CheckpointAction::QuerySnapshotted => event is Snapshotted,
            CheckpointAction::DelegateCheckpoint => event is Engine,
            CheckpointAction::SnapshotMainDbFile => event is Snapshot,
            CheckpointAction::RequestFlush => event is Completed,
            CheckpointAction::SkipSnapshot => event is Completed,
            CheckpointAction::ReleaseSession => event is Completed,
            CheckpointAction::NewGeneration => event is Completed,
            CheckpointAction::Finish(_) => false,
        }
    }

    open spec fn next(self, event: CheckpointEvent) -> Checkpoint {
        match (self, event) {
            (Checkpoint::Acquiring, CheckpointEvent::Session { present: true }) => Checkpoint::Reading,
            (Checkpoint::Acquiring, CheckpointEvent::Session { present: false }) => Checkpoint::refusing(
                Refusal::ReplicationUnavailable,
            ),
            (Checkpoint::Reading, CheckpointEvent::LastKnownFrame(frame)) => Checkpoint::Flushing {
                frame,
            },
            (Checkpoint::Flushing { frame }, CheckpointEvent::Completed) => if frame == 0 {
                Checkpoint::Skipping
            } else {
                Checkpoint::Awaiting { frame }
            },
            (Checkpoint::Skipping, CheckpointEvent::Completed) => Checkpoint::refusing(Refusal::NothingCommitted),
            (Checkpoint::Awaiting { .. }, CheckpointEvent::Waited(Durability::Confirmed)) =>
                Checkpoint::Querying,
            (Checkpoint::Awaiting { .. }, CheckpointEvent::Waited(Durability::Failed)) => Checkpoint::refusing(
                Refusal::DurabilityFailure,
            ),
            (Checkpoint::Awaiting { .. }, CheckpointEvent::Waited(Durability::TimedOut)) => Checkpoint::refusing(
                Refusal::DurabilityTimeout,
            ),
            (Checkpoint::Querying, CheckpointEvent::Snapshotted(true)) => Checkpoint::Yielding,
            (Checkpoint::Querying, CheckpointEvent::Snapshotted(false)) => Checkpoint::refusing(
                Refusal::GenerationNotSnapshotted,
            ),
            (Checkpoint::Yielding, CheckpointEvent::Completed) => Checkpoint::Delegating,
            (Checkpoint::Delegating, CheckpointEvent::Engine(Ok(_))) => Checkpoint::Reacquiring,
            (Checkpoint::Delegating, CheckpointEvent::Engine(Err(error))) => Checkpoint::Done(
                Err(Failure::Engine(error)),
            ),
            (Checkpoint::Reacquiring, CheckpointEvent::Session { present: true }) =>
                Checkpoint::Advancing,
            (Checkpoint::Reacquiring, CheckpointEvent::Session { present: false }) => Checkpoint::refusing(
                Refusal::ReplicationUnavailable,
            ),
            (Checkpoint::Advancing, CheckpointEvent::Completed) => Checkpoint::Snapshotting,
            (Checkpoint::Snapshotting, CheckpointEvent::Snapshot { ok: true }) => Checkpoint::Releasing(
                Ok(()),
            ),
            (Checkpoint::Snapshotting, CheckpointEvent::Snapshot { ok: false }) => Checkpoint::refusing(
                Refusal::SnapshotFailure,
            ),
            (Checkpoint::Releasing(result), CheckpointEvent::Completed) => Checkpoint::Done(result),
            _ => self,
        }
    }
}

impl Checkpoint {
    /// The state in which the slot is unlocked before `refusal` is returned.
    pub open spec fn refusing(refusal: Refusal) -> Checkpoint {
        Checkpoint::Releasing(Err(Failure::Refused(refusal)))
    }

    fn refuse(refusal: Refusal) -> (state: Checkpoint)
        ensures
            state == Checkpoint::refusing(refusal),
    {
        Checkpoint::Releasing(Err(Failure::Refused(refusal)))
    }

    /// The state in which a checkpoint of strength `mode` begins: refused
    /// outright when `mode` is weaker than `Truncate`, about to lock the
    /// session slot otherwise.
    pub open spec fn start(mode: CheckpointMode) -> Checkpoint {
        if mode.weaker_than(CheckpointMode::Truncate) {
            Checkpoint::Done(Err(Failure::Refused(Refusal::WeakCheckpoint)))
        } else {
            Checkpoint::Acquiring
        }
    }

    /// Begins a checkpoint of strength `mode` and issues its first action.
    pub fn begin(mode: CheckpointMode) -> (run: (Checkpoint, CheckpointAction))
        ensures
            run.0 == Checkpoint::start(mode),
            run.1 == run.0.action(),
    {
        if mode.is_weaker_than(CheckpointMode::Truncate) {
            let result: Result<(), Failure> = Err(Failure::Refused(Refusal::WeakCheckpoint));
            (Checkpoint::Done(result), CheckpointAction::Finish(result))
        } else {
            (Checkpoint::Acquiring, CheckpointAction::AcquireSession)
        }
    }

    /// The action the host is to perform in this state.
    pub fn pending(&self) -> (action: CheckpointAction)
        ensures
            action == self.action(),
    {
        match *self {
            Checkpoint::Acquiring => CheckpointAction::AcquireSession,
            Checkpoint::Reading => CheckpointAction::ReadLastKnownFrame,
            Checkpoint::Flushing { .. } => CheckpointAction::RequestFlush,
            Checkpoint::Skipping => CheckpointAction::SkipSnapshot,
            Checkpoint::Awaiting { frame } => CheckpointAction::AwaitCommitted {
                frame,
                timeout_secs: DURABILITY_TIMEOUT_SECS,
            },
            Checkpoint::Querying => CheckpointAction::QuerySnapshotted,
            Checkpoint::Yielding => CheckpointAction::ReleaseSession,
            Checkpoint::Delegating => CheckpointAction::DelegateCheckpoint,
            Checkpoint::Reacquiring => CheckpointAction::AcquireSession,
            Checkpoint::Advancing => CheckpointAction::NewGeneration,
            Checkpoint::Snapshotting => CheckpointAction::SnapshotMainDbFile,
            Checkpoint::Releasing(_) => CheckpointAction::ReleaseSession,
            Checkpoint::Done(result) => CheckpointAction::Finish(result),
        }
    }

    /// Takes the host's answer to the pending action.
    ///
    /// When `event` answers the pending action, the checkpoint moves on and
    /// the next action is returned. When it does not, nothing changes and
    /// `None` is returned.
    pub fn step(&mut self, event: CheckpointEvent) -> (issued: Option<CheckpointAction>)
        ensures
            old(self).accepts(event) ==> *final(self) == old(self).next(event) && issued == Some(
                final(self).action(),
            ),
            !old(self).accepts(event) ==> *final(self) == *old(self) && issued is None,
    {
        let next: Checkpoint = match (*self, event) {
            (Checkpoint::Acquiring, CheckpointEvent::Session { present }) => if present {
                Checkpoint::Reading
            } else {
                Checkpoint::refuse(Refusal::ReplicationUnavailable)
            },
            (Checkpoint::Reading, CheckpointEvent::LastKnownFrame(frame)) => Checkpoint::Flushing {
                frame,
            },
            (Checkpoint::Flushing { frame }, CheckpointEvent::Completed) => if frame == 0 {
                Checkpoint::Skipping
            } else {
                Checkpoint::Awaiting { frame }
            },
            (Checkpoint::Skipping, CheckpointEvent::Completed) => Checkpoint::refuse(
                Refusal::NothingCommitted,
            ),
            (Checkpoint::Awaiting { .. }, CheckpointEvent::Waited(outcome)) => match outcome {
                Durability::Confirmed => Checkpoint::Querying,
                Durability::Failed => Checkpoint::refuse(Refusal::DurabilityFailure),
                Durability::TimedOut => Checkpoint::refuse(Refusal::DurabilityTimeout),
            },
            (Checkpoint::Querying, CheckpointEvent::Snapshotted(snapshotted)) => if snapshotted {
                Checkpoint::Yielding
            } else {
                Checkpoint::refuse(Refusal::GenerationNotSnapshotted)
            },
            (Checkpoint::Yielding, CheckpointEvent::Completed) => Checkpoint::Delegating,
            (Checkpoint::Delegating, CheckpointEvent::Engine(outcome)) => match outcome {
                Ok(_) => Checkpoint::Reacquiring,
                Err(error) => Checkpoint::Done(Err(Failure::Engine(error))),
            },
            (Checkpoint::Reacquiring, CheckpointEvent::Session { present }) => if present {
                Checkpoint::Advancing
            } else {
                Checkpoint::refuse(Refusal::ReplicationUnavailable)
            },
            (Checkpoint::Advancing, CheckpointEvent::Completed) => Checkpoint::Snapshotting,
            (Checkpoint::Snapshotting, CheckpointEvent::Snapshot { ok }) => if ok {
                Checkpoint::Releasing(Ok(()))
            } else {
                Checkpoint::refuse(Refusal::SnapshotFailure)
            },
            (Checkpoint::Releasing(result), CheckpointEvent::Completed) => Checkpoint::Done(result),
            _ => {
                return None;
            },
        };
        *self = next;
        Some(self.pending())
    }
}

} // verus!
