//! The protocol for inserting frames.
//!
//! Frames are written by the wrapped log first. What the log grew by is then
//! handed to the replication session: the frame counter is read before and
//! after the write, and the difference is submitted, so that the session sees
//! every frame once. A write that succeeds while the session slot is empty is
//! reported as a failure: the engine must not take unreplicated frames for
//! protected ones.
use crate::failure::{Failure, Refusal};
use crate::protocol::Protocol;
use vstd::prelude::*;

verus! {

/// What the host is asked to do while frames are inserted.
#[derive(Clone, Copy, Debug, PartialEq, Eq)]
pub enum InsertAction {
    /// Read the wrapped log's frame counter.
    ReadFrameCount,
    /// Let the wrapped log insert the frames, with the arguments the engine
    /// gave.
    DelegateInsert,
    /// Lock the session slot and report whether it holds a session.
    AcquireSession,
    /// Tell the session the page size of the frames.
    SetPageSize(usize),
    /// Tell the session the number of the last frame it was handed before.
    RegisterLastValidFrame(u32),
    /// Hand this many new frames to the session. The session does not wait
    /// for the network.
    SubmitFrames(u32),
    /// Unlock the session slot.
    ReleaseSession,
    /// End the process: the session holds another page size, and frames
    /// replicated from here on could not be read back.
    Abort,
    /// Return this result to the engine. The run is over.
    Finish(Result<usize, Failure>),
}

/// What the host reports back while frames are inserted.
#[derive(Clone, Copy, Debug, PartialEq, Eq)]
pub enum InsertEvent {
    /// The wrapped log's frame counter.
    FrameCount(u32),
    /// The wrapped log returned from the insert, with the number of frames
    /// it reports as written.
    Engine(Result<usize, libsql_sys::wal::Error>),
    /// The slot is locked; `present` tells whether it holds a session.
    Session { present: bool },
    /// Whether the session took the page size.
    PageSize { accepted: bool },
    /// An action that reports nothing back has been carried out.
    Completed,
}

/// Where an insert stands. Each state is named after what the host is doing
/// while the protocol rests in it.
///
/// `before` is the frame counter read ahead of the write, `written` what the
/// wrapped log returned from it.
#[derive(Clone, Copy, Debug, PartialEq, Eq)]
pub enum InsertFrames {
    /// Reading the frame counter ahead of the write.
    Counting { page_size: usize },
    /// Writing the frames to the wrapped log.
    Inserting { page_size: usize, before: u32 },
    /// Locking the session slot.
    Acquiring { page_size: usize, before: u32, written: usize },
    /// Telling the session the page size.
    Configuring { page_size: usize, before: u32, written: usize },
    /// Telling the session where the new frames start.
    Registering { before: u32, written: usize },
    /// Reading the frame counter after the write.
    Recounting { before: u32, written: usize },
    /// Handing `frames` new frames to the session.
    Submitting { frames: u32, written: usize },
    /// Unlocking the slot; the result is settled.
    Releasing(Result<usize, Failure>),
    /// Ending the process.
    Aborting,
    /// Over, with this result.
    Done(Result<usize, Failure>),
}

impl Protocol for InsertFrames {
    type Event = InsertEvent;

    type Action = InsertAction;

    open spec fn action(self) -> InsertAction {
        match self {
            InsertFrames::Counting { .. } => InsertAction::ReadFrameCount,
            InsertFrames::Inserting { .. } => InsertAction::DelegateInsert,
            InsertFrames::Acquiring { .. } => InsertAction::AcquireSession,
            InsertFrames::Configuring { page_size, .. } => InsertAction::SetPageSize(page_size),
            InsertFrames::Registering { before, .. } => InsertAction::RegisterLastValidFrame(
                before,
            ),
            InsertFrames::Recounting { .. } => InsertAction::ReadFrameCount,
            InsertFrames::Submitting { frames, .. } => InsertAction::SubmitFrames(frames),
            InsertFrames::Releasing(_) => InsertAction::ReleaseSession,
            InsertFrames::Aborting => InsertAction::Abort,
            InsertFrames::Done(result) => InsertAction::Finish(result),
        }
    }

    /// An event is accepted when it answers the pending action. A frame
    /// counter read after the write is accepted only if it has not fallen
    /// behind the one read before: within a generation the counter never
    /// decreases.
    open spec fn accepts(self, event: InsertEvent) -> bool {
        match self {
            InsertFrames::Counting { .. } => event is FrameCount,
            InsertFrames::Inserting { .. } => event is Engine,
            InsertFrames::Acquiring { .. } => event is Session,
            InsertFrames::Configuring { .. } => event is PageSize,
            InsertFrames::Registering { .. } => event is Completed,
            InsertFrames::Recounting { before, .. } => event matches InsertEvent::FrameCount(after)
                && before <= after,
            InsertFrames::Submitting { .. } => event is Completed,
            InsertFrames::Releasing(_) => event is Completed,
            InsertFrames::Aborting => false,
            InsertFrames::Done(_) => false,
        }
    }

    open spec fn next(self, event: InsertEvent) -> InsertFrames {
        match (self, event) {
            (InsertFrames::Counting { page_size }, InsertEvent::FrameCount(before)) =>
                InsertFrames::Inserting { page_size, before },
            (InsertFrames::Inserting { page_size, before }, InsertEvent::Engine(Ok(written))) =>
                InsertFrames::Acquiring { page_size, before, written },
            (InsertFrames::Inserting { .. }, InsertEvent::Engine(Err(error))) => InsertFrames::Done(
                Err(Failure::Engine(error)),
            ),
            (
                InsertFrames::Acquiring { page_size, before, written },
                InsertEvent::Session { present: true },
            ) => InsertFrames::Configuring { page_size, before, written },
            (InsertFrames::Acquiring { .. }, InsertEvent::Session { present: false }) =>
                InsertFrames::Releasing(Err(Failure::Refused(Refusal::ReplicationUnavailable))),
            (
                InsertFrames::Configuring { before, written, .. },
                InsertEvent::PageSize { accepted: true },
            ) => InsertFrames::Registering { before, written },
            (InsertFrames::Configuring { .. }, InsertEvent::PageSize { accepted: false }) =>
                InsertFrames::Aborting,
            (InsertFrames::Registering { before, written }, InsertEvent::Completed) =>
                InsertFrames::Recounting { before, written },
            (InsertFrames::Recounting { before, written }, InsertEvent::FrameCount(after)) =>
                if before <= after {
                    InsertFrames::Submitting { frames: (after - before) as u32, written }
                } else {
                    self
                },
            (InsertFrames::Submitting { written, .. }, InsertEvent::Completed) =>
                InsertFrames::Releasing(Ok(written)),
            (InsertFrames::Releasing(result), InsertEvent::Completed) => InsertFrames::Done(result),
            _ => self,
        }
    }
}

impl InsertFrames {
    /// The state in which an insert of frames of `page_size` bytes begins.
    ///
    /// The engine gives the page size as a signed number; the session takes
    /// it as a size, of the same value wherever the engine's is not negative.
    pub open spec fn start(page_size: i32) -> InsertFrames {
        InsertFrames::Counting { page_size: page_size as usize }
    }

    /// Begins an insert of frames of `page_size` bytes and issues its first
    /// action.
    pub fn begin(page_size: i32) -> (run: (InsertFrames, InsertAction))
        ensures
            run.0 == InsertFrames::start(page_size),
            run.1 == run.0.action(),
    {
        let size: usize = #[verifier::truncate]
        (page_size as usize);
        (InsertFrames::Counting { page_size: size }, InsertAction::ReadFrameCount)
    }

    /// The action the host is to perform in this state.
    pub fn pending(&self) -> (action: InsertAction)
        ensures
            action == self.action(),
    {
        match *self {
            InsertFrames::Counting { .. } => InsertAction::ReadFrameCount,
            InsertFrames::Inserting { .. } => InsertAction::DelegateInsert,
            InsertFrames::Acquiring { .. } => InsertAction::AcquireSession,
            InsertFrames::Configuring { page_size, .. } => InsertAction::SetPageSize(page_size),
            InsertFrames::Registering { before, .. } => InsertAction::RegisterLastValidFrame(
                before,
            ),
            InsertFrames::Recounting { .. } => InsertAction::ReadFrameCount,
            InsertFrames::Submitting { frames, .. } => InsertAction::SubmitFrames(frames),
            InsertFrames::Releasing(_) => InsertAction::ReleaseSession,
            InsertFrames::Aborting => InsertAction::Abort,
            InsertFrames::Done(result) => InsertAction::Finish(result),
        }
    }

    /// Takes the host's answer to the pending action.
    ///
    /// When `event` answers the pending action, the insert moves on and the
    /// next action is returned. When it does not, nothing changes and `None`
    /// is returned.
    pub fn step(&mut self, event: InsertEvent) -> (issued: Option<InsertAction>)
        ensures
            old(self).accepts(event) ==> *final(self) == old(self).next(event) && issued == Some(
                final(self).action(),
            ),
            !old(self).accepts(event) ==> *final(self) == *old(self) && issued is None,
    {
        let next: InsertFrames = match (*self, event) {
            (InsertFrames::Counting { page_size }, InsertEvent::FrameCount(before)) =>
                InsertFrames::Inserting { page_size, before },
            (InsertFrames::Inserting { page_size, before }, InsertEvent::Engine(outcome)) =>
                match outcome {
                    Ok(written) => InsertFrames::Acquiring { page_size, before, written },
                    Err(error) => InsertFrames::Done(Err(Failure::Engine(error))),
                },
            (
                InsertFrames::Acquiring { page_size, before, written },
                InsertEvent::Session { present },
            ) => if present {
                InsertFrames::Configuring { page_size, before, written }
            } else {
                InsertFrames::Releasing(Err(Failure::Refused(Refusal::ReplicationUnavailable)))
            },
            (
                InsertFrames::Configuring { before, written, .. },
                InsertEvent::PageSize { accepted },
            ) => if accepted {
                InsertFrames::Registering { before, written }
            } else {
                InsertFrames::Aborting
            },
            (InsertFrames::Registering { before, written }, InsertEvent::Completed) =>
                InsertFrames::Recounting { before, written },
            (InsertFrames::Recounting { before, written }, InsertEvent::FrameCount(after)) =>
                if before <= after {
                    InsertFrames::Submitting { frames: after - before, written }
                } else {
                    return None;
                },
            (InsertFrames::Submitting { written, .. }, InsertEvent::Completed) =>
                InsertFrames::Releasing(Ok(written)),
            (InsertFrames::Releasing(result), InsertEvent::Completed) => InsertFrames::Done(result),
            _ => {
                return None;
            },
        };
        *self = next;
        Some(self.pending())
    }
}

} // verus!
