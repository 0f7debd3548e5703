use bottomless::checkpoint::{
    Checkpoint, CheckpointAction, CheckpointEvent, Durability, DURABILITY_TIMEOUT_SECS,
};
use bottomless::failure::{Failure, Refusal};
use bottomless::mode::CheckpointMode;
use libsql_sys::ffi::{SQLITE_BUSY, SQLITE_IOERR_WRITE};
use libsql_sys::wal::Error;

/// Runs a checkpoint against scripted answers and returns every action
/// issued, the first one too.
fn play(mode: CheckpointMode, events: &[CheckpointEvent]) -> (Checkpoint, Vec<CheckpointAction>) {
    let (mut run, first) = Checkpoint::begin(mode);
    let mut actions = vec![first];
    for event in events {
        actions.push(run.step(*event).unwrap());
    }
    (run, actions)
}

fn refusal(refusal: Refusal) -> Result<(), Failure> {
    Err(Failure::Refused(refusal))
}

fn wait_for(frame: u32) -> CheckpointAction {
    CheckpointAction::AwaitCommitted { frame, timeout_secs: 1 }
}

#[test]
fn weak_checkpoint_is_refused_at_once() {
    for mode in [CheckpointMode::Passive, CheckpointMode::Full, CheckpointMode::Restart] {
        let (mut run, first) = Checkpoint::begin(mode);
        assert_eq!(first, CheckpointAction::Finish(refusal(Refusal::WeakCheckpoint)));
        assert_eq!(run, Checkpoint::Done(refusal(Refusal::WeakCheckpoint)));
        assert_eq!(run.step(CheckpointEvent::Completed), None);
        assert_eq!(run.step(CheckpointEvent::Engine(Ok(()))), None);
    }
    assert_eq!(Refusal::WeakCheckpoint.code(), SQLITE_BUSY);
}

#[test]
fn truncate_checkpoint_starts_by_locking_the_slot() {
    let (run, first) = Checkpoint::begin(CheckpointMode::Truncate);
    assert_eq!(first, CheckpointAction::AcquireSession);
    assert_eq!(run, Checkpoint::Acquiring);
}

#[test]
fn nothing_committed_skips_the_snapshot_and_reports_busy() {
    let (run, actions) = play(
        CheckpointMode::Truncate,
        &[
            CheckpointEvent::Session { present: true },
            CheckpointEvent::LastKnownFrame(0),
            CheckpointEvent::Completed,
            CheckpointEvent::Completed,
            CheckpointEvent::Completed,
        ],
    );
    assert_eq!(
        actions,
        vec![
            CheckpointAction::AcquireSession,
            CheckpointAction::ReadLastKnownFrame,
            CheckpointAction::RequestFlush,
            CheckpointAction::SkipSnapshot,
            CheckpointAction::ReleaseSession,
            CheckpointAction::Finish(refusal(Refusal::NothingCommitted)),
        ]
    );
    assert_eq!(run, Checkpoint::Done(refusal(Refusal::NothingCommitted)));
    assert!(!actions.contains(&CheckpointAction::DelegateCheckpoint));
    assert_eq!(Refusal::NothingCommitted.code(), SQLITE_BUSY);
}

#[test]
fn confirmed_checkpoint_runs_the_log_then_starts_a_generation() {
    let (run, actions) = play(
        CheckpointMode::Truncate,
        &[
            CheckpointEvent::Session { present: true },
            CheckpointEvent::LastKnownFrame(100),
            CheckpointEvent::Completed,
            CheckpointEvent::Waited(Durability::Confirmed),
            CheckpointEvent::Snapshotted(true),
            CheckpointEvent::Completed,
            CheckpointEvent::Engine(Ok(())),
            CheckpointEvent::Session { present: true },
            CheckpointEvent::Completed,
            CheckpointEvent::Snapshot { ok: true },
            CheckpointEvent::Completed,
        ],
    );
    assert_eq!(
        actions,
        vec![
            CheckpointAction::AcquireSession,
            CheckpointAction::ReadLastKnownFrame,
            CheckpointAction::RequestFlush,
            wait_for(100),
            CheckpointAction::QuerySnapshotted,
            CheckpointAction::ReleaseSession,
            CheckpointAction::DelegateCheckpoint,
            CheckpointAction::AcquireSession,
            CheckpointAction::NewGeneration,
            CheckpointAction::SnapshotMainDbFile,
            CheckpointAction::ReleaseSession,
            CheckpointAction::Finish(Ok(())),
        ]
    );
    assert_eq!(run, Checkpoint::Done(Ok(())));
}

#[test]
fn timed_out_wait_reports_busy_and_leaves_the_session_alone() {
    let (run, actions) = play(
        CheckpointMode::Truncate,
        &[
            CheckpointEvent::Session { present: true },
            CheckpointEvent::LastKnownFrame(100),
            CheckpointEvent::Completed,
            CheckpointEvent::Waited(Durability::TimedOut),
            CheckpointEvent::Completed,
        ],
    );
    assert_eq!(
        actions,
        vec![
            CheckpointAction::AcquireSession,
            CheckpointAction::ReadLastKnownFrame,
            CheckpointAction::RequestFlush,
            wait_for(100),
            CheckpointAction::ReleaseSession,
            CheckpointAction::Finish(refusal(Refusal::DurabilityTimeout)),
        ]
    );
    assert_eq!(run, Checkpoint::Done(refusal(Refusal::DurabilityTimeout)));
    assert_eq!(Refusal::DurabilityTimeout.code(), SQLITE_BUSY);
}

#[test]
fn failed_wait_reports_a_write_error() {
    let (run, actions) = play(
        CheckpointMode::Truncate,
        &[
            CheckpointEvent::Session { present: true },
            CheckpointEvent::LastKnownFrame(7),
            CheckpointEvent::Completed,
            CheckpointEvent::Waited(Durability::Failed),
            CheckpointEvent::Completed,
        ],
    );
    assert_eq!(
        actions,
        vec![
            CheckpointAction::AcquireSession,
            CheckpointAction::ReadLastKnownFrame,
            CheckpointAction::RequestFlush,
            wait_for(7),
            CheckpointAction::ReleaseSession,
            CheckpointAction::Finish(refusal(Refusal::DurabilityFailure)),
        ]
    );
    assert_eq!(run, Checkpoint::Done(refusal(Refusal::DurabilityFailure)));
    assert_eq!(Refusal::DurabilityFailure.code(), SQLITE_IOERR_WRITE);
}

#[test]
fn unsnapshotted_generation_reports_busy() {
    let (run, actions) = play(
        CheckpointMode::Truncate,
        &[
            CheckpointEvent::Session { present: true },
            CheckpointEvent::LastKnownFrame(1),
            CheckpointEvent::Completed,
            CheckpointEvent::Waited(Durability::Confirmed),
            CheckpointEvent::Snapshotted(false),
            CheckpointEvent::Completed,
        ],
    );
    assert_eq!(
        actions,
        vec![
            CheckpointAction::AcquireSession,
            CheckpointAction::ReadLastKnownFrame,
            CheckpointAction::RequestFlush,
            wait_for(1),
            CheckpointAction::QuerySnapshotted,
            CheckpointAction::ReleaseSession,
            CheckpointAction::Finish(refusal(Refusal::GenerationNotSnapshotted)),
        ]
    );
    assert_eq!(run, Checkpoint::Done(refusal(Refusal::GenerationNotSnapshotted)));
    assert_eq!(Refusal::GenerationNotSnapshotted.code(), SQLITE_BUSY);
}

#[test]
fn checkpoint_without_session_is_refused() {
    let (run, actions) = play(
        CheckpointMode::Truncate,
        &[CheckpointEvent::Session { present: false }, CheckpointEvent::Completed],
    );
    assert_eq!(
        actions,
        vec![
            CheckpointAction::AcquireSession,
            CheckpointAction::ReleaseSession,
            CheckpointAction::Finish(refusal(Refusal::ReplicationUnavailable)),
        ]
    );
    assert_eq!(run, Checkpoint::Done(refusal(Refusal::ReplicationUnavailable)));
    assert_eq!(Refusal::ReplicationUnavailable.code(), SQLITE_IOERR_WRITE);
}

#[test]
fn failed_wrapped_checkpoint_is_returned_as_it_came() {
    let error = Error::new(libsql_sys::ffi::SQLITE_FULL);
    let (run, actions) = play(
        CheckpointMode::Truncate,
        &[
            CheckpointEvent::Session { present: true },
            CheckpointEvent::LastKnownFrame(100),
            CheckpointEvent::Completed,
            CheckpointEvent::Waited(Durability::Confirmed),
            CheckpointEvent::Snapshotted(true),
            CheckpointEvent::Completed,
            CheckpointEvent::Engine(Err(error)),
        ],
    );
    assert_eq!(actions.len(), 8);
    assert_eq!(actions[6], CheckpointAction::DelegateCheckpoint);
    assert_eq!(actions[7], CheckpointAction::Finish(Err(Failure::Engine(error))));
    assert!(!actions.contains(&CheckpointAction::NewGeneration));
    assert!(!actions.contains(&CheckpointAction::SnapshotMainDbFile));
    assert_eq!(run, Checkpoint::Done(Err(Failure::Engine(error))));
}

#[test]
fn session_lost_during_wrapped_checkpoint_starts_no_generation() {
    let (run, actions) = play(
        CheckpointMode::Truncate,
        &[
            CheckpointEvent::Session { present: true },
            CheckpointEvent::LastKnownFrame(100),
            CheckpointEvent::Completed,
            CheckpointEvent::Waited(Durability::Confirmed),
            CheckpointEvent::Snapshotted(true),
            CheckpointEvent::Completed,
            CheckpointEvent::Engine(Ok(())),
            CheckpointEvent::Session { present: false },
            CheckpointEvent::Completed,
        ],
    );
    assert_eq!(
        actions[6..],
        [
            CheckpointAction::DelegateCheckpoint,
            CheckpointAction::AcquireSession,
            CheckpointAction::ReleaseSession,
            CheckpointAction::Finish(refusal(Refusal::ReplicationUnavailable)),
        ]
    );
    assert!(!actions.contains(&CheckpointAction::NewGeneration));
    assert_eq!(run, Checkpoint::Done(refusal(Refusal::ReplicationUnavailable)));
}

#[test]
fn failed_snapshot_is_reported_after_the_checkpoint() {
    let (run, actions) = play(
        CheckpointMode::Truncate,
        &[
            CheckpointEvent::Session { present: true },
            CheckpointEvent::LastKnownFrame(100),
            CheckpointEvent::Completed,
            CheckpointEvent::Waited(Durability::Confirmed),
            CheckpointEvent::Snapshotted(true),
            CheckpointEvent::Completed,
            CheckpointEvent::Engine(Ok(())),
            CheckpointEvent::Session { present: true },
            CheckpointEvent::Completed,
            CheckpointEvent::Snapshot { ok: false },
            CheckpointEvent::Completed,
        ],
    );
    assert_eq!(
        actions[6..],
        [
            CheckpointAction::DelegateCheckpoint,
            CheckpointAction::AcquireSession,
            CheckpointAction::NewGeneration,
            CheckpointAction::SnapshotMainDbFile,
            CheckpointAction::ReleaseSession,
            CheckpointAction::Finish(refusal(Refusal::SnapshotFailure)),
        ]
    );
    assert_eq!(run, Checkpoint::Done(refusal(Refusal::SnapshotFailure)));
    assert_eq!(Refusal::SnapshotFailure.code(), SQLITE_IOERR_WRITE);
}

#[test]
fn largest_frame_number_is_awaited_unchanged() {
    let (_, actions) = play(
        CheckpointMode::Truncate,
        &[
            CheckpointEvent::Session { present: true },
            CheckpointEvent::LastKnownFrame(u32::MAX),
            CheckpointEvent::Completed,
        ],
    );
    assert_eq!(actions[3], wait_for(u32::MAX));
}

#[test]
fn durability_wait_is_bounded_by_one_second() {
    assert_eq!(DURABILITY_TIMEOUT_SECS, 1);
}

#[test]
fn checkpoint_ignores_answers_to_other_actions() {
    let (mut run, _) = Checkpoint::begin(CheckpointMode::Truncate);
    assert_eq!(run.step(CheckpointEvent::Engine(Ok(()))), None);
    assert_eq!(run.step(CheckpointEvent::Waited(Durability::Confirmed)), None);
    assert_eq!(run.step(CheckpointEvent::Completed), None);
    assert_eq!(run, Checkpoint::Acquiring);
    assert_eq!(run.pending(), CheckpointAction::AcquireSession);
    assert_eq!(
        run.step(CheckpointEvent::Session { present: true }),
        Some(CheckpointAction::ReadLastKnownFrame)
    );
    assert_eq!(run.step(CheckpointEvent::Snapshotted(true)), None);
    assert_eq!(run.step(CheckpointEvent::Snapshot { ok: true }), None);
    assert_eq!(run, Checkpoint::Reading);
}

#[test]
fn pending_action_follows_the_state() {
    assert_eq!(Checkpoint::Flushing { frame: 3 }.pending(), CheckpointAction::RequestFlush);
    assert_eq!(Checkpoint::Awaiting { frame: 3 }.pending(), wait_for(3));
    assert_eq!(Checkpoint::Yielding.pending(), CheckpointAction::ReleaseSession);
    assert_eq!(Checkpoint::Reacquiring.pending(), CheckpointAction::AcquireSession);
    assert_eq!(Checkpoint::Releasing(Ok(())).pending(), CheckpointAction::ReleaseSession);
    assert_eq!(Checkpoint::Done(Ok(())).pending(), CheckpointAction::Finish(Ok(())));
}

#[test]
fn bounded_wait_is_read_by_its_outcome() {
    let confirmed: Result<Result<u32, String>, ()> = Ok(Ok(100));
    let failed: Result<Result<u32, String>, ()> = Ok(Err(String::from("upload failed")));
    let elapsed: Result<Result<u32, String>, ()> = Err(());
    assert_eq!(Durability::from_bounded_wait(confirmed), Durability::Confirmed);
    assert_eq!(Durability::from_bounded_wait(failed), Durability::Failed);
    assert_eq!(Durability::from_bounded_wait(elapsed), Durability::TimedOut);
}
