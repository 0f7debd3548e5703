use bottomless::failure::{Failure, Refusal};
use bottomless::savepoint_undo::{SavepointAction, SavepointEvent, SavepointUndo};
use libsql_sys::wal::Error;

/// Runs a rollback against scripted answers and returns every action issued.
fn play(events: &[SavepointEvent]) -> (SavepointUndo, Vec<SavepointAction>) {
    let (mut run, first) = SavepointUndo::begin();
    let mut actions = vec![first];
    for event in events {
        actions.push(run.step(*event).unwrap());
    }
    (run, actions)
}

#[test]
fn rollback_with_session_succeeds() {
    let (run, actions) = play(&[
        SavepointEvent::Engine(Ok(())),
        SavepointEvent::Session { present: true },
        SavepointEvent::Completed,
    ]);
    assert_eq!(
        actions,
        vec![
            SavepointAction::DelegateUndo,
            SavepointAction::AcquireSession,
            SavepointAction::ReleaseSession,
            SavepointAction::Finish(Ok(())),
        ]
    );
    assert_eq!(run, SavepointUndo::Done(Ok(())));
}

#[test]
fn rollback_without_session_is_refused() {
    let (run, actions) = play(&[
        SavepointEvent::Engine(Ok(())),
        SavepointEvent::Session { present: false },
        SavepointEvent::Completed,
    ]);
    let refused = Err(Failure::Refused(Refusal::ReplicationUnavailable));
    assert_eq!(
        actions,
        vec![
            SavepointAction::DelegateUndo,
            SavepointAction::AcquireSession,
            SavepointAction::ReleaseSession,
            SavepointAction::Finish(refused),
        ]
    );
    assert_eq!(run, SavepointUndo::Done(refused));
    assert_eq!(Refusal::ReplicationUnavailable.code(), libsql_sys::ffi::SQLITE_IOERR_WRITE);
}

#[test]
fn failed_rollback_is_returned_without_locking_the_slot() {
    let error = Error::new(libsql_sys::ffi::SQLITE_CORRUPT);
    let (run, actions) = play(&[SavepointEvent::Engine(Err(error))]);
    assert_eq!(
        actions,
        vec![SavepointAction::DelegateUndo, SavepointAction::Finish(Err(Failure::Engine(error)))]
    );
    assert_eq!(run, SavepointUndo::Done(Err(Failure::Engine(error))));
}

#[test]
fn rollback_ignores_answers_to_other_actions() {
    let (mut run, _) = SavepointUndo::begin();
    assert_eq!(run.step(SavepointEvent::Completed), None);
    assert_eq!(run.step(SavepointEvent::Session { present: true }), None);
    assert_eq!(run, SavepointUndo::Delegating);
    assert_eq!(run.pending(), SavepointAction::DelegateUndo);
    assert_eq!(run.step(SavepointEvent::Engine(Ok(()))), Some(SavepointAction::AcquireSession));
    assert_eq!(run.step(SavepointEvent::Engine(Ok(()))), None);
    assert_eq!(run, SavepointUndo::Acquiring);
}

#[test]
fn finished_rollback_takes_no_more_events() {
    let (mut run, _) = play(&[
        SavepointEvent::Engine(Ok(())),
        SavepointEvent::Session { present: true },
        SavepointEvent::Completed,
    ]);
    for event in [
        SavepointEvent::Completed,
        SavepointEvent::Session { present: true },
        SavepointEvent::Engine(Ok(())),
    ] {
        assert_eq!(run.step(event), None);
    }
    assert_eq!(run.pending(), SavepointAction::Finish(Ok(())));
}
