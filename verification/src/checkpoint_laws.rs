//! What holds of every checkpoint, whatever the host reports.
//!
//! The statements here speak of whole runs: a checkpoint of some strength,
//! begun in [`Checkpoint::start`], and any sequence of events that the host
//! may answer with. A checkpoint has no choice of its own: what the host
//! reports decides which way it goes, and each way has one history.
use crate::checkpoint::{
    Checkpoint, CheckpointAction, CheckpointEvent, Durability, DURABILITY_TIMEOUT_SECS,
};
use crate::failure::{Failure, Refusal, SQLITE_BUSY};
use crate::mode::CheckpointMode;
use crate::protocol::{admissible, issued, state_after, Protocol};
use vstd::prelude::*;
use vstd::seq_lib::lemma_seq_contains_after_push;

verus! {

/// The frame that the session reported as its last known one, or zero if it
/// has not reported any. The report is the second event of a checkpoint.
pub open spec fn last_known_frame(events: Seq<CheckpointEvent>) -> u32 {
    if events.len() >= 2 && events[1] is LastKnownFrame {
        events[1]->LastKnownFrame_0
    } else {
        0
    }
}

/// What the host reports, in order, during a checkpoint that succeeds: the
/// session is there and knows of `frame`, confirms it in time, the previous
/// generation is snapshotted, the wrapped checkpoint succeeds, the session is
/// still there afterwards, and the snapshot succeeds.
pub open spec fn successful_events(frame: u32) -> Seq<CheckpointEvent> {
    seq![
        CheckpointEvent::Session { present: true },
        CheckpointEvent::LastKnownFrame(frame),
        CheckpointEvent::Completed,
        CheckpointEvent::Waited(Durability::Confirmed),
        CheckpointEvent::Snapshotted(true),
        CheckpointEvent::Completed,
        CheckpointEvent::Engine(Ok(())),
        CheckpointEvent::Session { present: true },
        CheckpointEvent::Completed,
        CheckpointEvent::Snapshot { ok: true },
        CheckpointEvent::Completed,
    ]
}

/// What the host is asked to do, in order, during a checkpoint that
/// succeeds. The slot is locked while the session is consulted, unlocked
/// while the wrapped log checkpoints, and locked again for the new
/// generation and its snapshot.
pub open spec fn successful_actions(frame: u32) -> Seq<CheckpointAction> {
    seq![
        CheckpointAction::AcquireSession,
        CheckpointAction::ReadLastKnownFrame,
        CheckpointAction::RequestFlush,
        CheckpointAction::AwaitCommitted { frame, timeout_secs: DURABILITY_TIMEOUT_SECS },
        CheckpointAction::QuerySnapshotted,
        CheckpointAction::ReleaseSession,
        CheckpointAction::DelegateCheckpoint,
        CheckpointAction::AcquireSession,
        CheckpointAction::NewGeneration,
        CheckpointAction::SnapshotMainDbFile,
        CheckpointAction::ReleaseSession,
        CheckpointAction::Finish(Ok(())),
    ]
}

/// The history of a checkpoint that went the way of a successful one for
/// `steps` events and then took another turn: the host reported
/// `last_events`, and was asked for `last_actions`.
pub open spec fn diverted(
    frame: u32,
    steps: int,
    last_events: Seq<CheckpointEvent>,
    last_actions: Seq<CheckpointAction>,
    events: Seq<CheckpointEvent>,
    actions: Seq<CheckpointAction>,
) -> bool {
    &&& events =~= successful_events(frame).take(steps) + last_events
    &&& actions =~= successful_actions(frame).take(steps + 1) + last_actions
}

/// The one history of a finished checkpoint that ends in `result`. (A lost
/// session has two: the slot may be found empty before the wrapped
/// checkpoint or after it.)
pub open spec fn finished_history(
    result: Result<(), Failure>,
    events: Seq<CheckpointEvent>,
    actions: Seq<CheckpointAction>,
) -> bool {
    let frame = last_known_frame(events);
    let unlock = seq![CheckpointAction::ReleaseSession, CheckpointAction::Finish(result)];
    match result {
        Ok(_) => {
            &&& frame > 0
            &&& events =~= successful_events(frame)
            &&& actions =~= successful_actions(frame)
        },
        Err(Failure::Refused(Refusal::WeakCheckpoint)) => {
            &&& events.len() == 0
            &&& actions =~= seq![CheckpointAction::Finish(result)]
        },
        Err(Failure::Refused(Refusal::ReplicationUnavailable)) => {
            let lost = seq![CheckpointEvent::Session { present: false }, CheckpointEvent::Completed];
            ||| diverted(0, 0, lost, unlock, events, actions)
            ||| frame > 0 && diverted(frame, 7, lost, unlock, events, actions)
        },
        Err(Failure::Refused(Refusal::NothingCommitted)) => diverted(
            0,
            1,
            seq![
                CheckpointEvent::LastKnownFrame(0),
                CheckpointEvent::Completed,
                CheckpointEvent::Completed,
                CheckpointEvent::Completed,
            ],
            seq![
                CheckpointAction::RequestFlush,
                CheckpointAction::SkipSnapshot,
                CheckpointAction::ReleaseSession,
                CheckpointAction::Finish(result),
            ],
            events,
            actions,
        ),
        Err(Failure::Refused(Refusal::DurabilityTimeout)) => {
            &&& frame > 0
            &&& diverted(
                frame,
                3,
                seq![CheckpointEvent::Waited(Durability::TimedOut), CheckpointEvent::Completed],
                unlock,
                events,
                actions,
            )
        },
        Err(Failure::Refused(Refusal::DurabilityFailure)) => {
            &&& frame > 0
            &&& diverted(
                frame,
                3,
                seq![CheckpointEvent::Waited(Durability::Failed), CheckpointEvent::Completed],
                unlock,
                events,
                actions,
            )
        },
        Err(Failure::Refused(Refusal::GenerationNotSnapshotted)) => {
            &&& frame > 0
            &&& diverted(
                frame,
                4,
                seq![CheckpointEvent::Snapshotted(false), CheckpointEvent::Completed],
                unlock,
                events,
                actions,
            )
        },
        Err(Failure::Engine(error)) => {
            &&& frame > 0
            &&& diverted(
                frame,
                6,
                seq![CheckpointEvent::Engine(Err(error))],
                seq![CheckpointAction::Finish(result)],
                events,
                actions,
            )
        },
        Err(Failure::Refused(Refusal::SnapshotFailure)) => {
            &&& frame > 0
            &&& diverted(
                frame,
                9,
                seq![CheckpointEvent::Snapshot { ok: false }, CheckpointEvent::Completed],
                unlock,
                events,
                actions,
            )
        },
    }
}

/// The history of a checkpoint that has come `steps` events along the way of
/// a successful one.
spec fn on_course(
    steps: int,
    events: Seq<CheckpointEvent>,
    actions: Seq<CheckpointAction>,
) -> bool {
    let frame = last_known_frame(events);
    &&& steps >= 3 ==> frame > 0
    &&& events =~= successful_events(frame).take(steps)
    &&& actions =~= successful_actions(frame).take(steps + 1)
}

/// What the history of a run looks like when it has reached `state`.
spec fn consistent(
    state: Checkpoint,
    events: Seq<CheckpointEvent>,
    actions: Seq<CheckpointAction>,
) -> bool {
    match state {
        Checkpoint::Acquiring => on_course(0, events, actions),
        Checkpoint::Reading => on_course(1, events, actions),
        Checkpoint::Flushing { frame } => {
            &&& frame == last_known_frame(events)
            &&& on_course(2, events, actions)
        },
        Checkpoint::Skipping => {
            &&& events =~= seq![
                CheckpointEvent::Session { present: true },
                CheckpointEvent::LastKnownFrame(0),
                CheckpointEvent::Completed,
            ]
            &&& actions =~= seq![
                CheckpointAction::AcquireSession,
                CheckpointAction::ReadLastKnownFrame,
                CheckpointAction::RequestFlush,
                CheckpointAction::SkipSnapshot,
            ]
        },
        Checkpoint::Awaiting { frame } => {
            &&& frame == last_known_frame(events)
            &&& on_course(3, events, actions)
        },
        Checkpoint::Querying => on_course(4, events, actions),
        Checkpoint::Yielding => on_course(5, events, actions),
        Checkpoint::Delegating => on_course(6, events, actions),
        Checkpoint::Reacquiring => on_course(7, events, actions),
        Checkpoint::Advancing => on_course(8, events, actions),
        Checkpoint::Snapshotting => on_course(9, events, actions),
        Checkpoint::Releasing(result) => {
            &&& !(result matches Err(Failure::Engine(_)))
            &&& !(result matches Err(Failure::Refused(Refusal::WeakCheckpoint)))
            &&& finished_history(
                result,
                events.push(CheckpointEvent::Completed),
                actions.push(CheckpointAction::Finish(result)),
            )
        },
        Checkpoint::Done(result) => finished_history(result, events, actions),
    }
}

/// One step keeps the history consistent with the state.
proof fn lemma_step_consistent(
    state: Checkpoint,
    events: Seq<CheckpointEvent>,
    actions: Seq<CheckpointAction>,
    event: CheckpointEvent,
)
    requires
        consistent(state, events, actions),
        state.accepts(event),
    ensures
        consistent(state.next(event), events.push(event), actions.push(state.next(event).action())),
{
    if let CheckpointEvent::Engine(Ok(unit)) = event {
        assert(unit == ());
    }
}

/// The wait that `actions` asked for was for a frame that the session had
/// reported as its last known one, and that frame was not zero.
pub open spec fn awaited_last_known_frame(
    events: Seq<CheckpointEvent>,
    actions: Seq<CheckpointAction>,
) -> bool {
    exists|frame: u32|
        {
            &&& frame > 0
            &&& #[trigger] events.contains(CheckpointEvent::LastKnownFrame(frame))
            &&& actions.contains(
                CheckpointAction::AwaitCommitted { frame, timeout_secs: DURABILITY_TIMEOUT_SECS },
            )
        }
}

/// The replicator confirmed the last known frame, and no wait ended
/// otherwise.
pub open spec fn durability_confirmed(
    events: Seq<CheckpointEvent>,
    actions: Seq<CheckpointAction>,
) -> bool {
    &&& awaited_last_known_frame(events, actions)
    &&& events.contains(CheckpointEvent::Waited(Durability::Confirmed))
    &&& !events.contains(CheckpointEvent::Waited(Durability::TimedOut))
    &&& !events.contains(CheckpointEvent::Waited(Durability::Failed))
}

/// The wrapped checkpoint has not been asked for, and nothing that follows
/// it has happened.
pub open spec fn engine_untouched(
    events: Seq<CheckpointEvent>,
    actions: Seq<CheckpointAction>,
) -> bool {
    &&& !actions.contains(CheckpointAction::DelegateCheckpoint)
    &&& !actions.contains(CheckpointAction::NewGeneration)
    &&& !actions.contains(CheckpointAction::SnapshotMainDbFile)
    &&& !events.contains(CheckpointEvent::Engine(Ok(())))
}

spec fn no_wait_over(events: Seq<CheckpointEvent>) -> bool {
    &&& !events.contains(CheckpointEvent::Waited(Durability::Confirmed))
    &&& !events.contains(CheckpointEvent::Waited(Durability::TimedOut))
    &&& !events.contains(CheckpointEvent::Waited(Durability::Failed))
}

spec fn session_kept(events: Seq<CheckpointEvent>) -> bool {
    !events.contains(CheckpointEvent::Session { present: false })
}

spec fn skipped(actions: Seq<CheckpointAction>) -> bool {
    actions.contains(CheckpointAction::SkipSnapshot)
}

spec fn snapshotted(events: Seq<CheckpointEvent>) -> bool {
    events.contains(CheckpointEvent::Snapshotted(true))
}

/// The way to the wrapped log is clear: the durability target is confirmed,
/// the previous generation is snapshotted, and no snapshot was skipped.
spec fn cleared(events: Seq<CheckpointEvent>, actions: Seq<CheckpointAction>) -> bool {
    &&& durability_confirmed(events, actions)
    &&& snapshotted(events)
    &&& !skipped(actions)
}

/// The wrapped checkpoint was asked for and, if `succeeded`, reported success;
/// `advanced` and `captured` tell whether the new generation and the snapshot
/// were asked for.
spec fn past_engine(
    events: Seq<CheckpointEvent>,
    actions: Seq<CheckpointAction>,
    succeeded: bool,
    advanced: bool,
    captured: bool,
) -> bool {
    &&& cleared(events, actions)
    &&& actions.contains(CheckpointAction::DelegateCheckpoint)
    &&& events.contains(CheckpointEvent::Engine(Ok(()))) == succeeded
    &&& actions.contains(CheckpointAction::NewGeneration) == advanced
    &&& actions.contains(CheckpointAction::SnapshotMainDbFile) == captured
}

/// Nothing but the first steps has happened: no wait is over, nothing was
/// skipped or asked about snapshots.
spec fn opening(events: Seq<CheckpointEvent>, actions: Seq<CheckpointAction>) -> bool {
    &&& engine_untouched(events, actions)
    &&& no_wait_over(events)
    &&& !skipped(actions)
    &&& !snapshotted(events)
}

/// What has and what has not happened in a run whose result is `result`.
spec fn settled(
    result: Result<(), Failure>,
    events: Seq<CheckpointEvent>,
    actions: Seq<CheckpointAction>,
) -> bool {
    match result {
        Ok(_) => session_kept(events) && past_engine(events, actions, true, true, true),
        Err(Failure::Engine(_)) => session_kept(events) && past_engine(
            events,
            actions,
            false,
            false,
            false,
        ),
        Err(Failure::Refused(Refusal::SnapshotFailure)) => session_kept(events) && past_engine(
            events,
            actions,
            true,
            true,
            true,
        ),
        Err(Failure::Refused(Refusal::ReplicationUnavailable)) => {
            &&& !session_kept(events)
            &&& {
                ||| opening(events, actions)
                ||| past_engine(events, actions, true, false, false)
            }
        },
        Err(Failure::Refused(Refusal::NothingCommitted)) => {
            &&& session_kept(events)
            &&& engine_untouched(events, actions)
            &&& no_wait_over(events)
            &&& skipped(actions)
            &&& !snapshotted(events)
        },
        Err(Failure::Refused(Refusal::DurabilityTimeout)) => {
            &&& session_kept(events)
            &&& engine_untouched(events, actions)
            &&& events.contains(CheckpointEvent::Waited(Durability::TimedOut))
            &&& !events.contains(CheckpointEvent::Waited(Durability::Confirmed))
            &&& !skipped(actions)
            &&& !snapshotted(events)
        },
        Err(Failure::Refused(Refusal::DurabilityFailure)) => {
            &&& session_kept(events)
            &&& engine_untouched(events, actions)
            &&& events.contains(CheckpointEvent::Waited(Durability::Failed))
            &&& !events.contains(CheckpointEvent::Waited(Durability::Confirmed))
            &&& !skipped(actions)
            &&& !snapshotted(events)
        },
        Err(Failure::Refused(Refusal::GenerationNotSnapshotted)) => {
            &&& session_kept(events)
            &&& engine_untouched(events, actions)
            &&& durability_confirmed(events, actions)
            &&& !skipped(actions)
            &&& !snapshotted(events)
        },
        Err(Failure::Refused(Refusal::WeakCheckpoint)) => events.len() == 0 && actions.len() == 1,
    }
}

/// What has and what has not happened in a run that has reached `state`.
spec fn summarized(
    state: Checkpoint,
    events: Seq<CheckpointEvent>,
    actions: Seq<CheckpointAction>,
) -> bool {
    match state {
        Checkpoint::Acquiring => session_kept(events) && opening(events, actions),
        Checkpoint::Reading => session_kept(events) && opening(events, actions),
        Checkpoint::Flushing { frame } => {
            &&& session_kept(events)
            &&& opening(events, actions)
            &&& events.contains(CheckpointEvent::LastKnownFrame(frame))
        },
        Checkpoint::Skipping => {
            &&& session_kept(events)
            &&& engine_untouched(events, actions)
            &&& no_wait_over(events)
            &&& skipped(actions)
            &&& !snapshotted(events)
        },
        Checkpoint::Awaiting { frame } => {
            &&& session_kept(events)
            &&& opening(events, actions)
            &&& awaited_last_known_frame(events, actions)
        },
        Checkpoint::Querying => {
            &&& session_kept(events)
            &&& engine_untouched(events, actions)
            &&& durability_confirmed(events, actions)
            &&& !skipped(actions)
            &&& !snapshotted(events)
        },
        Checkpoint::Yielding => {
            &&& session_kept(events)
            &&& engine_untouched(events, actions)
            &&& cleared(events, actions)
        },
        Checkpoint::Delegating => session_kept(events) && past_engine(
            events,
            actions,
            false,
            false,
            false,
        ),
        Checkpoint::Reacquiring => session_kept(events) && past_engine(
            events,
            actions,
            true,
            false,
            false,
        ),
        Checkpoint::Advancing => session_kept(events) && past_engine(
            events,
            actions,
            true,
            true,
            false,
        ),
        Checkpoint::Snapshotting => session_kept(events) && past_engine(
            events,
            actions,
            true,
            true,
            true,
        ),
        Checkpoint::Releasing(result) => settled(result, events, actions) && !(result matches Err(
            Failure::Refused(Refusal::WeakCheckpoint),
        )),
        Checkpoint::Done(result) => settled(result, events, actions),
    }
}

/// A wait that was asked for stays asked for as the run goes on.
proof fn lemma_awaited_persists(
    events: Seq<CheckpointEvent>,
    actions: Seq<CheckpointAction>,
    event: CheckpointEvent,
    action: CheckpointAction,
)
    requires
        awaited_last_known_frame(events, actions),
    ensures
        awaited_last_known_frame(events.push(event), actions.push(action)),
{
    broadcast use lemma_seq_contains_after_push;

    let frame = choose|frame: u32|
        {
            &&& frame > 0
            &&& #[trigger] events.contains(CheckpointEvent::LastKnownFrame(frame))
            &&& actions.contains(
                CheckpointAction::AwaitCommitted { frame, timeout_secs: DURABILITY_TIMEOUT_SECS },
            )
        };
    assert(events.push(event).contains(CheckpointEvent::LastKnownFrame(frame)));
}

/// One step keeps the summary true of the state.
proof fn lemma_step_summarized(
    state: Checkpoint,
    events: Seq<CheckpointEvent>,
    actions: Seq<CheckpointAction>,
    event: CheckpointEvent,
)
    requires
        summarized(state, events, actions),
        state.accepts(event),
    ensures
        summarized(state.next(event), events.push(event), actions.push(state.next(event).action())),
{
    broadcast use lemma_seq_contains_after_push;

    let after = state.next(event);
    if awaited_last_known_frame(events, actions) {
        lemma_awaited_persists(events, actions, event, after.action());
    }
    if let Checkpoint::Flushing { frame } = state {
        if frame > 0 {
            assert(events.push(event).contains(CheckpointEvent::LastKnownFrame(frame)));
            assert(actions.push(after.action()).contains(
                CheckpointAction::AwaitCommitted { frame, timeout_secs: DURABILITY_TIMEOUT_SECS },
            ));
        }
    }
    if let CheckpointEvent::Engine(Ok(unit)) = event {
        assert(unit == ());
    }
}

/// In an admissible run, the history and the summary both fit the state.
proof fn lemma_run_consistent(mode: CheckpointMode, events: Seq<CheckpointEvent>)
    requires
        admissible(Checkpoint::start(mode), events),
    ensures
        consistent(
            state_after(Checkpoint::start(mode), events),
            events,
            issued(Checkpoint::start(mode), events),
        ),
        summarized(
            state_after(Checkpoint::start(mode), events),
            events,
            issued(Checkpoint::start(mode), events),
        ),
    decreases events.len(),
{
    let start = Checkpoint::start(mode);
    if events.len() == 0 {
        assert forall|action: CheckpointAction| #[trigger]
            issued(start, events).contains(action) implies action == start.action() by {}
    } else {
        let earlier = events.drop_last();
        lemma_run_consistent(mode, earlier);
        lemma_step_consistent(
            state_after(start, earlier),
            earlier,
            issued(start, earlier),
            events.last(),
        );
        lemma_step_summarized(
            state_after(start, earlier),
            earlier,
            issued(start, earlier),
            events.last(),
        );
        assert(earlier.push(events.last()) =~= events);
    }
}

/// A finished checkpoint has the one history that belongs to its result.
pub proof fn finished_checkpoint_history(mode: CheckpointMode, events: Seq<CheckpointEvent>)
    requires
        admissible(Checkpoint::start(mode), events),
        state_after(Checkpoint::start(mode), events) is Done,
    ensures
        state_after(Checkpoint::start(mode), events) matches Checkpoint::Done(result)
            && finished_history(result, events, issued(Checkpoint::start(mode), events)),
{
    lemma_run_consistent(mode, events);
}

/// A checkpoint weaker than `Truncate` is over before it starts: the host is
/// told to return a refusal that the engine reads as busy, and is asked for
/// nothing else, so the wrapped log is never reached.
pub proof fn weak_checkpoint_is_refused(mode: CheckpointMode, events: Seq<CheckpointEvent>)
    requires
        mode.weaker_than(CheckpointMode::Truncate),
        admissible(Checkpoint::start(mode), events),
    ensures
        events.len() == 0,
        issued(Checkpoint::start(mode), events) == seq![
            CheckpointAction::Finish(Err(Failure::Refused(Refusal::WeakCheckpoint))),
        ],
        !issued(Checkpoint::start(mode), events).contains(CheckpointAction::DelegateCheckpoint),
        Refusal::WeakCheckpoint.result_code() == SQLITE_BUSY,
    decreases events.len(),
{
    let start = Checkpoint::start(mode);
    if events.len() > 0 {
        weak_checkpoint_is_refused(mode, events.drop_last());
        assert(state_after(start, events.drop_last()) == start);
    }
    assert(issued(start, events) =~= seq![start.action()]);
    assert forall|action: CheckpointAction| #[trigger]
        issued(start, events).contains(action) implies action == start.action() by {}
}

/// Whenever the wrapped log is asked to checkpoint, the checkpoint is a
/// `Truncate`, the session has confirmed its last known frame within the
/// time allowed, no wait has failed or timed out, and the previous
/// generation is fully snapshotted.
pub proof fn engine_runs_only_when_durable(mode: CheckpointMode, events: Seq<CheckpointEvent>)
    requires
        admissible(Checkpoint::start(mode), events),
        issued(Checkpoint::start(mode), events).contains(CheckpointAction::DelegateCheckpoint),
    ensures
        mode == CheckpointMode::Truncate,
        durability_confirmed(events, issued(Checkpoint::start(mode), events)),
        events.contains(CheckpointEvent::Snapshotted(true)),
        !issued(Checkpoint::start(mode), events).contains(CheckpointAction::SkipSnapshot),
{
    if mode.weaker_than(CheckpointMode::Truncate) {
        weak_checkpoint_is_refused(mode, events);
    }
    lemma_run_consistent(mode, events);
}

/// A checkpoint whose wait for durability times out or fails never reaches
/// the wrapped log, and asks nothing of the session that would change its
/// generation or its snapshots.
pub proof fn unconfirmed_wait_blocks_engine(mode: CheckpointMode, events: Seq<CheckpointEvent>)
    requires
        admissible(Checkpoint::start(mode), events),
        events.contains(CheckpointEvent::Waited(Durability::TimedOut)) || events.contains(
            CheckpointEvent::Waited(Durability::Failed),
        ),
    ensures
        engine_untouched(events, issued(Checkpoint::start(mode), events)),
        !issued(Checkpoint::start(mode), events).contains(CheckpointAction::SkipSnapshot),
        state_after(Checkpoint::start(mode), events) matches Checkpoint::Done(result) ==> {
            ||| result == Err::<(), Failure>(Failure::Refused(Refusal::DurabilityTimeout))
            ||| result == Err::<(), Failure>(Failure::Refused(Refusal::DurabilityFailure))
        },
{
    lemma_run_consistent(mode, events);
}

/// A new generation is started only after the wrapped checkpoint has
/// succeeded, and the main database file is snapshotted only in a new
/// generation.
pub proof fn generation_needs_engine_success(mode: CheckpointMode, events: Seq<CheckpointEvent>)
    requires
        admissible(Checkpoint::start(mode), events),
    ensures
        issued(Checkpoint::start(mode), events).contains(CheckpointAction::NewGeneration)
            ==> events.contains(CheckpointEvent::Engine(Ok(()))),
        issued(Checkpoint::start(mode), events).contains(CheckpointAction::SnapshotMainDbFile)
            ==> issued(Checkpoint::start(mode), events).contains(CheckpointAction::NewGeneration),
{
    if mode.weaker_than(CheckpointMode::Truncate) {
        weak_checkpoint_is_refused(mode, events);
    }
    lemma_run_consistent(mode, events);
}

/// In a finished checkpoint during which the session stayed in its slot, a
/// new generation was started and the main database file snapshotted if and
/// only if the wrapped checkpoint succeeded.
pub proof fn generation_follows_engine_success(mode: CheckpointMode, events: Seq<CheckpointEvent>)
    requires
        admissible(Checkpoint::start(mode), events),
        state_after(Checkpoint::start(mode), events) is Done,
        !events.contains(CheckpointEvent::Session { present: false }),
    ensures
        issued(Checkpoint::start(mode), events).contains(CheckpointAction::NewGeneration)
            <==> events.contains(CheckpointEvent::Engine(Ok(()))),
        issued(Checkpoint::start(mode), events).contains(CheckpointAction::SnapshotMainDbFile)
            <==> events.contains(CheckpointEvent::Engine(Ok(()))),
{
    if mode.weaker_than(CheckpointMode::Truncate) {
        weak_checkpoint_is_refused(mode, events);
    }
    lemma_run_consistent(mode, events);
}

/// A checkpoint that finds the session slot empty, at either time it locks
/// the slot, ends by refusing with `ReplicationUnavailable`.
pub proof fn lost_session_fails_checkpoint(mode: CheckpointMode, events: Seq<CheckpointEvent>)
    requires
        admissible(Checkpoint::start(mode), events),
        events.contains(CheckpointEvent::Session { present: false }),
    ensures
        state_after(Checkpoint::start(mode), events) matches Checkpoint::Done(result) ==> result
            == Err::<(), Failure>(Failure::Refused(Refusal::ReplicationUnavailable)),
        !issued(Checkpoint::start(mode), events).contains(CheckpointAction::NewGeneration),
{
    lemma_run_consistent(mode, events);
}

} // verus!
