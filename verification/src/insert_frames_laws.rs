//! What holds of every insert, whatever the host reports.
//!
//! An insert has no choice of its own: what the host reports decides which
//! way it goes, and each way has one history. The statements here give those
//! histories.
use crate::failure::{Failure, Refusal};
use crate::insert_frames::{InsertAction, InsertEvent, InsertFrames};
use crate::protocol::{admissible, issued, state_after, Protocol};
use vstd::prelude::*;

verus! {

/// The frame counter that `event` reports, or zero if it reports none.
pub open spec fn counter(event: InsertEvent) -> u32 {
    match event {
        InsertEvent::FrameCount(frames) => frames,
        _ => 0,
    }
}

/// What the host reports, in order, during an insert that succeeds: the log
/// held `before` frames, took the write and returned `written`, the session
/// was there and took the page size, and the log held `after` frames in the
/// end.
pub open spec fn successful_events(before: u32, written: usize, after: u32) -> Seq<InsertEvent> {
    seq![
        InsertEvent::FrameCount(before),
        InsertEvent::Engine(Ok(written)),
        InsertEvent::Session { present: true },
        InsertEvent::PageSize { accepted: true },
        InsertEvent::Completed,
        InsertEvent::FrameCount(after),
        InsertEvent::Completed,
        InsertEvent::Completed,
    ]
}

/// What the host is asked to do, in order, during an insert that succeeds.
/// The frames submitted are those by which the log grew.
pub open spec fn successful_actions(
    page_size: usize,
    before: u32,
    written: usize,
    after: u32,
) -> Seq<InsertAction> {
    seq![
        InsertAction::ReadFrameCount,
        InsertAction::DelegateInsert,
        InsertAction::AcquireSession,
        InsertAction::SetPageSize(page_size),
        InsertAction::RegisterLastValidFrame(before),
        InsertAction::ReadFrameCount,
        InsertAction::SubmitFrames((after - before) as u32),
        InsertAction::ReleaseSession,
        InsertAction::Finish(Ok(written)),
    ]
}

/// The history of an insert that has come `steps` events along the way of a
/// successful one.
spec fn on_course(
    page_size: usize,
    before: u32,
    written: usize,
    after: u32,
    steps: int,
    events: Seq<InsertEvent>,
    actions: Seq<InsertAction>,
) -> bool {
    &&& events =~= successful_events(before, written, after).take(steps)
    &&& actions =~= successful_actions(page_size, before, written, after).take(steps + 1)
}

/// What the history of a run looks like when it has reached `state`.
spec fn consistent(
    page_size: usize,
    state: InsertFrames,
    events: Seq<InsertEvent>,
    actions: Seq<InsertAction>,
) -> bool {
    match state {
        InsertFrames::Counting { page_size: size } => {
            &&& size == page_size
            &&& on_course(page_size, 0, 0, 0, 0, events, actions)
        },
        InsertFrames::Inserting { page_size: size, before } => {
            &&& size == page_size
            &&& on_course(page_size, before, 0, 0, 1, events, actions)
        },
        InsertFrames::Acquiring { page_size: size, before, written } => {
            &&& size == page_size
            &&& on_course(page_size, before, written, 0, 2, events, actions)
        },
        InsertFrames::Configuring { page_size: size, before, written } => {
            &&& size == page_size
            &&& on_course(page_size, before, written, 0, 3, events, actions)
        },
        InsertFrames::Registering { before, written } => on_course(
            page_size,
            before,
            written,
            0,
            4,
            events,
            actions,
        ),
        InsertFrames::Recounting { before, written } => on_course(
            page_size,
            before,
            written,
            0,
            5,
            events,
            actions,
        ),
        InsertFrames::Submitting { frames, written } => {
            &&& events.len() == 6
            &&& counter(events[0]) <= counter(events[5])
            &&& frames == counter(events[5]) - counter(events[0])
            &&& on_course(page_size, counter(events[0]), written, counter(events[5]), 6, events, actions)
        },
        InsertFrames::Releasing(Ok(written)) => {
            &&& events.len() == 7
            &&& counter(events[0]) <= counter(events[5])
            &&& on_course(page_size, counter(events[0]), written, counter(events[5]), 7, events, actions)
        },
        InsertFrames::Done(Ok(written)) => {
            &&& events.len() == 8
            &&& counter(events[0]) <= counter(events[5])
            &&& on_course(page_size, counter(events[0]), written, counter(events[5]), 8, events, actions)
        },
        InsertFrames::Aborting => {
            &&& events.len() == 4
            &&& events[0] is FrameCount
            &&& events[1] is Engine
            &&& events[1]->Engine_0 is Ok
            &&& events =~= seq![
                events[0],
                events[1],
                InsertEvent::Session { present: true },
                InsertEvent::PageSize { accepted: false },
            ]
            &&& actions =~= seq![
                InsertAction::ReadFrameCount,
                InsertAction::DelegateInsert,
                InsertAction::AcquireSession,
                InsertAction::SetPageSize(page_size),
                InsertAction::Abort,
            ]
        },
        InsertFrames::Releasing(Err(failure)) => {
            &&& failure == Failure::Refused(Refusal::ReplicationUnavailable)
            &&& events.len() == 3
            &&& lost_session(events.push(InsertEvent::Completed), actions.push(InsertAction::Finish(Err(failure))))
        },
        InsertFrames::Done(Err(Failure::Refused(refusal))) => {
            &&& refusal == Refusal::ReplicationUnavailable
            &&& lost_session(events, actions)
        },
        InsertFrames::Done(Err(Failure::Engine(error))) => {
            &&& events.len() == 2
            &&& events[0] is FrameCount
            &&& events[1] == InsertEvent::Engine(Err(error))
            &&& actions =~= seq![
                InsertAction::ReadFrameCount,
                InsertAction::DelegateInsert,
                InsertAction::Finish(Err(Failure::Engine(error))),
            ]
        },
    }
}

/// The history of an insert whose write succeeded and which then found the
/// session slot empty.
pub open spec fn lost_session(events: Seq<InsertEvent>, actions: Seq<InsertAction>) -> bool {
    &&& events.len() == 4
    &&& events[0] is FrameCount
    &&& events[1] is Engine
    &&& events[1]->Engine_0 is Ok
    &&& events[2] == InsertEvent::Session { present: false }
    &&& events[3] == InsertEvent::Completed
    &&& actions =~= seq![
        InsertAction::ReadFrameCount,
        InsertAction::DelegateInsert,
        InsertAction::AcquireSession,
        InsertAction::ReleaseSession,
        InsertAction::Finish(Err(Failure::Refused(Refusal::ReplicationUnavailable))),
    ]
}

/// One step keeps the history consistent with the state.
proof fn lemma_step_consistent(
    page_size: usize,
    state: InsertFrames,
    events: Seq<InsertEvent>,
    actions: Seq<InsertAction>,
    event: InsertEvent,
)
    requires
        consistent(page_size, state, events, actions),
        state.accepts(event),
    ensures
        consistent(
            page_size,
            state.next(event),
            events.push(event),
            actions.push(state.next(event).action()),
        ),
{
}

/// The history of an admissible run is consistent with the state it reached.
proof fn lemma_run_consistent(page_size: i32, events: Seq<InsertEvent>)
    requires
        admissible(InsertFrames::start(page_size), events),
    ensures
        consistent(
            page_size as usize,
            state_after(InsertFrames::start(page_size), events),
            events,
            issued(InsertFrames::start(page_size), events),
        ),
    decreases events.len(),
{
    let start = InsertFrames::start(page_size);
    if events.len() > 0 {
        let earlier = events.drop_last();
        lemma_run_consistent(page_size, earlier);
        lemma_step_consistent(
            page_size as usize,
            state_after(start, earlier),
            earlier,
            issued(start, earlier),
            events.last(),
        );
        assert(earlier.push(events.last()) =~= events);
    }
}

/// An insert that succeeds has exactly one history. The session is told the
/// page size, then where the new frames start, and is then handed as many
/// frames as the log's counter grew by during the write: none twice, none
/// left out. The engine receives what the wrapped log returned.
pub proof fn successful_insert_submits_growth(page_size: i32, events: Seq<InsertEvent>)
    requires
        admissible(InsertFrames::start(page_size), events),
        state_after(InsertFrames::start(page_size), events) matches InsertFrames::Done(Ok(_)),
    ensures
        events.len() == 8,
        counter(events[0]) <= counter(events[5]),
        state_after(InsertFrames::start(page_size), events) matches InsertFrames::Done(
            Ok(written),
        ) && events == successful_events(counter(events[0]), written, counter(events[5]))
            && issued(InsertFrames::start(page_size), events) == successful_actions(
            page_size as usize,
            counter(events[0]),
            written,
            counter(events[5]),
        ),
{
    lemma_run_consistent(page_size, events);
}

/// At any point of any insert, frames have been submitted to the session
/// only if the counter was read a second time, and then their number is the
/// difference of the two readings.
pub proof fn submitted_frames_equal_growth(page_size: i32, events: Seq<InsertEvent>, frames: u32)
    requires
        admissible(InsertFrames::start(page_size), events),
        issued(InsertFrames::start(page_size), events).contains(InsertAction::SubmitFrames(frames)),
    ensures
        events.len() >= 6,
        events[0] is FrameCount,
        events[5] is FrameCount,
        frames == counter(events[5]) - counter(events[0]),
{
    lemma_run_consistent(page_size, events);
}

/// An insert that fails has submitted nothing. Either the wrapped log failed,
/// and then its error is returned as it came and the session was not
/// touched; or the write succeeded and the session slot was empty, and then
/// the insert is refused with `ReplicationUnavailable` although the frames
/// are in the log.
pub proof fn failed_insert_submits_nothing(page_size: i32, events: Seq<InsertEvent>)
    requires
        admissible(InsertFrames::start(page_size), events),
        state_after(InsertFrames::start(page_size), events) matches InsertFrames::Done(Err(_)),
    ensures
        forall|frames: u32|
            !(#[trigger] issued(InsertFrames::start(page_size), events).contains(
                InsertAction::SubmitFrames(frames),
            )),
        match state_after(InsertFrames::start(page_size), events) {
            InsertFrames::Done(Err(Failure::Engine(error))) => {
                &&& events.len() == 2
                &&& events[1] == InsertEvent::Engine(Err(error))
                &&& issued(InsertFrames::start(page_size), events) == seq![
                    InsertAction::ReadFrameCount,
                    InsertAction::DelegateInsert,
                    InsertAction::Finish(Err(Failure::Engine(error))),
                ]
            },
            InsertFrames::Done(Err(Failure::Refused(refusal))) => {
                &&& refusal == Refusal::ReplicationUnavailable
                &&& lost_session(events, issued(InsertFrames::start(page_size), events))
            },
            _ => false,
        },
{
    lemma_run_consistent(page_size, events);
}

/// An insert ends the process exactly when the session turns the page size
/// down, and it has then submitted nothing.
pub proof fn rejected_page_size_aborts(page_size: i32, events: Seq<InsertEvent>)
    requires
        admissible(InsertFrames::start(page_size), events),
    ensures
        issued(InsertFrames::start(page_size), events).contains(InsertAction::Abort)
            <==> events.contains(InsertEvent::PageSize { accepted: false }),
        events.contains(InsertEvent::PageSize { accepted: false }) ==> forall|frames: u32|
            !(#[trigger] issued(InsertFrames::start(page_size), events).contains(
                InsertAction::SubmitFrames(frames),
            )),
{
    lemma_run_consistent(page_size, events);
    let actions = issued(InsertFrames::start(page_size), events);
    if state_after(InsertFrames::start(page_size), events) is Aborting {
        assert(actions[4] == InsertAction::Abort);
        assert(events[3] == InsertEvent::PageSize { accepted: false });
    }
}

} // verus!
