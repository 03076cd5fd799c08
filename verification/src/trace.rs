//! What holds of every course that a session can take.

use crate::invocation::{InvocationView, OutputFormat};
use crate::session::{opening, Action, Elapsed, Event, Phase, SessionView};
use vstd::prelude::*;

verus! {

/// The state reached from `start` by taking in `events` one after the other.
pub open spec fn replay(start: SessionView, events: Seq<Event>) -> SessionView
    decreases events.len(),
{
    if events.len() == 0 {
        start
    } else {
        replay(start, events.drop_last()).advance(events.last())
    }
}

/// What one run came to: its exit code, where it has one, and its time.
pub type Outcome = (Option<i32>, Elapsed);

/// The event that reports `outcome`.
pub open spec fn finished(outcome: Outcome) -> Event {
    Event::RunFinished { exit_code: outcome.0, elapsed: outcome.1 }
}

/// The events of a driver that meets no failure, from the start up to the
/// last of `outcomes`: the key where one is awaited, then every run in turn.
pub open spec fn script(invocation: InvocationView, outcomes: Seq<Outcome>) -> Seq<Event> {
    let gate = if invocation.wait {
        seq![Event::KeyRead]
    } else {
        Seq::empty()
    };
    gate + outcomes.map_values(|o: Outcome| finished(o))
}

/// The state that `script` leads to.
pub open spec fn after_runs(invocation: InvocationView, outcomes: Seq<Outcome>) -> SessionView {
    SessionView {
        invocation,
        phase: if outcomes.len() < invocation.runs {
            Phase::Running
        } else {
            Phase::Reporting
        },
        times: outcomes.map_values(|o: Outcome| o.1),
        last_code: if outcomes.len() == 0 {
            None
        } else {
            outcomes.last().0
        },
    }
}

/// No event leads out of the valid states, and none changes the parameters.
pub proof fn lemma_advance_keeps_wf(state: SessionView, event: Event)
    requires
        state.wf(),
    ensures
        state.advance(event).wf(),
        state.advance(event).invocation == state.invocation,
{
}

/// Whatever the driver reports, in whatever order, the session stays in a
/// valid state: it never holds more times than runs were asked for, and it
/// holds exactly that many whenever the aggregate can be had.
pub proof fn lemma_replay_keeps_wf(invocation: InvocationView, events: Seq<Event>)
    requires
        invocation.wf(),
    ensures
        replay(opening(invocation), events).wf(),
        replay(opening(invocation), events).invocation == invocation,
        replay(opening(invocation), events).times.len() <= invocation.runs,
        replay(opening(invocation), events).complete() ==> replay(
            opening(invocation),
            events,
        ).times.len() == invocation.runs,
    decreases events.len(),
{
    if events.len() > 0 {
        lemma_replay_keeps_wf(invocation, events.drop_last());
        lemma_advance_keeps_wf(replay(opening(invocation), events.drop_last()), events.last());
    }
}

/// A run that is taken in adds its time after those before it and puts its
/// exit code in the place of the one before, whatever that was. No other
/// event touches the times or the exit code.
pub proof fn lemma_exit_code_is_of_last_run(state: SessionView, event: Event)
    ensures
        state.phase == Phase::Running ==> (event matches Event::RunFinished { exit_code, elapsed }
            ==> state.advance(event).last_code == exit_code && state.advance(event).times
            == state.times.push(elapsed)),
        !(state.phase == Phase::Running && event is RunFinished) ==> state.advance(event).last_code
            == state.last_code && state.advance(event).times == state.times,
{
}

/// A driver that meets no failure and has made some of the runs stands where
/// `after_runs` says.
pub proof fn lemma_script_leads_to_after_runs(invocation: InvocationView, outcomes: Seq<Outcome>)
    requires
        invocation.wf(),
        outcomes.len() <= invocation.runs,
    ensures
        replay(opening(invocation), script(invocation, outcomes)) == after_runs(
            invocation,
            outcomes,
        ),
    decreases outcomes.len(),
{
    let start = opening(invocation);
    let events = script(invocation, outcomes);
    if outcomes.len() == 0 {
        assert(after_runs(invocation, outcomes).times =~= Seq::<Elapsed>::empty());
        if invocation.wait {
            assert(events =~= seq![Event::KeyRead]);
            assert(events.drop_last() =~= Seq::<Event>::empty());
            assert(replay(start, events.drop_last()) == start);
            assert(events.last() == Event::KeyRead);
        } else {
            assert(events =~= Seq::<Event>::empty());
        }
    } else {
        let before = outcomes.drop_last();
        lemma_script_leads_to_after_runs(invocation, before);
        assert(events.drop_last() =~= script(invocation, before));
        assert(events.last() == finished(outcomes.last()));
        assert(after_runs(invocation, before).times.push(outcomes.last().1) =~= after_runs(
            invocation,
            outcomes,
        ).times);
    }
}

/// When as many runs have been made as were asked for, the aggregate holds
/// one time for each run, in the order of the runs, and the exit code of the
/// last run alone; the earlier codes have no part in it.
pub proof fn lemma_complete_session(invocation: InvocationView, outcomes: Seq<Outcome>)
    requires
        invocation.wf(),
        outcomes.len() == invocation.runs,
    ensures
        ({
            let end = replay(opening(invocation), script(invocation, outcomes));
            &&& end.phase == Phase::Reporting
            &&& end.instruction() == Action::Report { format: invocation.format }
            &&& end.times.len() == invocation.runs
            &&& forall|i: int| 0 <= i < outcomes.len() ==> end.times[i] == outcomes[i].1
            &&& end.last_code == outcomes.last().0
        }),
{
    lemma_script_leads_to_after_runs(invocation, outcomes);
}

/// The format decides how the aggregate is presented and nothing else: two
/// sessions that differ in it alone go through the same phases and hold the
/// same times and the same exit code after the same events.
pub proof fn lemma_format_is_presentation_only(
    invocation: InvocationView,
    format: OutputFormat,
    events: Seq<Event>,
)
    ensures
        ({
            let one = replay(opening(invocation), events);
            let other = replay(opening(InvocationView { format, ..invocation }), events);
            &&& one.invocation == invocation
            &&& other.invocation == (InvocationView { format, ..invocation })
            &&& other.phase == one.phase
            &&& other.times == one.times
            &&& other.last_code == one.last_code
            &&& other.complete() == one.complete()
        }),
    decreases events.len(),
{
    if events.len() > 0 {
        lemma_format_is_presentation_only(invocation, format, events.drop_last());
    }
}

/// Where a key is awaited, nothing is timed before it has been read: as
/// long as no `KeyRead` is among the events, the session asks for no run
/// and holds no time.
pub proof fn lemma_no_run_before_key(invocation: InvocationView, events: Seq<Event>)
    requires
        invocation.wait,
        forall|i: int| 0 <= i < events.len() ==> events[i] != Event::KeyRead,
    ensures
        ({
            let state = replay(opening(invocation), events);
            &&& state.phase == Phase::AwaitingKey || state.phase == Phase::Failed
            &&& !(state.instruction() is Run)
            &&& state.times.len() == 0
        }),
    decreases events.len(),
{
    if events.len() > 0 {
        lemma_no_run_before_key(invocation, events.drop_last());
    }
}

/// A session never goes back: no event leads to an earlier phase or takes a
/// time away, and an event that changes the state leads to a later phase or
/// adds a time. So the key is awaited, the aggregate presented and the
/// snapshot listed at most once, in that order.
pub proof fn lemma_session_moves_forward(state: SessionView, event: Event)
    requires
        state.wf(),
    ensures
        state.advance(event).progress() >= state.progress(),
        state.advance(event).times.len() >= state.times.len(),
        state.advance(event) != state ==> state.advance(event).progress() > state.progress()
            || state.advance(event).times.len() > state.times.len(),
        state.phase == Phase::Listing ==> state.advance(event) == state || state.advance(
            event,
        ).phase == Phase::Finished,
{
}

/// A session that has finished or failed stays as it is: the snapshot is
/// asked for once, and after a failure nothing is asked for again.
pub proof fn lemma_ended_session_stays(state: SessionView, event: Event)
    requires
        state.phase == Phase::Finished || state.phase == Phase::Failed,
    ensures
        state.advance(event) == state,
{
}

/// After a failure the aggregate cannot be had, not even of the runs that
/// were made before it.
pub proof fn lemma_failure_reports_nothing(state: SessionView, events: Seq<Event>)
    requires
        state.phase == Phase::Failed,
    ensures
        replay(state, events) == state,
        !replay(state, events).complete(),
    decreases events.len(),
{
    if events.len() > 0 {
        lemma_failure_reports_nothing(state, events.drop_last());
    }
}

} // verus!
