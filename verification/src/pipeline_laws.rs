//! Laws of the pipeline controller: what holds of every state that a run
//! can reach, and that a run halts at its first failure.

use vstd::prelude::*;
use crate::orchestrator::OrchestratorView;
use crate::pipeline::{ActionView, ErrorView, EventView, PipelineView, StageState, action_for, initial};
use crate::stage::Stage;

verus! {

/// The stage that an error is about, if it is about one.
pub open spec fn failed_stage(error: ErrorView) -> Option<Stage> {
    match error {
        ErrorView::Io { .. } => None,
        ErrorView::Launch { stage, .. } => Some(stage),
        ErrorView::Timeout { stage } => Some(stage),
        ErrorView::StageFailed { stage, .. } => Some(stage),
    }
}

/// How many stages have succeeded.
pub open spec fn succeeded_count(s: PipelineView) -> int {
    (if s.collect == StageState::Succeeded { 1int } else { 0 })
    + (if s.explain == StageState::Succeeded { 1int } else { 0 })
    + (if s.report == StageState::Succeeded { 1int } else { 0 })
}

/// A stage has left `Pending` only if the stage before it has succeeded,
/// and as soon as a stage has succeeded the stage behind it is under way.
pub open spec fn in_order(s: PipelineView) -> bool {
    &&& s.explain != StageState::Pending <==> s.collect == StageState::Succeeded
    &&& s.report != StageState::Pending <==> s.explain == StageState::Succeeded
}

/// What holds of every state that a run can reach.
pub open spec fn well_formed(s: PipelineView) -> bool {
    &&& in_order(s)
    &&& s.prepared <==> s.collect != StageState::Pending
    &&& forall|stage: Stage|
        #![trigger s.state(stage)]
        s.state(stage) == StageState::Failed <==> s.failure is Some && failed_stage(s.failure->0)
            == Some(stage)
    &&& s.results.len() == succeeded_count(s) + (if s.failure is Some && s.failure->0 is StageFailed {
        1int
    } else {
        0
    })
    &&& forall|i: int| 0 <= i < succeeded_count(s) ==> (#[trigger] s.results[i]).success
    &&& s.failure matches Some(ErrorView::StageFailed { error, .. }) ==> !s.results.last().success
        && s.results.last().error == error
}

/// Whether `event` reports that a stage did not succeed.
pub open spec fn is_failure(event: EventView) -> bool {
    match event {
        EventView::Exited(result) => !result.success,
        EventView::TimedOut => true,
        EventView::LaunchFailed { .. } => true,
        _ => false,
    }
}

/// A run starts in a well-formed state.
pub proof fn lemma_initial_well_formed(use_mock: Option<bool>, project_id: Option<Seq<char>>)
    ensures
        well_formed(initial(use_mock, project_id)),
{
    let s = initial(use_mock, project_id);
    assert forall|stage: Stage| #![trigger s.state(stage)] s.state(stage) != StageState::Failed by {}
}

/// Whatever the caller reports, a well-formed state is followed by a
/// well-formed state.
pub proof fn lemma_after_well_formed(s: PipelineView, event: EventView)
    requires
        well_formed(s),
    ensures
        well_formed(s.after(event)),
{
    let t = s.after(event);
    if t != s {
        assert(s.state(Stage::Collect) == s.collect);
        assert(s.state(Stage::Explain) == s.explain);
        assert(s.state(Stage::Report) == s.report);
        assert forall|stage: Stage|
            #![trigger t.state(stage)]
            t.state(stage) == StageState::Failed <==> t.failure is Some && failed_stage(
                t.failure->0,
            ) == Some(stage) by {
            assert(s.state(stage) == StageState::Failed <==> s.failure is Some && failed_stage(
                s.failure->0,
            ) == Some(stage));
        }
        assert forall|i: int| 0 <= i < succeeded_count(t) implies (#[trigger] t.results[i]).success by {
            if i < succeeded_count(s) {
                assert(s.results[i].success);
            }
        }
    }
}

/// Every state that a run reaches from a well-formed state is well-formed.
pub proof fn lemma_after_all_well_formed(s: PipelineView, events: Seq<EventView>)
    requires
        well_formed(s),
    ensures
        well_formed(s.after_all(events)),
    decreases events.len(),
{
    if events.len() > 0 {
        lemma_after_well_formed(s, events[0]);
        lemma_after_all_well_formed(s.after(events[0]), events.drop_first());
    }
}

/// A run that is over stays as it is, whatever the caller reports.
pub proof fn lemma_finished_is_final(s: PipelineView, events: Seq<EventView>)
    requires
        s.finished(),
    ensures
        s.after_all(events) == s,
    decreases events.len(),
{
    if events.len() > 0 {
        lemma_finished_is_final(s, events.drop_first());
    }
}

/// A stage is invoked only while it is running, after every stage before
/// it has succeeded and before any stage behind it has begun.
pub proof fn lemma_invoked_in_order(o: OrchestratorView, s: PipelineView)
    requires
        well_formed(s),
    ensures
        action_for(o, s) matches ActionView::Invoke(call) ==> {
            &&& s.state(call.stage) == StageState::Running
            &&& forall|other: Stage|
                other.position() < call.stage.position() ==> #[trigger] s.state(other)
                    == StageState::Succeeded
            &&& forall|other: Stage|
                other.position() > call.stage.position() ==> #[trigger] s.state(other)
                    == StageState::Pending
        },
{
}

/// Once a stage has failed the run is halted: whatever the caller reports
/// from then on, the state stays the same, the stages behind the failed
/// one stay pending, and the controller asks for nothing but to finish.
pub proof fn lemma_halts_at_first_failure(
    o: OrchestratorView,
    s: PipelineView,
    stage: Stage,
    events: Seq<EventView>,
)
    requires
        well_formed(s),
        s.state(stage) == StageState::Failed,
    ensures
        s.after_all(events) == s,
        action_for(o, s.after_all(events)) == (ActionView::Finish { clear_progress: false }),
        forall|later: Stage|
            later.position() > stage.position() ==> #[trigger] s.after_all(events).state(later)
                == StageState::Pending,
{
    lemma_finished_is_final(s, events);
    assert forall|later: Stage| later.position() > stage.position() implies #[trigger] s.state(
        later,
    ) == StageState::Pending by {
        assert(s.state(Stage::Collect) == s.collect);
        assert(s.state(Stage::Explain) == s.explain);
        assert(s.state(Stage::Report) == s.report);
    }
}

/// If the collector fails, the explainer and the reporter are never
/// invoked: they stay pending for the rest of the run, and the run's
/// failure names the collector.
pub proof fn lemma_collect_failure_invokes_nothing(
    o: OrchestratorView,
    use_mock: Option<bool>,
    project_id: Option<Seq<char>>,
    failure: EventView,
    events: Seq<EventView>,
)
    requires
        is_failure(failure),
    ensures
        ({
            let end = initial(use_mock, project_id).after(EventView::DirectoriesReady).after(
                failure,
            ).after_all(events);
            &&& end.collect == StageState::Failed
            &&& end.explain == StageState::Pending
            &&& end.report == StageState::Pending
            &&& end.failure is Some && failed_stage(end.failure->0) == Some(Stage::Collect)
            &&& action_for(o, end) == (ActionView::Finish { clear_progress: false })
        }),
{
    let start = initial(use_mock, project_id);
    lemma_initial_well_formed(use_mock, project_id);
    lemma_after_well_formed(start, EventView::DirectoriesReady);
    let running = start.after(EventView::DirectoriesReady);
    lemma_after_well_formed(running, failure);
    let failed = running.after(failure);
    assert(failed.state(Stage::Collect) == StageState::Failed);
    lemma_halts_at_first_failure(o, failed, Stage::Collect, events);
}

/// A stage that exits with a status other than zero fails the run with
/// what the stage wrote to its error stream.
pub proof fn lemma_failure_carries_error(s: PipelineView, result: crate::stage::ResultView)
    requires
        well_formed(s),
        s.prepared,
        !s.finished(),
        !result.success,
    ensures
        s.after(EventView::Exited(result)).failure == Some(
            ErrorView::StageFailed { stage: s.current(), error: result.error },
        ),
        s.after(EventView::Exited(result)).state(s.current()) == StageState::Failed,
{
}

} // verus!
