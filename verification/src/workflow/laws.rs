//! What holds of every run of a workflow, whatever its steps and exports
//! report.

use vstd::prelude::*;
use crate::sandbox::error::SandboxErrorView;
use crate::workflow::model::{after_steps, next_workflow_state, started, step_result, step_run};
use crate::workflow::model::{workflow_action, workflow_after, workflow_inv, WorkflowActionView};
use crate::workflow::model::{WorkflowEventView, WorkflowRunView, WorkflowStage, WorkflowView};
use crate::workflow::types::{steps_time, ExportResultView, StepResultView, StepView};
use crate::workflow::types::WorkflowErrorView;
use crate::workflow::types::WorkflowResultView;

verus! {

/// A run starts in a state that can be, with no result and no failure:
/// nothing of an earlier run of the workflow is in it.
pub proof fn lemma_fresh_start(w: WorkflowView)
    ensures
        workflow_inv(started(w)),
        started(w).workflow == w,
        started(w).step_results.len() == 0,
        started(w).export_results.len() == 0,
        started(w).failure is None,
{
}

/// No event leads out of the states that can be.
pub proof fn lemma_next_keeps_workflow_inv(s: WorkflowRunView, event: WorkflowEventView)
    requires
        workflow_inv(s),
    ensures
        workflow_inv(next_workflow_state(s, event)),
        next_workflow_state(s, event).workflow == s.workflow,
{
}

/// No list of events leads out of the states that can be.
pub proof fn lemma_events_keep_workflow_inv(s: WorkflowRunView, events: Seq<WorkflowEventView>)
    requires
        workflow_inv(s),
    ensures
        workflow_inv(workflow_after(s, events)),
        workflow_after(s, events).workflow == s.workflow,
    decreases events.len(),
{
    if events.len() > 0 {
        lemma_events_keep_workflow_inv(s, events.drop_last());
        lemma_next_keeps_workflow_inv(workflow_after(s, events.drop_last()), events.last());
    }
}

/// A run that is over stays as it is.
pub proof fn lemma_over_is_over(s: WorkflowRunView, events: Seq<WorkflowEventView>)
    requires
        s.stage == WorkflowStage::StepFailed || s.stage == WorkflowStage::ExportFailed || s.stage
            == WorkflowStage::Completed,
    ensures
        workflow_after(s, events) == s,
    decreases events.len(),
{
    if events.len() > 0 {
        lemma_over_is_over(s, events.drop_last());
    }
}

/// Exports wait for the steps. Whatever was reported, an export is asked
/// for only when every step has its result and nothing has failed.
pub proof fn lemma_exports_follow_steps(w: WorkflowView, events: Seq<WorkflowEventView>)
    ensures
        ({
            let s = workflow_after(started(w), events);
            workflow_action(s) is RunExport ==> s.step_results.len() == w.steps.len() && s.failure
                is None
        }),
{
    lemma_fresh_start(w);
    lemma_events_keep_workflow_inv(started(w), events);
}

/// Whether the first `count` events each report a step that succeeded.
pub open spec fn steps_succeeded(events: Seq<WorkflowEventView>, count: int) -> bool {
    &&& 0 <= count <= events.len()
    &&& forall|i: int|
        0 <= i < count ==> (#[trigger] events[i] matches WorkflowEventView::StepFinished {
            outcome,
            ..
        } && outcome is Ok)
}

/// The results of the steps that the first `count` events report.
pub open spec fn reported_results(events: Seq<WorkflowEventView>, count: int) -> Seq<
    StepResultView,
> {
    Seq::new(
        count as nat,
        |i: int|
            step_result(
                i as nat,
                events[i]->StepFinished_outcome->Ok_0,
                events[i]->StepFinished_exec_time,
            ),
    )
}

/// While steps succeed, each leaves its result at its place, and the run
/// moves on to the next step, or past the steps after the last.
pub proof fn lemma_steps_accumulate(w: WorkflowView, events: Seq<WorkflowEventView>, count: int)
    requires
        steps_succeeded(events, count),
        count <= w.steps.len(),
    ensures
        ({
            let s = workflow_after(started(w), events.take(count));
            &&& s.workflow == w
            &&& s.step_results == reported_results(events, count)
            &&& s.export_results.len() == 0
            &&& s.failure is None
            &&& s.stage == if count < w.steps.len() {
                WorkflowStage::RunningSteps
            } else {
                after_steps(w)
            }
        }),
    decreases count,
{
    if count == 0 {
        assert(events.take(0).len() == 0);
        assert(reported_results(events, 0) =~= Seq::empty());
    } else {
        lemma_steps_accumulate(w, events, count - 1);
        assert(events.take(count).drop_last() == events.take(count - 1));
        assert(events.take(count).last() == events[count - 1]);
        assert(reported_results(events, count) =~= reported_results(events, count - 1).push(
            step_result(
                (count - 1) as nat,
                events[count - 1]->StepFinished_outcome->Ok_0,
                events[count - 1]->StepFinished_exec_time,
            ),
        ));
    }
}

/// The chain. After the first `count` steps have succeeded, the next step
/// is asked for, as a run of its own file in the sandbox of the workflow.
/// The first step is given the input of the workflow. Every later step is
/// given what the step before it wrote to standard output, and nothing of
/// what it wrote to standard error.
pub proof fn lemma_output_feeds_next_step(
    w: WorkflowView,
    events: Seq<WorkflowEventView>,
    count: int,
)
    requires
        steps_succeeded(events, count),
        count < w.steps.len(),
    ensures
        workflow_action(workflow_after(started(w), events.take(count))) == (
        WorkflowActionView::RunStep {
            step_idx: count as nat,
            run: step_run(
                w,
                w.steps[count],
                if count == 0 {
                    w.input
                } else {
                    Some(events[count - 1]->StepFinished_outcome->Ok_0.stdout)
                },
            ),
        }),
{
    lemma_steps_accumulate(w, events, count);
}

/// The first failure of a step ends the run and keeps what came before.
/// Where the steps before the step at `place` succeed and that step fails,
/// then at every point of the run: no export is asked for and no step after
/// the one that failed; and from the failure on, whatever is reported, the
/// run ends with the error of that step and with the results of exactly the
/// steps before it, each at its place and in order.
pub proof fn lemma_failed_step_keeps_earlier_results(
    w: WorkflowView,
    events: Seq<WorkflowEventView>,
    place: int,
    error: SandboxErrorView,
    seen: int,
)
    requires
        steps_succeeded(events, place),
        place < w.steps.len(),
        place < events.len(),
        events[place] matches WorkflowEventView::StepFinished { outcome, .. } && outcome == Err::<
            crate::sandbox::output::RunOutputView,
            SandboxErrorView,
        >(error),
        0 <= seen <= events.len(),
    ensures
        ({
            let s = workflow_after(started(w), events.take(seen));
            &&& !(workflow_action(s) is RunExport)
            &&& s.export_results.len() == 0
            &&& workflow_action(s) matches WorkflowActionView::RunStep { step_idx, .. }
                ==> step_idx <= place
            &&& seen > place ==> workflow_action(s) == (WorkflowActionView::Finish {
                result: Err(
                    WorkflowErrorView::StepError {
                        source: error,
                        prev_steps_results: reported_results(events, place),
                    },
                ),
            })
        }),
        reported_results(events, place).len() == place,
        forall|i: int|
            0 <= i < place ==> (#[trigger] reported_results(events, place)[i]).step_idx == i,
    decreases seen,
{
    if seen <= place {
        assert(steps_succeeded(events, seen));
        lemma_steps_accumulate(w, events, seen);
    } else if seen == place + 1 {
        lemma_steps_accumulate(w, events, place);
        assert(events.take(seen).drop_last() == events.take(place));
        assert(events.take(seen).last() == events[place]);
    } else {
        lemma_failed_step_keeps_earlier_results(w, events, place, error, seen - 1);
        assert(events.take(seen).drop_last() == events.take(seen - 1));
        let before = workflow_after(started(w), events.take(seen - 1));
        assert(before.stage == WorkflowStage::StepFailed);
    }
}

/// A workflow of which every step succeeds and which has no export ends
/// with the results of all its steps. Its output is what the last step
/// wrote to standard output, and its time is the time of all its steps.
pub proof fn lemma_all_steps_succeed(w: WorkflowView, events: Seq<WorkflowEventView>)
    requires
        steps_succeeded(events, w.steps.len() as int),
        events.len() == w.steps.len(),
        w.exports.len() == 0,
    ensures
        ({
            let done = WorkflowResultView {
                step_results: reported_results(events, w.steps.len() as int),
                export_results: Seq::empty(),
            };
            &&& workflow_action(workflow_after(started(w), events)) == (WorkflowActionView::Finish {
                result: Ok(done),
            })
            &&& done.exec_time() == steps_time(done.step_results)
            &&& w.steps.len() > 0 ==> done.output() == Some(
                events.last()->StepFinished_outcome->Ok_0.stdout,
            )
            &&& w.steps.len() == 0 ==> done.output() is None
        }),
{
    lemma_steps_accumulate(w, events, w.steps.len() as int);
    assert(events.take(w.steps.len() as int) == events);
    let s = workflow_after(started(w), events);
    assert(s.export_results =~= Seq::<ExportResultView>::empty());
}

/// The timeouts of a list of steps, all together.
pub open spec fn timeouts_total(steps: Seq<StepView>) -> nat
    decreases steps.len(),
{
    if steps.len() == 0 {
        0
    } else {
        timeouts_total(steps.drop_last()) + steps.last().timeout
    }
}

/// Where no step took longer than its timeout, all steps together took no
/// longer than all timeouts together.
pub proof fn lemma_time_within_timeouts(steps: Seq<StepView>, results: Seq<StepResultView>)
    requires
        results.len() == steps.len(),
        forall|i: int|
            0 <= i < results.len() ==> (#[trigger] results[i]).exec_time <= steps[i].timeout,
    ensures
        steps_time(results) <= timeouts_total(steps),
    decreases steps.len(),
{
    if steps.len() > 0 {
        assert(results.last().exec_time <= steps.last().timeout);
        lemma_time_within_timeouts(steps.drop_last(), results.drop_last());
    }
}

/// The first failure of an export ends the run with the error of that
/// export, with the results of all steps and with the results of the
/// exports before it.
pub proof fn lemma_failed_export_keeps_results(
    s: WorkflowRunView,
    error: SandboxErrorView,
    exec_time: nat,
    rest: Seq<WorkflowEventView>,
)
    requires
        workflow_inv(s),
        s.stage == WorkflowStage::RunningExports,
    ensures
        ({
            let failed = next_workflow_state(
                s,
                WorkflowEventView::ExportFinished { failure: Some(error), exec_time },
            );
            &&& s.step_results.len() == s.workflow.steps.len()
            &&& workflow_action(workflow_after(failed, rest)) == (WorkflowActionView::Finish {
                result: Err(
                    WorkflowErrorView::ExportError {
                        source: error,
                        prev_step_results: s.step_results,
                        prev_export_results: s.export_results,
                    },
                ),
            })
        }),
{
    let failed = next_workflow_state(
        s,
        WorkflowEventView::ExportFinished { failure: Some(error), exec_time },
    );
    lemma_over_is_over(failed, rest);
}

} // verus!
