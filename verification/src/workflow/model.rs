//! One run of a workflow, as a state machine over mathematical values.
//!
//! The steps run in their order, one at a time. The first step is given the
//! input of the workflow; each later step is given what the step before it
//! wrote to standard output. The first step that fails ends the run, and the
//! results of the steps before it are kept. Once every step has succeeded
//! the exports run in their order, in the same way.

use vstd::prelude::*;
use crate::sandbox::error::SandboxErrorView;
use crate::sandbox::model::{initial_run, RunView};
use crate::sandbox::output::RunOutputView;
use crate::workflow::types::{ExportResultView, ExportView, StepResultView, StepView};
use crate::workflow::types::{WorkflowErrorView, WorkflowResultView};

verus! {

/// A workflow: the image of its sandbox, its input, its steps and its
/// exports.
pub struct WorkflowView {
    /// The tag of the runtime image of the sandbox.
    pub sandbox: Seq<char>,
    pub input: Option<Seq<char>>,
    pub steps: Seq<StepView>,
    pub exports: Seq<ExportView>,
}

/// Where a run of a workflow stands.
#[derive(Clone, Copy, Debug, PartialEq, Eq, Structural)]
pub enum WorkflowStage {
    /// The next step is to run, or runs.
    RunningSteps,
    /// All steps have succeeded; the next export is to run, or runs.
    RunningExports,
    /// A step has failed. The run is over.
    StepFailed,
    /// An export has failed. The run is over.
    ExportFailed,
    /// All steps and all exports have succeeded. The run is over.
    Completed,
}

pub struct WorkflowRunView {
    pub workflow: WorkflowView,
    pub stage: WorkflowStage,
    /// The results of the steps that have succeeded, in their order.
    pub step_results: Seq<StepResultView>,
    /// The results of the exports that have succeeded, in their order.
    pub export_results: Seq<ExportResultView>,
    pub failure: Option<SandboxErrorView>,
}

/// What the caller reports to a run of a workflow.
pub enum WorkflowEventView {
    /// The run of the step has ended, after so much time.
    StepFinished { outcome: Result<RunOutputView, SandboxErrorView>, exec_time: nat },
    /// The export has ended, after so much time.
    ExportFinished { failure: Option<SandboxErrorView>, exec_time: nat },
}

/// What a run of a workflow asks the caller to do.
pub enum WorkflowActionView {
    /// Drive this run of the sandbox to its end, and measure the time.
    RunStep { step_idx: nat, run: RunView },
    /// Carry this export out on the output of the workflow, and measure the
    /// time.
    RunExport { export_idx: nat, export: ExportView, output: Option<Seq<char>> },
    Finish { result: Result<WorkflowResultView, WorkflowErrorView> },
}

/// The stage that follows the last step.
pub open spec fn after_steps(w: WorkflowView) -> WorkflowStage {
    if w.exports.len() > 0 {
        WorkflowStage::RunningExports
    } else {
        WorkflowStage::Completed
    }
}

/// A run of a workflow before anything has happened. It carries nothing
/// over from any run before it.
pub open spec fn started(w: WorkflowView) -> WorkflowRunView {
    WorkflowRunView {
        workflow: w,
        stage: if w.steps.len() > 0 {
            WorkflowStage::RunningSteps
        } else {
            after_steps(w)
        },
        step_results: Seq::empty(),
        export_results: Seq::empty(),
        failure: None,
    }
}

/// The result of the step at a place, from its output and its time.
pub open spec fn step_result(step_idx: nat, output: RunOutputView, exec_time: nat)
    -> StepResultView {
    StepResultView { step_idx, stdout: output.stdout, stderr: output.stderr, exec_time }
}

/// What the next step is given as its input: the input of the workflow
/// where no step has run, else what the last step wrote to standard output.
/// What a step wrote to standard error is never handed on.
pub open spec fn next_input(s: WorkflowRunView) -> Option<Seq<char>> {
    if s.step_results.len() == 0 {
        s.workflow.input
    } else {
        Some(s.step_results.last().stdout)
    }
}

/// The output of the workflow so far: what the last step wrote to standard
/// output.
pub open spec fn last_output(s: WorkflowRunView) -> Option<Seq<char>> {
    if s.step_results.len() == 0 {
        None
    } else {
        Some(s.step_results.last().stdout)
    }
}

/// The run of the sandbox that a step is: its file, its language and its
/// timeout, in the sandbox of the workflow, with the given input.
pub open spec fn step_run(w: WorkflowView, step: StepView, input: Option<Seq<char>>) -> RunView {
    initial_run(w.sandbox, step.code_file, step.lang, step.timeout, input)
}

pub open spec fn next_workflow_state(s: WorkflowRunView, event: WorkflowEventView)
    -> WorkflowRunView {
    match (s.stage, event) {
        (WorkflowStage::RunningSteps, WorkflowEventView::StepFinished { outcome, exec_time }) => {
            match outcome {
                Ok(output) => {
                    let results = s.step_results.push(
                        step_result(s.step_results.len(), output, exec_time),
                    );
                    WorkflowRunView {
                        stage: if results.len() < s.workflow.steps.len() {
                            WorkflowStage::RunningSteps
                        } else {
                            after_steps(s.workflow)
                        },
                        step_results: results,
                        ..s
                    }
                },
                Err(error) => WorkflowRunView {
                    stage: WorkflowStage::StepFailed,
                    failure: Some(error),
                    ..s
                },
            }
        },
        (
            WorkflowStage::RunningExports,
            WorkflowEventView::ExportFinished { failure, exec_time },
        ) => {
            match failure {
                None => {
                    let results = s.export_results.push(
                        ExportResultView { export_idx: s.export_results.len(), exec_time },
                    );
                    WorkflowRunView {
                        stage: if results.len() < s.workflow.exports.len() {
                            WorkflowStage::RunningExports
                        } else {
                            WorkflowStage::Completed
                        },
                        export_results: results,
                        ..s
                    }
                },
                Some(error) => WorkflowRunView {
                    stage: WorkflowStage::ExportFailed,
                    failure: Some(error),
                    ..s
                },
            }
        },
        _ => s,
    }
}

pub open spec fn workflow_action(s: WorkflowRunView) -> WorkflowActionView {
    match s.stage {
        WorkflowStage::RunningSteps => WorkflowActionView::RunStep {
            step_idx: s.step_results.len(),
            run: step_run(
                s.workflow,
                s.workflow.steps[s.step_results.len() as int],
                next_input(s),
            ),
        },
        WorkflowStage::RunningExports => WorkflowActionView::RunExport {
            export_idx: s.export_results.len(),
            export: s.workflow.exports[s.export_results.len() as int],
            output: last_output(s),
        },
        WorkflowStage::StepFailed => WorkflowActionView::Finish {
            result: Err(
                WorkflowErrorView::StepError {
                    source: s.failure->0,
                    prev_steps_results: s.step_results,
                },
            ),
        },
        WorkflowStage::ExportFailed => WorkflowActionView::Finish {
            result: Err(
                WorkflowErrorView::ExportError {
                    source: s.failure->0,
                    prev_step_results: s.step_results,
                    prev_export_results: s.export_results,
                },
            ),
        },
        WorkflowStage::Completed => WorkflowActionView::Finish {
            result: Ok(
                WorkflowResultView {
                    step_results: s.step_results,
                    export_results: s.export_results,
                },
            ),
        },
    }
}

/// What holds of every state that a run of a workflow can be in.
pub open spec fn workflow_inv(s: WorkflowRunView) -> bool {
    &&& s.step_results.len() <= s.workflow.steps.len()
    &&& s.export_results.len() <= s.workflow.exports.len()
    &&& forall|i: int| 0 <= i < s.step_results.len() ==> (#[trigger] s.step_results[i]).step_idx == i
    &&& forall|i: int|
        0 <= i < s.export_results.len() ==> (#[trigger] s.export_results[i]).export_idx == i
    &&& s.stage == WorkflowStage::RunningSteps ==> s.step_results.len() < s.workflow.steps.len()
    &&& s.stage == WorkflowStage::StepFailed ==> s.step_results.len() < s.workflow.steps.len()
    &&& s.step_results.len() < s.workflow.steps.len() ==> s.export_results.len() == 0 && (s.stage
        == WorkflowStage::RunningSteps || s.stage == WorkflowStage::StepFailed)
    &&& s.stage == WorkflowStage::RunningExports ==> s.export_results.len()
        < s.workflow.exports.len()
    &&& s.stage == WorkflowStage::ExportFailed ==> s.export_results.len()
        < s.workflow.exports.len()
    &&& s.stage == WorkflowStage::Completed ==> s.export_results.len() == s.workflow.exports.len()
    &&& s.failure is Some <==> (s.stage == WorkflowStage::StepFailed || s.stage
        == WorkflowStage::ExportFailed)
}

/// The state after a list of events, reported one after the other.
pub open spec fn workflow_after(s: WorkflowRunView, events: Seq<WorkflowEventView>)
    -> WorkflowRunView
    decreases events.len(),
{
    if events.len() == 0 {
        s
    } else {
        next_workflow_state(workflow_after(s, events.drop_last()), events.last())
    }
}

} // verus!
