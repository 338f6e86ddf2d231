//! Building a workflow and running it, as the caller drives it.
//!
//! ```text
//! let mut run = workflow.execute();
//! loop {
//!     match run.action() {
//!         WorkflowAction::Finish { result } => return result,
//!         action => run = run.advance(perform(action)),
//!     }
//! }
//! ```

use vstd::prelude::*;
use crate::sandbox::error::SandboxError;
use crate::sandbox::output::{output_view, RunOutput};
use crate::sandbox::run::SandboxRun;
use crate::sandbox::setup::{initial_setup, DockerSandbox, SandboxSetup};
use crate::text::{option_view, owned, owned_option, views};
use crate::timespan::TimeSpan;
use crate::workflow::model::{next_workflow_state, started, workflow_action};
use crate::workflow::model::{workflow_inv, WorkflowActionView, WorkflowEventView};
use crate::workflow::model::{WorkflowRunView, WorkflowStage, WorkflowView};
use crate::workflow::types::{duplicate_export_results, duplicate_step_results, Export};
use crate::workflow::types::{ExportResult, Step, StepResult, WorkflowError, WorkflowErrorView};
use crate::workflow::types::WorkflowResult;

verus! {

/// A sandbox with the steps to run in it and the exports to carry out.
#[derive(Debug)]
pub struct Workflow {
    sandbox: DockerSandbox,
    input: Option<String>,
    steps: Vec<Step>,
    exports: Vec<Export>,
}

impl View for Workflow {
    type V = WorkflowView;

    closed spec fn view(&self) -> WorkflowView {
        WorkflowView {
            sandbox: self.sandbox@,
            input: option_view(self.input),
            steps: views(self.steps@),
            exports: views(self.exports@),
        }
    }
}

/// What a workflow is made from, piece by piece.
#[derive(Debug)]
pub struct WorkflowBuilder {
    directory: String,
    image_tag: String,
    input: Option<String>,
    steps: Vec<Step>,
    exports: Vec<Export>,
}

pub struct WorkflowBuilderView {
    pub directory: Seq<char>,
    pub image_tag: Seq<char>,
    pub input: Option<Seq<char>>,
    pub steps: Seq<crate::workflow::types::StepView>,
    pub exports: Seq<crate::workflow::types::ExportView>,
}

impl View for WorkflowBuilder {
    type V = WorkflowBuilderView;

    closed spec fn view(&self) -> WorkflowBuilderView {
        WorkflowBuilderView {
            directory: self.directory@,
            image_tag: self.image_tag@,
            input: option_view(self.input),
            steps: views(self.steps@),
            exports: views(self.exports@),
        }
    }
}

/// The view of what [`WorkflowBuilder::build`] returns.
pub open spec fn built_view(built: Result<Workflow, WorkflowError>) -> Result<
    WorkflowView,
    WorkflowErrorView,
> {
    match built {
        Ok(workflow) => Ok(workflow@),
        Err(error) => Err(error@),
    }
}

impl WorkflowBuilder {
    /// Sets the input of the first step, or takes it away.
    pub fn input(self, value: Option<&str>) -> (builder: WorkflowBuilder)
        ensures
            builder@ == (WorkflowBuilderView { input: option_view(value), ..self@ }),
    {
        WorkflowBuilder { input: owned_option(value), ..self }
    }

    /// Adds a step after the steps that are there.
    pub fn add_step(self, step: Step) -> (builder: WorkflowBuilder)
        ensures
            builder@ == (WorkflowBuilderView { steps: self@.steps.push(step@), ..self@ }),
    {
        let mut steps = self.steps;
        let ghost before = views(steps@);
        steps.push(step);
        assert(views(steps@) =~= before.push(step@));
        WorkflowBuilder {
            directory: self.directory,
            image_tag: self.image_tag,
            input: self.input,
            steps,
            exports: self.exports,
        }
    }

    /// Adds an export after the exports that are there.
    pub fn add_export(self, export: Export) -> (builder: WorkflowBuilder)
        ensures
            builder@ == (WorkflowBuilderView { exports: self@.exports.push(export@), ..self@ }),
    {
        let mut exports = self.exports;
        let ghost before = views(exports@);
        exports.push(export);
        assert(views(exports@) =~= before.push(export@));
        WorkflowBuilder {
            directory: self.directory,
            image_tag: self.image_tag,
            input: self.input,
            steps: self.steps,
            exports,
        }
    }

    /// Begins to set up the sandbox of the workflow, from the build
    /// directory and with the image tag that the builder was given.
    pub fn sandbox_setup(&self) -> (setup: SandboxSetup)
        ensures
            setup@ == initial_setup(self@.directory, self@.image_tag),
    {
        DockerSandbox::new(self.directory.as_str(), self.image_tag.as_str())
    }

    /// Makes the workflow, given how the setup of its sandbox ended. Where
    /// the setup failed there is no workflow, and no step is ever tried.
    pub fn build(self, sandbox: Result<DockerSandbox, SandboxError>) -> (built: Result<
        Workflow,
        WorkflowError,
    >)
        ensures
            built_view(built) == match sandbox {
                Ok(ready) => Ok(
                    WorkflowView {
                        sandbox: ready@,
                        input: self@.input,
                        steps: self@.steps,
                        exports: self@.exports,
                    },
                ),
                Err(error) => Err(WorkflowErrorView::SandboxInit(error@)),
            },
    {
        match sandbox {
            Ok(ready) => Ok(
                Workflow {
                    sandbox: ready,
                    input: self.input,
                    steps: self.steps,
                    exports: self.exports,
                },
            ),
            Err(error) => Err(WorkflowError::SandboxInit(error)),
        }
    }
}

/// What the caller reports to a run of a workflow.
#[derive(Debug)]
pub enum WorkflowEvent {
    /// The run of the step has ended, after so much time.
    StepFinished { outcome: Result<RunOutput, SandboxError>, exec_time: TimeSpan },
    /// The export has ended, after so much time, with a failure or without.
    ExportFinished { failure: Option<SandboxError>, exec_time: TimeSpan },
}

impl View for WorkflowEvent {
    type V = WorkflowEventView;

    open spec fn view(&self) -> WorkflowEventView {
        match *self {
            WorkflowEvent::StepFinished { outcome, exec_time } => WorkflowEventView::StepFinished {
                outcome: output_view(outcome),
                exec_time: exec_time@,
            },
            WorkflowEvent::ExportFinished { failure, exec_time } => {
                WorkflowEventView::ExportFinished {
                    failure: option_view(failure),
                    exec_time: exec_time@,
                }
            },
        }
    }
}

/// What a run of a workflow asks the caller to do.
#[derive(Debug)]
pub enum WorkflowAction {
    /// Drive this run of the sandbox to its end, and measure the time.
    RunStep { step_idx: usize, run: SandboxRun },
    /// Carry this export out on the output of the workflow, and measure the
    /// time.
    RunExport { export_idx: usize, export: Export, output: Option<String> },
    Finish { result: Result<WorkflowResult, WorkflowError> },
}

impl View for WorkflowAction {
    type V = WorkflowActionView;

    open spec fn view(&self) -> WorkflowActionView {
        match *self {
            WorkflowAction::RunStep { step_idx, run } => WorkflowActionView::RunStep {
                step_idx: step_idx as nat,
                run: run@,
            },
            WorkflowAction::RunExport { export_idx, export, output } => {
                WorkflowActionView::RunExport {
                    export_idx: export_idx as nat,
                    export: export@,
                    output: option_view(output),
                }
            },
            WorkflowAction::Finish { result } => WorkflowActionView::Finish {
                result: match result {
                    Ok(done) => Ok(done@),
                    Err(error) => Err(error@),
                },
            },
        }
    }
}

/// A run of a workflow in progress. The workflow itself is only read: it
/// can be run again, and no run sees anything of another.
#[derive(Debug)]
pub struct WorkflowRun<'a> {
    workflow: &'a Workflow,
    stage: WorkflowStage,
    step_results: Vec<StepResult>,
    export_results: Vec<ExportResult>,
    failure: Option<SandboxError>,
}

impl<'a> View for WorkflowRun<'a> {
    type V = WorkflowRunView;

    closed spec fn view(&self) -> WorkflowRunView {
        WorkflowRunView {
            workflow: self.workflow@,
            stage: self.stage,
            step_results: views(self.step_results@),
            export_results: views(self.export_results@),
            failure: option_view(self.failure),
        }
    }
}

impl Step {
    /// Begins the run of this step in a sandbox, with the given input.
    pub fn execute(&self, input: Option<&str>, sandbox: &DockerSandbox) -> (run: SandboxRun)
        ensures
            run@ == crate::sandbox::model::initial_run(
                sandbox@,
                self@.code_file,
                self@.lang,
                self@.timeout,
                option_view(input),
            ),
    {
        sandbox.run_code(self.code_file.as_str(), self.lang, self.timeout, input)
    }
}

impl Workflow {
    /// Begins a workflow that builds its sandbox from a directory and tags
    /// the image of the sandbox. It has no input, no step and no export yet.
    pub fn builder(directory: &str, image_tag: &str) -> (builder: WorkflowBuilder)
        ensures
            builder@ == (WorkflowBuilderView {
                directory: directory@,
                image_tag: image_tag@,
                input: None,
                steps: Seq::empty(),
                exports: Seq::empty(),
            }),
    {
        let steps: Vec<Step> = Vec::new();
        let exports: Vec<Export> = Vec::new();
        assert(views(steps@) =~= Seq::empty());
        assert(views(exports@) =~= Seq::empty());
        WorkflowBuilder {
            directory: owned(directory),
            image_tag: owned(image_tag),
            input: None,
            steps,
            exports,
        }
    }

    /// The input of the first step.
    pub fn input(&self) -> (input: Option<&str>)
        ensures
            option_view(input) == self@.input,
    {
        match &self.input {
            Some(text) => Some(text.as_str()),
            None => None,
        }
    }

    /// The steps, in their order.
    pub fn steps(&self) -> (steps: &Vec<Step>)
        ensures
            views(steps@) == self@.steps,
    {
        &self.steps
    }

    /// The exports, in their order.
    pub fn exports(&self) -> (exports: &Vec<Export>)
        ensures
            views(exports@) == self@.exports,
    {
        &self.exports
    }

    /// The sandbox that the steps run in.
    pub fn sandbox(&self) -> (sandbox: &DockerSandbox)
        ensures
            sandbox@ == self@.sandbox,
    {
        &self.sandbox
    }

    /// Begins a run of the workflow. Every call begins a run of its own,
    /// from the same start.
    pub fn execute(&self) -> (run: WorkflowRun<'_>)
        ensures
            run@ == started(self@),
            workflow_inv(run@),
    {
        let stage = if self.steps.len() > 0 {
            WorkflowStage::RunningSteps
        } else if self.exports.len() > 0 {
            WorkflowStage::RunningExports
        } else {
            WorkflowStage::Completed
        };
        let step_results: Vec<StepResult> = Vec::new();
        let export_results: Vec<ExportResult> = Vec::new();
        assert(views(step_results@) =~= Seq::empty());
        assert(views(export_results@) =~= Seq::empty());
        WorkflowRun { workflow: self, stage, step_results, export_results, failure: None }
    }
}

impl<'a> WorkflowRun<'a> {
    #[verifier::type_invariant]
    spec fn well_formed(self) -> bool {
        workflow_inv(self@)
    }

    /// Where the run stands.
    pub fn stage(&self) -> (stage: WorkflowStage)
        ensures
            stage == self@.stage,
            workflow_inv(self@),
    {
        proof {
            use_type_invariant(self);
        }
        self.stage
    }

    fn last_stdout(&self) -> (output: Option<&str>)
        ensures
            option_view(output) == crate::workflow::model::last_output(self@),
    {
        let count = self.step_results.len();
        if count == 0 {
            None
        } else {
            Some(self.step_results[count - 1].stdout.as_str())
        }
    }

    /// The action that the run asks for next.
    pub fn action(&self) -> (action: WorkflowAction)
        ensures
            action@ == workflow_action(self@),
    {
        proof {
            use_type_invariant(self);
        }
        match self.stage {
            WorkflowStage::RunningSteps => {
                let step_idx = self.step_results.len();
                let input = match self.last_stdout() {
                    Some(stdout) => Some(stdout),
                    None => self.workflow.input(),
                };
                let step = &self.workflow.steps[step_idx];
                assert(views(self.workflow.steps@)[step_idx as int] == step@);
                assert(option_view(input) == crate::workflow::model::next_input(self@));
                let run = step.execute(input, &self.workflow.sandbox);
                WorkflowAction::RunStep { step_idx, run }
            },
            WorkflowStage::RunningExports => {
                let export_idx = self.export_results.len();
                assert(views(self.workflow.exports@)[export_idx as int]
                    == self.workflow.exports@[export_idx as int]@);
                WorkflowAction::RunExport {
                    export_idx,
                    export: self.workflow.exports[export_idx].duplicate(),
                    output: owned_option(self.last_stdout()),
                }
            },
            WorkflowStage::StepFailed => WorkflowAction::Finish {
                result: Err(
                    WorkflowError::StepError {
                        source: self.failure.as_ref().unwrap().duplicate(),
                        prev_steps_results: duplicate_step_results(&self.step_results),
                    },
                ),
            },
            WorkflowStage::ExportFailed => WorkflowAction::Finish {
                result: Err(
                    WorkflowError::ExportError {
                        source: self.failure.as_ref().unwrap().duplicate(),
                        prev_step_results: duplicate_step_results(&self.step_results),
                        prev_export_results: duplicate_export_results(&self.export_results),
                    },
                ),
            },
            WorkflowStage::Completed => WorkflowAction::Finish {
                result: Ok(
                    WorkflowResult::new(
                        duplicate_step_results(&self.step_results),
                        duplicate_export_results(&self.export_results),
                    ),
                ),
            },
        }
    }

    /// Takes the report of the action that the run asked for, and moves on.
    /// A report that answers no action of the current stage changes
    /// nothing.
    pub fn advance(self, event: WorkflowEvent) -> (next: WorkflowRun<'a>)
        ensures
            next@ == next_workflow_state(self@, event@),
            workflow_inv(next@),
    {
        proof {
            use_type_invariant(&self);
            crate::workflow::laws::lemma_next_keeps_workflow_inv(self@, event@);
        }
        match self.stage {
            WorkflowStage::RunningSteps => match event {
                WorkflowEvent::StepFinished { outcome, exec_time } => match outcome {
                    Ok(output) => {
                        let mut step_results = self.step_results;
                        let ghost before = views(step_results@);
                        let result = StepResult {
                            step_idx: step_results.len(),
                            stdout: output.stdout,
                            stderr: output.stderr,
                            exec_time,
                        };
                        step_results.push(result);
                        assert(views(step_results@) =~= before.push(result@));
                        let stage = if step_results.len() < self.workflow.steps.len() {
                            WorkflowStage::RunningSteps
                        } else if self.workflow.exports.len() > 0 {
                            WorkflowStage::RunningExports
                        } else {
                            WorkflowStage::Completed
                        };
                        WorkflowRun {
                            workflow: self.workflow,
                            stage,
                            step_results,
                            export_results: self.export_results,
                            failure: self.failure,
                        }
                    },
                    Err(error) => WorkflowRun {
                        stage: WorkflowStage::StepFailed,
                        failure: Some(error),
                        ..self
                    },
                },
                _ => self,
            },
            WorkflowStage::RunningExports => match event {
                WorkflowEvent::ExportFinished { failure, exec_time } => match failure {
                    None => {
                        let mut export_results = self.export_results;
                        let ghost before = views(export_results@);
                        let result = ExportResult { export_idx: export_results.len(), exec_time };
                        export_results.push(result);
                        assert(views(export_results@) =~= before.push(result@));
                        let stage = if export_results.len() < self.workflow.exports.len() {
                            WorkflowStage::RunningExports
                        } else {
                            WorkflowStage::Completed
                        };
                        WorkflowRun {
                            workflow: self.workflow,
                            stage,
                            step_results: self.step_results,
                            export_results,
                            failure: self.failure,
                        }
                    },
                    Some(error) => WorkflowRun {
                        stage: WorkflowStage::ExportFailed,
                        failure: Some(error),
                        ..self
                    },
                },
                _ => self,
            },
            _ => self,
        }
    }
}

} // verus!
