//! The steps and exports of a workflow, and what comes out of running them.

use vstd::prelude::*;
use crate::sandbox::error::{SandboxError, SandboxErrorView};
use crate::sandbox::language::Language;
use crate::text::{option_view, owned, views};
use crate::timespan::TimeSpan;

verus! {

/// One execution of a source file in a language. A step is known by its
/// place in the list of steps, counted from zero.
#[derive(Debug)]
pub struct Step {
    pub lang: Language,
    pub code_file: String,
    /// The time that a container of this step may take.
    pub timeout: TimeSpan,
    /// What the step is for, in words.
    pub desc: String,
}

pub struct StepView {
    pub lang: Language,
    pub code_file: Seq<char>,
    pub timeout: nat,
    pub desc: Seq<char>,
}

impl View for Step {
    type V = StepView;

    open spec fn view(&self) -> StepView {
        StepView {
            lang: self.lang,
            code_file: self.code_file@,
            timeout: self.timeout@,
            desc: self.desc@,
        }
    }
}

impl Step {
    pub fn new(lang: Language, code_file: &str, timeout: TimeSpan, desc: &str) -> (step: Step)
        ensures
            step@ == (StepView { lang, code_file: code_file@, timeout: timeout@, desc: desc@ }),
    {
        Step { lang, code_file: owned(code_file), timeout, desc: owned(desc) }
    }

    /// A copy of the step.
    pub fn duplicate(&self) -> (copy: Step)
        ensures
            copy@ == self@,
    {
        Step {
            lang: self.lang,
            code_file: self.code_file.clone(),
            timeout: self.timeout,
            desc: self.desc.clone(),
        }
    }
}

/// What is done with the output of a workflow once all its steps have
/// succeeded. An export is carried out by the caller.
#[derive(Debug)]
pub enum Export {
    /// Save the output to a file.
    SaveFile { desc: String, path: String },
    /// Send the output by mail.
    SendEmail { desc: String, to: String, subject: String },
}

pub enum ExportView {
    SaveFile { desc: Seq<char>, path: Seq<char> },
    SendEmail { desc: Seq<char>, to: Seq<char>, subject: Seq<char> },
}

impl View for Export {
    type V = ExportView;

    open spec fn view(&self) -> ExportView {
        match *self {
            Export::SaveFile { desc, path } => ExportView::SaveFile { desc: desc@, path: path@ },
            Export::SendEmail { desc, to, subject } => ExportView::SendEmail {
                desc: desc@,
                to: to@,
                subject: subject@,
            },
        }
    }
}

impl Export {
    /// A copy of the export.
    pub fn duplicate(&self) -> (copy: Export)
        ensures
            copy@ == self@,
    {
        match self {
            Export::SaveFile { desc, path } => Export::SaveFile {
                desc: desc.clone(),
                path: path.clone(),
            },
            Export::SendEmail { desc, to, subject } => Export::SendEmail {
                desc: desc.clone(),
                to: to.clone(),
                subject: subject.clone(),
            },
        }
    }
}

/// What a step that succeeded left: its output and the time it took.
#[derive(Debug)]
pub struct StepResult {
    pub step_idx: usize,
    pub stdout: String,
    pub stderr: String,
    pub exec_time: TimeSpan,
}

pub struct StepResultView {
    pub step_idx: nat,
    pub stdout: Seq<char>,
    pub stderr: Seq<char>,
    pub exec_time: nat,
}

impl View for StepResult {
    type V = StepResultView;

    open spec fn view(&self) -> StepResultView {
        StepResultView {
            step_idx: self.step_idx as nat,
            stdout: self.stdout@,
            stderr: self.stderr@,
            exec_time: self.exec_time@,
        }
    }
}

impl StepResult {
    /// A copy of the result.
    pub fn duplicate(&self) -> (copy: StepResult)
        ensures
            copy@ == self@,
    {
        StepResult {
            step_idx: self.step_idx,
            stdout: self.stdout.clone(),
            stderr: self.stderr.clone(),
            exec_time: self.exec_time,
        }
    }
}

/// What an export that succeeded left: the time it took.
#[derive(Clone, Copy, Debug, PartialEq, Eq, Structural)]
pub struct ExportResult {
    pub export_idx: usize,
    pub exec_time: TimeSpan,
}

pub struct ExportResultView {
    pub export_idx: nat,
    pub exec_time: nat,
}

impl View for ExportResult {
    type V = ExportResultView;

    open spec fn view(&self) -> ExportResultView {
        ExportResultView { export_idx: self.export_idx as nat, exec_time: self.exec_time@ }
    }
}

/// The time that a list of steps took, all together.
pub open spec fn steps_time(results: Seq<StepResultView>) -> nat
    decreases results.len(),
{
    if results.len() == 0 {
        0
    } else {
        steps_time(results.drop_last()) + results.last().exec_time
    }
}

/// The time that a list of exports took, all together.
pub open spec fn exports_time(results: Seq<ExportResultView>) -> nat
    decreases results.len(),
{
    if results.len() == 0 {
        0
    } else {
        exports_time(results.drop_last()) + results.last().exec_time
    }
}

/// The results of a workflow of which every step and every export
/// succeeded.
#[derive(Debug)]
pub struct WorkflowResult {
    step_results: Vec<StepResult>,
    export_results: Vec<ExportResult>,
}

pub struct WorkflowResultView {
    pub step_results: Seq<StepResultView>,
    pub export_results: Seq<ExportResultView>,
}

impl View for WorkflowResult {
    type V = WorkflowResultView;

    closed spec fn view(&self) -> WorkflowResultView {
        WorkflowResultView {
            step_results: views(self.step_results@),
            export_results: views(self.export_results@),
        }
    }
}

impl WorkflowResultView {
    /// The time of all steps and all exports.
    pub open spec fn exec_time(self) -> nat {
        steps_time(self.step_results) + exports_time(self.export_results)
    }

    /// The output of the workflow: what its last step wrote to standard
    /// output. A workflow without steps has none.
    pub open spec fn output(self) -> Option<Seq<char>> {
        if self.step_results.len() == 0 {
            None
        } else {
            Some(self.step_results.last().stdout)
        }
    }
}

/// A copy of a list of step results.
pub fn duplicate_step_results(results: &Vec<StepResult>) -> (copy: Vec<StepResult>)
    ensures
        views(copy@) == views(results@),
{
    let mut copy: Vec<StepResult> = Vec::new();
    let mut i: usize = 0;
    while i < results.len()
        invariant
            i <= results.len(),
            copy@.len() == i,
            forall|j: int| 0 <= j < i ==> copy@[j]@ == #[trigger] results@[j]@,
        decreases results.len() - i,
    {
        copy.push(results[i].duplicate());
        i += 1;
    }
    assert(views(copy@) =~= views(results@));
    copy
}

/// A copy of a list of export results.
pub fn duplicate_export_results(results: &Vec<ExportResult>) -> (copy: Vec<ExportResult>)
    ensures
        views(copy@) == views(results@),
{
    let mut copy: Vec<ExportResult> = Vec::new();
    let mut i: usize = 0;
    while i < results.len()
        invariant
            i <= results.len(),
            copy@.len() == i,
            forall|j: int| 0 <= j < i ==> copy@[j]@ == #[trigger] results@[j]@,
        decreases results.len() - i,
    {
        copy.push(results[i]);
        i += 1;
    }
    assert(views(copy@) =~= views(results@));
    copy
}

impl WorkflowResult {
    pub(crate) fn new(step_results: Vec<StepResult>, export_results: Vec<ExportResult>) -> (done:
        WorkflowResult)
        ensures
            done@ == (WorkflowResultView {
                step_results: views(step_results@),
                export_results: views(export_results@),
            }),
    {
        WorkflowResult { step_results, export_results }
    }

    /// The results of the steps, in the order of the steps.
    pub fn step_results(&self) -> (results: &Vec<StepResult>)
        ensures
            views(results@) == self@.step_results,
    {
        &self.step_results
    }

    /// The results of the exports, in the order of the exports.
    pub fn export_results(&self) -> (results: &Vec<ExportResult>)
        ensures
            views(results@) == self@.export_results,
    {
        &self.export_results
    }

    /// The time of all steps and all exports, unless it is more than a
    /// `TimeSpan` holds.
    pub fn checked_exec_time(&self) -> (total: Option<TimeSpan>)
        ensures
            total is Some <==> self@.exec_time() <= u128::MAX,
            total matches Some(t) ==> t@ == self@.exec_time(),
    {
        let ghost steps = views(self.step_results@);
        let ghost exports = views(self.export_results@);
        let mut total: u128 = 0;
        let mut i: usize = 0;
        while i < self.step_results.len()
            invariant
                i <= self.step_results.len(),
                steps == views(self.step_results@),
                total == steps_time(steps.take(i as int)),
            decreases self.step_results.len() - i,
        {
            proof {
                assert(steps.take(i + 1).drop_last() == steps.take(i as int));
                assert(steps.take(i + 1).last() == self.step_results@[i as int]@);
                lemma_steps_time_grows(steps, i + 1);
            }
            match total.checked_add(self.step_results[i].exec_time.nanos) {
                Some(sum) => {
                    total = sum;
                },
                None => {
                    proof {
                        lemma_exports_time_grows(exports, 0);
                    }
                    return None;
                },
            }
            i += 1;
        }
        assert(steps.take(self.step_results.len() as int) == steps);
        let mut j: usize = 0;
        while j < self.export_results.len()
            invariant
                j <= self.export_results.len(),
                steps == views(self.step_results@),
                exports == views(self.export_results@),
                total == steps_time(steps) + exports_time(exports.take(j as int)),
            decreases self.export_results.len() - j,
        {
            proof {
                assert(exports.take(j + 1).drop_last() == exports.take(j as int));
                assert(exports.take(j + 1).last() == self.export_results@[j as int]@);
                lemma_exports_time_grows(exports, j + 1);
            }
            match total.checked_add(self.export_results[j].exec_time.nanos) {
                Some(sum) => {
                    total = sum;
                },
                None => {
                    return None;
                },
            }
            j += 1;
        }
        assert(exports.take(self.export_results.len() as int) == exports);
        Some(TimeSpan { nanos: total })
    }

    /// The time of all steps and all exports. The total must be one that a
    /// `TimeSpan` holds; [`WorkflowResult::checked_exec_time`] tells.
    pub fn exec_time(&self) -> (total: TimeSpan)
        requires
            self@.exec_time() <= u128::MAX,
        ensures
            total@ == self@.exec_time(),
    {
        match self.checked_exec_time() {
            Some(total) => total,
            None => TimeSpan { nanos: 0 },
        }
    }

    /// The output of the workflow: what its last step wrote to standard
    /// output. A workflow without steps has none.
    pub fn output(&self) -> (output: Option<&str>)
        ensures
            option_view(output) == self@.output(),
    {
        let count = self.step_results.len();
        if count == 0 {
            None
        } else {
            Some(self.step_results[count - 1].stdout.as_str())
        }
    }
}

/// The time of the first steps of a list is no more than the time of all.
pub proof fn lemma_steps_time_grows(results: Seq<StepResultView>, count: int)
    requires
        0 <= count <= results.len(),
    ensures
        steps_time(results.take(count)) <= steps_time(results),
    decreases results.len(),
{
    if count == results.len() {
        assert(results.take(count) == results);
    } else {
        lemma_steps_time_grows(results.drop_last(), count);
        assert(results.drop_last().take(count) == results.take(count));
    }
}

/// The time of the first exports of a list is no more than the time of all.
pub proof fn lemma_exports_time_grows(results: Seq<ExportResultView>, count: int)
    requires
        0 <= count <= results.len(),
    ensures
        exports_time(results.take(count)) <= exports_time(results),
    decreases results.len(),
{
    if count == results.len() {
        assert(results.take(count) == results);
    } else {
        lemma_exports_time_grows(results.drop_last(), count);
        assert(results.drop_last().take(count) == results.take(count));
    }
}

/// Why a workflow gave no result.
#[derive(Debug)]
pub enum WorkflowError {
    /// The sandbox could not be set up. No step was tried.
    SandboxInit(SandboxError),
    /// A step failed. The results of the steps before it are kept, and
    /// their number is the place of the step that failed.
    StepError { source: SandboxError, prev_steps_results: Vec<StepResult> },
    /// An export failed. The results of all steps and of the exports before
    /// it are kept.
    ExportError {
        source: SandboxError,
        prev_step_results: Vec<StepResult>,
        prev_export_results: Vec<ExportResult>,
    },
}

pub enum WorkflowErrorView {
    SandboxInit(SandboxErrorView),
    StepError { source: SandboxErrorView, prev_steps_results: Seq<StepResultView> },
    ExportError {
        source: SandboxErrorView,
        prev_step_results: Seq<StepResultView>,
        prev_export_results: Seq<ExportResultView>,
    },
}

impl View for WorkflowError {
    type V = WorkflowErrorView;

    open spec fn view(&self) -> WorkflowErrorView {
        match *self {
            WorkflowError::SandboxInit(source) => WorkflowErrorView::SandboxInit(source@),
            WorkflowError::StepError { source, prev_steps_results } => {
                WorkflowErrorView::StepError {
                    source: source@,
                    prev_steps_results: views(prev_steps_results@),
                }
            },
            WorkflowError::ExportError { source, prev_step_results, prev_export_results } => {
                WorkflowErrorView::ExportError {
                    source: source@,
                    prev_step_results: views(prev_step_results@),
                    prev_export_results: views(prev_export_results@),
                }
            },
        }
    }
}

impl WorkflowError {
    /// The place of the step that failed, where a step failed.
    pub fn failed_step(&self) -> (place: Option<usize>)
        ensures
            match self@ {
                WorkflowErrorView::StepError { prev_steps_results, .. } => place == Some(
                    prev_steps_results.len() as usize,
                ),
                _ => place is None,
            },
    {
        match self {
            WorkflowError::StepError { prev_steps_results, .. } => Some(prev_steps_results.len()),
            _ => None,
        }
    }
}

} // verus!
