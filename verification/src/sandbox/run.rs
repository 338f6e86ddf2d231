//! One run of a source file, as the caller drives it.
//!
//! ```text
//! let mut run = sandbox.run_code(file, lang, timeout, stdin);
//! loop {
//!     match run.action() {
//!         RunAction::Finish { result } => return result,
//!         action => run = run.advance(perform(action)),
//!     }
//! }
//! ```

use vstd::prelude::*;
use crate::sandbox::container::{container_config, remove_config, ContainerConfig};
use crate::sandbox::container::RemoveConfig;
use crate::sandbox::error::SandboxError;
use crate::sandbox::files::{get_commands, get_sandbox_files, Commands, SandboxFiles};
use crate::sandbox::language::Language;
use crate::sandbox::model::{action_for, initial_run, next_state, run_inv, Phase};
use crate::sandbox::model::{RunActionView, RunEventView, RunView, Stage};
use crate::sandbox::output::{convert_chunks, output_view, Chunk, RunOutput};
use crate::text::{join_words, option_view, owned, owned_option, views};
use crate::timespan::TimeSpan;

verus! {

/// What the caller reports to a run.
#[derive(Debug)]
pub enum RunEvent {
    /// The action succeeded and has nothing to hand over.
    Completed,
    /// The action failed. The cause is the report of the container runtime
    /// or of the file system.
    Failed { cause: String },
    StagingCreated { directory: String },
    ContainerCreated { container_id: String },
    /// The container exited by itself.
    Exited { status: u64 },
    /// The time of the container ran out before it exited.
    TimedOut,
    /// The output of the container was read to its end.
    Drained { chunks: Vec<Chunk> },
}

impl View for RunEvent {
    type V = RunEventView;

    open spec fn view(&self) -> RunEventView {
        match *self {
            RunEvent::Completed => RunEventView::Completed,
            RunEvent::Failed { cause } => RunEventView::Failed { cause: cause@ },
            RunEvent::StagingCreated { directory } => RunEventView::StagingCreated {
                directory: directory@,
            },
            RunEvent::ContainerCreated { container_id } => RunEventView::ContainerCreated {
                container_id: container_id@,
            },
            RunEvent::Exited { status } => RunEventView::Exited { status },
            RunEvent::TimedOut => RunEventView::TimedOut,
            RunEvent::Drained { chunks } => RunEventView::Drained { chunks: views(chunks@) },
        }
    }
}

/// What a run asks its caller to do.
#[derive(Debug)]
pub enum RunAction {
    CreateStaging,
    CopyCode { src: String, dest: String },
    CreateContainer { config: ContainerConfig },
    Attach { container_id: String },
    Start { container_id: String },
    WriteStdin { container_id: String, payload: String },
    AwaitExit { container_id: String, timeout: TimeSpan },
    Drain { container_id: String },
    RemoveContainer { container_id: String, removal: RemoveConfig },
    RemoveStaging { directory: String },
    Finish { result: Result<RunOutput, SandboxError> },
}

impl View for RunAction {
    type V = RunActionView;

    open spec fn view(&self) -> RunActionView {
        match *self {
            RunAction::CreateStaging => RunActionView::CreateStaging,
            RunAction::CopyCode { src, dest } => RunActionView::CopyCode { src: src@, dest: dest@ },
            RunAction::CreateContainer { config } => RunActionView::CreateContainer {
                config: config@,
            },
            RunAction::Attach { container_id } => RunActionView::Attach {
                container_id: container_id@,
            },
            RunAction::Start { container_id } => RunActionView::Start {
                container_id: container_id@,
            },
            RunAction::WriteStdin { container_id, payload } => RunActionView::WriteStdin {
                container_id: container_id@,
                payload: payload@,
            },
            RunAction::AwaitExit { container_id, timeout } => RunActionView::AwaitExit {
                container_id: container_id@,
                timeout: timeout@,
            },
            RunAction::Drain { container_id } => RunActionView::Drain {
                container_id: container_id@,
            },
            RunAction::RemoveContainer { container_id, removal } => {
                RunActionView::RemoveContainer { container_id: container_id@, removal }
            },
            RunAction::RemoveStaging { directory } => RunActionView::RemoveStaging {
                directory: directory@,
            },
            RunAction::Finish { result } => RunActionView::Finish { result: output_view(result) },
        }
    }
}

/// A run in progress. Its state is one that a run can be in, at all times.
#[derive(Debug)]
pub struct SandboxRun {
    image_tag: String,
    code_file: String,
    lang: Language,
    timeout: TimeSpan,
    stdin: Option<String>,
    stage: Stage,
    phase: Phase,
    staging_dir: Option<String>,
    files: Option<SandboxFiles>,
    commands: Option<Commands>,
    container_id: Option<String>,
    chunks: Vec<Chunk>,
    failure: Option<SandboxError>,
    later_failures: Vec<SandboxError>,
    output: Option<RunOutput>,
}

impl View for SandboxRun {
    type V = RunView;

    closed spec fn view(&self) -> RunView {
        RunView {
            image_tag: self.image_tag@,
            code_file: self.code_file@,
            lang: self.lang,
            timeout: self.timeout@,
            stdin: option_view(self.stdin),
            stage: self.stage,
            phase: self.phase,
            staging_dir: option_view(self.staging_dir),
            files: option_view(self.files),
            commands: option_view(self.commands),
            container_id: option_view(self.container_id),
            chunks: views(self.chunks@),
            failure: option_view(self.failure),
            later_failures: views(self.later_failures@),
            output: option_view(self.output),
        }
    }
}

impl SandboxRun {
    #[verifier::type_invariant]
    spec fn well_formed(self) -> bool {
        run_inv(self@)
    }

    /// A run of a source file that has not begun.
    pub(crate) fn new(
        image_tag: &str,
        code_file: &str,
        lang: Language,
        timeout: TimeSpan,
        stdin: Option<&str>,
    ) -> (run: SandboxRun)
        ensures
            run@ == initial_run(image_tag@, code_file@, lang, timeout@, option_view(stdin)),
            run_inv(run@),
    {
        let chunks: Vec<Chunk> = Vec::new();
        let later_failures: Vec<SandboxError> = Vec::new();
        assert(views(chunks@) =~= Seq::empty());
        assert(views(later_failures@) =~= Seq::empty());
        SandboxRun {
            image_tag: owned(image_tag),
            code_file: owned(code_file),
            lang,
            timeout,
            stdin: owned_option(stdin),
            stage: Stage::Staging,
            phase: Phase::Build,
            staging_dir: None,
            files: None,
            commands: None,
            container_id: None,
            chunks,
            failure: None,
            later_failures,
            output: None,
        }
    }

    /// What the run waits for.
    pub fn stage(&self) -> (stage: Stage)
        ensures
            stage == self@.stage,
            run_inv(self@),
    {
        proof {
            use_type_invariant(self);
        }
        self.stage
    }

    /// What failed after the first failure, in order: the removal of a
    /// container whose time had run out, say. None of it is the result of
    /// the run.
    pub fn later_failures(&self) -> (failures: &Vec<SandboxError>)
        ensures
            views(failures@) == self@.later_failures,
    {
        &self.later_failures
    }

    /// Whether the run has its result.
    pub fn is_done(&self) -> (done: bool)
        ensures
            done <==> self@.stage == Stage::Done,
    {
        match self.stage {
            Stage::Done => true,
            _ => false,
        }
    }

    fn current_cmd(&self) -> (cmd: &Vec<String>)
        requires
            self@.commands is Some,
        ensures
            views(cmd@) == crate::sandbox::model::current_cmd(self@),
    {
        match self.phase {
            Phase::Build => &self.commands.as_ref().unwrap().build_cmd,
            Phase::Run => &self.commands.as_ref().unwrap().run_cmd,
        }
    }

    fn container(&self) -> (id: String)
        requires
            self@.container_id is Some,
        ensures
            id@ == self@.container_id->0,
    {
        self.container_id.as_ref().unwrap().clone()
    }

    /// The action that the run asks for next.
    pub fn action(&self) -> (action: RunAction)
        ensures
            action@ == action_for(self@),
    {
        proof {
            use_type_invariant(self);
        }
        match self.stage {
            Stage::Staging => RunAction::CreateStaging,
            Stage::Copying => RunAction::CopyCode {
                src: self.code_file.clone(),
                dest: self.files.as_ref().unwrap().host_src.clone(),
            },
            Stage::Creating => {
                let config = container_config(
                    self.staging_dir.as_ref().unwrap().as_str(),
                    self.image_tag.as_str(),
                    self.current_cmd(),
                );
                RunAction::CreateContainer { config }
            },
            Stage::Attaching => RunAction::Attach { container_id: self.container() },
            Stage::Starting => RunAction::Start { container_id: self.container() },
            Stage::Writing => RunAction::WriteStdin {
                container_id: self.container(),
                payload: self.stdin.as_ref().unwrap().clone(),
            },
            Stage::Waiting => RunAction::AwaitExit {
                container_id: self.container(),
                timeout: self.timeout,
            },
            Stage::Draining => RunAction::Drain { container_id: self.container() },
            Stage::Removing => RunAction::RemoveContainer {
                container_id: self.container(),
                removal: remove_config(),
            },
            Stage::Unstaging => RunAction::RemoveStaging {
                directory: self.staging_dir.as_ref().unwrap().clone(),
            },
            Stage::Done => RunAction::Finish { result: self.result() },
        }
    }

    fn result(&self) -> (result: Result<RunOutput, SandboxError>)
        requires
            self@.failure is Some || self@.output is Some,
        ensures
            output_view(result) == crate::sandbox::model::result_of(self@),
    {
        match &self.failure {
            Some(error) => Err(error.duplicate()),
            None => {
                let output = self.output.as_ref().unwrap();
                Ok(RunOutput { stdout: output.stdout.clone(), stderr: output.stderr.clone() })
            },
        }
    }

    fn failure_for(&self, cause: String) -> (error: SandboxError)
        requires
            run_inv(self@),
        ensures
            error@ == crate::sandbox::model::failure_of(self@, cause@),
    {
        match self.stage {
            Stage::Staging => SandboxError::CreateTempDirectory(cause),
            Stage::Copying => SandboxError::CopyCodeFile {
                src: self.code_file.clone(),
                dest: self.files.as_ref().unwrap().host_src.clone(),
                cause,
            },
            Stage::Creating => SandboxError::CreateContainer {
                image_tag: self.image_tag.clone(),
                cause,
            },
            Stage::Attaching => SandboxError::AtachToContainer {
                container_id: self.container(),
                cause,
            },
            Stage::Starting => SandboxError::StartContainer {
                container_id: self.container(),
                cause,
            },
            Stage::Writing => SandboxError::WriteToStdin(cause),
            Stage::Waiting => SandboxError::Execute { cmd: join_words(self.current_cmd()), cause },
            Stage::Draining => SandboxError::Execute { cmd: join_words(self.current_cmd()), cause },
            Stage::Removing => SandboxError::RemoveContainer {
                container_id: self.container(),
                cause,
            },
            Stage::Unstaging => SandboxError::RemoveTempDirectory(cause),
            Stage::Done => SandboxError::RemoveTempDirectory(cause),
        }
    }

    fn fail(self, error: SandboxError) -> (next: SandboxRun)
        requires
            self@.stage != Stage::Done,
        ensures
            next@ == crate::sandbox::model::failed(self@, error@),
    {
        proof {
            use_type_invariant(&self);
        }
        let mut later_failures = self.later_failures;
        let ghost set_aside = views(later_failures@);
        let failure = match self.failure {
            Some(earlier) => {
                later_failures.push(error);
                assert(views(later_failures@) =~= set_aside.push(error@));
                Some(earlier)
            },
            None => Some(error),
        };
        let stage = match self.stage {
            Stage::Staging | Stage::Unstaging => Stage::Done,
            Stage::Copying | Stage::Creating | Stage::Removing => Stage::Unstaging,
            _ => Stage::Removing,
        };
        let container_id = match self.stage {
            Stage::Removing => None,
            _ => self.container_id,
        };
        let staging_dir = match self.stage {
            Stage::Unstaging => None,
            _ => self.staging_dir,
        };
        SandboxRun {
            image_tag: self.image_tag,
            code_file: self.code_file,
            lang: self.lang,
            timeout: self.timeout,
            stdin: self.stdin,
            stage,
            phase: self.phase,
            staging_dir,
            files: self.files,
            commands: self.commands,
            container_id,
            chunks: self.chunks,
            failure,
            later_failures,
            output: None,
        }
    }

    fn staged(self, directory: String) -> (next: SandboxRun)
        requires
            self@.stage == Stage::Staging,
        ensures
            next@ == crate::sandbox::model::staged(self@, directory@),
    {
        proof {
            use_type_invariant(&self);
        }
        match get_sandbox_files(self.code_file.as_str(), self.lang, directory.as_str()) {
            Ok(files) => {
                let commands = get_commands(&files, self.lang);
                SandboxRun {
                    stage: Stage::Copying,
                    staging_dir: Some(directory),
                    files: Some(files),
                    commands: Some(commands),
                    ..self
                }
            },
            Err(error) => SandboxRun {
                stage: Stage::Unstaging,
                staging_dir: Some(directory),
                failure: Some(error),
                ..self
            },
        }
    }

    fn removed(self) -> (next: SandboxRun)
        requires
            self@.stage == Stage::Removing,
        ensures
            next@ == crate::sandbox::model::removed(self@),
    {
        proof {
            use_type_invariant(&self);
        }
        if self.failure.is_some() {
            SandboxRun { stage: Stage::Unstaging, container_id: None, ..self }
        } else {
            match self.phase {
                Phase::Build => SandboxRun {
                    stage: Stage::Creating,
                    phase: Phase::Run,
                    container_id: None,
                    ..self
                },
                Phase::Run => match convert_chunks(&self.chunks) {
                    Ok(output) => SandboxRun {
                        stage: Stage::Unstaging,
                        container_id: None,
                        output: Some(output),
                        ..self
                    },
                    Err(error) => SandboxRun {
                        stage: Stage::Unstaging,
                        container_id: None,
                        failure: Some(error),
                        ..self
                    },
                },
            }
        }
    }

    fn exited(self, status: u64) -> (next: SandboxRun)
        requires
            self@.stage == Stage::Waiting,
        ensures
            next@ == crate::sandbox::model::exited(self@, status),
    {
        proof {
            use_type_invariant(&self);
        }
        match self.phase {
            Phase::Build => {
                if status == 0 {
                    SandboxRun { stage: Stage::Removing, ..self }
                } else {
                    let error = SandboxError::Execute {
                        cmd: join_words(self.current_cmd()),
                        cause: owned("the build command exited with a failure"),
                    };
                    self.fail(error)
                }
            },
            Phase::Run => SandboxRun { stage: Stage::Draining, ..self },
        }
    }

    fn completed(self) -> (next: SandboxRun)
        ensures
            next@ == crate::sandbox::model::completed(self@),
    {
        proof {
            use_type_invariant(&self);
        }
        match self.stage {
            Stage::Copying => {
                let phase = if self.commands.as_ref().unwrap().build_cmd.len() > 0 {
                    Phase::Build
                } else {
                    Phase::Run
                };
                SandboxRun { stage: Stage::Creating, phase, ..self }
            },
            Stage::Attaching => SandboxRun { stage: Stage::Starting, ..self },
            Stage::Starting => {
                let writes = match self.phase {
                    Phase::Run => self.stdin.is_some(),
                    Phase::Build => false,
                };
                if writes {
                    SandboxRun { stage: Stage::Writing, ..self }
                } else {
                    SandboxRun { stage: Stage::Waiting, ..self }
                }
            },
            Stage::Writing => SandboxRun { stage: Stage::Waiting, ..self },
            Stage::Removing => self.removed(),
            Stage::Unstaging => SandboxRun { stage: Stage::Done, staging_dir: None, ..self },
            _ => self,
        }
    }

    fn expects(&self, event: &RunEvent) -> (expected: bool)
        ensures
            expected == crate::sandbox::model::answers(self@.stage, event@),
    {
        match event {
            RunEvent::Failed { .. } => match self.stage {
                Stage::Done => false,
                _ => true,
            },
            RunEvent::Completed => match self.stage {
                Stage::Copying | Stage::Attaching | Stage::Starting | Stage::Writing
                | Stage::Removing | Stage::Unstaging => true,
                _ => false,
            },
            RunEvent::StagingCreated { .. } => match self.stage {
                Stage::Staging => true,
                _ => false,
            },
            RunEvent::ContainerCreated { .. } => match self.stage {
                Stage::Creating => true,
                _ => false,
            },
            RunEvent::Exited { .. } | RunEvent::TimedOut => match self.stage {
                Stage::Waiting => true,
                _ => false,
            },
            RunEvent::Drained { .. } => match self.stage {
                Stage::Draining => true,
                _ => false,
            },
        }
    }

    /// Takes the report of the action that the run asked for, and moves on.
    /// A report that answers no action of the current stage changes
    /// nothing.
    pub fn advance(self, event: RunEvent) -> (next: SandboxRun)
        ensures
            next@ == next_state(self@, event@),
            run_inv(next@),
    {
        proof {
            use_type_invariant(&self);
            crate::sandbox::laws::lemma_next_keeps_inv(self@, event@);
        }
        if !self.expects(&event) {
            return self;
        }
        match event {
            RunEvent::Completed => self.completed(),
            RunEvent::Failed { cause } => {
                let error = self.failure_for(cause);
                self.fail(error)
            },
            RunEvent::StagingCreated { directory } => self.staged(directory),
            RunEvent::ContainerCreated { container_id } => SandboxRun {
                stage: Stage::Attaching,
                container_id: Some(container_id),
                ..self
            },
            RunEvent::Exited { status } => self.exited(status),
            RunEvent::TimedOut => {
                let error = SandboxError::Timeout { timeout: self.timeout };
                self.fail(error)
            },
            RunEvent::Drained { chunks } => SandboxRun { stage: Stage::Removing, chunks, ..self },
        }
    }
}

} // verus!
