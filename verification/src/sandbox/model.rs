//! The life cycle of one run, as a state machine over mathematical values.
//!
//! A run stages the source file in a fresh directory on the host, builds it
//! in a container of its own where the language needs a build, runs it in a
//! second container, and tears down what it made. The run decides; the
//! caller acts. In each state the run asks for one action
//! ([`action_for`]); the caller performs it and reports an event; the event
//! leads to the next state ([`next_state`]).

use vstd::prelude::*;
use crate::paths::file_stem_of;
use crate::sandbox::container::{container_for, forced_removal, ContainerConfigView, RemoveConfig};
use crate::sandbox::error::SandboxErrorView;
use crate::sandbox::files::{commands_for, staged_files, CommandsView, SandboxFilesView};
use crate::sandbox::language::Language;
use crate::sandbox::output::{converted, ChunkView, RunOutputView};
use crate::text::joined;

verus! {

/// Which of its two commands a run is on.
#[derive(Clone, Copy, Debug, PartialEq, Eq, Structural)]
pub enum Phase {
    Build,
    Run,
}

/// What a run is waiting for.
#[derive(Clone, Copy, Debug, PartialEq, Eq, Structural)]
pub enum Stage {
    /// The staging directory is being created.
    Staging,
    /// The source file is being copied into the staging directory.
    Copying,
    /// The container of the current command is being created.
    Creating,
    Attaching,
    Starting,
    /// The input is being written to the container.
    Writing,
    /// The container runs: it exits, or its time runs out.
    Waiting,
    /// The output of the container is being read to its end.
    Draining,
    /// The container is being removed.
    Removing,
    /// The staging directory is being removed.
    Unstaging,
    /// Nothing is left to do: the run has its result.
    Done,
}

/// The state of a run.
pub struct RunView {
    pub image_tag: Seq<char>,
    pub code_file: Seq<char>,
    pub lang: Language,
    pub timeout: nat,
    pub stdin: Option<Seq<char>>,
    pub stage: Stage,
    pub phase: Phase,
    /// The staging directory, while it exists.
    pub staging_dir: Option<Seq<char>>,
    pub files: Option<SandboxFilesView>,
    pub commands: Option<CommandsView>,
    /// The container of the current command, while it exists.
    pub container_id: Option<Seq<char>>,
    /// What the run container wrote.
    pub chunks: Seq<ChunkView>,
    /// The first failure of the run. Nothing that fails later replaces it.
    pub failure: Option<SandboxErrorView>,
    /// What failed after the first failure, in order. None of it is the
    /// result of the run; it is kept so that it can be looked at.
    pub later_failures: Seq<SandboxErrorView>,
    pub output: Option<RunOutputView>,
}

/// What the caller reports to a run.
pub enum RunEventView {
    /// The action succeeded and has nothing to hand over.
    Completed,
    /// The action failed.
    Failed { cause: Seq<char> },
    StagingCreated { directory: Seq<char> },
    ContainerCreated { container_id: Seq<char> },
    /// The container exited by itself.
    Exited { status: u64 },
    /// The time of the container ran out before it exited.
    TimedOut,
    /// The output of the container was read to its end.
    Drained { chunks: Seq<ChunkView> },
}

/// What a run asks its caller to do.
pub enum RunActionView {
    CreateStaging,
    CopyCode { src: Seq<char>, dest: Seq<char> },
    CreateContainer { config: ContainerConfigView },
    /// Attach to the streams of the container. This comes before the start,
    /// so that no early output is lost.
    Attach { container_id: Seq<char> },
    Start { container_id: Seq<char> },
    /// Write the whole input to the container and flush it.
    WriteStdin { container_id: Seq<char>, payload: Seq<char> },
    /// Wait until the container exits, but no longer than the timeout.
    AwaitExit { container_id: Seq<char>, timeout: nat },
    Drain { container_id: Seq<char> },
    RemoveContainer { container_id: Seq<char>, removal: RemoveConfig },
    RemoveStaging { directory: Seq<char> },
    Finish { result: Result<RunOutputView, SandboxErrorView> },
}

/// The cause that is reported where the build command exits with a status
/// other than zero.
pub open spec fn build_failed() -> Seq<char> {
    "the build command exited with a failure"@
}

/// A run before anything has happened.
pub open spec fn initial_run(
    image_tag: Seq<char>,
    code_file: Seq<char>,
    lang: Language,
    timeout: nat,
    stdin: Option<Seq<char>>,
) -> RunView {
    RunView {
        image_tag,
        code_file,
        lang,
        timeout,
        stdin,
        stage: Stage::Staging,
        phase: Phase::Build,
        staging_dir: None,
        files: None,
        commands: None,
        container_id: None,
        chunks: Seq::empty(),
        failure: None,
        later_failures: Seq::empty(),
        output: None,
    }
}

/// The command of the current phase.
pub open spec fn current_cmd(s: RunView) -> Seq<Seq<char>> {
    match s.phase {
        Phase::Build => s.commands->0.build_cmd,
        Phase::Run => s.commands->0.run_cmd,
    }
}

/// The phase that follows the copy of the source file: the build, where the
/// language has a build command.
pub open spec fn first_phase(commands: CommandsView) -> Phase {
    if commands.build_cmd.len() > 0 {
        Phase::Build
    } else {
        Phase::Run
    }
}

/// Whether a stage has a container that exists.
pub open spec fn holds_container(stage: Stage) -> bool {
    stage == Stage::Attaching || stage == Stage::Starting || stage == Stage::Writing || stage
        == Stage::Waiting || stage == Stage::Draining || stage == Stage::Removing
}

/// Whether a stage has a staging directory that exists.
pub open spec fn holds_staging(stage: Stage) -> bool {
    stage != Stage::Staging && stage != Stage::Done
}

/// Whether a stage only tears down, or is past that.
pub open spec fn winding_down(stage: Stage) -> bool {
    stage == Stage::Removing || stage == Stage::Unstaging || stage == Stage::Done
}

/// Whether an event answers the action of a stage. Any other event leaves
/// the run as it is.
pub open spec fn answers(stage: Stage, event: RunEventView) -> bool {
    match event {
        RunEventView::Failed { .. } => stage != Stage::Done,
        RunEventView::Completed => stage == Stage::Copying || stage == Stage::Attaching || stage
            == Stage::Starting || stage == Stage::Writing || stage == Stage::Removing || stage
            == Stage::Unstaging,
        RunEventView::StagingCreated { .. } => stage == Stage::Staging,
        RunEventView::ContainerCreated { .. } => stage == Stage::Creating,
        RunEventView::Exited { .. } => stage == Stage::Waiting,
        RunEventView::TimedOut => stage == Stage::Waiting,
        RunEventView::Drained { .. } => stage == Stage::Draining,
    }
}

/// The failure that a failed action becomes, by the stage it failed in.
pub open spec fn failure_of(s: RunView, cause: Seq<char>) -> SandboxErrorView {
    match s.stage {
        Stage::Staging => SandboxErrorView::CreateTempDirectory(cause),
        Stage::Copying => SandboxErrorView::CopyCodeFile {
            src: s.code_file,
            dest: s.files->0.host_src,
            cause,
        },
        Stage::Creating => SandboxErrorView::CreateContainer { image_tag: s.image_tag, cause },
        Stage::Attaching => SandboxErrorView::AtachToContainer {
            container_id: s.container_id->0,
            cause,
        },
        Stage::Starting => SandboxErrorView::StartContainer {
            container_id: s.container_id->0,
            cause,
        },
        Stage::Writing => SandboxErrorView::WriteToStdin(cause),
        Stage::Waiting => SandboxErrorView::Execute { cmd: joined(current_cmd(s)), cause },
        Stage::Draining => SandboxErrorView::Execute { cmd: joined(current_cmd(s)), cause },
        Stage::Removing => SandboxErrorView::RemoveContainer {
            container_id: s.container_id->0,
            cause,
        },
        Stage::Unstaging => SandboxErrorView::RemoveTempDirectory(cause),
        Stage::Done => SandboxErrorView::RemoveTempDirectory(cause),
    }
}

/// The stage in which the teardown begins after a failure in a stage: with
/// the container where one exists, else with the staging directory where
/// one exists.
pub open spec fn teardown_from(stage: Stage) -> Stage {
    if stage == Stage::Staging || stage == Stage::Unstaging || stage == Stage::Done {
        Stage::Done
    } else if stage == Stage::Copying || stage == Stage::Creating || stage == Stage::Removing {
        Stage::Unstaging
    } else {
        Stage::Removing
    }
}

/// The first failure: what has failed before stays.
pub open spec fn first_failure(s: RunView, later: SandboxErrorView) -> Option<SandboxErrorView> {
    match s.failure {
        Some(earlier) => Some(earlier),
        None => Some(later),
    }
}

/// The run after a failure in its current stage. The failure is the result
/// of the run where nothing has failed before; else it is set aside.
pub open spec fn failed(s: RunView, error: SandboxErrorView) -> RunView {
    RunView {
        stage: teardown_from(s.stage),
        failure: first_failure(s, error),
        later_failures: if s.failure is Some {
            s.later_failures.push(error)
        } else {
            s.later_failures
        },
        output: None,
        container_id: if s.stage == Stage::Removing {
            None
        } else {
            s.container_id
        },
        staging_dir: if s.stage == Stage::Unstaging {
            None
        } else {
            s.staging_dir
        },
        ..s
    }
}

/// The run after its staging directory was created: the source file gets
/// its places, unless its path has no stem.
pub open spec fn staged(s: RunView, directory: Seq<char>) -> RunView {
    match file_stem_of(s.code_file) {
        Some(stem) => {
            let files = staged_files(stem, s.lang, directory);
            RunView {
                stage: Stage::Copying,
                staging_dir: Some(directory),
                files: Some(files),
                commands: Some(commands_for(files, s.lang)),
                ..s
            }
        },
        None => RunView {
            stage: Stage::Unstaging,
            staging_dir: Some(directory),
            failure: Some(SandboxErrorView::InvalidCodeFile(s.code_file)),
            ..s
        },
    }
}

/// The run after its container was removed.
pub open spec fn removed(s: RunView) -> RunView {
    if s.failure is Some {
        RunView { stage: Stage::Unstaging, container_id: None, ..s }
    } else if s.phase == Phase::Build {
        RunView { stage: Stage::Creating, phase: Phase::Run, container_id: None, ..s }
    } else {
        match converted(s.chunks) {
            Ok(output) => RunView {
                stage: Stage::Unstaging,
                container_id: None,
                output: Some(output),
                ..s
            },
            Err(error) => RunView {
                stage: Stage::Unstaging,
                container_id: None,
                failure: Some(error),
                ..s
            },
        }
    }
}

/// The run after its container exited by itself. A build that exits with a
/// status other than zero has failed; the status of the run command is not
/// looked at.
pub open spec fn exited(s: RunView, status: u64) -> RunView {
    if s.phase == Phase::Build {
        if status == 0 {
            RunView { stage: Stage::Removing, ..s }
        } else {
            failed(
                s,
                SandboxErrorView::Execute { cmd: joined(current_cmd(s)), cause: build_failed() },
            )
        }
    } else {
        RunView { stage: Stage::Draining, ..s }
    }
}

/// The run after an action succeeded that hands nothing over.
pub open spec fn completed(s: RunView) -> RunView {
    match s.stage {
        Stage::Copying => RunView {
            stage: Stage::Creating,
            phase: first_phase(s.commands->0),
            ..s
        },
        Stage::Attaching => RunView { stage: Stage::Starting, ..s },
        Stage::Starting => if s.phase == Phase::Run && s.stdin is Some {
            RunView { stage: Stage::Writing, ..s }
        } else {
            RunView { stage: Stage::Waiting, ..s }
        },
        Stage::Writing => RunView { stage: Stage::Waiting, ..s },
        Stage::Removing => removed(s),
        Stage::Unstaging => RunView { stage: Stage::Done, staging_dir: None, ..s },
        _ => s,
    }
}

/// The state that an event leads to.
pub open spec fn next_state(s: RunView, event: RunEventView) -> RunView {
    if !answers(s.stage, event) {
        s
    } else {
        match event {
            RunEventView::Completed => completed(s),
            RunEventView::Failed { cause } => failed(s, failure_of(s, cause)),
            RunEventView::StagingCreated { directory } => staged(s, directory),
            RunEventView::ContainerCreated { container_id } => RunView {
                stage: Stage::Attaching,
                container_id: Some(container_id),
                ..s
            },
            RunEventView::Exited { status } => exited(s, status),
            RunEventView::TimedOut => failed(
                s,
                SandboxErrorView::Timeout { timeout: s.timeout },
            ),
            RunEventView::Drained { chunks } => RunView { stage: Stage::Removing, chunks, ..s },
        }
    }
}

/// The result of a run that is done.
pub open spec fn result_of(s: RunView) -> Result<RunOutputView, SandboxErrorView> {
    match s.failure {
        Some(error) => Err(error),
        None => Ok(s.output->0),
    }
}

/// The action that a state asks for.
pub open spec fn action_for(s: RunView) -> RunActionView {
    match s.stage {
        Stage::Staging => RunActionView::CreateStaging,
        Stage::Copying => RunActionView::CopyCode { src: s.code_file, dest: s.files->0.host_src },
        Stage::Creating => RunActionView::CreateContainer {
            config: container_for(s.staging_dir->0, s.image_tag, current_cmd(s)),
        },
        Stage::Attaching => RunActionView::Attach { container_id: s.container_id->0 },
        Stage::Starting => RunActionView::Start { container_id: s.container_id->0 },
        Stage::Writing => RunActionView::WriteStdin {
            container_id: s.container_id->0,
            payload: s.stdin->0,
        },
        Stage::Waiting => RunActionView::AwaitExit {
            container_id: s.container_id->0,
            timeout: s.timeout,
        },
        Stage::Draining => RunActionView::Drain { container_id: s.container_id->0 },
        Stage::Removing => RunActionView::RemoveContainer {
            container_id: s.container_id->0,
            removal: forced_removal(),
        },
        Stage::Unstaging => RunActionView::RemoveStaging { directory: s.staging_dir->0 },
        Stage::Done => RunActionView::Finish { result: result_of(s) },
    }
}

/// What holds of every state that a run can be in.
pub open spec fn run_inv(s: RunView) -> bool {
    &&& s.staging_dir is Some <==> holds_staging(s.stage)
    &&& s.container_id is Some <==> holds_container(s.stage)
    &&& (s.stage == Stage::Copying || s.stage == Stage::Creating || holds_container(s.stage))
        ==> s.files is Some && s.commands is Some
    &&& s.stage == Stage::Writing ==> s.stdin is Some && s.phase == Phase::Run
    &&& s.stage == Stage::Draining ==> s.phase == Phase::Run
    &&& s.failure is Some ==> winding_down(s.stage)
    &&& s.output is Some ==> s.failure is None && (s.stage == Stage::Unstaging || s.stage
        == Stage::Done)
    &&& (s.stage == Stage::Unstaging || s.stage == Stage::Done) ==> s.failure is Some || s.output
        is Some
}

/// The state after a list of events, reported one after the other.
pub open spec fn run_after(s: RunView, events: Seq<RunEventView>) -> RunView
    decreases events.len(),
{
    if events.len() == 0 {
        s
    } else {
        next_state(run_after(s, events.drop_last()), events.last())
    }
}

} // verus!
