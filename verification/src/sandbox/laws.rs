//! What holds of every run, whatever the container runtime and the file
//! system report.

use vstd::prelude::*;
use vstd::utf8::encode_utf8;
use crate::paths::file_stem_of;
use crate::sandbox::container::{container_for, forced_removal};
use crate::sandbox::error::SandboxErrorView;
use crate::sandbox::files::{commands_for, staged_files};
use crate::sandbox::language::{compiler, Language};
use crate::sandbox::model::{action_for, initial_run, next_state, run_after};
use crate::sandbox::model::{run_inv, winding_down, Phase, RunActionView, RunEventView};
use crate::sandbox::model::{RunView, Stage};
use crate::sandbox::output::{converted, lemma_echo_round_trip, ChunkView, RunOutputView};
use crate::text::joined;

verus! {

/// Whether an action tears something down or ends the run.
pub open spec fn teardown_action(action: RunActionView) -> bool {
    action is RemoveContainer || action is RemoveStaging || action is Finish
}

/// A run starts in a state that can be.
pub proof fn lemma_initial_inv(
    image_tag: Seq<char>,
    code_file: Seq<char>,
    lang: Language,
    timeout: nat,
    stdin: Option<Seq<char>>,
)
    ensures
        run_inv(initial_run(image_tag, code_file, lang, timeout, stdin)),
{
}

/// No event leads out of the states that can be.
pub proof fn lemma_next_keeps_inv(s: RunView, event: RunEventView)
    requires
        run_inv(s),
    ensures
        run_inv(next_state(s, event)),
{
}

/// No list of events leads out of the states that can be.
pub proof fn lemma_events_keep_inv(s: RunView, events: Seq<RunEventView>)
    requires
        run_inv(s),
    ensures
        run_inv(run_after(s, events)),
    decreases events.len(),
{
    if events.len() > 0 {
        lemma_events_keep_inv(s, events.drop_last());
        lemma_next_keeps_inv(run_after(s, events.drop_last()), events.last());
    }
}

/// Nothing is left behind: whatever was reported, a run that is done has
/// neither a container nor a staging directory, and it has a result.
pub proof fn lemma_done_leaves_nothing(
    image_tag: Seq<char>,
    code_file: Seq<char>,
    lang: Language,
    timeout: nat,
    stdin: Option<Seq<char>>,
    events: Seq<RunEventView>,
)
    ensures
        ({
            let end = run_after(initial_run(image_tag, code_file, lang, timeout, stdin), events);
            end.stage == Stage::Done ==> end.container_id is None && end.staging_dir is None && (
            end.failure is Some || end.output is Some)
        }),
{
    lemma_initial_inv(image_tag, code_file, lang, timeout, stdin);
    lemma_events_keep_inv(initial_run(image_tag, code_file, lang, timeout, stdin), events);
}

/// A container is asked for only while none exists, and a run with a
/// container never ends before the removal of that container was asked for
/// and answered.
pub proof fn lemma_container_is_removed(s: RunView, event: RunEventView)
    requires
        run_inv(s),
        s.container_id is Some,
    ensures
        !(action_for(s) is CreateContainer),
        next_state(s, event).container_id is None ==> s.stage == Stage::Removing,
        next_state(s, event).stage != Stage::Done,
{
}

/// The first failure is the result. Once a run has failed, it only tears
/// down: it stays in its phase, asks for no action but removals, keeps its
/// failure whatever fails later, and ends with that failure.
pub proof fn lemma_failure_is_final(s: RunView, events: Seq<RunEventView>)
    requires
        run_inv(s),
        s.failure is Some,
    ensures
        ({
            let end = run_after(s, events);
            &&& end.failure == s.failure
            &&& end.phase == s.phase
            &&& end.output is None
            &&& winding_down(end.stage)
            &&& teardown_action(action_for(end))
            &&& end.stage == Stage::Done ==> action_for(end) == (RunActionView::Finish {
                result: Err(s.failure->0),
            })
        }),
    decreases events.len(),
{
    if events.len() > 0 {
        lemma_failure_is_final(s, events.drop_last());
        lemma_events_keep_inv(s, events.drop_last());
    }
}

/// A build that fails never reaches the run. Whatever fails in the build
/// phase, whatever is reported afterwards, the run stays in the build phase,
/// asks for no further container, and ends with the failure of the build.
pub proof fn lemma_failed_build_never_runs(
    s: RunView,
    event: RunEventView,
    events: Seq<RunEventView>,
)
    requires
        run_inv(s),
        s.phase == Phase::Build,
        next_state(s, event).failure is Some,
    ensures
        ({
            let end = run_after(next_state(s, event), events);
            &&& end.phase == Phase::Build
            &&& end.failure == next_state(s, event).failure
            &&& teardown_action(action_for(end))
        }),
{
    lemma_next_keeps_inv(s, event);
    lemma_failure_is_final(next_state(s, event), events);
}

/// A build command that exits with a status other than zero fails the run
/// with the build command in the error, and the container of the build is
/// removed next.
pub proof fn lemma_failed_compile(s: RunView, status: u64)
    requires
        run_inv(s),
        s.stage == Stage::Waiting,
        s.phase == Phase::Build,
        status != 0,
    ensures
        ({
            let t = next_state(s, RunEventView::Exited { status });
            &&& t.failure matches Some(SandboxErrorView::Execute { cmd, .. }) && cmd == joined(
                s.commands->0.build_cmd,
            )
            &&& action_for(t) is RemoveContainer
        }),
{
}

/// A container whose time runs out is removed by force, and the run ends
/// with the timeout and with no output, whatever the removals report.
pub proof fn lemma_timeout_is_reported(s: RunView, events: Seq<RunEventView>)
    requires
        run_inv(s),
        s.stage == Stage::Waiting,
    ensures
        ({
            let t = next_state(s, RunEventView::TimedOut);
            let end = run_after(t, events);
            &&& action_for(t) == (RunActionView::RemoveContainer {
                container_id: s.container_id->0,
                removal: forced_removal(),
            })
            &&& end.failure == Some(SandboxErrorView::Timeout { timeout: s.timeout })
            &&& end.output is None
            &&& end.stage == Stage::Done ==> action_for(end) == (RunActionView::Finish {
                result: Err(SandboxErrorView::Timeout { timeout: s.timeout }),
            })
        }),
{
    let t = next_state(s, RunEventView::TimedOut);
    lemma_next_keeps_inv(s, RunEventView::TimedOut);
    lemma_failure_is_final(t, events);
}

/// No failure is lost. A failure that is reported is the result of the run
/// where nothing has failed before; else it is the last of the failures
/// that were set aside, and the result stays as it was.
pub proof fn lemma_no_failure_is_lost(s: RunView, cause: Seq<char>)
    requires
        s.stage != Stage::Done,
    ensures
        ({
            let error = crate::sandbox::model::failure_of(s, cause);
            let t = next_state(s, RunEventView::Failed { cause });
            if s.failure is None {
                t.failure == Some(error) && t.later_failures == s.later_failures
            } else {
                t.failure == s.failure && t.later_failures == s.later_failures.push(error)
            }
        }),
{
}

/// An event that does not answer the action of a state changes nothing.
pub proof fn lemma_stray_event_is_ignored(s: RunView, event: RunEventView)
    requires
        !crate::sandbox::model::answers(s.stage, event),
    ensures
        next_state(s, event) == s,
{
}

/// The path of a source file without a stem fails the run before anything
/// goes to the container runtime: the staging directory is removed, and the
/// run ends with `InvalidCodeFile`.
pub proof fn lemma_file_without_stem(s: RunView, directory: Seq<char>, unstaged: RunEventView)
    requires
        run_inv(s),
        s.stage == Stage::Staging,
        s.failure is None,
        file_stem_of(s.code_file) is None,
        unstaged is Completed || unstaged is Failed,
    ensures
        ({
            let t = next_state(s, RunEventView::StagingCreated { directory });
            let end = next_state(t, unstaged);
            &&& action_for(t) == (RunActionView::RemoveStaging { directory })
            &&& action_for(end) == (RunActionView::Finish {
                result: Err(SandboxErrorView::InvalidCodeFile(s.code_file)),
            })
        }),
{
}

/// The run of an interpreted language, where nothing fails: the source file
/// is staged and copied, one container is created from the run command,
/// attached to, then started, given the input if there is one, waited for,
/// read and removed, the staging directory is removed, and the result is
/// what the chunks convert to.
pub proof fn lemma_interpreted_run(
    image_tag: Seq<char>,
    code_file: Seq<char>,
    lang: Language,
    timeout: nat,
    stdin: Option<Seq<char>>,
    directory: Seq<char>,
    container_id: Seq<char>,
    status: u64,
    chunks: Seq<ChunkView>,
)
    requires
        file_stem_of(code_file) is Some,
        compiler(lang) is None,
    ensures
        ({
            let files = staged_files(file_stem_of(code_file)->0, lang, directory);
            let s0 = initial_run(image_tag, code_file, lang, timeout, stdin);
            let s1 = next_state(s0, RunEventView::StagingCreated { directory });
            let s2 = next_state(s1, RunEventView::Completed);
            let s3 = next_state(s2, RunEventView::ContainerCreated { container_id });
            let s4 = next_state(s3, RunEventView::Completed);
            let s5 = next_state(s4, RunEventView::Completed);
            let s6 = if stdin is Some {
                next_state(s5, RunEventView::Completed)
            } else {
                s5
            };
            let s7 = next_state(s6, RunEventView::Exited { status });
            let s8 = next_state(s7, RunEventView::Drained { chunks });
            let s9 = next_state(s8, RunEventView::Completed);
            let s10 = next_state(s9, RunEventView::Completed);
            &&& action_for(s0) == RunActionView::CreateStaging
            &&& action_for(s1) == (RunActionView::CopyCode { src: code_file, dest: files.host_src })
            &&& action_for(s2) == (RunActionView::CreateContainer {
                config: container_for(directory, image_tag, commands_for(files, lang).run_cmd),
            })
            &&& action_for(s3) == (RunActionView::Attach { container_id })
            &&& action_for(s4) == (RunActionView::Start { container_id })
            &&& stdin matches Some(payload) ==> action_for(s5) == (RunActionView::WriteStdin {
                container_id,
                payload,
            })
            &&& action_for(s6) == (RunActionView::AwaitExit { container_id, timeout })
            &&& action_for(s7) == (RunActionView::Drain { container_id })
            &&& action_for(s8) == (RunActionView::RemoveContainer {
                container_id,
                removal: forced_removal(),
            })
            &&& action_for(s9) == (RunActionView::RemoveStaging { directory })
            &&& action_for(s10) == (RunActionView::Finish { result: converted(chunks) })
        }),
{
}

/// The run command, where nothing fails, in any language: one container is
/// created from the run command, attached to, then started, given the input
/// if there is one, waited for, read and removed; the staging directory is
/// removed; and the result is what the chunks convert to, whatever status
/// the program exited with.
pub proof fn lemma_run_phase(
    s: RunView,
    container_id: Seq<char>,
    status: u64,
    chunks: Seq<ChunkView>,
)
    requires
        run_inv(s),
        s.stage == Stage::Creating,
        s.phase == Phase::Run,
    ensures
        ({
            let s1 = next_state(s, RunEventView::ContainerCreated { container_id });
            let s2 = next_state(s1, RunEventView::Completed);
            let s3 = next_state(s2, RunEventView::Completed);
            let s4 = if s.stdin is Some {
                next_state(s3, RunEventView::Completed)
            } else {
                s3
            };
            let s5 = next_state(s4, RunEventView::Exited { status });
            let s6 = next_state(s5, RunEventView::Drained { chunks });
            let s7 = next_state(s6, RunEventView::Completed);
            let s8 = next_state(s7, RunEventView::Completed);
            &&& action_for(s) == (RunActionView::CreateContainer {
                config: container_for(s.staging_dir->0, s.image_tag, s.commands->0.run_cmd),
            })
            &&& action_for(s1) == (RunActionView::Attach { container_id })
            &&& action_for(s2) == (RunActionView::Start { container_id })
            &&& s.stdin matches Some(payload) ==> action_for(s3) == (RunActionView::WriteStdin {
                container_id,
                payload,
            })
            &&& action_for(s4) == (RunActionView::AwaitExit { container_id, timeout: s.timeout })
            &&& action_for(s5) == (RunActionView::Drain { container_id })
            &&& action_for(s6) == (RunActionView::RemoveContainer {
                container_id,
                removal: forced_removal(),
            })
            &&& action_for(s7) == (RunActionView::RemoveStaging { directory: s.staging_dir->0 })
            &&& action_for(s8) == (RunActionView::Finish { result: converted(chunks) })
        }),
{
}

/// The echo. In any language, where nothing fails and the program writes
/// its input back to standard output and nothing else, the run gives the
/// input unchanged on standard output and nothing on standard error.
pub proof fn lemma_echo_run(
    s: RunView,
    container_id: Seq<char>,
    status: u64,
    text: Seq<char>,
    echoes: Seq<ChunkView>,
)
    requires
        run_inv(s),
        s.stage == Stage::Creating,
        s.phase == Phase::Run,
        s.stdin == Some(text),
        forall|i: int| 0 <= i < echoes.len() ==> echoes[i] is StdIn,
    ensures
        ({
            let chunks = echoes.push(ChunkView::StdOut(encode_utf8(text)));
            let s1 = next_state(s, RunEventView::ContainerCreated { container_id });
            let s2 = next_state(s1, RunEventView::Completed);
            let s3 = next_state(s2, RunEventView::Completed);
            let s4 = next_state(s3, RunEventView::Completed);
            let s5 = next_state(s4, RunEventView::Exited { status });
            let s6 = next_state(s5, RunEventView::Drained { chunks });
            let s7 = next_state(s6, RunEventView::Completed);
            let s8 = next_state(s7, RunEventView::Completed);
            action_for(s8) == (RunActionView::Finish {
                result: Ok(RunOutputView { stdout: text, stderr: Seq::empty() }),
            })
        }),
{
    lemma_echo_round_trip(text, echoes);
    lemma_run_phase(s, container_id, status, echoes.push(ChunkView::StdOut(encode_utf8(text))));
}

/// The build of a compiled language, where nothing fails: after the copy a
/// container is created from the build command, it is given no input, its
/// output is not read, and once it is removed the container of the run
/// command is asked for.
pub proof fn lemma_compiled_build(s: RunView, container_id: Seq<char>)
    requires
        run_inv(s),
        s.stage == Stage::Copying,
        s.failure is None,
        s.commands->0.build_cmd.len() > 0,
    ensures
        ({
            let s1 = next_state(s, RunEventView::Completed);
            let s2 = next_state(s1, RunEventView::ContainerCreated { container_id });
            let s3 = next_state(s2, RunEventView::Completed);
            let s4 = next_state(s3, RunEventView::Completed);
            let s5 = next_state(s4, RunEventView::Exited { status: 0 });
            let s6 = next_state(s5, RunEventView::Completed);
            &&& action_for(s1) == (RunActionView::CreateContainer {
                config: container_for(s.staging_dir->0, s.image_tag, s.commands->0.build_cmd),
            })
            &&& action_for(s2) == (RunActionView::Attach { container_id })
            &&& action_for(s3) == (RunActionView::Start { container_id })
            &&& action_for(s4) == (RunActionView::AwaitExit { container_id, timeout: s.timeout })
            &&& action_for(s5) == (RunActionView::RemoveContainer {
                container_id,
                removal: forced_removal(),
            })
            &&& action_for(s6) == (RunActionView::CreateContainer {
                config: container_for(s.staging_dir->0, s.image_tag, s.commands->0.run_cmd),
            })
        }),
{
}

} // verus!
