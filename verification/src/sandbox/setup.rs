//! Setting a sandbox up: the build directory is checked, then the runtime
//! image is built from it. The caller looks at the directory and talks to
//! the container runtime; what follows from its reports is decided here.

use vstd::prelude::*;
use crate::paths::{join, joined_path};
use crate::sandbox::container::{build_config, BuildConfig, BuildConfigView};
use crate::sandbox::error::{SandboxError, SandboxErrorView};
use crate::sandbox::language::Language;
use crate::sandbox::model::initial_run;
use crate::sandbox::run::SandboxRun;
use crate::text::{option_view, owned};
use crate::timespan::TimeSpan;

verus! {

/// A sandbox that is set up: its runtime image is built and tagged, and
/// every run is made from that image.
#[derive(Debug)]
pub struct DockerSandbox {
    image_tag: String,
}

impl View for DockerSandbox {
    type V = Seq<char>;

    /// The tag of the runtime image.
    closed spec fn view(&self) -> Seq<char> {
        self.image_tag@
    }
}

/// What the caller found at the build directory.
#[derive(Debug)]
pub struct DirectoryProbe {
    /// The path exists and is a directory.
    pub is_directory: bool,
    /// The directory holds a file named `Dockerfile`.
    pub has_dockerfile: bool,
    /// The absolute path of the directory, or why it could not be resolved.
    pub absolute: Result<String, String>,
}

pub struct DirectoryProbeView {
    pub is_directory: bool,
    pub has_dockerfile: bool,
    pub absolute: Result<Seq<char>, Seq<char>>,
}

impl View for DirectoryProbe {
    type V = DirectoryProbeView;

    open spec fn view(&self) -> DirectoryProbeView {
        DirectoryProbeView {
            is_directory: self.is_directory,
            has_dockerfile: self.has_dockerfile,
            absolute: match self.absolute {
                Ok(path) => Ok(path@),
                Err(cause) => Err(cause@),
            },
        }
    }
}

/// What setting up waits for.
#[derive(Clone, Copy, Debug, PartialEq, Eq, Structural)]
pub enum SetupStage {
    /// The build directory is being looked at.
    Probing,
    /// The image is being built: the events of the build are read one by
    /// one.
    Building,
    Done,
}

pub struct SetupView {
    pub directory: Seq<char>,
    pub image_tag: Seq<char>,
    pub stage: SetupStage,
    /// The absolute path of the build directory, once it is known.
    pub absolute: Option<Seq<char>>,
    pub failure: Option<SandboxErrorView>,
}

pub enum SetupEventView {
    Probed { probe: DirectoryProbeView },
    /// The build reported an event that is no error.
    BuildProgress,
    /// The build reported an error.
    BuildFailed { cause: Seq<char> },
    /// The events of the build have come to their end.
    BuildEnded,
}

pub enum SetupActionView {
    /// Look at the build directory and at the `Dockerfile` in it.
    Probe { directory: Seq<char>, dockerfile: Seq<char> },
    /// Build the image, or go on with its build, and report the next event.
    BuildImage { config: BuildConfigView },
    Finish { result: Result<Seq<char>, SandboxErrorView> },
}

/// The name of the build recipe.
pub open spec fn dockerfile_name() -> Seq<char> {
    "Dockerfile"@
}

/// The absolute path of a build directory that is fit for a build: it is a
/// directory, it holds a `Dockerfile`, and its absolute path was resolved.
/// The first of these that does not hold gives the error.
pub open spec fn validated(directory: Seq<char>, probe: DirectoryProbeView) -> Result<
    Seq<char>,
    SandboxErrorView,
> {
    if !probe.is_directory {
        Err(SandboxErrorView::InvalidDirectory(directory))
    } else if !probe.has_dockerfile {
        Err(SandboxErrorView::MissingDockerfile(directory))
    } else {
        match probe.absolute {
            Ok(path) => Ok(path),
            Err(cause) => Err(SandboxErrorView::RetrieveAbsolutePath { directory, cause }),
        }
    }
}

pub open spec fn initial_setup(directory: Seq<char>, image_tag: Seq<char>) -> SetupView {
    SetupView { directory, image_tag, stage: SetupStage::Probing, absolute: None, failure: None }
}

pub open spec fn next_setup(s: SetupView, event: SetupEventView) -> SetupView {
    match (s.stage, event) {
        (SetupStage::Probing, SetupEventView::Probed { probe }) => match validated(
            s.directory,
            probe,
        ) {
            Ok(path) => SetupView { stage: SetupStage::Building, absolute: Some(path), ..s },
            Err(error) => SetupView { stage: SetupStage::Done, failure: Some(error), ..s },
        },
        (SetupStage::Building, SetupEventView::BuildFailed { cause }) => SetupView {
            stage: SetupStage::Done,
            failure: Some(SandboxErrorView::BuildImage(cause)),
            ..s
        },
        (SetupStage::Building, SetupEventView::BuildEnded) => SetupView {
            stage: SetupStage::Done,
            ..s
        },
        _ => s,
    }
}

pub open spec fn setup_action(s: SetupView) -> SetupActionView {
    match s.stage {
        SetupStage::Probing => SetupActionView::Probe {
            directory: s.directory,
            dockerfile: joined_path(s.directory, dockerfile_name()),
        },
        SetupStage::Building => SetupActionView::BuildImage {
            config: BuildConfigView { path: s.absolute->0, tag: s.image_tag },
        },
        SetupStage::Done => SetupActionView::Finish {
            result: match s.failure {
                Some(error) => Err(error),
                None => Ok(s.image_tag),
            },
        },
    }
}

pub open spec fn setup_inv(s: SetupView) -> bool {
    &&& s.stage == SetupStage::Building ==> s.absolute is Some
    &&& s.failure is Some ==> s.stage == SetupStage::Done
}

pub open spec fn setup_after(s: SetupView, events: Seq<SetupEventView>) -> SetupView
    decreases events.len(),
{
    if events.len() == 0 {
        s
    } else {
        next_setup(setup_after(s, events.drop_last()), events.last())
    }
}

/// Checks what was found at a build directory.
pub fn validate_directory(dir: &str, probe: DirectoryProbe) -> (absolute: Result<
    String,
    SandboxError,
>)
    ensures
        match absolute {
            Ok(path) => Ok(path@),
            Err(error) => Err(error@),
        } == validated(dir@, probe@),
{
    if !probe.is_directory {
        return Err(SandboxError::InvalidDirectory(owned(dir)));
    }
    if !probe.has_dockerfile {
        return Err(SandboxError::MissingDockerfile(owned(dir)));
    }
    match probe.absolute {
        Ok(path) => Ok(path),
        Err(cause) => Err(SandboxError::RetrieveAbsolutePath { directory: owned(dir), cause }),
    }
}

/// What the caller reports while a sandbox is set up.
#[derive(Debug)]
pub enum SetupEvent {
    Probed { probe: DirectoryProbe },
    /// The build reported an event that is no error.
    BuildProgress,
    /// The build reported an error.
    BuildFailed { cause: String },
    /// The events of the build have come to their end.
    BuildEnded,
}

impl View for SetupEvent {
    type V = SetupEventView;

    open spec fn view(&self) -> SetupEventView {
        match *self {
            SetupEvent::Probed { probe } => SetupEventView::Probed { probe: probe@ },
            SetupEvent::BuildProgress => SetupEventView::BuildProgress,
            SetupEvent::BuildFailed { cause } => SetupEventView::BuildFailed { cause: cause@ },
            SetupEvent::BuildEnded => SetupEventView::BuildEnded,
        }
    }
}

/// What setting up asks the caller to do.
#[derive(Debug)]
pub enum SetupAction {
    Probe { directory: String, dockerfile: String },
    BuildImage { config: BuildConfig },
    Finish { result: Result<DockerSandbox, SandboxError> },
}

impl View for SetupAction {
    type V = SetupActionView;

    open spec fn view(&self) -> SetupActionView {
        match *self {
            SetupAction::Probe { directory, dockerfile } => SetupActionView::Probe {
                directory: directory@,
                dockerfile: dockerfile@,
            },
            SetupAction::BuildImage { config } => SetupActionView::BuildImage {
                config: config@,
            },
            SetupAction::Finish { result } => SetupActionView::Finish {
                result: match result {
                    Ok(sandbox) => Ok(sandbox@),
                    Err(error) => Err(error@),
                },
            },
        }
    }
}

/// A sandbox that is being set up.
#[derive(Debug)]
pub struct SandboxSetup {
    directory: String,
    image_tag: String,
    stage: SetupStage,
    absolute: Option<String>,
    failure: Option<SandboxError>,
}

impl View for SandboxSetup {
    type V = SetupView;

    closed spec fn view(&self) -> SetupView {
        SetupView {
            directory: self.directory@,
            image_tag: self.image_tag@,
            stage: self.stage,
            absolute: option_view(self.absolute),
            failure: option_view(self.failure),
        }
    }
}

impl SandboxSetup {
    #[verifier::type_invariant]
    spec fn well_formed(self) -> bool {
        setup_inv(self@)
    }

    /// What setting up waits for.
    pub fn stage(&self) -> (stage: SetupStage)
        ensures
            stage == self@.stage,
            setup_inv(self@),
    {
        proof {
            use_type_invariant(self);
        }
        self.stage
    }

    /// The action that setting up asks for next.
    pub fn action(&self) -> (action: SetupAction)
        ensures
            action@ == setup_action(self@),
    {
        proof {
            use_type_invariant(self);
        }
        match self.stage {
            SetupStage::Probing => SetupAction::Probe {
                directory: self.directory.clone(),
                dockerfile: join(self.directory.as_str(), "Dockerfile"),
            },
            SetupStage::Building => {
                let config = build_config(
                    self.absolute.as_ref().unwrap().as_str(),
                    self.image_tag.as_str(),
                );
                SetupAction::BuildImage { config }
            },
            SetupStage::Done => SetupAction::Finish {
                result: match &self.failure {
                    Some(error) => Err(error.duplicate()),
                    None => Ok(DockerSandbox { image_tag: self.image_tag.clone() }),
                },
            },
        }
    }

    /// Takes the report of the caller and moves on. A report that answers no
    /// action of the current stage changes nothing; an event of the build
    /// that is no error changes nothing either, and the build goes on.
    pub fn advance(self, event: SetupEvent) -> (next: SandboxSetup)
        ensures
            next@ == next_setup(self@, event@),
            setup_inv(next@),
    {
        proof {
            use_type_invariant(&self);
        }
        match self.stage {
            SetupStage::Probing => match event {
                SetupEvent::Probed { probe } => match validate_directory(
                    self.directory.as_str(),
                    probe,
                ) {
                    Ok(path) => SandboxSetup {
                        stage: SetupStage::Building,
                        absolute: Some(path),
                        ..self
                    },
                    Err(error) => SandboxSetup {
                        stage: SetupStage::Done,
                        failure: Some(error),
                        ..self
                    },
                },
                _ => self,
            },
            SetupStage::Building => match event {
                SetupEvent::BuildFailed { cause } => SandboxSetup {
                    stage: SetupStage::Done,
                    failure: Some(SandboxError::BuildImage(cause)),
                    ..self
                },
                SetupEvent::BuildEnded => SandboxSetup { stage: SetupStage::Done, ..self },
                _ => self,
            },
            SetupStage::Done => self,
        }
    }
}

impl DockerSandbox {
    /// Begins to set a sandbox up from a build directory, with the tag that
    /// its image is to have.
    pub fn new(directory: &str, image_tag: &str) -> (setup: SandboxSetup)
        ensures
            setup@ == initial_setup(directory@, image_tag@),
    {
        SandboxSetup {
            directory: owned(directory),
            image_tag: owned(image_tag),
            stage: SetupStage::Probing,
            absolute: None,
            failure: None,
        }
    }

    /// The tag of the runtime image.
    pub fn image_tag(&self) -> (tag: &str)
        ensures
            tag@ == self@,
    {
        self.image_tag.as_str()
    }

    /// Begins a run of a source file in a language, with the time that each
    /// of its containers may take and with the input of the program.
    pub fn run_code(
        &self,
        code_file: &str,
        lang: Language,
        timeout: TimeSpan,
        stdin: Option<&str>,
    ) -> (run: SandboxRun)
        ensures
            run@ == initial_run(self@, code_file@, lang, timeout@, option_view(stdin)),
    {
        SandboxRun::new(self.image_tag.as_str(), code_file, lang, timeout, stdin)
    }
}

/// Every state that setting up reaches is one that can be.
pub proof fn lemma_setup_inv(directory: Seq<char>, image_tag: Seq<char>, events: Seq<SetupEventView>)
    ensures
        setup_inv(setup_after(initial_setup(directory, image_tag), events)),
    decreases events.len(),
{
    if events.len() > 0 {
        lemma_setup_inv(directory, image_tag, events.drop_last());
    }
}

/// A build directory that is not fit for a build fails the setup at once,
/// with the error of the check: the build of the image is never asked for.
pub proof fn lemma_unfit_directory(
    directory: Seq<char>,
    image_tag: Seq<char>,
    probe: DirectoryProbeView,
    events: Seq<SetupEventView>,
)
    requires
        validated(directory, probe) is Err,
    ensures
        ({
            let s = next_setup(
                initial_setup(directory, image_tag),
                SetupEventView::Probed { probe },
            );
            let end = setup_after(s, events);
            &&& setup_action(initial_setup(directory, image_tag)) is Probe
            &&& setup_action(end) == (SetupActionView::Finish {
                result: Err(validated(directory, probe)->Err_0),
            })
        }),
    decreases events.len(),
{
    if events.len() > 0 {
        lemma_unfit_directory(directory, image_tag, probe, events.drop_last());
    }
}

/// Events that are no errors leave the build going.
pub proof fn lemma_progress_keeps_building(s: SetupView, progress: Seq<SetupEventView>)
    requires
        s.stage == SetupStage::Building,
        forall|i: int| 0 <= i < progress.len() ==> progress[i] is BuildProgress,
    ensures
        setup_after(s, progress) == s,
    decreases progress.len(),
{
    if progress.len() > 0 {
        lemma_progress_keeps_building(s, progress.drop_last());
    }
}

/// The first error of the build fails the setup, with the cause of that
/// error, whatever the build reports after it.
pub proof fn lemma_first_build_error_wins(
    s: SetupView,
    progress: Seq<SetupEventView>,
    cause: Seq<char>,
    rest: Seq<SetupEventView>,
)
    requires
        s.stage == SetupStage::Building,
        forall|i: int| 0 <= i < progress.len() ==> progress[i] is BuildProgress,
    ensures
        setup_action(
            setup_after(s, progress.push(SetupEventView::BuildFailed { cause }) + rest),
        ) == (SetupActionView::Finish { result: Err(SandboxErrorView::BuildImage(cause)) }),
    decreases rest.len(),
{
    let failed = progress.push(SetupEventView::BuildFailed { cause });
    if rest.len() == 0 {
        assert(failed + rest == failed);
        assert(failed.drop_last() == progress);
        lemma_progress_keeps_building(s, progress);
    } else {
        lemma_first_build_error_wins(s, progress, cause, rest.drop_last());
        assert((failed + rest).drop_last() == failed + rest.drop_last());
    }
}

/// A build whose events end without an error gives the sandbox, with the
/// tag it was asked for.
pub proof fn lemma_clean_build(s: SetupView, progress: Seq<SetupEventView>)
    requires
        s.stage == SetupStage::Building,
        s.failure is None,
        forall|i: int| 0 <= i < progress.len() ==> progress[i] is BuildProgress,
    ensures
        setup_action(setup_after(s, progress.push(SetupEventView::BuildEnded))) == (
        SetupActionView::Finish { result: Ok(s.image_tag) }),
{
    assert(progress.push(SetupEventView::BuildEnded).drop_last() == progress);
    lemma_progress_keeps_building(s, progress);
}

} // verus!
