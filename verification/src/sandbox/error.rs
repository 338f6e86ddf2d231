//! What can go wrong while a sandbox is set up or a snippet is run.

use vstd::prelude::*;
use crate::timespan::TimeSpan;

verus! {

/// A failure of the sandbox. Each variant carries what identifies the thing
/// that failed and, where the container runtime or the file system reported
/// the failure, its report as text (`cause`).
#[derive(Debug)]
pub enum SandboxError {
    /// The build directory does not exist or is no directory.
    InvalidDirectory(String),
    /// The build directory holds no file named `Dockerfile`.
    MissingDockerfile(String),
    /// The absolute path of the build directory could not be resolved.
    RetrieveAbsolutePath { directory: String, cause: String },
    /// The staging directory could not be created.
    CreateTempDirectory(String),
    /// The path of the source file has no file stem.
    InvalidCodeFile(String),
    /// The source file could not be copied into the staging directory.
    CopyCodeFile { src: String, dest: String, cause: String },
    /// The build of the runtime image reported an error.
    BuildImage(String),
    CreateContainer { image_tag: String, cause: String },
    AtachToContainer { container_id: String, cause: String },
    StartContainer { container_id: String, cause: String },
    /// The command did not run to its end, or its output could not be read.
    Execute { cmd: String, cause: String },
    RemoveContainer { container_id: String, cause: String },
    /// The input could not be written to the container, or not be flushed.
    WriteToStdin(String),
    /// The staging directory could not be removed.
    RemoveTempDirectory(String),
    /// The container wrote bytes that are no valid UTF-8 to its output. The
    /// bytes before `valid_up_to` are valid; the byte there begins what is
    /// not.
    InvalidBytesStdOut { valid_up_to: usize },
    /// The container wrote bytes that are no valid UTF-8 to its error stream.
    InvalidBytesStdErr { valid_up_to: usize },
    /// The container did not exit within the time it was given.
    Timeout { timeout: TimeSpan },
}

/// The mathematical value of a [`SandboxError`].
pub enum SandboxErrorView {
    InvalidDirectory(Seq<char>),
    MissingDockerfile(Seq<char>),
    RetrieveAbsolutePath { directory: Seq<char>, cause: Seq<char> },
    CreateTempDirectory(Seq<char>),
    InvalidCodeFile(Seq<char>),
    CopyCodeFile { src: Seq<char>, dest: Seq<char>, cause: Seq<char> },
    BuildImage(Seq<char>),
    CreateContainer { image_tag: Seq<char>, cause: Seq<char> },
    AtachToContainer { container_id: Seq<char>, cause: Seq<char> },
    StartContainer { container_id: Seq<char>, cause: Seq<char> },
    Execute { cmd: Seq<char>, cause: Seq<char> },
    RemoveContainer { container_id: Seq<char>, cause: Seq<char> },
    WriteToStdin(Seq<char>),
    RemoveTempDirectory(Seq<char>),
    InvalidBytesStdOut { valid_up_to: nat },
    InvalidBytesStdErr { valid_up_to: nat },
    Timeout { timeout: nat },
}

impl View for SandboxError {
    type V = SandboxErrorView;

    open spec fn view(&self) -> SandboxErrorView {
        match *self {
            SandboxError::InvalidDirectory(directory) => SandboxErrorView::InvalidDirectory(
                directory@,
            ),
            SandboxError::MissingDockerfile(directory) => SandboxErrorView::MissingDockerfile(
                directory@,
            ),
            SandboxError::RetrieveAbsolutePath { directory, cause } => {
                SandboxErrorView::RetrieveAbsolutePath { directory: directory@, cause: cause@ }
            },
            SandboxError::CreateTempDirectory(cause) => SandboxErrorView::CreateTempDirectory(
                cause@,
            ),
            SandboxError::InvalidCodeFile(path) => SandboxErrorView::InvalidCodeFile(path@),
            SandboxError::CopyCodeFile { src, dest, cause } => SandboxErrorView::CopyCodeFile {
                src: src@,
                dest: dest@,
                cause: cause@,
            },
            SandboxError::BuildImage(cause) => SandboxErrorView::BuildImage(cause@),
            SandboxError::CreateContainer { image_tag, cause } => {
                SandboxErrorView::CreateContainer { image_tag: image_tag@, cause: cause@ }
            },
            SandboxError::AtachToContainer { container_id, cause } => {
                SandboxErrorView::AtachToContainer { container_id: container_id@, cause: cause@ }
            },
            SandboxError::StartContainer { container_id, cause } => {
                SandboxErrorView::StartContainer { container_id: container_id@, cause: cause@ }
            },
            SandboxError::Execute { cmd, cause } => SandboxErrorView::Execute {
                cmd: cmd@,
                cause: cause@,
            },
            SandboxError::RemoveContainer { container_id, cause } => {
                SandboxErrorView::RemoveContainer { container_id: container_id@, cause: cause@ }
            },
            SandboxError::WriteToStdin(cause) => SandboxErrorView::WriteToStdin(cause@),
            SandboxError::RemoveTempDirectory(cause) => SandboxErrorView::RemoveTempDirectory(
                cause@,
            ),
            SandboxError::InvalidBytesStdOut { valid_up_to } => {
                SandboxErrorView::InvalidBytesStdOut { valid_up_to: valid_up_to as nat }
            },
            SandboxError::InvalidBytesStdErr { valid_up_to } => {
                SandboxErrorView::InvalidBytesStdErr { valid_up_to: valid_up_to as nat }
            },
            SandboxError::Timeout { timeout } => SandboxErrorView::Timeout { timeout: timeout@ },
        }
    }
}

impl SandboxError {
    /// Whether this is the one failure that a caller is expected to answer
    /// by running the same request again with more time.
    pub fn is_timeout(&self) -> (timeout: bool)
        ensures
            timeout <==> self@ is Timeout,
    {
        match self {
            SandboxError::Timeout { .. } => true,
            _ => false,
        }
    }

    /// A copy of the error.
    pub fn duplicate(&self) -> (copy: SandboxError)
        ensures
            copy@ == self@,
    {
        match self {
            SandboxError::InvalidDirectory(directory) => SandboxError::InvalidDirectory(
                directory.clone(),
            ),
            SandboxError::MissingDockerfile(directory) => SandboxError::MissingDockerfile(
                directory.clone(),
            ),
            SandboxError::RetrieveAbsolutePath { directory, cause } => {
                SandboxError::RetrieveAbsolutePath {
                    directory: directory.clone(),
                    cause: cause.clone(),
                }
            },
            SandboxError::CreateTempDirectory(cause) => SandboxError::CreateTempDirectory(
                cause.clone(),
            ),
            SandboxError::InvalidCodeFile(path) => SandboxError::InvalidCodeFile(path.clone()),
            SandboxError::CopyCodeFile { src, dest, cause } => SandboxError::CopyCodeFile {
                src: src.clone(),
                dest: dest.clone(),
                cause: cause.clone(),
            },
            SandboxError::BuildImage(cause) => SandboxError::BuildImage(cause.clone()),
            SandboxError::CreateContainer { image_tag, cause } => SandboxError::CreateContainer {
                image_tag: image_tag.clone(),
                cause: cause.clone(),
            },
            SandboxError::AtachToContainer { container_id, cause } => {
                SandboxError::AtachToContainer {
                    container_id: container_id.clone(),
                    cause: cause.clone(),
                }
            },
            SandboxError::StartContainer { container_id, cause } => SandboxError::StartContainer {
                container_id: container_id.clone(),
                cause: cause.clone(),
            },
            SandboxError::Execute { cmd, cause } => SandboxError::Execute {
                cmd: cmd.clone(),
                cause: cause.clone(),
            },
            SandboxError::RemoveContainer { container_id, cause } => {
                SandboxError::RemoveContainer {
                    container_id: container_id.clone(),
                    cause: cause.clone(),
                }
            },
            SandboxError::WriteToStdin(cause) => SandboxError::WriteToStdin(cause.clone()),
            SandboxError::RemoveTempDirectory(cause) => SandboxError::RemoveTempDirectory(
                cause.clone(),
            ),
            SandboxError::InvalidBytesStdOut { valid_up_to } => SandboxError::InvalidBytesStdOut {
                valid_up_to: *valid_up_to,
            },
            SandboxError::InvalidBytesStdErr { valid_up_to } => SandboxError::InvalidBytesStdErr {
                valid_up_to: *valid_up_to,
            },
            SandboxError::Timeout { timeout } => SandboxError::Timeout { timeout: *timeout },
        }
    }
}

} // verus!
