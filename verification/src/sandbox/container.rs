//! The requests that go to the container runtime, as plain values. The
//! caller turns each into the request of the runtime it talks to.

use vstd::prelude::*;
use crate::text::{appended, clone_words, owned, views};

verus! {

/// The directory of the container at which the staging directory is mounted
/// and in which its command runs.
pub open spec fn sandbox_dir() -> Seq<char> {
    "/home/sandbox"@
}

/// What separates the host side of a bind mount from the container side.
pub open spec fn mount_separator() -> Seq<char> {
    ":"@
}

/// A container to create.
#[derive(Debug)]
pub struct ContainerConfig {
    /// The tag of the image that the container is made from.
    pub image: String,
    /// The bind mounts, each as `host path:container path`.
    pub binds: Vec<String>,
    pub working_dir: String,
    pub attach_stdin: bool,
    pub attach_stdout: bool,
    pub attach_stderr: bool,
    /// The command that the container runs, word by word.
    pub cmd: Vec<String>,
}

pub struct ContainerConfigView {
    pub image: Seq<char>,
    pub binds: Seq<Seq<char>>,
    pub working_dir: Seq<char>,
    pub attach_stdin: bool,
    pub attach_stdout: bool,
    pub attach_stderr: bool,
    pub cmd: Seq<Seq<char>>,
}

impl View for ContainerConfig {
    type V = ContainerConfigView;

    open spec fn view(&self) -> ContainerConfigView {
        ContainerConfigView {
            image: self.image@,
            binds: views(self.binds@),
            working_dir: self.working_dir@,
            attach_stdin: self.attach_stdin,
            attach_stdout: self.attach_stdout,
            attach_stderr: self.attach_stderr,
            cmd: views(self.cmd@),
        }
    }
}

/// How a container is removed.
#[derive(Clone, Copy, Debug, PartialEq, Eq, Structural)]
pub struct RemoveConfig {
    /// Remove the container even while it runs.
    pub force: bool,
    /// Remove the volumes of the container with it.
    pub volumes: bool,
}

/// An image to build.
#[derive(Debug)]
pub struct BuildConfig {
    /// The directory that holds the `Dockerfile`.
    pub path: String,
    pub tag: String,
}

pub struct BuildConfigView {
    pub path: Seq<char>,
    pub tag: Seq<char>,
}

impl View for BuildConfig {
    type V = BuildConfigView;

    open spec fn view(&self) -> BuildConfigView {
        BuildConfigView { path: self.path@, tag: self.tag@ }
    }
}

/// The container of one command: made from the image, with the staging
/// directory as its one bind mount, read and write, at the sandbox
/// directory, which is its working directory too, and with all three
/// standard streams attached.
pub open spec fn container_for(staging_dir: Seq<char>, image_tag: Seq<char>, cmd: Seq<Seq<char>>)
    -> ContainerConfigView {
    ContainerConfigView {
        image: image_tag,
        binds: seq![staging_dir + mount_separator() + sandbox_dir()],
        working_dir: sandbox_dir(),
        attach_stdin: true,
        attach_stdout: true,
        attach_stderr: true,
        cmd,
    }
}

/// The removal that tears a container down whatever state it is in.
pub open spec fn forced_removal() -> RemoveConfig {
    RemoveConfig { force: true, volumes: true }
}

pub fn container_config(staging_dir: &str, image_tag: &str, cmd: &Vec<String>) -> (config:
    ContainerConfig)
    ensures
        config@ == container_for(staging_dir@, image_tag@, views(cmd@)),
{
    let host_side = appended(staging_dir, ":");
    let mount = appended(host_side.as_str(), "/home/sandbox");
    let mut binds: Vec<String> = Vec::new();
    binds.push(mount);
    assert(views(binds@) =~= seq![staging_dir@ + mount_separator() + sandbox_dir()]);
    ContainerConfig {
        image: owned(image_tag),
        binds,
        working_dir: owned("/home/sandbox"),
        attach_stdin: true,
        attach_stdout: true,
        attach_stderr: true,
        cmd: clone_words(cmd),
    }
}

pub fn remove_config() -> (config: RemoveConfig)
    ensures
        config == forced_removal(),
{
    RemoveConfig { force: true, volumes: true }
}

pub fn build_config(path: &str, tag: &str) -> (config: BuildConfig)
    ensures
        config@ == (BuildConfigView { path: path@, tag: tag@ }),
{
    BuildConfig { path: owned(path), tag: owned(tag) }
}

} // verus!
