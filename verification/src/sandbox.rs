//! The execution sandbox: language profiles, staged files, container
//! requests and the life cycle of one run.

pub mod container;
pub mod error;
pub mod files;
pub mod language;
pub mod laws;
pub mod model;
pub mod output;
pub mod run;
pub mod setup;

pub use error::SandboxError;
pub use language::Language;
pub use model::{Phase, Stage};
pub use output::{Chunk, RunOutput};
pub use run::{RunAction, RunEvent, SandboxRun};
pub use setup::{DirectoryProbe, DockerSandbox, SandboxSetup, SetupAction, SetupEvent, SetupStage};
