//! The workflow orchestrator: steps that run one after the other, each fed
//! the output of the one before it, and exports that follow the last step.

pub mod laws;
pub mod model;
pub mod run;
pub mod types;

pub use crate::sandbox::Language;
pub use run::{Workflow, WorkflowAction, WorkflowBuilder, WorkflowEvent, WorkflowRun};
pub use types::{Export, ExportResult, Step, StepResult, WorkflowError, WorkflowResult};
