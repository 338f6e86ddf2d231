//! Runs source snippets in disposable containers and chains such runs into
//! pipelines.
//!
//! The library holds every decision of the engine: which commands a language
//! needs, which request goes to the container runtime next, which error a
//! failed request becomes, what is torn down and when, and how the results of
//! a pipeline accumulate. Talking to the container runtime and to the file
//! system is left to the caller, who performs the action that a run asks for
//! and reports back what happened.

pub mod paths;
pub mod sandbox;
pub mod text;
pub mod timespan;
pub mod workflow;
