//! Orchestration engine for a three-stage audit pipeline: configuration
//! resolution, stage invocations and the pipeline's halt-on-failure control.

pub mod arguments;
pub mod config;
pub mod config_laws;
pub mod decimal;
pub mod document;
pub mod messages;
pub mod orchestrator;
pub mod paths;
pub mod pipeline;
pub mod pipeline_laws;
pub mod search;
pub mod source;
pub mod stage;
pub mod store;
pub mod validation;
