//! Verified core of a project scaffolder: component and template registries,
//! a priority-ordered template resolver, project-name validation, command-line
//! argument parsing, and the decision logic of the build pipeline.

pub mod args;
pub mod errors;
pub mod laws;
pub mod registry;
pub mod pipeline;
pub mod resolve;
pub mod setup;
pub mod text;
pub mod update;
