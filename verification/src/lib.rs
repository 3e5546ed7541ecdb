//! Test-support helpers for an extension-testing CLI, with the decision and
//! path logic verified: resolving and filtering candidate archive paths,
//! planning the extension install and editor launch, and the step-by-step
//! control flow of the CLI tool installation.

pub mod cli;
pub mod install;
pub mod paths;
pub mod resolve;
