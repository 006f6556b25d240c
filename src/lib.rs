//! Runs a standalone Rust source file as if it were a script.
//!
//! The library holds the decisions of the script-to-package cache: the content
//! identity of a script, the extraction of its declared dependencies, the edits
//! made to the workspace and unit manifests, and the steps that materialize or
//! reuse a build unit. Reading files, spawning subprocesses and logging are left
//! to the program that drives it.

pub mod cli;
pub mod deps;
pub mod digest;
pub mod error;
pub mod manifest;
pub mod store;
pub mod unique;
