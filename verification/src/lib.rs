//! Orchestration core of a command-line generator of C++ interop sources.
//!
//! The crate decides what a run does: which subcommand was asked for, which
//! file names the generated sources get, how many placeholder files are added,
//! and in which order the outside services are called. Reading the source file,
//! running the C++ front end and writing to disk are left to the caller, who
//! performs the actions that the orchestrator hands out.

pub mod cli;
pub mod decimal;
pub mod directory;
pub mod history;
pub mod naming;
pub mod orchestrator;
pub mod output;
pub mod plan;
pub mod render;
