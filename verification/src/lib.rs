//! An interactive assistant that prepares a commit message for the staged
//! changes of a version-control working tree: it fetches the staged diff,
//! asks a text-generation service for a one-line message, and lets the
//! operator accept, edit, or discard the result before committing.
//!
//! This crate holds the verified core: prompt assembly, the review-loop
//! state machine, and the orchestration state machine that sequences the
//! external steps. The unverified binary performs the subprocess, network
//! and terminal work and drives the orchestrator with the results.

pub mod errors;
pub mod prompt;
pub mod orchestrator;
pub mod review;
pub mod runs;
