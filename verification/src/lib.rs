//! A manager for local clones of remote repositories: it derives a canonical
//! directory for a remote URL below a root directory and decides, step by
//! step, how a clone into that directory has to proceed.

pub mod cli;
pub mod git;
pub mod model;
pub mod orchestrator;
pub mod resolve;
