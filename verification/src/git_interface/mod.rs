//! The git command: the errors of running it and the handle that runs it.

pub mod error;
pub mod git;
