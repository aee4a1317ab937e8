//! Clone a git repository to a structured directory: the verified core.
//!
//! The library parses repository references, builds the request and the
//! paths the tool uses, reads GitHub's replies and the `gh` command's output.
//! Reading the environment, the network and the file system is left to the
//! program around it.

pub mod cli;
pub mod download;
pub mod git_interface;
pub mod github_interface;
pub mod repo;
pub mod std_types;
pub mod text;
pub mod token;
