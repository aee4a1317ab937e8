//! The git found on the system's `PATH`.

use vstd::prelude::*;

verus! {

/// The `git` program of the system, run as a child process.
#[derive(Debug)]
pub struct SystemGit;

impl SystemGit {
    /// The system's git.
    pub fn new() -> (res: Self)
        ensures
            res == SystemGit,
    {
        SystemGit
    }
}

} // verus!
