//! What the tool does once GitHub has described the repository: stop where
//! it is already cloned, clone it, or fork it, clone it and add the fork as
//! a remote. The steps are carried out by the caller.

use crate::github_interface::{CreateForkResponse, GetRepositoryResponse};
use crate::repo::{clone_url, repo_directory, Repo};
use vstd::prelude::*;

verus! {

/// The repository to download, where it goes, and whether to fork it.
#[derive(Debug)]
pub struct DownloadPlan {
    /// The repository as GitHub names it.
    pub repo: Repo,
    /// The directory it is cloned into.
    pub directory: String,
    /// Whether to fork it first.
    pub fork: bool,
}

/// The next thing to do.
#[derive(Debug)]
pub enum DownloadStep {
    /// The directory already exists: report it and stop.
    ReportAlreadyCloned { directory: String },
    /// Clone `url` into `directory`, and stop.
    Clone { url: String, directory: String },
    /// Create the fork, then ask for the step after it.
    CreateFork,
    /// Clone `url` into `directory`, then add the remote `remote` at
    /// `remote_url` there, and stop.
    CloneAndAddRemote { url: String, directory: String, remote: String, remote_url: String },
}

impl DownloadPlan {
    /// The plan for the repository that GitHub described, under `home`.
    pub fn new(found: GetRepositoryResponse, home: &str, fork: bool) -> (res: Self)
        ensures
            res.repo.owner@ == found.owner.login@,
            res.repo.name@ == found.name@,
            res.directory@ == repo_directory(home@, found.owner.login@, found.name@),
            res.fork == fork,
    {
        let repo = Repo::from(found);
        let directory = repo.directory(home);
        DownloadPlan { repo, directory, fork }
    }

    /// The first step, given whether the directory already exists: report it
    /// if it does; otherwise clone, or create the fork first.
    pub fn first_step(&self, already_cloned: bool) -> (res: DownloadStep)
        ensures
            already_cloned ==> (res matches DownloadStep::ReportAlreadyCloned { directory }
                && directory@ == self.directory@),
            !already_cloned && !self.fork ==> (res matches DownloadStep::Clone { url, directory }
                && url@ == clone_url(self.repo.owner@, self.repo.name@) && directory@
                == self.directory@),
            !already_cloned && self.fork ==> res matches DownloadStep::CreateFork,
    {
        if already_cloned {
            DownloadStep::ReportAlreadyCloned { directory: self.directory.clone() }
        } else if !self.fork {
            DownloadStep::Clone { url: self.repo.to_string(), directory: self.directory.clone() }
        } else {
            DownloadStep::CreateFork
        }
    }

    /// The step after the fork was created: clone the repository, then add
    /// the fork as the remote `fork`.
    pub fn step_after_fork(&self, created: &CreateForkResponse) -> (res: DownloadStep)
        ensures
            res matches DownloadStep::CloneAndAddRemote { url, directory, remote, remote_url }
                && url@ == clone_url(self.repo.owner@, self.repo.name@) && directory@
                == self.directory@ && remote@ == "fork"@ && remote_url@ == clone_url(
                created.owner.login@,
                created.name@,
            ),
    {
        DownloadStep::CloneAndAddRemote {
            url: self.repo.to_string(),
            directory: self.directory.clone(),
            remote: String::from_str("fork"),
            remote_url: created.ssh_url(),
        }
    }
}

} // verus!
