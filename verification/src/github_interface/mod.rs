//! The GitHub API: the replies the tool reads and the requests it sends.

pub mod error;
pub mod github;
pub mod response_parser;

use self::error::GithubError;
use self::response_parser::repository_response_readable;
use crate::repo::{clone_url, Repo};
use vstd::prelude::*;

verus! {

/// A value read from the body of a GitHub API reply.
pub trait FromResponse: Sized {
    /// Reads the value from `response`.
    fn from_response(response: &str) -> (res: Result<Self, GithubError>)
        requires
            repository_response_readable(response@),
    ;
}

/// The reply to a request for a repository.
#[derive(Clone, Debug)]
pub struct GetRepositoryResponse {
    /// The repository's name.
    pub name: String,
    /// The repository's owner.
    pub owner: GithubRepositoryOwner,
}

/// The owner of a repository.
#[derive(Clone, Debug)]
pub struct GithubRepositoryOwner {
    /// The owner's login.
    pub login: String,
}

/// The reply to a request to fork a repository.
#[derive(Clone, Debug)]
pub struct CreateForkResponse {
    /// The fork's name.
    pub name: String,
    /// The fork's owner.
    pub owner: GithubRepositoryOwner,
}

} // verus!

verus! {

impl CreateForkResponse {
    /// The SSH URL of the fork: `git@github.com:{login}/{name}.git`.
    pub fn ssh_url(&self) -> (res: String)
        ensures
            res@ == clone_url(self.owner.login@, self.name@),
    {
        let fork = Repo { owner: self.owner.login.clone(), name: self.name.clone() };
        fork.to_string()
    }
}

} // verus!
