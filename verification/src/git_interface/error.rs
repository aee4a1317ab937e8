//! Errors of running git.

use vstd::prelude::*;

verus! {

/// A git command that could not be run.
#[derive(Debug)]
#[non_exhaustive]
pub struct GitError {
    /// The operation that failed.
    pub kind: GitErrorKind,
    /// The description of the underlying failure.
    pub detail: String,
}

/// The git operation that failed.
#[derive(Debug, Clone, Copy, PartialEq, Eq, Structural)]
pub enum GitErrorKind {
    /// `git clone`.
    CloneFailed,
    /// `git remote add`.
    RemoteAddFailed,
}

/// The message of an error of the given kind.
pub open spec fn git_error_message(kind: GitErrorKind) -> Seq<char> {
    match kind {
        GitErrorKind::CloneFailed => "failed to clone git repository"@,
        GitErrorKind::RemoteAddFailed => "failed to add git remote"@,
    }
}

impl GitError {
    /// `git clone` could not be run, for the reason `detail`.
    pub fn clone_failed(detail: String) -> (res: Self)
        ensures
            res.kind == GitErrorKind::CloneFailed,
            res.detail == detail,
    {
        GitError { kind: GitErrorKind::CloneFailed, detail }
    }

    /// `git remote add` could not be run, for the reason `detail`.
    pub fn remote_add_failed(detail: String) -> (res: Self)
        ensures
            res.kind == GitErrorKind::RemoteAddFailed,
            res.detail == detail,
    {
        GitError { kind: GitErrorKind::RemoteAddFailed, detail }
    }

    /// The message that describes the error.
    pub fn to_string(&self) -> (res: String)
        ensures
            res@ == git_error_message(self.kind),
    {
        match self.kind {
            GitErrorKind::CloneFailed => String::from_str("failed to clone git repository"),
            GitErrorKind::RemoteAddFailed => String::from_str("failed to add git remote"),
        }
    }
}

} // verus!
