//! Errors of talking to the GitHub API.

use vstd::prelude::*;

verus! {

/// A failed exchange with the GitHub API.
#[derive(Debug)]
#[non_exhaustive]
pub struct GithubError {
    /// What went wrong.
    pub kind: GithubErrorKind,
    /// The description of the underlying failure.
    pub detail: String,
}

/// The stage of the exchange that failed.
#[derive(Debug, Clone, Copy, PartialEq, Eq, Structural)]
pub enum GithubErrorKind {
    /// The request could not be made.
    RequestFailed,
    /// The reply could not be read as an HTTP response.
    InvalidResponse,
    /// The reply's body did not hold what was expected.
    ParseError,
}

/// The message of an error of the given kind.
pub open spec fn github_error_message(kind: GithubErrorKind) -> Seq<char> {
    match kind {
        GithubErrorKind::RequestFailed => "GitHub API request failed"@,
        GithubErrorKind::InvalidResponse => "invalid response from GitHub API"@,
        GithubErrorKind::ParseError => "failed to parse GitHub API response"@,
    }
}

impl GithubError {
    /// The request could not be made, for the reason `detail`.
    pub fn request_failed(detail: String) -> (res: Self)
        ensures
            res.kind == GithubErrorKind::RequestFailed,
            res.detail == detail,
    {
        GithubError { kind: GithubErrorKind::RequestFailed, detail }
    }

    /// The reply was not an HTTP response, for the reason `detail`.
    pub fn invalid_response(detail: String) -> (res: Self)
        ensures
            res.kind == GithubErrorKind::InvalidResponse,
            res.detail == detail,
    {
        GithubError { kind: GithubErrorKind::InvalidResponse, detail }
    }

    /// The reply's body could not be read, for the reason `detail`.
    pub fn parse_error(detail: String) -> (res: Self)
        ensures
            res.kind == GithubErrorKind::ParseError,
            res.detail == detail,
    {
        GithubError { kind: GithubErrorKind::ParseError, detail }
    }

    /// The message that describes the error.
    pub fn to_string(&self) -> (res: String)
        ensures
            res@ == github_error_message(self.kind),
    {
        match self.kind {
            GithubErrorKind::RequestFailed => String::from_str("GitHub API request failed"),
            GithubErrorKind::InvalidResponse => String::from_str(
                "invalid response from GitHub API",
            ),
            GithubErrorKind::ParseError => String::from_str("failed to parse GitHub API response"),
        }
    }
}

} // verus!
