//! Errors of reading the command line and the environment.

use crate::repo::error::ParseError;
use crate::token::ResolveTokenError;
use vstd::prelude::*;
use vstd::std_specs::convert::FromSpecImpl;

verus! {

/// The command line or the environment does not say what to do.
#[derive(Debug)]
#[non_exhaustive]
pub struct CliError {
    /// What is wrong.
    pub kind: CliErrorKind,
    /// The error that caused it, if any.
    pub source: Option<CliErrorSource>,
}

/// What is wrong with the command line or the environment.
#[derive(Debug, Clone, Copy, PartialEq, Eq, Structural)]
pub enum CliErrorKind {
    /// No repository was named.
    MissingRepository,
    /// The repository named could not be read.
    InvalidRepository,
    /// A needed environment variable could not be read.
    EnvVarNotFound,
    /// No GitHub token was given, in `GITHUB_TOKEN` or by the GitHub CLI.
    TokenNotFound,
}

/// The error behind a `CliError`.
#[derive(Debug)]
pub enum CliErrorSource {
    /// Reading an environment variable failed.
    EnvVar(EnvVarError),
    /// Reading the repository reference failed.
    Parse(ParseError),
    /// Asking the GitHub CLI for a token failed.
    Token(ResolveTokenError),
}

/// Why an environment variable could not be read (what `std::env::VarError`
/// reports).
#[derive(Debug, Clone)]
pub enum EnvVarError {
    /// The variable is not set.
    NotPresent,
    /// The variable is not valid Unicode; its value, lossily converted.
    NotUnicode(String),
}

/// The message of an error of the given kind.
pub open spec fn cli_error_message(kind: CliErrorKind) -> Seq<char> {
    match kind {
        CliErrorKind::MissingRepository => "repository argument is required"@,
        CliErrorKind::InvalidRepository => "invalid repository format"@,
        CliErrorKind::EnvVarNotFound => "environment variable not found"@,
        CliErrorKind::TokenNotFound => "GitHub token not found"@,
    }
}

impl CliError {
    /// No repository was named.
    pub fn missing_repository() -> (res: Self)
        ensures
            res.kind == CliErrorKind::MissingRepository,
            res.source is None,
    {
        CliError { kind: CliErrorKind::MissingRepository, source: None }
    }

    /// The repository reference could not be read, as `source` says.
    pub fn invalid_repository(source: ParseError) -> (res: Self)
        ensures
            res.kind == CliErrorKind::InvalidRepository,
            res.source == Some(CliErrorSource::Parse(source)),
    {
        CliError { kind: CliErrorKind::InvalidRepository, source: Some(CliErrorSource::Parse(source)) }
    }

    /// An environment variable could not be read, as `source` says.
    pub fn env_var_not_found(source: EnvVarError) -> (res: Self)
        ensures
            res.kind == CliErrorKind::EnvVarNotFound,
            res.source == Some(CliErrorSource::EnvVar(source)),
    {
        CliError { kind: CliErrorKind::EnvVarNotFound, source: Some(CliErrorSource::EnvVar(source)) }
    }

    /// No token was given, and the GitHub CLI gave none, as `source` says.
    pub fn token_not_found(source: ResolveTokenError) -> (res: Self)
        ensures
            res.kind == CliErrorKind::TokenNotFound,
            res.source == Some(CliErrorSource::Token(source)),
    {
        CliError { kind: CliErrorKind::TokenNotFound, source: Some(CliErrorSource::Token(source)) }
    }

    /// The message that describes the error.
    pub fn to_string(&self) -> (res: String)
        ensures
            res@ == cli_error_message(self.kind),
    {
        match self.kind {
            CliErrorKind::MissingRepository => String::from_str("repository argument is required"),
            CliErrorKind::InvalidRepository => String::from_str("invalid repository format"),
            CliErrorKind::EnvVarNotFound => String::from_str("environment variable not found"),
            CliErrorKind::TokenNotFound => String::from_str("GitHub token not found"),
        }
    }
}

impl From<ParseError> for CliError {
    /// A repository reference that could not be read.
    fn from(err: ParseError) -> (res: Self) {
        Self::invalid_repository(err)
    }
}

impl FromSpecImpl<ParseError> for CliError {
    open spec fn obeys_from_spec() -> bool {
        true
    }

    open spec fn from_spec(err: ParseError) -> Self {
        CliError { kind: CliErrorKind::InvalidRepository, source: Some(CliErrorSource::Parse(err)) }
    }
}

impl From<EnvVarError> for CliError {
    /// An environment variable that could not be read.
    fn from(err: EnvVarError) -> (res: Self) {
        Self::env_var_not_found(err)
    }
}

impl FromSpecImpl<EnvVarError> for CliError {
    open spec fn obeys_from_spec() -> bool {
        true
    }

    open spec fn from_spec(err: EnvVarError) -> Self {
        CliError { kind: CliErrorKind::EnvVarNotFound, source: Some(CliErrorSource::EnvVar(err)) }
    }
}

} // verus!
