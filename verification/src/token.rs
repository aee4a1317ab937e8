//! Reading the GitHub token that `gh auth token` prints.

use crate::std_types::string_from_utf8;
use crate::text::{chars_of, is_whitespace, lemma_trim_trimmed, string_of, trim, trim_bounds};
use vstd::prelude::*;
use vstd::utf8::{
    decode_utf8, encode_utf8, encode_utf8_decode_utf8, encode_utf8_valid_utf8, valid_utf8,
};

verus! {

/// No GitHub token could be found.
#[derive(Debug)]
#[non_exhaustive]
pub struct ResolveTokenError {
    /// Why.
    pub kind: ResolveTokenErrorKind,
}

/// The reason no token was found.
#[derive(Debug)]
pub enum ResolveTokenErrorKind {
    /// The `gh` command could not be run.
    Io(std::io::Error),
    /// `gh` printed something that is not UTF-8.
    InvalidUtf8(std::string::FromUtf8Error),
    /// `gh` failed or printed no token.
    NotFound,
}

/// The message of a `ResolveTokenError`, whatever its kind.
pub open spec fn resolve_token_message() -> Seq<char> {
    "no GitHub token found; provide a token using one of these methods (in order of precedence):\n  1. --github-token <TOKEN>\n  2. GITHUB_TOKEN environment variable\n  3. Install and authenticate the GitHub CLI: gh auth login"@
}

/// The token that `gh` reports: its output decoded as UTF-8 and trimmed;
/// `None` when the command failed, the output is not UTF-8 or nothing is left
/// after trimming.
pub open spec fn gh_token(success: bool, stdout: Seq<u8>) -> Option<Seq<char>> {
    if success && valid_utf8(stdout) && trim(decode_utf8(stdout)).len() > 0 {
        Some(trim(decode_utf8(stdout)))
    } else {
        None
    }
}

impl ResolveTokenError {
    /// `gh` could not be run, for the reason `err`.
    pub fn io(err: std::io::Error) -> (res: Self)
        ensures
            res.kind == ResolveTokenErrorKind::Io(err),
    {
        ResolveTokenError { kind: ResolveTokenErrorKind::Io(err) }
    }

    /// `gh` printed bytes that are not UTF-8.
    pub fn invalid_utf8(err: std::string::FromUtf8Error) -> (res: Self)
        ensures
            res.kind == ResolveTokenErrorKind::InvalidUtf8(err),
    {
        ResolveTokenError { kind: ResolveTokenErrorKind::InvalidUtf8(err) }
    }

    /// No token was found.
    pub fn not_found() -> (res: Self)
        ensures
            res.kind is NotFound,
    {
        ResolveTokenError { kind: ResolveTokenErrorKind::NotFound }
    }

    /// The message that describes the error and the ways to provide a token.
    pub fn to_string(&self) -> (res: String)
        ensures
            res@ == resolve_token_message(),
    {
        String::from_str(
            "no GitHub token found; provide a token using one of these methods (in order of precedence):\n  1. --github-token <TOKEN>\n  2. GITHUB_TOKEN environment variable\n  3. Install and authenticate the GitHub CLI: gh auth login",
        )
    }
}

/// The token in the output of `gh auth token`, given whether the command
/// succeeded and what it printed: the output decoded as UTF-8 and trimmed.
/// A failed command, or one that printed only whitespace, finds no token;
/// output that is not UTF-8 is an error of its own.
pub fn parse_gh_output(success: bool, stdout: Vec<u8>) -> (res: Result<String, ResolveTokenError>)
    ensures
        match gh_token(success, stdout@) {
            Some(t) => res matches Ok(s) && s@ == t,
            None => res matches Err(e) && (if success && !valid_utf8(stdout@) {
                e.kind is InvalidUtf8
            } else {
                e.kind is NotFound
            }),
        },
{
    if !success {
        return Err(ResolveTokenError::not_found());
    }
    let text = match string_from_utf8(stdout) {
        Ok(text) => text,
        Err(err) => {
            return Err(ResolveTokenError::invalid_utf8(err));
        },
    };
    let chars = chars_of(text.as_str());
    let (a, b) = trim_bounds(&chars);
    if a == b {
        return Err(ResolveTokenError::not_found());
    }
    Ok(string_of(&chars, a, b))
}

/// A token that `gh` reports is not empty and has no whitespace at either end.
pub proof fn lemma_gh_token_trimmed(success: bool, stdout: Seq<u8>)
    ensures
        gh_token(success, stdout) matches Some(t) ==> t.len() > 0 && !is_whitespace(t[0])
            && !is_whitespace(t.last()),
{
    if success && valid_utf8(stdout) {
        lemma_trim_trimmed(decode_utf8(stdout));
    }
}

/// Output that is exactly a reported token reports that same token.
pub proof fn lemma_gh_token_idempotent(success: bool, stdout: Seq<u8>)
    ensures
        gh_token(success, stdout) matches Some(t) ==> gh_token(true, encode_utf8(t)) == Some(t),
{
    if let Some(t) = gh_token(success, stdout) {
        lemma_trim_trimmed(decode_utf8(stdout));
        encode_utf8_valid_utf8(t);
        encode_utf8_decode_utf8(t);
    }
}

} // verus!
