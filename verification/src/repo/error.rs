//! The error of parsing a repository reference.

use vstd::prelude::*;

verus! {

/// A repository reference that could not be read as `owner/name`.
#[derive(Debug, Clone)]
#[non_exhaustive]
pub struct ParseError {
    /// The text that was given.
    pub input: String,
}

/// The message of a `ParseError` for the given input.
pub open spec fn parse_error_message(input: Seq<char>) -> Seq<char> {
    "unrecognized repository format: "@ + input
}

impl ParseError {
    /// The error for `input`.
    pub fn invalid_format(input: &str) -> (res: Self)
        ensures
            res.input@ == input@,
    {
        ParseError { input: input.to_owned() }
    }

    /// The message that describes the error.
    pub fn to_string(&self) -> (res: String)
        ensures
            res@ == parse_error_message(self.input@),
    {
        let mut res = String::from_str("unrecognized repository format: ");
        res.append(self.input.as_str());
        res
    }
}

} // verus!
