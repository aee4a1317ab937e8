//! Types and functions of the standard library that vstd does not specify.

use vstd::prelude::*;
use vstd::utf8::*;

verus! {

/// Declares `std::io::Error`, which the library carries without looking into it.
#[verifier::external_type_specification]
#[verifier::external_body]
pub struct ExIoError(std::io::Error);

/// Declares `std::string::FromUtf8Error`, which the library carries without
/// looking into it.
#[verifier::external_type_specification]
#[verifier::external_body]
pub struct ExFromUtf8Error(std::string::FromUtf8Error);

/// Calls `String::from_utf8`. The contract takes it to succeed exactly when
/// the bytes are valid UTF-8 and then to hold the characters they encode; of
/// the error it states nothing.
#[verifier::external_body]
pub(crate) fn string_from_utf8(bytes: Vec<u8>) -> (res: Result<String, std::string::FromUtf8Error>)
    ensures
        res is Ok <==> valid_utf8(bytes@),
        res matches Ok(s) ==> s@ == decode_utf8(bytes@),
{
    String::from_utf8(bytes)
}

} // verus!
