//! Reading string fields out of the JSON bodies of GitHub API replies.

use super::error::{GithubError, GithubErrorKind};
use super::{CreateForkResponse, FromResponse, GetRepositoryResponse, GithubRepositoryOwner};
use crate::text::{
    lemma_find_from_first, matches_at, chars_of, find, is_ascii, find_from_exec, index_of_from, index_of_from_exec, is_ascii_whitespace,
    is_ascii_whitespace_char, string_of,
};
use vstd::prelude::*;

verus! {

// ---------------------------------------------------------------------------
// Specifications
// ---------------------------------------------------------------------------

/// Why a string field could not be read.
#[derive(Debug, Clone, Copy, PartialEq, Eq, Structural)]
pub enum JsonFieldError {
    /// No `"field"` occurs in the text.
    Missing,
    /// The first `"field"` is not followed, after its colon and ASCII
    /// whitespace, by a string.
    NotAString,
    /// The string value has no closing quote.
    Unterminated,
}

/// `field` between double quotes, as it is looked for.
pub open spec fn quoted(field: Seq<char>) -> Seq<char> {
    seq!['"'] + field + seq!['"']
}

/// The first index `>= k` that is not ASCII whitespace (`k` itself when `k`
/// is past the end).
pub open spec fn skip_ascii_whitespace_from(s: Seq<char>, k: int) -> int
    decreases s.len() - k,
{
    if 0 <= k < s.len() && is_ascii_whitespace(s[k]) {
        skip_ascii_whitespace_from(s, k + 1)
    } else {
        k
    }
}

/// The index of the quote that closes a string whose contents start at `k`:
/// a backslash skips the character after it. An index `>= s.len()` means the
/// string is not closed.
pub open spec fn string_end_from(s: Seq<char>, k: int) -> int
    decreases s.len() + 2 - k,
{
    if k < 0 || k >= s.len() {
        k
    } else if s[k] == '"' {
        k
    } else if s[k] == '\\' {
        string_end_from(s, k + 2)
    } else {
        string_end_from(s, k + 1)
    }
}

/// The raw contents of the string value of the first occurrence of `"field"`
/// in `json`: after it, everything up to the next `:` is skipped, then ASCII
/// whitespace, then a `"` must follow; the value runs to the next unescaped `"`.
/// Escape sequences are kept as they stand.
pub open spec fn json_string_field(json: Seq<char>, field: Seq<char>) -> Result<
    Seq<char>,
    JsonFieldError,
> {
    match find(json, quoted(field)) {
        None => Err(JsonFieldError::Missing),
        Some(k) => {
            let colon = index_of_from(json, ':', k + field.len() + 2);
            let v = skip_ascii_whitespace_from(json, colon + 1);
            if v >= json.len() || json[v] != '"' {
                Err(JsonFieldError::NotAString)
            } else {
                let end = string_end_from(json, v + 1);
                if end >= json.len() {
                    Err(JsonFieldError::Unterminated)
                } else {
                    Ok(json.subrange(v + 1, end))
                }
            }
        },
    }
}

/// The description of a failure to read `field`.
pub open spec fn json_field_error_detail(err: JsonFieldError, field: Seq<char>) -> Seq<char> {
    match err {
        JsonFieldError::Missing => "field "@ + field + " not found"@,
        JsonFieldError::NotAString => "expected string value for field "@ + field,
        JsonFieldError::Unterminated => "unterminated string"@,
    }
}

/// The texts in which `field` can be looked up: those in which `"field"`
/// occurs, and those that are ASCII. A lookup of a missing field in a text
/// that holds a non-ASCII character has no result: callers test for it first
/// (`field_lookup_is_defined`), and the tool stops on such a reply.
pub open spec fn field_lookup_defined(json: Seq<char>, field: Seq<char>) -> bool {
    find(json, quoted(field)) is Some || is_ascii(json)
}

/// The `name` key.
pub open spec fn name_key() -> Seq<char> {
    seq!['n', 'a', 'm', 'e']
}

/// The `login` key.
pub open spec fn login_key() -> Seq<char> {
    seq!['l', 'o', 'g', 'i', 'n']
}

/// The name and the owner's login of a repository reply, or the failure and
/// the field that it concerns: `name` is read first, then `login`.
pub open spec fn repository_fields(response: Seq<char>) -> Result<
    (Seq<char>, Seq<char>),
    (JsonFieldError, Seq<char>),
> {
    match json_string_field(response, name_key()) {
        Err(f) => Err((f, name_key())),
        Ok(name) => match json_string_field(response, login_key()) {
            Err(f) => Err((f, login_key())),
            Ok(login) => Ok((name, login)),
        },
    }
}

/// A repository reply can be read: `name` can be looked up in it (see
/// `field_lookup_defined`), and so can `login` whenever `name` is read.
pub open spec fn repository_response_readable(response: Seq<char>) -> bool {
    &&& field_lookup_defined(response, name_key())
    &&& json_string_field(response, name_key()) is Ok ==> field_lookup_defined(
        response,
        login_key(),
    )
}

/// What reading a repository reply gives, in terms of `repository_fields`.
pub open spec fn repository_reply_matches(
    response: Seq<char>,
    res: Result<(Seq<char>, Seq<char>), GithubError>,
) -> bool {
    match repository_fields(response) {
        Ok((name, login)) => res matches Ok(v) && v == (name, login),
        Err((f, field)) => res matches Err(e) && e.kind == GithubErrorKind::ParseError
            && e.detail@ == json_field_error_detail(f, field),
    }
}

// ---------------------------------------------------------------------------
// Lemmas
// ---------------------------------------------------------------------------

/// Skipping ASCII whitespace over a run of it stops at the first other character.
proof fn lemma_skip_run(s: Seq<char>, k: int, n: int)
    requires
        0 <= k,
        0 <= n,
        k + n < s.len(),
        forall|i: int| k <= i < k + n ==> is_ascii_whitespace(#[trigger] s[i]),
        !is_ascii_whitespace(s[k + n]),
    ensures
        skip_ascii_whitespace_from(s, k) == k + n,
    decreases n,
{
    if n > 0 {
        lemma_skip_run(s, k + 1, n - 1);
    }
}

/// A string value without quotes or backslashes ends at the quote after it.
proof fn lemma_plain_string_end(s: Seq<char>, k: int, n: int)
    requires
        0 <= k,
        0 <= n,
        k + n < s.len(),
        forall|i: int| k <= i < k + n ==> #[trigger] s[i] != '"' && s[i] != '\\',
        s[k + n] == '"',
    ensures
        string_end_from(s, k) == k + n,
    decreases n,
{
    if n > 0 {
        lemma_plain_string_end(s, k + 1, n - 1);
    }
}

/// A field whose first occurrence is followed by `:`, ASCII whitespace and a
/// string without quotes or backslashes reads back as that string.
pub proof fn lemma_plain_string_field(
    prefix: Seq<char>,
    field: Seq<char>,
    space: Seq<char>,
    value: Seq<char>,
    rest: Seq<char>,
)
    requires
        forall|k: int|
            0 <= k < prefix.len() ==> !#[trigger] matches_at(
                prefix + quoted(field) + seq![':'] + space + seq!['"'] + value + seq!['"'] + rest,
                quoted(field),
                k,
            ),
        forall|i: int| 0 <= i < space.len() ==> is_ascii_whitespace(#[trigger] space[i]),
        forall|i: int| 0 <= i < value.len() ==> #[trigger] value[i] != '"' && value[i] != '\\',
    ensures
        json_string_field(
            prefix + quoted(field) + seq![':'] + space + seq!['"'] + value + seq!['"'] + rest,
            field,
        ) == Ok::<Seq<char>, JsonFieldError>(value),
{
    let json = prefix + quoted(field) + seq![':'] + space + seq!['"'] + value + seq!['"'] + rest;
    let p = prefix.len() as int;
    let q = quoted(field).len() as int;
    assert(json.subrange(p, p + q) =~= quoted(field));
    lemma_find_from_first(json, quoted(field), 0, p);
    let colon = p + q;
    assert(json[colon] == ':');
    assert(index_of_from(json, ':', p + field.len() + 2) == colon);
    let sp = space.len() as int;
    assert forall|i: int| colon + 1 <= i < colon + 1 + sp implies is_ascii_whitespace(
        #[trigger] json[i],
    ) by {
        assert(json[i] == space[i - colon - 1]);
    }
    assert(json[colon + 1 + sp] == '"');
    lemma_skip_run(json, colon + 1, sp);
    let start = colon + 2 + sp;
    let n = value.len() as int;
    assert forall|i: int| start <= i < start + n implies #[trigger] json[i] != '"' && json[i]
        != '\\' by {
        assert(json[i] == value[i - start]);
    }
    assert(json[start + n] == '"');
    lemma_plain_string_end(json, start, n);
    assert(json.subrange(start, start + n) =~= value);
}

// ---------------------------------------------------------------------------
// Executable functions
// ---------------------------------------------------------------------------

/// `'"' + field + '"'` as characters.
fn quoted_chars(field: &str) -> (res: Vec<char>)
    ensures
        res@ == quoted(field@),
{
    let f = chars_of(field);
    let mut res: Vec<char> = Vec::new();
    res.push('"');
    let mut i: usize = 0;
    while i < f.len()
        invariant
            i <= f.len(),
            res@ == seq!['"'] + f@.take(i as int),
        decreases f.len() - i,
    {
        res.push(f[i]);
        i += 1;
        assert(seq!['"'] + f@.take(i as int) =~= (seq!['"'] + f@.take((i - 1) as int)).push(
            f@[i - 1],
        ));
    }
    res.push('"');
    assert(f@.take(f.len() as int) =~= f@);
    res
}

/// The error for a failure to read `field`.
fn field_error(err: JsonFieldError, field: &str) -> (res: GithubError)
    ensures
        res.kind == GithubErrorKind::ParseError,
        res.detail@ == json_field_error_detail(err, field@),
{
    let detail = match err {
        JsonFieldError::Missing => {
            let mut d = String::from_str("field ");
            d.append(field);
            d.append(" not found");
            d
        },
        JsonFieldError::NotAString => {
            let mut d = String::from_str("expected string value for field ");
            d.append(field);
            d
        },
        JsonFieldError::Unterminated => String::from_str("unterminated string"),
    };
    GithubError::parse_error(detail)
}

/// Whether `field` can be looked up in `json` (see `field_lookup_defined`).
pub fn field_lookup_is_defined(json: &str, field: &str) -> (res: bool)
    ensures
        res == field_lookup_defined(json@, field@),
{
    let chars = chars_of(json);
    let pat = quoted_chars(field);
    if find_from_exec(&chars, &pat, 0).is_some() {
        return true;
    }
    let mut i: usize = 0;
    while i < chars.len()
        invariant
            chars@ == json@,
            i <= chars.len(),
            pat@ == quoted(field@),
            find(chars@, pat@) is None,
            forall|j: int| 0 <= j < i ==> #[trigger] chars@[j] <= '\u{7f}',
        decreases chars.len() - i,
    {
        if chars[i] > '\u{7f}' {
            assert(!(chars@[i as int] <= '\u{7f}'));
            return false;
        }
        i += 1;
    }
    true
}

/// The raw contents of the string value of `field` in `json` (see
/// `json_string_field`); a failure is a parse error whose detail names it.
pub fn extract_json_string(json: &str, field: &str) -> (res: Result<String, GithubError>)
    requires
        field_lookup_defined(json@, field@),
    ensures
        match json_string_field(json@, field@) {
            Ok(v) => res matches Ok(s) && s@ == v,
            Err(f) => res matches Err(e) && e.kind == GithubErrorKind::ParseError && e.detail@
                == json_field_error_detail(f, field@),
        },
{
    let chars = chars_of(json);
    let pat = quoted_chars(field);
    let found = find_from_exec(&chars, &pat, 0);
    let k = match found {
        None => {
            return Err(field_error(JsonFieldError::Missing, field));
        },
        Some(k) => k,
    };
    proof {
        crate::text::lemma_find_from(chars@, pat@, 0);
    }
    let len = chars.len();
    let colon = index_of_from_exec(&chars, ':', k + pat.len());
    if colon >= len {
        return Err(field_error(JsonFieldError::NotAString, field));
    }
    let mut pos = colon + 1;
    while pos < len && is_ascii_whitespace_char(chars[pos])
        invariant
            len == chars.len(),
            colon < pos <= len,
            skip_ascii_whitespace_from(chars@, colon + 1) == skip_ascii_whitespace_from(
                chars@,
                pos as int,
            ),
        decreases len - pos,
    {
        pos += 1;
    }
    if pos >= len || chars[pos] != '"' {
        return Err(field_error(JsonFieldError::NotAString, field));
    }
    let start = pos + 1;
    let ghost outcome = if string_end_from(chars@, start as int) >= len {
        Err(JsonFieldError::Unterminated)
    } else {
        Ok(chars@.subrange(start as int, string_end_from(chars@, start as int)))
    };
    assert(json_string_field(json@, field@) == outcome);
    pos = start;
    while pos < len && chars[pos] != '"'
        invariant
            len == chars.len(),
            json_string_field(json@, field@) == outcome,
            outcome == (if string_end_from(chars@, start as int) >= len {
                Err(JsonFieldError::Unterminated)
            } else {
                Ok(chars@.subrange(start as int, string_end_from(chars@, start as int)))
            }),
            start <= pos,
            string_end_from(chars@, start as int) == string_end_from(chars@, pos as int),
        decreases len - pos,
    {
        if chars[pos] == '\\' {
            if len - pos <= 2 {
                assert(string_end_from(chars@, pos + 2) == pos + 2);
                assert(string_end_from(chars@, pos as int) == pos + 2);
                return Err(field_error(JsonFieldError::Unterminated, field));
            }
            pos += 2;
        } else {
            pos += 1;
        }
    }
    if pos >= len {
        return Err(field_error(JsonFieldError::Unterminated, field));
    }
    Ok(string_of(&chars, start, pos))
}

/// Whether a repository reply can be read (see `repository_response_readable`).
pub fn repository_response_is_readable(response: &str) -> (res: bool)
    ensures
        res == repository_response_readable(response@),
{
    proof {
        reveal_strlit("name");
        reveal_strlit("login");
        assert("name"@ =~= name_key());
        assert("login"@ =~= login_key());
    }
    if !field_lookup_is_defined(response, "name") {
        return false;
    }
    match extract_json_string(response, "name") {
        Ok(_) => field_lookup_is_defined(response, "login"),
        Err(_) => true,
    }
}

impl FromResponse for GetRepositoryResponse {
    /// Reads the repository's `name`, then its owner's `login`.
    fn from_response(response: &str) -> (res: Result<Self, GithubError>)
        ensures
            repository_reply_matches(
                response@,
                match res {
                    Ok(v) => Ok((v.name@, v.owner.login@)),
                    Err(e) => Err(e),
                },
            ),
    {
        proof {
            reveal_strlit("name");
            reveal_strlit("login");
            assert("name"@ =~= name_key());
            assert("login"@ =~= login_key());
        }
        let name = match extract_json_string(response, "name") {
            Ok(name) => name,
            Err(e) => {
                return Err(e);
            },
        };
        let login = match extract_json_string(response, "login") {
            Ok(login) => login,
            Err(e) => {
                return Err(e);
            },
        };
        Ok(GetRepositoryResponse { name, owner: GithubRepositoryOwner { login } })
    }
}

impl FromResponse for CreateForkResponse {
    /// Reads the fork as a repository reply.
    fn from_response(response: &str) -> (res: Result<Self, GithubError>)
        ensures
            repository_reply_matches(
                response@,
                match res {
                    Ok(v) => Ok((v.name@, v.owner.login@)),
                    Err(e) => Err(e),
                },
            ),
    {
        match GetRepositoryResponse::from_response(response) {
            Ok(r) => Ok(CreateForkResponse { name: r.name, owner: r.owner }),
            Err(e) => Err(e),
        }
    }
}

} // verus!
