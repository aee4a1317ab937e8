//! The GitHub client: the HTTP requests it sends to `api.github.com` and how
//! it takes the body out of a reply. Sending and receiving is left to the
//! caller.

use crate::github_interface::error::{GithubError, GithubErrorKind};
use crate::github_interface::response_parser::{repository_reply_matches, repository_response_readable};
use crate::github_interface::{CreateForkResponse, FromResponse, GetRepositoryResponse};
use crate::repo::Repo;
use crate::text::{chars_of, decimal, find, find_from_exec, matches_at, push_decimal, string_of};
use vstd::prelude::*;
use vstd::utf8::encode_utf8;

verus! {

/// The `User-Agent` the client sends.
pub const USER_AGENT: &'static str = "EricCrosson/git-dl";

/// The text of an HTTP/1.1 request to `api.github.com` with the given method,
/// path, token and body (`Content-Length` is the body's length in UTF-8 bytes).
pub open spec fn http_request(
    method: Seq<char>,
    path: Seq<char>,
    token: Seq<char>,
    body: Seq<char>,
) -> Seq<char> {
    method + " "@ + path + " HTTP/1.1\r\nHost: api.github.com\r\nUser-Agent: "@ + USER_AGENT@
        + "\r\nAccept: application/vnd.github+json\r\nAuthorization: token "@ + token
        + "\r\nContent-Length: "@ + decimal(encode_utf8(body).len()) + "\r\nConnection: close\r\n\r\n"@
        + body
}

/// The blank line that ends the head of an HTTP message.
pub open spec fn blank_line() -> Seq<char> {
    seq!['\r', '\n', '\r', '\n']
}

/// The body of an HTTP reply: what follows its first blank line; `None` when
/// it has none.
pub open spec fn reply_body(response: Seq<char>) -> Option<Seq<char>> {
    match find(response, blank_line()) {
        Some(k) => Some(response.skip(k + 4)),
        None => None,
    }
}

/// The body of a reply is what follows the blank line that ends its head,
/// when no earlier blank line starts in the head.
pub proof fn lemma_reply_body(head: Seq<char>, body: Seq<char>)
    requires
        forall|k: int|
            0 <= k < head.len() ==> !#[trigger] matches_at(head + blank_line() + body, blank_line(), k),
    ensures
        reply_body(head + blank_line() + body) == Some(body),
{
    let r = head + blank_line() + body;
    let h = head.len() as int;
    assert(r.subrange(h, h + 4) =~= blank_line());
    crate::text::lemma_find_from_first(r, blank_line(), 0, h);
    assert(r.skip(h + 4) =~= body);
}

/// The API path of a repository: `/repos/{owner}/{name}`.
pub open spec fn repository_path(owner: Seq<char>, name: Seq<char>) -> Seq<char> {
    "/repos/"@ + owner + "/"@ + name
}

/// The API path that forks a repository: `/repos/{owner}/{name}/forks`.
pub open spec fn fork_path(owner: Seq<char>, name: Seq<char>) -> Seq<char> {
    repository_path(owner, name) + "/forks"@
}

/// The body of a fork request: `{"name":"{name}","default_branch_only":true}`,
/// the name inserted as it stands.
pub open spec fn fork_body(name: Seq<char>) -> Seq<char> {
    "{\"name\":\""@ + name + "\",\"default_branch_only\":true}"@
}

/// A client of the GitHub API that authenticates with a token.
pub struct NativeGithubClient {
    token: String,
}

impl NativeGithubClient {
    /// The token the client authenticates with.
    pub closed spec fn token(&self) -> Seq<char> {
        self.token@
    }

    /// A client that authenticates with `token`.
    pub fn new(token: String) -> (res: Self)
        ensures
            res.token() == token@,
    {
        NativeGithubClient { token }
    }

    /// The request with `method`, `path` and, where there is one, `body`.
    pub fn request(&self, method: &str, path: &str, body: Option<&str>) -> (res: String)
        ensures
            res@ == http_request(
                method@,
                path@,
                self.token(),
                match body {
                    Some(b) => b@,
                    None => Seq::<char>::empty(),
                },
            ),
    {
        let text: &str = match body {
            Some(b) => b,
            None => "",
        };
        proof {
            reveal_strlit("");
        }
        let ghost body_chars = match body {
            Some(b) => b@,
            None => Seq::<char>::empty(),
        };
        assert(text@ == body_chars);
        let content_length: usize = text.as_bytes().len();
        assert(content_length == encode_utf8(body_chars).len());
        let mut res = String::from_str(method);
        res.append(" ");
        res.append(path);
        res.append(" HTTP/1.1\r\nHost: api.github.com\r\nUser-Agent: ");
        res.append(USER_AGENT);
        res.append("\r\nAccept: application/vnd.github+json\r\nAuthorization: token ");
        res.append(self.token.as_str());
        res.append("\r\nContent-Length: ");
        push_decimal(&mut res, content_length);
        res.append("\r\nConnection: close\r\n\r\n");
        res.append(text);
        res
    }

    /// The request for `repo`'s details.
    pub fn get_repository_request(&self, repo: &Repo) -> (res: String)
        ensures
            res@ == http_request(
                "GET"@,
                repository_path(repo.owner@, repo.name@),
                self.token(),
                Seq::<char>::empty(),
            ),
    {
        let path = repository_path_of(repo);
        self.request("GET", path.as_str(), None)
    }

    /// The request that forks `repo`.
    pub fn create_fork_request(&self, repo: &Repo) -> (res: String)
        ensures
            res@ == http_request(
                "POST"@,
                fork_path(repo.owner@, repo.name@),
                self.token(),
                fork_body(repo.name@),
            ),
    {
        let mut path = repository_path_of(repo);
        path.append("/forks");
        let mut body = String::from_str("{\"name\":\"");
        body.append(repo.name.as_str());
        body.append("\",\"default_branch_only\":true}");
        self.request("POST", path.as_str(), Some(body.as_str()))
    }
}

/// `/repos/{owner}/{name}` for `repo`.
fn repository_path_of(repo: &Repo) -> (res: String)
    ensures
        res@ == repository_path(repo.owner@, repo.name@),
{
    let mut path = String::from_str("/repos/");
    path.append(repo.owner.as_str());
    path.append("/");
    path.append(repo.name.as_str());
    path
}

/// The body of the HTTP reply `response`: what follows its first blank line.
/// A reply without a blank line is an invalid response.
pub fn response_body(response: &str) -> (res: Result<String, GithubError>)
    ensures
        match reply_body(response@) {
            Some(body) => res matches Ok(b) && b@ == body,
            None => res matches Err(e) && e.kind == GithubErrorKind::InvalidResponse && e.detail@
                == "malformed response"@,
        },
{
    let chars = chars_of(response);
    let sep = vec!['\r', '\n', '\r', '\n'];
    assert(sep@ =~= blank_line());
    match find_from_exec(&chars, &sep, 0) {
        Some(k) => {
            assert(sep@ =~= blank_line());
            proof {
                crate::text::lemma_find_from(chars@, sep@, 0);
                assert(matches_at(chars@, sep@, k as int));
                assert(sep@.len() == 4);
                assert(k + 4 <= chars@.len());
            }
            assert(chars@.subrange(k + 4, chars@.len() as int) =~= chars@.skip(k + 4));
            let n = chars.len();
            Ok(string_of(&chars, k + 4, n))
        },
        None => Err(GithubError::invalid_response(String::from_str("malformed response"))),
    }
}

/// What getting a repository gives for the outcome of its exchange (the
/// body of the reply, or the error that stopped it): the body read as a
/// repository reply, or the error unchanged.
pub fn repository_from_exchange(exchange: Result<String, GithubError>) -> (res: Result<
    GetRepositoryResponse,
    GithubError,
>)
    requires
        exchange matches Ok(body) ==> repository_response_readable(body@),
    ensures
        match exchange {
            Ok(body) => repository_reply_matches(
                body@,
                match res {
                    Ok(v) => Ok((v.name@, v.owner.login@)),
                    Err(e) => Err(e),
                },
            ),
            Err(e) => res matches Err(r) && r == e,
        },
{
    match exchange {
        Ok(body) => GetRepositoryResponse::from_response(body.as_str()),
        Err(e) => Err(e),
    }
}

/// What forking a repository gives for the outcome of its exchange (the
/// body of the reply, or the error that stopped it): the body read as a fork
/// reply, or the error unchanged.
pub fn fork_from_exchange(exchange: Result<String, GithubError>) -> (res: Result<
    CreateForkResponse,
    GithubError,
>)
    requires
        exchange matches Ok(body) ==> repository_response_readable(body@),
    ensures
        match exchange {
            Ok(body) => repository_reply_matches(
                body@,
                match res {
                    Ok(v) => Ok((v.name@, v.owner.login@)),
                    Err(e) => Err(e),
                },
            ),
            Err(e) => res matches Err(r) && r == e,
        },
{
    match exchange {
        Ok(body) => CreateForkResponse::from_response(body.as_str()),
        Err(e) => Err(e),
    }
}

} // verus!
