//! A GitHub repository: how a reference to it is read, where it is cloned
//! from and where it is placed on disk.

pub mod error;

use crate::text::{
    chars_of, index_of_from, index_of_from_exec, is_whitespace, lemma_index_of_from,
    lemma_remove_all_leading_match, lemma_remove_all_no_match, lemma_trim_end_take,
    lemma_trim_start_skip, lemma_trim_unchanged, matches_at, matches_at_exec, push_chars,
    remove_all, remove_all_exec, string_of, sub_vec, trim, trim_bounds, trim_start,
};
use crate::github_interface::GetRepositoryResponse;
use error::ParseError;
use vstd::prelude::*;
use vstd::std_specs::convert::FromSpecImpl;

verus! {

// ---------------------------------------------------------------------------
// Specifications
// ---------------------------------------------------------------------------

/// The `https://` scheme that a reference may start with.
pub open spec fn https_scheme() -> Seq<char> {
    seq!['h', 't', 't', 'p', 's', ':', '/', '/']
}

/// The `git@github.com:` prefix of an SSH clone URL.
pub open spec fn ssh_prefix() -> Seq<char> {
    seq!['g', 'i', 't', '@', 'g', 'i', 't', 'h', 'u', 'b', '.', 'c', 'o', 'm', ':']
}

/// The `.git` suffix of a clone URL.
pub open spec fn git_suffix() -> Seq<char> {
    seq!['.', 'g', 'i', 't']
}

/// `s` ends with `suffix`.
pub open spec fn ends_with(s: Seq<char>, suffix: Seq<char>) -> bool {
    s.len() >= suffix.len() && s.skip(s.len() - suffix.len()) == suffix
}

/// `s` without one trailing `.git`, where it has one.
pub open spec fn strip_git_suffix(s: Seq<char>) -> Seq<char> {
    if ends_with(s, git_suffix()) {
        s.take(s.len() - 4)
    } else {
        s
    }
}

/// A reference with surrounding whitespace trimmed, every `https://` and
/// `git@github.com:` removed, in that order, and then a trailing `.git`.
pub open spec fn shorten(s: Seq<char>) -> Seq<char> {
    strip_git_suffix(remove_all(remove_all(trim(s), https_scheme()), ssh_prefix()))
}

/// The owner and name that a reference denotes: the shortened reference split
/// at its first `/`; `None` when it holds no `/`.
pub open spec fn owner_and_name(s: Seq<char>) -> Option<(Seq<char>, Seq<char>)> {
    let t = shorten(s);
    let k = index_of_from(t, '/', 0);
    if k < t.len() {
        Some((t.take(k), t.skip(k + 1)))
    } else {
        None
    }
}

/// The SSH URL that a repository is cloned from.
pub open spec fn clone_url(owner: Seq<char>, name: Seq<char>) -> Seq<char> {
    ssh_prefix() + owner + seq!['/'] + name + git_suffix()
}

/// `base` joined with `part` by the rules of `Path::join` on Unix: an absolute
/// `part` replaces `base`; otherwise a `/` separates them unless `base` is
/// empty or already ends with one.
pub open spec fn join_path(base: Seq<char>, part: Seq<char>) -> Seq<char> {
    if part.len() > 0 && part[0] == '/' {
        part
    } else if base.len() == 0 || base.last() == '/' {
        base + part
    } else {
        base + seq!['/'] + part
    }
}

/// The `workspace` directory name.
pub open spec fn workspace_dir() -> Seq<char> {
    seq!['w', 'o', 'r', 'k', 's', 'p', 'a', 'c', 'e']
}

/// The directory a repository is cloned into: `home/workspace/owner/name`.
pub open spec fn repo_directory(home: Seq<char>, owner: Seq<char>, name: Seq<char>) -> Seq<char> {
    join_path(join_path(join_path(home, workspace_dir()), owner), name)
}

// ---------------------------------------------------------------------------
// The repository
// ---------------------------------------------------------------------------

/// A repository on GitHub, named by its owner and its name.
#[derive(Clone, Debug)]
pub struct Repo {
    /// The user or organisation that owns the repository.
    pub owner: String,
    /// The repository's name.
    pub name: String,
}

fn https_scheme_chars() -> (res: Vec<char>)
    ensures
        res@ == https_scheme(),
{
    vec!['h', 't', 't', 'p', 's', ':', '/', '/']
}

fn ssh_prefix_chars() -> (res: Vec<char>)
    ensures
        res@ == ssh_prefix(),
{
    vec!['g', 'i', 't', '@', 'g', 'i', 't', 'h', 'u', 'b', '.', 'c', 'o', 'm', ':']
}

fn git_suffix_chars() -> (res: Vec<char>)
    ensures
        res@ == git_suffix(),
{
    vec!['.', 'g', 'i', 't']
}

/// Appends `part` to `path` by the rules of `Path::join` on Unix.
fn join_onto(path: &mut Vec<char>, part: &Vec<char>)
    ensures
        final(path)@ == join_path(old(path)@, part@),
{
    if part.len() > 0 && part[0] == '/' {
        path.clear();
    } else if path.len() > 0 && path[path.len() - 1] != '/' {
        path.push('/');
    }
    let ghost before = path@;
    let mut i: usize = 0;
    while i < part.len()
        invariant
            i <= part.len(),
            path@ == before + part@.take(i as int),
        decreases part.len() - i,
    {
        path.push(part[i]);
        i += 1;
        assert(before + part@.take(i as int) =~= (before + part@.take((i - 1) as int)).push(
            part@[i - 1],
        ));
    }
    assert(part@.take(part.len() as int) =~= part@);
    proof {
        if part.len() > 0 && part@[0] == '/' {
            assert(before =~= Seq::<char>::empty());
            assert(before + part@ =~= part@);
        }
    }
}

impl Repo {
    /// Reads a repository reference such as `owner/name`,
    /// `https://owner/name`, `git@github.com:owner/name.git`: surrounding
    /// whitespace is trimmed, every `https://` and `git@github.com:` is
    /// removed, then a trailing `.git`, and the rest is split at its first `/`.
    pub fn from_str(s: &str) -> (res: Result<Repo, ParseError>)
        ensures
            match res {
                Ok(repo) => owner_and_name(s@) == Some((repo.owner@, repo.name@)),
                Err(e) => owner_and_name(s@) is None && e.input@ == s@,
            },
    {
        let chars = chars_of(s);
        let (a, b) = trim_bounds(&chars);
        let trimmed = sub_vec(&chars, a, b);
        let t1 = remove_all_exec(&trimmed, &https_scheme_chars());
        let t2 = remove_all_exec(&t1, &ssh_prefix_chars());
        let n2 = t2.len();
        let end = if n2 >= 4 && matches_at_exec(&t2, &git_suffix_chars(), n2 - 4) {
            assert(t2@.subrange(n2 - 4, n2 as int) =~= t2@.skip(n2 - 4));
            n2 - 4
        } else {
            proof {
                if ends_with(t2@, git_suffix()) {
                    assert(t2@.subrange(n2 - 4, n2 as int) =~= t2@.skip(n2 - 4));
                }
            }
            n2
        };
        let t3 = sub_vec(&t2, 0, end);
        assert(t3@ =~= strip_git_suffix(t2@));
        let k = index_of_from_exec(&t3, '/', 0);
        if k < t3.len() {
            let owner = string_of(&t3, 0, k);
            let name = string_of(&t3, k + 1, t3.len());
            assert(t3@.subrange(0, k as int) =~= t3@.take(k as int));
            assert(t3@.subrange(k + 1, t3@.len() as int) =~= t3@.skip(k + 1));
            Ok(Repo { owner, name })
        } else {
            Err(ParseError::invalid_format(s))
        }
    }

    /// The SSH URL the repository is cloned from:
    /// `git@github.com:{owner}/{name}.git`.
    pub fn to_string(&self) -> (res: String)
        ensures
            res@ == clone_url(self.owner@, self.name@),
    {
        let prefix = ssh_prefix_chars();
        let suffix = git_suffix_chars();
        let mut res = String::new();
        push_chars(&mut res, &prefix, 0, prefix.len());
        res.append(self.owner.as_str());
        let slash = vec!['/'];
        push_chars(&mut res, &slash, 0, 1);
        res.append(self.name.as_str());
        push_chars(&mut res, &suffix, 0, suffix.len());
        assert(prefix@.subrange(0, prefix.len() as int) =~= prefix@);
        assert(suffix@.subrange(0, suffix.len() as int) =~= suffix@);
        assert(slash@.subrange(0, 1) =~= seq!['/']);
        assert(res@ =~= clone_url(self.owner@, self.name@));
        res
    }

    /// The directory the repository is cloned into, `home/workspace/owner/name`,
    /// joined by the rules of `Path::join` on Unix.
    pub fn directory(&self, home: &str) -> (res: String)
        ensures
            res@ == repo_directory(home@, self.owner@, self.name@),
    {
        let mut path = chars_of(home);
        let workspace = vec!['w', 'o', 'r', 'k', 's', 'p', 'a', 'c', 'e'];
        join_onto(&mut path, &workspace);
        join_onto(&mut path, &chars_of(self.owner.as_str()));
        join_onto(&mut path, &chars_of(self.name.as_str()));
        string_of(&path, 0, path.len())
    }
}

impl From<GetRepositoryResponse> for Repo {
    /// The repository that a GitHub reply describes.
    fn from(value: GetRepositoryResponse) -> (res: Self) {
        Repo { owner: value.owner.login, name: value.name }
    }
}

impl FromSpecImpl<GetRepositoryResponse> for Repo {
    open spec fn obeys_from_spec() -> bool {
        true
    }

    open spec fn from_spec(value: GetRepositoryResponse) -> Self {
        Repo { owner: value.owner.login, name: value.name }
    }
}

/// `git clone` could not be run.
#[derive(Debug)]
#[non_exhaustive]
pub struct CloneError {
    /// What went wrong.
    pub kind: CloneErrorKind,
}

/// The cause of a failed clone.
#[derive(Debug)]
pub enum CloneErrorKind {
    /// The command could not be executed.
    #[non_exhaustive]
    Exec(std::io::Error),
}

impl CloneError {
    /// The message that describes the error.
    pub fn to_string(&self) -> (res: String)
        ensures
            res@ == "unable to clone repository"@,
    {
        String::from_str("unable to clone repository")
    }
}

impl From<std::io::Error> for CloneError {
    /// A clone that failed to execute for the reason `err`.
    fn from(err: std::io::Error) -> (res: Self) {
        CloneError { kind: CloneErrorKind::Exec(err) }
    }
}

impl FromSpecImpl<std::io::Error> for CloneError {
    open spec fn obeys_from_spec() -> bool {
        true
    }

    open spec fn from_spec(err: std::io::Error) -> Self {
        CloneError { kind: CloneErrorKind::Exec(err) }
    }
}

impl std::str::FromStr for Repo {
    type Err = ParseError;

    /// Reads a repository reference as `Repo::from_str` does.
    fn from_str(s: &str) -> (res: Result<Repo, ParseError>)
        ensures
            match res {
                Ok(repo) => owner_and_name(s@) == Some((repo.owner@, repo.name@)),
                Err(e) => owner_and_name(s@) is None && e.input@ == s@,
            },
    {
        Repo::from_str(s)
    }
}

} // verus!

verus! {

// ---------------------------------------------------------------------------
// Laws
// ---------------------------------------------------------------------------

/// A character GitHub allows in owner and repository names: ASCII letters and
/// digits, `-`, `_` and `.`.
pub open spec fn is_name_char(c: char) -> bool {
    ||| ('a' <= c && c <= 'z')
    ||| ('A' <= c && c <= 'Z')
    ||| ('0' <= c && c <= '9')
    ||| c == '-'
    ||| c == '_'
    ||| c == '.'
}

/// Every character of `s` is allowed in a GitHub name.
pub open spec fn is_name(s: Seq<char>) -> bool {
    forall|i: int| 0 <= i < s.len() ==> is_name_char(#[trigger] s[i])
}

/// No occurrence of `pat` starts anywhere in `s`.
pub open spec fn occurs_nowhere(s: Seq<char>, pat: Seq<char>) -> bool {
    forall|k: int| !#[trigger] matches_at(s, pat, k)
}

/// A pattern holding a character that `s` lacks occurs nowhere in `s`.
proof fn lemma_missing_char(s: Seq<char>, pat: Seq<char>, m: int)
    requires
        0 <= m < pat.len(),
        forall|i: int| 0 <= i < s.len() ==> s[i] != pat[m],
    ensures
        occurs_nowhere(s, pat),
{
    assert forall|k: int| !#[trigger] matches_at(s, pat, k) by {
        if matches_at(s, pat, k) {
            assert(s.subrange(k, k + pat.len())[m] == pat[m]);
            assert(s[k + m] == pat[m]);
        }
    }
}

/// `w1 + s + w2` trims to what `s` trims to, for all-whitespace `w1`, `w2`.
proof fn lemma_trim_surrounding(w1: Seq<char>, s: Seq<char>, w2: Seq<char>)
    requires
        forall|i: int| 0 <= i < w1.len() ==> is_whitespace(#[trigger] w1[i]),
        forall|i: int| 0 <= i < w2.len() ==> is_whitespace(#[trigger] w2[i]),
    ensures
        trim(w1 + s + w2) == trim(s),
    decreases s.len(),
{
    let x = w1 + s + w2;
    lemma_trim_start_skip(x, w1.len() as int);
    assert(x.skip(w1.len() as int) =~= s + w2);
    if s.len() > 0 && is_whitespace(s[0]) {
        let t = s.drop_first();
        lemma_trim_surrounding(w1.push(s[0]), t, w2);
        assert(w1.push(s[0]) + t + w2 =~= x);
        assert(trim_start(s) == trim_start(t));
    } else if s.len() == 0 {
        lemma_trim_start_skip(w2, w2.len() as int);
        assert(w2.skip(w2.len() as int) =~= Seq::<char>::empty());
        assert(s + w2 =~= w2);
        assert(trim_start(s) == s);
    } else {
        assert(trim_start(s + w2) == s + w2);
        assert(trim_start(s) == s);
        lemma_trim_end_take(s + w2, s.len() as int);
        assert((s + w2).take(s.len() as int) =~= s);
    }
}

/// Surrounding whitespace does not change what a reference denotes.
pub proof fn lemma_reference_ignores_surrounding_whitespace(
    w1: Seq<char>,
    s: Seq<char>,
    w2: Seq<char>,
)
    requires
        forall|i: int| 0 <= i < w1.len() ==> is_whitespace(#[trigger] w1[i]),
        forall|i: int| 0 <= i < w2.len() ==> is_whitespace(#[trigger] w2[i]),
    ensures
        owner_and_name(w1 + s + w2) == owner_and_name(s),
{
    lemma_trim_surrounding(w1, s, w2);
}

/// The characters of `owner/name` followed by an optional `.git`: name
/// characters and `/`.
proof fn lemma_reference_chars(owner: Seq<char>, name: Seq<char>, suffix: Seq<char>)
    requires
        is_name(owner),
        is_name(name),
        suffix == Seq::<char>::empty() || suffix == git_suffix(),
    ensures
        forall|i: int|
            0 <= i < (owner + seq!['/'] + name + suffix).len() ==> is_name_char(
                #[trigger] (owner + seq!['/'] + name + suffix)[i],
            ) || (owner + seq!['/'] + name + suffix)[i] == '/',
{
    let core = owner + seq!['/'] + name;
    let tail = core + suffix;
    assert forall|i: int| 0 <= i < tail.len() implies is_name_char(#[trigger] tail[i]) || tail[i]
        == '/' by {
        if i < owner.len() {
            assert(tail[i] == owner[i]);
        } else if i > owner.len() && i < core.len() {
            assert(tail[i] == name[i - owner.len() - 1]);
        } else if i >= core.len() {
            assert(tail[i] == suffix[i - core.len()]);
        }
    }
}

/// Removing `https://` from a reference in one of the accepted forms: only a
/// leading `https://` goes.
proof fn lemma_remove_scheme(prefix: Seq<char>, tail: Seq<char>)
    requires
        forall|i: int| 0 <= i < tail.len() ==> is_name_char(#[trigger] tail[i]) || tail[i] == '/',
        prefix == Seq::<char>::empty() || prefix == https_scheme() || prefix == ssh_prefix(),
    ensures
        remove_all(prefix + tail, https_scheme()) == (if prefix == ssh_prefix() {
            prefix + tail
        } else {
            tail
        }),
{
    let x = prefix + tail;
    lemma_missing_char(tail, https_scheme(), 5);
    lemma_remove_all_no_match(tail, https_scheme());
    if prefix == https_scheme() {
        assert(x.subrange(0, 8) =~= https_scheme());
        lemma_remove_all_leading_match(x, https_scheme());
        assert(x.skip(8) =~= tail);
    } else if prefix == ssh_prefix() {
        assert forall|k: int| !#[trigger] matches_at(x, https_scheme(), k) by {
            if matches_at(x, https_scheme(), k) {
                let m = x.subrange(k, k + 8);
                assert(m[5] == ':');
                assert(x[k + 5] == ':');
                if k + 5 >= 15 {
                    assert(x[k + 5] == tail[k + 5 - 15]);
                } else {
                    assert(x[k + 5] == ssh_prefix()[k + 5]);
                    assert(k == 9);
                    assert(m[0] == x[9]);
                }
            }
        }
        lemma_remove_all_no_match(x, https_scheme());
    } else {
        assert(x =~= tail);
    }
}

/// Removing `git@github.com:` from what is left: only a leading one goes.
proof fn lemma_remove_ssh_prefix(prefix: Seq<char>, tail: Seq<char>)
    requires
        forall|i: int| 0 <= i < tail.len() ==> is_name_char(#[trigger] tail[i]) || tail[i] == '/',
        prefix == Seq::<char>::empty() || prefix == ssh_prefix(),
    ensures
        remove_all(prefix + tail, ssh_prefix()) == tail,
{
    lemma_missing_char(tail, ssh_prefix(), 3);
    lemma_remove_all_no_match(tail, ssh_prefix());
    let x = prefix + tail;
    if prefix == ssh_prefix() {
        assert(x.subrange(0, 15) =~= ssh_prefix());
        lemma_remove_all_leading_match(x, ssh_prefix());
        assert(x.skip(15) =~= tail);
    } else {
        assert(x =~= tail);
    }
}

/// Stripping the `.git` suffix from `owner/name` followed by an optional
/// `.git`: the suffix goes, and nothing else.
proof fn lemma_strip_git_suffix(core: Seq<char>, suffix: Seq<char>)
    requires
        suffix == git_suffix() || (suffix == Seq::<char>::empty() && !ends_with(
            core,
            git_suffix(),
        )),
    ensures
        strip_git_suffix(core + suffix) == core,
{
    let t = core + suffix;
    if suffix == git_suffix() {
        assert(t.skip(t.len() - 4) =~= git_suffix());
        assert(t.take(t.len() - 4) =~= core);
    } else {
        assert(t =~= core);
    }
}

/// Each form in which a GitHub repository may be named (`owner/name`,
/// `https://owner/name`, `git@github.com:owner/name`, each with or without
/// `.git`) denotes that repository; without the `.git`, the name must not
/// itself end with `.git`.
pub proof fn lemma_reference_forms(
    owner: Seq<char>,
    name: Seq<char>,
    prefix: Seq<char>,
    suffix: Seq<char>,
)
    requires
        is_name(owner),
        is_name(name),
        prefix == Seq::<char>::empty() || prefix == https_scheme() || prefix == ssh_prefix(),
        suffix == git_suffix() || (suffix == Seq::<char>::empty() && !ends_with(
            owner + seq!['/'] + name,
            git_suffix(),
        )),
    ensures
        owner_and_name(prefix + owner + seq!['/'] + name + suffix) == Some((owner, name)),
{
    let core = owner + seq!['/'] + name;
    let tail = core + suffix;
    let x = prefix + tail;
    assert(x =~= prefix + owner + seq!['/'] + name + suffix);
    lemma_reference_chars(owner, name, suffix);
    assert(tail =~= owner + seq!['/'] + name + suffix);
    // Nothing to trim.
    assert(x.len() > 0);
    if prefix.len() > 0 {
        assert(x[0] == prefix[0]);
    } else {
        assert(x[0] == tail[0]);
    }
    assert(x.last() == tail.last());
    lemma_trim_unchanged(x);
    lemma_remove_scheme(prefix, tail);
    let p2 = if prefix == ssh_prefix() {
        prefix
    } else {
        Seq::<char>::empty()
    };
    assert(remove_all(x, https_scheme()) =~= p2 + tail);
    lemma_remove_ssh_prefix(p2, tail);
    lemma_strip_git_suffix(core, suffix);
    assert(shorten(x) == core);
    // The first `/` ends the owner.
    lemma_index_of_from(core, '/', 0);
    assert(core[owner.len() as int] == '/');
    assert(index_of_from(core, '/', 0) == owner.len()) by {
        let k = index_of_from(core, '/', 0);
        if k < owner.len() {
            assert(core[k] == owner[k]);
        }
    }
    assert(core.take(owner.len() as int) =~= owner);
    assert(core.skip(owner.len() as int + 1) =~= name);
}

/// Reading back the clone URL of a repository gives the repository.
pub proof fn lemma_clone_url_roundtrip(owner: Seq<char>, name: Seq<char>)
    requires
        is_name(owner),
        is_name(name),
    ensures
        owner_and_name(clone_url(owner, name)) == Some((owner, name)),
{
    lemma_reference_forms(owner, name, ssh_prefix(), git_suffix());
}

/// The directory of a repository is `{home}/workspace/{owner}/{name}` when
/// `home` does not end with `/`, the owner is not empty and neither starts nor
/// ends with `/`, and the name does not start with `/`.
pub proof fn lemma_directory_layout(home: Seq<char>, owner: Seq<char>, name: Seq<char>)
    requires
        home.len() > 0,
        home.last() != '/',
        owner.len() > 0,
        owner[0] != '/',
        owner.last() != '/',
        name.len() == 0 || name[0] != '/',
    ensures
        repo_directory(home, owner, name) == home + seq!['/'] + workspace_dir() + seq!['/'] + owner
            + seq!['/'] + name,
{
    let a = join_path(home, workspace_dir());
    assert(a =~= home + seq!['/'] + workspace_dir());
    assert(a.last() == 'e');
    let b = join_path(a, owner);
    assert(b =~= a + seq!['/'] + owner);
    assert(b.last() == owner.last());
    assert(join_path(b, name) =~= b + seq!['/'] + name);
}

} // verus!
