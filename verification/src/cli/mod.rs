//! The command line: what the arguments and the environment ask the tool to do.

pub mod error;

use self::error::{CliError, CliErrorKind, CliErrorSource, EnvVarError};
use crate::repo::{owner_and_name, Repo};
use crate::text::{chars_of, matches_at, matches_at_exec, same_chars, string_of};
use crate::token::ResolveTokenError;
use vstd::prelude::*;

verus! {

/// The help text.
pub const HELP_TEXT: &'static str = "\
Clone a git repository to a structured directory

Usage: git-dl [OPTIONS] <REPO>

Arguments:
  <REPO>  Repository to clone

Options:
      --fork                         Create a fork of the target repository
      --github-token <GITHUB_TOKEN>  GitHub API token with `repo` permissions [env: GITHUB_TOKEN]
      --home <HOME>                  Location of the user's home directory [env: HOME]
  -h, --help                         Print help
  -V, --version                      Print version
";

/// What the tool is asked to clone, and how.
#[derive(Debug)]
pub struct Args {
    /// The repository to clone.
    pub repo: Repo,
    /// Whether to fork the repository too.
    pub fork: bool,
    /// The GitHub API token: `--github-token`, else `GITHUB_TOKEN`, else
    /// what the GitHub CLI reports.
    pub github_token: String,
    /// The user's home directory: `--home`, else `HOME`.
    pub home: String,
}

/// What the command line asks for.
#[derive(Debug)]
pub enum CliAction {
    /// Print the help text and exit successfully.
    PrintHelp,
    /// Print the version and exit successfully.
    PrintVersion,
    /// Print the help text, then fail with the error.
    PrintHelpAndFail(CliError),
    /// Ask the GitHub CLI for a token, then read the command line again with
    /// its answer.
    AskGithubCli,
    /// Clone as the arguments say.
    Run(Args),
}

// ---------------------------------------------------------------------------
// Specifications
// ---------------------------------------------------------------------------

/// An argument that starts with `-`.
pub open spec fn is_flag(arg: Seq<char>) -> bool {
    arg.len() > 0 && arg[0] == '-'
}

/// The `--github-token` option.
pub open spec fn token_option() -> Seq<char> {
    "--github-token"@
}

/// The `--home` option.
pub open spec fn home_option() -> Seq<char> {
    "--home"@
}

/// An option that takes the next argument as its value.
pub open spec fn takes_value(arg: Seq<char>) -> bool {
    arg == token_option() || arg == home_option()
}

/// The argument at `i` is the value of the option before it: that option
/// takes a value and is not itself a value, and the argument is not a flag.
/// The program's name at `0` never is. An option followed by a flag, or by
/// nothing, has no value and is passed over.
pub open spec fn is_option_value(args: Seq<Seq<char>>, i: int) -> bool
    decreases i,
{
    if i < 2 || i >= args.len() {
        false
    } else {
        takes_value(args[i - 1]) && !is_option_value(args, i - 1) && !is_flag(args[i])
    }
}

/// The value that the argument at `i` gives the option `name`: the next
/// argument after `name` itself, where that is its value, or the rest of
/// `name=value`.
pub open spec fn option_at(args: Seq<Seq<char>>, i: int, name: Seq<char>) -> Option<Seq<char>> {
    if i < 1 || i >= args.len() || is_option_value(args, i) {
        None
    } else if args[i] == name && is_option_value(args, i + 1) {
        Some(args[i + 1])
    } else if matches_at(args[i], name + seq!['='], 0) {
        Some(args[i].skip(name.len() as int + 1))
    } else {
        None
    }
}

/// The value of the last occurrence of `name` before index `j`.
pub open spec fn last_option_value(args: Seq<Seq<char>>, name: Seq<char>, j: int) -> Option<
    Seq<char>,
>
    decreases j,
{
    if j <= 1 {
        None
    } else {
        match option_at(args, j - 1, name) {
            Some(v) => Some(v),
            None => last_option_value(args, name, j - 1),
        }
    }
}

/// The value given to `name` on the command line; the last one counts.
pub open spec fn option_value(args: Seq<Seq<char>>, name: Seq<char>) -> Option<Seq<char>> {
    last_option_value(args, name, args.len() as int)
}

/// The first index `>= i` (and `>= 1`) of an argument that is neither a flag
/// nor an option's value, or the number of arguments when there is none.
pub open spec fn first_positional_from(args: Seq<Seq<char>>, i: int) -> int
    decreases args.len() - i,
{
    if i < 1 || i >= args.len() {
        args.len() as int
    } else if !is_option_value(args, i) && !is_flag(args[i]) {
        i
    } else {
        first_positional_from(args, i + 1)
    }
}

/// Some argument after the program's name, not an option's value, is `--fork`.
pub open spec fn has_fork_flag(args: Seq<Seq<char>>) -> bool {
    exists|i: int| 1 <= i < args.len() && !is_option_value(args, i) && #[trigger] args[i] == "--fork"@
}

/// The first argument after the program's name asks for help.
pub open spec fn asks_for_help(args: Seq<Seq<char>>) -> bool {
    args.len() > 1 && (args[1] == "-h"@ || args[1] == "--help"@)
}

/// The first argument after the program's name asks for the version.
pub open spec fn asks_for_version(args: Seq<Seq<char>>) -> bool {
    args.len() > 1 && (args[1] == "-V"@ || args[1] == "--version"@)
}

/// The home directory: `--home`, else the value of `HOME`.
pub open spec fn chosen_home(args: Seq<Seq<char>>, home: Result<String, EnvVarError>) -> Result<
    Seq<char>,
    EnvVarError,
> {
    match option_value(args, home_option()) {
        Some(h) => Ok(h),
        None => match home {
            Ok(h) => Ok(h@),
            Err(v) => Err(v),
        },
    }
}

/// The token: `--github-token`, else the value of `GITHUB_TOKEN`, else what
/// the GitHub CLI reports; `None` when the GitHub CLI is needed and has not
/// been asked.
pub open spec fn chosen_token(
    args: Seq<Seq<char>>,
    token: Result<String, EnvVarError>,
    gh_token: Option<Result<String, ResolveTokenError>>,
) -> Option<Result<Seq<char>, ResolveTokenError>> {
    match option_value(args, token_option()) {
        Some(t) => Some(Ok(t)),
        None => match token {
            Ok(t) => Some(Ok(t@)),
            Err(_) => match gh_token {
                None => None,
                Some(Ok(t)) => Some(Ok(t@)),
                Some(Err(g)) => Some(Err(g)),
            },
        },
    }
}

/// `res` is what the command line `args`, the values of `HOME` and
/// `GITHUB_TOKEN` and, where it was asked, the GitHub CLI's token ask for:
/// help and version come first; with no argument the help is printed before
/// failing; otherwise the first argument after the program's name that is
/// neither a flag nor an option's value names the repository, `--fork` asks
/// for a fork, the home comes from `chosen_home` and then the token from
/// `chosen_token`, which may first ask for the GitHub CLI's token.
pub open spec fn cli_outcome(
    args: Seq<Seq<char>>,
    home: Result<String, EnvVarError>,
    token: Result<String, EnvVarError>,
    gh_token: Option<Result<String, ResolveTokenError>>,
    res: Result<CliAction, CliError>,
) -> bool {
    if asks_for_help(args) {
        res matches Ok(CliAction::PrintHelp)
    } else if asks_for_version(args) {
        res matches Ok(CliAction::PrintVersion)
    } else if args.len() < 2 {
        res matches Ok(CliAction::PrintHelpAndFail(e)) && e.kind == CliErrorKind::MissingRepository
            && e.source is None
    } else {
        let i = first_positional_from(args, 1);
        if i >= args.len() {
            res matches Err(e) && e.kind == CliErrorKind::MissingRepository && e.source is None
        } else {
            match owner_and_name(args[i]) {
                None => res matches Err(e) && e.kind == CliErrorKind::InvalidRepository
                    && (e.source matches Some(CliErrorSource::Parse(p)) && p.input@ == args[i]),
                Some((owner, name)) => match chosen_home(args, home) {
                    Err(v) => res matches Err(e) && e.kind == CliErrorKind::EnvVarNotFound
                        && e.source == Some(CliErrorSource::EnvVar(v)),
                    Ok(h) => match chosen_token(args, token, gh_token) {
                        None => res matches Ok(CliAction::AskGithubCli),
                        Some(Err(g)) => res matches Err(e) && e.kind == CliErrorKind::TokenNotFound
                            && e.source == Some(CliErrorSource::Token(g)),
                        Some(Ok(t)) => res matches Ok(CliAction::Run(a)) && a.repo.owner@ == owner
                            && a.repo.name@ == name && a.fork == has_fork_flag(args) && a.home@
                            == h && a.github_token@ == t,
                    },
                },
            }
        }
    }
}

// ---------------------------------------------------------------------------
// Executable functions
// ---------------------------------------------------------------------------

/// Whether `arg` starts with `-`.
fn starts_with_dash(arg: &str) -> (res: bool)
    ensures
        res == is_flag(arg@),
{
    let chars = chars_of(arg);
    chars.len() > 0 && chars[0] == '-'
}

/// Whether `arg` is an option that takes a value.
fn takes_value_exec(arg: &str) -> (res: bool)
    ensures
        res == takes_value(arg@),
{
    same_chars(arg, "--github-token") || same_chars(arg, "--home")
}

/// For each index, whether the argument there is an option's value.
fn option_value_positions(args: &Vec<String>) -> (res: Vec<bool>)
    ensures
        res.len() == args.len(),
        forall|j: int| 0 <= j < args.len() ==> res@[j] == is_option_value(args.deep_view(), j),
{
    let ghost a = args.deep_view();
    assert(a.len() == args.len());
    let mut res: Vec<bool> = Vec::new();
    let mut j: usize = 0;
    while j < args.len()
        invariant
            j <= args.len(),
            res.len() == j,
            a == args.deep_view(),
            a.len() == args.len(),
            forall|k: int| 0 <= k < args.len() ==> #[trigger] a[k] == args@[k]@,
            forall|k: int| 0 <= k < j ==> res@[k] == is_option_value(a, k),
        decreases args.len() - j,
    {
        let v = if j < 2 {
            false
        } else {
            let t = takes_value_exec(args[j - 1].as_str());
            assert(t == takes_value(a[j - 1]));
            assert(res@[j - 1] == is_option_value(a, j - 1));
            let dash = starts_with_dash(args[j].as_str());
            t && !res[j - 1] && !dash
        };
        assert(v == is_option_value(a, j as int));
        res.push(v);
        j += 1;
    }
    res
}

/// The value given to the option `name` on the command line (see `option_value`).
fn option_value_exec(args: &Vec<String>, values: &Vec<bool>, name: &str) -> (res: Option<String>)
    requires
        values.len() == args.len(),
        forall|j: int| 0 <= j < args.len() ==> values@[j] == is_option_value(args.deep_view(), j),
    ensures
        match option_value(args.deep_view(), name@) {
            Some(v) => res matches Some(s) && s@ == v,
            None => res is None,
        },
{
    let ghost a = args.deep_view();
    assert(a.len() == args.len());
    if args.len() < 2 {
        return None;
    }
    let mut inline = chars_of(name);
    inline.push('=');
    assert(inline@ == name@ + seq!['=']);
    let mut res: Option<String> = None;
    let mut j: usize = 1;
    while j < args.len()
        invariant
            1 <= j <= args.len(),
            values.len() == args.len(),
            a == args.deep_view(),
            a.len() == args.len(),
            forall|k: int| 0 <= k < args.len() ==> #[trigger] a[k] == args@[k]@,
            forall|k: int| 0 <= k < args.len() ==> values@[k] == is_option_value(a, k),
            inline@ == name@ + seq!['='],
            match last_option_value(a, name@, j as int) {
                Some(v) => res matches Some(s) && s@ == v,
                None => res is None,
            },
        decreases args.len() - j,
    {
        if !values[j] {
            let arg = args[j].as_str();
            if same_chars(arg, name) && j + 1 < args.len() && values[j + 1] {
                res = Some(args[j + 1].clone());
            } else {
                let chars = chars_of(arg);
                if matches_at_exec(&chars, &inline, 0) {
                    res = Some(string_of(&chars, inline.len(), chars.len()));
                    assert(chars@.subrange(inline.len() as int, chars@.len() as int) =~= a[j as int].skip(
                        name@.len() as int + 1,
                    ));
                }
            }
        }
        j += 1;
    }
    res
}

impl Args {
    /// What the command line `args` (the program's name first) asks for,
    /// given the values of the `HOME` and `GITHUB_TOKEN` variables and, once
    /// it has been asked for (`CliAction::AskGithubCli`), the outcome of asking
    /// the GitHub CLI for a token.
    pub fn parse(
        args: &Vec<String>,
        home: Result<String, EnvVarError>,
        github_token: Result<String, EnvVarError>,
        gh_token: Option<Result<String, ResolveTokenError>>,
    ) -> (res: Result<CliAction, CliError>)
        ensures
            cli_outcome(args.deep_view(), home, github_token, gh_token, res),
    {
        let ghost a = args.deep_view();
        assert(forall|j: int| 0 <= j < args.len() ==> #[trigger] a[j] == args@[j]@);
        if args.len() > 1 && (same_chars(args[1].as_str(), "-h") || same_chars(
            args[1].as_str(),
            "--help",
        )) {
            return Ok(CliAction::PrintHelp);
        }
        if args.len() > 1 && (same_chars(args[1].as_str(), "-V") || same_chars(
            args[1].as_str(),
            "--version",
        )) {
            return Ok(CliAction::PrintVersion);
        }
        if args.len() < 2 {
            return Ok(CliAction::PrintHelpAndFail(CliError::missing_repository()));
        }
        let values = option_value_positions(args);
        let mut i: usize = 1;
        while i < args.len() && (values[i] || starts_with_dash(args[i].as_str()))
            invariant
                1 <= i <= args.len(),
                values.len() == args.len(),
                a == args.deep_view(),
                a.len() == args.len(),
                forall|j: int| 0 <= j < args.len() ==> #[trigger] a[j] == args@[j]@,
                forall|j: int| 0 <= j < args.len() ==> values@[j] == is_option_value(a, j),
                first_positional_from(a, 1) == first_positional_from(a, i as int),
            decreases args.len() - i,
        {
            i += 1;
        }
        if i >= args.len() {
            return Err(CliError::missing_repository());
        }
        let repo = match Repo::from_str(args[i].as_str()) {
            Ok(repo) => repo,
            Err(p) => {
                return Err(CliError::invalid_repository(p));
            },
        };
        let mut fork = false;
        let mut j: usize = 1;
        while j < args.len()
            invariant
                1 <= j <= args.len(),
                values.len() == args.len(),
                a == args.deep_view(),
                a.len() == args.len(),
                forall|k: int| 0 <= k < args.len() ==> #[trigger] a[k] == args@[k]@,
                forall|k: int| 0 <= k < args.len() ==> values@[k] == is_option_value(a, k),
                fork == exists|k: int|
                    1 <= k < j && !is_option_value(a, k) && #[trigger] a[k] == "--fork"@,
            decreases args.len() - j,
        {
            let is_fork = !values[j] && same_chars(args[j].as_str(), "--fork");
            assert(is_fork == (!is_option_value(a, j as int) && a[j as int] == "--fork"@));
            if is_fork {
                fork = true;
            }
            j += 1;
            assert(forall|k: int|
                1 <= k < j - 1 ==> (#[trigger] a[k] == "--fork"@ ==> 1 <= k < j));
        }
        let home = match option_value_exec(args, &values, "--home") {
            Some(h) => h,
            None => match home {
                Ok(h) => h,
                Err(v) => {
                    return Err(CliError::env_var_not_found(v));
                },
            },
        };
        let github_token = match option_value_exec(args, &values, "--github-token") {
            Some(t) => t,
            None => match github_token {
                Ok(t) => t,
                Err(_) => match gh_token {
                    None => {
                        return Ok(CliAction::AskGithubCli);
                    },
                    Some(Ok(t)) => t,
                    Some(Err(g)) => {
                        return Err(CliError::token_not_found(g));
                    },
                },
            },
        };
        Ok(CliAction::Run(Args { repo, fork, github_token, home }))
    }
}

} // verus!
