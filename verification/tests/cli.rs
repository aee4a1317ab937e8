use git_dl::cli::error::{CliError, CliErrorKind, CliErrorSource, EnvVarError};
use git_dl::cli::{Args, CliAction, HELP_TEXT};
use git_dl::repo::error::ParseError;
use git_dl::token::{ResolveTokenError, ResolveTokenErrorKind};

fn test_new(repo_str: &str, fork: bool) -> Result<Args, CliError> {
    Ok(Args {
        repo: repo_str.parse()?,
        fork,
        github_token: "test-token".to_string(),
        home: "/home/test".to_string(),
    })
}

fn argv(args: &[&str]) -> Vec<String> {
    args.iter().map(|a| a.to_string()).collect()
}

fn no_gh() -> Option<Result<String, ResolveTokenError>> {
    Some(Err(ResolveTokenError::not_found()))
}

/// Parses with HOME and GITHUB_TOKEN set and no GitHub CLI token.
fn parse(args: &[&str]) -> Result<CliAction, CliError> {
    Args::parse(
        &argv(args),
        Ok("/home/test".to_string()),
        Ok("test-token".to_string()),
        no_gh(),
    )
}

fn run(result: Result<CliAction, CliError>) -> Args {
    match result.unwrap() {
        CliAction::Run(args) => args,
        other => panic!("unexpected action {:?}", other),
    }
}

#[test]
fn test_parse_basic_args() {
    let args = test_new("owner/repo", false).unwrap();
    assert_eq!(args.repo.owner, "owner");
    assert_eq!(args.repo.name, "repo");
    assert!(!args.fork);
    assert_eq!(args.github_token, "test-token");
    assert_eq!(args.home, "/home/test");
}

#[test]
fn test_parse_with_fork_flag() {
    let args = test_new("owner/repo", true).unwrap();
    assert!(args.fork);
    assert_eq!(args.repo.owner, "owner");
    assert_eq!(args.repo.name, "repo");
}

#[test]
fn test_missing_repo() {
    assert!(test_new("", false).is_err());
}

#[test]
fn parse_runs_with_repository() {
    let args = run(parse(&["git-dl", "owner/repo"]));
    assert_eq!(args.repo.owner, "owner");
    assert_eq!(args.repo.name, "repo");
    assert!(!args.fork);
    assert_eq!(args.github_token, "test-token");
    assert_eq!(args.home, "/home/test");
}

#[test]
fn parse_fork_flag_anywhere() {
    let args = run(parse(&["git-dl", "--fork", "owner/repo"]));
    assert!(args.fork);
    assert_eq!(args.repo.owner, "owner");
    assert!(run(parse(&["git-dl", "owner/repo", "--fork"])).fork);
    // A flag is never an option's value.
    let args = run(parse(&["git-dl", "--home", "--fork", "owner/repo"]));
    assert!(args.fork);
    assert_eq!(args.home, "/home/test");
    assert_eq!(args.repo.name, "repo");
}

#[test]
fn github_token_option_takes_precedence() {
    let args = run(parse(&["git-dl", "--github-token", "T", "owner/repo"]));
    assert_eq!(args.github_token, "T");
    assert_eq!(args.repo.owner, "owner");
    assert_eq!(args.repo.name, "repo");
    assert_eq!(args.home, "/home/test");
    let args = run(parse(&["git-dl", "owner/repo", "--github-token=U"]));
    assert_eq!(args.github_token, "U");
    // The last occurrence counts.
    let args = run(parse(&["git-dl", "--github-token", "A", "o/r", "--github-token", "B"]));
    assert_eq!(args.github_token, "B");
}

#[test]
fn home_option_takes_precedence() {
    let args = run(parse(&["git-dl", "--home", "/x", "owner/repo"]));
    assert_eq!(args.home, "/x");
    assert_eq!(args.repo.owner, "owner");
    assert_eq!(args.repo.name, "repo");
    let args = run(Args::parse(
        &argv(&["git-dl", "--home=/y", "owner/repo"]),
        Err(EnvVarError::NotPresent),
        Ok("t".to_string()),
        no_gh(),
    ));
    assert_eq!(args.home, "/y");
}

#[test]
fn option_without_value_is_passed_over() {
    let args = run(parse(&["git-dl", "owner/repo", "--home"]));
    assert_eq!(args.home, "/home/test");
    let args = run(parse(&["git-dl", "owner/repo", "--github-token", "--fork"]));
    assert_eq!(args.github_token, "test-token");
    assert!(args.fork);
    // In `--home --home` the second is a flag, not a value.
    let args = run(parse(&["git-dl", "o/r", "--home", "--home"]));
    assert_eq!(args.home, "/home/test");
    let args = run(parse(&["git-dl", "o/r", "--home", "-"]));
    assert_eq!(args.home, "/home/test");
}

#[test]
fn github_cli_is_asked_only_when_needed() {
    let result = Args::parse(
        &argv(&["git-dl", "owner/repo"]),
        Ok("/h".to_string()),
        Err(EnvVarError::NotPresent),
        None,
    );
    assert!(matches!(result, Ok(CliAction::AskGithubCli)));
    let args = run(Args::parse(
        &argv(&["git-dl", "owner/repo"]),
        Ok("/h".to_string()),
        Ok("E".to_string()),
        None,
    ));
    assert_eq!(args.github_token, "E");
    let args = run(Args::parse(
        &argv(&["git-dl", "--github-token", "T", "owner/repo"]),
        Ok("/h".to_string()),
        Err(EnvVarError::NotPresent),
        None,
    ));
    assert_eq!(args.github_token, "T");
}

#[test]
fn token_falls_back_to_github_cli() {
    let args = run(Args::parse(
        &argv(&["git-dl", "owner/repo"]),
        Ok("/h".to_string()),
        Err(EnvVarError::NotPresent),
        Some(Ok("ghp_abc123".to_string())),
    ));
    assert_eq!(args.github_token, "ghp_abc123");
    let args = run(Args::parse(
        &argv(&["git-dl", "owner/repo"]),
        Ok("/h".to_string()),
        Ok("E".to_string()),
        Some(Ok("ghp_abc123".to_string())),
    ));
    assert_eq!(args.github_token, "E");
}

#[test]
fn token_error_only_when_every_source_fails() {
    let err = Args::parse(
        &argv(&["git-dl", "owner/repo"]),
        Ok("/h".to_string()),
        Err(EnvVarError::NotPresent),
        no_gh(),
    )
    .unwrap_err();
    assert_eq!(err.kind, CliErrorKind::TokenNotFound);
    assert_eq!(err.to_string(), "GitHub token not found");
    match err.source {
        Some(CliErrorSource::Token(e)) => {
            assert!(matches!(e.kind, ResolveTokenErrorKind::NotFound))
        }
        other => panic!("unexpected source {:?}", other),
    }
}

#[test]
fn parse_help_and_version() {
    for flag in ["-h", "--help"] {
        assert!(matches!(
            parse(&["git-dl", flag, "owner/repo"]),
            Ok(CliAction::PrintHelp)
        ));
    }
    for flag in ["-V", "--version"] {
        assert!(matches!(parse(&["git-dl", flag]), Ok(CliAction::PrintVersion)));
    }
    // Help is asked for only by the first argument, even without HOME.
    assert!(matches!(
        Args::parse(
            &argv(&["git-dl", "--help"]),
            Err(EnvVarError::NotPresent),
            Err(EnvVarError::NotPresent),
            no_gh()
        ),
        Ok(CliAction::PrintHelp)
    ));
    assert!(HELP_TEXT.starts_with("Clone a git repository to a structured directory"));
}

#[test]
fn parse_without_arguments_prints_help_and_fails() {
    match parse(&["git-dl"]).unwrap() {
        CliAction::PrintHelpAndFail(e) => {
            assert_eq!(e.kind, CliErrorKind::MissingRepository);
            assert!(e.source.is_none());
            assert_eq!(e.to_string(), "repository argument is required");
        }
        other => panic!("unexpected action {:?}", other),
    }
}

#[test]
fn parse_only_flags_is_missing_repository() {
    let err = parse(&["git-dl", "--fork", "-x"]).unwrap_err();
    assert_eq!(err.kind, CliErrorKind::MissingRepository);
    let err = parse(&["git-dl", "--home", "owner/repo"]).unwrap_err();
    assert_eq!(err.kind, CliErrorKind::MissingRepository);
}

#[test]
fn parse_invalid_repository() {
    let err = parse(&["git-dl", "noslash"]).unwrap_err();
    assert_eq!(err.kind, CliErrorKind::InvalidRepository);
    assert_eq!(err.to_string(), "invalid repository format");
    match err.source {
        Some(CliErrorSource::Parse(p)) => assert_eq!(p.input, "noslash"),
        other => panic!("unexpected source {:?}", other),
    }
}

#[test]
fn parse_missing_home() {
    let err = Args::parse(
        &argv(&["git-dl", "o/r"]),
        Err(EnvVarError::NotPresent),
        Ok("t".to_string()),
        no_gh(),
    )
    .unwrap_err();
    assert_eq!(err.kind, CliErrorKind::EnvVarNotFound);
    assert_eq!(err.to_string(), "environment variable not found");
    assert!(matches!(
        err.source,
        Some(CliErrorSource::EnvVar(EnvVarError::NotPresent))
    ));
    // The home is settled before the token.
    let err = Args::parse(
        &argv(&["git-dl", "o/r"]),
        Err(EnvVarError::NotUnicode("home".to_string())),
        Err(EnvVarError::NotPresent),
        no_gh(),
    )
    .unwrap_err();
    assert!(matches!(
        err.source,
        Some(CliErrorSource::EnvVar(EnvVarError::NotUnicode(_)))
    ));
}

#[test]
fn cli_error_conversions() {
    let err: CliError = ParseError::invalid_format("bad").into();
    assert_eq!(err.kind, CliErrorKind::InvalidRepository);
    let err: CliError = EnvVarError::NotPresent.into();
    assert_eq!(err.kind, CliErrorKind::EnvVarNotFound);
    let err = CliError::missing_repository();
    assert_eq!(err.kind, CliErrorKind::MissingRepository);
    let err = CliError::token_not_found(ResolveTokenError::not_found());
    assert_eq!(err.kind, CliErrorKind::TokenNotFound);
}
