use git_dl::github_interface::{GetRepositoryResponse, GithubRepositoryOwner};
use git_dl::repo::error::ParseError;
use git_dl::repo::{CloneError, CloneErrorKind, Repo};

fn check(input: &str, expected_owner: &str, expected_repository: &str) {
    let actual = Repo::from_str(input).unwrap();
    assert_eq!(expected_owner, actual.owner);
    assert_eq!(expected_repository, actual.name);
}

#[test]
fn should_parse_git_protocol() {
    check(
        "git@github.com:EricCrosson/git-dl.git",
        "EricCrosson",
        "git-dl",
    );
}

#[test]
fn should_parse_git_protocol_without_suffix() {
    check("git@github.com:EricCrosson/git-dl", "EricCrosson", "git-dl");
}

#[test]
fn should_parse_https_protocol() {
    check("https://EricCrosson/git-dl", "EricCrosson", "git-dl");
}

#[test]
fn should_parse_https_protocol_without_suffix() {
    check("https://EricCrosson/git-dl.git", "EricCrosson", "git-dl");
}

#[test]
fn should_parse_slang() {
    check("EricCrosson/git-dl", "EricCrosson", "git-dl");
}

#[test]
fn parse_trims_surrounding_whitespace() {
    check("  \tEricCrosson/git-dl\n", "EricCrosson", "git-dl");
    check("\u{3000}EricCrosson/git-dl\u{a0}", "EricCrosson", "git-dl");
}

#[test]
fn parse_splits_at_first_slash() {
    check("a/b/c", "a", "b/c");
    check("/name", "", "name");
    check("owner/", "owner", "");
}

#[test]
fn parse_removes_only_a_trailing_git() {
    check("owner/foo.github.io", "owner", "foo.github.io");
    check("octo/octo.github.io", "octo", "octo.github.io");
    check("git@github.com:octo/octo.github.io.git", "octo", "octo.github.io");
    check("https://https://owner/x.git.git", "owner", "x.git");
}

#[test]
fn parse_through_from_str_trait() {
    let repo: Repo = "owner/repo".parse().unwrap();
    assert_eq!(repo.owner, "owner");
    assert_eq!(repo.name, "repo");
}

#[test]
fn parse_rejects_reference_without_slash() {
    let err = Repo::from_str("just-a-name").unwrap_err();
    assert_eq!(err.input, "just-a-name");
    assert_eq!(
        err.to_string(),
        "unrecognized repository format: just-a-name"
    );
    assert!(Repo::from_str("").is_err());
    assert!(Repo::from_str("https://").is_err());
}

#[test]
fn parse_error_message() {
    let err = ParseError::invalid_format("x y");
    assert_eq!(err.input, "x y");
    assert_eq!(err.to_string(), "unrecognized repository format: x y");
}

#[test]
fn clone_url_of_repository() {
    let repo = Repo {
        owner: "EricCrosson".to_string(),
        name: "git-dl".to_string(),
    };
    assert_eq!(repo.to_string(), "git@github.com:EricCrosson/git-dl.git");
}

#[test]
fn clone_url_reads_back() {
    let repo = Repo {
        owner: "some-owner".to_string(),
        name: "my_repo.rs".to_string(),
    };
    let again = Repo::from_str(&repo.to_string()).unwrap();
    assert_eq!(again.owner, repo.owner);
    assert_eq!(again.name, repo.name);
}

#[test]
fn every_reference_form_names_the_same_repository() {
    for prefix in ["", "https://", "git@github.com:"] {
        for suffix in ["", ".git"] {
            let input = format!("{}o-1/n_2.x{}", prefix, suffix);
            check(&input, "o-1", "n_2.x");
        }
    }
}

#[test]
fn directory_is_under_workspace() {
    let repo = Repo {
        owner: "EricCrosson".to_string(),
        name: "git-dl".to_string(),
    };
    assert_eq!(
        repo.directory("/home/eric"),
        "/home/eric/workspace/EricCrosson/git-dl"
    );
    assert_eq!(
        repo.directory("/home/eric/"),
        "/home/eric/workspace/EricCrosson/git-dl"
    );
    assert_eq!(repo.directory(""), "workspace/EricCrosson/git-dl");
}

#[test]
fn directory_follows_path_join() {
    let repo = Repo {
        owner: "a".to_string(),
        name: "/abs".to_string(),
    };
    assert_eq!(repo.directory("/home/u"), "/abs");
    let expected = std::path::Path::new("/home/u")
        .join("workspace")
        .join("a")
        .join("/abs");
    assert_eq!(std::path::PathBuf::from(repo.directory("/home/u")), expected);
    let repo = Repo {
        owner: "o".to_string(),
        name: "".to_string(),
    };
    assert_eq!(repo.directory("/h"), "/h/workspace/o/");
}

#[test]
fn repo_from_repository_response() {
    let response = GetRepositoryResponse {
        name: "git-dl".to_string(),
        owner: GithubRepositoryOwner {
            login: "EricCrosson".to_string(),
        },
    };
    let repo: Repo = response.into();
    assert_eq!(repo.owner, "EricCrosson");
    assert_eq!(repo.name, "git-dl");
}

#[test]
fn clone_error_from_io_error() {
    let err: CloneError = std::io::Error::new(std::io::ErrorKind::NotFound, "no git").into();
    assert_eq!(err.to_string(), "unable to clone repository");
    match err.kind {
        CloneErrorKind::Exec { 0: e, .. } => assert_eq!(e.kind(), std::io::ErrorKind::NotFound),
    }
}
