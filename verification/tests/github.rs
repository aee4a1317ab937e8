use git_dl::download::{DownloadPlan, DownloadStep};
use git_dl::git_interface::error::{GitError, GitErrorKind};
use git_dl::git_interface::git::SystemGit;
use git_dl::github_interface::error::{GithubError, GithubErrorKind};
use git_dl::github_interface::github::{
    fork_from_exchange, repository_from_exchange, response_body, NativeGithubClient, USER_AGENT,
};
use git_dl::github_interface::{CreateForkResponse, GithubRepositoryOwner};
use git_dl::repo::Repo;

fn repo() -> Repo {
    Repo {
        owner: "EricCrosson".to_string(),
        name: "git-dl".to_string(),
    }
}

#[test]
fn get_repository_request_text() {
    let client = NativeGithubClient::new("tok".to_string());
    assert_eq!(
        client.get_repository_request(&repo()),
        "GET /repos/EricCrosson/git-dl HTTP/1.1\r\n\
         Host: api.github.com\r\n\
         User-Agent: EricCrosson/git-dl\r\n\
         Accept: application/vnd.github+json\r\n\
         Authorization: token tok\r\n\
         Content-Length: 0\r\n\
         Connection: close\r\n\
         \r\n"
    );
}

#[test]
fn create_fork_request_text() {
    let client = NativeGithubClient::new("tok".to_string());
    let body = r#"{"name":"git-dl","default_branch_only":true}"#;
    let expected = format!(
        "POST /repos/EricCrosson/git-dl/forks HTTP/1.1\r\n\
         Host: api.github.com\r\n\
         User-Agent: {}\r\n\
         Accept: application/vnd.github+json\r\n\
         Authorization: token tok\r\n\
         Content-Length: {}\r\n\
         Connection: close\r\n\
         \r\n\
         {}",
        USER_AGENT,
        body.len(),
        body
    );
    assert_eq!(client.create_fork_request(&repo()), expected);
    assert_eq!(body.len(), 44);
}

#[test]
fn content_length_counts_bytes() {
    let client = NativeGithubClient::new("t".to_string());
    let request = client.request("PUT", "/x", Some("é€"));
    assert!(request.contains("\r\nContent-Length: 5\r\n"));
    assert!(request.ends_with("\r\n\r\né€"));
    let long = "a".repeat(1234);
    let request = client.request("PUT", "/x", Some(&long));
    assert!(request.contains("\r\nContent-Length: 1234\r\n"));
}

#[test]
fn body_follows_first_blank_line() {
    let response = "HTTP/1.1 200 OK\r\nA: b\r\n\r\n{\"x\": 1}\r\n\r\nmore";
    assert_eq!(
        response_body(response).unwrap(),
        "{\"x\": 1}\r\n\r\nmore"
    );
    assert_eq!(response_body("\r\n\r\n").unwrap(), "");
}

#[test]
fn reply_without_blank_line_is_invalid() {
    let err = response_body("HTTP/1.1 200 OK\r\nA: b\r\n").unwrap_err();
    assert_eq!(err.kind, GithubErrorKind::InvalidResponse);
    assert_eq!(err.detail, "malformed response");
    assert_eq!(err.to_string(), "invalid response from GitHub API");
}

#[test]
fn github_error_constructors() {
    let err = GithubError::request_failed("refused".to_string());
    assert_eq!(err.kind, GithubErrorKind::RequestFailed);
    assert_eq!(err.detail, "refused");
    assert_eq!(err.to_string(), "GitHub API request failed");
    let err = GithubError::invalid_response("x".to_string());
    assert_eq!(err.kind, GithubErrorKind::InvalidResponse);
    let err = GithubError::parse_error("y".to_string());
    assert_eq!(err.kind, GithubErrorKind::ParseError);
    assert_eq!(err.to_string(), "failed to parse GitHub API response");
}

#[test]
fn git_error_constructors() {
    let err = GitError::clone_failed("no git".to_string());
    assert_eq!(err.kind, GitErrorKind::CloneFailed);
    assert_eq!(err.detail, "no git");
    assert_eq!(err.to_string(), "failed to clone git repository");
    let err = GitError::remote_add_failed("no repo".to_string());
    assert_eq!(err.kind, GitErrorKind::RemoteAddFailed);
    assert_eq!(err.to_string(), "failed to add git remote");
    let _git = SystemGit::new();
}

#[test]
fn fork_ssh_url() {
    let fork = CreateForkResponse {
        name: "git-dl".to_string(),
        owner: GithubRepositoryOwner {
            login: "someone".to_string(),
        },
    };
    assert_eq!(fork.ssh_url(), "git@github.com:someone/git-dl.git");
}

#[test]
fn repository_from_exchange_reads_body_or_keeps_error() {
    let body = r#"{"name": "git-dl", "owner": {"login": "EricCrosson"}}"#.to_string();
    let repo = repository_from_exchange(Ok(body.clone())).unwrap();
    assert_eq!(repo.name, "git-dl");
    assert_eq!(repo.owner.login, "EricCrosson");
    let fork = fork_from_exchange(Ok(body)).unwrap();
    assert_eq!(fork.name, "git-dl");
    assert_eq!(fork.owner.login, "EricCrosson");
    let err = repository_from_exchange(Err(GithubError::request_failed("down".to_string())))
        .unwrap_err();
    assert_eq!(err.kind, GithubErrorKind::RequestFailed);
    assert_eq!(err.detail, "down");
    let err = fork_from_exchange(Err(GithubError::invalid_response("x".to_string()))).unwrap_err();
    assert_eq!(err.kind, GithubErrorKind::InvalidResponse);
    let err = fork_from_exchange(Ok(r#"{"name": "r"}"#.to_string())).unwrap_err();
    assert_eq!(err.kind, GithubErrorKind::ParseError);
    assert_eq!(err.detail, "field login not found");
}

fn found() -> git_dl::github_interface::GetRepositoryResponse {
    git_dl::github_interface::GetRepositoryResponse {
        name: "git-dl".to_string(),
        owner: GithubRepositoryOwner {
            login: "EricCrosson".to_string(),
        },
    }
}

#[test]
fn download_plan_steps() {
    let plan = DownloadPlan::new(found(), "/home/u", false);
    assert_eq!(plan.directory, "/home/u/workspace/EricCrosson/git-dl");
    match plan.first_step(true) {
        DownloadStep::ReportAlreadyCloned { directory } => {
            assert_eq!(directory, "/home/u/workspace/EricCrosson/git-dl")
        }
        other => panic!("unexpected step {:?}", other),
    }
    match plan.first_step(false) {
        DownloadStep::Clone { url, directory } => {
            assert_eq!(url, "git@github.com:EricCrosson/git-dl.git");
            assert_eq!(directory, "/home/u/workspace/EricCrosson/git-dl");
        }
        other => panic!("unexpected step {:?}", other),
    }
    let plan = DownloadPlan::new(found(), "/home/u", true);
    assert!(matches!(plan.first_step(false), DownloadStep::CreateFork));
    assert!(matches!(
        plan.first_step(true),
        DownloadStep::ReportAlreadyCloned { .. }
    ));
    let created = CreateForkResponse {
        name: "git-dl".to_string(),
        owner: GithubRepositoryOwner {
            login: "me".to_string(),
        },
    };
    match plan.step_after_fork(&created) {
        DownloadStep::CloneAndAddRemote {
            url,
            directory,
            remote,
            remote_url,
        } => {
            assert_eq!(url, "git@github.com:EricCrosson/git-dl.git");
            assert_eq!(directory, "/home/u/workspace/EricCrosson/git-dl");
            assert_eq!(remote, "fork");
            assert_eq!(remote_url, "git@github.com:me/git-dl.git");
        }
        other => panic!("unexpected step {:?}", other),
    }
}
