use git_dl::token::{parse_gh_output, ResolveTokenError, ResolveTokenErrorKind};

#[test]
fn parse_gh_output_returns_trimmed_token() {
    let result = parse_gh_output(true, b"ghp_abc123\n".to_vec());
    assert_eq!(result.unwrap(), "ghp_abc123");
}

#[test]
fn parse_gh_output_trims_surrounding_whitespace() {
    let result = parse_gh_output(true, b"  ghp_abc123  \n".to_vec());
    assert_eq!(result.unwrap(), "ghp_abc123");
}

#[test]
fn parse_gh_output_errors_on_failed_status() {
    assert!(parse_gh_output(false, b"ghp_abc123\n".to_vec()).is_err());
}

#[test]
fn parse_gh_output_errors_on_empty_stdout() {
    assert!(parse_gh_output(true, b"".to_vec()).is_err());
}

#[test]
fn parse_gh_output_errors_on_whitespace_only_stdout() {
    assert!(parse_gh_output(true, b"   \n".to_vec()).is_err());
}

#[test]
fn failed_status_is_not_found() {
    let err = parse_gh_output(false, b"ghp_abc123\n".to_vec()).unwrap_err();
    assert!(matches!(err.kind, ResolveTokenErrorKind::NotFound));
    let err = parse_gh_output(true, b" \t\r\n".to_vec()).unwrap_err();
    assert!(matches!(err.kind, ResolveTokenErrorKind::NotFound));
}

#[test]
fn invalid_utf8_is_its_own_error() {
    let err = parse_gh_output(true, vec![0x67, 0xff, 0x68]).unwrap_err();
    assert!(matches!(err.kind, ResolveTokenErrorKind::InvalidUtf8(_)));
    let err = parse_gh_output(false, vec![0xff]).unwrap_err();
    assert!(matches!(err.kind, ResolveTokenErrorKind::NotFound));
}

#[test]
fn token_keeps_inner_whitespace_and_unicode() {
    let result = parse_gh_output(true, "\u{2003}tök en\u{85}".as_bytes().to_vec());
    assert_eq!(result.unwrap(), "tök en");
}

#[test]
fn reported_token_reports_itself() {
    let token = parse_gh_output(true, b"\n  gho_xyz \n".to_vec()).unwrap();
    let again = parse_gh_output(true, token.as_bytes().to_vec()).unwrap();
    assert_eq!(again, token);
}

#[test]
fn error_constructors_and_message() {
    let err = ResolveTokenError::not_found();
    assert!(err.to_string().starts_with("no GitHub token found; provide a token"));
    assert!(err.to_string().ends_with("3. Install and authenticate the GitHub CLI: gh auth login"));
    let err = ResolveTokenError::io(std::io::Error::new(std::io::ErrorKind::NotFound, "gh"));
    assert!(matches!(err.kind, ResolveTokenErrorKind::Io(_)));
    let bad = String::from_utf8(vec![0xff]).unwrap_err();
    let err = ResolveTokenError::invalid_utf8(bad);
    assert!(matches!(err.kind, ResolveTokenErrorKind::InvalidUtf8(_)));
}
