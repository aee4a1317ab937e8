use git_dl::github_interface::error::GithubErrorKind;
use git_dl::github_interface::response_parser::{
    extract_json_string, field_lookup_is_defined, repository_response_is_readable,
};
use git_dl::github_interface::{CreateForkResponse, FromResponse, GetRepositoryResponse};

#[test]
fn test_extract_json_string() {
    let input = r#"{"name": "test-repo", "owner": {"login": "test-user"}}"#;
    assert_eq!(extract_json_string(input, "name").unwrap(), "test-repo");
    assert_eq!(extract_json_string(input, "login").unwrap(), "test-user");
}

#[test]
fn test_repository_response() {
    let input = r#"{"name": "test-repo", "owner": {"login": "test-user"}}"#;
    let response = GetRepositoryResponse::from_response(input).unwrap();
    assert_eq!(response.name, "test-repo");
    assert_eq!(response.owner.login, "test-user");
}

#[test]
fn test_fork_response() {
    let input = r#"{"name": "test-repo", "owner": {"login": "test-user"}}"#;
    let response = CreateForkResponse::from_response(input).unwrap();
    assert_eq!(response.name, "test-repo");
    assert_eq!(response.owner.login, "test-user");
}

#[test]
fn test_error_on_invalid_json() {
    let input = r#"{"name": "test-repo", "owner": {"login": }}"#;
    assert!(GetRepositoryResponse::from_response(input).is_err());
}

#[test]
fn test_error_on_missing_fields() {
    let input = r#"{"name": "test-repo"}"#;
    assert!(GetRepositoryResponse::from_response(input).is_err());
}

#[test]
fn missing_field_error() {
    let err = extract_json_string(r#"{"a": "b"}"#, "name").unwrap_err();
    assert_eq!(err.kind, GithubErrorKind::ParseError);
    assert_eq!(err.detail, "field name not found");
    assert_eq!(err.to_string(), "failed to parse GitHub API response");
}

#[test]
fn non_string_field_error() {
    let err = extract_json_string(r#"{"count": 3}"#, "count").unwrap_err();
    assert_eq!(err.kind, GithubErrorKind::ParseError);
    assert_eq!(err.detail, "expected string value for field count");
    let err = extract_json_string(r#"{"count"}"#, "count").unwrap_err();
    assert_eq!(err.detail, "expected string value for field count");
}

#[test]
fn unterminated_string_error() {
    let err = extract_json_string(r#"{"name": "abc"#, "name").unwrap_err();
    assert_eq!(err.kind, GithubErrorKind::ParseError);
    assert_eq!(err.detail, "unterminated string");
    let err = extract_json_string("{\"name\": \"abc\\", "name").unwrap_err();
    assert_eq!(err.detail, "unterminated string");
    let err = extract_json_string("{\"name\": \"abc\\\"", "name").unwrap_err();
    assert_eq!(err.detail, "unterminated string");
}

#[test]
fn escapes_are_kept_raw() {
    let input = r#"{"name": "a\"b\\c", "x": 1}"#;
    assert_eq!(extract_json_string(input, "name").unwrap(), r#"a\"b\\c"#);
}

#[test]
fn skips_to_colon_and_whitespace() {
    let input = "{\"name\" junk :\t\r\n \"v\"}";
    assert_eq!(extract_json_string(input, "name").unwrap(), "v");
    let input = "{\"name\":\u{0b}\"v\"}";
    assert!(extract_json_string(input, "name").is_err());
}

#[test]
fn first_occurrence_wins() {
    let input = r#"{"owner": {"name": "inner"}, "name": "outer"}"#;
    assert_eq!(extract_json_string(input, "name").unwrap(), "inner");
}

#[test]
fn non_ascii_values_are_read() {
    let input = r#"{"name": "héllo wörld", "owner": {"login": "ünï"}}"#;
    let response = GetRepositoryResponse::from_response(input).unwrap();
    assert_eq!(response.name, "héllo wörld");
    assert_eq!(response.owner.login, "ünï");
}

#[test]
fn lookup_definedness() {
    assert!(field_lookup_is_defined(r#"{"name": "é"}"#, "name"));
    assert!(field_lookup_is_defined(r#"{"a": "b"}"#, "name"));
    assert!(!field_lookup_is_defined(r#"{"a": "é"}"#, "name"));
}

#[test]
fn name_error_comes_before_login() {
    let err = GetRepositoryResponse::from_response(r#"{"owner": {"login": "u"}}"#).unwrap_err();
    assert_eq!(err.detail, "field name not found");
    let err = GetRepositoryResponse::from_response(r#"{"name": "r"}"#).unwrap_err();
    assert_eq!(err.detail, "field login not found");
}

#[test]
fn repository_reply_readability() {
    assert!(repository_response_is_readable(r#"{"name": "r", "owner": {"login": "é"}}"#));
    assert!(repository_response_is_readable(r#"{"name": 1}"#));
    assert!(repository_response_is_readable(r#"{"x": "y"}"#));
    assert!(!repository_response_is_readable(r#"{"name": "é"}"#));
    assert!(!repository_response_is_readable(r#"{"x": "é"}"#));
}
