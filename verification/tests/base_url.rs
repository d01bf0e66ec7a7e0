use todo_client::url::{BaseUrl, UriError};

#[test]
fn missing_scheme_is_rejected() {
    let r = BaseUrl::new(None, Some("example.com".to_string()));
    assert!(matches!(r, Err(UriError::MissingScheme)));
}

#[test]
fn missing_authority_is_rejected() {
    let r = BaseUrl::new(Some("http".to_string()), None);
    assert!(matches!(r, Err(UriError::MissingAuthority)));
}

#[test]
fn missing_both_reports_the_scheme_first() {
    let r = BaseUrl::new(None, None);
    assert!(matches!(r, Err(UriError::MissingScheme)));
}

#[test]
fn complete_base_composes_uris() {
    let b = BaseUrl::new(Some("http".to_string()), Some("localhost:3000".to_string()))
        .unwrap_or_else(|_| panic!("valid base rejected"));
    assert_eq!(b.uri_for("/v1/todos"), "http://localhost:3000/v1/todos");
}

#[test]
fn uri_error_messages() {
    assert_eq!(UriError::MissingScheme.message(), "base URL has no scheme");
    assert_eq!(UriError::MissingAuthority.message(), "base URL has no authority");
}
