use telemy::access::{is_token_valid, setup_credentials};

#[test]
fn bearer_header_with_the_right_token_is_valid() {
    assert!(is_token_valid(Some("Bearer secret"), None, "secret"));
    assert!(!is_token_valid(Some("Bearer wrong"), None, "secret"));
    assert!(!is_token_valid(Some("Bearer "), None, "secret"));
}

#[test]
fn non_bearer_header_falls_back_to_the_query_parameter() {
    assert!(is_token_valid(Some("Basic abc"), Some("secret"), "secret"));
    assert!(!is_token_valid(Some("Basic abc"), None, "secret"));
    assert!(!is_token_valid(Some("bearer secret"), None, "secret"));
}

#[test]
fn query_parameter_alone_authorizes() {
    assert!(is_token_valid(None, Some("secret"), "secret"));
    assert!(!is_token_valid(None, Some("other"), "secret"));
    assert!(!is_token_valid(None, None, "secret"));
}

#[test]
fn bare_bearer_header_matches_only_an_empty_token() {
    assert!(is_token_valid(Some("Bearer "), None, ""));
    assert!(!is_token_valid(Some("Bearer x"), None, ""));
}

#[test]
fn header_takes_precedence_over_the_query() {
    // A well-formed Bearer header is decided on its own, even when the
    // query parameter would have matched.
    assert!(!is_token_valid(Some("Bearer wrong"), Some("secret"), "secret"));
}

#[test]
fn setup_encodes_basic_credentials() {
    let (endpoint, auth) =
        setup_credentials(" https://otlp.example.net/otlp ", "123", "tok").expect("all fields set");
    assert_eq!(endpoint, "https://otlp.example.net/otlp");
    assert_eq!(auth, "Basic MTIzOnRvaw==");
}

#[test]
fn setup_rejects_blank_fields() {
    assert!(setup_credentials("", "123", "tok").is_none());
    assert!(setup_credentials("https://x", "   ", "tok").is_none());
    assert!(setup_credentials("https://x", "123", "\t").is_none());
}
