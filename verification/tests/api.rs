use conclave::api::normalize_server_url;

#[test]
fn test_normalize_no_scheme() {
    assert_eq!(normalize_server_url("example.com"), "https://example.com");
}

#[test]
fn test_normalize_with_port() {
    assert_eq!(
        normalize_server_url("example.com:8443"),
        "https://example.com:8443"
    );
}

#[test]
fn test_normalize_https_preserved() {
    assert_eq!(
        normalize_server_url("https://example.com"),
        "https://example.com"
    );
}

#[test]
fn test_normalize_http_preserved() {
    assert_eq!(
        normalize_server_url("http://example.com"),
        "http://example.com"
    );
}

#[test]
fn test_normalize_trailing_slash_stripped() {
    assert_eq!(
        normalize_server_url("https://example.com/"),
        "https://example.com"
    );
}

#[test]
fn test_normalize_multiple_trailing_slashes() {
    assert_eq!(
        normalize_server_url("https://example.com///"),
        "https://example.com"
    );
}

#[test]
fn test_normalize_empty_string() {
    assert_eq!(normalize_server_url(""), "");
}

#[test]
fn test_normalize_with_path() {
    assert_eq!(
        normalize_server_url("example.com/api"),
        "https://example.com/api"
    );
}
