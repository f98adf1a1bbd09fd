use std::collections::HashMap;

use conclave::cli::notification::{notification_text, truncate_str, MAX_SUMMARY_LENGTH};
use conclave::cli::session::{require_server_url, require_user_id, resolve_mls_group_id, NotificationMethod};
use conclave::config::{canonical_username, format_error_chain, AuthResult, ClientConfig, SessionState};

#[test]
fn notification_method_defaults_to_native() {
    let m = NotificationMethod::default();
    assert_eq!(m, NotificationMethod::Native);
    assert!(m.uses_native());
    assert!(!m.uses_bell());
    assert!(NotificationMethod::Both.uses_bell());
    assert!(NotificationMethod::Both.uses_native());
    assert!(!NotificationMethod::Silent.uses_bell());
    assert!(!NotificationMethod::Silent.uses_native());
}

#[test]
fn session_requirements() {
    let mut session = SessionState::empty();
    let err = require_user_id(&session).unwrap_err();
    assert_eq!(err.message(), "not logged in -- run login first");
    assert!(require_server_url(&session).is_err());
    session.user_id = Some(42);
    session.server_url = Some("https://example.com".to_string());
    assert_eq!(require_user_id(&session).unwrap(), 42);
    assert_eq!(require_server_url(&session).unwrap(), "https://example.com");
}

#[test]
fn mls_group_lookup() {
    let mut mapping = HashMap::new();
    mapping.insert(5i64, "abcd".to_string());
    assert_eq!(resolve_mls_group_id(&mapping, 5).unwrap(), "abcd");
    let err = resolve_mls_group_id(&mapping, -7).unwrap_err();
    assert_eq!(err.message(), "unknown group '-7' -- run join first");
}

#[test]
fn truncation_counts_bytes_and_cuts_characters() {
    assert_eq!(truncate_str("hello", 5), "hello");
    assert_eq!(truncate_str("hello!", 5), "hello\u{2026}");
    // Three characters, nine bytes: over a limit of 4 bytes, cut to 3 characters.
    assert_eq!(truncate_str("日本語", 4), "日本語\u{2026}");
    assert_eq!(truncate_str("日本語", 2), "日本\u{2026}");
    assert_eq!(truncate_str("", 0), "");
}

#[test]
fn notification_text_is_clean_and_short() {
    let long = "x".repeat(300);
    let (summary, body) = notification_text(&format!("\x1b[31m{long}"), "hi\x07 there");
    assert_eq!(summary.chars().count(), MAX_SUMMARY_LENGTH + 1);
    assert!(summary.starts_with("[31mxxx"));
    assert!(summary.ends_with('\u{2026}'));
    assert_eq!(body, "hi there");
}

#[test]
fn auth_result_session() {
    let auth = AuthResult {
        server_url: "https://s".to_string(),
        token: "t0k".to_string(),
        user_id: 9,
        username: "bob".to_string(),
        key_packages_uploaded: 3,
    };
    let s = auth.session();
    assert_eq!(s.server_url.as_deref(), Some("https://s"));
    assert_eq!(s.token.as_deref(), Some("t0k"));
    assert_eq!(s.user_id, Some(9));
    assert_eq!(s.username.as_deref(), Some("bob"));
}

#[test]
fn canonical_names_and_error_chains() {
    assert_eq!(canonical_username("Bob", ""), "Bob");
    assert_eq!(canonical_username("Bob", "bob"), "bob");
    assert_eq!(format_error_chain(&[]), "");
    assert_eq!(format_error_chain(&["top".to_string()]), "top");
    assert_eq!(
        format_error_chain(&["top".to_string(), "middle".to_string(), "root".to_string()]),
        "top: middle: root"
    );
}

#[test]
fn default_config_points_at_local_server() {
    let c = ClientConfig::with_data_dir("/tmp/x".to_string());
    assert_eq!(c.server_url, "http://127.0.0.1:8443");
    assert_eq!(c.data_dir, "/tmp/x");
    assert!(!c.accept_invalid_certs);
}
