use bakpiarun::admin_auth::{admin_auth_decision, constant_time_eq, AdminAccess};

#[test]
fn equal_tokens_match() {
    assert!(constant_time_eq(b"s3cret-token", b"s3cret-token"));
}

#[test]
fn different_tokens_do_not_match() {
    assert!(!constant_time_eq(b"s3cret-token", b"s3cret-toketX"));
    assert!(!constant_time_eq(b"s3cret-token", b"wrong"));
}

#[test]
fn different_lengths_do_not_match() {
    assert!(!constant_time_eq(b"abc", b"abcd"));
    assert!(!constant_time_eq(b"", b"x"));
}

#[test]
fn empty_equals_empty() {
    assert!(constant_time_eq(b"", b""));
}

#[test]
fn admin_routes_closed_without_token() {
    assert_eq!(admin_auth_decision("", None, Some("anything")), AdminAccess::Unavailable);
    assert_eq!(admin_auth_decision("", Some("0"), None), AdminAccess::Unavailable);
    assert_eq!(admin_auth_decision("", Some("yes"), None), AdminAccess::Unavailable);
}

#[test]
fn admin_routes_open_with_insecure_opt_in() {
    assert_eq!(admin_auth_decision("", Some("1"), None), AdminAccess::Allow);
    assert_eq!(admin_auth_decision("", Some("TRUE"), None), AdminAccess::Allow);
    assert_eq!(admin_auth_decision("", Some("True"), None), AdminAccess::Allow);
}

#[test]
fn admin_token_must_match() {
    assert_eq!(admin_auth_decision("tok", None, Some("tok")), AdminAccess::Allow);
    assert_eq!(admin_auth_decision("tok", Some("1"), Some("tok2")), AdminAccess::Unauthorized);
    assert_eq!(admin_auth_decision("tok", None, None), AdminAccess::Unauthorized);
}
