use synapse::invalidate::{constant_time_eq, invalidate_key_handler, InvalidateBody, InvalidateOutcome};

fn body(key: &str) -> InvalidateBody {
    InvalidateBody { key: key.to_owned() }
}

#[test]
fn constant_time_eq_equal_strings() {
    assert!(constant_time_eq("secret", "secret"));
    assert!(constant_time_eq("", ""));
}

#[test]
fn constant_time_eq_different_strings() {
    assert!(!constant_time_eq("secret", "secreT"));
    assert!(!constant_time_eq("secret", "secret2"));
    assert!(!constant_time_eq("", "a"));
    assert!(!constant_time_eq("héllo", "hello"));
}

#[test]
fn correct_secret_invalidates_requested_key() {
    let outcome = invalidate_key_handler(Some("s3cret"), "s3cret", body("sk-123"));
    assert_eq!(outcome.status_code(), 204);
    match outcome {
        InvalidateOutcome::Invalidate { key } => assert_eq!(key, "sk-123"),
        InvalidateOutcome::Unauthorized => panic!("expected invalidation"),
    }
}

#[test]
fn wrong_secret_is_unauthorized() {
    let outcome = invalidate_key_handler(Some("guess"), "s3cret", body("sk-123"));
    assert!(matches!(outcome, InvalidateOutcome::Unauthorized));
    assert_eq!(outcome.status_code(), 401);
}

#[test]
fn missing_secret_is_unauthorized() {
    let outcome = invalidate_key_handler(None, "s3cret", body("sk-123"));
    assert!(matches!(outcome, InvalidateOutcome::Unauthorized));
    assert_eq!(outcome.status_code(), 401);
}
