//! Tests for the Revolt response classification and the status decisions.

use lure::revolt::{
    capture_original_status, classify_status, edit_for_status, parse_retry_after_ms,
    status_text_of, RevoltAPIError, UserInfo, UserStatusEdit, UserStatusInfo,
};

#[test]
fn ok_status_classifies_as_success() {
    assert!(matches!(classify_status(200, None), Ok(())));
}

#[test]
fn unauthorized_status_is_an_authentication_failure() {
    assert_eq!(
        classify_status(401, None),
        Err(RevoltAPIError::AuthenticationFailed)
    );
}

#[test]
fn rate_limit_status_carries_the_reported_wait() {
    assert_eq!(
        classify_status(429, Some("1500")),
        Err(RevoltAPIError::RateLimitExceeded(1500))
    );
}

#[test]
fn rate_limit_without_usable_header_waits_zero() {
    assert_eq!(
        classify_status(429, None),
        Err(RevoltAPIError::RateLimitExceeded(0))
    );
    assert_eq!(
        classify_status(429, Some("soon")),
        Err(RevoltAPIError::RateLimitExceeded(0))
    );
    assert_eq!(
        classify_status(429, Some("")),
        Err(RevoltAPIError::RateLimitExceeded(0))
    );
}

#[test]
fn other_statuses_are_unknown_errors() {
    assert_eq!(classify_status(500, None), Err(RevoltAPIError::Unknown(500)));
    assert_eq!(classify_status(404, None), Err(RevoltAPIError::Unknown(404)));
}

#[test]
fn retry_after_parses_digits_and_defaults_to_zero() {
    assert_eq!(parse_retry_after_ms(Some("250")), 250);
    assert_eq!(parse_retry_after_ms(Some("0")), 0);
    assert_eq!(parse_retry_after_ms(Some("2.5")), 0);
    assert_eq!(parse_retry_after_ms(Some("99999999999999999999")), 0);
    assert_eq!(parse_retry_after_ms(None), 0);
}

#[test]
fn status_text_is_read_through_both_options() {
    let user = UserInfo {
        status: Some(UserStatusInfo {
            text: Some("Away".to_string()),
        }),
    };
    assert_eq!(status_text_of(user), Some("Away".to_string()));
    let user = UserInfo {
        status: Some(UserStatusInfo { text: None }),
    };
    assert_eq!(status_text_of(user), None);
    let user = UserInfo { status: None };
    assert_eq!(status_text_of(user), None);
}

#[test]
fn capture_keeps_a_fetched_status_and_drops_failures() {
    assert_eq!(
        capture_original_status(Ok(Some("Away".to_string()))),
        Some("Away".to_string())
    );
    assert_eq!(capture_original_status(Ok(None)), None);
    assert_eq!(
        capture_original_status(Err(RevoltAPIError::Unknown(500))),
        None
    );
}

#[test]
fn status_edits_set_or_remove_the_text() {
    match edit_for_status(Some("hello".to_string())) {
        UserStatusEdit::SetText(text) => assert_eq!(text, "hello"),
        other => panic!("unexpected edit {other:?}"),
    }
    assert!(matches!(edit_for_status(None), UserStatusEdit::RemoveText));
}
