use loded::session_request::{correlate, get_path_by_unique_id, CorrelationError, ResponseCode};
use loded::unique_token::UniqueToken;

#[test]
fn reply_from_another_path_is_spoofed() {
    let expected = "/org/freedesktop/portal/desktop/request/1_5/a".to_string();
    let r = correlate(
        Some((0u32, 17u32)),
        Some("/org/freedesktop/portal/desktop/request/1_5/b".to_string()),
        &expected,
    );
    assert_eq!(r, Err(CorrelationError::SpoofedReply));
}

#[test]
fn matching_success_reply_yields_its_body() {
    let expected = "/p".to_string();
    assert_eq!(correlate(Some((0u32, "body")), Some("/p".to_string()), &expected), Ok("body"));
}

#[test]
fn rejected_failed_and_missing_replies() {
    let expected = "/p".to_string();
    assert_eq!(
        correlate(Some((1u32, ())), Some("/p".to_string()), &expected),
        Err(CorrelationError::BrokerRejected(1))
    );
    assert_eq!(
        correlate(Some((0u32, ())), None, &expected),
        Err(CorrelationError::BrokerCallFailed)
    );
    assert_eq!(
        correlate::<()>(None, Some("/p".to_string()), &expected),
        Err(CorrelationError::MalformedReply)
    );
}

#[test]
fn response_codes() {
    assert_eq!(ResponseCode::from_code(0), Some(ResponseCode::Success));
    assert_eq!(ResponseCode::from_code(2), Some(ResponseCode::UnknownEnded));
    assert_eq!(ResponseCode::from_code(3), None);
    assert_eq!(ResponseCode::Cancelled.code(), 1);
}

#[test]
fn request_path_from_unique_name() {
    let handle = UniqueToken::try_from("rdesktopd_abc".to_string()).unwrap();
    let p = get_path_by_unique_id("request", ":1.42", &handle);
    assert_eq!(p, "/org/freedesktop/portal/desktop/request/1_42/rdesktopd_abc");
    let p = get_path_by_unique_id("session", "::a.b.c", &handle);
    assert_eq!(p, "/org/freedesktop/portal/desktop/session/a_b_c/rdesktopd_abc");
}
