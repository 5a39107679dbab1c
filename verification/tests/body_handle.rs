//! The body handle's one-shot consumption policy.

use request_extract::body::OptionalBody;
use request_extract::failure::ParseFailure;

#[test]
fn consuming_a_ready_body_yields_its_bytes_once() {
    let mut body = OptionalBody::Ready(vec![1, 2, 3]);
    assert_eq!(body.consume().unwrap(), vec![1, 2, 3]);
    assert!(matches!(body, OptionalBody::Consumed));
    assert_eq!(body.consume().unwrap_err(), ParseFailure::BodyAlreadyConsumed);
}

#[test]
fn consuming_an_absent_body_yields_empty_then_fails() {
    let mut body = OptionalBody::Absent;
    assert_eq!(body.consume().unwrap(), Vec::<u8>::new());
    assert!(matches!(body, OptionalBody::Consumed));
    assert_eq!(body.consume().unwrap_err(), ParseFailure::BodyAlreadyConsumed);
}

#[test]
fn consuming_a_failed_body_reports_the_read_failure_once() {
    let mut body = OptionalBody::Failed(ParseFailure::BodyRead(42));
    assert_eq!(body.consume().unwrap_err(), ParseFailure::BodyRead(42));
    assert!(matches!(body, OptionalBody::Consumed));
    assert_eq!(body.consume().unwrap_err(), ParseFailure::BodyAlreadyConsumed);
}
