//! Tuple composition: ordered dispatch, fail-fast, one-shot body sharing.

use bytes::Bytes;
use http::HeaderMap;
use http::HeaderValue;
use http::Method;
use http::Uri;
use http::Version;
use request_extract::body::OptionalBody;
use request_extract::extract::FromRequest;
use request_extract::failure::ParseFailure;
use request_extract::header::RequestHeader;

fn put_request() -> RequestHeader {
    let mut headers = HeaderMap::new();
    headers.insert("content-type", HeaderValue::from_static("text/plain"));
    RequestHeader::new(Method::PUT, Uri::from_static("/doc"), Version::HTTP_11, headers)
}

#[test]
fn zero_arity_tuple_always_succeeds_and_leaves_the_body_alone() {
    let req = put_request();

    let mut body = OptionalBody::Absent;
    <() as FromRequest>::from_request(&req, &mut body).unwrap();
    assert!(matches!(body, OptionalBody::Absent));

    let mut body = OptionalBody::Ready(b"kept".to_vec());
    <() as FromRequest>::from_request(&req, &mut body).unwrap();
    assert!(matches!(body, OptionalBody::Ready(ref v) if v == b"kept"));

    let mut body = OptionalBody::Consumed;
    <() as FromRequest>::from_request(&req, &mut body).unwrap();
    assert!(matches!(body, OptionalBody::Consumed));
}

#[test]
fn two_parameter_handler_gets_method_and_body_bytes() {
    let req = put_request();
    let mut body = OptionalBody::Ready(b"hello".to_vec());
    let (method, payload) =
        <(Method, Bytes) as FromRequest>::from_request(&req, &mut body).unwrap();
    assert_eq!(method, Method::PUT);
    assert_eq!(payload, Bytes::from_static(b"hello"));
}

#[test]
fn every_arity_of_always_succeeding_extractors_succeeds_in_order() {
    let req = put_request();
    let mut body = OptionalBody::Ready(b"untouched".to_vec());

    let (a,) = <(Method,) as FromRequest>::from_request(&req, &mut body).unwrap();
    assert_eq!(a, Method::PUT);

    let (a, b) = <(Method, &HeaderMap) as FromRequest>::from_request(&req, &mut body).unwrap();
    assert_eq!(a, Method::PUT);
    assert_eq!(b, req.headers());

    let (a, b, c) =
        <(Method, &HeaderMap, &RequestHeader) as FromRequest>::from_request(&req, &mut body)
            .unwrap();
    assert_eq!(a, Method::PUT);
    assert_eq!(b, req.headers());
    assert_eq!(c.method(), &Method::PUT);

    let (a, b, c, d) =
        <(Method, Method, Method, Method) as FromRequest>::from_request(&req, &mut body).unwrap();
    assert_eq!((a, b, c, d), (Method::PUT, Method::PUT, Method::PUT, Method::PUT));

    let got = <(
        Method,
        Method,
        Method,
        Method,
        Method,
        Method,
        Method,
        Method,
        Method,
        Method,
        Method,
        Method,
    ) as FromRequest>::from_request(&req, &mut body)
        .unwrap();
    assert_eq!(got.0, Method::PUT);
    assert_eq!(got.5, Method::PUT);
    assert_eq!(got.11, Method::PUT);

    // None of the components above consumes the body: the handle is intact.
    assert!(matches!(body, OptionalBody::Ready(ref v) if v == b"untouched"));
}

#[test]
fn first_failure_wins_and_later_components_never_run() {
    let req = put_request();
    // The read failure waits on the handle: the first raw-bytes component
    // fails with it.  Were the second component still run, it would find
    // the handle spent and the composite would report BodyAlreadyConsumed
    // instead — the reported failure shows it never ran.
    let mut body = OptionalBody::Failed(ParseFailure::BodyRead(3));
    let err = <(Bytes, Bytes) as FromRequest>::from_request(&req, &mut body).unwrap_err();
    assert_eq!(err, ParseFailure::BodyRead(3));
    assert!(matches!(body, OptionalBody::Consumed));
}

#[test]
fn prefix_succeeds_then_failing_component_aborts_the_composite() {
    let req = put_request();
    let mut body = OptionalBody::Failed(ParseFailure::BodyRead(9));
    let err = <(Method, Bytes, Method) as FromRequest>::from_request(&req, &mut body).unwrap_err();
    assert_eq!(err, ParseFailure::BodyRead(9));
}

#[test]
fn second_body_consumer_in_one_tuple_observes_the_spent_handle() {
    let req = put_request();
    let mut body = OptionalBody::Ready(b"once".to_vec());
    let err = <(Bytes, Bytes) as FromRequest>::from_request(&req, &mut body).unwrap_err();
    assert_eq!(err, ParseFailure::BodyAlreadyConsumed);
}

#[test]
fn mixed_tuple_consumes_the_body_exactly_once() {
    let req = put_request();
    let mut body = OptionalBody::Ready(b"data".to_vec());
    let (m, payload, h) =
        <(Method, Bytes, &HeaderMap) as FromRequest>::from_request(&req, &mut body).unwrap();
    assert_eq!(m, Method::PUT);
    assert_eq!(payload, Bytes::from_static(b"data"));
    assert_eq!(h, req.headers());
    assert!(matches!(body, OptionalBody::Consumed));
}
