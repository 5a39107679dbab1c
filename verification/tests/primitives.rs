//! The framework-native extractors on concrete requests.

use bytes::Bytes;
use http::HeaderMap;
use http::HeaderValue;
use http::Method;
use http::Uri;
use http::Version;
use request_extract::body::OptionalBody;
use request_extract::extract::FromRequest;
use request_extract::failure::ParseFailure;
use request_extract::header::RequestHeader;

fn sample_header(method: Method) -> RequestHeader {
    let mut headers = HeaderMap::new();
    headers.insert("x-sample", HeaderValue::from_static("yes"));
    RequestHeader::new(method, Uri::from_static("/items"), Version::HTTP_11, headers)
}

#[test]
fn method_extractor_returns_the_request_method() {
    let req = sample_header(Method::GET);
    let mut body = OptionalBody::Absent;
    let got = <Method as FromRequest>::from_request(&req, &mut body).unwrap();
    assert_eq!(got, Method::GET);
    assert!(matches!(body, OptionalBody::Absent));
}

#[test]
fn method_extractor_never_fails_with_body_present() {
    let req = sample_header(Method::POST);
    let mut body = OptionalBody::Ready(b"payload".to_vec());
    let got = <Method as FromRequest>::from_request(&req, &mut body).unwrap();
    assert_eq!(got, Method::POST);
    assert!(matches!(body, OptionalBody::Ready(_)));
}

#[test]
fn header_map_extractor_returns_the_request_headers() {
    let req = sample_header(Method::GET);
    let mut body = OptionalBody::Absent;
    let got = <&HeaderMap as FromRequest>::from_request(&req, &mut body).unwrap();
    assert_eq!(got.len(), 1);
    assert_eq!(got.get("x-sample").unwrap(), "yes");
    assert_eq!(got, req.headers());
}

#[test]
fn header_ref_extractor_returns_the_whole_header() {
    let req = sample_header(Method::DELETE);
    let mut body = OptionalBody::Absent;
    let got = <&RequestHeader as FromRequest>::from_request(&req, &mut body).unwrap();
    assert_eq!(got.method(), &Method::DELETE);
    assert_eq!(got.uri(), &Uri::from_static("/items"));
    assert_eq!(got.version(), &Version::HTTP_11);
    assert_eq!(got.headers().get("x-sample").unwrap(), "yes");
}

#[test]
fn raw_bytes_extractor_yields_the_exact_body_bytes() {
    let req = sample_header(Method::PUT);
    let mut body = OptionalBody::Ready(b"hello".to_vec());
    let got = <Bytes as FromRequest>::from_request(&req, &mut body).unwrap();
    assert_eq!(got, Bytes::from_static(b"hello"));
    assert!(matches!(body, OptionalBody::Consumed));
}

#[test]
fn raw_bytes_extractor_on_absent_body_yields_empty() {
    let req = sample_header(Method::GET);
    let mut body = OptionalBody::Absent;
    let got = <Bytes as FromRequest>::from_request(&req, &mut body).unwrap();
    assert_eq!(got, Bytes::new());
    assert!(matches!(body, OptionalBody::Consumed));
}

#[test]
fn raw_bytes_extractor_propagates_the_read_failure() {
    let req = sample_header(Method::PUT);
    let mut body = OptionalBody::Failed(ParseFailure::BodyRead(7));
    let got = <Bytes as FromRequest>::from_request(&req, &mut body);
    assert_eq!(got.unwrap_err(), ParseFailure::BodyRead(7));
    assert!(matches!(body, OptionalBody::Consumed));
}

#[test]
fn raw_bytes_extractor_fails_on_a_consumed_body() {
    let req = sample_header(Method::PUT);
    let mut body = OptionalBody::Consumed;
    let got = <Bytes as FromRequest>::from_request(&req, &mut body);
    assert_eq!(got.unwrap_err(), ParseFailure::BodyAlreadyConsumed);
}
