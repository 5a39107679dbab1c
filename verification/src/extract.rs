//! The extraction contract and the framework-native extractors.
//!
//! An extractor is a type that can produce a typed value from a request: the
//! handler's parameter types name the extractors, and the dispatch layer
//! drives them through [`FromRequest::from_request`].  The contract is fully
//! characterised by three spec members: whether extraction succeeds (and
//! with which failure it fails), the state the shared body handle is left
//! in, and what the returned value must be.

use vstd::prelude::*;

use crate::body::consume_result;
use crate::body::BodyModel;
use crate::body::OptionalBody;
use crate::failure::ParseFailure;
use crate::header::RequestHeader;
use crate::http_types::clone_method;
use crate::payload::bytes_from_vec;
use crate::payload::bytes_view;

verus! {

/// The capability "produce a typed value, or fail, from a request header
/// plus the shared body handle".
///
/// Any number of independent types may implement it; the dispatch layer is
/// generic over the capability rather than over a closed list of extractors.
/// The lifetime `'r` is the request's: an implementation may lend out parts
/// of the borrowed header for exactly that long.
pub trait FromRequest<'r>: Sized {
    type Output;

    /// Whether extraction succeeds on this request, and with which
    /// collaborator failure it fails otherwise.
    spec fn outcome(req: RequestHeader, body: BodyModel) -> Result<(), ParseFailure>;

    /// The state the shared body handle is left in once extraction returns,
    /// whether it succeeded or failed.
    spec fn body_after(req: RequestHeader, body: BodyModel) -> BodyModel;

    /// What it means for `out` to be the right value for this request.
    spec fn value_ok(req: RequestHeader, body: BodyModel, out: Self::Output) -> bool;

    /// Produces the value from the borrowed header and the shared body
    /// handle, or propagates the collaborator's failure verbatim.
    fn from_request(req: &'r RequestHeader, body: &mut OptionalBody) -> (r: Result<
        Self::Output,
        ParseFailure,
    >)
        ensures
            final(body)@ == Self::body_after(*req, old(body)@),
            match r {
                Ok(out) => Self::outcome(*req, old(body)@) == Ok::<(), ParseFailure>(())
                    && Self::value_ok(*req, old(body)@, out),
                Err(e) => Self::outcome(*req, old(body)@) == Err::<(), ParseFailure>(e),
            },
    ;
}

/// Extracting the request method: never fails, leaves the body alone, and
/// returns a copy of the header's method.
impl<'r> FromRequest<'r> for http::Method {
    type Output = http::Method;

    open spec fn outcome(req: RequestHeader, body: BodyModel) -> Result<(), ParseFailure> {
        Ok(())
    }

    open spec fn body_after(req: RequestHeader, body: BodyModel) -> BodyModel {
        body
    }

    open spec fn value_ok(req: RequestHeader, body: BodyModel, out: http::Method) -> bool {
        out == req.spec_method()
    }

    fn from_request(req: &'r RequestHeader, body: &mut OptionalBody) -> (r: Result<
        http::Method,
        ParseFailure,
    >) {
        Ok(clone_method(req.method()))
    }
}

/// Extracting a borrow of the whole header: never fails, leaves the body
/// alone, and returns the header itself.
impl<'r> FromRequest<'r> for &'r RequestHeader {
    type Output = &'r RequestHeader;

    open spec fn outcome(req: RequestHeader, body: BodyModel) -> Result<(), ParseFailure> {
        Ok(())
    }

    open spec fn body_after(req: RequestHeader, body: BodyModel) -> BodyModel {
        body
    }

    open spec fn value_ok(req: RequestHeader, body: BodyModel, out: &'r RequestHeader) -> bool {
        *out == req
    }

    fn from_request(req: &'r RequestHeader, body: &mut OptionalBody) -> (r: Result<
        &'r RequestHeader,
        ParseFailure,
    >) {
        Ok(req)
    }
}

/// Extracting a borrow of the header map: never fails, leaves the body
/// alone, and returns the header's map.
impl<'r> FromRequest<'r> for &'r http::HeaderMap {
    type Output = &'r http::HeaderMap;

    open spec fn outcome(req: RequestHeader, body: BodyModel) -> Result<(), ParseFailure> {
        Ok(())
    }

    open spec fn body_after(req: RequestHeader, body: BodyModel) -> BodyModel {
        body
    }

    open spec fn value_ok(req: RequestHeader, body: BodyModel, out: &'r http::HeaderMap) -> bool {
        *out == req.spec_headers()
    }

    fn from_request(req: &'r RequestHeader, body: &mut OptionalBody) -> (r: Result<
        &'r http::HeaderMap,
        ParseFailure,
    >) {
        Ok(req.headers())
    }
}

/// Extracting the raw body payload: performs the one-shot read and returns
/// the collected bytes, byte for byte.  It fails exactly when the handle
/// holds the connection layer's read failure or its read right is already
/// spent, and the attempt spends the read right in every case.
impl<'r> FromRequest<'r> for bytes::Bytes {
    type Output = bytes::Bytes;

    open spec fn outcome(req: RequestHeader, body: BodyModel) -> Result<(), ParseFailure> {
        match consume_result(body) {
            Ok(_) => Ok(()),
            Err(e) => Err(e),
        }
    }

    open spec fn body_after(req: RequestHeader, body: BodyModel) -> BodyModel {
        BodyModel::Consumed
    }

    open spec fn value_ok(req: RequestHeader, body: BodyModel, out: bytes::Bytes) -> bool {
        consume_result(body) == Ok::<Seq<u8>, ParseFailure>(bytes_view(out))
    }

    fn from_request(req: &'r RequestHeader, body: &mut OptionalBody) -> (r: Result<
        bytes::Bytes,
        ParseFailure,
    >) {
        match body.consume() {
            Ok(v) => Ok(bytes_from_vec(v)),
            Err(e) => Err(e),
        }
    }
}

} // verus!
