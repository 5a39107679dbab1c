//! The request header: an immutable view of one request's metadata.

use vstd::prelude::*;

verus! {

/// The method, target, version and headers of one inbound request.
///
/// The connection layer builds one per request; extraction only borrows it,
/// and no extractor mutates it.
pub struct RequestHeader {
    method: http::Method,
    uri: http::Uri,
    version: http::Version,
    headers: http::HeaderMap,
}

impl RequestHeader {
    pub closed spec fn spec_method(&self) -> http::Method {
        self.method
    }

    pub closed spec fn spec_uri(&self) -> http::Uri {
        self.uri
    }

    pub closed spec fn spec_version(&self) -> http::Version {
        self.version
    }

    pub closed spec fn spec_headers(&self) -> http::HeaderMap {
        self.headers
    }

    pub fn new(
        method: http::Method,
        uri: http::Uri,
        version: http::Version,
        headers: http::HeaderMap,
    ) -> (r: Self)
        ensures
            r.spec_method() == method,
            r.spec_uri() == uri,
            r.spec_version() == version,
            r.spec_headers() == headers,
    {
        RequestHeader { method, uri, version, headers }
    }

    pub fn method(&self) -> (r: &http::Method)
        ensures
            *r == self.spec_method(),
    {
        &self.method
    }

    pub fn uri(&self) -> (r: &http::Uri)
        ensures
            *r == self.spec_uri(),
    {
        &self.uri
    }

    pub fn version(&self) -> (r: &http::Version)
        ensures
            *r == self.spec_version(),
    {
        &self.version
    }

    pub fn headers(&self) -> (r: &http::HeaderMap)
        ensures
            *r == self.spec_headers(),
    {
        &self.headers
    }
}

} // verus!
