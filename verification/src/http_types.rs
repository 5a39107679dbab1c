//! Declarations of the `http` crate's request-facet types.
//!
//! The extraction layer carries these values through without looking inside
//! them: a method is copied to the handler, the header map is lent to it.
//! Verus therefore only needs to know that the types exist.

use vstd::prelude::*;

verus! {

#[verifier::external_type_specification]
#[verifier::external_body]
pub struct ExMethod(http::Method);

#[verifier::external_type_specification]
#[verifier::external_body]
pub struct ExUri(http::Uri);

#[verifier::external_type_specification]
#[verifier::external_body]
pub struct ExVersion(http::Version);

#[verifier::external_type_specification]
#[verifier::external_body]
pub struct ExHeaderValue(http::HeaderValue);

#[verifier::external_type_specification]
#[verifier::external_body]
#[verifier::reject_recursive_types(T)]
pub struct ExHeaderMap<T>(http::HeaderMap<T>);

/// Relies on `http::Method`'s derived `Clone`, which returns a copy equal
/// to the original method.
#[verifier::external_body]
pub(crate) fn clone_method(m: &http::Method) -> (r: http::Method)
    ensures
        r == *m,
{
    m.clone()
}

} // verus!
