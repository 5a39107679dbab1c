//! Typed request extraction for an HTTP server framework.
//!
//! A handler declares, through its parameter types, which facets of an
//! incoming request it needs (the method, the header map, the raw body
//! bytes, or an ordered tuple of such pieces); the [`extract::FromRequest`]
//! capability produces those values before the handler runs.  The request
//! body is a one-shot resource: it may be consumed at most once, by at most
//! one of the composed extractors, and the composition dispatches its
//! components strictly left to right so that consumption order is
//! deterministic.

pub mod body;
pub mod extract;
pub mod failure;
pub mod header;
pub mod http_types;
pub mod laws;
pub mod payload;
pub mod tuples;
