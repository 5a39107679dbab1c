//! The single error type an extraction can produce.

use vstd::prelude::*;

verus! {

/// A failure reported while producing a typed value from a request.
///
/// The extraction layer never invents failures of its own: every value of
/// this type originates with the collaborator that owns the request data
/// (the connection layer that reads body bytes, or the body handle itself
/// when its one-shot read right is already spent), and is propagated
/// verbatim to the caller.  The layer treats the value as opaque.
#[derive(Clone, Copy, Debug, PartialEq, Eq, Structural)]
pub enum ParseFailure {
    /// The connection layer failed to read the request body; the code is
    /// whatever that collaborator reported and is not interpreted here.
    BodyRead(u64),
    /// The body's one-shot read right was already spent when a second
    /// consumer asked for the bytes.
    BodyAlreadyConsumed,
}

} // verus!
