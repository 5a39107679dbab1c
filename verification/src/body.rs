//! The request body handle: an optional, one-shot byte payload.
//!
//! A request may or may not carry a body, and when it does the bytes may be
//! read at most once.  The connection layer collects the byte stream and
//! hands this layer an [`OptionalBody`] describing what it found: no body at
//! all, the collected bytes, or the failure the read produced.  Extractors
//! that run over the same request share one handle — the composite extractor
//! dispatches its components strictly in order and lends each of them the
//! same handle in turn — so the first component that consumes it spends the
//! read right for all that follow.
//!
//! Consumption policy (deterministic, and exercised by the test suite): a
//! request without a body yields an empty payload on the first read; every
//! read attempt, whatever its outcome, spends the read right; a read after
//! the right is spent fails with [`ParseFailure::BodyAlreadyConsumed`].

use vstd::prelude::*;

use crate::failure::ParseFailure;

verus! {

/// The abstract state of a body handle.
#[verifier::ext_equal]
pub enum BodyModel {
    /// The request carries no body.
    Absent,
    /// The request carries a body whose bytes were collected and not yet
    /// handed to any extractor.
    Ready(Seq<u8>),
    /// The connection layer failed to read the body; the failure waits for
    /// whichever extractor asks for the bytes.
    Failed(ParseFailure),
    /// The one-shot read right was spent by an earlier consumer.
    Consumed,
}

/// What one read attempt on a handle in state `m` returns.
pub open spec fn consume_result(m: BodyModel) -> Result<Seq<u8>, ParseFailure> {
    match m {
        BodyModel::Absent => Ok(Seq::empty()),
        BodyModel::Ready(data) => Ok(data),
        BodyModel::Failed(e) => Err(e),
        BodyModel::Consumed => Err(ParseFailure::BodyAlreadyConsumed),
    }
}

/// The body handle an extraction works on.
pub enum OptionalBody {
    /// The request carries no body.
    Absent,
    /// The collected body bytes, not yet consumed.
    Ready(Vec<u8>),
    /// The connection layer's failure while reading the body.
    Failed(ParseFailure),
    /// The read right is spent.
    Consumed,
}

impl View for OptionalBody {
    type V = BodyModel;

    open spec fn view(&self) -> BodyModel {
        match self {
            OptionalBody::Absent => BodyModel::Absent,
            OptionalBody::Ready(data) => BodyModel::Ready(data@),
            OptionalBody::Failed(e) => BodyModel::Failed(*e),
            OptionalBody::Consumed => BodyModel::Consumed,
        }
    }
}

impl OptionalBody {
    /// Performs the one-shot read: returns what the handle holds and spends
    /// the read right, whatever the outcome.
    pub fn consume(&mut self) -> (r: Result<Vec<u8>, ParseFailure>)
        ensures
            final(self)@ == BodyModel::Consumed,
            match r {
                Ok(v) => consume_result(old(self)@) == Ok::<Seq<u8>, ParseFailure>(v@),
                Err(e) => consume_result(old(self)@) == Err::<Seq<u8>, ParseFailure>(e),
            },
    {
        let mut taken = OptionalBody::Consumed;
        core::mem::swap(self, &mut taken);
        match taken {
            OptionalBody::Absent => Ok(Vec::new()),
            OptionalBody::Ready(data) => Ok(data),
            OptionalBody::Failed(e) => Err(e),
            OptionalBody::Consumed => Err(ParseFailure::BodyAlreadyConsumed),
        }
    }
}

} // verus!
