//! The composition laws the extraction layer guarantees.
//!
//! The tuple impls define their spec members as one `cons_*` step over the
//! head extractor and the tail tuple, so the two lemmas about a single step
//! — first failure wins, success sequences — characterise every arity, and
//! the per-arity lemmas below chain them: a tuple of always-succeeding
//! extractors always succeeds, and its value is right exactly when each
//! component's value is right for the body state its predecessors left
//! behind.

use vstd::prelude::*;

use crate::body::consume_result;
use crate::body::BodyModel;
use crate::extract::FromRequest;
use crate::failure::ParseFailure;
use crate::header::RequestHeader;
use crate::payload::bytes_view;
use crate::tuples::cons_body_after;
use crate::tuples::cons_outcome;
use crate::tuples::cons_value_ok;

verus! {

/// An extractor that succeeds on every request, whatever the body state.
pub open spec fn never_fails<'r, A: FromRequest<'r>>() -> bool {
    forall|req: RequestHeader, body: BodyModel|
        #[trigger] A::outcome(req, body) == Ok::<(), ParseFailure>(())
}

/// The zero-arity composite succeeds on every request with the empty tuple
/// and leaves the body handle exactly as it was, regardless of header or
/// body content.
pub proof fn lemma_unit_always_succeeds<'r>(req: RequestHeader, body: BodyModel)
    ensures
        <() as FromRequest<'r>>::outcome(req, body) == Ok::<(), ParseFailure>(()),
        <() as FromRequest<'r>>::body_after(req, body) == body,
        <() as FromRequest<'r>>::value_ok(req, body, ()),
{
}

/// Fail-fast: when the head extractor fails, the whole composition fails
/// with exactly the head's failure, and the tail never runs — the body
/// handle ends in the state the head alone left it.
pub proof fn lemma_cons_first_failure<'r, A: FromRequest<'r>, T: FromRequest<'r>>(
    req: RequestHeader,
    body: BodyModel,
    e: ParseFailure,
)
    requires
        A::outcome(req, body) == Err::<(), ParseFailure>(e),
    ensures
        cons_outcome::<A, T>(req, body) == Err::<(), ParseFailure>(e),
        cons_body_after::<A, T>(req, body) == A::body_after(req, body),
{
}

/// Sequencing: when the head extractor succeeds, the composition's outcome
/// and final body state are the tail's on the body state the head left
/// behind, and a composite value is right exactly when the head's part is
/// right for the incoming state and the tail's part for the state after the
/// head.
pub proof fn lemma_cons_head_succeeds<'r, A: FromRequest<'r>, T: FromRequest<'r>>(
    req: RequestHeader,
    body: BodyModel,
)
    requires
        A::outcome(req, body) == Ok::<(), ParseFailure>(()),
    ensures
        cons_outcome::<A, T>(req, body) == T::outcome(req, A::body_after(req, body)),
        cons_body_after::<A, T>(req, body) == T::body_after(req, A::body_after(req, body)),
        forall|a: A::Output, t: T::Output|
            #[trigger] cons_value_ok::<A, T>(req, body, a, t) <==> (A::value_ok(req, body, a)
                && T::value_ok(req, A::body_after(req, body), t)),
{
}

/// Fail-fast at the first position of a pair: the composite fails with
/// exactly the first component's failure, and the second component leaves no
/// trace on the body handle.
pub proof fn lemma_pair_first_position_failure<'r, A: FromRequest<'r>, B: FromRequest<'r>>(
    req: RequestHeader,
    body: BodyModel,
    e: ParseFailure,
)
    requires
        A::outcome(req, body) == Err::<(), ParseFailure>(e),
    ensures
        <(A, B) as FromRequest<'r>>::outcome(req, body) == Err::<(), ParseFailure>(e),
        <(A, B) as FromRequest<'r>>::body_after(req, body) == A::body_after(req, body),
{
    lemma_cons_first_failure::<A, (B,)>(req, body, e);
}

/// Fail-fast at a middle position: in a three-component tuple whose first
/// component succeeds and whose second fails, the composite fails with
/// exactly the second component's failure, and the third never runs — the
/// final body state is the one the second component left.
pub proof fn lemma_triple_second_position_failure<
    'r,
    A: FromRequest<'r>,
    B: FromRequest<'r>,
    C: FromRequest<'r>,
>(req: RequestHeader, body: BodyModel, e: ParseFailure)
    requires
        A::outcome(req, body) == Ok::<(), ParseFailure>(()),
        B::outcome(req, A::body_after(req, body)) == Err::<(), ParseFailure>(e),
    ensures
        <(A, B, C) as FromRequest<'r>>::outcome(req, body) == Err::<(), ParseFailure>(e),
        <(A, B, C) as FromRequest<'r>>::body_after(req, body) == B::body_after(
            req,
            A::body_after(req, body),
        ),
{
    lemma_cons_head_succeeds::<A, (B, C)>(req, body);
    lemma_cons_first_failure::<B, (C,)>(req, A::body_after(req, body), e);
}

/// The header-only extractors — the method, the borrowed header map, the
/// borrowed whole header — succeed on every request, leave the body handle
/// exactly as it was, and their values equal the corresponding facet of the
/// input header.
pub proof fn lemma_header_extractors_never_fail<'r>(req: RequestHeader, body: BodyModel)
    ensures
        never_fails::<http::Method>(),
        never_fails::<&'r RequestHeader>(),
        never_fails::<&'r http::HeaderMap>(),
        <http::Method as FromRequest<'r>>::body_after(req, body) == body,
        <&'r RequestHeader as FromRequest<'r>>::body_after(req, body) == body,
        <&'r http::HeaderMap as FromRequest<'r>>::body_after(req, body) == body,
        forall|out: http::Method| #[trigger]
            <http::Method as FromRequest<'r>>::value_ok(req, body, out) <==> out
                == req.spec_method(),
        forall|out: &'r RequestHeader| #[trigger]
            <&'r RequestHeader as FromRequest<'r>>::value_ok(req, body, out) <==> *out == req,
        forall|out: &'r http::HeaderMap| #[trigger]
            <&'r http::HeaderMap as FromRequest<'r>>::value_ok(req, body, out) <==> *out
                == req.spec_headers(),
{
}

/// Raw-bytes extraction on a handle holding collected bytes `data` succeeds,
/// spends the read right, and yields exactly those bytes — no truncation, no
/// padding.
pub proof fn lemma_raw_bytes_exact<'r>(req: RequestHeader, data: Seq<u8>)
    ensures
        <bytes::Bytes as FromRequest<'r>>::outcome(req, BodyModel::Ready(data)) == Ok::<
            (),
            ParseFailure,
        >(()),
        <bytes::Bytes as FromRequest<'r>>::body_after(req, BodyModel::Ready(data))
            == BodyModel::Consumed,
        forall|out: bytes::Bytes| #[trigger]
            <bytes::Bytes as FromRequest<'r>>::value_ok(req, BodyModel::Ready(data), out)
                <==> bytes_view(out) == data,
{
}

/// A second raw-bytes extraction, after any earlier raw-bytes extraction on
/// the same handle, fails with [`ParseFailure::BodyAlreadyConsumed`]: every
/// read attempt spends the read right, and a spent handle never yields the
/// bytes again.
pub proof fn lemma_second_raw_bytes_read_fails<'r>(req: RequestHeader, body: BodyModel)
    ensures
        <bytes::Bytes as FromRequest<'r>>::outcome(
            req,
            <bytes::Bytes as FromRequest<'r>>::body_after(req, body),
        ) == Err::<(), ParseFailure>(ParseFailure::BodyAlreadyConsumed),
        consume_result(BodyModel::Consumed) == Err::<Seq<u8>, ParseFailure>(
            ParseFailure::BodyAlreadyConsumed,
        ),
{
}

/// A tuple of one always-succeeding extractor always succeeds, and its
/// value is right exactly when the component's value is.
pub proof fn lemma_tuple1_never_fails<'r, A: FromRequest<'r>>()
    requires
        never_fails::<A>(),
    ensures
        never_fails::<(A,)>(),
        forall|req: RequestHeader, body: BodyModel, out: (A::Output,)|
            #[trigger] <(A,) as FromRequest<'r>>::value_ok(req, body, out) <==> A::value_ok(req, body, out.0),
{
    assert forall|req: RequestHeader, body: BodyModel|
        #[trigger] <(A,) as FromRequest<'r>>::outcome(req, body) == Ok::<(), ParseFailure>(
            (),
        ) by {
        assert(A::outcome(req, body) == Ok::<(), ParseFailure>(()));
    }
}

/// A tuple of 2 always-succeeding extractors always succeeds, and its
/// value is the ordered tuple of the components' values: the head's part is
/// right for the incoming body state, the tail's for the state the head
/// left behind.
pub proof fn lemma_tuple2_never_fails<'r, A: FromRequest<'r>, B: FromRequest<'r>>()
    requires
        never_fails::<A>(),
        never_fails::<B>(),
    ensures
        never_fails::<(A, B)>(),
        forall|req: RequestHeader, body: BodyModel, out: (A::Output, B::Output)|
            #[trigger] <(A, B) as FromRequest<'r>>::value_ok(req, body, out) <==> (A::value_ok(req, body, out.0)
                && <(B,) as FromRequest<'r>>::value_ok(req, A::body_after(req, body), (out.1,))),
{
    lemma_tuple1_never_fails::<B>();
    assert forall|req: RequestHeader, body: BodyModel|
        #[trigger] <(A, B) as FromRequest<'r>>::outcome(req, body) == Ok::<(), ParseFailure>(
            (),
        ) by {
        assert(A::outcome(req, body) == Ok::<(), ParseFailure>(()));
        assert(<(B,) as FromRequest<'r>>::outcome(req, A::body_after(req, body))
            == Ok::<(), ParseFailure>(()));
    }
}

/// A tuple of 3 always-succeeding extractors always succeeds, and its
/// value is the ordered tuple of the components' values: the head's part is
/// right for the incoming body state, the tail's for the state the head
/// left behind.
pub proof fn lemma_tuple3_never_fails<'r, A: FromRequest<'r>, B: FromRequest<'r>, C: FromRequest<'r>>()
    requires
        never_fails::<A>(),
        never_fails::<B>(),
        never_fails::<C>(),
    ensures
        never_fails::<(A, B, C)>(),
        forall|req: RequestHeader, body: BodyModel, out: (A::Output, B::Output, C::Output)|
            #[trigger] <(A, B, C) as FromRequest<'r>>::value_ok(req, body, out) <==> (A::value_ok(req, body, out.0)
                && <(B, C) as FromRequest<'r>>::value_ok(req, A::body_after(req, body), (out.1, out.2))),
{
    lemma_tuple2_never_fails::<B, C>();
    assert forall|req: RequestHeader, body: BodyModel|
        #[trigger] <(A, B, C) as FromRequest<'r>>::outcome(req, body) == Ok::<(), ParseFailure>(
            (),
        ) by {
        assert(A::outcome(req, body) == Ok::<(), ParseFailure>(()));
        assert(<(B, C) as FromRequest<'r>>::outcome(req, A::body_after(req, body))
            == Ok::<(), ParseFailure>(()));
    }
}

/// A tuple of 4 always-succeeding extractors always succeeds, and its
/// value is the ordered tuple of the components' values: the head's part is
/// right for the incoming body state, the tail's for the state the head
/// left behind.
pub proof fn lemma_tuple4_never_fails<'r, A: FromRequest<'r>, B: FromRequest<'r>, C: FromRequest<'r>, D: FromRequest<'r>>()
    requires
        never_fails::<A>(),
        never_fails::<B>(),
        never_fails::<C>(),
        never_fails::<D>(),
    ensures
        never_fails::<(A, B, C, D)>(),
        forall|req: RequestHeader, body: BodyModel, out: (A::Output, B::Output, C::Output, D::Output)|
            #[trigger] <(A, B, C, D) as FromRequest<'r>>::value_ok(req, body, out) <==> (A::value_ok(req, body, out.0)
                && <(B, C, D) as FromRequest<'r>>::value_ok(req, A::body_after(req, body), (out.1, out.2, out.3))),
{
    lemma_tuple3_never_fails::<B, C, D>();
    assert forall|req: RequestHeader, body: BodyModel|
        #[trigger] <(A, B, C, D) as FromRequest<'r>>::outcome(req, body) == Ok::<(), ParseFailure>(
            (),
        ) by {
        assert(A::outcome(req, body) == Ok::<(), ParseFailure>(()));
        assert(<(B, C, D) as FromRequest<'r>>::outcome(req, A::body_after(req, body))
            == Ok::<(), ParseFailure>(()));
    }
}

/// A tuple of 5 always-succeeding extractors always succeeds, and its
/// value is the ordered tuple of the components' values: the head's part is
/// right for the incoming body state, the tail's for the state the head
/// left behind.
pub proof fn lemma_tuple5_never_fails<'r, A: FromRequest<'r>, B: FromRequest<'r>, C: FromRequest<'r>, D: FromRequest<'r>, E: FromRequest<'r>>()
    requires
        never_fails::<A>(),
        never_fails::<B>(),
        never_fails::<C>(),
        never_fails::<D>(),
        never_fails::<E>(),
    ensures
        never_fails::<(A, B, C, D, E)>(),
        forall|req: RequestHeader, body: BodyModel, out: (A::Output, B::Output, C::Output, D::Output, E::Output)|
            #[trigger] <(A, B, C, D, E) as FromRequest<'r>>::value_ok(req, body, out) <==> (A::value_ok(req, body, out.0)
                && <(B, C, D, E) as FromRequest<'r>>::value_ok(req, A::body_after(req, body), (out.1, out.2, out.3, out.4))),
{
    lemma_tuple4_never_fails::<B, C, D, E>();
    assert forall|req: RequestHeader, body: BodyModel|
        #[trigger] <(A, B, C, D, E) as FromRequest<'r>>::outcome(req, body) == Ok::<(), ParseFailure>(
            (),
        ) by {
        assert(A::outcome(req, body) == Ok::<(), ParseFailure>(()));
        assert(<(B, C, D, E) as FromRequest<'r>>::outcome(req, A::body_after(req, body))
            == Ok::<(), ParseFailure>(()));
    }
}

/// A tuple of 6 always-succeeding extractors always succeeds, and its
/// value is the ordered tuple of the components' values: the head's part is
/// right for the incoming body state, the tail's for the state the head
/// left behind.
pub proof fn lemma_tuple6_never_fails<'r, A: FromRequest<'r>, B: FromRequest<'r>, C: FromRequest<'r>, D: FromRequest<'r>, E: FromRequest<'r>, F: FromRequest<'r>>()
    requires
        never_fails::<A>(),
        never_fails::<B>(),
        never_fails::<C>(),
        never_fails::<D>(),
        never_fails::<E>(),
        never_fails::<F>(),
    ensures
        never_fails::<(A, B, C, D, E, F)>(),
        forall|req: RequestHeader, body: BodyModel, out: (A::Output, B::Output, C::Output, D::Output, E::Output, F::Output)|
            #[trigger] <(A, B, C, D, E, F) as FromRequest<'r>>::value_ok(req, body, out) <==> (A::value_ok(req, body, out.0)
                && <(B, C, D, E, F) as FromRequest<'r>>::value_ok(req, A::body_after(req, body), (out.1, out.2, out.3, out.4, out.5))),
{
    lemma_tuple5_never_fails::<B, C, D, E, F>();
    assert forall|req: RequestHeader, body: BodyModel|
        #[trigger] <(A, B, C, D, E, F) as FromRequest<'r>>::outcome(req, body) == Ok::<(), ParseFailure>(
            (),
        ) by {
        assert(A::outcome(req, body) == Ok::<(), ParseFailure>(()));
        assert(<(B, C, D, E, F) as FromRequest<'r>>::outcome(req, A::body_after(req, body))
            == Ok::<(), ParseFailure>(()));
    }
}

/// A tuple of 7 always-succeeding extractors always succeeds, and its
/// value is the ordered tuple of the components' values: the head's part is
/// right for the incoming body state, the tail's for the state the head
/// left behind.
pub proof fn lemma_tuple7_never_fails<'r, A: FromRequest<'r>, B: FromRequest<'r>, C: FromRequest<'r>, D: FromRequest<'r>, E: FromRequest<'r>, F: FromRequest<'r>, G: FromRequest<'r>>()
    requires
        never_fails::<A>(),
        never_fails::<B>(),
        never_fails::<C>(),
        never_fails::<D>(),
        never_fails::<E>(),
        never_fails::<F>(),
        never_fails::<G>(),
    ensures
        never_fails::<(A, B, C, D, E, F, G)>(),
        forall|req: RequestHeader, body: BodyModel, out: (A::Output, B::Output, C::Output, D::Output, E::Output, F::Output, G::Output)|
            #[trigger] <(A, B, C, D, E, F, G) as FromRequest<'r>>::value_ok(req, body, out) <==> (A::value_ok(req, body, out.0)
                && <(B, C, D, E, F, G) as FromRequest<'r>>::value_ok(req, A::body_after(req, body), (out.1, out.2, out.3, out.4, out.5, out.6))),
{
    lemma_tuple6_never_fails::<B, C, D, E, F, G>();
    assert forall|req: RequestHeader, body: BodyModel|
        #[trigger] <(A, B, C, D, E, F, G) as FromRequest<'r>>::outcome(req, body) == Ok::<(), ParseFailure>(
            (),
        ) by {
        assert(A::outcome(req, body) == Ok::<(), ParseFailure>(()));
        assert(<(B, C, D, E, F, G) as FromRequest<'r>>::outcome(req, A::body_after(req, body))
            == Ok::<(), ParseFailure>(()));
    }
}

/// A tuple of 8 always-succeeding extractors always succeeds, and its
/// value is the ordered tuple of the components' values: the head's part is
/// right for the incoming body state, the tail's for the state the head
/// left behind.
pub proof fn lemma_tuple8_never_fails<'r, A: FromRequest<'r>, B: FromRequest<'r>, C: FromRequest<'r>, D: FromRequest<'r>, E: FromRequest<'r>, F: FromRequest<'r>, G: FromRequest<'r>, H: FromRequest<'r>>()
    requires
        never_fails::<A>(),
        never_fails::<B>(),
        never_fails::<C>(),
        never_fails::<D>(),
        never_fails::<E>(),
        never_fails::<F>(),
        never_fails::<G>(),
        never_fails::<H>(),
    ensures
        never_fails::<(A, B, C, D, E, F, G, H)>(),
        forall|req: RequestHeader, body: BodyModel, out: (A::Output, B::Output, C::Output, D::Output, E::Output, F::Output, G::Output, H::Output)|
            #[trigger] <(A, B, C, D, E, F, G, H) as FromRequest<'r>>::value_ok(req, body, out) <==> (A::value_ok(req, body, out.0)
                && <(B, C, D, E, F, G, H) as FromRequest<'r>>::value_ok(req, A::body_after(req, body), (out.1, out.2, out.3, out.4, out.5, out.6, out.7))),
{
    lemma_tuple7_never_fails::<B, C, D, E, F, G, H>();
    assert forall|req: RequestHeader, body: BodyModel|
        #[trigger] <(A, B, C, D, E, F, G, H) as FromRequest<'r>>::outcome(req, body) == Ok::<(), ParseFailure>(
            (),
        ) by {
        assert(A::outcome(req, body) == Ok::<(), ParseFailure>(()));
        assert(<(B, C, D, E, F, G, H) as FromRequest<'r>>::outcome(req, A::body_after(req, body))
            == Ok::<(), ParseFailure>(()));
    }
}

/// A tuple of 9 always-succeeding extractors always succeeds, and its
/// value is the ordered tuple of the components' values: the head's part is
/// right for the incoming body state, the tail's for the state the head
/// left behind.
pub proof fn lemma_tuple9_never_fails<'r, A: FromRequest<'r>, B: FromRequest<'r>, C: FromRequest<'r>, D: FromRequest<'r>, E: FromRequest<'r>, F: FromRequest<'r>, G: FromRequest<'r>, H: FromRequest<'r>, I: FromRequest<'r>>()
    requires
        never_fails::<A>(),
        never_fails::<B>(),
        never_fails::<C>(),
        never_fails::<D>(),
        never_fails::<E>(),
        never_fails::<F>(),
        never_fails::<G>(),
        never_fails::<H>(),
        never_fails::<I>(),
    ensures
        never_fails::<(A, B, C, D, E, F, G, H, I)>(),
        forall|req: RequestHeader, body: BodyModel, out: (A::Output, B::Output, C::Output, D::Output, E::Output, F::Output, G::Output, H::Output, I::Output)|
            #[trigger] <(A, B, C, D, E, F, G, H, I) as FromRequest<'r>>::value_ok(req, body, out) <==> (A::value_ok(req, body, out.0)
                && <(B, C, D, E, F, G, H, I) as FromRequest<'r>>::value_ok(req, A::body_after(req, body), (out.1, out.2, out.3, out.4, out.5, out.6, out.7, out.8))),
{
    lemma_tuple8_never_fails::<B, C, D, E, F, G, H, I>();
    assert forall|req: RequestHeader, body: BodyModel|
        #[trigger] <(A, B, C, D, E, F, G, H, I) as FromRequest<'r>>::outcome(req, body) == Ok::<(), ParseFailure>(
            (),
        ) by {
        assert(A::outcome(req, body) == Ok::<(), ParseFailure>(()));
        assert(<(B, C, D, E, F, G, H, I) as FromRequest<'r>>::outcome(req, A::body_after(req, body))
            == Ok::<(), ParseFailure>(()));
    }
}

/// A tuple of 10 always-succeeding extractors always succeeds, and its
/// value is the ordered tuple of the components' values: the head's part is
/// right for the incoming body state, the tail's for the state the head
/// left behind.
pub proof fn lemma_tuple10_never_fails<'r, A: FromRequest<'r>, B: FromRequest<'r>, C: FromRequest<'r>, D: FromRequest<'r>, E: FromRequest<'r>, F: FromRequest<'r>, G: FromRequest<'r>, H: FromRequest<'r>, I: FromRequest<'r>, J: FromRequest<'r>>()
    requires
        never_fails::<A>(),
        never_fails::<B>(),
        never_fails::<C>(),
        never_fails::<D>(),
        never_fails::<E>(),
        never_fails::<F>(),
        never_fails::<G>(),
        never_fails::<H>(),
        never_fails::<I>(),
        never_fails::<J>(),
    ensures
        never_fails::<(A, B, C, D, E, F, G, H, I, J)>(),
        forall|req: RequestHeader, body: BodyModel, out: (A::Output, B::Output, C::Output, D::Output, E::Output, F::Output, G::Output, H::Output, I::Output, J::Output)|
            #[trigger] <(A, B, C, D, E, F, G, H, I, J) as FromRequest<'r>>::value_ok(req, body, out) <==> (A::value_ok(req, body, out.0)
                && <(B, C, D, E, F, G, H, I, J) as FromRequest<'r>>::value_ok(req, A::body_after(req, body), (out.1, out.2, out.3, out.4, out.5, out.6, out.7, out.8, out.9))),
{
    lemma_tuple9_never_fails::<B, C, D, E, F, G, H, I, J>();
    assert forall|req: RequestHeader, body: BodyModel|
        #[trigger] <(A, B, C, D, E, F, G, H, I, J) as FromRequest<'r>>::outcome(req, body) == Ok::<(), ParseFailure>(
            (),
        ) by {
        assert(A::outcome(req, body) == Ok::<(), ParseFailure>(()));
        assert(<(B, C, D, E, F, G, H, I, J) as FromRequest<'r>>::outcome(req, A::body_after(req, body))
            == Ok::<(), ParseFailure>(()));
    }
}

/// A tuple of 11 always-succeeding extractors always succeeds, and its
/// value is the ordered tuple of the components' values: the head's part is
/// right for the incoming body state, the tail's for the state the head
/// left behind.
pub proof fn lemma_tuple11_never_fails<'r, A: FromRequest<'r>, B: FromRequest<'r>, C: FromRequest<'r>, D: FromRequest<'r>, E: FromRequest<'r>, F: FromRequest<'r>, G: FromRequest<'r>, H: FromRequest<'r>, I: FromRequest<'r>, J: FromRequest<'r>, K: FromRequest<'r>>()
    requires
        never_fails::<A>(),
        never_fails::<B>(),
        never_fails::<C>(),
        never_fails::<D>(),
        never_fails::<E>(),
        never_fails::<F>(),
        never_fails::<G>(),
        never_fails::<H>(),
        never_fails::<I>(),
        never_fails::<J>(),
        never_fails::<K>(),
    ensures
        never_fails::<(A, B, C, D, E, F, G, H, I, J, K)>(),
        forall|req: RequestHeader, body: BodyModel, out: (A::Output, B::Output, C::Output, D::Output, E::Output, F::Output, G::Output, H::Output, I::Output, J::Output, K::Output)|
            #[trigger] <(A, B, C, D, E, F, G, H, I, J, K) as FromRequest<'r>>::value_ok(req, body, out) <==> (A::value_ok(req, body, out.0)
                && <(B, C, D, E, F, G, H, I, J, K) as FromRequest<'r>>::value_ok(req, A::body_after(req, body), (out.1, out.2, out.3, out.4, out.5, out.6, out.7, out.8, out.9, out.10))),
{
    lemma_tuple10_never_fails::<B, C, D, E, F, G, H, I, J, K>();
    assert forall|req: RequestHeader, body: BodyModel|
        #[trigger] <(A, B, C, D, E, F, G, H, I, J, K) as FromRequest<'r>>::outcome(req, body) == Ok::<(), ParseFailure>(
            (),
        ) by {
        assert(A::outcome(req, body) == Ok::<(), ParseFailure>(()));
        assert(<(B, C, D, E, F, G, H, I, J, K) as FromRequest<'r>>::outcome(req, A::body_after(req, body))
            == Ok::<(), ParseFailure>(()));
    }
}

/// A tuple of 12 always-succeeding extractors always succeeds, and its
/// value is the ordered tuple of the components' values: the head's part is
/// right for the incoming body state, the tail's for the state the head
/// left behind.
pub proof fn lemma_tuple12_never_fails<'r, A: FromRequest<'r>, B: FromRequest<'r>, C: FromRequest<'r>, D: FromRequest<'r>, E: FromRequest<'r>, F: FromRequest<'r>, G: FromRequest<'r>, H: FromRequest<'r>, I: FromRequest<'r>, J: FromRequest<'r>, K: FromRequest<'r>, L: FromRequest<'r>>()
    requires
        never_fails::<A>(),
        never_fails::<B>(),
        never_fails::<C>(),
        never_fails::<D>(),
        never_fails::<E>(),
        never_fails::<F>(),
        never_fails::<G>(),
        never_fails::<H>(),
        never_fails::<I>(),
        never_fails::<J>(),
        never_fails::<K>(),
        never_fails::<L>(),
    ensures
        never_fails::<(A, B, C, D, E, F, G, H, I, J, K, L)>(),
        forall|req: RequestHeader, body: BodyModel, out: (A::Output, B::Output, C::Output, D::Output, E::Output, F::Output, G::Output, H::Output, I::Output, J::Output, K::Output, L::Output)|
            #[trigger] <(A, B, C, D, E, F, G, H, I, J, K, L) as FromRequest<'r>>::value_ok(req, body, out) <==> (A::value_ok(req, body, out.0)
                && <(B, C, D, E, F, G, H, I, J, K, L) as FromRequest<'r>>::value_ok(req, A::body_after(req, body), (out.1, out.2, out.3, out.4, out.5, out.6, out.7, out.8, out.9, out.10, out.11))),
{
    lemma_tuple11_never_fails::<B, C, D, E, F, G, H, I, J, K, L>();
    assert forall|req: RequestHeader, body: BodyModel|
        #[trigger] <(A, B, C, D, E, F, G, H, I, J, K, L) as FromRequest<'r>>::outcome(req, body) == Ok::<(), ParseFailure>(
            (),
        ) by {
        assert(A::outcome(req, body) == Ok::<(), ParseFailure>(()));
        assert(<(B, C, D, E, F, G, H, I, J, K, L) as FromRequest<'r>>::outcome(req, A::body_after(req, body))
            == Ok::<(), ParseFailure>(()));
    }
}

} // verus!
