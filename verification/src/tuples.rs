//! Fail-fast composition of extractors into ordered tuples.
//!
//! A handler that takes K parameters names an ordered K-tuple of extractors;
//! the tuple itself implements [`FromRequest`].  Dispatch is strictly left
//! to right, each component finishes before the next starts, and the first
//! failure aborts the whole composition with that same failure — later
//! components never run.  Only one component may legitimately spend the
//! shared body handle's read right; the sequential order makes the winner
//! deterministic.
//!
//! Each arity's spec members are one step of the same composition: the head
//! extractor runs on the incoming body state, and the tail tuple runs on the
//! state the head left behind.

use vstd::prelude::*;

use crate::body::BodyModel;
use crate::body::OptionalBody;
use crate::extract::FromRequest;
use crate::failure::ParseFailure;
use crate::header::RequestHeader;

verus! {

/// Outcome of running extractor `A`, then extractor `T` on the body state
/// `A` left behind: the first failure wins, and `T` never runs after one.
pub open spec fn cons_outcome<'r, A: FromRequest<'r>, T: FromRequest<'r>>(
    req: RequestHeader,
    body: BodyModel,
) -> Result<(), ParseFailure> {
    match A::outcome(req, body) {
        Ok(_) => T::outcome(req, A::body_after(req, body)),
        Err(e) => Err(e),
    }
}

/// The body state after running `A`, then — only if `A` succeeded — `T`.
pub open spec fn cons_body_after<'r, A: FromRequest<'r>, T: FromRequest<'r>>(
    req: RequestHeader,
    body: BodyModel,
) -> BodyModel {
    match A::outcome(req, body) {
        Ok(_) => T::body_after(req, A::body_after(req, body)),
        Err(_) => A::body_after(req, body),
    }
}

/// The pair `(a, t)` is right when `a` is right for the incoming body state
/// and `t` is right for the state `A` left behind.
pub open spec fn cons_value_ok<'r, A: FromRequest<'r>, T: FromRequest<'r>>(
    req: RequestHeader,
    body: BodyModel,
    a: A::Output,
    t: T::Output,
) -> bool {
    A::value_ok(req, body, a) && T::value_ok(req, A::body_after(req, body), t)
}

/// The zero-arity composite: succeeds on every request with the empty
/// tuple, and leaves the body handle untouched.
impl<'r> FromRequest<'r> for () {
    type Output = ();

    open spec fn outcome(req: RequestHeader, body: BodyModel) -> Result<(), ParseFailure> {
        Ok(())
    }

    open spec fn body_after(req: RequestHeader, body: BodyModel) -> BodyModel {
        body
    }

    open spec fn value_ok(req: RequestHeader, body: BodyModel, out: ()) -> bool {
        true
    }

    fn from_request(req: &'r RequestHeader, body: &mut OptionalBody) -> (r: Result<
        (),
        ParseFailure,
    >) {
        Ok(())
    }
}

impl<'r, A: FromRequest<'r>> FromRequest<'r> for (A,) {
    type Output = (A::Output,);

    open spec fn outcome(req: RequestHeader, body: BodyModel) -> Result<(), ParseFailure> {
        cons_outcome::<A, ()>(req, body)
    }

    open spec fn body_after(req: RequestHeader, body: BodyModel) -> BodyModel {
        cons_body_after::<A, ()>(req, body)
    }

    open spec fn value_ok(req: RequestHeader, body: BodyModel, out: (A::Output,)) -> bool {
        cons_value_ok::<A, ()>(req, body, out.0, ())
    }

    fn from_request(req: &'r RequestHeader, body: &mut OptionalBody) -> (r: Result<
        (A::Output,),
        ParseFailure,
    >) {
        let a = match A::from_request(req, body) {
            Ok(v) => v,
            Err(e) => return Err(e),
        };
        Ok((a,))
    }
}

impl<'r, A: FromRequest<'r>, B: FromRequest<'r>> FromRequest<'r> for (A, B) {
    type Output = (A::Output, B::Output);

    open spec fn outcome(req: RequestHeader, body: BodyModel) -> Result<(), ParseFailure> {
        cons_outcome::<A, (B,)>(req, body)
    }

    open spec fn body_after(req: RequestHeader, body: BodyModel) -> BodyModel {
        cons_body_after::<A, (B,)>(req, body)
    }

    open spec fn value_ok(
        req: RequestHeader,
        body: BodyModel,
        out: (A::Output, B::Output),
    ) -> bool {
        cons_value_ok::<A, (B,)>(req, body, out.0, (out.1,))
    }

    fn from_request(req: &'r RequestHeader, body: &mut OptionalBody) -> (r: Result<
        (A::Output, B::Output),
        ParseFailure,
    >) {
        let a = match A::from_request(req, body) {
            Ok(v) => v,
            Err(e) => return Err(e),
        };
        let b = match B::from_request(req, body) {
            Ok(v) => v,
            Err(e) => return Err(e),
        };
        Ok((a, b))
    }
}

impl<'r, A: FromRequest<'r>, B: FromRequest<'r>, C: FromRequest<'r>> FromRequest<'r> for (A, B, C) {
    type Output = (A::Output, B::Output, C::Output);

    open spec fn outcome(req: RequestHeader, body: BodyModel) -> Result<(), ParseFailure> {
        cons_outcome::<A, (B, C)>(req, body)
    }

    open spec fn body_after(req: RequestHeader, body: BodyModel) -> BodyModel {
        cons_body_after::<A, (B, C)>(req, body)
    }

    open spec fn value_ok(req: RequestHeader, body: BodyModel, out: (A::Output, B::Output, C::Output)) -> bool {
        cons_value_ok::<A, (B, C)>(req, body, out.0, (out.1, out.2))
    }

    fn from_request(req: &'r RequestHeader, body: &mut OptionalBody) -> (r: Result<
        (A::Output, B::Output, C::Output),
        ParseFailure,
    >) {
        let a = match A::from_request(req, body) {
            Ok(v) => v,
            Err(e) => return Err(e),
        };
        let b = match B::from_request(req, body) {
            Ok(v) => v,
            Err(e) => return Err(e),
        };
        let c = match C::from_request(req, body) {
            Ok(v) => v,
            Err(e) => return Err(e),
        };
        Ok((a, b, c))
    }
}

impl<'r, A: FromRequest<'r>, B: FromRequest<'r>, C: FromRequest<'r>, D: FromRequest<'r>> FromRequest<'r> for (A, B, C, D) {
    type Output = (A::Output, B::Output, C::Output, D::Output);

    open spec fn outcome(req: RequestHeader, body: BodyModel) -> Result<(), ParseFailure> {
        cons_outcome::<A, (B, C, D)>(req, body)
    }

    open spec fn body_after(req: RequestHeader, body: BodyModel) -> BodyModel {
        cons_body_after::<A, (B, C, D)>(req, body)
    }

    open spec fn value_ok(req: RequestHeader, body: BodyModel, out: (A::Output, B::Output, C::Output, D::Output)) -> bool {
        cons_value_ok::<A, (B, C, D)>(req, body, out.0, (out.1, out.2, out.3))
    }

    fn from_request(req: &'r RequestHeader, body: &mut OptionalBody) -> (r: Result<
        (A::Output, B::Output, C::Output, D::Output),
        ParseFailure,
    >) {
        let a = match A::from_request(req, body) {
            Ok(v) => v,
            Err(e) => return Err(e),
        };
        let b = match B::from_request(req, body) {
            Ok(v) => v,
            Err(e) => return Err(e),
        };
        let c = match C::from_request(req, body) {
            Ok(v) => v,
            Err(e) => return Err(e),
        };
        let d = match D::from_request(req, body) {
            Ok(v) => v,
            Err(e) => return Err(e),
        };
        Ok((a, b, c, d))
    }
}

impl<'r, A: FromRequest<'r>, B: FromRequest<'r>, C: FromRequest<'r>, D: FromRequest<'r>, E: FromRequest<'r>> FromRequest<'r> for (A, B, C, D, E) {
    type Output = (A::Output, B::Output, C::Output, D::Output, E::Output);

    open spec fn outcome(req: RequestHeader, body: BodyModel) -> Result<(), ParseFailure> {
        cons_outcome::<A, (B, C, D, E)>(req, body)
    }

    open spec fn body_after(req: RequestHeader, body: BodyModel) -> BodyModel {
        cons_body_after::<A, (B, C, D, E)>(req, body)
    }

    open spec fn value_ok(req: RequestHeader, body: BodyModel, out: (A::Output, B::Output, C::Output, D::Output, E::Output)) -> bool {
        cons_value_ok::<A, (B, C, D, E)>(req, body, out.0, (out.1, out.2, out.3, out.4))
    }

    fn from_request(req: &'r RequestHeader, body: &mut OptionalBody) -> (r: Result<
        (A::Output, B::Output, C::Output, D::Output, E::Output),
        ParseFailure,
    >) {
        let a = match A::from_request(req, body) {
            Ok(v) => v,
            Err(e) => return Err(e),
        };
        let b = match B::from_request(req, body) {
            Ok(v) => v,
            Err(e) => return Err(e),
        };
        let c = match C::from_request(req, body) {
            Ok(v) => v,
            Err(e) => return Err(e),
        };
        let d = match D::from_request(req, body) {
            Ok(v) => v,
            Err(e) => return Err(e),
        };
        let e = match E::from_request(req, body) {
            Ok(v) => v,
            Err(e) => return Err(e),
        };
        Ok((a, b, c, d, e))
    }
}

impl<'r, A: FromRequest<'r>, B: FromRequest<'r>, C: FromRequest<'r>, D: FromRequest<'r>, E: FromRequest<'r>, F: FromRequest<'r>> FromRequest<'r> for (A, B, C, D, E, F) {
    type Output = (A::Output, B::Output, C::Output, D::Output, E::Output, F::Output);

    open spec fn outcome(req: RequestHeader, body: BodyModel) -> Result<(), ParseFailure> {
        cons_outcome::<A, (B, C, D, E, F)>(req, body)
    }

    open spec fn body_after(req: RequestHeader, body: BodyModel) -> BodyModel {
        cons_body_after::<A, (B, C, D, E, F)>(req, body)
    }

    open spec fn value_ok(req: RequestHeader, body: BodyModel, out: (A::Output, B::Output, C::Output, D::Output, E::Output, F::Output)) -> bool {
        cons_value_ok::<A, (B, C, D, E, F)>(req, body, out.0, (out.1, out.2, out.3, out.4, out.5))
    }

    fn from_request(req: &'r RequestHeader, body: &mut OptionalBody) -> (r: Result<
        (A::Output, B::Output, C::Output, D::Output, E::Output, F::Output),
        ParseFailure,
    >) {
        let a = match A::from_request(req, body) {
            Ok(v) => v,
            Err(e) => return Err(e),
        };
        let b = match B::from_request(req, body) {
            Ok(v) => v,
            Err(e) => return Err(e),
        };
        let c = match C::from_request(req, body) {
            Ok(v) => v,
            Err(e) => return Err(e),
        };
        let d = match D::from_request(req, body) {
            Ok(v) => v,
            Err(e) => return Err(e),
        };
        let e = match E::from_request(req, body) {
            Ok(v) => v,
            Err(e) => return Err(e),
        };
        let f = match F::from_request(req, body) {
            Ok(v) => v,
            Err(e) => return Err(e),
        };
        Ok((a, b, c, d, e, f))
    }
}

impl<'r, A: FromRequest<'r>, B: FromRequest<'r>, C: FromRequest<'r>, D: FromRequest<'r>, E: FromRequest<'r>, F: FromRequest<'r>, G: FromRequest<'r>> FromRequest<'r> for (A, B, C, D, E, F, G) {
    type Output = (A::Output, B::Output, C::Output, D::Output, E::Output, F::Output, G::Output);

    open spec fn outcome(req: RequestHeader, body: BodyModel) -> Result<(), ParseFailure> {
        cons_outcome::<A, (B, C, D, E, F, G)>(req, body)
    }

    open spec fn body_after(req: RequestHeader, body: BodyModel) -> BodyModel {
        cons_body_after::<A, (B, C, D, E, F, G)>(req, body)
    }

    open spec fn value_ok(req: RequestHeader, body: BodyModel, out: (A::Output, B::Output, C::Output, D::Output, E::Output, F::Output, G::Output)) -> bool {
        cons_value_ok::<A, (B, C, D, E, F, G)>(req, body, out.0, (out.1, out.2, out.3, out.4, out.5, out.6))
    }

    fn from_request(req: &'r RequestHeader, body: &mut OptionalBody) -> (r: Result<
        (A::Output, B::Output, C::Output, D::Output, E::Output, F::Output, G::Output),
        ParseFailure,
    >) {
        let a = match A::from_request(req, body) {
            Ok(v) => v,
            Err(e) => return Err(e),
        };
        let b = match B::from_request(req, body) {
            Ok(v) => v,
            Err(e) => return Err(e),
        };
        let c = match C::from_request(req, body) {
            Ok(v) => v,
            Err(e) => return Err(e),
        };
        let d = match D::from_request(req, body) {
            Ok(v) => v,
            Err(e) => return Err(e),
        };
        let e = match E::from_request(req, body) {
            Ok(v) => v,
            Err(e) => return Err(e),
        };
        let f = match F::from_request(req, body) {
            Ok(v) => v,
            Err(e) => return Err(e),
        };
        let g = match G::from_request(req, body) {
            Ok(v) => v,
            Err(e) => return Err(e),
        };
        Ok((a, b, c, d, e, f, g))
    }
}

impl<'r, A: FromRequest<'r>, B: FromRequest<'r>, C: FromRequest<'r>, D: FromRequest<'r>, E: FromRequest<'r>, F: FromRequest<'r>, G: FromRequest<'r>, H: FromRequest<'r>> FromRequest<'r> for (A, B, C, D, E, F, G, H) {
    type Output = (A::Output, B::Output, C::Output, D::Output, E::Output, F::Output, G::Output, H::Output);

    open spec fn outcome(req: RequestHeader, body: BodyModel) -> Result<(), ParseFailure> {
        cons_outcome::<A, (B, C, D, E, F, G, H)>(req, body)
    }

    open spec fn body_after(req: RequestHeader, body: BodyModel) -> BodyModel {
        cons_body_after::<A, (B, C, D, E, F, G, H)>(req, body)
    }

    open spec fn value_ok(req: RequestHeader, body: BodyModel, out: (A::Output, B::Output, C::Output, D::Output, E::Output, F::Output, G::Output, H::Output)) -> bool {
        cons_value_ok::<A, (B, C, D, E, F, G, H)>(req, body, out.0, (out.1, out.2, out.3, out.4, out.5, out.6, out.7))
    }

    fn from_request(req: &'r RequestHeader, body: &mut OptionalBody) -> (r: Result<
        (A::Output, B::Output, C::Output, D::Output, E::Output, F::Output, G::Output, H::Output),
        ParseFailure,
    >) {
        let a = match A::from_request(req, body) {
            Ok(v) => v,
            Err(e) => return Err(e),
        };
        let b = match B::from_request(req, body) {
            Ok(v) => v,
            Err(e) => return Err(e),
        };
        let c = match C::from_request(req, body) {
            Ok(v) => v,
            Err(e) => return Err(e),
        };
        let d = match D::from_request(req, body) {
            Ok(v) => v,
            Err(e) => return Err(e),
        };
        let e = match E::from_request(req, body) {
            Ok(v) => v,
            Err(e) => return Err(e),
        };
        let f = match F::from_request(req, body) {
            Ok(v) => v,
            Err(e) => return Err(e),
        };
        let g = match G::from_request(req, body) {
            Ok(v) => v,
            Err(e) => return Err(e),
        };
        let h = match H::from_request(req, body) {
            Ok(v) => v,
            Err(e) => return Err(e),
        };
        Ok((a, b, c, d, e, f, g, h))
    }
}

impl<'r, A: FromRequest<'r>, B: FromRequest<'r>, C: FromRequest<'r>, D: FromRequest<'r>, E: FromRequest<'r>, F: FromRequest<'r>, G: FromRequest<'r>, H: FromRequest<'r>, I: FromRequest<'r>> FromRequest<'r> for (A, B, C, D, E, F, G, H, I) {
    type Output = (A::Output, B::Output, C::Output, D::Output, E::Output, F::Output, G::Output, H::Output, I::Output);

    open spec fn outcome(req: RequestHeader, body: BodyModel) -> Result<(), ParseFailure> {
        cons_outcome::<A, (B, C, D, E, F, G, H, I)>(req, body)
    }

    open spec fn body_after(req: RequestHeader, body: BodyModel) -> BodyModel {
        cons_body_after::<A, (B, C, D, E, F, G, H, I)>(req, body)
    }

    open spec fn value_ok(req: RequestHeader, body: BodyModel, out: (A::Output, B::Output, C::Output, D::Output, E::Output, F::Output, G::Output, H::Output, I::Output)) -> bool {
        cons_value_ok::<A, (B, C, D, E, F, G, H, I)>(req, body, out.0, (out.1, out.2, out.3, out.4, out.5, out.6, out.7, out.8))
    }

    fn from_request(req: &'r RequestHeader, body: &mut OptionalBody) -> (r: Result<
        (A::Output, B::Output, C::Output, D::Output, E::Output, F::Output, G::Output, H::Output, I::Output),
        ParseFailure,
    >) {
        let a = match A::from_request(req, body) {
            Ok(v) => v,
            Err(e) => return Err(e),
        };
        let b = match B::from_request(req, body) {
            Ok(v) => v,
            Err(e) => return Err(e),
        };
        let c = match C::from_request(req, body) {
            Ok(v) => v,
            Err(e) => return Err(e),
        };
        let d = match D::from_request(req, body) {
            Ok(v) => v,
            Err(e) => return Err(e),
        };
        let e = match E::from_request(req, body) {
            Ok(v) => v,
            Err(e) => return Err(e),
        };
        let f = match F::from_request(req, body) {
            Ok(v) => v,
            Err(e) => return Err(e),
        };
        let g = match G::from_request(req, body) {
            Ok(v) => v,
            Err(e) => return Err(e),
        };
        let h = match H::from_request(req, body) {
            Ok(v) => v,
            Err(e) => return Err(e),
        };
        let i = match I::from_request(req, body) {
            Ok(v) => v,
            Err(e) => return Err(e),
        };
        Ok((a, b, c, d, e, f, g, h, i))
    }
}

impl<'r, A: FromRequest<'r>, B: FromRequest<'r>, C: FromRequest<'r>, D: FromRequest<'r>, E: FromRequest<'r>, F: FromRequest<'r>, G: FromRequest<'r>, H: FromRequest<'r>, I: FromRequest<'r>, J: FromRequest<'r>> FromRequest<'r> for (A, B, C, D, E, F, G, H, I, J) {
    type Output = (A::Output, B::Output, C::Output, D::Output, E::Output, F::Output, G::Output, H::Output, I::Output, J::Output);

    open spec fn outcome(req: RequestHeader, body: BodyModel) -> Result<(), ParseFailure> {
        cons_outcome::<A, (B, C, D, E, F, G, H, I, J)>(req, body)
    }

    open spec fn body_after(req: RequestHeader, body: BodyModel) -> BodyModel {
        cons_body_after::<A, (B, C, D, E, F, G, H, I, J)>(req, body)
    }

    open spec fn value_ok(req: RequestHeader, body: BodyModel, out: (A::Output, B::Output, C::Output, D::Output, E::Output, F::Output, G::Output, H::Output, I::Output, J::Output)) -> bool {
        cons_value_ok::<A, (B, C, D, E, F, G, H, I, J)>(req, body, out.0, (out.1, out.2, out.3, out.4, out.5, out.6, out.7, out.8, out.9))
    }

    fn from_request(req: &'r RequestHeader, body: &mut OptionalBody) -> (r: Result<
        (A::Output, B::Output, C::Output, D::Output, E::Output, F::Output, G::Output, H::Output, I::Output, J::Output),
        ParseFailure,
    >) {
        let a = match A::from_request(req, body) {
            Ok(v) => v,
            Err(e) => return Err(e),
        };
        let b = match B::from_request(req, body) {
            Ok(v) => v,
            Err(e) => return Err(e),
        };
        let c = match C::from_request(req, body) {
            Ok(v) => v,
            Err(e) => return Err(e),
        };
        let d = match D::from_request(req, body) {
            Ok(v) => v,
            Err(e) => return Err(e),
        };
        let e = match E::from_request(req, body) {
            Ok(v) => v,
            Err(e) => return Err(e),
        };
        let f = match F::from_request(req, body) {
            Ok(v) => v,
            Err(e) => return Err(e),
        };
        let g = match G::from_request(req, body) {
            Ok(v) => v,
            Err(e) => return Err(e),
        };
        let h = match H::from_request(req, body) {
            Ok(v) => v,
            Err(e) => return Err(e),
        };
        let i = match I::from_request(req, body) {
            Ok(v) => v,
            Err(e) => return Err(e),
        };
        let j = match J::from_request(req, body) {
            Ok(v) => v,
            Err(e) => return Err(e),
        };
        Ok((a, b, c, d, e, f, g, h, i, j))
    }
}

impl<'r, A: FromRequest<'r>, B: FromRequest<'r>, C: FromRequest<'r>, D: FromRequest<'r>, E: FromRequest<'r>, F: FromRequest<'r>, G: FromRequest<'r>, H: FromRequest<'r>, I: FromRequest<'r>, J: FromRequest<'r>, K: FromRequest<'r>> FromRequest<'r> for (A, B, C, D, E, F, G, H, I, J, K) {
    type Output = (A::Output, B::Output, C::Output, D::Output, E::Output, F::Output, G::Output, H::Output, I::Output, J::Output, K::Output);

    open spec fn outcome(req: RequestHeader, body: BodyModel) -> Result<(), ParseFailure> {
        cons_outcome::<A, (B, C, D, E, F, G, H, I, J, K)>(req, body)
    }

    open spec fn body_after(req: RequestHeader, body: BodyModel) -> BodyModel {
        cons_body_after::<A, (B, C, D, E, F, G, H, I, J, K)>(req, body)
    }

    open spec fn value_ok(req: RequestHeader, body: BodyModel, out: (A::Output, B::Output, C::Output, D::Output, E::Output, F::Output, G::Output, H::Output, I::Output, J::Output, K::Output)) -> bool {
        cons_value_ok::<A, (B, C, D, E, F, G, H, I, J, K)>(req, body, out.0, (out.1, out.2, out.3, out.4, out.5, out.6, out.7, out.8, out.9, out.10))
    }

    fn from_request(req: &'r RequestHeader, body: &mut OptionalBody) -> (r: Result<
        (A::Output, B::Output, C::Output, D::Output, E::Output, F::Output, G::Output, H::Output, I::Output, J::Output, K::Output),
        ParseFailure,
    >) {
        let a = match A::from_request(req, body) {
            Ok(v) => v,
            Err(e) => return Err(e),
        };
        let b = match B::from_request(req, body) {
            Ok(v) => v,
            Err(e) => return Err(e),
        };
        let c = match C::from_request(req, body) {
            Ok(v) => v,
            Err(e) => return Err(e),
        };
        let d = match D::from_request(req, body) {
            Ok(v) => v,
            Err(e) => return Err(e),
        };
        let e = match E::from_request(req, body) {
            Ok(v) => v,
            Err(e) => return Err(e),
        };
        let f = match F::from_request(req, body) {
            Ok(v) => v,
            Err(e) => return Err(e),
        };
        let g = match G::from_request(req, body) {
            Ok(v) => v,
            Err(e) => return Err(e),
        };
        let h = match H::from_request(req, body) {
            Ok(v) => v,
            Err(e) => return Err(e),
        };
        let i = match I::from_request(req, body) {
            Ok(v) => v,
            Err(e) => return Err(e),
        };
        let j = match J::from_request(req, body) {
            Ok(v) => v,
            Err(e) => return Err(e),
        };
        let k = match K::from_request(req, body) {
            Ok(v) => v,
            Err(e) => return Err(e),
        };
        Ok((a, b, c, d, e, f, g, h, i, j, k))
    }
}

impl<'r, A: FromRequest<'r>, B: FromRequest<'r>, C: FromRequest<'r>, D: FromRequest<'r>, E: FromRequest<'r>, F: FromRequest<'r>, G: FromRequest<'r>, H: FromRequest<'r>, I: FromRequest<'r>, J: FromRequest<'r>, K: FromRequest<'r>, L: FromRequest<'r>> FromRequest<'r> for (A, B, C, D, E, F, G, H, I, J, K, L) {
    type Output = (A::Output, B::Output, C::Output, D::Output, E::Output, F::Output, G::Output, H::Output, I::Output, J::Output, K::Output, L::Output);

    open spec fn outcome(req: RequestHeader, body: BodyModel) -> Result<(), ParseFailure> {
        cons_outcome::<A, (B, C, D, E, F, G, H, I, J, K, L)>(req, body)
    }

    open spec fn body_after(req: RequestHeader, body: BodyModel) -> BodyModel {
        cons_body_after::<A, (B, C, D, E, F, G, H, I, J, K, L)>(req, body)
    }

    open spec fn value_ok(req: RequestHeader, body: BodyModel, out: (A::Output, B::Output, C::Output, D::Output, E::Output, F::Output, G::Output, H::Output, I::Output, J::Output, K::Output, L::Output)) -> bool {
        cons_value_ok::<A, (B, C, D, E, F, G, H, I, J, K, L)>(req, body, out.0, (out.1, out.2, out.3, out.4, out.5, out.6, out.7, out.8, out.9, out.10, out.11))
    }

    fn from_request(req: &'r RequestHeader, body: &mut OptionalBody) -> (r: Result<
        (A::Output, B::Output, C::Output, D::Output, E::Output, F::Output, G::Output, H::Output, I::Output, J::Output, K::Output, L::Output),
        ParseFailure,
    >) {
        let a = match A::from_request(req, body) {
            Ok(v) => v,
            Err(e) => return Err(e),
        };
        let b = match B::from_request(req, body) {
            Ok(v) => v,
            Err(e) => return Err(e),
        };
        let c = match C::from_request(req, body) {
            Ok(v) => v,
            Err(e) => return Err(e),
        };
        let d = match D::from_request(req, body) {
            Ok(v) => v,
            Err(e) => return Err(e),
        };
        let e = match E::from_request(req, body) {
            Ok(v) => v,
            Err(e) => return Err(e),
        };
        let f = match F::from_request(req, body) {
            Ok(v) => v,
            Err(e) => return Err(e),
        };
        let g = match G::from_request(req, body) {
            Ok(v) => v,
            Err(e) => return Err(e),
        };
        let h = match H::from_request(req, body) {
            Ok(v) => v,
            Err(e) => return Err(e),
        };
        let i = match I::from_request(req, body) {
            Ok(v) => v,
            Err(e) => return Err(e),
        };
        let j = match J::from_request(req, body) {
            Ok(v) => v,
            Err(e) => return Err(e),
        };
        let k = match K::from_request(req, body) {
            Ok(v) => v,
            Err(e) => return Err(e),
        };
        let l = match L::from_request(req, body) {
            Ok(v) => v,
            Err(e) => return Err(e),
        };
        Ok((a, b, c, d, e, f, g, h, i, j, k, l))
    }
}

} // verus!
