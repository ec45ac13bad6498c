//! Extraction of typed values from a request.
//!
//! A type that implements [`FromRequest`] can stand as a parameter of a
//! handler. A tuple of such types is extracted position by position, from
//! the left to the right, out of the one request.

use crate::Request;
use vstd::prelude::*;

verus! {

/// A type whose values can be produced from a request.
///
/// Extraction reads the request and leaves it as it was. It is a function of
/// the request: `extracted` names its value, and `from_req` computes it.
pub trait FromRequest: Sized {
    /// The value that extraction yields from `req`.
    spec fn extracted(req: Request) -> Self;

    /// Produces the value from the request.
    fn from_req(req: &Request) -> (out: Self)
        ensures
            out == Self::extracted(*req),
    ;
}

/// The request itself is extractable: a handler that asks for it gets a copy.
impl FromRequest for Request {
    open spec fn extracted(req: Request) -> Request {
        req
    }

    fn from_req(req: &Request) -> (out: Request) {
        req.clone()
    }
}

/// The empty parameter tuple: nothing is read from the request.
impl FromRequest for () {
    open spec fn extracted(req: Request) -> () {
        ()
    }

    fn from_req(_req: &Request) -> (out: ()) {
        ()
    }
}

/// Stands for the parameters of the route that the request matched.
pub struct Path;

impl FromRequest for Path {
    open spec fn extracted(req: Request) -> Path {
        Path
    }

    fn from_req(_req: &Request) -> (out: Path) {
        Path
    }
}

/// Stands for the parsed query string of the request.
pub struct Query;

impl FromRequest for Query {
    open spec fn extracted(req: Request) -> Query {
        Query
    }

    fn from_req(_req: &Request) -> (out: Query) {
        Query
    }
}

/// Stands for the state that the application shares among its handlers.
pub struct State;

impl FromRequest for State {
    open spec fn extracted(req: Request) -> State {
        State
    }

    fn from_req(_req: &Request) -> (out: State) {
        State
    }
}

/// Stands for the deserialized body of the request.
pub struct Data;

impl FromRequest for Data {
    open spec fn extracted(req: Request) -> Data {
        Data
    }

    fn from_req(_req: &Request) -> (out: Data) {
        Data
    }
}

impl<A: FromRequest> FromRequest for (A,) {
    open spec fn extracted(req: Request) -> (A,) {
        (A::extracted(req),)
    }

    fn from_req(req: &Request) -> (out: (A,)) {
        (A::from_req(req),)
    }
}

impl<A: FromRequest, B: FromRequest> FromRequest for (A, B) {
    open spec fn extracted(req: Request) -> (A, B) {
        (A::extracted(req), B::extracted(req))
    }

    fn from_req(req: &Request) -> (out: (A, B)) {
        (A::from_req(req), B::from_req(req))
    }
}

impl<A: FromRequest, B: FromRequest, C: FromRequest> FromRequest for (A, B, C) {
    open spec fn extracted(req: Request) -> (A, B, C) {
        (A::extracted(req), B::extracted(req), C::extracted(req))
    }

    fn from_req(req: &Request) -> (out: (A, B, C)) {
        (A::from_req(req), B::from_req(req), C::from_req(req))
    }
}

impl<A: FromRequest, B: FromRequest, C: FromRequest, D: FromRequest> FromRequest for (A, B, C, D) {
    open spec fn extracted(req: Request) -> (A, B, C, D) {
        (A::extracted(req), B::extracted(req), C::extracted(req), D::extracted(req))
    }

    fn from_req(req: &Request) -> (out: (A, B, C, D)) {
        (A::from_req(req), B::from_req(req), C::from_req(req), D::from_req(req))
    }
}

impl<
    A: FromRequest,
    B: FromRequest,
    C: FromRequest,
    D: FromRequest,
    E: FromRequest,
> FromRequest for (A, B, C, D, E) {
    open spec fn extracted(req: Request) -> (A, B, C, D, E) {
        (
            A::extracted(req),
            B::extracted(req),
            C::extracted(req),
            D::extracted(req),
            E::extracted(req),
        )
    }

    fn from_req(req: &Request) -> (out: (A, B, C, D, E)) {
        (
            A::from_req(req),
            B::from_req(req),
            C::from_req(req),
            D::from_req(req),
            E::from_req(req),
        )
    }
}

impl<
    A: FromRequest,
    B: FromRequest,
    C: FromRequest,
    D: FromRequest,
    E: FromRequest,
    F: FromRequest,
> FromRequest for (A, B, C, D, E, F) {
    open spec fn extracted(req: Request) -> (A, B, C, D, E, F) {
        (
            A::extracted(req),
            B::extracted(req),
            C::extracted(req),
            D::extracted(req),
            E::extracted(req),
            F::extracted(req),
        )
    }

    fn from_req(req: &Request) -> (out: (A, B, C, D, E, F)) {
        (
            A::from_req(req),
            B::from_req(req),
            C::from_req(req),
            D::from_req(req),
            E::from_req(req),
            F::from_req(req),
        )
    }
}

impl<
    A: FromRequest,
    B: FromRequest,
    C: FromRequest,
    D: FromRequest,
    E: FromRequest,
    F: FromRequest,
    G: FromRequest,
> FromRequest for (A, B, C, D, E, F, G) {
    open spec fn extracted(req: Request) -> (A, B, C, D, E, F, G) {
        (
            A::extracted(req),
            B::extracted(req),
            C::extracted(req),
            D::extracted(req),
            E::extracted(req),
            F::extracted(req),
            G::extracted(req),
        )
    }

    fn from_req(req: &Request) -> (out: (A, B, C, D, E, F, G)) {
        (
            A::from_req(req),
            B::from_req(req),
            C::from_req(req),
            D::from_req(req),
            E::from_req(req),
            F::from_req(req),
            G::from_req(req),
        )
    }
}

impl<
    A: FromRequest,
    B: FromRequest,
    C: FromRequest,
    D: FromRequest,
    E: FromRequest,
    F: FromRequest,
    G: FromRequest,
    H: FromRequest,
> FromRequest for (A, B, C, D, E, F, G, H) {
    open spec fn extracted(req: Request) -> (A, B, C, D, E, F, G, H) {
        (
            A::extracted(req),
            B::extracted(req),
            C::extracted(req),
            D::extracted(req),
            E::extracted(req),
            F::extracted(req),
            G::extracted(req),
            H::extracted(req),
        )
    }

    fn from_req(req: &Request) -> (out: (A, B, C, D, E, F, G, H)) {
        (
            A::from_req(req),
            B::from_req(req),
            C::from_req(req),
            D::from_req(req),
            E::from_req(req),
            F::from_req(req),
            G::from_req(req),
            H::from_req(req),
        )
    }
}

/// Extraction is repeatable: two extractions of one type from one request
/// give equal values.
pub proof fn extraction_is_repeatable<T: FromRequest>(req: Request, first: T, second: T)
    requires
        call_ensures(T::from_req, (&req,), first),
        call_ensures(T::from_req, (&req,), second),
    ensures
        first == second,
{
}

/// Extraction of a triple keeps the positions: what it returns is what the
/// three types return when each is extracted alone, grouped in their order.
pub proof fn triple_keeps_positions<A: FromRequest, B: FromRequest, C: FromRequest>(
    req: Request,
    a: A,
    b: B,
    c: C,
    all: (A, B, C),
)
    requires
        call_ensures(A::from_req, (&req,), a),
        call_ensures(B::from_req, (&req,), b),
        call_ensures(C::from_req, (&req,), c),
        call_ensures(<(A, B, C) as FromRequest>::from_req, (&req,), all),
    ensures
        all == (a, b, c),
{
}

} // verus!
