//! Extraction that can fail.
//!
//! An extractor that needs data of the request fails where the request does
//! not carry it. A tuple of such extractors is tried position by position,
//! from the left to the right; the first failure ends the extraction and is
//! the one that is reported.

use crate::extract::{Data, FromRequest, Path, Query, State};
use crate::Request;
use vstd::prelude::*;

verus! {

/// Why a value could not be produced from a request.
#[derive(Clone, Copy, Debug, PartialEq, Eq, Structural)]
pub enum ExtractionError {
    /// The request does not carry the data.
    Missing,
    /// The request carries the data, but not in a form that can be read.
    Malformed,
}

/// A type whose values can be produced from a request, or fail to be.
///
/// Like [`FromRequest`], extraction is a function of the request, which it
/// leaves as it was: `try_extracted` names its outcome, and `try_from_req`
/// computes it.
pub trait TryFromRequest: Sized {
    /// What extraction yields from `req`: the value, or the reason why there
    /// is none.
    spec fn try_extracted(req: Request) -> Result<Self, ExtractionError>;

    /// Produces the value from the request, or reports why it cannot.
    fn try_from_req(req: &Request) -> (out: Result<Self, ExtractionError>)
        ensures
            out == Self::try_extracted(*req),
    ;
}

/// The request itself is always there.
impl TryFromRequest for Request {
    open spec fn try_extracted(req: Request) -> Result<Request, ExtractionError> {
        Ok(<Request as FromRequest>::extracted(req))
    }

    fn try_from_req(req: &Request) -> (out: Result<Request, ExtractionError>) {
        Ok(<Request as FromRequest>::from_req(req))
    }
}

/// The empty parameter tuple needs nothing of the request.
impl TryFromRequest for () {
    open spec fn try_extracted(req: Request) -> Result<(), ExtractionError> {
        Ok(<() as FromRequest>::extracted(req))
    }

    fn try_from_req(req: &Request) -> (out: Result<(), ExtractionError>) {
        Ok(<() as FromRequest>::from_req(req))
    }
}

impl TryFromRequest for Path {
    open spec fn try_extracted(req: Request) -> Result<Path, ExtractionError> {
        Ok(<Path as FromRequest>::extracted(req))
    }

    fn try_from_req(req: &Request) -> (out: Result<Path, ExtractionError>) {
        Ok(<Path as FromRequest>::from_req(req))
    }
}

impl TryFromRequest for Query {
    open spec fn try_extracted(req: Request) -> Result<Query, ExtractionError> {
        Ok(<Query as FromRequest>::extracted(req))
    }

    fn try_from_req(req: &Request) -> (out: Result<Query, ExtractionError>) {
        Ok(<Query as FromRequest>::from_req(req))
    }
}

impl TryFromRequest for State {
    open spec fn try_extracted(req: Request) -> Result<State, ExtractionError> {
        Ok(<State as FromRequest>::extracted(req))
    }

    fn try_from_req(req: &Request) -> (out: Result<State, ExtractionError>) {
        Ok(<State as FromRequest>::from_req(req))
    }
}

impl TryFromRequest for Data {
    open spec fn try_extracted(req: Request) -> Result<Data, ExtractionError> {
        Ok(<Data as FromRequest>::extracted(req))
    }

    fn try_from_req(req: &Request) -> (out: Result<Data, ExtractionError>) {
        Ok(<Data as FromRequest>::from_req(req))
    }
}

impl<A: TryFromRequest> TryFromRequest for (A,) {
    open spec fn try_extracted(req: Request) -> Result<(A,), ExtractionError> {
        if let Err(e) = A::try_extracted(req) {
            Err(e)
        } else {
            Ok((A::try_extracted(req)->Ok_0,))
        }
    }

    fn try_from_req(req: &Request) -> (out: Result<(A,), ExtractionError>) {
        Ok((A::try_from_req(req)?,))
    }
}

impl<A: TryFromRequest, B: TryFromRequest> TryFromRequest for (A, B) {
    open spec fn try_extracted(req: Request) -> Result<(A, B), ExtractionError> {
        if let Err(e) = A::try_extracted(req) {
            Err(e)
        } else if let Err(e) = B::try_extracted(req) {
            Err(e)
        } else {
            Ok((A::try_extracted(req)->Ok_0, B::try_extracted(req)->Ok_0))
        }
    }

    fn try_from_req(req: &Request) -> (out: Result<(A, B), ExtractionError>) {
        Ok((A::try_from_req(req)?, B::try_from_req(req)?))
    }
}

impl<A: TryFromRequest, B: TryFromRequest, C: TryFromRequest> TryFromRequest for (A, B, C) {
    open spec fn try_extracted(req: Request) -> Result<(A, B, C), ExtractionError> {
        if let Err(e) = A::try_extracted(req) {
            Err(e)
        } else if let Err(e) = B::try_extracted(req) {
            Err(e)
        } else if let Err(e) = C::try_extracted(req) {
            Err(e)
        } else {
            Ok(
                (
                    A::try_extracted(req)->Ok_0,
                    B::try_extracted(req)->Ok_0,
                    C::try_extracted(req)->Ok_0,
                ),
            )
        }
    }

    fn try_from_req(req: &Request) -> (out: Result<(A, B, C), ExtractionError>) {
        Ok(
            (
                A::try_from_req(req)?,
                B::try_from_req(req)?,
                C::try_from_req(req)?,
            ),
        )
    }
}

impl<
    A: TryFromRequest,
    B: TryFromRequest,
    C: TryFromRequest,
    D: TryFromRequest,
> TryFromRequest for (A, B, C, D) {
    open spec fn try_extracted(req: Request) -> Result<(A, B, C, D), ExtractionError> {
        if let Err(e) = A::try_extracted(req) {
            Err(e)
        } else if let Err(e) = B::try_extracted(req) {
            Err(e)
        } else if let Err(e) = C::try_extracted(req) {
            Err(e)
        } else if let Err(e) = D::try_extracted(req) {
            Err(e)
        } else {
            Ok(
                (
                    A::try_extracted(req)->Ok_0,
                    B::try_extracted(req)->Ok_0,
                    C::try_extracted(req)->Ok_0,
                    D::try_extracted(req)->Ok_0,
                ),
            )
        }
    }

    fn try_from_req(req: &Request) -> (out: Result<(A, B, C, D), ExtractionError>) {
        Ok(
            (
                A::try_from_req(req)?,
                B::try_from_req(req)?,
                C::try_from_req(req)?,
                D::try_from_req(req)?,
            ),
        )
    }
}

impl<
    A: TryFromRequest,
    B: TryFromRequest,
    C: TryFromRequest,
    D: TryFromRequest,
    E: TryFromRequest,
> TryFromRequest for (A, B, C, D, E) {
    open spec fn try_extracted(req: Request) -> Result<(A, B, C, D, E), ExtractionError> {
        if let Err(e) = A::try_extracted(req) {
            Err(e)
        } else if let Err(e) = B::try_extracted(req) {
            Err(e)
        } else if let Err(e) = C::try_extracted(req) {
            Err(e)
        } else if let Err(e) = D::try_extracted(req) {
            Err(e)
        } else if let Err(e) = E::try_extracted(req) {
            Err(e)
        } else {
            Ok(
                (
                    A::try_extracted(req)->Ok_0,
                    B::try_extracted(req)->Ok_0,
                    C::try_extracted(req)->Ok_0,
                    D::try_extracted(req)->Ok_0,
                    E::try_extracted(req)->Ok_0,
                ),
            )
        }
    }

    fn try_from_req(req: &Request) -> (out: Result<(A, B, C, D, E), ExtractionError>) {
        Ok(
            (
                A::try_from_req(req)?,
                B::try_from_req(req)?,
                C::try_from_req(req)?,
                D::try_from_req(req)?,
                E::try_from_req(req)?,
            ),
        )
    }
}

impl<
    A: TryFromRequest,
    B: TryFromRequest,
    C: TryFromRequest,
    D: TryFromRequest,
    E: TryFromRequest,
    F: TryFromRequest,
> TryFromRequest for (A, B, C, D, E, F) {
    open spec fn try_extracted(req: Request) -> Result<(A, B, C, D, E, F), ExtractionError> {
        if let Err(e) = A::try_extracted(req) {
            Err(e)
        } else if let Err(e) = B::try_extracted(req) {
            Err(e)
        } else if let Err(e) = C::try_extracted(req) {
            Err(e)
        } else if let Err(e) = D::try_extracted(req) {
            Err(e)
        } else if let Err(e) = E::try_extracted(req) {
            Err(e)
        } else if let Err(e) = F::try_extracted(req) {
            Err(e)
        } else {
            Ok(
                (
                    A::try_extracted(req)->Ok_0,
                    B::try_extracted(req)->Ok_0,
                    C::try_extracted(req)->Ok_0,
                    D::try_extracted(req)->Ok_0,
                    E::try_extracted(req)->Ok_0,
                    F::try_extracted(req)->Ok_0,
                ),
            )
        }
    }

    fn try_from_req(req: &Request) -> (out: Result<(A, B, C, D, E, F), ExtractionError>) {
        Ok(
            (
                A::try_from_req(req)?,
                B::try_from_req(req)?,
                C::try_from_req(req)?,
                D::try_from_req(req)?,
                E::try_from_req(req)?,
                F::try_from_req(req)?,
            ),
        )
    }
}

impl<
    A: TryFromRequest,
    B: TryFromRequest,
    C: TryFromRequest,
    D: TryFromRequest,
    E: TryFromRequest,
    F: TryFromRequest,
    G: TryFromRequest,
> TryFromRequest for (A, B, C, D, E, F, G) {
    open spec fn try_extracted(req: Request) -> Result<(A, B, C, D, E, F, G), ExtractionError> {
        if let Err(e) = A::try_extracted(req) {
            Err(e)
        } else if let Err(e) = B::try_extracted(req) {
            Err(e)
        } else if let Err(e) = C::try_extracted(req) {
            Err(e)
        } else if let Err(e) = D::try_extracted(req) {
            Err(e)
        } else if let Err(e) = E::try_extracted(req) {
            Err(e)
        } else if let Err(e) = F::try_extracted(req) {
            Err(e)
        } else if let Err(e) = G::try_extracted(req) {
            Err(e)
        } else {
            Ok(
                (
                    A::try_extracted(req)->Ok_0,
                    B::try_extracted(req)->Ok_0,
                    C::try_extracted(req)->Ok_0,
                    D::try_extracted(req)->Ok_0,
                    E::try_extracted(req)->Ok_0,
                    F::try_extracted(req)->Ok_0,
                    G::try_extracted(req)->Ok_0,
                ),
            )
        }
    }

    fn try_from_req(req: &Request) -> (out: Result<(A, B, C, D, E, F, G), ExtractionError>) {
        Ok(
            (
                A::try_from_req(req)?,
                B::try_from_req(req)?,
                C::try_from_req(req)?,
                D::try_from_req(req)?,
                E::try_from_req(req)?,
                F::try_from_req(req)?,
                G::try_from_req(req)?,
            ),
        )
    }
}

impl<
    A: TryFromRequest,
    B: TryFromRequest,
    C: TryFromRequest,
    D: TryFromRequest,
    E: TryFromRequest,
    F: TryFromRequest,
    G: TryFromRequest,
    H: TryFromRequest,
> TryFromRequest for (A, B, C, D, E, F, G, H) {
    open spec fn try_extracted(req: Request) -> Result<(A, B, C, D, E, F, G, H), ExtractionError> {
        if let Err(e) = A::try_extracted(req) {
            Err(e)
        } else if let Err(e) = B::try_extracted(req) {
            Err(e)
        } else if let Err(e) = C::try_extracted(req) {
            Err(e)
        } else if let Err(e) = D::try_extracted(req) {
            Err(e)
        } else if let Err(e) = E::try_extracted(req) {
            Err(e)
        } else if let Err(e) = F::try_extracted(req) {
            Err(e)
        } else if let Err(e) = G::try_extracted(req) {
            Err(e)
        } else if let Err(e) = H::try_extracted(req) {
            Err(e)
        } else {
            Ok(
                (
                    A::try_extracted(req)->Ok_0,
                    B::try_extracted(req)->Ok_0,
                    C::try_extracted(req)->Ok_0,
                    D::try_extracted(req)->Ok_0,
                    E::try_extracted(req)->Ok_0,
                    F::try_extracted(req)->Ok_0,
                    G::try_extracted(req)->Ok_0,
                    H::try_extracted(req)->Ok_0,
                ),
            )
        }
    }

    fn try_from_req(req: &Request) -> (out: Result<(A, B, C, D, E, F, G, H), ExtractionError>) {
        Ok(
            (
                A::try_from_req(req)?,
                B::try_from_req(req)?,
                C::try_from_req(req)?,
                D::try_from_req(req)?,
                E::try_from_req(req)?,
                F::try_from_req(req)?,
                G::try_from_req(req)?,
                H::try_from_req(req)?,
            ),
        )
    }
}

/// Fallible extraction is repeatable: two extractions of one type from one
/// request have equal outcomes.
pub proof fn fallible_extraction_is_repeatable<T: TryFromRequest>(
    req: Request,
    first: Result<T, ExtractionError>,
    second: Result<T, ExtractionError>,
)
    requires
        call_ensures(T::try_from_req, (&req,), first),
        call_ensures(T::try_from_req, (&req,), second),
    ensures
        first == second,
{
}

/// Extraction of a triple keeps the positions and stops at the first failure:
/// where the three types are all extracted alone, the triple is their values
/// in their order; else it fails as the leftmost of them that fails.
pub proof fn triple_reports_first_failure<A: TryFromRequest, B: TryFromRequest, C: TryFromRequest>(
    req: Request,
    a: Result<A, ExtractionError>,
    b: Result<B, ExtractionError>,
    c: Result<C, ExtractionError>,
    all: Result<(A, B, C), ExtractionError>,
)
    requires
        call_ensures(A::try_from_req, (&req,), a),
        call_ensures(B::try_from_req, (&req,), b),
        call_ensures(C::try_from_req, (&req,), c),
        call_ensures(<(A, B, C) as TryFromRequest>::try_from_req, (&req,), all),
    ensures
        all == match (a, b, c) {
            (Ok(x), Ok(y), Ok(z)) => Ok::<(A, B, C), ExtractionError>((x, y, z)),
            (Err(e), _, _) => Err(e),
            (Ok(_), Err(e), _) => Err(e),
            (Ok(_), Ok(_), Err(e)) => Err(e),
        },
{
}

} // verus!
