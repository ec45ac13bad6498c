//! Handlers and their dispatch.
//!
//! A handler is a callable of up to eight parameters that answers with a
//! [`Response`]. Dispatch extracts each parameter from the request, from the
//! left to the right, and calls the handler with the values.

use crate::extract::FromRequest;
use crate::fallible::{ExtractionError, TryFromRequest};
use crate::{Request, Response};
use vstd::prelude::*;

verus! {

/// The largest number of parameters that a handler can take. Every number of
/// parameters from none up to this one has its own impl of [`Handler`], of
/// [`FromRequest`] and of [`TryFromRequest`].
pub const MAX_ARITY: usize = 8;

/// A callable that takes the parameter tuple `P` apart and answers with a
/// response.
///
/// `accepts` and `answers` are the handler's own contract, seen through the
/// tuple. For a callable they are its precondition and its postcondition on
/// the values of the tuple: the proof functions `handler_of_none` to
/// `handler_of_eight` say so for a callable of any type, a named function or
/// a closure.
pub trait Handler<P> {
    /// Whether the handler may be called with `p`.
    spec fn accepts(&self, p: P) -> bool;

    /// Whether `r` is an answer that the handler may give to `p`.
    spec fn answers(&self, p: P, r: Response) -> bool;

    /// Calls the handler with the values of `p`, position by position, and
    /// hands its answer on.
    fn call(&self, p: P) -> (r: Response)
        requires
            self.accepts(p),
        ensures
            self.answers(p, r),
    ;
}

impl<T> Handler<()> for T where T: Fn() -> Response {
    open spec fn accepts(&self, p: ()) -> bool {
        call_requires(*self, ())
    }

    open spec fn answers(&self, p: (), r: Response) -> bool {
        call_ensures(*self, (), r)
    }

    fn call(&self, _p: ()) -> (r: Response) {
        self()
    }
}

impl<A, T> Handler<(A,)> for T where T: Fn(A) -> Response {
    open spec fn accepts(&self, p: (A,)) -> bool {
        call_requires(*self, p)
    }

    open spec fn answers(&self, p: (A,), r: Response) -> bool {
        call_ensures(*self, p, r)
    }

    fn call(&self, p: (A,)) -> (r: Response) {
        let (a,) = p;
        self(a)
    }
}

impl<A, B, T> Handler<(A, B)> for T where T: Fn(A, B) -> Response {
    open spec fn accepts(&self, p: (A, B)) -> bool {
        call_requires(*self, p)
    }

    open spec fn answers(&self, p: (A, B), r: Response) -> bool {
        call_ensures(*self, p, r)
    }

    fn call(&self, p: (A, B)) -> (r: Response) {
        let (a, b) = p;
        self(a, b)
    }
}

impl<A, B, C, T> Handler<(A, B, C)> for T where T: Fn(A, B, C) -> Response {
    open spec fn accepts(&self, p: (A, B, C)) -> bool {
        call_requires(*self, p)
    }

    open spec fn answers(&self, p: (A, B, C), r: Response) -> bool {
        call_ensures(*self, p, r)
    }

    fn call(&self, p: (A, B, C)) -> (r: Response) {
        let (a, b, c) = p;
        self(a, b, c)
    }
}

impl<A, B, C, D, T> Handler<(A, B, C, D)> for T where T: Fn(A, B, C, D) -> Response {
    open spec fn accepts(&self, p: (A, B, C, D)) -> bool {
        call_requires(*self, p)
    }

    open spec fn answers(&self, p: (A, B, C, D), r: Response) -> bool {
        call_ensures(*self, p, r)
    }

    fn call(&self, p: (A, B, C, D)) -> (r: Response) {
        let (a, b, c, d) = p;
        self(a, b, c, d)
    }
}

impl<A, B, C, D, E, T> Handler<(A, B, C, D, E)> for T where T: Fn(A, B, C, D, E) -> Response {
    open spec fn accepts(&self, p: (A, B, C, D, E)) -> bool {
        call_requires(*self, p)
    }

    open spec fn answers(&self, p: (A, B, C, D, E), r: Response) -> bool {
        call_ensures(*self, p, r)
    }

    fn call(&self, p: (A, B, C, D, E)) -> (r: Response) {
        let (a, b, c, d, e) = p;
        self(a, b, c, d, e)
    }
}

impl<A, B, C, D, E, F, T> Handler<(A, B, C, D, E, F)> for T where T: Fn(A, B, C, D, E, F) -> Response {
    open spec fn accepts(&self, p: (A, B, C, D, E, F)) -> bool {
        call_requires(*self, p)
    }

    open spec fn answers(&self, p: (A, B, C, D, E, F), r: Response) -> bool {
        call_ensures(*self, p, r)
    }

    fn call(&self, p: (A, B, C, D, E, F)) -> (r: Response) {
        let (a, b, c, d, e, f) = p;
        self(a, b, c, d, e, f)
    }
}

impl<A, B, C, D, E, F, G, T> Handler<(A, B, C, D, E, F, G)> for T where T: Fn(A, B, C, D, E, F, G) -> Response {
    open spec fn accepts(&self, p: (A, B, C, D, E, F, G)) -> bool {
        call_requires(*self, p)
    }

    open spec fn answers(&self, p: (A, B, C, D, E, F, G), r: Response) -> bool {
        call_ensures(*self, p, r)
    }

    fn call(&self, p: (A, B, C, D, E, F, G)) -> (r: Response) {
        let (a, b, c, d, e, f, g) = p;
        self(a, b, c, d, e, f, g)
    }
}

impl<A, B, C, D, E, F, G, H, T> Handler<(A, B, C, D, E, F, G, H)> for T where T: Fn(A, B, C, D, E, F, G, H) -> Response {
    open spec fn accepts(&self, p: (A, B, C, D, E, F, G, H)) -> bool {
        call_requires(*self, p)
    }

    open spec fn answers(&self, p: (A, B, C, D, E, F, G, H), r: Response) -> bool {
        call_ensures(*self, p, r)
    }

    fn call(&self, p: (A, B, C, D, E, F, G, H)) -> (r: Response) {
        let (a, b, c, d, e, f, g, h) = p;
        self(a, b, c, d, e, f, g, h)
    }
}

/// Extracts the handler's parameter tuple from the request and calls the
/// handler with it. The answer is the handler's own.
///
/// The handler must accept what is extracted for it. For a callable that is
/// the callable's own precondition on the extracted values, and the answer
/// meets the callable's own postcondition: a caller that holds a callable of
/// a known type learns both from the proof function of its arity,
/// `handler_of_none` to `handler_of_eight`.
pub fn handle<P: FromRequest, F: Handler<P>>(req: Request, f: F) -> (resp: Response)
    requires
        f.accepts(P::extracted(req)),
    ensures
        f.answers(P::extracted(req), resp),
{
    let p = P::from_req(&req);
    f.call(p)
}

/// Dispatch with extractors that can fail.
///
/// Where every position of the parameter tuple is extracted, the handler is
/// called with the values and its answer comes back. Where a position fails,
/// the failure of the leftmost such position comes back and the handler is
/// not called: for that case nothing is asked of the handler, so no call of
/// it could be justified.
///
/// As with [`handle`], the proof functions `handler_of_none` to
/// `handler_of_eight` turn `accepts` and `answers` into the contract of a
/// callable of a known type.
pub fn try_handle<P: TryFromRequest, F: Handler<P>>(req: Request, f: F) -> (out: Result<
    Response,
    ExtractionError,
>)
    requires
        P::try_extracted(req) matches Ok(p) ==> f.accepts(p),
    ensures
        match P::try_extracted(req) {
            Ok(p) => out matches Ok(resp) && f.answers(p, resp),
            Err(e) => out == Err::<Response, ExtractionError>(e),
        },
{
    match P::try_from_req(&req) {
        Ok(p) => Ok(f.call(p)),
        Err(e) => Err(e),
    }
}

/// A callable without parameters is a handler of the empty tuple, and the
/// handler's contract is the callable's own.
pub proof fn handler_of_none<T: Fn() -> Response>(f: T, resp: Response)
    ensures
        f.accepts(()) <==> call_requires(f, ()),
        f.answers((), resp) <==> call_ensures(f, (), resp),
{
}

/// A callable of one parameter is a handler of the tuple of that parameter,
/// and the handler's contract is the callable's own.
pub proof fn handler_of_one<A, T: Fn(A) -> Response>(f: T, p: (A,), resp: Response)
    ensures
        f.accepts(p) <==> call_requires(f, p),
        f.answers(p, resp) <==> call_ensures(f, p, resp),
{
}

/// A callable of two parameters is a handler of the tuple of those
/// parameters, and the handler's contract is the callable's own.
pub proof fn handler_of_two<A, B, T: Fn(A, B) -> Response>(f: T, p: (A, B), resp: Response)
    ensures
        f.accepts(p) <==> call_requires(f, p),
        f.answers(p, resp) <==> call_ensures(f, p, resp),
{
}

/// A callable of three parameters is a handler of the tuple of those
/// parameters, and the handler's contract is the callable's own.
pub proof fn handler_of_three<A, B, C, T: Fn(A, B, C) -> Response>(
    f: T,
    p: (A, B, C),
    resp: Response,
)
    ensures
        f.accepts(p) <==> call_requires(f, p),
        f.answers(p, resp) <==> call_ensures(f, p, resp),
{
}

/// A callable of four parameters is a handler of the tuple of those
/// parameters, and the handler's contract is the callable's own.
pub proof fn handler_of_four<A, B, C, D, T: Fn(A, B, C, D) -> Response>(
    f: T,
    p: (A, B, C, D),
    resp: Response,
)
    ensures
        f.accepts(p) <==> call_requires(f, p),
        f.answers(p, resp) <==> call_ensures(f, p, resp),
{
}

/// A callable of five parameters is a handler of the tuple of those
/// parameters, and the handler's contract is the callable's own.
pub proof fn handler_of_five<A, B, C, D, E, T: Fn(A, B, C, D, E) -> Response>(
    f: T,
    p: (A, B, C, D, E),
    resp: Response,
)
    ensures
        f.accepts(p) <==> call_requires(f, p),
        f.answers(p, resp) <==> call_ensures(f, p, resp),
{
}

/// A callable of six parameters is a handler of the tuple of those
/// parameters, and the handler's contract is the callable's own.
pub proof fn handler_of_six<A, B, C, D, E, F, T: Fn(A, B, C, D, E, F) -> Response>(
    f: T,
    p: (A, B, C, D, E, F),
    resp: Response,
)
    ensures
        f.accepts(p) <==> call_requires(f, p),
        f.answers(p, resp) <==> call_ensures(f, p, resp),
{
}

/// A callable of seven parameters is a handler of the tuple of those
/// parameters, and the handler's contract is the callable's own.
pub proof fn handler_of_seven<A, B, C, D, E, F, G, T: Fn(A, B, C, D, E, F, G) -> Response>(
    f: T,
    p: (A, B, C, D, E, F, G),
    resp: Response,
)
    ensures
        f.accepts(p) <==> call_requires(f, p),
        f.answers(p, resp) <==> call_ensures(f, p, resp),
{
}

/// A callable of eight parameters is a handler of the tuple of those
/// parameters, and the handler's contract is the callable's own.
pub proof fn handler_of_eight<A, B, C, D, E, F, G, H, T: Fn(A, B, C, D, E, F, G, H) -> Response>(
    f: T,
    p: (A, B, C, D, E, F, G, H),
    resp: Response,
)
    ensures
        f.accepts(p) <==> call_requires(f, p),
        f.answers(p, resp) <==> call_ensures(f, p, resp),
{
}

/// A handler without parameters is dispatched on whatever the request is:
/// dispatch asks no more than a call of the handler asks, and answers as that
/// call does.
pub proof fn dispatch_of_none<T: Fn() -> Response>(req: Request, f: T, resp: Response)
    ensures
        call_requires(f, ()) ==> call_requires(handle::<(), T>, (req, f)),
        call_ensures(handle::<(), T>, (req, f), resp) ==> call_ensures(f, (), resp),
{
}

/// A handler that takes the request itself is dispatched as if it were called
/// with the request directly: dispatch asks no more than that call asks, and
/// answers as that call does.
pub proof fn dispatch_of_request<T: Fn(Request) -> Response>(req: Request, f: T, resp: Response)
    ensures
        call_requires(f, (req,)) ==> call_requires(handle::<(Request,), T>, (req, f)),
        call_ensures(handle::<(Request,), T>, (req, f), resp) ==> call_ensures(f, (req,), resp),
{
}

} // verus!
