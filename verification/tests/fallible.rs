use actix_handler::extract::{Data, Path, Query, State};
use actix_handler::fallible::{ExtractionError, TryFromRequest};
use actix_handler::handler::try_handle;
use actix_handler::{Request, Response};
use std::cell::Cell;

/// Needs a session, which no request carries.
#[derive(Debug, PartialEq, Eq)]
struct Session;

impl TryFromRequest for Session {
    fn try_extracted(_req: Request) -> Result<Self, ExtractionError> {
        Err(ExtractionError::Missing)
    }

    fn try_from_req(_req: &Request) -> Result<Self, ExtractionError> {
        Err(ExtractionError::Missing)
    }
}

/// Needs a body that can be read, which no request has.
#[derive(Debug, PartialEq, Eq)]
struct Form;

impl TryFromRequest for Form {
    fn try_extracted(_req: Request) -> Result<Self, ExtractionError> {
        Err(ExtractionError::Malformed)
    }

    fn try_from_req(_req: &Request) -> Result<Self, ExtractionError> {
        Err(ExtractionError::Malformed)
    }
}

/// Always there, with a payload.
#[derive(Clone, Copy, Debug, PartialEq, Eq)]
struct Mark<const N: u32>(u32);

impl<const N: u32> TryFromRequest for Mark<N> {
    fn try_extracted(_req: Request) -> Result<Self, ExtractionError> {
        Ok(Mark(N))
    }

    fn try_from_req(_req: &Request) -> Result<Self, ExtractionError> {
        Ok(Mark(N))
    }
}

#[test]
fn placeholders_never_fail() {
    let req = Request;
    assert!(matches!(Path::try_from_req(&req), Ok(Path)));
    assert!(matches!(Query::try_from_req(&req), Ok(Query)));
    assert!(matches!(State::try_from_req(&req), Ok(State)));
    assert!(matches!(Data::try_from_req(&req), Ok(Data)));
    assert!(matches!(Request::try_from_req(&req), Ok(Request)));
    assert_eq!(<() as TryFromRequest>::try_from_req(&req), Ok(()));
}

#[test]
fn missing_data_is_reported_as_missing() {
    assert_eq!(Session::try_from_req(&Request), Err(ExtractionError::Missing));
}

#[test]
fn unreadable_data_is_reported_as_malformed() {
    assert_eq!(Form::try_from_req(&Request), Err(ExtractionError::Malformed));
}

#[test]
fn the_two_failures_differ() {
    assert_ne!(ExtractionError::Missing, ExtractionError::Malformed);
    assert_eq!(format!("{:?}", ExtractionError::Missing), "Missing");
    assert_eq!(format!("{:?}", ExtractionError::Malformed), "Malformed");
}

#[test]
fn tuple_of_values_is_extracted_in_order() {
    let req = Request;
    assert_eq!(<(Mark<1>,)>::try_from_req(&req), Ok((Mark(1),)));
    assert_eq!(<(Mark<1>, Mark<2>)>::try_from_req(&req), Ok((Mark(1), Mark(2))));
    assert_eq!(
        <(Mark<1>, Mark<2>, Mark<3>)>::try_from_req(&req),
        Ok((Mark(1), Mark(2), Mark(3)))
    );
    assert_eq!(
        <(Mark<1>, Mark<2>, Mark<3>, Mark<4>)>::try_from_req(&req),
        Ok((Mark(1), Mark(2), Mark(3), Mark(4)))
    );
    assert_eq!(
        <(Mark<1>, Mark<2>, Mark<3>, Mark<4>, Mark<5>)>::try_from_req(&req),
        Ok((Mark(1), Mark(2), Mark(3), Mark(4), Mark(5)))
    );
    assert_eq!(
        <(Mark<1>, Mark<2>, Mark<3>, Mark<4>, Mark<5>, Mark<6>)>::try_from_req(&req),
        Ok((Mark(1), Mark(2), Mark(3), Mark(4), Mark(5), Mark(6)))
    );
    assert_eq!(
        <(Mark<1>, Mark<2>, Mark<3>, Mark<4>, Mark<5>, Mark<6>, Mark<7>)>::try_from_req(&req),
        Ok((Mark(1), Mark(2), Mark(3), Mark(4), Mark(5), Mark(6), Mark(7)))
    );
    assert_eq!(
        <(Mark<1>, Mark<2>, Mark<3>, Mark<4>, Mark<5>, Mark<6>, Mark<7>, Mark<8>)>::try_from_req(
            &req
        ),
        Ok((Mark(1), Mark(2), Mark(3), Mark(4), Mark(5), Mark(6), Mark(7), Mark(8)))
    );
}

#[test]
fn first_failure_from_the_left_is_reported() {
    let req = Request;
    assert_eq!(
        <(Mark<1>, Session, Form)>::try_from_req(&req),
        Err(ExtractionError::Missing)
    );
    assert_eq!(
        <(Mark<1>, Form, Session)>::try_from_req(&req),
        Err(ExtractionError::Malformed)
    );
    assert_eq!(<(Session, Form)>::try_from_req(&req), Err(ExtractionError::Missing));
    assert_eq!(<(Form, Session)>::try_from_req(&req), Err(ExtractionError::Malformed));
    assert_eq!(<(Form,)>::try_from_req(&req), Err(ExtractionError::Malformed));
}

#[test]
fn failure_at_any_position_fails_the_tuple() {
    let req = Request;
    assert_eq!(
        <(Session, Mark<2>, Mark<3>, Mark<4>)>::try_from_req(&req),
        Err(ExtractionError::Missing)
    );
    assert_eq!(
        <(Mark<1>, Mark<2>, Mark<3>, Form)>::try_from_req(&req),
        Err(ExtractionError::Malformed)
    );
    assert_eq!(
        <(Mark<1>, Mark<2>, Form, Mark<4>, Session)>::try_from_req(&req),
        Err(ExtractionError::Malformed)
    );
    assert_eq!(
        <(Mark<1>, Mark<2>, Mark<3>, Mark<4>, Mark<5>, Session)>::try_from_req(&req),
        Err(ExtractionError::Missing)
    );
    assert_eq!(
        <(Mark<1>, Mark<2>, Mark<3>, Mark<4>, Mark<5>, Mark<6>, Form)>::try_from_req(&req),
        Err(ExtractionError::Malformed)
    );
    assert_eq!(
        <(Mark<1>, Mark<2>, Mark<3>, Mark<4>, Mark<5>, Mark<6>, Mark<7>, Session)>::try_from_req(
            &req
        ),
        Err(ExtractionError::Missing)
    );
}

#[test]
fn fallible_extraction_twice_has_equal_outcomes() {
    let req = Request;
    assert_eq!(Session::try_from_req(&req), Session::try_from_req(&req));
    assert_eq!(
        <(Mark<1>, Mark<2>)>::try_from_req(&req),
        <(Mark<1>, Mark<2>)>::try_from_req(&req)
    );
}

#[test]
fn handler_is_not_called_when_a_needed_field_is_absent() {
    let calls = Cell::new(0u32);
    let out = try_handle(Request, |_: Session| {
        calls.set(calls.get() + 1);
        Response
    });
    assert!(matches!(out, Err(ExtractionError::Missing)));
    assert_eq!(calls.get(), 0);
}

#[test]
fn handler_is_not_called_when_a_later_parameter_fails() {
    let calls = Cell::new(0u32);
    let out = try_handle(Request, |_: Path, _: Mark<1>, _: Form, _: Session| {
        calls.set(calls.get() + 1);
        Response
    });
    assert!(matches!(out, Err(ExtractionError::Malformed)));
    assert_eq!(calls.get(), 0);
}

#[test]
fn handler_is_called_once_when_everything_is_there() {
    let calls = Cell::new(0u32);
    let seen = Cell::new((0u32, 0u32));
    let out = try_handle(Request, |_: Path, a: Mark<1>, _: Data, b: Mark<2>| {
        calls.set(calls.get() + 1);
        seen.set((a.0, b.0));
        Response
    });
    assert!(matches!(out, Ok(Response)));
    assert_eq!(calls.get(), 1);
    assert_eq!(seen.get(), (1, 2));
}

#[test]
fn handler_without_parameters_cannot_fail() {
    let calls = Cell::new(0u32);
    let out = try_handle(Request, || {
        calls.set(calls.get() + 1);
        Response
    });
    assert!(matches!(out, Ok(Response)));
    assert_eq!(calls.get(), 1);
}

#[test]
fn handler_of_placeholders_is_always_called() {
    let calls = Cell::new(0u32);
    let out = try_handle(Request, |_: Path, _: Query, _: State, _: Data, _: Path| {
        calls.set(calls.get() + 1);
        Response
    });
    assert!(matches!(out, Ok(Response)));
    assert_eq!(calls.get(), 1);
}

static TRACE: std::sync::Mutex<Vec<u32>> = std::sync::Mutex::new(Vec::new());

/// Leaves a trace of when it was tried; it is always there.
struct Traced<const N: u32>;

impl<const N: u32> TryFromRequest for Traced<N> {
    fn try_extracted(_req: Request) -> Result<Self, ExtractionError> {
        Ok(Traced)
    }

    fn try_from_req(_req: &Request) -> Result<Self, ExtractionError> {
        TRACE.lock().unwrap().push(N);
        Ok(Traced)
    }
}

#[test]
fn nothing_is_tried_after_the_first_failure() {
    let req = Request;
    let out = <(Traced<1>, Traced<2>, Session, Traced<4>, Form, Traced<6>)>::try_from_req(&req);
    assert!(matches!(out, Err(ExtractionError::Missing)));
    assert_eq!(*TRACE.lock().unwrap(), vec![1, 2]);
}
