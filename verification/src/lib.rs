//! Typed dispatch of request handlers.
//!
//! A handler is an ordinary callable. Each of its parameters is of a type
//! that can be extracted from a request, and dispatch calls the handler with
//! the values that it extracts from the one request, from the left to the
//! right.
//!
//! - [`extract`] holds [`extract::FromRequest`], the extraction that always
//!   gives a value, its placeholder types and its tuples.
//! - [`fallible`] holds [`fallible::TryFromRequest`], the extraction that may
//!   fail, and the failure that it reports.
//! - [`handler`] holds [`handler::Handler`], implemented by the callables of
//!   every supported number of parameters, and the two entry points
//!   [`handler::handle`] and [`handler::try_handle`].

use vstd::prelude::*;

pub mod extract;
pub mod fallible;
pub mod handler;

verus! {

/// One incoming request. It carries no payload of its own.
#[derive(Clone, Copy, Debug)]
pub struct Request;

/// What a handler answers. Dispatch hands it on without looking inside.
#[derive(Clone, Copy, Debug)]
pub struct Response;

} // verus!
