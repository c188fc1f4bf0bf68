//! A typed client library for the Alpaca brokerage REST API family.
//!
//! Each remote operation is described by an endpoint descriptor value; a
//! per-surface client turns a descriptor into a fully configured outgoing
//! request (method, URL, query, body, authentication headers), and decodes
//! the textual response into a typed domain record or a typed error.
//! The HTTP transport itself is left to the caller.

use vstd::prelude::*;

pub mod api;
pub mod json;
pub mod model;
pub mod pagination;
pub mod timestamp;
pub mod util;

verus! {

/// A failure of one dispatch operation, strongly distinguished so that a
/// caller can tell "the server rejected my request" from "the response did
/// not match what I expected" from "the network failed".
#[derive(Debug, Clone)]
pub enum Error {
    /// A connection, DNS or timeout failure in the underlying transport,
    /// reported by the caller that performed the send.
    Transport(String),
    /// A response with a non-2xx status code, carrying the status and the
    /// raw response body for diagnostics.
    Http { status: u16, body: String },
    /// A 2xx response whose body was not valid JSON or did not match the
    /// declared result type.
    Json(String),
}

impl Error {
    /// True exactly when this error is an HTTP status error.
    pub fn is_http(&self) -> (r: bool)
        ensures
            r == (self is Http),
    {
        match self {
            Error::Http { .. } => true,
            _ => false,
        }
    }

    /// The status code of an HTTP status error.
    pub fn http_status(&self) -> (r: Option<u16>)
        ensures
            match r {
                Some(s) => self matches Error::Http { status, .. } && s == status,
                None => !(self is Http),
            },
    {
        match self {
            Error::Http { status, .. } => Some(*status),
            _ => None,
        }
    }
}

} // verus!
