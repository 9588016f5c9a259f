//! The error taxonomy of a fetch.
//!
//! Exactly two kinds of failure reach a caller: the origin answered 404 for
//! the requested path (the asset is absent), or anything else went wrong (a
//! transport failure, a bad status code, or a failure while reading the
//! body), carried as a human-readable message.

use vstd::prelude::*;
use vstd::string::*;
use crate::decimal::decimal;
use crate::decimal::u16_decimal;

verus! {

/// A failed fetch, as surfaced to the caller.
#[derive(Debug)]
pub enum FetchError {
    /// The origin answered 404 for this exact path: the asset is absent.
    NotFound(String),
    /// Any other failure, with a message naming what went wrong.
    Io(String),
}

/// The message of a transport-level failure (no response arrived): it names
/// the offending path and the underlying cause.
pub open spec fn transport_error_message(path: Seq<char>, cause: Seq<char>) -> Seq<char> {
    "error fetching "@ + path + ": "@ + cause
}

/// The message of a non-2xx, non-404 response: it carries the numeric
/// status code.
pub open spec fn bad_status_message(status: u16) -> Seq<char> {
    "bad status code: "@ + decimal(status as nat)
}

/// The message of a failure while reading the body of a successful
/// response: it names the path and the underlying cause.
pub open spec fn body_error_message(path: Seq<char>, cause: Seq<char>) -> Seq<char> {
    "error getting bytes for "@ + path + ": "@ + cause
}

/// The error of a transport-level failure for `path` with the given cause.
pub fn transport_error(path: &str, cause: &str) -> (e: FetchError)
    ensures
        (e matches FetchError::Io(m) && m@ == transport_error_message(path@, cause@)),
{
    let mut m = String::from_str("error fetching ");
    m.append(path);
    m.append(": ");
    m.append(cause);
    FetchError::Io(m)
}

/// The error of a response whose status is neither 2xx nor 404.
pub fn bad_status_error(status: u16) -> (e: FetchError)
    ensures
        (e matches FetchError::Io(m) && m@ == bad_status_message(status)),
{
    let d = u16_decimal(status);
    let mut m = String::from_str("bad status code: ");
    m.append(d.as_str());
    FetchError::Io(m)
}

/// The error of a body read that failed after a successful status.
pub fn body_error(path: &str, cause: &str) -> (e: FetchError)
    ensures
        (e matches FetchError::Io(m) && m@ == body_error_message(path@, cause@)),
{
    let mut m = String::from_str("error getting bytes for ");
    m.append(path);
    m.append(": ");
    m.append(cause);
    FetchError::Io(m)
}

} // verus!
