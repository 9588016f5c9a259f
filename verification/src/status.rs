//! Classification of HTTP status codes.
//!
//! The fetch layer distinguishes exactly three outcomes of a received
//! response: success (any 2xx), "asset missing" (404), and everything else.
//! The classification is a closed, total decision table over the numeric
//! code.

use vstd::prelude::*;

verus! {

/// What a received status code means for a fetch.
#[derive(Clone, Copy, Debug, PartialEq, Eq, Structural)]
pub enum StatusClass {
    /// A 2xx code: the body is the asset's bytes.
    Success,
    /// Exactly 404: the asset is absent, a recoverable condition.
    NotFound,
    /// Any other code: the fetch failed.
    Failure,
}

/// The decision table: 2xx is success, 404 is "not found", anything else is
/// a failure.
pub open spec fn spec_classify_status(status: u16) -> StatusClass {
    if 200 <= status && status < 300 {
        StatusClass::Success
    } else if status == 404 {
        StatusClass::NotFound
    } else {
        StatusClass::Failure
    }
}

/// Classify a numeric status code.
pub fn classify_status(status: u16) -> (c: StatusClass)
    ensures
        c == spec_classify_status(status),
{
    if 200 <= status && status < 300 {
        StatusClass::Success
    } else if status == 404 {
        StatusClass::NotFound
    } else {
        StatusClass::Failure
    }
}

} // verus!
