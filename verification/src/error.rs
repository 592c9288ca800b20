//! Common error definitions of the crate for engine API errors and others.

use vstd::prelude::*;

use crate::speech::events::{CancellationError, NoMatchError};

verus! {

/// Every failure the crate can report.
///
/// Engine status codes surface as `ApiError`; a classified cancellation or
/// no-match outcome travels through the same channel as an error value.
#[derive(Debug)]
pub enum SpxError {
    /// The engine returned a non-zero status code.
    ApiError(usize),
    /// The operation was cancelled; the payload carries reason, code, details.
    Cancellation(CancellationError),
    /// The outcome was not recognized; the payload carries the reason.
    NoMatch(NoMatchError),
    /// Another error, described by text.
    Other(String),
    /// A required optional resource is absent.
    IsNothing,
    /// An interior nul byte was found in an input string.
    IsNull,
    /// The entity already exists (for example, a session already started).
    AlreadyExists,
    /// A lock was poisoned.
    Poisoned,
    /// The operation would block.
    WouldBlock,
    /// The method is not implemented for this resource.
    Unimplemented,
    /// An unknown error.
    Unknown,
}

/// Convert an engine status code: zero means success, anything else is the
/// opaque engine error surfaced as `ApiError`.
pub fn from_hr(code: usize) -> (r: Result<(), SpxError>)
    ensures
        code == 0 <==> r is Ok,
        code != 0 ==> r == Result::<(), SpxError>::Err(SpxError::ApiError(code)),
{
    if code == 0 {
        Ok(())
    } else {
        Err(SpxError::ApiError(code))
    }
}

} // verus!
