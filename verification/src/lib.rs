//! Verified surface over a callback-driven speech-processing engine.
//!
//! The engine owns every resource behind an opaque handle, reports progress
//! through registered callbacks, and classifies each outcome by a numeric
//! reason code.  This crate models that interface as explicit state (the
//! [`engine::Engine`] value), so that the handle lifecycle, the callback
//! bridge, the event stream and the outcome classification are all ordinary
//! verified code: every operation states exactly what it does to the engine
//! state, and the laws of the stream and of the handle discipline are proved.

use vstd::prelude::*;

pub mod asr;
pub mod audio;
pub mod engine;
pub mod error;
pub mod properties;
pub mod speech;

verus! {

/// The invalid handle marker: never a live handle, distinguished from null.
pub const INVALID_HANDLE: usize = usize::MAX;

/// The null handle, used by constructors before the engine fills them in.
pub const NULL_HANDLE: usize = 0;

/// Access to the raw engine handle that a wrapper owns.
pub trait Handle {
    /// The handle value, for specifications.
    spec fn spec_handle(&self) -> usize;

    /// The raw value, for passing back into the engine.
    fn handle(&self) -> (h: usize)
        ensures
            h == self.spec_handle(),
    ;
}

} // verus!
