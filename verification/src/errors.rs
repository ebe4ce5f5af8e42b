//! Result codes returned across the library's boundary.
//!
//! The convention is numeric: `0` reports success, a negative value reports a
//! failure.  `Z_EINVAL` reports a precondition the caller broke that the
//! operation detects and rejects (an already-consumed payload); `Z_EGENERIC`
//! reports an underlying session-level failure whose cause is opaque here.

use vstd::prelude::*;

verus! {

/// A result code: `0` on success, negative on failure.
pub type z_error_t = i8;

/// The operation succeeded.
pub const Z_OK: z_error_t = 0;

/// The caller passed an invalid argument, e.g. an already-consumed payload.
pub const Z_EINVAL: z_error_t = -1;

/// An underlying session-level failure of opaque cause.
pub const Z_EGENERIC: z_error_t = -128;

} // verus!
