//! The ways in which obtaining or decoding a path can fail.

use vstd::prelude::*;

verus! {

/// A failure reported by this crate.
#[derive(Clone, Copy, Debug, PartialEq, Eq)]
pub enum PathError {
    /// The native library handed back no buffer.
    AllocationFailure,
    /// A header names no known command, or declares a length that the
    /// buffer or the command's points do not fit.
    CorruptPathData,
}

} // verus!
