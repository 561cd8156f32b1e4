//! Platform shim library: locale-stable text and number handling.
//!
//! The pieces that carry real logic live here, verified:
//! case-insensitive comparison under "C"-locale folding rules,
//! the strategy that selects a locale-aware primitive per platform,
//! the scoped swap of a thread's active locale with guaranteed
//! restoration, and the legacy character-set decoding table.
//!
//! The raw C-ABI entry points that forward to the operating system
//! are a separate, unverified shell around this library.

use vstd::prelude::*;

pub mod locale;
pub mod macroman;
pub mod platform_shims;
pub mod string_shims;

verus! {

/// Adds two machine-word counts; the caller rules out overflow.
pub fn add(left: usize, right: usize) -> (sum: usize)
    requires
        left + right <= usize::MAX,
    ensures
        sum == left + right,
{
    left + right
}

/// Marker type for the process allocator that forwards to the
/// platform `malloc`/`free`; the unsafe allocator hookup itself
/// stays outside the verified library.
#[derive(Clone, Copy, PartialEq, Eq, Debug, Structural)]
pub struct Allocator;

impl Default for Allocator {
    fn default() -> (a: Allocator)
        ensures
            a == Allocator,
    {
        Allocator
    }
}

} // verus!
