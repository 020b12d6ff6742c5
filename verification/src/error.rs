use vstd::prelude::*;

verus! {

/// Failure kinds of the platform layer. Both are fatal to the frame loop:
/// without pixel memory or a window dimension nothing can be drawn, so the
/// caller is expected to log which kind occurred and abort.
#[derive(Clone, Copy, Debug, PartialEq, Eq, Structural)]
pub enum PlatformError {
    /// The pixel-memory request could not be satisfied.
    AllocationError,
    /// The window's client-area size could not be obtained.
    DimensionQueryError,
}

} // verus!
