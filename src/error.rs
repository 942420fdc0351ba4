use vstd::prelude::*;

verus! {

/// Why a filter primitive, or the configuration of one, was refused.
#[derive(Debug, Clone, Copy, PartialEq, Eq, Structural)]
pub enum FilterError {
    /// A referenced input could not be resolved to an image.
    InputSurfaceUnavailable,
    /// An output raster could not be created.
    OutputAllocationFailed,
    /// A lighting primitive does not have exactly one light source.
    InvalidLightSourceCount,
    /// A lighting input is narrower than two pixels in some direction.
    InputTooSmall,
    /// A parameter value is out of its allowed range or not recognized.
    InvalidConfiguration,
}

} // verus!
