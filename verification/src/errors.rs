//! Typed errors returned by the terrain engine.
//!
//! The engine fails fast on caller-supplied invalid configuration and
//! never proceeds with a guessed default for an unrecognized mode.

use vstd::prelude::*;

verus! {

/// Every failure a grid transform can report.
#[derive(Clone, Copy, PartialEq, Eq, Structural, Debug)]
pub enum HeightmapError {
    /// A numeric parameter is outside its allowed range, such as a
    /// non-positive noise scale, or a river pass over a grid with no
    /// interior pixels.
    InvalidParameter,
    /// Two grids that must stay paired do not have the same dimensions.
    DimensionMismatch,
    /// A blend-mode code names none of the supported blend rules.
    InvalidBlendMode,
    /// An erosion-mode code names none of the supported erosion rules.
    InvalidErosionMode,
    /// A resize request asked for a zero-sized output grid.
    InvalidTargetSize,
}

impl HeightmapError {
    /// A short human-readable description of the failure.
    pub fn describe(&self) -> (s: &'static str)
        ensures
            s@ == match *self {
                HeightmapError::InvalidParameter => "invalid parameter"@,
                HeightmapError::DimensionMismatch => "grid dimensions do not match"@,
                HeightmapError::InvalidBlendMode => "invalid blend mode"@,
                HeightmapError::InvalidErosionMode => "invalid erosion mode"@,
                HeightmapError::InvalidTargetSize => "target size should be greater than zero"@,
            },
    {
        match *self {
            HeightmapError::InvalidParameter => "invalid parameter",
            HeightmapError::DimensionMismatch => "grid dimensions do not match",
            HeightmapError::InvalidBlendMode => "invalid blend mode",
            HeightmapError::InvalidErosionMode => "invalid erosion mode",
            HeightmapError::InvalidTargetSize => "target size should be greater than zero",
        }
    }
}

} // verus!
