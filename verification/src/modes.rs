//! Mode enums for blending, erosion and resizing, with the integer
//! codes the configuration surface uses for them.
//!
//! An unrecognized code is rejected with a typed error at conversion
//! time; no transform ever proceeds with a guessed default.

use vstd::prelude::*;
use crate::errors::HeightmapError;

verus! {

/// How an overlay layer is combined with the grid below it.
#[derive(Clone, Copy, PartialEq, Eq, Structural, Debug)]
pub enum BlendMode {
    /// Plain alpha compositing of the overlay over the base.
    Normal,
    /// The base is darkened by the product of the two channels.
    Multiply,
    /// Both channels are weighted by their own alphas and added.
    Screen,
}

impl BlendMode {
    /// The blend mode a configuration code names, if any.
    pub open spec fn spec_from_code(code: i32) -> Option<BlendMode> {
        if code == 0 {
            Some(BlendMode::Normal)
        } else if code == 1 {
            Some(BlendMode::Multiply)
        } else if code == 2 {
            Some(BlendMode::Screen)
        } else {
            None
        }
    }

    /// Decodes a configuration code, rejecting unknown codes.
    pub fn from_code(code: i32) -> (r: Result<BlendMode, HeightmapError>)
        ensures
            r matches Ok(m) ==> Self::spec_from_code(code) == Some(m),
            r matches Err(e) ==> e == HeightmapError::InvalidBlendMode
                && Self::spec_from_code(code) is None,
            r is Ok <==> Self::spec_from_code(code) is Some,
    {
        if code == 0 {
            Ok(BlendMode::Normal)
        } else if code == 1 {
            Ok(BlendMode::Multiply)
        } else if code == 2 {
            Ok(BlendMode::Screen)
        } else {
            Err(HeightmapError::InvalidBlendMode)
        }
    }
}

/// Which rule the thermal-erosion automaton applies.
#[derive(Clone, Copy, PartialEq, Eq, Structural, Debug)]
pub enum ErosionMode {
    /// No pixel ever erodes; the pass is a no-op.
    Disabled,
    /// A pixel erodes toward any strictly lower neighbor.
    Standard,
    /// A pixel erodes only where the slope exceeds the talus threshold.
    Talus,
}

impl ErosionMode {
    /// The erosion mode a configuration code names, if any.
    pub open spec fn spec_from_code(code: i32) -> Option<ErosionMode> {
        if code == 0 {
            Some(ErosionMode::Disabled)
        } else if code == 1 {
            Some(ErosionMode::Standard)
        } else if code == 2 {
            Some(ErosionMode::Talus)
        } else {
            None
        }
    }

    /// Decodes a configuration code, rejecting unknown codes.
    pub fn from_code(code: i32) -> (r: Result<ErosionMode, HeightmapError>)
        ensures
            r matches Ok(m) ==> Self::spec_from_code(code) == Some(m),
            r matches Err(e) ==> e == HeightmapError::InvalidErosionMode
                && Self::spec_from_code(code) is None,
            r is Ok <==> Self::spec_from_code(code) is Some,
    {
        if code == 0 {
            Ok(ErosionMode::Disabled)
        } else if code == 1 {
            Ok(ErosionMode::Standard)
        } else if code == 2 {
            Ok(ErosionMode::Talus)
        } else {
            Err(HeightmapError::InvalidErosionMode)
        }
    }
}

/// The reconstruction kernel a resize uses; an opaque quality/speed
/// choice made by the caller.
#[derive(Clone, Copy, PartialEq, Eq, Structural, Debug)]
pub enum ResizeFilter {
    /// Nearest-neighbor sampling.
    Nearest,
    /// Linear (triangle) reconstruction.
    Triangle,
    /// Catmull-Rom cubic reconstruction.
    CatmullRom,
    /// Gaussian reconstruction.
    Gaussian,
    /// Three-lobed windowed-sinc reconstruction.
    Lanczos3,
}

impl ResizeFilter {
    /// The plain code the resize collaborator identifies this kernel by.
    pub open spec fn spec_code(self) -> int {
        match self {
            ResizeFilter::Nearest => 0,
            ResizeFilter::Triangle => 1,
            ResizeFilter::CatmullRom => 2,
            ResizeFilter::Gaussian => 3,
            ResizeFilter::Lanczos3 => 4,
        }
    }

    /// The resize filter a configuration code names, if any.
    pub open spec fn spec_from_code(code: i32) -> Option<ResizeFilter> {
        if code == 0 {
            Some(ResizeFilter::Nearest)
        } else if code == 1 {
            Some(ResizeFilter::Triangle)
        } else if code == 2 {
            Some(ResizeFilter::CatmullRom)
        } else if code == 3 {
            Some(ResizeFilter::Gaussian)
        } else if code == 4 {
            Some(ResizeFilter::Lanczos3)
        } else {
            None
        }
    }

    /// Decodes a configuration code, rejecting unknown codes.
    pub fn from_code(code: i32) -> (r: Result<ResizeFilter, HeightmapError>)
        ensures
            r matches Ok(f) ==> Self::spec_from_code(code) == Some(f),
            r matches Err(e) ==> e == HeightmapError::InvalidParameter
                && Self::spec_from_code(code) is None,
            r is Ok <==> Self::spec_from_code(code) is Some,
    {
        if code == 0 {
            Ok(ResizeFilter::Nearest)
        } else if code == 1 {
            Ok(ResizeFilter::Triangle)
        } else if code == 2 {
            Ok(ResizeFilter::CatmullRom)
        } else if code == 3 {
            Ok(ResizeFilter::Gaussian)
        } else if code == 4 {
            Ok(ResizeFilter::Lanczos3)
        } else {
            Err(HeightmapError::InvalidParameter)
        }
    }
}

} // verus!
