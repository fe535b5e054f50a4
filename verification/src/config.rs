//! Configuration records for a generation request.
//!
//! All fractional parameters are fixed point: a noise scale is held in
//! millionths, coordinate offsets in thousandths, and the opacity and
//! talus threshold as bytes scaled by 255.  Each record is validated
//! before use; an invalid record is rejected with a typed error, never
//! patched with a default.

use vstd::prelude::*;
use crate::errors::HeightmapError;
use crate::modes::BlendMode;
use crate::modes::ErosionMode;

verus! {

/// The parameters of one noise layer, immutable once consumed by a
/// generation pass.
#[derive(Clone, Copy, PartialEq, Eq, Structural, Debug)]
pub struct LayerSpec {
    /// The sampling scale in millionths; must be positive.
    pub scale_micro: i64,
    /// The x offset added to each column, in thousandths.
    pub offset_x_milli: i64,
    /// The y offset added to each row, in thousandths.
    pub offset_y_milli: i64,
    /// The seed handed to the coherent-noise function.
    pub seed: u32,
    /// The layer opacity scaled by 255.
    pub opacity: u8,
    /// The blend rule code (0 normal, 1 multiply, 2 screen).
    pub blend_mode: i32,
}

impl LayerSpec {
    /// The record names a positive scale and a known blend rule.
    pub open spec fn spec_valid(self) -> bool {
        self.scale_micro > 0 && BlendMode::spec_from_code(self.blend_mode) is Some
    }

    /// Checks the record, rejecting a non-positive scale with
    /// `InvalidParameter` and an unknown blend code with
    /// `InvalidBlendMode`.
    pub fn validate(&self) -> (r: Result<(), HeightmapError>)
        ensures
            r is Ok <==> self.spec_valid(),
            self.scale_micro <= 0 ==> r == Err::<(), HeightmapError>(
                HeightmapError::InvalidParameter,
            ),
            self.scale_micro > 0 && BlendMode::spec_from_code(self.blend_mode) is None ==> r
                == Err::<(), HeightmapError>(HeightmapError::InvalidBlendMode),
    {
        if self.scale_micro <= 0 {
            return Err(HeightmapError::InvalidParameter);
        }
        match BlendMode::from_code(self.blend_mode) {
            Ok(_) => Ok(()),
            Err(e) => Err(e),
        }
    }
}

/// The thermal-erosion parameters of a generation request.
#[derive(Clone, Copy, PartialEq, Eq, Structural, Debug)]
pub struct ErosionConfig {
    /// The erosion rule code (0 none, 1 standard, 2 talus).
    pub mode: i32,
    /// How many full grid passes to run.
    pub iterations: usize,
    /// The talus slope threshold scaled by 255; only the talus rule
    /// reads it.
    pub talus_angle: u8,
}

impl ErosionConfig {
    /// The record names a known erosion rule.
    pub open spec fn spec_valid(self) -> bool {
        ErosionMode::spec_from_code(self.mode) is Some
    }

    /// Checks the record, rejecting an unknown mode code with
    /// `InvalidErosionMode`.
    pub fn validate(&self) -> (r: Result<(), HeightmapError>)
        ensures
            r is Ok <==> self.spec_valid(),
            r is Err ==> r == Err::<(), HeightmapError>(HeightmapError::InvalidErosionMode),
    {
        match ErosionMode::from_code(self.mode) {
            Ok(_) => Ok(()),
            Err(e) => Err(e),
        }
    }
}

/// The hydraulic-erosion parameters of a generation request.  Every
/// field value is meaningful, so there is nothing to validate; the
/// explicit seed is what makes a river pass reproducible.
#[derive(Clone, Copy, PartialEq, Eq, Structural, Debug)]
pub struct RiverConfig {
    /// How many steps each walker takes.
    pub iterations: usize,
    /// How much each carved pixel is lowered below the donor height.
    pub erosion_factor: i16,
    /// How many walkers to run.
    pub river_count: usize,
    /// The seed for the walkers' start positions.
    pub seed: u64,
}

} // verus!
