//! Procedural terrain heightmap and colormap engine.
//!
//! The library generates paired grayscale height grids and RGBA
//! classification color grids from layered coherent noise, composites
//! layers with alpha blending, maps heights to a biome color ramp,
//! clamps height ranges, and mutates both grids together through
//! thermal and hydraulic (river) erosion passes, before filtered
//! resizing for export.

use vstd::prelude::*;

pub mod blend;
pub mod clamp;
pub mod colorize;
pub mod config;
pub mod errors;
pub mod grid;
pub mod modes;
pub mod noise_field;
pub mod ramp;
pub mod resample;
pub mod river;
pub mod thermal;

verus! {

/// A single RGBA pixel, the unit of every grid in the engine.
#[derive(Clone, Copy, PartialEq, Eq, Structural, Debug)]
pub struct Rgba8 {
    pub r: u8,
    pub g: u8,
    pub b: u8,
    pub a: u8,
}

} // verus!
