//! The biome color ramp.
//!
//! Ten anchor colors span the intensity range 0..=255, from deep water
//! through grassland and hills up to mountain tips.  Height-to-color
//! mapping interpolates linearly between adjacent anchors; erosion and
//! river passes recolor carved pixels with the water anchor (index 0).

use vstd::prelude::*;
use crate::Rgba8;

verus! {

/// The number of anchor colors in the ramp.
pub open spec fn ramp_len() -> int {
    10
}

/// The anchor color at ramp index `i` (out-of-range indices fold onto
/// the nearest end).
pub open spec fn ramp_anchor(i: int) -> Rgba8 {
    if i <= 0 {
        Rgba8 { r: 0, g: 0, b: 200, a: 255 }
    } else if i == 1 {
        Rgba8 { r: 0, g: 200, b: 255, a: 255 }
    } else if i == 2 {
        Rgba8 { r: 0, g: 128, b: 0, a: 255 }
    } else if i == 3 {
        Rgba8 { r: 60, g: 160, b: 0, a: 255 }
    } else if i == 4 {
        Rgba8 { r: 100, g: 140, b: 0, a: 255 }
    } else if i == 5 {
        Rgba8 { r: 139, g: 69, b: 19, a: 255 }
    } else if i == 6 {
        Rgba8 { r: 139, g: 100, b: 60, a: 255 }
    } else if i == 7 {
        Rgba8 { r: 105, g: 105, b: 105, a: 255 }
    } else if i == 8 {
        Rgba8 { r: 192, g: 192, b: 192, a: 255 }
    } else {
        Rgba8 { r: 255, g: 255, b: 255, a: 255 }
    }
}

/// The water anchor, used to recolor clamped and carved pixels.
pub open spec fn water_color() -> Rgba8 {
    ramp_anchor(0)
}

/// The anchor color at ramp index `i`.
pub fn ramp_anchor_at(i: usize) -> (p: Rgba8)
    requires
        i < ramp_len(),
    ensures
        p == ramp_anchor(i as int),
{
    if i == 0 {
        Rgba8 { r: 0, g: 0, b: 200, a: 255 }
    } else if i == 1 {
        Rgba8 { r: 0, g: 200, b: 255, a: 255 }
    } else if i == 2 {
        Rgba8 { r: 0, g: 128, b: 0, a: 255 }
    } else if i == 3 {
        Rgba8 { r: 60, g: 160, b: 0, a: 255 }
    } else if i == 4 {
        Rgba8 { r: 100, g: 140, b: 0, a: 255 }
    } else if i == 5 {
        Rgba8 { r: 139, g: 69, b: 19, a: 255 }
    } else if i == 6 {
        Rgba8 { r: 139, g: 100, b: 60, a: 255 }
    } else if i == 7 {
        Rgba8 { r: 105, g: 105, b: 105, a: 255 }
    } else if i == 8 {
        Rgba8 { r: 192, g: 192, b: 192, a: 255 }
    } else {
        Rgba8 { r: 255, g: 255, b: 255, a: 255 }
    }
}

/// The water anchor, as an executable value.
pub fn water_color_at() -> (p: Rgba8)
    ensures
        p == water_color(),
{
    Rgba8 { r: 0, g: 0, b: 200, a: 255 }
}

} // verus!
