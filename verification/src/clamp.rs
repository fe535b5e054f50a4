//! Height clamping ("flatten" / water level).
//!
//! Every height pixel's color channels are clamped into a range.  When
//! the pass runs in water mode, a pixel that sat below the lower bound
//! and was raised onto it is also recolored to the ramp's water anchor
//! in the paired color grid; all other color pixels are untouched.

use vstd::prelude::*;
use crate::Rgba8;
use crate::errors::HeightmapError;
use crate::grid::PixelGrid;
use crate::ramp::water_color;
use crate::ramp::water_color_at;

verus! {

/// A channel capped at `hi`, then raised to at least `lo` (the lower
/// bound wins if the two conflict).
pub open spec fn clamp_channel(v: int, lo: int, hi: int) -> int {
    let capped = if v > hi {
        hi
    } else {
        v
    };
    if capped < lo {
        lo
    } else {
        capped
    }
}

/// A height pixel with its three color channels clamped; alpha is
/// untouched.
pub open spec fn clamp_pixel(p: Rgba8, lo: int, hi: int) -> Rgba8 {
    Rgba8 {
        r: clamp_channel(p.r as int, lo, hi) as u8,
        g: clamp_channel(p.g as int, lo, hi) as u8,
        b: clamp_channel(p.b as int, lo, hi) as u8,
        a: p.a,
    }
}

/// Some channel of the height pixel sat below the lower bound, so the
/// clamp raised it onto that bound.
pub open spec fn raised_to_floor(p: Rgba8, lo: int) -> bool {
    (p.r as int) < lo || (p.g as int) < lo || (p.b as int) < lo
}

/// The clamped height grid.
pub open spec fn clamp_height_grid(h: Seq<Rgba8>, lo: int, hi: int) -> Seq<Rgba8> {
    Seq::new(h.len(), |i: int| clamp_pixel(h[i], lo, hi))
}

/// The recolored color grid: in water mode, pixels whose height was
/// raised onto the lower bound take the water anchor.
pub open spec fn clamp_color_grid(h: Seq<Rgba8>, c: Seq<Rgba8>, as_water: bool, lo: int) -> Seq<
    Rgba8,
> {
    Seq::new(
        c.len(),
        |i: int|
            if as_water && raised_to_floor(h[i], lo) {
                water_color()
            } else {
                c[i]
            },
    )
}

/// Clamps every height channel into `min..=max` and, in water mode,
/// recolors the raised pixels' counterparts to the water anchor.
///
/// The two grids must be a matching pair; on `DimensionMismatch`
/// neither grid is changed.
pub fn clamp_image_buffer(
    img: &mut PixelGrid,
    colormap: &mut PixelGrid,
    as_water: bool,
    min: u8,
    max: u8,
) -> (r: Result<(), HeightmapError>)
    requires
        old(img).wf(),
        old(colormap).wf(),
    ensures
        r is Err <==> !old(img).same_shape(*old(colormap)),
        r is Err ==> r == Err::<(), HeightmapError>(HeightmapError::DimensionMismatch)
            && *final(img) == *old(img) && *final(colormap) == *old(colormap),
        r is Ok ==> final(img).wf() && final(colormap).wf() && final(img).same_shape(*old(img))
            && final(colormap).same_shape(*old(colormap)) && final(img)@ == clamp_height_grid(
            old(img)@,
            min as int,
            max as int,
        ) && final(colormap)@ == clamp_color_grid(
            old(img)@,
            old(colormap)@,
            as_water,
            min as int,
        ),
{
    if img.width() != colormap.width() || img.height() != colormap.height() {
        return Err(HeightmapError::DimensionMismatch);
    }
    let n: usize = img.len();
    let water: Rgba8 = water_color_at();
    let mut i: usize = 0;
    while i < n
        invariant
            i <= n,
            n == old(img)@.len(),
            n == old(colormap)@.len(),
            img.spec_width() == old(img).spec_width(),
            img.spec_height() == old(img).spec_height(),
            colormap.spec_width() == old(colormap).spec_width(),
            colormap.spec_height() == old(colormap).spec_height(),
            img@.len() == n,
            colormap@.len() == n,
            water == water_color(),
            forall|j: int| i <= j < n ==> img@[j] == old(img)@[j],
            forall|j: int| i <= j < n ==> colormap@[j] == old(colormap)@[j],
            forall|j: int|
                0 <= j < i ==> img@[j] == clamp_pixel(old(img)@[j], min as int, max as int),
            forall|j: int|
                0 <= j < i ==> colormap@[j] == (if as_water && raised_to_floor(
                    old(img)@[j],
                    min as int,
                ) {
                    water_color()
                } else {
                    old(colormap)@[j]
                }),
        decreases n - i,
    {
        let p: Rgba8 = img.get_lin(i);
        let rr: u8 = if p.r > max {
            max
        } else {
            p.r
        };
        let rr: u8 = if rr < min {
            min
        } else {
            rr
        };
        let gg: u8 = if p.g > max {
            max
        } else {
            p.g
        };
        let gg: u8 = if gg < min {
            min
        } else {
            gg
        };
        let bb: u8 = if p.b > max {
            max
        } else {
            p.b
        };
        let bb: u8 = if bb < min {
            min
        } else {
            bb
        };
        img.set_lin(i, Rgba8 { r: rr, g: gg, b: bb, a: p.a });
        if as_water && (p.r < min || p.g < min || p.b < min) {
            colormap.set_lin(i, water);
        }
        i = i + 1;
    }
    proof {
        assert(img@ =~= clamp_height_grid(old(img)@, min as int, max as int));
        assert(colormap@ =~= clamp_color_grid(old(img)@, old(colormap)@, as_water, min as int));
    }
    Ok(())
}

} // verus!
