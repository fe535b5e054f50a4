//! Height-to-biome colorization.
//!
//! Each height pixel's intensity is mapped into ramp index space and
//! the two neighboring anchor colors are interpolated linearly, in the
//! same rounded fixed point as blending.  The mapping is a pure
//! function of the height grid alone: it never consults existing color
//! data.

use vstd::prelude::*;
use crate::Rgba8;
use crate::blend::lerp255;
use crate::blend::lemma_lerp255_range;
use crate::grid::PixelGrid;
use crate::ramp::ramp_anchor;
use crate::ramp::ramp_anchor_at;
use crate::ramp::ramp_len;

verus! {

/// The ramp index below an intensity `v`: `floor(v / 255 * 9)`.
pub open spec fn ramp_index(v: int) -> int {
    v * (ramp_len() - 1) / 255
}

/// The interpolation remainder toward the next anchor, scaled by 255.
pub open spec fn ramp_frac(v: int) -> int {
    v * (ramp_len() - 1) % 255
}

/// The color a height pixel of intensity `p.r` maps to.
pub open spec fn colorize_pixel(p: Rgba8) -> Rgba8 {
    let i0 = ramp_index(p.r as int);
    let i1 = if i0 + 1 < ramp_len() {
        i0 + 1
    } else {
        ramp_len() - 1
    };
    let rm = ramp_frac(p.r as int);
    let c0 = ramp_anchor(i0);
    let c1 = ramp_anchor(i1);
    Rgba8 {
        r: lerp255(c0.r as int, c1.r as int, rm) as u8,
        g: lerp255(c0.g as int, c1.g as int, rm) as u8,
        b: lerp255(c0.b as int, c1.b as int, rm) as u8,
        a: lerp255(c0.a as int, c1.a as int, rm) as u8,
    }
}

/// The whole colorized grid, pixel by pixel.
pub open spec fn colorize_grid(h: Seq<Rgba8>) -> Seq<Rgba8> {
    Seq::new(h.len(), |i: int| colorize_pixel(h[i]))
}

/// Interpolating by a zero remainder returns the first color exactly.
pub proof fn lemma_lerp255_at_zero(a: int, b: int)
    requires
        0 <= a <= 255,
        0 <= b <= 255,
    ensures
        lerp255(a, b, 0) == a,
{
    vstd::arithmetic::div_mod::lemma_fundamental_div_mod_converse_div(a * 255 + 127, 255, a, 127);
}

/// The ends of the intensity range map onto the ends of the ramp: a
/// fully dark pixel takes the first anchor exactly and a fully bright
/// pixel the last, so colorizing an already saturated grid changes
/// nothing about those pixels.
pub proof fn lemma_colorize_extremes(p: Rgba8)
    ensures
        p.r == 0 ==> colorize_pixel(p) == ramp_anchor(0),
        p.r == 255 ==> colorize_pixel(p) == ramp_anchor(ramp_len() - 1),
{
    if p.r == 0 {
        let c0 = ramp_anchor(0);
        let c1 = ramp_anchor(1);
        lemma_lerp255_at_zero(c0.r as int, c1.r as int);
        lemma_lerp255_at_zero(c0.g as int, c1.g as int);
        lemma_lerp255_at_zero(c0.b as int, c1.b as int);
        lemma_lerp255_at_zero(c0.a as int, c1.a as int);
    }
    if p.r == 255 {
        let c9 = ramp_anchor(9);
        lemma_lerp255_at_zero(c9.r as int, c9.r as int);
        lemma_lerp255_at_zero(c9.g as int, c9.g as int);
        lemma_lerp255_at_zero(c9.b as int, c9.b as int);
        lemma_lerp255_at_zero(c9.a as int, c9.a as int);
    }
}

/// Colorization is idempotent on an already fully saturated grid:
/// when every height pixel is fully dark or fully bright, the colors
/// it produces map back onto themselves.
pub proof fn lemma_colorize_idempotent_on_saturated(h: Seq<Rgba8>)
    requires
        forall|i: int| 0 <= i < h.len() ==> (#[trigger] h[i]).r == 0 || h[i].r == 255,
    ensures
        colorize_grid(colorize_grid(h)) == colorize_grid(h),
{
    assert forall|i: int| 0 <= i < h.len() implies colorize_pixel(colorize_pixel(h[i]))
        == colorize_pixel(h[i]) by {
        lemma_colorize_extremes(h[i]);
        lemma_colorize_extremes(colorize_pixel(h[i]));
    }
    assert(colorize_grid(colorize_grid(h)) =~= colorize_grid(h));
}

/// One colorized pixel, executably.
fn colorize_pixel_px(p: Rgba8) -> (r: Rgba8)
    ensures
        r == colorize_pixel(p),
{
    let v: u32 = p.r as u32;
    let t: u32 = v * 9;
    let i0: u32 = t / 255;
    let rm: u32 = t % 255;
    proof {
        vstd::arithmetic::div_mod::lemma_div_is_ordered(t as int, 2295, 255);
        assert(2295int / 255 == 9);
    }
    let i1: u32 = if i0 + 1 < 10 {
        i0 + 1
    } else {
        9
    };
    let c0: Rgba8 = ramp_anchor_at(i0 as usize);
    let c1: Rgba8 = ramp_anchor_at(i1 as usize);
    proof {
        lemma_lerp255_range(c0.r as int, c1.r as int, rm as int);
        lemma_lerp255_range(c0.g as int, c1.g as int, rm as int);
        lemma_lerp255_range(c0.b as int, c1.b as int, rm as int);
        lemma_lerp255_range(c0.a as int, c1.a as int, rm as int);
    }
    let rr: u32 = (c0.r as u32 * (255 - rm) + c1.r as u32 * rm + 127) / 255;
    let gg: u32 = (c0.g as u32 * (255 - rm) + c1.g as u32 * rm + 127) / 255;
    let bb: u32 = (c0.b as u32 * (255 - rm) + c1.b as u32 * rm + 127) / 255;
    let aa: u32 = (c0.a as u32 * (255 - rm) + c1.a as u32 * rm + 127) / 255;
    Rgba8 { r: rr as u8, g: gg as u8, b: bb as u8, a: aa as u8 }
}

/// Derives the classification color grid from a height grid.
///
/// Every output pixel is the linear interpolation between the two ramp
/// anchors that bracket the pixel's intensity; intensity 0 maps to the
/// first anchor exactly and intensity 255 to the last.
pub fn colorize_buffer(img: &PixelGrid) -> (r: PixelGrid)
    requires
        img.wf(),
    ensures
        r.wf(),
        r.same_shape(*img),
        r@ == colorize_grid(img@),
        forall|i: int|
            0 <= i < img@.len() && img@[i].r == 0 ==> r@[i] == ramp_anchor(0),
        forall|i: int|
            0 <= i < img@.len() && img@[i].r == 255 ==> r@[i] == ramp_anchor(ramp_len() - 1),
{
    let n: usize = img.len();
    let mut out: PixelGrid = img.dup();
    let mut i: usize = 0;
    while i < n
        invariant
            i <= n,
            n == img@.len(),
            out@.len() == n,
            out.spec_width() == img.spec_width(),
            out.spec_height() == img.spec_height(),
            forall|j: int| 0 <= j < i ==> out@[j] == colorize_pixel(img@[j]),
        decreases n - i,
    {
        let p: Rgba8 = img.get_lin(i);
        out.set_lin(i, colorize_pixel_px(p));
        i = i + 1;
    }
    proof {
        assert(out@ =~= colorize_grid(img@));
        assert forall|i: int| 0 <= i < img@.len() && img@[i].r == 0 implies out@[i] == ramp_anchor(
            0,
        ) by {
            lemma_colorize_extremes(img@[i]);
        }
        assert forall|i: int|
            0 <= i < img@.len() && img@[i].r == 255 implies out@[i] == ramp_anchor(
            ramp_len() - 1,
        ) by {
            lemma_colorize_extremes(img@[i]);
        }
    }
    out
}

} // verus!
