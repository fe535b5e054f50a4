//! Layer compositing.
//!
//! Two same-size grids are combined pixel by pixel.  All channel math
//! is 8-bit fixed point: a stored byte `v` stands for the fraction
//! `v / 255`, products are computed exactly in integers, and each
//! result is rounded to the nearest byte and saturated into 0..=255.
//! The composite alpha rule is shared by every blend mode.

use vstd::prelude::*;
use crate::Rgba8;
use crate::errors::HeightmapError;
use crate::grid::PixelGrid;
use crate::modes::BlendMode;

verus! {

/// Fixed-point interpolation from `a` toward `b` by `t / 255`,
/// rounded to the nearest integer.
pub open spec fn lerp255(a: int, b: int, t: int) -> int {
    (a * (255 - t) + b * t + 127) / 255
}

/// The multiply rule: the base channel interpolated toward the product
/// of both channels by the overlay alpha, in exact fixed point.
pub open spec fn multiply_mix(ca: int, cb: int, b: int) -> int {
    (ca * (255 - b) * 255 + ca * cb * b + 32512) / 65025
}

/// The screen rule: both channels weighted by their own alphas and
/// added, saturated at 255.
pub open spec fn screen_sum(ca: int, a: int, cb: int, b: int) -> int {
    let v = (ca * a + cb * b + 127) / 255;
    if v > 255 {
        255
    } else {
        v
    }
}

/// One output color channel, by blend mode.  `ca`/`a` are the base
/// channel and alpha, `cb`/`b` the overlay channel and alpha.
pub open spec fn blend_channel(mode: BlendMode, ca: int, a: int, cb: int, b: int) -> int {
    match mode {
        BlendMode::Normal => lerp255(ca, cb, b),
        BlendMode::Multiply => multiply_mix(ca, cb, b),
        BlendMode::Screen => screen_sum(ca, a, cb, b),
    }
}

/// The composite alpha shared by every blend mode:
/// `a' = a * (1 - b) + b` in fixed point.
pub open spec fn composite_alpha(a: int, b: int) -> int {
    lerp255(a, 255, b)
}

/// One blended output pixel.
pub open spec fn blend_pixel(mode: BlendMode, pa: Rgba8, pb: Rgba8) -> Rgba8 {
    Rgba8 {
        r: blend_channel(mode, pa.r as int, pa.a as int, pb.r as int, pb.a as int) as u8,
        g: blend_channel(mode, pa.g as int, pa.a as int, pb.g as int, pb.a as int) as u8,
        b: blend_channel(mode, pa.b as int, pa.a as int, pb.b as int, pb.a as int) as u8,
        a: composite_alpha(pa.a as int, pb.a as int) as u8,
    }
}

/// The whole blended grid, pixel by pixel.
pub open spec fn blend_grids(mode: BlendMode, a: Seq<Rgba8>, b: Seq<Rgba8>) -> Seq<Rgba8> {
    Seq::new(a.len(), |i: int| blend_pixel(mode, a[i], b[i]))
}

/// Interpolation between two bytes stays a byte.
pub proof fn lemma_lerp255_range(a: int, b: int, t: int)
    requires
        0 <= a <= 255,
        0 <= b <= 255,
        0 <= t <= 255,
    ensures
        0 <= lerp255(a, b, t) <= 255,
{
    assert(0 <= a * (255 - t) + b * t + 127 <= 255 * 255 + 127) by (nonlinear_arith)
        requires
            0 <= a <= 255,
            0 <= b <= 255,
            0 <= t <= 255,
    ;
    let num = a * (255 - t) + b * t + 127;
    vstd::arithmetic::div_mod::lemma_div_is_ordered(0, num, 255);
    vstd::arithmetic::div_mod::lemma_div_is_ordered(num, 65152, 255);
}

/// The multiply rule stays a byte.
pub proof fn lemma_multiply_range(ca: int, cb: int, b: int)
    requires
        0 <= ca <= 255,
        0 <= cb <= 255,
        0 <= b <= 255,
    ensures
        0 <= multiply_mix(ca, cb, b) <= 255,
{
    assert(0 <= ca * (255 - b) * 255 + ca * cb * b + 32512 <= 255 * 255 * 255 + 32512)
        by (nonlinear_arith)
        requires
            0 <= ca <= 255,
            0 <= cb <= 255,
            0 <= b <= 255,
    ;
    let num = ca * (255 - b) * 255 + ca * cb * b + 32512;
    vstd::arithmetic::div_mod::lemma_div_is_ordered(0, num, 65025);
    vstd::arithmetic::div_mod::lemma_div_is_ordered(num, 16613887, 65025);
}

/// The screen rule stays a byte.
pub proof fn lemma_screen_range(ca: int, a: int, cb: int, b: int)
    requires
        0 <= ca <= 255,
        0 <= a <= 255,
        0 <= cb <= 255,
        0 <= b <= 255,
    ensures
        0 <= screen_sum(ca, a, cb, b) <= 255,
{
    assert(0 <= ca * a + cb * b + 127) by (nonlinear_arith)
        requires
            0 <= ca,
            0 <= a,
            0 <= cb,
            0 <= b,
    ;
    let num = ca * a + cb * b + 127;
    vstd::arithmetic::div_mod::lemma_div_is_ordered(0, num, 255);
}

/// Every output channel is a byte, whatever the mode.
pub proof fn lemma_blend_channel_range(mode: BlendMode, ca: int, a: int, cb: int, b: int)
    requires
        0 <= ca <= 255,
        0 <= a <= 255,
        0 <= cb <= 255,
        0 <= b <= 255,
    ensures
        0 <= blend_channel(mode, ca, a, cb, b) <= 255,
{
    match mode {
        BlendMode::Normal => lemma_lerp255_range(ca, cb, b),
        BlendMode::Multiply => lemma_multiply_range(ca, cb, b),
        BlendMode::Screen => lemma_screen_range(ca, a, cb, b),
    }
}

/// Alpha correctness: whatever the blend mode, the composite alpha of
/// a blended pixel is exactly `a * (1 - b) + b` in rounded fixed
/// point, where `a` and `b` are the two source alphas.
pub proof fn lemma_blend_alpha_correct(mode: BlendMode, pa: Rgba8, pb: Rgba8)
    ensures
        blend_pixel(mode, pa, pb).a as int == composite_alpha(pa.a as int, pb.a as int),
{
    lemma_lerp255_range(pa.a as int, 255, pb.a as int);
}

/// One output color channel, executably.
fn blend_channel_px(mode: BlendMode, ca: u8, a: u8, cb: u8, b: u8) -> (r: u8)
    ensures
        r as int == blend_channel(mode, ca as int, a as int, cb as int, b as int),
{
    proof {
        lemma_blend_channel_range(mode, ca as int, a as int, cb as int, b as int);
    }
    let cai: u32 = ca as u32;
    let ai: u32 = a as u32;
    let cbi: u32 = cb as u32;
    let bi: u32 = b as u32;
    match mode {
        BlendMode::Normal => {
            proof {
                assert(cai * (255 - bi) <= 255 * 255 && cbi * bi <= 255 * 255) by (nonlinear_arith)
                    requires
                        cai <= 255,
                        cbi <= 255,
                        bi <= 255,
                ;
            }
            let num: u32 = cai * (255 - bi) + cbi * bi + 127;
            (num / 255) as u8
        },
        BlendMode::Multiply => {
            proof {
                assert(cai * (255 - bi) <= 255 * 255 && cai * (255 - bi) * 255 <= 255 * 255 * 255
                    && cai * cbi <= 255 * 255 && cai * cbi * bi <= 255 * 255 * 255)
                    by (nonlinear_arith)
                    requires
                        cai <= 255,
                        cbi <= 255,
                        bi <= 255,
                ;
            }
            let num: u32 = cai * (255 - bi) * 255 + cai * cbi * bi + 32512;
            (num / 65025) as u8
        },
        BlendMode::Screen => {
            proof {
                assert(cai * ai <= 255 * 255 && cbi * bi <= 255 * 255) by (nonlinear_arith)
                    requires
                        cai <= 255,
                        ai <= 255,
                        cbi <= 255,
                        bi <= 255,
                ;
            }
            let num: u32 = cai * ai + cbi * bi + 127;
            let v: u32 = num / 255;
            if v > 255 {
                255
            } else {
                v as u8
            }
        },
    }
}

/// One blended output pixel, executably.
fn blend_pixel_px(mode: BlendMode, pa: Rgba8, pb: Rgba8) -> (r: Rgba8)
    ensures
        r == blend_pixel(mode, pa, pb),
{
    proof {
        lemma_lerp255_range(pa.a as int, 255, pb.a as int);
        lemma_blend_channel_range(mode, pa.r as int, pa.a as int, pb.r as int, pb.a as int);
        lemma_blend_channel_range(mode, pa.g as int, pa.a as int, pb.g as int, pb.a as int);
        lemma_blend_channel_range(mode, pa.b as int, pa.a as int, pb.b as int, pb.a as int);
        assert(pa.a as u32 * (255 - pb.a as u32) <= 255 * 255) by (nonlinear_arith)
            requires
                pa.a <= 255,
                pb.a <= 255,
        ;
    }
    let aa: u32 = pa.a as u32;
    let ab: u32 = pb.a as u32;
    let alpha_num: u32 = aa * (255 - ab) + 255 * ab + 127;
    Rgba8 {
        r: blend_channel_px(mode, pa.r, pa.a, pb.r, pb.a),
        g: blend_channel_px(mode, pa.g, pa.a, pb.g, pb.a),
        b: blend_channel_px(mode, pa.b, pa.a, pb.b, pb.a),
        a: (alpha_num / 255) as u8,
    }
}

/// One overlay layer awaiting compositing: its grid and the blend
/// rule code it is folded in with.
pub struct NoiseLayer {
    /// The layer's grayscale noise grid, opacity in its alpha channel.
    pub buffer: PixelGrid,
    /// The blend rule code (0 normal, 1 multiply, 2 screen).
    pub blend_mode: i32,
}

/// The result of folding overlay layers over a base grid from left to
/// right, in exactly the order given; the first invalid mode or
/// mismatched layer stops the fold with its error.
pub open spec fn fold_layers_spec(
    base: Seq<Rgba8>,
    w: int,
    h: int,
    layers: Seq<NoiseLayer>,
) -> Result<Seq<Rgba8>, HeightmapError>
    decreases layers.len(),
{
    if layers.len() == 0 {
        Ok(base)
    } else {
        let l = layers[0];
        if BlendMode::spec_from_code(l.blend_mode) is None {
            Err(HeightmapError::InvalidBlendMode)
        } else if l.buffer.spec_width() != w || l.buffer.spec_height() != h {
            Err(HeightmapError::DimensionMismatch)
        } else {
            fold_layers_spec(
                blend_grids(BlendMode::spec_from_code(l.blend_mode).unwrap(), base, l.buffer@),
                w,
                h,
                layers.drop_first(),
            )
        }
    }
}

/// Folds the overlay layers over the base grid from left to right, in
/// the order given; order matters and is preserved exactly.
///
/// The fold stops at the first layer with an unknown blend-mode code
/// (`InvalidBlendMode`) or mismatched dimensions (`DimensionMismatch`).
pub fn blend_layer_stack(base: &PixelGrid, layers: &Vec<NoiseLayer>) -> (r: Result<
    PixelGrid,
    HeightmapError,
>)
    requires
        base.wf(),
        forall|i: int| 0 <= i < layers@.len() ==> (#[trigger] layers@[i]).buffer.wf(),
    ensures
        r matches Ok(g) ==> g.wf() && g.same_shape(*base) && Ok::<Seq<Rgba8>, HeightmapError>(g@)
            == fold_layers_spec(base@, base.spec_width(), base.spec_height(), layers@),
        r matches Err(e) ==> fold_layers_spec(base@, base.spec_width(), base.spec_height(), layers@)
            == Err::<Seq<Rgba8>, HeightmapError>(e),
{
    let ghost w: int = base.spec_width();
    let ghost h: int = base.spec_height();
    let n: usize = layers.len();
    let mut acc: PixelGrid = base.dup();
    let mut k: usize = 0;
    proof {
        assert(layers@.skip(0) =~= layers@);
    }
    while k < n
        invariant
            k <= n,
            n == layers@.len(),
            w == base.spec_width(),
            h == base.spec_height(),
            forall|i: int| 0 <= i < layers@.len() ==> (#[trigger] layers@[i]).buffer.wf(),
            acc.wf(),
            acc.spec_width() == w,
            acc.spec_height() == h,
            fold_layers_spec(base@, w, h, layers@) == fold_layers_spec(
                acc@,
                w,
                h,
                layers@.skip(k as int),
            ),
        decreases n - k,
    {
        let l: &NoiseLayer = &layers[k];
        proof {
            assert(layers@.skip(k as int)[0] == layers@[k as int]);
            assert(layers@.skip(k as int).drop_first() =~= layers@.skip(k as int + 1));
        }
        let blended: PixelGrid = match blend_buffers(&acc, &l.buffer, l.blend_mode) {
            Ok(g) => g,
            Err(e) => {
                return Err(e);
            },
        };
        acc = blended;
        k = k + 1;
    }
    proof {
        assert(layers@.skip(n as int) =~= Seq::<NoiseLayer>::empty());
    }
    Ok(acc)
}

/// Blends `buffer_b` over `buffer_a` under the blend rule named by
/// `blend_mode` (0 normal, 1 multiply, 2 screen).
///
/// An unknown code is rejected with `InvalidBlendMode`, and grids of
/// different dimensions with `DimensionMismatch`; otherwise the result
/// is the pixel-by-pixel composite, with the composite alpha
/// `a * (1 - b) + b` for every pixel in every mode.
pub fn blend_buffers(buffer_a: &PixelGrid, buffer_b: &PixelGrid, blend_mode: i32) -> (r: Result<
    PixelGrid,
    HeightmapError,
>)
    requires
        buffer_a.wf(),
        buffer_b.wf(),
    ensures
        r is Err <==> (BlendMode::spec_from_code(blend_mode) is None
            || !buffer_a.same_shape(*buffer_b)),
        BlendMode::spec_from_code(blend_mode) is None ==> r == Err::<
            PixelGrid,
            HeightmapError,
        >(HeightmapError::InvalidBlendMode),
        BlendMode::spec_from_code(blend_mode) is Some && !buffer_a.same_shape(*buffer_b) ==> r
            == Err::<PixelGrid, HeightmapError>(HeightmapError::DimensionMismatch),
        r matches Ok(g) ==> g.wf() && g.same_shape(*buffer_a) && g@ == blend_grids(
            BlendMode::spec_from_code(blend_mode).unwrap(),
            buffer_a@,
            buffer_b@,
        ),
        r matches Ok(g) ==> forall|i: int|
            0 <= i < g@.len() ==> (#[trigger] g@[i]).a as int == composite_alpha(
                buffer_a@[i].a as int,
                buffer_b@[i].a as int,
            ),
{
    let mode: BlendMode = match BlendMode::from_code(blend_mode) {
        Ok(m) => m,
        Err(e) => {
            return Err(e);
        },
    };
    if buffer_a.width() != buffer_b.width() || buffer_a.height() != buffer_b.height() {
        return Err(HeightmapError::DimensionMismatch);
    }
    let n: usize = buffer_a.len();
    let mut out: PixelGrid = buffer_a.dup();
    let mut i: usize = 0;
    while i < n
        invariant
            i <= n,
            n == buffer_a@.len(),
            n == buffer_b@.len(),
            out@.len() == n,
            out.spec_width() == buffer_a.spec_width(),
            out.spec_height() == buffer_a.spec_height(),
            forall|j: int| 0 <= j < i ==> out@[j] == blend_pixel(mode, buffer_a@[j], buffer_b@[j]),
        decreases n - i,
    {
        let pa: Rgba8 = buffer_a.get_lin(i);
        let pb: Rgba8 = buffer_b.get_lin(i);
        out.set_lin(i, blend_pixel_px(mode, pa, pb));
        i = i + 1;
    }
    proof {
        assert(out@ =~= blend_grids(mode, buffer_a@, buffer_b@));
        assert forall|j: int| 0 <= j < out@.len() implies (#[trigger] out@[j]).a as int
            == composite_alpha(buffer_a@[j].a as int, buffer_b@[j].a as int) by {
            lemma_blend_alpha_correct(mode, buffer_a@[j], buffer_b@[j]);
        }
    }
    Ok(out)
}

} // verus!
