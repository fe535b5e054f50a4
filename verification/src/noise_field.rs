//! Noise-field grid assembly.
//!
//! A noise field arrives as one quantized 8-bit sample per pixel,
//! drawn row-major from a coherent-noise collaborator that samples at
//! `((x + offsetX) * scale, (y + offsetY) * scale)` under an explicit
//! seed and normalizes into 0..=255.  This module assembles those
//! samples into a grayscale height grid (R = G = B = sample) whose
//! alpha carries the layer's opacity, and rejects invalid scales.
//! The result is a pure function of the samples and the opacity, so
//! identical inputs always yield bit-identical grids.

use vstd::prelude::*;
use crate::Rgba8;
use crate::errors::HeightmapError;
use crate::grid::PixelGrid;

verus! {

/// The grayscale grid a sample field and an opacity assemble into.
pub open spec fn noise_grid(samples: Seq<u8>, opacity: u8) -> Seq<Rgba8> {
    Seq::new(
        samples.len(),
        |i: int| Rgba8 { r: samples[i], g: samples[i], b: samples[i], a: opacity },
    )
}

/// Noise-grid assembly is a pure deterministic function: identical
/// sample fields and opacities always yield bit-identical grids.
pub proof fn lemma_noise_grid_deterministic(s1: Seq<u8>, o1: u8, s2: Seq<u8>, o2: u8)
    requires
        s1 == s2,
        o1 == o2,
    ensures
        noise_grid(s1, o1) == noise_grid(s2, o2),
{
}

/// Builds the grayscale noise grid for one layer from its quantized
/// sample field.
///
/// The layer's scale (in millionths) must be positive; a non-positive
/// scale cannot address the noise function and is rejected with
/// `InvalidParameter`.  The opacity byte becomes every pixel's alpha.
pub fn generate_perlin_noise_buffer(
    width: usize,
    height: usize,
    scale_micro: i64,
    opacity: u8,
    samples: &Vec<u8>,
) -> (r: Result<PixelGrid, HeightmapError>)
    requires
        samples@.len() == width * height,
    ensures
        r is Err <==> scale_micro <= 0,
        r is Err ==> r == Err::<PixelGrid, HeightmapError>(HeightmapError::InvalidParameter),
        r matches Ok(g) ==> g.wf() && g.spec_width() == width && g.spec_height() == height && g@
            == noise_grid(samples@, opacity),
{
    if scale_micro <= 0 {
        return Err(HeightmapError::InvalidParameter);
    }
    let n: usize = samples.len();
    let mut g: PixelGrid = PixelGrid::new(width, height, Rgba8 { r: 0, g: 0, b: 0, a: opacity });
    let mut i: usize = 0;
    while i < n
        invariant
            i <= n,
            n == samples@.len(),
            n == width * height,
            g@.len() == n,
            g.spec_width() == width,
            g.spec_height() == height,
            forall|j: int|
                0 <= j < i ==> g@[j] == (Rgba8 {
                    r: samples@[j],
                    g: samples@[j],
                    b: samples@[j],
                    a: opacity,
                }),
        decreases n - i,
    {
        let v: u8 = samples[i];
        g.set_lin(i, Rgba8 { r: v, g: v, b: v, a: opacity });
        i = i + 1;
    }
    proof {
        assert(g@ =~= noise_grid(samples@, opacity));
    }
    Ok(g)
}

} // verus!
