//! Stochastic hydraulic ("river") erosion.
//!
//! A pseudo-random generator seeded from the explicit seed alone draws
//! an interior start position for each walker; each walker then rolls
//! downhill for a fixed number of steps, carving the lowest strictly
//! lower neighbor by the erosion factor and recoloring it to water.
//! Walkers run to completion one after another, so later walkers see
//! the channels earlier ones carved.  Everything after the seeded
//! draws is a pure function of the draws and the input grids, so a
//! fixed seed always reproduces the same carved result.

use vstd::prelude::*;
use rand::Rng;
use rand::SeedableRng;
use crate::Rgba8;
use crate::errors::HeightmapError;
use crate::grid::PixelGrid;
use crate::grid::lemma_grid_index;
use crate::ramp::water_color;
use crate::ramp::water_color_at;
use crate::thermal::gidx;
use crate::thermal::interior;

verus! {

/// The interior start coordinates that the generator seeded with
/// `seed` draws for `count` walkers on a `width` x `height` grid, in
/// walker-index order (start-x drawn before start-y for each walker).
pub uninterp spec fn start_points(seed: u64, count: usize, width: usize, height: usize) -> Seq<
    (usize, usize),
>;

/// Relies on rand's `StdRng` and `Rng::gen_range`: `StdRng` seeded via
/// `seed_from_u64` is a deterministic pseudo-random generator (ChaCha
/// with 12 rounds), a pure function of the seed, and `gen_range`
/// returns a value inside the given non-empty range.  The generator
/// state cannot be carried through verified code, so the whole draw
/// sequence is made in one call, in the fixed order the contract
/// names.
#[verifier::external_body]
fn river_start_points(seed: u64, count: usize, width: usize, height: usize) -> (r: Vec<
    (usize, usize),
>)
    requires
        width >= 3,
        height >= 3,
    ensures
        r@ == start_points(seed, count, width, height),
        r@.len() == count,
        forall|i: int|
            0 <= i < r@.len() ==> 1 <= (#[trigger] r@[i]).0 < width - 1 && 1 <= r@[i].1 < height
                - 1,
{
    let mut rng = rand::rngs::StdRng::seed_from_u64(seed);
    let mut v: Vec<(usize, usize)> = Vec::with_capacity(count);
    for _ in 0..count {
        let x = rng.gen_range(1..width - 1);
        let y = rng.gen_range(1..height - 1);
        v.push((x, y));
    }
    v
}

/// The height a stored pixel encodes (heightmaps keep R = G = B).
pub open spec fn pix_height(p: Rgba8) -> int {
    p.g as int
}

/// The carved height: the donor height minus the erosion factor,
/// clamped into a byte.
pub open spec fn carved_value(mh: int, factor: int) -> int {
    let v = mh - factor;
    if v < 0 {
        0
    } else if v > 255 {
        255
    } else {
        v
    }
}

/// One scan candidate update: a strictly lower neighbor replaces the
/// current candidate; ties keep the earlier-scanned one.
pub open spec fn scan_step(h: Seq<Rgba8>, w: int, cand: (int, int, int), nx: int, ny: int) -> (
    int,
    int,
    int,
) {
    let nh = pix_height(h[gidx(w, nx, ny)]);
    if nh < cand.0 {
        (nh, nx, ny)
    } else {
        cand
    }
}

/// The lowest of the eight neighbors of `(x, y)` (and its position),
/// scanned in the fixed row-major order; the center itself is the
/// initial candidate, so the result is the center when no neighbor is
/// strictly lower.
pub open spec fn lowest_neighbor(h: Seq<Rgba8>, w: int, x: int, y: int) -> (int, int, int) {
    let c0 = (pix_height(h[gidx(w, x, y)]), x, y);
    let c1 = scan_step(h, w, c0, x - 1, y - 1);
    let c2 = scan_step(h, w, c1, x - 1, y);
    let c3 = scan_step(h, w, c2, x - 1, y + 1);
    let c4 = scan_step(h, w, c3, x, y - 1);
    let c5 = scan_step(h, w, c4, x, y + 1);
    let c6 = scan_step(h, w, c5, x + 1, y - 1);
    let c7 = scan_step(h, w, c6, x + 1, y);
    scan_step(h, w, c7, x + 1, y + 1)
}

/// One walker step from `(x, y)`: on the border, or with no strictly
/// lower neighbor, the walker stalls in place; otherwise the lowest
/// neighbor is carved, recolored to water, and becomes the walker's
/// new position.
pub open spec fn river_step(
    h: Seq<Rgba8>,
    c: Seq<Rgba8>,
    w: int,
    hh: int,
    x: int,
    y: int,
    factor: int,
) -> (Seq<Rgba8>, Seq<Rgba8>, int, int) {
    if interior(w, hh, x, y) {
        let m = lowest_neighbor(h, w, x, y);
        if m.0 < pix_height(h[gidx(w, x, y)]) {
            let nv = carved_value(m.0, factor);
            let np = Rgba8 { r: nv as u8, g: nv as u8, b: nv as u8, a: 255 };
            (h.update(gidx(w, m.1, m.2), np), c.update(gidx(w, m.1, m.2), water_color()), m.1, m.2)
        } else {
            (h, c, x, y)
        }
    } else {
        (h, c, x, y)
    }
}

/// A walker after `steps` steps: both grids and the final position.
pub open spec fn walker_run(
    h: Seq<Rgba8>,
    c: Seq<Rgba8>,
    w: int,
    hh: int,
    x: int,
    y: int,
    factor: int,
    steps: nat,
) -> (Seq<Rgba8>, Seq<Rgba8>, int, int)
    decreases steps,
{
    if steps == 0 {
        (h, c, x, y)
    } else {
        let prev = walker_run(h, c, w, hh, x, y, factor, (steps - 1) as nat);
        river_step(prev.0, prev.1, w, hh, prev.2, prev.3, factor)
    }
}

/// Both grids after the given walkers have each run `steps` steps,
/// one after another in order.
pub open spec fn rivers_run(
    h: Seq<Rgba8>,
    c: Seq<Rgba8>,
    w: int,
    hh: int,
    starts: Seq<(usize, usize)>,
    steps: nat,
    factor: int,
) -> (Seq<Rgba8>, Seq<Rgba8>)
    decreases starts.len(),
{
    if starts.len() == 0 {
        (h, c)
    } else {
        let prev = rivers_run(h, c, w, hh, starts.drop_last(), steps, factor);
        let s = starts.last();
        let r = walker_run(prev.0, prev.1, w, hh, s.0 as int, s.1 as int, factor, steps);
        (r.0, r.1)
    }
}

/// The complete outcome of a river pass: a function of the input
/// grids and the explicit parameters alone, which is what makes the
/// pass reproducible for a fixed seed.
pub open spec fn river_outcome(
    h: Seq<Rgba8>,
    c: Seq<Rgba8>,
    width: usize,
    height: usize,
    rain_iterations: usize,
    erosion_factor: i16,
    num_rivers: usize,
    seed: u64,
) -> (Seq<Rgba8>, Seq<Rgba8>) {
    if num_rivers == 0 {
        (h, c)
    } else {
        rivers_run(
            h,
            c,
            width as int,
            height as int,
            start_points(seed, num_rivers, width, height),
            rain_iterations as nat,
            erosion_factor as int,
        )
    }
}

/// The river pass is reproducible: over the same initial grids, the
/// same parameters and the same fixed seed, two runs produce
/// identical carved results, because the outcome is a function of
/// those inputs alone.
pub proof fn lemma_river_outcome_deterministic(
    h1: Seq<Rgba8>,
    c1: Seq<Rgba8>,
    h2: Seq<Rgba8>,
    c2: Seq<Rgba8>,
    width: usize,
    height: usize,
    rain_iterations: usize,
    erosion_factor: i16,
    num_rivers: usize,
    seed: u64,
)
    requires
        h1 == h2,
        c1 == c2,
    ensures
        river_outcome(h1, c1, width, height, rain_iterations, erosion_factor, num_rivers, seed)
            == river_outcome(
            h2,
            c2,
            width,
            height,
            rain_iterations,
            erosion_factor,
            num_rivers,
            seed,
        ),
{
}

/// Walkers that take no steps leave the grids unchanged.
pub proof fn lemma_rivers_run_zero_steps(
    h: Seq<Rgba8>,
    c: Seq<Rgba8>,
    w: int,
    hh: int,
    starts: Seq<(usize, usize)>,
    factor: int,
)
    ensures
        rivers_run(h, c, w, hh, starts, 0, factor) == (h, c),
    decreases starts.len(),
{
    if starts.len() > 0 {
        lemma_rivers_run_zero_steps(h, c, w, hh, starts.drop_last(), factor);
    }
}

/// Simulates `num_rivers` seeded downhill walkers over the paired
/// grids, each for up to `rain_iterations` steps.
///
/// Grids of different dimensions are rejected with
/// `DimensionMismatch`; walkers on a grid with no interior pixels
/// with `InvalidParameter`; a failed call changes nothing.  The carved
/// result is a pure function of the input grids, the parameters and
/// the seed, so a fixed seed reproduces it exactly; zero rivers or
/// zero iterations leave both grids unchanged.
pub fn simulate_river_flow(
    heightmap: &mut PixelGrid,
    colormap: &mut PixelGrid,
    rain_iterations: usize,
    erosion_factor: i16,
    num_rivers: usize,
    fixed_seed: u64,
) -> (r: Result<(), HeightmapError>)
    requires
        old(heightmap).wf(),
        old(colormap).wf(),
    ensures
        r is Err <==> (!old(heightmap).same_shape(*old(colormap)) || (num_rivers > 0 && (old(
            heightmap,
        ).spec_width() < 3 || old(heightmap).spec_height() < 3))),
        !old(heightmap).same_shape(*old(colormap)) ==> r == Err::<
            (),
            HeightmapError,
        >(HeightmapError::DimensionMismatch),
        old(heightmap).same_shape(*old(colormap)) && r is Err ==> r == Err::<
            (),
            HeightmapError,
        >(HeightmapError::InvalidParameter),
        r is Err ==> *final(heightmap) == *old(heightmap) && *final(colormap) == *old(colormap),
        r is Ok ==> final(heightmap).wf() && final(colormap).wf() && final(heightmap).same_shape(
            *old(heightmap),
        ) && final(colormap).same_shape(*old(colormap)) && (final(heightmap)@, final(colormap)@)
            == river_outcome(
            old(heightmap)@,
            old(colormap)@,
            old(heightmap).spec_width() as usize,
            old(heightmap).spec_height() as usize,
            rain_iterations,
            erosion_factor,
            num_rivers,
            fixed_seed,
        ),
        r is Ok && (num_rivers == 0 || rain_iterations == 0) ==> final(heightmap)@ == old(
            heightmap,
        )@ && final(colormap)@ == old(colormap)@,
{
    if heightmap.width() != colormap.width() || heightmap.height() != colormap.height() {
        return Err(HeightmapError::DimensionMismatch);
    }
    if num_rivers == 0 {
        return Ok(());
    }
    let w: usize = heightmap.width();
    let h: usize = heightmap.height();
    if w < 3 || h < 3 {
        return Err(HeightmapError::InvalidParameter);
    }
    let ghost wi: int = w as int;
    let ghost hi: int = h as int;
    let ghost f: int = erosion_factor as int;
    let ghost steps: nat = rain_iterations as nat;
    let starts: Vec<(usize, usize)> = river_start_points(fixed_seed, num_rivers, w, h);
    let water: Rgba8 = water_color_at();
    let mut k: usize = 0;
    while k < num_rivers
        invariant
            k <= num_rivers,
            3 <= w,
            3 <= h,
            wi == w as int,
            hi == h as int,
            f == erosion_factor as int,
            steps == rain_iterations as nat,
            water == water_color(),
            starts@ == start_points(fixed_seed, num_rivers, w, h),
            starts@.len() == num_rivers,
            forall|i: int|
                0 <= i < starts@.len() ==> 1 <= (#[trigger] starts@[i]).0 < w - 1 && 1
                    <= starts@[i].1 < h - 1,
            heightmap.wf(),
            colormap.wf(),
            heightmap.spec_width() == wi,
            heightmap.spec_height() == hi,
            colormap.spec_width() == wi,
            colormap.spec_height() == hi,
            old(heightmap).spec_width() == wi,
            old(heightmap).spec_height() == hi,
            old(colormap).spec_width() == wi,
            old(colormap).spec_height() == hi,
            rivers_run(
                old(heightmap)@,
                old(colormap)@,
                wi,
                hi,
                starts@.take(k as int),
                steps,
                f,
            ) == (heightmap@, colormap@),
        decreases num_rivers - k,
    {
        let start: (usize, usize) = starts[k];
        let mut x: usize = start.0;
        let mut y: usize = start.1;
        let ghost wh0: Seq<Rgba8> = heightmap@;
        let ghost wc0: Seq<Rgba8> = colormap@;
        let mut j: usize = 0;
        while j < rain_iterations
            invariant
                j <= rain_iterations,
                3 <= w,
                3 <= h,
                wi == w as int,
                hi == h as int,
                f == erosion_factor as int,
                water == water_color(),
                heightmap.wf(),
                colormap.wf(),
                heightmap.spec_width() == wi,
                heightmap.spec_height() == hi,
                colormap.spec_width() == wi,
                colormap.spec_height() == hi,
                0 <= x < w,
                0 <= y < h,
                walker_run(wh0, wc0, wi, hi, start.0 as int, start.1 as int, f, j as nat) == (
                    heightmap@,
                    colormap@,
                    x as int,
                    y as int,
                ),
            decreases rain_iterations - j,
        {
            if x >= 1 && x + 1 < w && y >= 1 && y + 1 < h {
                let ch: u8 = heightmap.get(x, y).g;
                let mut mh: u8 = ch;
                let mut mx: usize = x;
                let mut my: usize = y;
                let n1: u8 = heightmap.get(x - 1, y - 1).g;
                if n1 < mh {
                    mh = n1;
                    mx = x - 1;
                    my = y - 1;
                }
                let n2: u8 = heightmap.get(x - 1, y).g;
                if n2 < mh {
                    mh = n2;
                    mx = x - 1;
                    my = y;
                }
                let n3: u8 = heightmap.get(x - 1, y + 1).g;
                if n3 < mh {
                    mh = n3;
                    mx = x - 1;
                    my = y + 1;
                }
                let n4: u8 = heightmap.get(x, y - 1).g;
                if n4 < mh {
                    mh = n4;
                    mx = x;
                    my = y - 1;
                }
                let n5: u8 = heightmap.get(x, y + 1).g;
                if n5 < mh {
                    mh = n5;
                    mx = x;
                    my = y + 1;
                }
                let n6: u8 = heightmap.get(x + 1, y - 1).g;
                if n6 < mh {
                    mh = n6;
                    mx = x + 1;
                    my = y - 1;
                }
                let n7: u8 = heightmap.get(x + 1, y).g;
                if n7 < mh {
                    mh = n7;
                    mx = x + 1;
                    my = y;
                }
                let n8: u8 = heightmap.get(x + 1, y + 1).g;
                if n8 < mh {
                    mh = n8;
                    mx = x + 1;
                    my = y + 1;
                }
                proof {
                    assert(lowest_neighbor(heightmap@, wi, x as int, y as int) == (
                        mh as int,
                        mx as int,
                        my as int,
                    ));
                }
                if mh < ch {
                    let delta: i32 = mh as i32 - erosion_factor as i32;
                    let nv: u8 = if delta < 0 {
                        0
                    } else if delta > 255 {
                        255
                    } else {
                        delta as u8
                    };
                    proof {
                        assert(nv as int == carved_value(mh as int, f));
                        lemma_grid_index(mx as int, my as int, wi, hi);
                    }
                    heightmap.set(mx, my, Rgba8 { r: nv, g: nv, b: nv, a: 255 });
                    colormap.set(mx, my, water);
                    x = mx;
                    y = my;
                }
            }
            j = j + 1;
        }
        proof {
            assert(starts@.take(k as int + 1).drop_last() =~= starts@.take(k as int));
            assert(starts@.take(k as int + 1).last() == starts@[k as int]);
        }
        k = k + 1;
    }
    proof {
        assert(starts@.take(num_rivers as int) =~= starts@);
        if rain_iterations == 0 {
            lemma_rivers_run_zero_steps(old(heightmap)@, old(colormap)@, wi, hi, starts@, f);
        }
    }
    Ok(())
}

} // verus!
