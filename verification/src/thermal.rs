//! The thermal-erosion cellular automaton.
//!
//! Each iteration reads a frozen snapshot of both grids and rewrites
//! the live grids from it, so every pixel decision within one
//! iteration sees only the pre-iteration state.  For each interior
//! pixel the eight neighbors are scanned in a fixed row-major order;
//! the first neighbor that triggers the mode's erosion rule donates
//! its height *and* color to the center, keeping the two grids paired.
//! Border pixels are never touched.

use vstd::prelude::*;
use crate::Rgba8;
use crate::errors::HeightmapError;
use crate::grid::PixelGrid;
use crate::grid::lemma_grid_index;
use crate::grid::lemma_index_decompose;
use crate::modes::ErosionMode;

verus! {

/// The row-major index of position `(x, y)` in a grid of width `w`.
pub open spec fn gidx(w: int, x: int, y: int) -> int {
    y * w + x
}

/// `(x, y)` is an interior position: erosion never touches the
/// outermost ring.
pub open spec fn interior(w: int, h: int, x: int, y: int) -> bool {
    1 <= x < w - 1 && 1 <= y < h - 1
}

/// Whether the center pixel erodes toward the given neighbor under the
/// mode's rule.  The talus threshold is the slope limit scaled by 255,
/// so a channel delta strictly above it marks unstable material.
pub open spec fn spec_should_erode(
    center: Rgba8,
    neighbor: Rgba8,
    talus_angle: int,
    mode: ErosionMode,
) -> bool {
    match mode {
        ErosionMode::Disabled => false,
        ErosionMode::Standard => neighbor.r < center.r || neighbor.g < center.g || neighbor.b
            < center.b,
        ErosionMode::Talus => center.r - neighbor.r > talus_angle || center.g - neighbor.g
            > talus_angle || center.b - neighbor.b > talus_angle,
    }
}

/// The first neighbor of `(x, y)`, in the fixed scan order
/// (-1,-1), (-1,0), (-1,1), (0,-1), (0,1), (1,-1), (1,0), (1,1),
/// that triggers erosion; earlier-scanned neighbors win ties.
pub open spec fn erode_source(
    ph: Seq<Rgba8>,
    w: int,
    x: int,
    y: int,
    t: int,
    m: ErosionMode,
) -> Option<(int, int)> {
    let c = ph[gidx(w, x, y)];
    if spec_should_erode(c, ph[gidx(w, x - 1, y - 1)], t, m) {
        Some((x - 1, y - 1))
    } else if spec_should_erode(c, ph[gidx(w, x - 1, y)], t, m) {
        Some((x - 1, y))
    } else if spec_should_erode(c, ph[gidx(w, x - 1, y + 1)], t, m) {
        Some((x - 1, y + 1))
    } else if spec_should_erode(c, ph[gidx(w, x, y - 1)], t, m) {
        Some((x, y - 1))
    } else if spec_should_erode(c, ph[gidx(w, x, y + 1)], t, m) {
        Some((x, y + 1))
    } else if spec_should_erode(c, ph[gidx(w, x + 1, y - 1)], t, m) {
        Some((x + 1, y - 1))
    } else if spec_should_erode(c, ph[gidx(w, x + 1, y)], t, m) {
        Some((x + 1, y))
    } else if spec_should_erode(c, ph[gidx(w, x + 1, y + 1)], t, m) {
        Some((x + 1, y + 1))
    } else {
        None
    }
}

/// The height pixel `(x, y)` holds after one iteration over the
/// snapshot `ph`.
pub open spec fn pass_target_h(
    ph: Seq<Rgba8>,
    w: int,
    h: int,
    t: int,
    m: ErosionMode,
    x: int,
    y: int,
) -> Rgba8 {
    if interior(w, h, x, y) {
        match erode_source(ph, w, x, y, t, m) {
            Some(s) => ph[gidx(w, s.0, s.1)],
            None => ph[gidx(w, x, y)],
        }
    } else {
        ph[gidx(w, x, y)]
    }
}

/// The color pixel `(x, y)` holds after one iteration: it follows the
/// same donor decision as the height pixel, taken on the height
/// snapshot.
pub open spec fn pass_target_c(
    ph: Seq<Rgba8>,
    pc: Seq<Rgba8>,
    w: int,
    h: int,
    t: int,
    m: ErosionMode,
    x: int,
    y: int,
) -> Rgba8 {
    if interior(w, h, x, y) {
        match erode_source(ph, w, x, y, t, m) {
            Some(s) => pc[gidx(w, s.0, s.1)],
            None => pc[gidx(w, x, y)],
        }
    } else {
        pc[gidx(w, x, y)]
    }
}

/// The whole height grid after one iteration.
pub open spec fn thermal_pass_h(ph: Seq<Rgba8>, w: int, h: int, t: int, m: ErosionMode) -> Seq<
    Rgba8,
> {
    Seq::new(ph.len(), |i: int| pass_target_h(ph, w, h, t, m, i % w, i / w))
}

/// The whole color grid after one iteration.
pub open spec fn thermal_pass_c(
    ph: Seq<Rgba8>,
    pc: Seq<Rgba8>,
    w: int,
    h: int,
    t: int,
    m: ErosionMode,
) -> Seq<Rgba8> {
    Seq::new(pc.len(), |i: int| pass_target_c(ph, pc, w, h, t, m, i % w, i / w))
}

/// Both grids after `n` full iterations.
pub open spec fn thermal_run(
    ph: Seq<Rgba8>,
    pc: Seq<Rgba8>,
    w: int,
    h: int,
    t: int,
    m: ErosionMode,
    n: nat,
) -> (Seq<Rgba8>, Seq<Rgba8>)
    decreases n,
{
    if n == 0 {
        (ph, pc)
    } else {
        let prev = thermal_run(ph, pc, w, h, t, m, (n - 1) as nat);
        (thermal_pass_h(prev.0, w, h, t, m), thermal_pass_c(prev.0, prev.1, w, h, t, m))
    }
}

/// A disabled automaton is a no-op: with mode `Disabled` both grids
/// are byte-identical to their inputs after any number of iterations.
pub proof fn lemma_thermal_run_disabled(
    ph: Seq<Rgba8>,
    pc: Seq<Rgba8>,
    w: int,
    h: int,
    t: int,
    n: nat,
)
    requires
        0 <= w,
        0 <= h,
        ph.len() == w * h,
        pc.len() == w * h,
    ensures
        thermal_run(ph, pc, w, h, t, ErosionMode::Disabled, n) == (ph, pc),
    decreases n,
{
    if n > 0 {
        lemma_thermal_run_disabled(ph, pc, w, h, t, (n - 1) as nat);
        assert forall|i: int| 0 <= i < ph.len() implies pass_target_h(
            ph,
            w,
            h,
            t,
            ErosionMode::Disabled,
            i % w,
            i / w,
        ) == ph[i] by {
            lemma_index_decompose(i, w, h);
        }
        assert forall|i: int| 0 <= i < pc.len() implies pass_target_c(
            ph,
            pc,
            w,
            h,
            t,
            ErosionMode::Disabled,
            i % w,
            i / w,
        ) == pc[i] by {
            lemma_index_decompose(i, w, h);
        }
        assert(thermal_pass_h(ph, w, h, t, ErosionMode::Disabled) =~= ph);
        assert(thermal_pass_c(ph, pc, w, h, t, ErosionMode::Disabled) =~= pc);
    }
}

/// The erosion rule, executably.
fn should_erode(center: Rgba8, neighbor: Rgba8, talus_angle: u8, erosion_mode: ErosionMode) -> (r:
    bool)
    ensures
        r == spec_should_erode(center, neighbor, talus_angle as int, erosion_mode),
{
    match erosion_mode {
        ErosionMode::Disabled => false,
        ErosionMode::Standard => neighbor.r < center.r || neighbor.g < center.g || neighbor.b
            < center.b,
        ErosionMode::Talus => center.r as i32 - neighbor.r as i32 > talus_angle as i32 || center.g
            as i32 - neighbor.g as i32 > talus_angle as i32 || center.b as i32 - neighbor.b as i32
            > talus_angle as i32,
    }
}

/// One full iteration over frozen snapshots of both grids.
fn thermal_pass(
    heightmap: &mut PixelGrid,
    colormap: &mut PixelGrid,
    talus_angle: u8,
    erosion_mode: ErosionMode,
)
    requires
        old(heightmap).wf(),
        old(colormap).wf(),
        old(heightmap).same_shape(*old(colormap)),
    ensures
        final(heightmap).wf(),
        final(colormap).wf(),
        final(heightmap).same_shape(*old(heightmap)),
        final(colormap).same_shape(*old(colormap)),
        final(heightmap)@ == thermal_pass_h(
            old(heightmap)@,
            old(heightmap).spec_width(),
            old(heightmap).spec_height(),
            talus_angle as int,
            erosion_mode,
        ),
        final(colormap)@ == thermal_pass_c(
            old(heightmap)@,
            old(colormap)@,
            old(heightmap).spec_width(),
            old(heightmap).spec_height(),
            talus_angle as int,
            erosion_mode,
        ),
{
    let w: usize = heightmap.width();
    let h: usize = heightmap.height();
    let ghost wi: int = w as int;
    let ghost hi: int = h as int;
    let ghost t: int = talus_angle as int;
    if w < 3 || h < 3 {
        proof {
            assert forall|i: int| 0 <= i < heightmap@.len() implies pass_target_h(
                heightmap@,
                wi,
                hi,
                t,
                erosion_mode,
                i % wi,
                i / wi,
            ) == heightmap@[i] by {
                lemma_index_decompose(i, wi, hi);
            }
            assert forall|i: int| 0 <= i < colormap@.len() implies pass_target_c(
                heightmap@,
                colormap@,
                wi,
                hi,
                t,
                erosion_mode,
                i % wi,
                i / wi,
            ) == colormap@[i] by {
                lemma_index_decompose(i, wi, hi);
            }
            assert(thermal_pass_h(heightmap@, wi, hi, t, erosion_mode) =~= heightmap@);
            assert(thermal_pass_c(heightmap@, colormap@, wi, hi, t, erosion_mode) =~= colormap@);
        }
        return ;
    }
    let prev_h: PixelGrid = heightmap.dup();
    let prev_c: PixelGrid = colormap.dup();
    let mut y: usize = 1;
    while y < h - 1
        invariant
            3 <= w,
            3 <= h,
            1 <= y <= h - 1,
            wi == w as int,
            hi == h as int,
            t == talus_angle as int,
            prev_h@ == old(heightmap)@,
            prev_c@ == old(colormap)@,
            prev_h.wf(),
            prev_c.wf(),
            prev_h.spec_width() == wi,
            prev_h.spec_height() == hi,
            prev_c.spec_width() == wi,
            prev_c.spec_height() == hi,
            heightmap.wf(),
            colormap.wf(),
            heightmap.spec_width() == wi,
            heightmap.spec_height() == hi,
            colormap.spec_width() == wi,
            colormap.spec_height() == hi,
            forall|xi: int, yi: int|
                0 <= xi < wi && 0 <= yi < hi && yi < y ==> heightmap@[gidx(wi, xi, yi)]
                    == pass_target_h(prev_h@, wi, hi, t, erosion_mode, xi, yi),
            forall|xi: int, yi: int|
                0 <= xi < wi && 0 <= yi < hi && yi >= y ==> heightmap@[gidx(wi, xi, yi)]
                    == prev_h@[gidx(wi, xi, yi)],
            forall|xi: int, yi: int|
                0 <= xi < wi && 0 <= yi < hi && yi < y ==> colormap@[gidx(wi, xi, yi)]
                    == pass_target_c(prev_h@, prev_c@, wi, hi, t, erosion_mode, xi, yi),
            forall|xi: int, yi: int|
                0 <= xi < wi && 0 <= yi < hi && yi >= y ==> colormap@[gidx(wi, xi, yi)]
                    == prev_c@[gidx(wi, xi, yi)],
        decreases h - 1 - y,
    {
        let mut x: usize = 1;
        while x < w - 1
            invariant
                3 <= w,
                3 <= h,
                1 <= y < h - 1,
                1 <= x <= w - 1,
                wi == w as int,
                hi == h as int,
                t == talus_angle as int,
                prev_h@ == old(heightmap)@,
                prev_c@ == old(colormap)@,
                prev_h.wf(),
                prev_c.wf(),
                prev_h.spec_width() == wi,
                prev_h.spec_height() == hi,
                prev_c.spec_width() == wi,
                prev_c.spec_height() == hi,
                heightmap.wf(),
                colormap.wf(),
                heightmap.spec_width() == wi,
                heightmap.spec_height() == hi,
                colormap.spec_width() == wi,
                colormap.spec_height() == hi,
                forall|xi: int, yi: int|
                    0 <= xi < wi && 0 <= yi < hi && (yi < y || (yi == y && xi < x))
                        ==> heightmap@[gidx(wi, xi, yi)] == pass_target_h(
                        prev_h@,
                        wi,
                        hi,
                        t,
                        erosion_mode,
                        xi,
                        yi,
                    ),
                forall|xi: int, yi: int|
                    0 <= xi < wi && 0 <= yi < hi && (yi > y || (yi == y && xi >= x))
                        ==> heightmap@[gidx(wi, xi, yi)] == prev_h@[gidx(wi, xi, yi)],
                forall|xi: int, yi: int|
                    0 <= xi < wi && 0 <= yi < hi && (yi < y || (yi == y && xi < x))
                        ==> colormap@[gidx(wi, xi, yi)] == pass_target_c(
                        prev_h@,
                        prev_c@,
                        wi,
                        hi,
                        t,
                        erosion_mode,
                        xi,
                        yi,
                    ),
                forall|xi: int, yi: int|
                    0 <= xi < wi && 0 <= yi < hi && (yi > y || (yi == y && xi >= x))
                        ==> colormap@[gidx(wi, xi, yi)] == prev_c@[gidx(wi, xi, yi)],
            decreases w - 1 - x,
        {
            let center: Rgba8 = prev_h.get(x, y);
            let mut found: bool = false;
            let mut sx: usize = x;
            let mut sy: usize = y;
            if should_erode(center, prev_h.get(x - 1, y - 1), talus_angle, erosion_mode) {
                found = true;
                sx = x - 1;
                sy = y - 1;
            } else if should_erode(center, prev_h.get(x - 1, y), talus_angle, erosion_mode) {
                found = true;
                sx = x - 1;
                sy = y;
            } else if should_erode(center, prev_h.get(x - 1, y + 1), talus_angle, erosion_mode) {
                found = true;
                sx = x - 1;
                sy = y + 1;
            } else if should_erode(center, prev_h.get(x, y - 1), talus_angle, erosion_mode) {
                found = true;
                sx = x;
                sy = y - 1;
            } else if should_erode(center, prev_h.get(x, y + 1), talus_angle, erosion_mode) {
                found = true;
                sx = x;
                sy = y + 1;
            } else if should_erode(center, prev_h.get(x + 1, y - 1), talus_angle, erosion_mode) {
                found = true;
                sx = x + 1;
                sy = y - 1;
            } else if should_erode(center, prev_h.get(x + 1, y), talus_angle, erosion_mode) {
                found = true;
                sx = x + 1;
                sy = y;
            } else if should_erode(center, prev_h.get(x + 1, y + 1), talus_angle, erosion_mode) {
                found = true;
                sx = x + 1;
                sy = y + 1;
            }
            proof {
                if found {
                    assert(erode_source(prev_h@, wi, x as int, y as int, t, erosion_mode) == Some(
                        (sx as int, sy as int),
                    ));
                } else {
                    assert(erode_source(prev_h@, wi, x as int, y as int, t, erosion_mode)
                        is None);
                }
            }
            if found {
                let donor_h: Rgba8 = prev_h.get(sx, sy);
                let donor_c: Rgba8 = prev_c.get(sx, sy);
                heightmap.set(x, y, donor_h);
                colormap.set(x, y, donor_c);
            }
            proof {
                lemma_grid_index(x as int, y as int, wi, hi);
                assert forall|xi: int, yi: int|
                    0 <= xi < wi && 0 <= yi < hi && !(xi == x as int && yi == y as int)
                        implies gidx(wi, xi, yi) != gidx(wi, x as int, y as int) by {
                    lemma_grid_index(xi, yi, wi, hi);
                }
                assert(heightmap@[gidx(wi, x as int, y as int)] == pass_target_h(
                    prev_h@,
                    wi,
                    hi,
                    t,
                    erosion_mode,
                    x as int,
                    y as int,
                ));
                assert(colormap@[gidx(wi, x as int, y as int)] == pass_target_c(
                    prev_h@,
                    prev_c@,
                    wi,
                    hi,
                    t,
                    erosion_mode,
                    x as int,
                    y as int,
                ));
                assert forall|xi: int, yi: int|
                    0 <= xi < wi && 0 <= yi < hi && (yi < y as int || (yi == y as int && xi < x
                        as int + 1)) implies heightmap@[gidx(wi, xi, yi)] == pass_target_h(
                    prev_h@,
                    wi,
                    hi,
                    t,
                    erosion_mode,
                    xi,
                    yi,
                ) by {
                    lemma_grid_index(xi, yi, wi, hi);
                }
                assert forall|xi: int, yi: int|
                    0 <= xi < wi && 0 <= yi < hi && (yi > y as int || (yi == y as int && xi >= x
                        as int + 1)) implies heightmap@[gidx(wi, xi, yi)] == prev_h@[gidx(
                    wi,
                    xi,
                    yi,
                )] by {
                    lemma_grid_index(xi, yi, wi, hi);
                }
                assert forall|xi: int, yi: int|
                    0 <= xi < wi && 0 <= yi < hi && (yi < y as int || (yi == y as int && xi < x
                        as int + 1)) implies colormap@[gidx(wi, xi, yi)] == pass_target_c(
                    prev_h@,
                    prev_c@,
                    wi,
                    hi,
                    t,
                    erosion_mode,
                    xi,
                    yi,
                ) by {
                    lemma_grid_index(xi, yi, wi, hi);
                }
                assert forall|xi: int, yi: int|
                    0 <= xi < wi && 0 <= yi < hi && (yi > y as int || (yi == y as int && xi >= x
                        as int + 1)) implies colormap@[gidx(wi, xi, yi)] == prev_c@[gidx(
                    wi,
                    xi,
                    yi,
                )] by {
                    lemma_grid_index(xi, yi, wi, hi);
                }
            }
            x = x + 1;
        }
        proof {
            assert forall|xi: int, yi: int|
                0 <= xi < wi && 0 <= yi < hi && yi < y as int + 1 implies heightmap@[gidx(
                wi,
                xi,
                yi,
            )] == pass_target_h(prev_h@, wi, hi, t, erosion_mode, xi, yi) by {
                lemma_grid_index(xi, yi, wi, hi);
            }
            assert forall|xi: int, yi: int|
                0 <= xi < wi && 0 <= yi < hi && yi < y as int + 1 implies colormap@[gidx(
                wi,
                xi,
                yi,
            )] == pass_target_c(prev_h@, prev_c@, wi, hi, t, erosion_mode, xi, yi) by {
                lemma_grid_index(xi, yi, wi, hi);
            }
        }
        y = y + 1;
    }
    proof {
        assert forall|i: int| 0 <= i < heightmap@.len() implies heightmap@[i] == pass_target_h(
            prev_h@,
            wi,
            hi,
            t,
            erosion_mode,
            i % wi,
            i / wi,
        ) by {
            lemma_index_decompose(i, wi, hi);
        }
        assert forall|i: int| 0 <= i < colormap@.len() implies colormap@[i] == pass_target_c(
            prev_h@,
            prev_c@,
            wi,
            hi,
            t,
            erosion_mode,
            i % wi,
            i / wi,
        ) by {
            lemma_index_decompose(i, wi, hi);
        }
        assert(heightmap@ =~= thermal_pass_h(prev_h@, wi, hi, t, erosion_mode));
        assert(colormap@ =~= thermal_pass_c(prev_h@, prev_c@, wi, hi, t, erosion_mode));
    }
}

/// Runs the thermal-erosion automaton for `iterations` full passes
/// over the paired height and color grids.
///
/// The mode code (0 none, 1 standard, 2 talus) is rejected with
/// `InvalidErosionMode` if unknown, and grids of different dimensions
/// with `DimensionMismatch`; a failed call changes nothing.  Mode 0
/// leaves both grids byte-identical whatever the iteration count.
pub fn thermal_erosion(
    heightmap: &mut PixelGrid,
    colormap: &mut PixelGrid,
    iterations: usize,
    talus_angle: u8,
    erosion_mode: i32,
) -> (r: Result<(), HeightmapError>)
    requires
        old(heightmap).wf(),
        old(colormap).wf(),
    ensures
        r is Err <==> (ErosionMode::spec_from_code(erosion_mode) is None || !old(
            heightmap,
        ).same_shape(*old(colormap))),
        r is Err ==> *final(heightmap) == *old(heightmap) && *final(colormap) == *old(colormap),
        ErosionMode::spec_from_code(erosion_mode) is None ==> r == Err::<
            (),
            HeightmapError,
        >(HeightmapError::InvalidErosionMode),
        ErosionMode::spec_from_code(erosion_mode) is Some && !old(heightmap).same_shape(
            *old(colormap),
        ) ==> r == Err::<(), HeightmapError>(HeightmapError::DimensionMismatch),
        r is Ok ==> final(heightmap).wf() && final(colormap).wf() && final(heightmap).same_shape(
            *old(heightmap),
        ) && final(colormap).same_shape(*old(colormap)) && (final(heightmap)@, final(colormap)@)
            == thermal_run(
            old(heightmap)@,
            old(colormap)@,
            old(heightmap).spec_width(),
            old(heightmap).spec_height(),
            talus_angle as int,
            ErosionMode::spec_from_code(erosion_mode).unwrap(),
            iterations as nat,
        ),
        r is Ok && ErosionMode::spec_from_code(erosion_mode) == Some(ErosionMode::Disabled) ==> (
        final(heightmap)@ == old(heightmap)@ && final(colormap)@ == old(colormap)@),
{
    let mode: ErosionMode = match ErosionMode::from_code(erosion_mode) {
        Ok(m) => m,
        Err(e) => {
            return Err(e);
        },
    };
    if heightmap.width() != colormap.width() || heightmap.height() != colormap.height() {
        return Err(HeightmapError::DimensionMismatch);
    }
    let ghost wi: int = heightmap.spec_width();
    let ghost hi: int = heightmap.spec_height();
    let ghost t: int = talus_angle as int;
    let mut k: usize = 0;
    while k < iterations
        invariant
            k <= iterations,
            wi == old(heightmap).spec_width(),
            hi == old(heightmap).spec_height(),
            t == talus_angle as int,
            heightmap.wf(),
            colormap.wf(),
            heightmap.spec_width() == wi,
            heightmap.spec_height() == hi,
            colormap.spec_width() == wi,
            colormap.spec_height() == hi,
            (heightmap@, colormap@) == thermal_run(
                old(heightmap)@,
                old(colormap)@,
                wi,
                hi,
                t,
                mode,
                k as nat,
            ),
        decreases iterations - k,
    {
        thermal_pass(heightmap, colormap, talus_angle, mode);
        k = k + 1;
    }
    proof {
        if mode == ErosionMode::Disabled {
            lemma_thermal_run_disabled(
                old(heightmap)@,
                old(colormap)@,
                wi,
                hi,
                t,
                iterations as nat,
            );
        }
    }
    Ok(())
}

} // verus!
