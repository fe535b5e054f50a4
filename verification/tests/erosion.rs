//! Thermal and hydraulic erosion behavior.

use heightmap_gen::Rgba8;
use heightmap_gen::config::RiverConfig;
use heightmap_gen::errors::HeightmapError;
use heightmap_gen::grid::PixelGrid;
use heightmap_gen::river::simulate_river_flow;
use heightmap_gen::thermal::thermal_erosion;

fn px(r: u8, g: u8, b: u8, a: u8) -> Rgba8 {
    Rgba8 { r, g, b, a }
}

fn gray_grid(w: usize, h: usize, v: u8) -> PixelGrid {
    PixelGrid::new(w, h, px(v, v, v, 255))
}

#[test]
fn thermal_none_is_identity() {
    // mode 0 leaves both grids byte-identical after any iterations
    let mut height = gray_grid(5, 5, 100);
    height.set(2, 2, px(10, 10, 10, 255));
    let mut color = PixelGrid::new(5, 5, px(3, 4, 5, 6));
    let height0 = height.dup();
    let color0 = color.dup();
    thermal_erosion(&mut height, &mut color, 7, 0, 0).unwrap();
    assert!(height.same_as(&height0));
    assert!(color.same_as(&color0));
}

#[test]
fn thermal_rejects_unknown_mode() {
    let mut height = gray_grid(3, 3, 100);
    let mut color = gray_grid(3, 3, 100);
    assert_eq!(
        thermal_erosion(&mut height, &mut color, 1, 0, 5).unwrap_err(),
        HeightmapError::InvalidErosionMode
    );
}

#[test]
fn thermal_rejects_dimension_mismatch() {
    let mut height = gray_grid(3, 3, 100);
    let mut color = gray_grid(3, 4, 100);
    assert_eq!(
        thermal_erosion(&mut height, &mut color, 1, 0, 1).unwrap_err(),
        HeightmapError::DimensionMismatch
    );
}

#[test]
fn thermal_pit_spreads_to_higher_neighbors() {
    // a single low pit at (2,2) of a 4x4 grid: every interior pixel
    // whose first eligible neighbor (scanned from (-1,-1) in (dx,dy)
    // order) is the pit takes the pit's height and color pair
    let mut height = gray_grid(4, 4, 200);
    height.set(2, 2, px(50, 50, 50, 255));
    let mut color = PixelGrid::new(4, 4, px(9, 9, 9, 9));
    color.set(2, 2, px(1, 2, 3, 4));
    thermal_erosion(&mut height, &mut color, 1, 0, 1).unwrap();
    // interior pixels (1,1), (2,1), (1,2) see the pit as their first
    // strictly lower neighbor in scan order; the pit itself has none
    for (x, y) in [(1usize, 1usize), (2, 1), (1, 2)] {
        assert_eq!(height.get(x, y), px(50, 50, 50, 255));
        assert_eq!(color.get(x, y), px(1, 2, 3, 4));
    }
    assert_eq!(height.get(2, 2), px(50, 50, 50, 255));
    assert_eq!(color.get(2, 2), px(1, 2, 3, 4));
    // the border ring is never touched
    for i in 0..4usize {
        assert_eq!(height.get(i, 0), px(200, 200, 200, 255));
        assert_eq!(height.get(i, 3), px(200, 200, 200, 255));
        assert_eq!(height.get(0, i), px(200, 200, 200, 255));
        assert_eq!(height.get(3, i), px(200, 200, 200, 255));
        assert_eq!(color.get(i, 0), px(9, 9, 9, 9));
    }
}

#[test]
fn thermal_standard_uses_frozen_snapshot() {
    // both eligible interior pixels read the pre-iteration state, so a
    // pixel eroded this iteration still donates its old value
    let mut height = gray_grid(4, 3, 100);
    height.set(1, 1, px(80, 80, 80, 255));
    height.set(2, 1, px(90, 90, 90, 255));
    let mut color = colorize(&height);
    let color_at_11 = color.get(1, 1);
    thermal_erosion(&mut height, &mut color, 1, 0, 1).unwrap();
    // (1,1): first lower neighbor in scan order is none of the 100s;
    // no neighbor is lower than 80, so it keeps its value
    assert_eq!(height.get(1, 1), px(80, 80, 80, 255));
    // (2,1): the snapshot value of (1,1) is 80 < 90, its first lower
    // neighbor in scan order (dx=-1,dy=0 comes after (-1,-1)), so it
    // takes 80 with (1,1)'s color
    assert_eq!(height.get(2, 1), px(80, 80, 80, 255));
    assert_eq!(color.get(2, 1), color_at_11);
}

fn colorize(height: &PixelGrid) -> PixelGrid {
    heightmap_gen::colorize::colorize_buffer(height)
}

#[test]
fn thermal_talus_threshold() {
    // slope 20/255 erodes above threshold 19 but not above 30
    let mut height = gray_grid(3, 3, 200);
    height.set(0, 0, px(180, 180, 180, 255));
    let mut color = PixelGrid::new(3, 3, px(9, 9, 9, 9));
    let mut height_hold = height.dup();
    let mut color_hold = color.dup();
    thermal_erosion(&mut height, &mut color, 1, 19, 2).unwrap();
    assert_eq!(height.get(1, 1), px(180, 180, 180, 255));
    thermal_erosion(&mut height_hold, &mut color_hold, 1, 30, 2).unwrap();
    assert_eq!(height_hold.get(1, 1), px(200, 200, 200, 255));
}

#[test]
fn river_zero_walkers_or_steps_change_nothing() {
    let mut height = gray_grid(6, 6, 100);
    height.set(3, 3, px(10, 10, 10, 255));
    let mut color = PixelGrid::new(6, 6, px(9, 9, 9, 9));
    let height0 = height.dup();
    let color0 = color.dup();
    simulate_river_flow(&mut height, &mut color, 10, 5, 0, 42).unwrap();
    assert!(height.same_as(&height0));
    assert!(color.same_as(&color0));
    simulate_river_flow(&mut height, &mut color, 0, 5, 10, 42).unwrap();
    assert!(height.same_as(&height0));
    assert!(color.same_as(&color0));
}

#[test]
fn river_fixed_seed_is_reproducible() {
    // a west-sloping grid: every walker carves somewhere, and the same
    // seed over the same initial grids gives bit-identical results
    let mut height = PixelGrid::new(8, 8, px(0, 0, 0, 255));
    for x in 0..8usize {
        for y in 0..8usize {
            let v = (x * 30) as u8;
            height.set(x, y, px(v, v, v, 255));
        }
    }
    let mut color = PixelGrid::new(8, 8, px(9, 9, 9, 9));
    let height0 = height.dup();
    let color0 = color.dup();
    let mut height_b = height.dup();
    let mut color_b = color.dup();
    let cfg = RiverConfig { iterations: 5, erosion_factor: 2, river_count: 3, seed: 42 };
    simulate_river_flow(
        &mut height,
        &mut color,
        cfg.iterations,
        cfg.erosion_factor,
        cfg.river_count,
        cfg.seed,
    )
    .unwrap();
    simulate_river_flow(
        &mut height_b,
        &mut color_b,
        cfg.iterations,
        cfg.erosion_factor,
        cfg.river_count,
        cfg.seed,
    )
    .unwrap();
    assert!(height.same_as(&height_b));
    assert!(color.same_as(&color_b));
    // the pass carved something
    assert!(!height.same_as(&height0));
    assert!(!color.same_as(&color0));
}

#[test]
fn river_carves_lowest_neighbor_and_recolors() {
    // on a 3x3 grid the only interior start is (1,1), whatever the
    // seed; the lowest neighbor is carved by the erosion factor and
    // recolored to the water anchor, and the walker stalls once it
    // reaches the border
    let mut height = gray_grid(3, 3, 200);
    height.set(1, 1, px(100, 100, 100, 255));
    height.set(0, 0, px(60, 60, 60, 255));
    height.set(0, 1, px(40, 40, 40, 255));
    let mut color = PixelGrid::new(3, 3, px(9, 9, 9, 9));
    simulate_river_flow(&mut height, &mut color, 2, 10, 1, 7).unwrap();
    assert_eq!(height.get(0, 1), px(30, 30, 30, 255));
    assert_eq!(color.get(0, 1), px(0, 0, 200, 255));
    assert_eq!(height.get(0, 0), px(60, 60, 60, 255));
    assert_eq!(height.get(1, 1), px(100, 100, 100, 255));
    assert_eq!(color.get(0, 0), px(9, 9, 9, 9));
}

#[test]
fn river_carve_saturates_at_zero() {
    let mut height = gray_grid(3, 3, 200);
    height.set(1, 1, px(100, 100, 100, 255));
    height.set(2, 2, px(5, 5, 5, 255));
    let mut color = PixelGrid::new(3, 3, px(9, 9, 9, 9));
    simulate_river_flow(&mut height, &mut color, 1, 50, 1, 1).unwrap();
    assert_eq!(height.get(2, 2), px(0, 0, 0, 255));
    assert_eq!(color.get(2, 2), px(0, 0, 200, 255));
}

#[test]
fn river_rejects_grid_without_interior() {
    let mut height = gray_grid(2, 2, 100);
    let mut color = gray_grid(2, 2, 100);
    assert_eq!(
        simulate_river_flow(&mut height, &mut color, 1, 1, 1, 1).unwrap_err(),
        HeightmapError::InvalidParameter
    );
    // with no walkers the same grid is fine and untouched
    let height0 = height.dup();
    simulate_river_flow(&mut height, &mut color, 1, 1, 0, 1).unwrap();
    assert!(height.same_as(&height0));
}

#[test]
fn river_rejects_dimension_mismatch() {
    let mut height = gray_grid(4, 4, 100);
    let mut color = gray_grid(4, 5, 100);
    assert_eq!(
        simulate_river_flow(&mut height, &mut color, 1, 1, 1, 1).unwrap_err(),
        HeightmapError::DimensionMismatch
    );
}
