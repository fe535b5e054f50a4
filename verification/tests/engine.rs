//! Grid, blending, colorization and clamping behavior.

use heightmap_gen::Rgba8;
use heightmap_gen::blend::NoiseLayer;
use heightmap_gen::blend::blend_buffers;
use heightmap_gen::blend::blend_layer_stack;
use heightmap_gen::clamp::clamp_image_buffer;
use heightmap_gen::colorize::colorize_buffer;
use heightmap_gen::config::ErosionConfig;
use heightmap_gen::config::LayerSpec;
use heightmap_gen::errors::HeightmapError;
use heightmap_gen::grid::PixelGrid;
use heightmap_gen::modes::BlendMode;
use heightmap_gen::modes::ErosionMode;
use heightmap_gen::modes::ResizeFilter;

fn px(r: u8, g: u8, b: u8, a: u8) -> Rgba8 {
    Rgba8 { r, g, b, a }
}

fn gray_grid(w: usize, h: usize, v: u8) -> PixelGrid {
    PixelGrid::new(w, h, px(v, v, v, 255))
}

#[test]
fn grid_new_get_set() {
    let mut g = PixelGrid::new(3, 2, px(1, 2, 3, 4));
    assert_eq!(g.width(), 3);
    assert_eq!(g.height(), 2);
    assert_eq!(g.len(), 6);
    assert_eq!(g.get(2, 1), px(1, 2, 3, 4));
    g.set(2, 1, px(9, 8, 7, 6));
    assert_eq!(g.get(2, 1), px(9, 8, 7, 6));
    assert_eq!(g.get(1, 1), px(1, 2, 3, 4));
    let d = g.dup();
    assert!(d.same_as(&g));
}

#[test]
fn grid_same_as_detects_differences() {
    let a = gray_grid(2, 2, 10);
    let mut b = gray_grid(2, 2, 10);
    assert!(a.same_as(&b));
    b.set(0, 1, px(11, 10, 10, 255));
    assert!(!a.same_as(&b));
    let c = gray_grid(2, 3, 10);
    assert!(!a.same_as(&c));
}

#[test]
fn grid_byte_round_trip() {
    let mut g = PixelGrid::new(2, 2, px(0, 0, 0, 255));
    g.set(0, 0, px(1, 2, 3, 4));
    g.set(1, 0, px(5, 6, 7, 8));
    g.set(0, 1, px(9, 10, 11, 12));
    g.set(1, 1, px(13, 14, 15, 16));
    let bytes = g.to_bytes();
    assert_eq!(bytes, vec![1, 2, 3, 4, 5, 6, 7, 8, 9, 10, 11, 12, 13, 14, 15, 16]);
    let back = PixelGrid::from_bytes(2, 2, &bytes);
    assert!(back.same_as(&g));
}

#[test]
fn blend_mode_codes() {
    assert_eq!(BlendMode::from_code(0), Ok(BlendMode::Normal));
    assert_eq!(BlendMode::from_code(1), Ok(BlendMode::Multiply));
    assert_eq!(BlendMode::from_code(2), Ok(BlendMode::Screen));
    assert_eq!(BlendMode::from_code(3), Err(HeightmapError::InvalidBlendMode));
    assert_eq!(BlendMode::from_code(-1), Err(HeightmapError::InvalidBlendMode));
}

#[test]
fn erosion_mode_codes() {
    assert_eq!(ErosionMode::from_code(0), Ok(ErosionMode::Disabled));
    assert_eq!(ErosionMode::from_code(1), Ok(ErosionMode::Standard));
    assert_eq!(ErosionMode::from_code(2), Ok(ErosionMode::Talus));
    assert_eq!(ErosionMode::from_code(7), Err(HeightmapError::InvalidErosionMode));
}

#[test]
fn resize_filter_codes() {
    assert_eq!(ResizeFilter::from_code(0), Ok(ResizeFilter::Nearest));
    assert_eq!(ResizeFilter::from_code(4), Ok(ResizeFilter::Lanczos3));
    assert_eq!(ResizeFilter::from_code(9), Err(HeightmapError::InvalidParameter));
}

#[test]
fn blend_exact_channels() {
    // base channel 100 at alpha 200, overlay channel 50 at alpha 100
    let a = PixelGrid::new(1, 1, px(100, 100, 100, 200));
    let b = PixelGrid::new(1, 1, px(50, 50, 50, 100));
    let normal = blend_buffers(&a, &b, 0).unwrap();
    assert_eq!(normal.get(0, 0), px(80, 80, 80, 222));
    let multiply = blend_buffers(&a, &b, 1).unwrap();
    assert_eq!(multiply.get(0, 0), px(68, 68, 68, 222));
    let screen = blend_buffers(&a, &b, 2).unwrap();
    assert_eq!(screen.get(0, 0), px(98, 98, 98, 222));
}

#[test]
fn blend_alpha_is_composite_for_every_mode() {
    // composite alpha a*(1-b)+b in rounded fixed point, per pixel
    let mut a = PixelGrid::new(2, 2, px(10, 20, 30, 0));
    let mut b = PixelGrid::new(2, 2, px(200, 100, 50, 0));
    let alphas_a: [u8; 4] = [0, 255, 128, 40];
    let alphas_b: [u8; 4] = [255, 0, 64, 200];
    for i in 0..4usize {
        let (x, y) = (i % 2, i / 2);
        a.set(x, y, px(10, 20, 30, alphas_a[i]));
        b.set(x, y, px(200, 100, 50, alphas_b[i]));
    }
    for mode in 0..3i32 {
        let out = blend_buffers(&a, &b, mode).unwrap();
        for i in 0..4usize {
            let (x, y) = (i % 2, i / 2);
            let aa = alphas_a[i] as u32;
            let ab = alphas_b[i] as u32;
            let expected = ((aa * (255 - ab) + 255 * ab + 127) / 255) as u8;
            assert_eq!(out.get(x, y).a, expected);
        }
    }
}

#[test]
fn blend_screen_saturates() {
    let a = PixelGrid::new(1, 1, px(250, 250, 250, 255));
    let b = PixelGrid::new(1, 1, px(250, 250, 250, 255));
    let screen = blend_buffers(&a, &b, 2).unwrap();
    assert_eq!(screen.get(0, 0), px(255, 255, 255, 255));
}

#[test]
fn blend_rejects_unknown_mode() {
    let a = gray_grid(2, 2, 100);
    let b = gray_grid(2, 2, 50);
    assert_eq!(blend_buffers(&a, &b, 3).unwrap_err(), HeightmapError::InvalidBlendMode);
}

#[test]
fn blend_rejects_dimension_mismatch() {
    let a = gray_grid(2, 2, 100);
    let b = gray_grid(3, 2, 50);
    assert_eq!(blend_buffers(&a, &b, 0).unwrap_err(), HeightmapError::DimensionMismatch);
}

#[test]
fn layer_stack_folds_in_order() {
    let base = gray_grid(2, 2, 100);
    let l1 = gray_grid(2, 2, 200);
    let l2 = gray_grid(2, 2, 30);
    let layers = vec![
        NoiseLayer { buffer: l1.dup(), blend_mode: 0 },
        NoiseLayer { buffer: l2.dup(), blend_mode: 1 },
    ];
    let folded = blend_layer_stack(&base, &layers).unwrap();
    let step1 = blend_buffers(&base, &l1, 0).unwrap();
    let step2 = blend_buffers(&step1, &l2, 1).unwrap();
    assert!(folded.same_as(&step2));
    // the reversed order gives a different grid
    let layers_rev = vec![
        NoiseLayer { buffer: l2.dup(), blend_mode: 1 },
        NoiseLayer { buffer: l1.dup(), blend_mode: 0 },
    ];
    let folded_rev = blend_layer_stack(&base, &layers_rev).unwrap();
    assert!(!folded.same_as(&folded_rev));
}

#[test]
fn layer_stack_reports_first_error() {
    let base = gray_grid(2, 2, 100);
    let layers = vec![NoiseLayer { buffer: gray_grid(2, 2, 1), blend_mode: 9 }];
    assert_eq!(blend_layer_stack(&base, &layers).unwrap_err(), HeightmapError::InvalidBlendMode);
    let layers2 = vec![NoiseLayer { buffer: gray_grid(3, 3, 1), blend_mode: 0 }];
    assert_eq!(blend_layer_stack(&base, &layers2).unwrap_err(), HeightmapError::DimensionMismatch);
}

#[test]
fn colorize_extremes_hit_ramp_ends() {
    let mut g = gray_grid(2, 1, 0);
    g.set(1, 0, px(255, 255, 255, 255));
    let c = colorize_buffer(&g);
    assert_eq!(c.get(0, 0), px(0, 0, 200, 255));
    assert_eq!(c.get(1, 0), px(255, 255, 255, 255));
}

#[test]
fn colorize_interpolates_midrange() {
    // intensity 128 sits between anchors 4 and 5 with remainder 132/255
    let g = gray_grid(1, 1, 128);
    let c = colorize_buffer(&g);
    assert_eq!(c.get(0, 0), px(120, 103, 10, 255));
    // intensity 60 sits between anchors 2 and 3 with remainder 30/255
    let g2 = gray_grid(1, 1, 60);
    let c2 = colorize_buffer(&g2);
    assert_eq!(c2.get(0, 0), px(7, 132, 0, 255));
}

#[test]
fn colorize_idempotent_on_saturated_grid() {
    // on a grid of only fully dark and fully bright pixels, coloring
    // the colored grid changes nothing
    let mut g = gray_grid(2, 2, 0);
    g.set(1, 0, px(255, 255, 255, 255));
    g.set(0, 1, px(255, 255, 255, 255));
    let once = colorize_buffer(&g);
    let twice = colorize_buffer(&once);
    assert!(twice.same_as(&once));
}

#[test]
fn colorize_keeps_dimensions_and_input() {
    let g = gray_grid(3, 2, 77);
    let c = colorize_buffer(&g);
    assert_eq!(c.width(), 3);
    assert_eq!(c.height(), 2);
    assert_eq!(g.get(0, 0), px(77, 77, 77, 255));
}

#[test]
fn clamp_raises_and_recolors_water() {
    // a pixel of height 50 under min=128 is raised to exactly 128 and
    // its color counterpart becomes the water anchor
    let mut height = gray_grid(2, 2, 200);
    height.set(1, 0, px(50, 50, 50, 255));
    let mut color = PixelGrid::new(2, 2, px(9, 9, 9, 9));
    clamp_image_buffer(&mut height, &mut color, true, 128, 255).unwrap();
    assert_eq!(height.get(1, 0), px(128, 128, 128, 255));
    assert_eq!(color.get(1, 0), px(0, 0, 200, 255));
    assert_eq!(height.get(0, 0), px(200, 200, 200, 255));
    assert_eq!(color.get(0, 0), px(9, 9, 9, 9));
}

#[test]
fn clamp_without_water_leaves_colors() {
    let mut height = gray_grid(2, 2, 200);
    height.set(1, 1, px(50, 50, 50, 255));
    let mut color = PixelGrid::new(2, 2, px(9, 9, 9, 9));
    clamp_image_buffer(&mut height, &mut color, false, 128, 255).unwrap();
    assert_eq!(height.get(1, 1), px(128, 128, 128, 255));
    assert_eq!(color.get(1, 1), px(9, 9, 9, 9));
}

#[test]
fn clamp_caps_at_max() {
    let mut height = gray_grid(1, 1, 240);
    let mut color = PixelGrid::new(1, 1, px(9, 9, 9, 9));
    clamp_image_buffer(&mut height, &mut color, true, 10, 200).unwrap();
    assert_eq!(height.get(0, 0), px(200, 200, 200, 255));
    assert_eq!(color.get(0, 0), px(9, 9, 9, 9));
}

#[test]
fn clamp_rejects_dimension_mismatch() {
    let mut height = gray_grid(2, 2, 100);
    let mut color = PixelGrid::new(3, 2, px(0, 0, 0, 255));
    assert_eq!(
        clamp_image_buffer(&mut height, &mut color, true, 0, 255).unwrap_err(),
        HeightmapError::DimensionMismatch
    );
    assert_eq!(height.get(0, 0), px(100, 100, 100, 255));
}

#[test]
fn layer_spec_validation() {
    let good = LayerSpec {
        scale_micro: 50_000,
        offset_x_milli: 0,
        offset_y_milli: 0,
        seed: 1,
        opacity: 255,
        blend_mode: 0,
    };
    assert!(good.validate().is_ok());
    let bad_scale = LayerSpec { scale_micro: 0, ..good };
    assert_eq!(bad_scale.validate().unwrap_err(), HeightmapError::InvalidParameter);
    let bad_mode = LayerSpec { blend_mode: 5, ..good };
    assert_eq!(bad_mode.validate().unwrap_err(), HeightmapError::InvalidBlendMode);
}

#[test]
fn erosion_config_validation() {
    let good = ErosionConfig { mode: 2, iterations: 10, talus_angle: 3 };
    assert!(good.validate().is_ok());
    let bad = ErosionConfig { mode: 4, iterations: 10, talus_angle: 3 };
    assert_eq!(bad.validate().unwrap_err(), HeightmapError::InvalidErosionMode);
}

#[test]
fn error_descriptions() {
    assert_eq!(HeightmapError::InvalidParameter.describe(), "invalid parameter");
    assert_eq!(HeightmapError::DimensionMismatch.describe(), "grid dimensions do not match");
    assert_eq!(HeightmapError::InvalidBlendMode.describe(), "invalid blend mode");
    assert_eq!(HeightmapError::InvalidErosionMode.describe(), "invalid erosion mode");
    assert_eq!(
        HeightmapError::InvalidTargetSize.describe(),
        "target size should be greater than zero"
    );
}
