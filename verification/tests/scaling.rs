//! Resizing and noise-field generation behavior.

use noise::NoiseFn;
use noise::Perlin;

use heightmap_gen::Rgba8;
use heightmap_gen::errors::HeightmapError;
use heightmap_gen::grid::PixelGrid;
use heightmap_gen::modes::ResizeFilter;
use heightmap_gen::noise_field::generate_perlin_noise_buffer;
use heightmap_gen::resample::scale_image;

fn px(r: u8, g: u8, b: u8, a: u8) -> Rgba8 {
    Rgba8 { r, g, b, a }
}

fn varied_grid(w: usize, h: usize) -> PixelGrid {
    let mut g = PixelGrid::new(w, h, px(0, 0, 0, 255));
    for x in 0..w {
        for y in 0..h {
            let v = ((x * 31 + y * 57) % 256) as u8;
            g.set(x, y, px(v, v.wrapping_add(3), v.wrapping_add(7), 255));
        }
    }
    g
}

fn sample_perlin_field(
    width: usize,
    height: usize,
    offset_x: f64,
    offset_y: f64,
    scale: f64,
    seed: u32,
) -> Vec<u8> {
    let perlin = Perlin::new(seed);
    let mut samples = Vec::with_capacity(width * height);
    for y in 0..height {
        for x in 0..width {
            let fx = (x as f64 + offset_x) * scale;
            let fy = (y as f64 + offset_y) * scale;
            let noise_val = perlin.get([fx, fy]) * 0.5 + 0.5;
            samples.push((noise_val * 255.0) as u8);
        }
    }
    samples
}

#[test]
fn resize_to_same_size_is_identity() {
    // nearest at the source dimensions returns the input exactly
    let mut g = varied_grid(4, 4);
    let g0 = g.dup();
    scale_image(&mut g, (4, 4), ResizeFilter::Nearest).unwrap();
    assert!(g.same_as(&g0));
    // the identity holds for every kernel
    scale_image(&mut g, (4, 4), ResizeFilter::Lanczos3).unwrap();
    assert!(g.same_as(&g0));
}

#[test]
fn resize_changes_dimensions() {
    let mut g = varied_grid(4, 4);
    scale_image(&mut g, (2, 2), ResizeFilter::Nearest).unwrap();
    assert_eq!(g.width(), 2);
    assert_eq!(g.height(), 2);
    assert_eq!(g.len(), 4);
}

#[test]
fn resize_constant_grid_stays_constant_under_nearest() {
    let mut g = PixelGrid::new(1, 1, px(12, 34, 56, 255));
    scale_image(&mut g, (3, 3), ResizeFilter::Nearest).unwrap();
    assert_eq!(g.width(), 3);
    assert_eq!(g.height(), 3);
    for x in 0..3usize {
        for y in 0..3usize {
            assert_eq!(g.get(x, y), px(12, 34, 56, 255));
        }
    }
}

#[test]
fn resize_rejects_zero_target() {
    let mut g = varied_grid(2, 2);
    let g0 = g.dup();
    assert_eq!(
        scale_image(&mut g, (0, 2), ResizeFilter::Nearest).unwrap_err(),
        HeightmapError::InvalidTargetSize
    );
    assert_eq!(
        scale_image(&mut g, (2, 0), ResizeFilter::Lanczos3).unwrap_err(),
        HeightmapError::InvalidTargetSize
    );
    assert!(g.same_as(&g0));
}

#[test]
fn noise_buffer_is_deterministic() {
    // identical arguments always produce bit-identical grids
    let samples_a = sample_perlin_field(16, 16, 3.0, 7.0, 0.05, 1234);
    let samples_b = sample_perlin_field(16, 16, 3.0, 7.0, 0.05, 1234);
    assert_eq!(samples_a, samples_b);
    let a = generate_perlin_noise_buffer(16, 16, 50_000, 255, &samples_a).unwrap();
    let b = generate_perlin_noise_buffer(16, 16, 50_000, 255, &samples_b).unwrap();
    assert!(a.same_as(&b));
}

#[test]
fn noise_buffer_is_gray_with_opacity_alpha() {
    let samples = vec![0u8, 40, 80, 255];
    let g = generate_perlin_noise_buffer(2, 2, 1, 128, &samples).unwrap();
    assert_eq!(g.get(0, 0), px(0, 0, 0, 128));
    assert_eq!(g.get(1, 0), px(40, 40, 40, 128));
    assert_eq!(g.get(0, 1), px(80, 80, 80, 128));
    assert_eq!(g.get(1, 1), px(255, 255, 255, 128));
}

#[test]
fn noise_buffer_rejects_non_positive_scale() {
    let samples = vec![0u8; 4];
    assert_eq!(
        generate_perlin_noise_buffer(2, 2, 0, 255, &samples).unwrap_err(),
        HeightmapError::InvalidParameter
    );
    assert_eq!(
        generate_perlin_noise_buffer(2, 2, -5, 255, &samples).unwrap_err(),
        HeightmapError::InvalidParameter
    );
}

#[test]
fn noise_seeds_differ() {
    let a = sample_perlin_field(8, 8, 0.0, 0.0, 0.05, 1);
    let b = sample_perlin_field(8, 8, 0.0, 0.0, 0.05, 2);
    assert_ne!(a, b);
}
