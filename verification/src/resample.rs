//! Filtered grid resizing for export resolutions.
//!
//! The reconstruction kernel is an opaque strategy the caller picks;
//! the resampling itself is done by the `image` crate on the grid's
//! raw bytes.  Resizing to the grid's own size is the identity,
//! whatever the kernel.

use vstd::prelude::*;
use crate::errors::HeightmapError;
use crate::grid::PixelGrid;
use crate::grid::flat_bytes;
use crate::grid::lemma_flat_bytes_injective;
use crate::modes::ResizeFilter;

verus! {

/// The bytes that resampling a `width` x `height` RGBA byte grid to
/// `target_width` x `target_height` under the kernel named by
/// `filter_code` produces: a pure function of the input bytes and the
/// parameters alone.
pub uninterp spec fn resized_bytes(
    bytes: Seq<u8>,
    width: int,
    height: int,
    target_width: int,
    target_height: int,
    filter_code: int,
) -> Seq<u8>;

/// Relies on `image::imageops::resize`: it returns a buffer of
/// exactly the target dimensions, computed from the input pixels and
/// the filter alone, and when the target dimensions equal the input
/// dimensions it returns a plain copy of the input, whatever the
/// filter.  `ImageBuffer::from_raw` accepts a container holding
/// exactly 4 * width * height bytes, and `into_raw` hands the
/// underlying bytes back.
#[verifier::external_body]
fn resize_rgba_bytes(
    bytes: &Vec<u8>,
    width: u32,
    height: u32,
    target_width: u32,
    target_height: u32,
    filter: ResizeFilter,
) -> (r: Vec<u8>)
    requires
        bytes@.len() == 4 * (width as int) * (height as int),
    ensures
        r@.len() == 4 * (target_width as int) * (target_height as int),
        r@ == resized_bytes(
            bytes@,
            width as int,
            height as int,
            target_width as int,
            target_height as int,
            filter.spec_code(),
        ),
        target_width == width && target_height == height ==> r@ == bytes@,
{
    let kernel = match filter {
        ResizeFilter::Nearest => image::imageops::FilterType::Nearest,
        ResizeFilter::Triangle => image::imageops::FilterType::Triangle,
        ResizeFilter::CatmullRom => image::imageops::FilterType::CatmullRom,
        ResizeFilter::Gaussian => image::imageops::FilterType::Gaussian,
        ResizeFilter::Lanczos3 => image::imageops::FilterType::Lanczos3,
    };
    let buffer: image::ImageBuffer<image::Rgba<u8>, Vec<u8>> = image::ImageBuffer::from_raw(
        width,
        height,
        bytes.clone(),
    ).unwrap();
    image::imageops::resize(&buffer, target_width, target_height, kernel).into_raw()
}

/// Resizes the grid to `target_size` under the chosen kernel,
/// replacing the grid's contents; a zero target dimension is rejected
/// with `InvalidTargetSize` and changes nothing.
///
/// Resizing to the grid's own dimensions returns the grid unchanged,
/// whatever the kernel.
pub fn scale_image(buffer: &mut PixelGrid, target_size: (u32, u32), scale_method: ResizeFilter) -> (
    r: Result<(), HeightmapError>)
    requires
        old(buffer).wf(),
        old(buffer).spec_width() <= u32::MAX,
        old(buffer).spec_height() <= u32::MAX,
    ensures
        r is Err <==> (target_size.0 == 0 || target_size.1 == 0),
        r is Err ==> r == Err::<(), HeightmapError>(HeightmapError::InvalidTargetSize)
            && *final(buffer) == *old(buffer),
        r is Ok ==> final(buffer).wf() && final(buffer).spec_width() == target_size.0
            && final(buffer).spec_height() == target_size.1 && flat_bytes(final(buffer)@)
            == resized_bytes(
            flat_bytes(old(buffer)@),
            old(buffer).spec_width(),
            old(buffer).spec_height(),
            target_size.0 as int,
            target_size.1 as int,
            scale_method.spec_code(),
        ),
        r is Ok && target_size.0 == old(buffer).spec_width() && target_size.1
            == old(buffer).spec_height() ==> final(buffer)@ == old(buffer)@,
{
    let target_width: u32 = target_size.0;
    let target_height: u32 = target_size.1;
    if target_width == 0 || target_height == 0 {
        return Err(HeightmapError::InvalidTargetSize);
    }
    let w: usize = buffer.width();
    let h: usize = buffer.height();
    let bytes: Vec<u8> = buffer.to_bytes();
    proof {
        assert(bytes@.len() == 4 * (w as int) * (h as int)) by {
            assert(4 * ((w as int) * (h as int)) == 4 * (w as int) * (h as int))
                by (nonlinear_arith);
        }
    }
    let out_bytes: Vec<u8> = resize_rgba_bytes(
        &bytes,
        w as u32,
        h as u32,
        target_width,
        target_height,
        scale_method,
    );
    let tw: usize = target_width as usize;
    let th: usize = target_height as usize;
    proof {
        assert(out_bytes@.len() == 4 * ((tw as int) * (th as int))) by {
            assert(4 * ((tw as int) * (th as int)) == 4 * (tw as int) * (th as int))
                by (nonlinear_arith);
        }
    }
    let out: PixelGrid = PixelGrid::from_bytes(tw, th, &out_bytes);
    proof {
        if target_width == w as u32 && target_height == h as u32 {
            assert(out@.len() == old(buffer)@.len()) by {
                assert(out@.len() == (tw as int) * (th as int));
                assert(old(buffer)@.len() == (w as int) * (h as int));
            }
            lemma_flat_bytes_injective(out@, old(buffer)@);
        }
    }
    *buffer = out;
    Ok(())
}

} // verus!
