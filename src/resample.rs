use vstd::prelude::*;
use crate::frame::PixelType;
use fast_image_resize::images::{Image, ImageRef};
use fast_image_resize::{FilterType, ResizeAlg, ResizeOptions, Resizer, SrcCropping};

verus! {

/// Convolution filter used when an image is resampled.
#[derive(Clone, Copy, Debug, PartialEq, Eq, Structural)]
pub enum Filter {
    /// High-quality Lanczos (a = 3) filter, for images fed to inference.
    Lanczos3,
    /// Cheap box filter, for binary masks.
    Box,
}

/// The pixels that resampling `src` (`src_w` x `src_h`, `channels` interleaved bytes each)
/// onto a `dst_w` x `dst_h` image with `filter` yields: source bounds mapped onto destination
/// bounds, no cropping, channels treated uniformly.
pub uninterp spec fn resampled(
    src: Seq<u8>,
    src_w: nat,
    src_h: nat,
    dst_w: nat,
    dst_h: nat,
    channels: nat,
    filter: Filter,
) -> Seq<u8>;

/// Relies on fast_image_resize::Resizer::resize, with `SrcCropping::None` and
/// `mul_div_alpha: false`. `ImageRef::new` accepts a buffer of `src_w * src_h` pixels (8-bit
/// pixels need no alignment), and `resize` fails only on differing pixel types or a bad crop
/// box, so the call succeeds. The destination image, created by `Image::new` with
/// `dst_w * dst_h` pixels of the source's pixel type, holds the resampled pixels, which depend
/// on the source pixels, the two sizes and the filter alone (the crate holds each of its SIMD
/// back ends to the same output checksums).
#[verifier::external_body]
pub(crate) fn resize_buffer(
    src: &[u8],
    src_w: u32,
    src_h: u32,
    dst_w: u32,
    dst_h: u32,
    pixel_type: PixelType,
    filter: Filter,
) -> (r: Option<Vec<u8>>)
    requires
        src@.len() == src_w as int * src_h as int * pixel_type.channels(),
    ensures
        r is Some,
        r matches Some(v) ==> v@ == resampled(
            src@,
            src_w as nat,
            src_h as nat,
            dst_w as nat,
            dst_h as nat,
            pixel_type.channels(),
            filter,
        ) && v@.len() == dst_w as int * dst_h as int * pixel_type.channels(),
{
    let pt = match pixel_type {
        PixelType::U8x3 => fast_image_resize::PixelType::U8x3,
        PixelType::U8x4 => fast_image_resize::PixelType::U8x4,
    };
    let ft = match filter {
        Filter::Lanczos3 => FilterType::Lanczos3,
        Filter::Box => FilterType::Box,
    };
    let src_img = ImageRef::new(src_w, src_h, src, pt).ok()?;
    let mut dst_img = Image::new(dst_w, dst_h, pt);
    let options = ResizeOptions { algorithm: ResizeAlg::Convolution(ft), cropping: SrcCropping::None, mul_div_alpha: false };
    Resizer::new().resize(&src_img, &mut dst_img, &options).ok()?;
    Some(dst_img.into_vec())
}

} // verus!
