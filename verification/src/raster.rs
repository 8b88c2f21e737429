//! Trusted raster operations: nearest-neighbour scaling and PNG encoding.
//!
//! Both calls compute pure functions of their arguments; their results are
//! given names that the frame pipeline's contracts build on.

use vstd::prelude::*;

verus! {

/// The pixel bytes produced by scaling a `src_w` by `src_h` image of 4-byte
/// pixels to `dst_w` by `dst_h` with nearest-neighbour sampling.
pub uninterp spec fn nearest_resized(
    src: Seq<u8>,
    src_w: u32,
    src_h: u32,
    dst_w: u32,
    dst_h: u32,
) -> Seq<u8>;

/// The PNG stream encoding a `w` by `h` image of 8-bit RGBA pixels.
pub uninterp spec fn png_encoding_of(w: u32, h: u32, rgba: Seq<u8>) -> Seq<u8>;

/// Relies on fast_image_resize's nearest-neighbour resampler: the output is a
/// function of the input pixels and the two sizes alone, has one 4-byte pixel
/// per destination position, and is a plain copy when the sizes are equal.
#[verifier::external_body]
pub(crate) fn resize_nearest(src: &Vec<u8>, src_w: u32, src_h: u32, dst_w: u32, dst_h: u32) -> (r:
    Vec<u8>)
    requires
        0 < src_w <= 4096,
        0 < src_h <= 4096,
        0 < dst_w <= 4096,
        0 < dst_h <= 4096,
        src@.len() == 4 * src_w * src_h,
    ensures
        r@.len() == 4 * dst_w * dst_h,
        r@ == nearest_resized(src@, src_w, src_h, dst_w, dst_h),
        src_w == dst_w && src_h == dst_h ==> r@ == src@,
{
    let sw = std::num::NonZeroU32::new(src_w).unwrap();
    let sh = std::num::NonZeroU32::new(src_h).unwrap();
    let dw = std::num::NonZeroU32::new(dst_w).unwrap();
    let dh = std::num::NonZeroU32::new(dst_h).unwrap();
    let mut s = fast_image_resize::Image::new(sw, sh, fast_image_resize::PixelType::U8x4);
    s.buffer_mut().copy_from_slice(src);
    let mut d = fast_image_resize::Image::new(dw, dh, fast_image_resize::PixelType::U8x4);
    let mut resizer = fast_image_resize::Resizer::new(fast_image_resize::ResizeAlg::Nearest);
    resizer.resize(&s.view(), &mut d.view_mut()).unwrap();
    d.into_vec()
}

/// Relies on the png crate's encoder: with fixed colour type, bit depth and
/// default compression the stream is a function of the size and pixels alone,
/// and it is never empty (it always starts with the PNG signature).
#[verifier::external_body]
pub(crate) fn encode_png_rgba(w: u32, h: u32, rgba: &Vec<u8>) -> (r: Vec<u8>)
    requires
        0 < w <= 4096,
        0 < h <= 4096,
        rgba@.len() == 4 * w * h,
    ensures
        r@ == png_encoding_of(w, h, rgba@),
        r@.len() > 0,
{
    let mut out: Vec<u8> = Vec::new();
    let mut encoder = png::Encoder::new(&mut out, w, h);
    encoder.set_color(png::ColorType::Rgba);
    encoder.set_depth(png::BitDepth::Eight);
    let mut writer = encoder.write_header().unwrap();
    writer.write_image_data(rgba).unwrap();
    writer.finish().unwrap();
    out
}

} // verus!
