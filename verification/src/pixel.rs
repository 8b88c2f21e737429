//! Pixel formats and per-frame pixel conversion.
//!
//! The working image and the display canvas both hold 32-bit XRGB pixels,
//! stored as four little-endian bytes per pixel: blue, green, red, alpha.
//! The plugin may report frames in RGB565 (two bytes per pixel) or ARGB8888
//! (already the internal layout); ARGB1555 is recognised but not decoded.

use vstd::prelude::*;

verus! {

/// Pixel format negotiated by the plugin through the environment callback.
#[derive(Clone, Copy, Debug, PartialEq, Eq, Structural)]
pub enum PixelFormat {
    Argb1555,
    Rgb565,
    Argb8888,
}

impl PixelFormat {
    /// Decodes the numeric format identifier of the plugin interface:
    /// 0 is ARGB1555, 1 is RGB565, 2 is ARGB8888, all others are unknown.
    pub fn from_uint(v: u32) -> (r: Option<PixelFormat>)
        ensures
            r == PixelFormat::spec_from_uint(v),
    {
        if v == 0 {
            Some(PixelFormat::Argb1555)
        } else if v == 1 {
            Some(PixelFormat::Rgb565)
        } else if v == 2 {
            Some(PixelFormat::Argb8888)
        } else {
            None
        }
    }

    pub open spec fn spec_from_uint(v: u32) -> Option<PixelFormat> {
        if v == 0 {
            Some(PixelFormat::Argb1555)
        } else if v == 1 {
            Some(PixelFormat::Rgb565)
        } else if v == 2 {
            Some(PixelFormat::Argb8888)
        } else {
            None
        }
    }

    /// Bytes per source pixel: two for the 16-bit formats, four for ARGB8888.
    pub fn bytes_per_pixel(self) -> (r: u8)
        ensures
            r == self.spec_bytes_per_pixel(),
    {
        match self {
            PixelFormat::Argb1555 => 2,
            PixelFormat::Rgb565 => 2,
            PixelFormat::Argb8888 => 4,
        }
    }

    pub open spec fn spec_bytes_per_pixel(self) -> u8 {
        match self {
            PixelFormat::Argb1555 => 2,
            PixelFormat::Rgb565 => 2,
            PixelFormat::Argb8888 => 4,
        }
    }
}

/// Replicate-high-bits expansion of a 5-bit field to 8 bits.
pub open spec fn expand5(f: u8) -> u8 {
    (f << 3) | (f >> 2)
}

/// Replicate-high-bits expansion of a 6-bit field to 8 bits.
pub open spec fn expand6(f: u8) -> u8 {
    (f << 2) | (f >> 3)
}

/// Red field of a little-endian RGB565 pixel, expanded to 8 bits.
/// `hi` is the second (most significant) byte, `lo` the first.
pub open spec fn rgb565_r8(hi: u8, lo: u8) -> u8 {
    expand5((hi & 0xf8) >> 3)
}

/// Green field of a little-endian RGB565 pixel, expanded to 8 bits.
pub open spec fn rgb565_g8(hi: u8, lo: u8) -> u8 {
    expand6(((hi & 0x07) << 3) | ((lo & 0xe0) >> 5))
}

/// Blue field of a little-endian RGB565 pixel, expanded to 8 bits.
pub open spec fn rgb565_b8(hi: u8, lo: u8) -> u8 {
    expand5(lo & 0x1f)
}

/// The four destination bytes of pixel `i` hold the expanded blue, green and
/// red fields of source pixel `i` and a fully opaque alpha byte.
pub open spec fn rgb565_pixel_converted(src: Seq<u8>, dst: Seq<u8>, i: int) -> bool {
    &&& dst[4 * i] == rgb565_b8(src[2 * i + 1], src[2 * i])
    &&& dst[4 * i + 1] == rgb565_g8(src[2 * i + 1], src[2 * i])
    &&& dst[4 * i + 2] == rgb565_r8(src[2 * i + 1], src[2 * i])
    &&& dst[4 * i + 3] == 255
}

/// Converts a buffer of little-endian RGB565 pixels into XRGB8888 bytes.
///
/// For every 16-bit input pixel the 5/6/5-bit red, green and blue fields are
/// expanded to 8 bits by replicating their high bits into the low bits, and
/// the alpha byte is forced to fully opaque.
pub fn rgb565_to_xrgb8888(pixels: &Vec<u8>, result: &mut Vec<u8>)
    requires
        pixels@.len() % 2 == 0,
        old(result)@.len() == 2 * pixels@.len(),
    ensures
        final(result)@.len() == old(result)@.len(),
        forall|i: int|
            0 <= i < pixels@.len() / 2 ==> #[trigger] rgb565_pixel_converted(
                pixels@,
                final(result)@,
                i,
            ),
{
    let num_pixels: usize = pixels.len() / 2;
    let result_len: usize = result.len();
    assert(2 * num_pixels == pixels@.len());
    let mut i: usize = 0;
    while i < num_pixels
        invariant
            num_pixels == pixels@.len() / 2,
            2 * num_pixels == pixels@.len(),
            result@.len() == result_len,
            result_len == 2 * pixels@.len(),
            0 <= i <= num_pixels,
            forall|j: int|
                0 <= j < i ==> #[trigger] rgb565_pixel_converted(pixels@, result@, j),
        decreases num_pixels - i,
    {
        let hi = pixels[2 * i + 1];
        let lo = pixels[2 * i];

        let red5 = (hi & 0xf8) >> 3;
        let green6 = ((hi & 0x07) << 3) | ((lo & 0xe0) >> 5);
        let blue5 = lo & 0x1f;

        let red8 = (red5 << 3) | (red5 >> 2);
        let green8 = (green6 << 2) | (green6 >> 3);
        let blue8 = (blue5 << 3) | (blue5 >> 2);

        let ghost prev = result@;
        result[4 * i] = blue8;
        result[4 * i + 1] = green8;
        result[4 * i + 2] = red8;
        result[4 * i + 3] = 255;

        proof {
            assert forall|j: int| 0 <= j < i + 1 implies #[trigger] rgb565_pixel_converted(
                pixels@,
                result@,
                j,
            ) by {
                if j < i {
                    assert(rgb565_pixel_converted(pixels@, prev, j));
                    assert(result@[4 * j] == prev[4 * j]);
                    assert(result@[4 * j + 1] == prev[4 * j + 1]);
                    assert(result@[4 * j + 2] == prev[4 * j + 2]);
                    assert(result@[4 * j + 3] == prev[4 * j + 3]);
                } else {
                    assert(rgb565_pixel_converted(pixels@, result@, i as int));
                }
            }
        }
        i = i + 1;
    }
}

/// Copies an ARGB8888 frame byte for byte: the source already matches the
/// internal pixel layout.
pub fn argb8888_to_xrgb8888(pixels: &Vec<u8>, result: &mut Vec<u8>)
    ensures
        final(result)@ == pixels@,
{
    result.clear();
    result.extend_from_slice(pixels.as_slice());
}

/// The four destination bytes of pixel `i` hold the red, green and blue bytes
/// of XRGB source pixel `i`, reordered for RGBA, and a fully opaque alpha.
pub open spec fn rgba_pixel_of_xrgb(src: Seq<u8>, dst: Seq<u8>, i: int) -> bool {
    &&& dst[4 * i] == src[4 * i + 2]
    &&& dst[4 * i + 1] == src[4 * i + 1]
    &&& dst[4 * i + 2] == src[4 * i]
    &&& dst[4 * i + 3] == 255
}

/// The RGBA byte sequence for a whole XRGB8888 byte sequence.
pub open spec fn spec_rgba_of(x: Seq<u8>) -> Seq<u8>
    recommends
        x.len() % 4 == 0,
{
    Seq::new(
        x.len(),
        |k: int|
            {
                let p = k / 4;
                let c = k % 4;
                if c == 0 {
                    x[4 * p + 2]
                } else if c == 1 {
                    x[4 * p + 1]
                } else if c == 2 {
                    x[4 * p]
                } else {
                    255u8
                }
            },
    )
}

/// Reorders XRGB8888 bytes into RGBA bytes for image encoding; alpha is
/// forced to fully opaque.
pub fn xrgb8888_to_rgba888(xrgb: &Vec<u8>) -> (result: Vec<u8>)
    requires
        xrgb@.len() % 4 == 0,
    ensures
        result@.len() == xrgb@.len(),
        result@ == spec_rgba_of(xrgb@),
        forall|i: int|
            0 <= i < xrgb@.len() / 4 ==> #[trigger] rgba_pixel_of_xrgb(xrgb@, result@, i),
{
    let total: usize = xrgb.len();
    let num_pixels: usize = total / 4;
    assert(4 * num_pixels == xrgb@.len());
    let mut result: Vec<u8> = Vec::new();
    let mut i: usize = 0;
    while i < num_pixels
        invariant
            total == xrgb@.len(),
            4 * num_pixels == xrgb@.len(),
            0 <= i <= num_pixels,
            result@.len() == 4 * i,
            forall|j: int|
                0 <= j < i ==> #[trigger] rgba_pixel_of_xrgb(xrgb@, result@, j),
        decreases num_pixels - i,
    {
        let ghost prev = result@;
        result.push(xrgb[4 * i + 2]);
        result.push(xrgb[4 * i + 1]);
        result.push(xrgb[4 * i]);
        result.push(255);
        proof {
            assert forall|j: int| 0 <= j < i + 1 implies #[trigger] rgba_pixel_of_xrgb(
                xrgb@,
                result@,
                j,
            ) by {
                if j < i {
                    assert(rgba_pixel_of_xrgb(xrgb@, prev, j));
                    assert(result@[4 * j] == prev[4 * j]);
                    assert(result@[4 * j + 1] == prev[4 * j + 1]);
                    assert(result@[4 * j + 2] == prev[4 * j + 2]);
                    assert(result@[4 * j + 3] == prev[4 * j + 3]);
                }
            }
        }
        i = i + 1;
    }
    proof {
        assert forall|k: int| 0 <= k < result@.len() implies result@[k] == spec_rgba_of(xrgb@)[k]
            by {
            let p = k / 4;
            let c = k % 4;
            assert(k == 4 * p + c);
            assert(0 <= p < num_pixels);
            assert(rgba_pixel_of_xrgb(xrgb@, result@, p));
        }
        assert(result@ =~= spec_rgba_of(xrgb@));
    }
    result
}

} // verus!
