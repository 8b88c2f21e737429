//! Display geometry: the fixed canvas, the plugin's reported geometry and
//! timing, and the aspect-preserving crop box.
//!
//! The plugin reports its native geometry once after the game is loaded.  The
//! aspect ratio is carried as a rational number `aspect_num / aspect_den` so
//! every computation below is exact integer arithmetic.

use vstd::prelude::*;

verus! {

/// Width of the physical display canvas in pixels.
pub const CANVAS_WIDTH: u32 = 640;

/// Height of the physical display canvas in pixels.
pub const CANVAS_HEIGHT: u32 = 480;

/// Geometry and timing reported by the plugin, queried once after game load
/// and cached for the process lifetime.
///
/// The aspect ratio is the rational `aspect_num / aspect_den`; the frame rate
/// is carried in millihertz and the audio sample rate in hertz, so that the
/// whole record is made of plain integers.
#[derive(Clone, Copy, Debug, PartialEq, Eq, Structural)]
pub struct AvInfo {
    pub base_width: u32,
    pub base_height: u32,
    pub max_width: u32,
    pub max_height: u32,
    pub aspect_num: u32,
    pub aspect_den: u32,
    pub fps_mhz: u64,
    pub sample_rate_hz: u32,
}

impl AvInfo {
    /// Sanity bounds on the reported geometry: a positive aspect ratio
    /// between one third and four, with both terms small enough that the
    /// crop-box arithmetic stays well inside `u32`, and positive frame
    /// dimensions no larger than the canvas allows for the working image.
    pub open spec fn wf(self) -> bool {
        &&& 0 < self.aspect_num <= 1000000
        &&& 0 < self.aspect_den <= 1000000
        &&& self.aspect_num <= 4 * self.aspect_den
        &&& self.aspect_den <= 3 * self.aspect_num
        &&& 0 < self.fps_mhz
    }
}

/// Destination sub-rectangle of the canvas that a frame is scaled into.
#[derive(Clone, Copy, Debug, PartialEq, Eq, Structural)]
pub struct CropBox {
    pub left: u32,
    pub top: u32,
    pub width: u32,
    pub height: u32,
}

/// True when the aspect ratio `num / den` is strictly narrower than the
/// canvas's four-thirds ratio, so the image is pillarboxed.
pub open spec fn aspect_is_tall(num: int, den: int) -> bool {
    3 * num < 4 * den
}

/// The crop box for aspect ratio `num / den` on the fixed canvas.
///
/// A tall source keeps the full canvas height and narrows the width in
/// proportion, centred horizontally; a wide (or exactly four-thirds) source
/// keeps the full width and shortens the height, centred vertically.
pub open spec fn spec_crop_box(num: int, den: int) -> CropBox {
    if aspect_is_tall(num, den) {
        let w = CANVAS_HEIGHT * num / den;
        CropBox {
            left: ((CANVAS_WIDTH - w) / 2) as u32,
            top: 0,
            width: w as u32,
            height: CANVAS_HEIGHT,
        }
    } else {
        let h = CANVAS_WIDTH * den / num;
        CropBox {
            left: 0,
            top: ((CANVAS_HEIGHT - h) / 2) as u32,
            width: CANVAS_WIDTH,
            height: h as u32,
        }
    }
}

/// Computes the crop box for the reported aspect ratio against the fixed
/// canvas.  The box always fits inside the canvas, is never empty, and its
/// offsets centre it on the free axis.
pub fn compute_crop_box(aspect_num: u32, aspect_den: u32) -> (r: CropBox)
    requires
        0 < aspect_num <= 1000000,
        0 < aspect_den <= 1000000,
        aspect_num <= 4 * aspect_den,
        aspect_den <= 3 * aspect_num,
    ensures
        r == spec_crop_box(aspect_num as int, aspect_den as int),
        1 <= r.width <= CANVAS_WIDTH,
        1 <= r.height <= CANVAS_HEIGHT,
        r.left + r.width <= CANVAS_WIDTH,
        r.top + r.height <= CANVAS_HEIGHT,
        2 * r.left + r.width == CANVAS_WIDTH || 2 * r.top + r.height == CANVAS_HEIGHT,
{
    if 3 * aspect_num < 4 * aspect_den {
        let w: u32 = (CANVAS_HEIGHT * aspect_num) / aspect_den;
        assert(w < 640 && w >= 1) by (nonlinear_arith)
            requires
                w == 480 * (aspect_num as int) / (aspect_den as int),
                0 < aspect_num,
                0 < aspect_den,
                3 * aspect_num < 4 * aspect_den,
                aspect_den <= 3 * aspect_num,
        ;
        let left: u32 = (CANVAS_WIDTH - w) / 2;
        let r = CropBox { left, top: 0, width: w, height: CANVAS_HEIGHT };
        proof {
            lemma_centered(640, w as int);
        }
        r
    } else {
        let h: u32 = (CANVAS_WIDTH * aspect_den) / aspect_num;
        assert(h <= 480 && h >= 1) by (nonlinear_arith)
            requires
                h == 640 * (aspect_den as int) / (aspect_num as int),
                0 < aspect_num,
                0 < aspect_den,
                3 * aspect_num >= 4 * aspect_den,
                aspect_num <= 4 * aspect_den,
        ;
        let top: u32 = (CANVAS_HEIGHT - h) / 2;
        let r = CropBox { left: 0, top, width: CANVAS_WIDTH, height: h };
        proof {
            lemma_centered(480, h as int);
        }
        r
    }
}

/// Halving the leftover space centres the box: the offset plus the box edge
/// never passes the canvas edge.
proof fn lemma_centered(canvas: int, side: int)
    requires
        0 <= side <= canvas,
    ensures
        (canvas - side) / 2 + side <= canvas,
        0 <= (canvas - side) / 2,
{
}

/// An exactly four-thirds source fills the whole canvas: no letterbox and no
/// pillarbox offset.
pub proof fn lemma_four_thirds_fills_canvas(num: int, den: int)
    requires
        0 < den,
        3 * num == 4 * den,
    ensures
        spec_crop_box(num, den) == (CropBox { left: 0, top: 0, width: 640u32, height: 480u32 }),
{
    assert(640 * den / num == 480) by (nonlinear_arith)
        requires
            0 < den,
            3 * num == 4 * den,
    ;
}

/// Nanoseconds of one frame at `fps_mhz` millihertz.
pub fn frame_interval_nanos(fps_mhz: u64) -> (r: u64)
    requires
        0 < fps_mhz,
    ensures
        r == 1000000000000u64 / fps_mhz,
{
    1000000000000u64 / fps_mhz
}

/// Nanoseconds the run loop should wait after a step: one frame interval
/// less a fixed allowance for the loop's own overhead, never negative.
pub fn frame_budget_nanos(fps_mhz: u64) -> (r: u64)
    requires
        0 < fps_mhz,
    ensures
        1000000000000u64 / fps_mhz > 300000 ==> r == 1000000000000u64 / fps_mhz - 300000,
        1000000000000u64 / fps_mhz <= 300000 ==> r == 0,
{
    let interval = frame_interval_nanos(fps_mhz);
    if interval > 300000 {
        interval - 300000
    } else {
        0
    }
}

} // verus!
