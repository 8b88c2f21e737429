//! The per-frame video pipeline.
//!
//! The pipeline starts uninitialised; the first real frame allocates the
//! working image from the reported pitch and height and fixes the crop box,
//! which is never recomputed afterwards.  Each later step either converts a
//! frame into the working image or records a skip, and the render step scales
//! the visible part of the working image into the crop box on the canvas,
//! keeping a snapshot of what was presented.

use vstd::prelude::*;

use crate::geometry::{compute_crop_box, spec_crop_box, AvInfo, CropBox, CANVAS_HEIGHT,
    CANVAS_WIDTH};
use crate::pixel::{argb8888_to_xrgb8888, rgb565_pixel_converted, rgb565_to_xrgb8888,
    spec_rgba_of, xrgb8888_to_rgba888, PixelFormat};
use crate::raster::{encode_png_rgba, nearest_resized, png_encoding_of, resize_nearest};

verus! {

/// Error of the frame pipeline.
#[derive(Clone, Copy, Debug, PartialEq, Eq, Structural)]
pub enum FrameError {
    /// The plugin reported a pixel format the pipeline cannot decode.
    UnsupportedFormat,
}

/// The owned conversion target: one frame in the internal 32-bit layout.
///
/// `width` covers the full reported pitch, so it may exceed `visible_width`
/// by padding pixels that the render step crops away.
pub struct WorkingImage {
    pub buffer: Vec<u8>,
    pub width: u32,
    pub height: u32,
    pub visible_width: u32,
}

impl WorkingImage {
    pub open spec fn wf(self) -> bool {
        &&& self.buffer@.len() == 4 * self.width * self.height
        &&& 0 < self.width <= 4096
        &&& 0 < self.height <= 4096
        &&& 0 < self.visible_width <= self.width
    }
}

/// Bounds that every crop box handed to the render step satisfies.
pub open spec fn crop_wf(c: CropBox) -> bool {
    &&& 1 <= c.width <= CANVAS_WIDTH
    &&& 1 <= c.height <= CANVAS_HEIGHT
    &&& c.left + c.width <= CANVAS_WIDTH
    &&& c.top + c.height <= CANVAS_HEIGHT
}

/// The per-process frame pipeline state.
pub struct FramePipeline {
    image: Option<WorkingImage>,
    crop: Option<CropBox>,
    skipped: bool,
    snapshot: Option<Vec<u8>>,
}

impl FramePipeline {
    pub closed spec fn wf(self) -> bool {
        &&& match self.image {
            Some(img) => img.wf() && self.crop is Some,
            None => self.crop is None,
        }
        &&& match self.crop {
            Some(c) => crop_wf(c),
            None => true,
        }
        &&& match self.snapshot {
            Some(s) => s@.len() == 4 * CANVAS_WIDTH * CANVAS_HEIGHT,
            None => true,
        }
    }

    pub closed spec fn spec_image(self) -> Option<WorkingImage> {
        self.image
    }

    pub closed spec fn spec_crop(self) -> Option<CropBox> {
        self.crop
    }

    pub closed spec fn spec_skipped(self) -> bool {
        self.skipped
    }

    pub closed spec fn spec_snapshot(self) -> Option<Vec<u8>> {
        self.snapshot
    }

    /// A fresh pipeline: no working image, no crop box, nothing presented.
    pub fn new() -> (r: FramePipeline)
        ensures
            r.wf(),
            r.spec_image() is None,
            r.spec_crop() is None,
            !r.spec_skipped(),
            r.spec_snapshot() is None,
    {
        FramePipeline { image: None, crop: None, skipped: false, snapshot: None }
    }

    /// The crop box fixed by the first frame, if one has arrived.
    pub fn crop_box(&self) -> (r: Option<CropBox>)
        ensures
            r == self.spec_crop(),
    {
        self.crop
    }

    /// Whether the last step was a skip signal.
    pub fn is_skipped(&self) -> (r: bool)
        ensures
            r == self.spec_skipped(),
    {
        self.skipped
    }

    /// The converted pixels of the working image, if one has been allocated.
    pub fn working_pixels(&self) -> (r: Option<&Vec<u8>>)
        ensures
            match (r, self.spec_image()) {
                (Some(b), Some(img)) => b == img.buffer,
                (None, None) => true,
                _ => false,
            },
    {
        match &self.image {
            Some(img) => Some(&img.buffer),
            None => None,
        }
    }

    /// Handles one frame reported by the plugin.
    ///
    /// A missing pixel buffer is the skip signal: the working image and crop
    /// box are left exactly as they were and only the skip flag is raised.
    /// An ARGB1555 frame is refused as unsupported, changing nothing.
    /// Otherwise the first frame allocates the working image and fixes the
    /// crop box, and every frame is converted into the working image.
    pub fn handle_frame(
        &mut self,
        av: &AvInfo,
        format: PixelFormat,
        pixels: Option<&Vec<u8>>,
        height: u32,
        pitch: usize,
    ) -> (r: Result<(), FrameError>)
        requires
            old(self).wf(),
            av.wf(),
            match pixels {
                Some(p) => {
                    let bpp = format.spec_bytes_per_pixel() as int;
                    &&& pitch as int % bpp == 0
                    &&& 0 < height <= 4096
                    &&& 0 < pitch as int / bpp <= 4096
                    &&& p@.len() == pitch * height
                    &&& 0 < av.base_width <= pitch as int / bpp
                    &&& match old(self).spec_image() {
                        Some(img) => img.width == pitch as int / bpp && img.height == height
                            && img.visible_width == av.base_width,
                        None => true,
                    }
                },
                None => true,
            },
        ensures
            final(self).wf(),
            final(self).spec_snapshot() == old(self).spec_snapshot(),
            match pixels {
                None => {
                    &&& r is Ok
                    &&& final(self).spec_image() == old(self).spec_image()
                    &&& final(self).spec_crop() == old(self).spec_crop()
                    &&& final(self).spec_skipped()
                },
                Some(p) => {
                    if format == PixelFormat::Argb1555 {
                        &&& r == Result::<(), FrameError>::Err(FrameError::UnsupportedFormat)
                        &&& final(self).spec_image() == old(self).spec_image()
                        &&& final(self).spec_crop() == old(self).spec_crop()
                        &&& final(self).spec_skipped() == old(self).spec_skipped()
                    } else {
                        &&& r is Ok
                        &&& !final(self).spec_skipped()
                        &&& final(self).spec_crop() == Some(
                            match old(self).spec_crop() {
                                Some(c) => c,
                                None => spec_crop_box(av.aspect_num as int, av.aspect_den as int),
                            },
                        )
                        &&& match final(self).spec_image() {
                            Some(img) => {
                                &&& img.width == pitch as int / (
                                format.spec_bytes_per_pixel() as int)
                                &&& img.height == height
                                &&& img.visible_width == av.base_width
                                &&& img.buffer@.len() == 4 * img.width * img.height
                                &&& format == PixelFormat::Rgb565 ==> forall|i: int|
                                    0 <= i < p@.len() / 2
                                        ==> #[trigger] rgb565_pixel_converted(
                                        p@,
                                        img.buffer@,
                                        i,
                                    )
                                &&& format == PixelFormat::Argb8888 ==> img.buffer@ == p@
                            },
                            None => false,
                        }
                    }
                },
            },
    {
        let p = match pixels {
            None => {
                self.skipped = true;
                return Ok(());
            },
            Some(p) => p,
        };
        if format == PixelFormat::Argb1555 {
            return Err(FrameError::UnsupportedFormat);
        }
        let bpp: usize = format.bytes_per_pixel() as usize;
        let buf_w: u32 = (pitch / bpp) as u32;
        if self.image.is_none() {
            let crop = compute_crop_box(av.aspect_num, av.aspect_den);
            self.crop = Some(crop);
            proof {
                assert(4 * (pitch as int / bpp as int) * height <= 4 * 4096 * 4096)
                    by (nonlinear_arith)
                    requires
                        0 < pitch as int / bpp as int <= 4096,
                        0 < height <= 4096,
                ;
            }
            let buffer: Vec<u8> = vec![0u8; 4 * (buf_w as usize) * (height as usize)];
            self.image = Some(
                WorkingImage { buffer, width: buf_w, height, visible_width: av.base_width },
            );
        }
        match &mut self.image {
            Some(img) => {
                proof {
                    assert(img.buffer@.len() == 4 * (pitch as int / bpp as int) * height);
                    if format == PixelFormat::Rgb565 {
                        let q = pitch as int / 2;
                        assert(pitch == 2 * q);
                        assert(4 * q * height == 2 * (2 * q * height) && (2 * q) * height == 2 * (q
                            * height)) by (nonlinear_arith);
                        assert((2 * (q * height as int)) % 2 == 0) by (nonlinear_arith);
                    } else {
                        let q = pitch as int / 4;
                        assert(pitch == 4 * q);
                        assert(4 * q * height == (4 * q) * height) by (nonlinear_arith);
                    }
                }
                match format {
                    PixelFormat::Rgb565 => rgb565_to_xrgb8888(p, &mut img.buffer),
                    PixelFormat::Argb8888 => argb8888_to_xrgb8888(p, &mut img.buffer),
                    PixelFormat::Argb1555 => {},
                }
            },
            None => {},
        }
        self.skipped = false;
        Ok(())
    }
}

/// The visible pixels of a working image: the first `vis_w` pixels of each of
/// the `h` rows, dropping the pitch padding on the right of each row.
pub open spec fn spec_visible(buf: Seq<u8>, full_w: int, vis_w: int, h: int) -> Seq<u8> {
    Seq::new(
        (4 * vis_w * h) as nat,
        |k: int|
            {
                let p = k / 4;
                let c = k % 4;
                let row = p / vis_w;
                let col = p % vis_w;
                buf[4 * (row * full_w + col) + c]
            },
    )
}

/// The four bytes of visible pixel `p` come from the same pixel of the padded
/// buffer, skipping `full_w - vis_w` padding pixels at the end of each row.
pub open spec fn visible_pixel_ok(
    buf: Seq<u8>,
    out: Seq<u8>,
    full_w: int,
    vis_w: int,
    p: int,
) -> bool {
    let src = 4 * ((p / vis_w) * full_w + p % vis_w);
    &&& out[4 * p] == buf[src]
    &&& out[4 * p + 1] == buf[src + 1]
    &&& out[4 * p + 2] == buf[src + 2]
    &&& out[4 * p + 3] == buf[src + 3]
}

/// Copies the visible part of the working image into a tightly packed buffer.
fn crop_visible(img: &WorkingImage) -> (out: Vec<u8>)
    requires
        img.wf(),
    ensures
        out@.len() == 4 * img.visible_width * img.height,
        out@ == spec_visible(
            img.buffer@,
            img.width as int,
            img.visible_width as int,
            img.height as int,
        ),
{
    let full_w = img.width as usize;
    let vis_w = img.visible_width as usize;
    let h = img.height as usize;
    proof {
        assert(vis_w * h <= 4096 * 4096 && full_w * h <= 4096 * 4096) by (nonlinear_arith)
            requires
                0 < vis_w <= full_w <= 4096,
                0 < h <= 4096,
        ;
    }
    let count: usize = vis_w * h;
    let mut out: Vec<u8> = Vec::new();
    let mut p: usize = 0;
    while p < count
        invariant
            img.wf(),
            full_w == img.width,
            vis_w == img.visible_width,
            h == img.height,
            count == vis_w * h,
            vis_w * h <= 4096 * 4096,
            full_w * h <= 4096 * 4096,
            0 <= p <= count,
            out@.len() == 4 * p,
            forall|q: int|
                0 <= q < p ==> #[trigger] visible_pixel_ok(
                    img.buffer@,
                    out@,
                    full_w as int,
                    vis_w as int,
                    q,
                ),
        decreases count - p,
    {
        let row: usize = p / vis_w;
        let col: usize = p % vis_w;
        proof {
            assert(row < h && row * full_w + col < full_w * h) by (nonlinear_arith)
                requires
                    row == p as int / vis_w as int,
                    col == p as int % vis_w as int,
                    0 < vis_w <= full_w <= 4096,
                    0 < h <= 4096,
                    0 <= p < vis_w * h,
            ;
        }
        proof {
            assert(4 * full_w * h == 4 * (full_w * h)) by (nonlinear_arith);
        }
        let src: usize = 4 * (row * full_w + col);
        let ghost prev = out@;
        out.push(img.buffer[src]);
        out.push(img.buffer[src + 1]);
        out.push(img.buffer[src + 2]);
        out.push(img.buffer[src + 3]);
        proof {
            assert forall|q: int| 0 <= q < p + 1 implies #[trigger] visible_pixel_ok(
                img.buffer@,
                out@,
                full_w as int,
                vis_w as int,
                q,
            ) by {
                if q < p {
                    assert(visible_pixel_ok(img.buffer@, prev, full_w as int, vis_w as int, q));
                    assert(out@[4 * q] == prev[4 * q]);
                    assert(out@[4 * q + 1] == prev[4 * q + 1]);
                    assert(out@[4 * q + 2] == prev[4 * q + 2]);
                    assert(out@[4 * q + 3] == prev[4 * q + 3]);
                }
            }
        }
        p = p + 1;
    }
    proof {
        let buf = img.buffer@;
        let fw = full_w as int;
        let vw = vis_w as int;
        assert(4 * (vw * h) == 4 * vw * h) by (nonlinear_arith);
        assert forall|k: int| 0 <= k < out@.len() implies out@[k] == spec_visible(
            buf,
            fw,
            vw,
            h as int,
        )[k] by {
            let q = k / 4;
            let c = k % 4;
            assert(k == 4 * q + c);
            assert(0 <= q < count);
            assert(visible_pixel_ok(buf, out@, fw, vw, q));
        }
        assert(out@ =~= spec_visible(buf, fw, vw, h as int));
    }
    out
}

/// The four bytes of canvas cell `p` after a blit: inside the crop box they
/// come from the scaled image, outside it they keep their previous value.
pub open spec fn blit_cell_ok(
    oldc: Seq<u8>,
    newc: Seq<u8>,
    resized: Seq<u8>,
    c: CropBox,
    p: int,
) -> bool {
    let y = p / 640;
    let x = p % 640;
    if c.top <= y < c.top + c.height && c.left <= x < c.left + c.width {
        let src = 4 * ((y - c.top) * c.width + (x - c.left));
        &&& newc[4 * p] == resized[src]
        &&& newc[4 * p + 1] == resized[src + 1]
        &&& newc[4 * p + 2] == resized[src + 2]
        &&& newc[4 * p + 3] == resized[src + 3]
    } else {
        &&& newc[4 * p] == oldc[4 * p]
        &&& newc[4 * p + 1] == oldc[4 * p + 1]
        &&& newc[4 * p + 2] == oldc[4 * p + 2]
        &&& newc[4 * p + 3] == oldc[4 * p + 3]
    }
}

/// Writes the scaled frame into the crop-box region of the canvas, leaving
/// every cell outside the box untouched.
fn blit_into_canvas(canvas: &mut Vec<u8>, resized: &Vec<u8>, c: CropBox)
    requires
        crop_wf(c),
        old(canvas)@.len() == 4 * 640 * 480,
        resized@.len() == 4 * c.width * c.height,
    ensures
        final(canvas)@.len() == 4 * 640 * 480,
        forall|p: int|
            0 <= p < 640 * 480 ==> #[trigger] blit_cell_ok(
                old(canvas)@,
                final(canvas)@,
                resized@,
                c,
                p,
            ),
{
    let mut out: Vec<u8> = Vec::new();
    let mut p: usize = 0;
    while p < 640 * 480
        invariant
            crop_wf(c),
            canvas@ == old(canvas)@,
            canvas@.len() == 4 * 640 * 480,
            resized@.len() == 4 * c.width * c.height,
            0 <= p <= 640 * 480,
            out@.len() == 4 * p,
            forall|q: int|
                0 <= q < p ==> #[trigger] blit_cell_ok(canvas@, out@, resized@, c, q),
        decreases 640 * 480 - p,
    {
        let y: usize = p / 640;
        let x: usize = p % 640;
        let top = c.top as usize;
        let left = c.left as usize;
        let cw = c.width as usize;
        let ch = c.height as usize;
        let ghost prev = out@;
        if top <= y && y < top + ch && left <= x && x < left + cw {
            proof {
                assert((y - top) * cw + (x - left) < cw * ch && cw * ch <= 640 * 480)
                    by (nonlinear_arith)
                    requires
                        0 <= y - top < ch,
                        0 <= x - left < cw,
                        0 < cw <= 640,
                        0 < ch <= 480,
                ;
            }
            proof {
                assert(4 * cw * ch == 4 * (cw * ch)) by (nonlinear_arith);
            }
            let src: usize = 4 * ((y - top) * cw + (x - left));
            out.push(resized[src]);
            out.push(resized[src + 1]);
            out.push(resized[src + 2]);
            out.push(resized[src + 3]);
        } else {
            out.push(canvas[4 * p]);
            out.push(canvas[4 * p + 1]);
            out.push(canvas[4 * p + 2]);
            out.push(canvas[4 * p + 3]);
        }
        proof {
            assert forall|q: int| 0 <= q < p + 1 implies #[trigger] blit_cell_ok(
                canvas@,
                out@,
                resized@,
                c,
                q,
            ) by {
                if q < p {
                    assert(blit_cell_ok(canvas@, prev, resized@, c, q));
                    assert(out@[4 * q] == prev[4 * q]);
                    assert(out@[4 * q + 1] == prev[4 * q + 1]);
                    assert(out@[4 * q + 2] == prev[4 * q + 2]);
                    assert(out@[4 * q + 3] == prev[4 * q + 3]);
                }
            }
        }
        p = p + 1;
    }
    *canvas = out;
}

/// A byte-for-byte copy, used to take the last-frame snapshot.
fn copy_bytes(v: &Vec<u8>) -> (r: Vec<u8>)
    ensures
        r@ == v@,
{
    let mut r: Vec<u8> = Vec::new();
    r.extend_from_slice(v.as_slice());
    r
}

impl FramePipeline {
    /// Renders the working image onto the canvas.
    ///
    /// After a skip signal, or before the first real frame, the canvas and
    /// the snapshot are left untouched and nothing is presented.  Otherwise
    /// the visible part of the working image is scaled into the crop box,
    /// the rest of the canvas keeps its previous contents, and the snapshot
    /// records exactly what the canvas now shows.
    pub fn render(&mut self, canvas: &mut Vec<u8>) -> (presented: bool)
        requires
            old(self).wf(),
            old(canvas)@.len() == 4 * CANVAS_WIDTH * CANVAS_HEIGHT,
        ensures
            final(self).wf(),
            final(canvas)@.len() == 4 * CANVAS_WIDTH * CANVAS_HEIGHT,
            final(self).spec_image() == old(self).spec_image(),
            final(self).spec_crop() == old(self).spec_crop(),
            final(self).spec_skipped() == old(self).spec_skipped(),
            presented <==> (!old(self).spec_skipped() && old(self).spec_image() is Some),
            !presented ==> final(canvas)@ == old(canvas)@ && final(self).spec_snapshot() == old(
                self,
            ).spec_snapshot(),
            presented ==> {
                let img = old(self).spec_image()->Some_0;
                let c = old(self).spec_crop()->Some_0;
                let resized = nearest_resized(
                    spec_visible(
                        img.buffer@,
                        img.width as int,
                        img.visible_width as int,
                        img.height as int,
                    ),
                    img.visible_width,
                    img.height,
                    c.width,
                    c.height,
                );
                &&& forall|p: int|
                    0 <= p < 640 * 480 ==> #[trigger] blit_cell_ok(
                        old(canvas)@,
                        final(canvas)@,
                        resized,
                        c,
                        p,
                    )
                &&& match final(self).spec_snapshot() {
                    Some(s) => s@ == final(canvas)@,
                    None => false,
                }
            },
    {
        if self.skipped {
            return false;
        }
        let (vis_w, h) = match &self.image {
            None => {
                return false;
            },
            Some(img) => (img.visible_width, img.height),
        };
        let c = match &self.crop {
            None => {
                return false;
            },
            Some(c) => *c,
        };
        let visible = match &self.image {
            None => {
                return false;
            },
            Some(img) => crop_visible(img),
        };
        let resized = resize_nearest(&visible, vis_w, h, c.width, c.height);
        blit_into_canvas(canvas, &resized, c);
        self.snapshot = Some(copy_bytes(canvas));
        true
    }

    /// Encodes the last presented canvas as a PNG screenshot, if any frame
    /// has been presented yet.
    pub fn screenshot_png(&self) -> (r: Option<Vec<u8>>)
        requires
            self.wf(),
        ensures
            match (r, self.spec_snapshot()) {
                (Some(png), Some(s)) => png@ == png_encoding_of(
                    CANVAS_WIDTH,
                    CANVAS_HEIGHT,
                    spec_rgba_of(s@),
                ),
                (None, None) => true,
                _ => false,
            },
    {
        match &self.snapshot {
            None => None,
            Some(s) => {
                let rgba = xrgb8888_to_rgba888(s);
                Some(encode_png_rgba(CANVAS_WIDTH, CANVAS_HEIGHT, &rgba))
            },
        }
    }
}

} // verus!
