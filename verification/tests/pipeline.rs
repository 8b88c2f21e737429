//! Tests of the pixel conversions, geometry and the frame pipeline.

use retrohost::frame::{FrameError, FramePipeline};
use retrohost::geometry::{compute_crop_box, AvInfo, CANVAS_HEIGHT, CANVAS_WIDTH};
use retrohost::pixel::{argb8888_to_xrgb8888, rgb565_to_xrgb8888, xrgb8888_to_rgba888, PixelFormat};

fn test_av_info(base_width: u32, aspect_num: u32, aspect_den: u32) -> AvInfo {
    AvInfo {
        base_width,
        base_height: 480,
        max_width: 640,
        max_height: 480,
        aspect_num,
        aspect_den,
        fps_mhz: 60_000,
        sample_rate_hz: 32768,
    }
}

#[test]
fn rgb565_pure_red_expands_to_full_red() {
    // Pure red: five high bits set -> 0xF800, little endian bytes [0x00, 0xF8].
    let pixels = vec![0x00u8, 0xF8u8];
    let mut out = vec![0u8; 4];
    rgb565_to_xrgb8888(&pixels, &mut out);
    assert_eq!(out, vec![0, 0, 255, 255]); // blue, green, red, alpha
}

#[test]
fn rgb565_pure_green_expands_to_full_green() {
    // Pure green: middle six bits set -> 0x07E0, little endian [0xE0, 0x07].
    let pixels = vec![0xE0u8, 0x07u8];
    let mut out = vec![0u8; 4];
    rgb565_to_xrgb8888(&pixels, &mut out);
    assert_eq!(out, vec![0, 255, 0, 255]);
}

#[test]
fn rgb565_pure_blue_expands_to_full_blue() {
    // Pure blue: five low bits set -> 0x001F, little endian [0x1F, 0x00].
    let pixels = vec![0x1Fu8, 0x00u8];
    let mut out = vec![0u8; 4];
    rgb565_to_xrgb8888(&pixels, &mut out);
    assert_eq!(out, vec![255, 0, 0, 255]);
}

#[test]
fn rgb565_replicates_high_bits_and_forces_alpha() {
    // An arbitrary value: 0b10101_010101_01010 = 0xAAAA.
    let pixels = vec![0xAAu8, 0xAAu8];
    let mut out = vec![0u8; 4];
    rgb565_to_xrgb8888(&pixels, &mut out);
    let r5 = 0b10101u8;
    let g6 = 0b010101u8;
    let b5 = 0b01010u8;
    assert_eq!(out[2], (r5 << 3) | (r5 >> 2));
    assert_eq!(out[1], (g6 << 2) | (g6 >> 3));
    assert_eq!(out[0], (b5 << 3) | (b5 >> 2));
    assert_eq!(out[3], 255);
}

#[test]
fn argb8888_copy_is_byte_for_byte() {
    let pixels = vec![1u8, 2, 3, 4, 5, 6, 7, 8];
    let mut out = vec![0u8; 8];
    argb8888_to_xrgb8888(&pixels, &mut out);
    assert_eq!(out, pixels);
}

#[test]
fn xrgb_to_rgba_reorders_and_sets_alpha() {
    // One XRGB pixel stored as little-endian bytes: blue, green, red, x.
    let xrgb = vec![10u8, 20, 30, 99];
    let rgba = xrgb8888_to_rgba888(&xrgb);
    assert_eq!(rgba, vec![30, 20, 10, 255]);
}

#[test]
fn crop_box_four_thirds_fills_canvas() {
    let c = compute_crop_box(4, 3);
    assert_eq!(c.left, 0);
    assert_eq!(c.top, 0);
    assert_eq!(c.width, CANVAS_WIDTH);
    assert_eq!(c.height, CANVAS_HEIGHT);
}

#[test]
fn crop_box_tall_aspect_is_pillarboxed() {
    // Aspect 3:4 is narrower than 4:3: full height, width 480 * 3 / 4 = 360,
    // centred with symmetric left and right bands of 140.
    let c = compute_crop_box(3, 4);
    assert_eq!(c.height, 480);
    assert_eq!(c.width, 360);
    assert_eq!(c.top, 0);
    assert_eq!(c.left, 140);
    assert_eq!(c.left + c.width + c.left, CANVAS_WIDTH);
}

#[test]
fn crop_box_wide_aspect_is_letterboxed() {
    // Aspect 16:9 is wider than 4:3: full width, height 640 * 9 / 16 = 360,
    // centred with symmetric top and bottom bands of 60.
    let c = compute_crop_box(16, 9);
    assert_eq!(c.width, 640);
    assert_eq!(c.height, 360);
    assert_eq!(c.left, 0);
    assert_eq!(c.top, 60);
    assert_eq!(c.top + c.height + c.top, CANVAS_HEIGHT);
}

#[test]
fn unsupported_format_is_an_explicit_error() {
    let mut p = FramePipeline::new();
    let av = test_av_info(2, 4, 3);
    let pixels = vec![0u8; 8]; // 2x2 pixels at 2 bytes each
    let r = p.handle_frame(&av, PixelFormat::Argb1555, Some(&pixels), 2, 4);
    assert_eq!(r, Err(FrameError::UnsupportedFormat));
    assert!(p.working_pixels().is_none());
}

#[test]
fn first_frame_fixes_crop_box_and_allocates() {
    let mut p = FramePipeline::new();
    let av = test_av_info(2, 4, 3);
    let pixels = vec![7u8; 2 * 2 * 4];
    p.handle_frame(&av, PixelFormat::Argb8888, Some(&pixels), 2, 8)
        .unwrap();
    let c = p.crop_box().unwrap();
    assert_eq!((c.left, c.top, c.width, c.height), (0, 0, 640, 480));
    assert_eq!(p.working_pixels().unwrap(), &pixels);
    assert!(!p.is_skipped());
}

#[test]
fn skipped_frame_leaves_working_image_and_canvas_untouched() {
    let mut p = FramePipeline::new();
    let av = test_av_info(2, 4, 3);
    let pixels = vec![0xABu8; 2 * 2 * 4];
    p.handle_frame(&av, PixelFormat::Argb8888, Some(&pixels), 2, 8)
        .unwrap();
    let mut canvas = vec![0u8; 640 * 480 * 4];
    assert!(p.render(&mut canvas));
    let canvas_before = canvas.clone();
    let image_before = p.working_pixels().unwrap().clone();

    // The skip signal: no pixel data this step.
    p.handle_frame(&av, PixelFormat::Argb8888, None, 2, 8).unwrap();
    assert!(p.is_skipped());
    assert_eq!(p.working_pixels().unwrap(), &image_before);
    assert!(!p.render(&mut canvas));
    assert_eq!(canvas, canvas_before);
}

#[test]
fn skip_before_first_frame_renders_nothing() {
    let mut p = FramePipeline::new();
    let av = test_av_info(2, 4, 3);
    p.handle_frame(&av, PixelFormat::Rgb565, None, 2, 4).unwrap();
    assert!(p.is_skipped());
    assert!(p.working_pixels().is_none());
    let mut canvas = vec![5u8; 640 * 480 * 4];
    assert!(!p.render(&mut canvas));
    assert!(canvas.iter().all(|&b| b == 5));
}

#[test]
fn identity_size_render_copies_frame_to_canvas() {
    // A full-canvas frame at aspect 4:3 is scaled one to one.
    let mut p = FramePipeline::new();
    let av = test_av_info(640, 4, 3);
    let mut pixels = vec![0u8; 640 * 480 * 4];
    for (i, b) in pixels.iter_mut().enumerate() {
        *b = (i % 251) as u8;
    }
    p.handle_frame(&av, PixelFormat::Argb8888, Some(&pixels), 480, 2560)
        .unwrap();
    let mut canvas = vec![0u8; 640 * 480 * 4];
    assert!(p.render(&mut canvas));
    assert_eq!(canvas, pixels);
}

#[test]
fn upscale_render_replicates_single_pixel() {
    // A one-pixel frame fills the whole crop box with its colour.
    let mut p = FramePipeline::new();
    let av = test_av_info(1, 4, 3);
    let pixels = vec![11u8, 22, 33, 255];
    p.handle_frame(&av, PixelFormat::Argb8888, Some(&pixels), 1, 4)
        .unwrap();
    let mut canvas = vec![0u8; 640 * 480 * 4];
    assert!(p.render(&mut canvas));
    for cell in canvas.chunks(4) {
        assert_eq!(cell, &[11, 22, 33, 255]);
    }
}

#[test]
fn pitch_padding_is_cropped_before_scaling() {
    // Two visible pixels per row, two padding pixels of pitch on the right;
    // the padding colour must never reach the canvas.
    let mut p = FramePipeline::new();
    let av = test_av_info(2, 4, 3);
    let mut pixels = Vec::new();
    for _row in 0..2 {
        pixels.extend_from_slice(&[1, 1, 1, 255, 2, 2, 2, 255]); // visible
        pixels.extend_from_slice(&[9, 9, 9, 9, 9, 9, 9, 9]); // padding
    }
    p.handle_frame(&av, PixelFormat::Argb8888, Some(&pixels), 2, 16)
        .unwrap();
    let mut canvas = vec![0u8; 640 * 480 * 4];
    assert!(p.render(&mut canvas));
    assert!(canvas.chunks(4).all(|c| c != [9, 9, 9, 9]));
    assert_eq!(&canvas[0..4], &[1, 1, 1, 255]);
    assert_eq!(&canvas[(640 - 1) * 4..640 * 4], &[2, 2, 2, 255]);
}

#[test]
fn screenshot_is_a_decodable_png_of_the_canvas() {
    let mut p = FramePipeline::new();
    let av = test_av_info(1, 4, 3);
    let pixels = vec![10u8, 20, 30, 255]; // one XRGB pixel: b, g, r, x
    p.handle_frame(&av, PixelFormat::Argb8888, Some(&pixels), 1, 4)
        .unwrap();
    let mut canvas = vec![0u8; 640 * 480 * 4];
    assert!(p.render(&mut canvas));
    let png_bytes = p.screenshot_png().unwrap();
    assert_ne!(png_bytes, canvas);

    let decoder = png::Decoder::new(&png_bytes[..]);
    let mut reader = decoder.read_info().unwrap();
    let mut buf = vec![0u8; reader.output_buffer_size()];
    let info = reader.next_frame(&mut buf).unwrap();
    assert_eq!(info.width, 640);
    assert_eq!(info.height, 480);
    assert_eq!(info.color_type, png::ColorType::Rgba);
    // RGBA of the XRGB pixel [b=10, g=20, r=30]:
    assert_eq!(&buf[0..4], &[30, 20, 10, 255]);
}

#[test]
fn screenshot_before_any_render_is_none() {
    let p = FramePipeline::new();
    assert!(p.screenshot_png().is_none());
}

#[test]
fn later_frames_keep_the_first_crop_box() {
    let mut p = FramePipeline::new();
    let av = test_av_info(2, 4, 3);
    let pixels = vec![0u8; 2 * 2 * 4];
    p.handle_frame(&av, PixelFormat::Argb8888, Some(&pixels), 2, 8)
        .unwrap();
    let first = p.crop_box().unwrap();
    p.handle_frame(&av, PixelFormat::Argb8888, Some(&pixels), 2, 8)
        .unwrap();
    assert_eq!(p.crop_box().unwrap(), first);
}
