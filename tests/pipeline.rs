use image::{ImageFormat, Rgba, RgbaImage};
use image_optimizer::{
    decode_image, drop_alpha, optimize_decoded, encode_jpeg, filter_plan, hue_turn, optimize_buffer, optimize_image,
    resize, FilterConfig, PipelineError, PixelBuffer, ResizeMode, Stage,
};
use std::io::Cursor;

fn no_filters() -> FilterConfig {
    FilterConfig {
        has_sharpen_sigma: false,
        sharpen_threshold: None,
        has_blur_sigma: false,
        brightness: None,
        has_contrast: false,
        grayscale: false,
        invert: false,
        hue_rotate: None,
    }
}

fn buffer(width: u32, height: u32, pixels: Vec<u8>) -> PixelBuffer {
    PixelBuffer::from_raw(width, height, pixels).unwrap()
}

fn sample_2x2() -> Vec<u8> {
    vec![
        10, 20, 30, 255, 200, 100, 50, 128, 0, 0, 0, 0, 255, 255, 255, 7,
    ]
}

fn png_bytes(width: u32, height: u32) -> Vec<u8> {
    let img = RgbaImage::from_fn(width, height, |x, y| {
        Rgba([(x * 7 % 256) as u8, (y * 13 % 256) as u8, 90, 255])
    });
    let mut out = Cursor::new(Vec::new());
    img.write_to(&mut out, ImageFormat::Png).unwrap();
    out.into_inner()
}

fn jpeg_dims(bytes: &[u8]) -> (u32, u32) {
    let img = image::load_from_memory(bytes).unwrap();
    (img.width(), img.height())
}

#[test]
fn raw_buffer_of_exact_length_is_accepted() {
    let b = PixelBuffer::from_raw(2, 2, sample_2x2()).unwrap();
    assert_eq!(b.width(), 2);
    assert_eq!(b.height(), 2);
    assert_eq!(b.pixels(), &sample_2x2());
}

#[test]
fn raw_buffer_one_byte_short_is_rejected() {
    let r = PixelBuffer::from_raw(2, 2, vec![0u8; 15]);
    assert_eq!(r.err(), Some(PipelineError::InvalidBuffer));
}

#[test]
fn raw_buffer_one_byte_long_is_rejected() {
    let r = PixelBuffer::from_raw(2, 2, vec![0u8; 17]);
    assert_eq!(r.err(), Some(PipelineError::InvalidBuffer));
}

#[test]
fn empty_raw_buffer_is_accepted() {
    let b = PixelBuffer::from_raw(0, 5, Vec::new()).unwrap();
    assert_eq!(b.height(), 5);
    assert!(b.pixels().is_empty());
}

#[test]
fn huge_dimensions_are_rejected() {
    let r = PixelBuffer::from_raw(u32::MAX, u32::MAX, vec![0u8; 4]);
    assert_eq!(r.err(), Some(PipelineError::InvalidBuffer));
}

#[test]
fn unfiltered_2x2_buffer_encodes_to_jpeg() {
    let b = buffer(2, 2, vec![128u8; 16]);
    assert!(filter_plan(&no_filters()).is_empty());
    let bytes = encode_jpeg(&b, 90).unwrap();
    assert!(!bytes.is_empty());
    assert_eq!(&bytes[..2], &[0xFF, 0xD8]);
    assert_eq!(jpeg_dims(&bytes), (2, 2));
}

#[test]
fn empty_image_fails_to_encode() {
    let b = buffer(0, 0, Vec::new());
    assert!(matches!(encode_jpeg(&b, 90), Err(PipelineError::Encode(_))));
}

#[test]
fn quality_is_clamped_into_range() {
    let b = buffer(2, 2, sample_2x2());
    assert_eq!(encode_jpeg(&b, 0).unwrap(), encode_jpeg(&b, 1).unwrap());
    assert_eq!(encode_jpeg(&b, 250).unwrap(), encode_jpeg(&b, 100).unwrap());
}

#[test]
fn drop_alpha_keeps_colour_bytes() {
    let b = buffer(2, 2, sample_2x2());
    assert_eq!(drop_alpha(&b), vec![10, 20, 30, 200, 100, 50, 0, 0, 0, 255, 255, 255]);
}

#[test]
fn invert_keeps_alpha_and_flips_colour() {
    let b = buffer(2, 2, sample_2x2()).invert();
    assert_eq!(
        b.pixels(),
        &vec![245, 235, 225, 255, 55, 155, 205, 128, 255, 255, 255, 0, 0, 0, 0, 7]
    );
}

#[test]
fn invert_twice_is_identity() {
    let b = buffer(2, 2, sample_2x2()).invert().invert();
    assert_eq!(b.pixels(), &sample_2x2());
}

#[test]
fn brighten_clamps_and_keeps_alpha() {
    let b = buffer(2, 2, sample_2x2()).brighten(60);
    assert_eq!(
        b.pixels(),
        &vec![70, 80, 90, 255, 255, 160, 110, 128, 60, 60, 60, 0, 255, 255, 255, 7]
    );
    let d = buffer(2, 2, sample_2x2()).brighten(-40);
    assert_eq!(
        d.pixels(),
        &vec![0, 0, 0, 255, 160, 60, 10, 128, 0, 0, 0, 0, 215, 215, 215, 7]
    );
}

#[test]
fn brighten_by_extreme_deltas_saturates() {
    let up = buffer(2, 2, sample_2x2()).brighten(i32::MAX);
    assert_eq!(
        up.pixels(),
        &vec![255, 255, 255, 255, 255, 255, 255, 128, 255, 255, 255, 0, 255, 255, 255, 7]
    );
    let down = buffer(2, 2, sample_2x2()).brighten(i32::MIN);
    assert_eq!(
        down.pixels(),
        &vec![0, 0, 0, 255, 0, 0, 0, 128, 0, 0, 0, 0, 0, 0, 0, 7]
    );
}

#[test]
fn grayscale_uses_luma_and_keeps_alpha() {
    let b = buffer(2, 2, sample_2x2()).grayscale();
    // (2126*10 + 7152*20 + 722*30) / 10000 = 18; (2126*200 + 7152*100 + 722*50) / 10000 = 117
    assert_eq!(
        b.pixels(),
        &vec![18, 18, 18, 255, 117, 117, 117, 128, 0, 0, 0, 0, 255, 255, 255, 7]
    );
}

#[test]
fn grayscale_twice_equals_once() {
    let once = buffer(2, 2, sample_2x2()).grayscale();
    let twice = buffer(2, 2, sample_2x2()).grayscale().grayscale();
    assert_eq!(once.pixels(), twice.pixels());
}

#[test]
fn hue_turn_reduces_modulo_360() {
    assert_eq!(hue_turn(360), 0);
    assert_eq!(hue_turn(0), 0);
    assert_eq!(hue_turn(725), 5);
    assert_eq!(hue_turn(-90), 270);
    assert_eq!(hue_turn(i32::MIN), 232);
}

#[test]
fn hue_rotate_by_full_turn_matches_zero() {
    let a = buffer(2, 2, sample_2x2()).hue_rotate(360);
    let b = buffer(2, 2, sample_2x2()).hue_rotate(0);
    for (x, y) in a.pixels().iter().zip(b.pixels().iter()) {
        assert!((*x as i32 - *y as i32).abs() <= 1);
    }
}

#[test]
fn hue_rotate_keeps_alpha_and_size() {
    let b = buffer(2, 2, sample_2x2()).hue_rotate(180);
    assert_eq!(b.width(), 2);
    assert_eq!(b.pixels().len(), 16);
    assert_eq!(b.pixels()[3], 255);
    assert_eq!(b.pixels()[7], 128);
    assert_eq!(b.pixels()[11], 0);
    assert_eq!(b.pixels()[15], 7);
    assert_ne!(&b.pixels()[4..7], &[200, 100, 50]);
}

#[test]
fn sharpen_sigma_without_threshold_skips_unsharp_only() {
    let mut c = no_filters();
    c.has_sharpen_sigma = true;
    c.has_blur_sigma = true;
    c.brightness = Some(5);
    c.invert = true;
    assert_eq!(
        filter_plan(&c),
        vec![Stage::Blur, Stage::Brighten { delta: 5 }, Stage::Invert]
    );
}

#[test]
fn threshold_without_sigma_skips_unsharp() {
    let mut c = no_filters();
    c.sharpen_threshold = Some(3);
    c.grayscale = true;
    assert_eq!(filter_plan(&c), vec![Stage::Grayscale]);
}

#[test]
fn full_configuration_plans_canonical_order() {
    let c = FilterConfig {
        hue_rotate: Some(90),
        invert: true,
        grayscale: true,
        has_contrast: true,
        brightness: Some(-3),
        has_blur_sigma: true,
        sharpen_threshold: Some(2),
        has_sharpen_sigma: true,
    };
    assert_eq!(
        filter_plan(&c),
        vec![
            Stage::Unsharpen { threshold: 2 },
            Stage::Blur,
            Stage::Brighten { delta: -3 },
            Stage::Contrast,
            Stage::Grayscale,
            Stage::Invert,
            Stage::HueRotate { degrees: 90 },
        ]
    );
}

#[test]
fn resize_never_upscales() {
    let b = resize(buffer(2, 2, sample_2x2()), 10, ResizeMode::HighQuality);
    assert_eq!((b.width(), b.height()), (2, 2));
    assert_eq!(b.pixels(), &sample_2x2());
}

#[test]
fn resize_keeps_aspect_ratio_with_rounding() {
    let b = resize(buffer(4, 3, vec![50u8; 48]), 2, ResizeMode::Standard);
    // 3 * 2 / 4 = 1.5, rounded up
    assert_eq!((b.width(), b.height()), (2, 2));
    assert_eq!(b.pixels().len(), 16);
    let c = resize(buffer(10, 4, vec![50u8; 160]), 3, ResizeMode::HighQuality);
    // 4 * 3 / 10 = 1.2, rounded down
    assert_eq!((c.width(), c.height()), (3, 1));
}

#[test]
fn resize_to_zero_width_keeps_one_column_and_row() {
    let b = resize(buffer(4, 1, vec![9u8; 16]), 0, ResizeMode::Standard);
    assert_eq!((b.width(), b.height()), (1, 1));
}

#[test]
fn optimize_without_upscale_keeps_dimensions() {
    let bytes = optimize_image(&png_bytes(8, 6), 100, 80, None).unwrap();
    assert_eq!(jpeg_dims(&bytes), (8, 6));
}

#[test]
fn optimize_downscales_to_target_width() {
    let bytes = optimize_image(&png_bytes(8, 6), 4, 80, Some(ResizeMode::HighQuality)).unwrap();
    assert_eq!(jpeg_dims(&bytes), (4, 3));
}

#[test]
fn optimize_buffer_downscales() {
    let bytes = optimize_buffer(buffer(4, 3, vec![50u8; 48]), 2, 75, Some(ResizeMode::Standard)).unwrap();
    assert_eq!(jpeg_dims(&bytes), (2, 2));
}

#[test]
fn corrupt_input_fails_to_decode() {
    assert!(matches!(decode_image(&[1, 2, 3, 4]), Err(PipelineError::Decode(_))));
    assert!(matches!(optimize_image(&[0u8; 8], 10, 80, None), Err(PipelineError::Decode(_))));
}

#[test]
fn decode_gives_rgba_pixels() {
    let b = decode_image(&png_bytes(3, 2)).unwrap();
    assert_eq!((b.width(), b.height()), (3, 2));
    assert_eq!(b.pixels().len(), 24);
    assert_eq!(&b.pixels()[4..8], &[7, 0, 90, 255]);
}

#[test]
fn error_messages_describe_the_failure() {
    assert_eq!(PipelineError::InvalidBuffer.message(), "Invalid RGBA data dimensions");
    assert_eq!(PipelineError::Encode(String::from("x")).message(), "Error encoding JPEG: x");
    assert_eq!(PipelineError::Decode(String::from("y")).message(), "Error reading: y");
    assert_eq!(PipelineError::FilterParameter(String::from("z")).message(), "z");
}

#[test]
fn apply_stage_runs_integer_stages() {
    let b = buffer(2, 2, sample_2x2()).apply_stage(Stage::Invert).ok().unwrap();
    assert_eq!(b.pixels()[0], 245);
    let g = buffer(2, 2, sample_2x2()).apply_stage(Stage::Brighten { delta: 60 }).ok().unwrap();
    assert_eq!(g.pixels()[4], 255);
}

#[test]
fn apply_stage_hands_back_real_valued_stages() {
    for s in [Stage::Blur, Stage::Contrast, Stage::Unsharpen { threshold: 1 }] {
        let b = buffer(2, 2, sample_2x2()).apply_stage(s).err().unwrap();
        assert_eq!(b.pixels(), &sample_2x2());
    }
}

#[test]
fn decode_failure_message_names_reading() {
    let e = decode_image(&[1, 2, 3, 4]).err().unwrap();
    assert!(e.message().starts_with("Error reading: "));
}

#[test]
fn decoding_error_is_handed_back_unchanged() {
    let r = optimize_decoded(Err(PipelineError::Decode(String::from("bad"))), 10, 80, None);
    assert_eq!(r, Err(PipelineError::Decode(String::from("bad"))));
}

#[test]
fn decoded_image_goes_on_to_encoding() {
    let bytes = optimize_decoded(Ok(buffer(4, 3, vec![50u8; 48])), 2, 80, None).unwrap();
    assert_eq!(jpeg_dims(&bytes), (2, 2));
}

#[test]
fn too_wide_image_fails_with_encode() {
    let r = optimize_buffer(buffer(65536, 1, vec![1u8; 65536 * 4]), 70000, 80, None);
    assert!(matches!(r, Err(PipelineError::Encode(_))));
    let e = r.err().unwrap();
    assert!(e.message().starts_with("Error encoding JPEG: "));
}

#[test]
fn downscaling_a_too_wide_image_makes_it_encodable() {
    let bytes = optimize_buffer(buffer(65536, 1, vec![1u8; 65536 * 4]), 100, 80, None).unwrap();
    assert_eq!(jpeg_dims(&bytes), (100, 1));
}

#[test]
fn no_downscale_ignores_mode_and_target() {
    let a = optimize_buffer(buffer(2, 2, sample_2x2()), 2, 90, Some(ResizeMode::HighQuality)).unwrap();
    let b = optimize_buffer(buffer(2, 2, sample_2x2()), 500, 90, Some(ResizeMode::Standard)).unwrap();
    let c = optimize_buffer(buffer(2, 2, sample_2x2()), 3, 90, None).unwrap();
    assert_eq!(a, b);
    assert_eq!(b, c);
}

#[test]
fn primary_colours_2x2_encode_at_quality_90() {
    let px = vec![255, 0, 0, 255, 0, 255, 0, 255, 0, 0, 255, 255, 255, 255, 255, 255];
    let bytes = encode_jpeg(&buffer(2, 2, px), 90).unwrap();
    assert_eq!(&bytes[..2], &[0xFF, 0xD8]);
    assert_eq!(jpeg_dims(&bytes), (2, 2));
}
