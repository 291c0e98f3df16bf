use image_compressor::adapters::{
    compress_jpeg_bytes, compress_png_bytes, heic_to_jpeg_bytes, to_avif_bytes, to_bmp_bytes,
    to_ico_bytes, to_png_bytes, to_tiff_bytes, to_webp_bytes, transcode,
};
use image_compressor::dispatch::{compress_image_inproc, content_type, select_codec, CodecPlan};
use image_compressor::error::ErrorKind;
use image_compressor::imaging::Container;
use image_compressor::options::CompressionOptions;
use image_compressor::quality::parse_quality_range;
use std::io::Cursor;

fn create_test_png() -> Vec<u8> {
    let img = image::ImageBuffer::from_fn(100, 100, |_, _| image::Rgb([255u8, 0, 0]));
    let dynamic_img = image::DynamicImage::ImageRgb8(img);
    let mut bytes = Vec::new();
    dynamic_img.write_to(&mut Cursor::new(&mut bytes), image::ImageFormat::Png).unwrap();
    bytes
}

fn create_test_jpeg() -> Vec<u8> {
    let img = image::ImageBuffer::from_fn(100, 100, |_, _| image::Rgb([0u8, 0, 255]));
    let dynamic_img = image::DynamicImage::ImageRgb8(img);
    let mut bytes = Vec::new();
    dynamic_img.write_to(&mut Cursor::new(&mut bytes), image::ImageFormat::Jpeg).unwrap();
    bytes
}

fn create_pattern_png() -> Vec<u8> {
    let img = image::ImageBuffer::from_fn(64, 64, |x, y| {
        image::Rgb([((x % 8) * 32) as u8, ((y % 8) * 32) as u8, (((x + y) % 4) * 64) as u8])
    });
    let dynamic_img = image::DynamicImage::ImageRgb8(img);
    let mut bytes = Vec::new();
    dynamic_img.write_to(&mut Cursor::new(&mut bytes), image::ImageFormat::Png).unwrap();
    bytes
}

fn options(quality: &str, png_lossy: bool, oxipng: bool) -> CompressionOptions {
    CompressionOptions {
        png_lossy,
        png_quality: quality.to_string(),
        oxipng,
        to_webp: false,
        to_avif: false,
        to_jpeg: false,
        to_png: false,
        to_tiff: false,
        to_bmp: false,
        to_ico: false,
    }
}

fn convert(source: &[u8], ext: &str, target: &str) -> (Vec<u8>, String) {
    let mut opts = options("50-80", false, false);
    opts.apply_field("output_format", target);
    compress_image_inproc(source, ext, &opts).unwrap()
}

#[test]
fn test_png_compression() {
    let png_data = create_test_png();
    let opts = CompressionOptions {
        png_lossy: true,
        png_quality: "50-80".to_string(),
        oxipng: true,
        to_webp: false,
        to_avif: false,
        to_jpeg: false,
        to_png: false,
        to_tiff: false,
        to_bmp: false,
        to_ico: false,
    };

    let result = compress_image_inproc(&png_data, "png", &opts);
    assert!(result.is_ok());

    let (compressed, mime_type) = result.unwrap();
    assert_eq!(mime_type, "image/png");
    assert!(compressed.len() > 0);
}

#[test]
fn test_jpeg_compression() {
    let jpeg_data = create_test_jpeg();
    let opts = CompressionOptions {
        png_lossy: false,
        png_quality: "50-80".to_string(),
        oxipng: false,
        to_webp: false,
        to_avif: false,
        to_jpeg: false,
        to_png: false,
        to_tiff: false,
        to_bmp: false,
        to_ico: false,
    };

    let result = compress_image_inproc(&jpeg_data, "jpeg", &opts);
    assert!(result.is_ok());

    let (compressed, mime_type) = result.unwrap();
    assert_eq!(mime_type, "image/jpeg");
    assert!(compressed.len() > 0);
}

#[test]
fn test_format_conversions() {
    let png_data = create_test_png();

    let opts_webp = CompressionOptions {
        png_lossy: false,
        png_quality: "50-80".to_string(),
        oxipng: false,
        to_webp: true,
        to_avif: false,
        to_jpeg: false,
        to_png: false,
        to_tiff: false,
        to_bmp: false,
        to_ico: false,
    };

    let result = compress_image_inproc(&png_data, "png", &opts_webp);
    assert!(result.is_ok());
    let (_, mime_type) = result.unwrap();
    assert_eq!(mime_type, "image/webp");

    let opts_tiff = CompressionOptions {
        png_lossy: false,
        png_quality: "50-80".to_string(),
        oxipng: false,
        to_webp: false,
        to_avif: false,
        to_jpeg: false,
        to_png: false,
        to_tiff: true,
        to_bmp: false,
        to_ico: false,
    };

    let result = compress_image_inproc(&png_data, "png", &opts_tiff);
    assert!(result.is_ok());
    let (_, mime_type) = result.unwrap();
    assert_eq!(mime_type, "image/tiff");

    let opts_bmp = CompressionOptions {
        png_lossy: false,
        png_quality: "50-80".to_string(),
        oxipng: false,
        to_webp: false,
        to_avif: false,
        to_jpeg: false,
        to_png: false,
        to_tiff: false,
        to_bmp: true,
        to_ico: false,
    };

    let result = compress_image_inproc(&png_data, "png", &opts_bmp);
    assert!(result.is_ok());
    let (_, mime_type) = result.unwrap();
    assert_eq!(mime_type, "image/bmp");

    let opts_ico = CompressionOptions {
        png_lossy: false,
        png_quality: "50-80".to_string(),
        oxipng: false,
        to_webp: false,
        to_avif: false,
        to_jpeg: false,
        to_png: false,
        to_tiff: false,
        to_bmp: false,
        to_ico: true,
    };

    let result = compress_image_inproc(&png_data, "png", &opts_ico);
    assert!(result.is_ok());
    let (_, mime_type) = result.unwrap();
    assert_eq!(mime_type, "image/x-icon");
}

#[test]
fn test_heic_conversion() {
    let jpeg_data = create_test_jpeg();
    let opts = CompressionOptions {
        png_lossy: false,
        png_quality: "50-80".to_string(),
        oxipng: false,
        to_webp: false,
        to_avif: false,
        to_jpeg: false,
        to_png: false,
        to_tiff: false,
        to_bmp: false,
        to_ico: false,
    };

    let result = compress_image_inproc(&jpeg_data, "heic", &opts);
    assert!(result.is_ok());
    let (_, mime_type) = result.unwrap();
    assert_eq!(mime_type, "image/jpeg");
}

#[test]
fn test_quality_parsing() {
    assert_eq!(parse_quality_range("50-80"), (50, 80));
    assert_eq!(parse_quality_range("40-70"), (40, 70));
    assert_eq!(parse_quality_range("20-60"), (20, 60));
    assert_eq!(parse_quality_range("70-90"), (70, 90));
    assert_eq!(parse_quality_range("60"), (60, 80));
    assert_eq!(parse_quality_range("invalid"), (50, 80));
}

#[test]
fn test_max_compression_levels() {
    let png_data = create_test_png();

    let opts_max = CompressionOptions {
        png_lossy: true,
        png_quality: "20-60".to_string(),
        oxipng: true,
        to_webp: false,
        to_avif: false,
        to_jpeg: false,
        to_png: false,
        to_tiff: false,
        to_bmp: false,
        to_ico: false,
    };

    let result_max = compress_image_inproc(&png_data, "png", &opts_max);
    assert!(result_max.is_ok());

    let opts_low = CompressionOptions {
        png_lossy: true,
        png_quality: "70-90".to_string(),
        oxipng: true,
        to_webp: false,
        to_avif: false,
        to_jpeg: false,
        to_png: false,
        to_tiff: false,
        to_bmp: false,
        to_ico: false,
    };

    let result_low = compress_image_inproc(&png_data, "png", &opts_low);
    assert!(result_low.is_ok());

    let (max_bytes, _) = result_max.unwrap();
    let (low_bytes, _) = result_low.unwrap();

    assert!(max_bytes.len() > 0);
    assert!(low_bytes.len() > 0);
}

#[test]
fn test_web_api_compression() {
    let png_data = create_test_png();

    let opts = CompressionOptions {
        png_lossy: true,
        png_quality: "50-80".to_string(),
        oxipng: false,
        to_webp: false,
        to_avif: false,
        to_jpeg: false,
        to_png: false,
        to_tiff: false,
        to_bmp: false,
        to_ico: false,
    };

    let result = compress_image_inproc(&png_data, "png", &opts);
    assert!(result.is_ok());
}

#[test]
fn png_source_converts_to_webp() {
    let (bytes, mime) = convert(&create_test_png(), "png", "webp");
    assert_eq!(mime, "image/webp");
    assert_eq!(&bytes[0..4], b"RIFF");
    assert_eq!(&bytes[8..12], b"WEBP");
}

#[test]
fn png_source_converts_to_avif() {
    let (bytes, mime) = convert(&create_test_png(), "png", "avif");
    assert_eq!(mime, "image/avif");
    assert_eq!(&bytes[4..12], b"ftypavif");
}

#[test]
fn png_source_converts_to_jpeg() {
    let (bytes, mime) = convert(&create_test_png(), "png", "jpeg");
    assert_eq!(mime, "image/jpeg");
    assert_eq!(image::guess_format(&bytes).unwrap(), image::ImageFormat::Jpeg);
}

#[test]
fn png_source_converts_to_png() {
    let (bytes, mime) = convert(&create_test_png(), "png", "png");
    assert_eq!(mime, "image/png");
    assert_eq!(image::guess_format(&bytes).unwrap(), image::ImageFormat::Png);
}

#[test]
fn png_source_converts_to_tiff() {
    let (bytes, mime) = convert(&create_test_png(), "png", "tiff");
    assert_eq!(mime, "image/tiff");
    assert_eq!(image::guess_format(&bytes).unwrap(), image::ImageFormat::Tiff);
}

#[test]
fn png_source_converts_to_bmp() {
    let (bytes, mime) = convert(&create_test_png(), "png", "bmp");
    assert_eq!(mime, "image/bmp");
    assert_eq!(image::guess_format(&bytes).unwrap(), image::ImageFormat::Bmp);
}

#[test]
fn png_source_converts_to_ico() {
    let (bytes, mime) = convert(&create_test_png(), "png", "ico");
    assert_eq!(mime, "image/x-icon");
    assert_eq!(image::guess_format(&bytes).unwrap(), image::ImageFormat::Ico);
}

#[test]
fn jpeg_source_converts_to_webp() {
    let (bytes, mime) = convert(&create_test_jpeg(), "jpg", "webp");
    assert_eq!(mime, "image/webp");
    assert_eq!(image::guess_format(&bytes).unwrap(), image::ImageFormat::WebP);
}

#[test]
fn jpeg_source_converts_to_avif() {
    let (bytes, mime) = convert(&create_test_jpeg(), "jpg", "avif");
    assert_eq!(mime, "image/avif");
    assert!(bytes.len() > 0);
}

#[test]
fn jpeg_source_converts_to_jpeg() {
    let (bytes, mime) = convert(&create_test_jpeg(), "jpg", "jpeg");
    assert_eq!(mime, "image/jpeg");
    assert_eq!(image::guess_format(&bytes).unwrap(), image::ImageFormat::Jpeg);
}

#[test]
fn jpeg_source_converts_to_png() {
    let (bytes, mime) = convert(&create_test_jpeg(), "jpg", "png");
    assert_eq!(mime, "image/png");
    assert_eq!(image::guess_format(&bytes).unwrap(), image::ImageFormat::Png);
}

#[test]
fn jpeg_source_converts_to_tiff() {
    let (bytes, mime) = convert(&create_test_jpeg(), "jpg", "tiff");
    assert_eq!(mime, "image/tiff");
    assert_eq!(image::guess_format(&bytes).unwrap(), image::ImageFormat::Tiff);
}

#[test]
fn jpeg_source_converts_to_bmp() {
    let (bytes, mime) = convert(&create_test_jpeg(), "jpg", "bmp");
    assert_eq!(mime, "image/bmp");
    assert_eq!(image::guess_format(&bytes).unwrap(), image::ImageFormat::Bmp);
}

#[test]
fn jpeg_source_converts_to_ico() {
    let (bytes, mime) = convert(&create_test_jpeg(), "jpg", "ico");
    assert_eq!(mime, "image/x-icon");
    assert_eq!(image::guess_format(&bytes).unwrap(), image::ImageFormat::Ico);
}

#[test]
fn lossless_png_round_trip_keeps_pixels() {
    let source = create_pattern_png();
    let opts = options("50-80", false, false);
    let (bytes, mime) = compress_image_inproc(&source, "png", &opts).unwrap();
    assert_eq!(mime, "image/png");
    let before = image::load_from_memory(&source).unwrap().to_rgb8();
    let after = image::load_from_memory(&bytes).unwrap().to_rgb8();
    assert_eq!(before.dimensions(), after.dimensions());
    assert_eq!(before.into_raw(), after.into_raw());
}

#[test]
fn transcode_keeps_pixels_in_bmp() {
    let source = create_pattern_png();
    let bytes = transcode(&source, Container::Bmp).unwrap();
    let before = image::load_from_memory(&source).unwrap().to_rgb8();
    let after = image::load_from_memory(&bytes).unwrap().to_rgb8();
    assert_eq!(before.into_raw(), after.into_raw());
}

#[test]
fn heic_extension_overrides_every_option() {
    let jpeg_data = create_test_jpeg();
    let mut opts = options("50-80", true, true);
    opts.to_webp = true;
    opts.to_avif = true;
    opts.to_png = true;
    opts.to_ico = true;
    for ext in ["heic", "heif"] {
        assert_eq!(select_codec(ext, &opts), CodecPlan::HeicToJpeg { quality: 85 });
        let (bytes, mime) = compress_image_inproc(&jpeg_data, ext, &opts).unwrap();
        assert_eq!(mime, "image/jpeg");
        assert_eq!(image::guess_format(&bytes).unwrap(), image::ImageFormat::Jpeg);
    }
}

#[test]
fn heic_input_that_does_not_decode_is_a_decode_error() {
    let opts = options("50-80", true, true);
    let err = compress_image_inproc(b"not an image at all", "heic", &opts).unwrap_err();
    assert_eq!(err.kind(), ErrorKind::Decode);
    assert_eq!(err.message(), "Unsupported HEIC format or corrupted file");
    let err = heic_to_jpeg_bytes(&[], 85).unwrap_err();
    assert_eq!(err.kind(), ErrorKind::Decode);
    assert_eq!(err.message(), "Unsupported HEIC format or corrupted file");
}

#[test]
fn webp_outranks_avif() {
    let png_data = create_test_png();
    let mut opts = options("50-80", true, true);
    opts.to_webp = true;
    opts.to_avif = true;
    assert_eq!(select_codec("png", &opts), CodecPlan::Webp { quality: 65 });
    let (bytes, mime) = compress_image_inproc(&png_data, "png", &opts).unwrap();
    assert_eq!(mime, "image/webp");
    assert_eq!(image::guess_format(&bytes).unwrap(), image::ImageFormat::WebP);
}

#[test]
fn max_compression_is_not_larger_than_low_compression() {
    let source = create_pattern_png();
    let (max_bytes, _) = compress_image_inproc(&source, "png", &options("20-60", true, true)).unwrap();
    let (low_bytes, _) = compress_image_inproc(&source, "png", &options("70-90", true, true)).unwrap();
    assert!(!max_bytes.is_empty());
    assert!(!low_bytes.is_empty());
    assert_eq!(image::guess_format(&max_bytes).unwrap(), image::ImageFormat::Png);
    assert_eq!(image::guess_format(&low_bytes).unwrap(), image::ImageFormat::Png);
    assert!(image::load_from_memory(&max_bytes).is_ok());
    assert!(image::load_from_memory(&low_bytes).is_ok());
    assert!(max_bytes.len() <= low_bytes.len() + low_bytes.len() / 4 + 64);
}

#[test]
fn empty_input_is_a_decode_error_on_every_path() {
    let empty: Vec<u8> = Vec::new();
    assert_eq!(compress_png_bytes(&empty, "50-80", true).unwrap_err().kind(), ErrorKind::Decode);
    assert_eq!(to_png_bytes(&empty, "50-80", false).unwrap_err().kind(), ErrorKind::Decode);
    assert_eq!(compress_jpeg_bytes(&empty, 75).unwrap_err().kind(), ErrorKind::Decode);
    assert_eq!(to_webp_bytes(&empty, 65).unwrap_err().kind(), ErrorKind::Decode);
    assert_eq!(to_avif_bytes(&empty, 65).unwrap_err().kind(), ErrorKind::Decode);
    assert_eq!(to_tiff_bytes(&empty).unwrap_err().kind(), ErrorKind::Decode);
    assert_eq!(to_bmp_bytes(&empty).unwrap_err().kind(), ErrorKind::Decode);
    assert_eq!(to_ico_bytes(&empty).unwrap_err().kind(), ErrorKind::Decode);
}

#[test]
fn garbage_input_is_a_decode_error() {
    let garbage = vec![0x13u8; 64];
    let err = compress_image_inproc(&garbage, "png", &options("50-80", true, true)).unwrap_err();
    assert_eq!(err.kind(), ErrorKind::Decode);
    assert!(!err.message().is_empty());
    let truncated = create_test_png()[0..40].to_vec();
    let err = compress_image_inproc(&truncated, "png", &options("50-80", false, true)).unwrap_err();
    assert_eq!(err.kind(), ErrorKind::Decode);
}

#[test]
fn quality_range_that_the_quantizer_refuses_is_a_codec_error() {
    let png_data = create_test_png();
    let err = compress_png_bytes(&png_data, "90-10", false).unwrap_err();
    assert_eq!(err.kind(), ErrorKind::Codec);
    let err = compress_png_bytes(&png_data, "50-200", false).unwrap_err();
    assert_eq!(err.kind(), ErrorKind::Codec);
    assert!(compress_png_bytes(&png_data, "0-100", false).is_ok());
}

#[test]
fn avif_quality_out_of_range_is_a_codec_error() {
    let png_data = create_test_png();
    assert_eq!(to_avif_bytes(&png_data, 0).unwrap_err().kind(), ErrorKind::Codec);
    assert_eq!(to_avif_bytes(&png_data, 101).unwrap_err().kind(), ErrorKind::Codec);
}

#[test]
fn large_image_is_scaled_down_for_an_icon() {
    let img = image::ImageBuffer::from_fn(400, 200, |x, _| image::Rgba([(x % 256) as u8, 10, 20, 255]));
    let mut source = Vec::new();
    image::DynamicImage::ImageRgba8(img)
        .write_to(&mut Cursor::new(&mut source), image::ImageFormat::Png)
        .unwrap();
    let bytes = to_ico_bytes(&source).unwrap();
    assert_eq!(image::guess_format(&bytes).unwrap(), image::ImageFormat::Ico);
    let icon = image::load_from_memory(&bytes).unwrap();
    assert_eq!((icon.width(), icon.height()), (256, 128));
}

#[test]
fn small_image_keeps_its_size_as_an_icon() {
    let img = image::ImageBuffer::from_fn(100, 100, |_, _| image::Rgba([0u8, 255, 0, 128]));
    let mut source = Vec::new();
    image::DynamicImage::ImageRgba8(img)
        .write_to(&mut Cursor::new(&mut source), image::ImageFormat::Png)
        .unwrap();
    let bytes = to_ico_bytes(&source).unwrap();
    let icon = image::load_from_memory(&bytes).unwrap();
    assert_eq!((icon.width(), icon.height()), (100, 100));
    assert_eq!(icon.to_rgba8().get_pixel(5, 5).0, [0, 255, 0, 128]);
}

#[test]
fn quantized_png_keeps_size_and_solid_colour() {
    let bytes = compress_png_bytes(&create_test_png(), "50-80", true).unwrap();
    let out = image::load_from_memory(&bytes).unwrap().to_rgba8();
    assert_eq!(out.dimensions(), (100, 100));
    assert_eq!(out.get_pixel(10, 10).0, [255, 0, 0, 255]);
}

#[test]
fn jpeg_output_keeps_size() {
    let bytes = compress_jpeg_bytes(&create_test_png(), 40).unwrap();
    let out = image::load_from_memory(&bytes).unwrap();
    assert_eq!((out.width(), out.height()), (100, 100));
    let bytes = compress_jpeg_bytes(&create_test_png(), 90).unwrap();
    assert_eq!(image::guess_format(&bytes).unwrap(), image::ImageFormat::Jpeg);
}

#[test]
fn unknown_extension_falls_back_to_quantized_png() {
    let opts = options("50-80", false, false);
    assert_eq!(
        select_codec("bmp", &opts),
        CodecPlan::PngQuantized { min: 50, max: 80, oxipng: false }
    );
    let bmp = to_bmp_bytes(&create_test_png()).unwrap();
    let (bytes, mime) = compress_image_inproc(&bmp, "bmp", &opts).unwrap();
    assert_eq!(mime, "image/png");
    assert_eq!(image::guess_format(&bytes).unwrap(), image::ImageFormat::Png);
}

#[test]
fn the_same_input_gives_the_same_bytes() {
    let png = create_pattern_png();
    assert_eq!(compress_jpeg_bytes(&png, 40).unwrap(), compress_jpeg_bytes(&png, 40).unwrap());
    assert_eq!(compress_jpeg_bytes(&png, 90).unwrap(), compress_jpeg_bytes(&png, 90).unwrap());
    let coarse = compress_jpeg_bytes(&png, 10).unwrap();
    let fine = compress_jpeg_bytes(&png, 95).unwrap();
    assert!(coarse.len() < fine.len());
    assert_ne!(compress_jpeg_bytes(&png, 60).unwrap(), compress_jpeg_bytes(&png, 61).unwrap());
    assert_eq!(to_webp_bytes(&png, 65).unwrap(), to_webp_bytes(&png, 65).unwrap());
    assert_eq!(to_tiff_bytes(&png).unwrap(), transcode(&png, Container::Tiff).unwrap());
    assert_eq!(to_bmp_bytes(&png).unwrap(), transcode(&png, Container::Bmp).unwrap());
    assert_eq!(to_ico_bytes(&png).unwrap(), to_ico_bytes(&png).unwrap());
    assert_eq!(heic_to_jpeg_bytes(&png, 85).unwrap(), heic_to_jpeg_bytes(&png, 85).unwrap());
}

#[test]
fn dispatcher_hands_back_the_adapter_bytes() {
    let png = create_pattern_png();
    let mut opts = options("40-60", false, false);
    let (bytes, _) = compress_image_inproc(&png, "jpg", &opts).unwrap();
    assert_eq!(bytes, compress_jpeg_bytes(&png, 75).unwrap());
    let (bytes, _) = compress_image_inproc(&png, "png", &opts).unwrap();
    assert_eq!(bytes, transcode(&png, Container::Png).unwrap());
    let (bytes, _) = compress_image_inproc(&png, "heic", &opts).unwrap();
    assert_eq!(bytes, heic_to_jpeg_bytes(&png, 85).unwrap());
    opts.to_ico = true;
    let (bytes, _) = compress_image_inproc(&png, "jpg", &opts).unwrap();
    assert_eq!(bytes, to_ico_bytes(&png).unwrap());
    opts.to_bmp = true;
    let (bytes, _) = compress_image_inproc(&png, "jpg", &opts).unwrap();
    assert_eq!(bytes, to_bmp_bytes(&png).unwrap());
    opts.to_tiff = true;
    let (bytes, _) = compress_image_inproc(&png, "jpg", &opts).unwrap();
    assert_eq!(bytes, to_tiff_bytes(&png).unwrap());
    opts.to_jpeg = true;
    let (bytes, _) = compress_image_inproc(&png, "png", &opts).unwrap();
    assert_eq!(bytes, compress_jpeg_bytes(&png, 50).unwrap());
    opts.to_webp = true;
    let (bytes, _) = compress_image_inproc(&png, "png", &opts).unwrap();
    assert_eq!(bytes, to_webp_bytes(&png, 50).unwrap());
}

fn distinct_colours(png: &[u8]) -> usize {
    let img = image::load_from_memory(png).unwrap().to_rgba8();
    let mut seen = std::collections::HashSet::new();
    for p in img.pixels() {
        seen.insert(p.0);
    }
    seen.len()
}

#[test]
fn quantizer_keeps_to_its_colour_budget() {
    let img = image::ImageBuffer::from_fn(96, 96, |x, y| {
        image::Rgb([(x * 255 / 95) as u8, (y * 255 / 95) as u8, ((x * y) % 256) as u8])
    });
    let mut source = Vec::new();
    image::DynamicImage::ImageRgb8(img)
        .write_to(&mut Cursor::new(&mut source), image::ImageFormat::Png)
        .unwrap();
    assert!(distinct_colours(&source) > 256);
    let reduced = compress_png_bytes(&source, "0-60", false).unwrap();
    assert!(distinct_colours(&reduced) <= 128);
    let full = compress_png_bytes(&source, "0-100", false).unwrap();
    assert!(distinct_colours(&full) <= 256);
    assert!(distinct_colours(&full) > 128);
    let out = image::load_from_memory(&reduced).unwrap();
    assert_eq!((out.width(), out.height()), (96, 96));
}

#[test]
fn image_too_wide_for_webp_is_a_codec_error() {
    let img = image::ImageBuffer::from_fn(16384, 1, |_, _| image::Rgb([1u8, 2, 3]));
    let mut source = Vec::new();
    image::DynamicImage::ImageRgb8(img)
        .write_to(&mut Cursor::new(&mut source), image::ImageFormat::Png)
        .unwrap();
    assert_eq!(to_webp_bytes(&source, 65).unwrap_err().kind(), ErrorKind::Codec);
    let img = image::ImageBuffer::from_fn(16383, 1, |_, _| image::Rgb([1u8, 2, 3]));
    let mut source = Vec::new();
    image::DynamicImage::ImageRgb8(img)
        .write_to(&mut Cursor::new(&mut source), image::ImageFormat::Png)
        .unwrap();
    assert!(to_webp_bytes(&source, 65).is_ok());
}

#[test]
fn content_types_by_codec() {
    assert_eq!(content_type(CodecPlan::HeicToJpeg { quality: 85 }), "image/jpeg");
    assert_eq!(content_type(CodecPlan::Webp { quality: 1 }), "image/webp");
    assert_eq!(content_type(CodecPlan::Avif { quality: 1 }), "image/avif");
    assert_eq!(content_type(CodecPlan::Jpeg { quality: 1 }), "image/jpeg");
    assert_eq!(content_type(CodecPlan::PngQuantized { min: 1, max: 2, oxipng: true }), "image/png");
    assert_eq!(content_type(CodecPlan::PngLossless), "image/png");
    assert_eq!(content_type(CodecPlan::Tiff), "image/tiff");
    assert_eq!(content_type(CodecPlan::Bmp), "image/bmp");
    assert_eq!(content_type(CodecPlan::Ico), "image/x-icon");
}
