//! The encoders of the outside crates, each behind a small trusted function.
use vstd::prelude::*;
use crate::imaging::Raster;

verus! {

/// The largest width or height that the JPEG encoder takes.
pub const JPEG_MAX_DIMENSION: u32 = 65500;

/// The largest width or height of a WebP image.
pub const WEBP_MAX_DIMENSION: u32 = 16383;

/// The error of the `imagequant` crate, carried through as an opaque value.
#[verifier::external_type_specification]
#[verifier::external_body]
pub struct ExQuantError(imagequant::Error);

/// The error of the `oxipng` crate, carried through as an opaque value.
#[verifier::external_type_specification]
#[verifier::external_body]
pub struct ExPngError(oxipng::PngError);

/// The error of the `ravif` crate, carried through as an opaque value.
#[verifier::external_type_specification]
#[verifier::external_body]
pub struct ExAvifError(ravif::Error);

/// The error of the `webp` crate, carried through as an opaque value.
#[verifier::external_type_specification]
#[verifier::external_body]
pub struct ExWebpError(webp::WebPEncodingError);

/// The input and output error of std, which `mozjpeg` reports its failures with,
/// carried through as an opaque value.
#[verifier::external_type_specification]
#[verifier::external_body]
pub struct ExIoError(std::io::Error);

/// Which chunks the structural PNG optimizer takes out of a file.
#[derive(Clone, Copy, Debug, PartialEq, Eq, Structural)]
pub enum ChunkStripping {
    /// None.
    Nothing,
    /// Those that do not change how the image is shown.
    Safe,
    /// All that are not needed to decode the image.
    All,
}

/// A palette and, for each pixel, the index of its colour in the palette. The
/// palette holds four samples (red, green, blue, alpha) for each colour.
#[derive(Debug)]
pub struct IndexedImage {
    pub palette: Vec<u8>,
    pub indices: Vec<u8>,
}

/// The progressive JPEG file that `mozjpeg` makes of 8-bit RGB samples at a
/// quality, with all components in one scan, and with or without the passes that
/// optimize coding and scans; none where the encoder fails.
pub uninterp spec fn jpeg_encoding(
    width: u32,
    height: u32,
    pixels: Seq<u8>,
    quality: u8,
    optimize: bool,
) -> Option<Seq<u8>>;

/// The WebP file that `webp` makes of 8-bit RGBA samples at a quality, lossless
/// or not; none where the encoder fails.
pub uninterp spec fn webp_encoding(
    width: u32,
    height: u32,
    pixels: Seq<u8>,
    lossless: bool,
    quality: u8,
) -> Option<Seq<u8>>;

/// Makes one progressive JPEG with `mozjpeg`: `Compress::new` for RGB input,
/// `set_scan_optimization_mode` for one scan of all components, which also
/// resets the other settings, then `set_size`, `set_quality`,
/// `set_optimize_coding`, `set_optimize_scans`, `set_progressive_mode`, and
/// `start_compress` into a buffer in memory, `write_scanlines` and `finish`. The
/// crate panics on a size that JPEG cannot record and on missing scan lines,
/// which the contract leaves out. The outcome has the name `jpeg_encoding`.
#[verifier::external_body]
pub(crate) fn jpeg_encode(raster: &Raster, quality: u8, optimize: bool) -> (r: Result<
    Vec<u8>,
    std::io::Error,
>)
    requires
        0 < raster.width <= JPEG_MAX_DIMENSION,
        0 < raster.height <= JPEG_MAX_DIMENSION,
        raster.has_layout(3),
    ensures
        r is Ok <==> jpeg_encoding(raster.width, raster.height, raster.pixels@, quality, optimize)
            is Some,
        r matches Ok(bytes) ==> jpeg_encoding(
            raster.width,
            raster.height,
            raster.pixels@,
            quality,
            optimize,
        ) == Some(bytes@),
{
    let mut c = mozjpeg::Compress::new(mozjpeg::ColorSpace::JCS_RGB);
    c.set_scan_optimization_mode(mozjpeg::ScanMode::AllComponentsTogether);
    c.set_size(raster.width as usize, raster.height as usize);
    c.set_quality(quality.into());
    c.set_optimize_coding(optimize);
    c.set_optimize_scans(optimize);
    c.set_progressive_mode();
    let mut started = c.start_compress(Vec::new())?;
    started.write_scanlines(&raster.pixels)?;
    started.finish()
}

/// Calls `webp::Encoder::from_rgba` and `encode_simple`. The crate panics on a
/// buffer that is too small for the size, and computes the length of a row in
/// 32 bits, so the contract leaves out such a buffer and every size beyond
/// WebP's own limit. The outcome has the name `webp_encoding`.
#[verifier::external_body]
pub(crate) fn webp_encode_rgba(raster: &Raster, lossless: bool, quality: u8) -> (r: Result<
    Vec<u8>,
    webp::WebPEncodingError,
>)
    requires
        0 < raster.width <= WEBP_MAX_DIMENSION,
        0 < raster.height <= WEBP_MAX_DIMENSION,
        raster.has_layout(4),
    ensures
        r is Ok <==> webp_encoding(raster.width, raster.height, raster.pixels@, lossless, quality)
            is Some,
        r matches Ok(bytes) ==> webp_encoding(
            raster.width,
            raster.height,
            raster.pixels@,
            lossless,
            quality,
        ) == Some(bytes@),
{
    let encoder = webp::Encoder::from_rgba(&raster.pixels, raster.width, raster.height);
    match encoder.encode_simple(lossless, quality.into()) {
        Ok(memory) => Ok(memory.to_vec()),
        Err(e) => Err(e),
    }
}

/// Formats an error of the `webp` crate, which has no text of its own, by its
/// name.
#[verifier::external_body]
pub(crate) fn webp_error_text(e: &webp::WebPEncodingError) -> (r: String) {
    format!("{:?}", e)
}

/// Calls `ravif::Encoder::new`, `with_quality`, `with_speed` and `encode_rgba`.
/// The crate panics on a quality outside 1..=100, a speed outside 1..=10 and a
/// buffer that does not match the size, which the contract leaves out. The
/// encoder splits its work by the number of threads of the machine, so nothing
/// is claimed of the outcome.
#[verifier::external_body]
pub(crate) fn avif_encode_rgba(raster: &Raster, quality: u8, speed: u8) -> (r: Result<
    Vec<u8>,
    ravif::Error,
>)
    requires
        1 <= quality <= 100,
        1 <= speed <= 10,
        raster.width > 0,
        raster.height > 0,
        raster.has_layout(4),
{
    let pixels = rgb::FromSlice::as_rgba(&raster.pixels[..]);
    let image = ravif::Img::new(pixels, raster.width as usize, raster.height as usize);
    let encoder = ravif::Encoder::new().with_quality(quality.into()).with_speed(speed);
    match encoder.encode_rgba(image) {
        Ok(encoded) => Ok(encoded.avif_file),
        Err(e) => Err(e),
    }
}

/// Quantizes with `imagequant`: `Attributes::new`, `set_speed`,
/// `set_max_colors`, `set_quality`, `Image::new` for sRGB pixels, `quantize`,
/// `QuantizationResult::set_dithering_level` and `remapped`. The samples go in
/// and the palette comes out through the slice views of the `rgb` crate.
///
/// The quantizer adds up in several threads, so the outcome has no name. What
/// holds of every outcome: the three setters refuse a speed outside 1..=10, a
/// number of colours outside 2..=256 and a target above 100 or below the
/// minimum; `remapped` hands out one index for each pixel; and the palette
/// holds whole colours, no more of them than the number that was set.
#[verifier::external_body]
pub(crate) fn quantize_rgba(
    raster: &Raster,
    speed: i32,
    colors: u32,
    minimum: u8,
    target: u8,
    dithering: u8,
) -> (r: Result<IndexedImage, imagequant::Error>)
    requires
        dithering <= 1,
    ensures
        !(1 <= speed <= 10 && 2 <= colors <= 256 && minimum <= target <= 100) ==> r is Err,
        r matches Ok(indexed) ==> {
            &&& indexed.indices@.len() == raster.width as nat * raster.height as nat
            &&& indexed.palette@.len() % 4 == 0
            &&& indexed.palette@.len() <= 4 * colors
        },
{
    let mut a = imagequant::Attributes::new();
    a.set_speed(speed)?;
    a.set_max_colors(colors)?;
    a.set_quality(minimum, target)?;
    let pixels = rgb::FromSlice::as_rgba(&raster.pixels[..]);
    let (w, h) = (raster.width as usize, raster.height as usize);
    let mut img = imagequant::Image::new(&a, pixels, w, h, 0u8.into())?;
    let mut res = a.quantize(&mut img)?;
    res.set_dithering_level(dithering.into())?;
    let (palette, indices) = res.remapped(&mut img)?;
    Ok(IndexedImage { palette: rgb::ComponentBytes::as_bytes(&palette[..]).to_vec(), indices })
}

/// Calls `oxipng::Options::from_preset`, sets which chunks the options strip,
/// and calls `oxipng::optimize_from_memory`. Nothing is claimed of the outcome.
#[verifier::external_body]
pub(crate) fn oxipng_optimize(png: &[u8], preset: u8, strip: ChunkStripping) -> (r: Result<
    Vec<u8>,
    oxipng::PngError,
>) {
    let mut opts = oxipng::Options::from_preset(preset);
    opts.strip = match strip {
        ChunkStripping::Nothing => oxipng::StripChunks::None,
        ChunkStripping::Safe => oxipng::StripChunks::Safe,
        ChunkStripping::All => oxipng::StripChunks::All,
    };
    oxipng::optimize_from_memory(png, &opts)
}

} // verus!
