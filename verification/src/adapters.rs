//! The codec adapters: one function for each way of producing output bytes. Each
//! decodes its input, fixes what is handed to the encoder, and reports failure as
//! a typed error. The encoders decide whether encoding succeeds.
use vstd::prelude::*;
use crate::encoders::{
    avif_encode_rgba, jpeg_encode, jpeg_encoding,
    oxipng_optimize, quantize_rgba, webp_encode_rgba, webp_encoding, webp_error_text,
    ChunkStripping, IndexedImage, JPEG_MAX_DIMENSION, WEBP_MAX_DIMENSION,
};
use crate::error::{CompressError, ErrorKind};
use crate::imaging::{
    decode_rgb8, decode_rgba8, decoded_size, encode_rgb8, encode_rgba8, image_decodes, reencode,
    reencoding, resize_lanczos3_reencode, rgb8_encoding, rgb8_of, rgba8_encoding, rgba8_of,
    size_of, Container, Raster,
};
use crate::quality::{max_quality_of, min_quality_of, parse_quality_range};
use crate::text::owned;

verus! {

/// The quantizer works at its slowest and with fewer colours when the upper
/// quality bound is at most this.
pub const MAX_COMPRESSION_BOUND: u8 = 60;

/// The palette size under maximum compression.
pub const REDUCED_COLORS: u32 = 128;

/// The palette size otherwise: the largest that an indexed image can have.
pub const FULL_COLORS: u32 = 256;

/// The quantizer's speed under maximum compression: the slowest.
pub const SLOW_SPEED: i32 = 1;

/// The quantizer's speed otherwise.
pub const BALANCED_SPEED: i32 = 3;

/// The dithering level after quantization: full.
pub const DITHERING_LEVEL: u8 = 1;

/// The preset of the structural PNG optimizer.
pub const OPTIMIZER_PRESET: u8 = 6;

/// The effort of the AVIF encoder, from 1 (slowest) to 10.
pub const AVIF_SPEED: u8 = 6;

/// The quality at which HEIC input is written as JPEG.
pub const HEIC_JPEG_QUALITY: u8 = 85;

/// The largest width or height of an icon.
pub const ICON_MAX_DIMENSION: u32 = 256;

/// How the palette quantizer is set up.
#[derive(Clone, Copy, Debug, PartialEq, Eq, Structural)]
pub struct QuantizerSettings {
    pub speed: i32,
    pub max_colors: u32,
    pub min_quality: u8,
    pub max_quality: u8,
    pub dithering: u8,
}

/// How the JPEG encoder is set up.
#[derive(Clone, Copy, Debug, PartialEq, Eq, Structural)]
pub struct JpegSettings {
    pub quality: u8,
    pub progressive: bool,
    pub optimize: bool,
}

/// How the AVIF encoder is set up.
#[derive(Clone, Copy, Debug, PartialEq, Eq, Structural)]
pub struct AvifSettings {
    pub quality: u8,
    pub speed: u8,
}

/// The AVIF settings for a quality: the fixed effort, and none at all for a
/// quality outside 1..=100, which the encoder does not take.
pub open spec fn avif_settings_of(quality: u8) -> Option<AvifSettings> {
    if 1 <= quality <= 100 {
        Some(AvifSettings { quality, speed: AVIF_SPEED })
    } else {
        None
    }
}

/// The quantizer settings for a quality range: slow and with 128 colours when the
/// upper bound is at most 60, balanced and with the full palette of 256 colours
/// otherwise; dithering always full.
pub open spec fn quantizer_settings_of(min: u8, max: u8) -> QuantizerSettings {
    QuantizerSettings {
        speed: if max <= MAX_COMPRESSION_BOUND {
            SLOW_SPEED
        } else {
            BALANCED_SPEED
        },
        max_colors: if max <= MAX_COMPRESSION_BOUND {
            REDUCED_COLORS
        } else {
            FULL_COLORS
        },
        min_quality: min,
        max_quality: max,
        dithering: DITHERING_LEVEL,
    }
}

/// The JPEG settings for a quality: always progressive, with the extra
/// optimization passes exactly when the quality is at most 60.
pub open spec fn jpeg_settings_of(quality: u8) -> JpegSettings {
    JpegSettings { quality, progressive: true, optimize: quality <= MAX_COMPRESSION_BOUND }
}

/// Whether the quantizer accepts a quality range: the upper bound is at most 100
/// and not below the lower one.
pub open spec fn quantizer_accepts(min: u8, max: u8) -> bool {
    min <= max && max <= 100
}

/// Whether no adapter can read `input`: it is empty, or it does not decode.
pub open spec fn undecodable(input: Seq<u8>) -> bool {
    input.len() == 0 || !image_decodes(input)
}

/// Whether `r` fails with an error of the given class.
pub open spec fn fails_with<T>(r: Result<T, CompressError>, kind: ErrorKind) -> bool {
    match r {
        Ok(_) => false,
        Err(e) => e.kind == kind,
    }
}

/// What every adapter keeps to: output comes only from input that decodes and is
/// never empty; input that does not decode gives a decode error, and every other
/// failure is an encoder error.
pub open spec fn adapter_outcome(input: Seq<u8>, r: Result<Vec<u8>, CompressError>) -> bool {
    match r {
        Ok(bytes) => !undecodable(input) && bytes@.len() > 0,
        Err(e) => if undecodable(input) {
            e.kind == ErrorKind::Decode
        } else {
            e.kind == ErrorKind::Codec
        },
    }
}

/// Whether each index has its four samples in the palette.
pub open spec fn palette_covers(palette: Seq<u8>, indices: Seq<u8>) -> bool {
    forall|i: int| 0 <= i < indices.len() ==> 4 * (#[trigger] indices[i] as int) + 3 < palette.len()
}

/// The samples of an indexed image: for each pixel the four samples of its colour.
pub open spec fn expanded(palette: Seq<u8>, indices: Seq<u8>) -> Seq<u8> {
    Seq::new(indices.len() * 4, |k: int| palette[4 * (indices[k / 4] as int) + k % 4])
}

/// What a codec path is to hand back: these bytes, a decode error, or an encoder
/// error.
pub enum Expected {
    Bytes(Seq<u8>),
    DecodeError,
    CodecError,
}

/// Whether `r` is what is expected.
pub open spec fn meets(r: Result<Vec<u8>, CompressError>, e: Expected) -> bool {
    match e {
        Expected::Bytes(bytes) => r matches Ok(v) && v@ == bytes,
        Expected::DecodeError => fails_with(r, ErrorKind::Decode),
        Expected::CodecError => fails_with(r, ErrorKind::Codec),
    }
}

/// What is made of an encoder's outcome: its bytes if there are any, an encoder
/// error where it failed or produced nothing.
pub open spec fn judged(outcome: Option<Seq<u8>>) -> Expected {
    match outcome {
        Some(bytes) => if bytes.len() > 0 {
            Expected::Bytes(bytes)
        } else {
            Expected::CodecError
        },
        None => Expected::CodecError,
    }
}

/// Whether a raster is not empty and holds exactly the samples of its pixels.
pub open spec fn complete(t: (u32, u32, Seq<u8>), channels: nat) -> bool {
    t.0 > 0 && t.1 > 0 && t.2.len() == t.0 as nat * t.1 as nat * channels
}

/// What `compress_jpeg_bytes` hands back: a decode error for input that does not
/// decode; an encoder error for an image that is empty or wider or higher than
/// 65500; else what the JPEG encoder makes of the RGB samples with the settings
/// for the quality.
pub open spec fn jpeg_bytes_of(input: Seq<u8>, quality: u8) -> Expected {
    let t = rgb8_of(input);
    if undecodable(input) {
        Expected::DecodeError
    } else if !complete(t, 3) || t.0 > JPEG_MAX_DIMENSION || t.1 > JPEG_MAX_DIMENSION {
        Expected::CodecError
    } else {
        judged(
            jpeg_encoding(
                t.0,
                t.1,
                t.2,
                jpeg_settings_of(quality).quality,
                jpeg_settings_of(quality).optimize,
            ),
        )
    }
}

/// What `to_webp_bytes` hands back: a decode error for input that does not
/// decode; an encoder error for an image that is empty or wider or higher than
/// 16383; else what the lossy WebP encoder makes of the RGBA samples at the
/// quality.
pub open spec fn webp_bytes_of(input: Seq<u8>, quality: u8) -> Expected {
    let t = rgba8_of(input);
    if undecodable(input) {
        Expected::DecodeError
    } else if !complete(t, 4) || t.0 > WEBP_MAX_DIMENSION || t.1 > WEBP_MAX_DIMENSION {
        Expected::CodecError
    } else {
        judged(webp_encoding(t.0, t.1, t.2, false, quality))
    }
}

/// What `transcode` hands back: the decoded image written in the container.
pub open spec fn transcoded_of(input: Seq<u8>, container: Container) -> Expected {
    if undecodable(input) {
        Expected::DecodeError
    } else {
        judged(reencoding(input, container))
    }
}

/// Whether the image that `input` decodes to is wider or higher than an icon
/// can be, and so is scaled down first.
pub open spec fn icon_is_scaled(input: Seq<u8>) -> bool {
    size_of(input).0 > ICON_MAX_DIMENSION || size_of(input).1 > ICON_MAX_DIMENSION
}

/// What `to_ico_bytes` hands back where that is a function of the input alone:
/// a decode error for input that does not decode; for an image that needs no
/// scaling the icon, or PNG bytes of the same image where the ICO encoder
/// refuses it. Scaling is done in floating point that differs between machines,
/// so for an image that is scaled nothing is fixed.
pub open spec fn ico_bytes_of(input: Seq<u8>) -> Option<Expected> {
    if undecodable(input) {
        Some(Expected::DecodeError)
    } else if icon_is_scaled(input) {
        None
    } else {
        Some(
            match judged(reencoding(input, Container::Ico)) {
                Expected::Bytes(bytes) => Expected::Bytes(bytes),
                _ => judged(reencoding(input, Container::Png)),
            },
        )
    }
}

/// What `heic_to_jpeg_bytes` hands back: the RGB samples of the input written as
/// JPEG by the `image` crate, and that file compressed as `compress_jpeg_bytes`
/// does it.
pub open spec fn heic_bytes_of(input: Seq<u8>, quality: u8) -> Expected {
    let t = rgb8_of(input);
    if undecodable(input) {
        Expected::DecodeError
    } else if !complete(t, 3) {
        Expected::CodecError
    } else {
        match judged(rgb8_encoding(t.0, t.1, t.2, Container::Jpeg)) {
            Expected::Bytes(jpeg) => jpeg_bytes_of(jpeg, quality),
            _ => Expected::CodecError,
        }
    }
}

/// What `rebuild_png` hands back: the samples of the indexed image written as
/// RGBA PNG, or an encoder error where an index lies outside the palette, the
/// image is empty or there is not one index for each pixel.
pub open spec fn rebuilt_png_of(width: u32, height: u32, palette: Seq<u8>, indices: Seq<u8>)
    -> Expected {
    if !palette_covers(palette, indices) || indices.len() * 4 > usize::MAX {
        Expected::CodecError
    } else if !complete((width, height, expanded(palette, indices)), 4) {
        Expected::CodecError
    } else {
        judged(rgba8_encoding(width, height, expanded(palette, indices), Container::Png))
    }
}

/// Whether an indexed image has one index for each pixel of the input and a
/// palette of at most `colors` colours, and `bytes` are its plain PNG.
pub open spec fn is_png_of_indexed(
    input: Seq<u8>,
    colors: u32,
    palette: Seq<u8>,
    indices: Seq<u8>,
    bytes: Seq<u8>,
) -> bool {
    &&& palette.len() <= 4 * colors
    &&& indices.len() == rgba8_of(input).0 as nat * rgba8_of(input).1 as nat
    &&& rebuilt_png_of(rgba8_of(input).0, rgba8_of(input).1, palette, indices) == Expected::Bytes(
        bytes,
    )
}

/// Whether `bytes` are the plain PNG of some indexed image of the size of the
/// input with a palette of at most `colors` colours: what quantization hands
/// back where the optimizer is not asked for.
pub open spec fn is_plain_quantized_png(input: Seq<u8>, colors: u32, bytes: Seq<u8>) -> bool {
    exists|palette: Seq<u8>, indices: Seq<u8>| #[trigger]
        is_png_of_indexed(input, colors, palette, indices, bytes)
}

/// What is handed back after the structural optimizer: the plain PNG where the
/// optimizer did not run, else what is made of the optimizer's outcome.
pub open spec fn after_optimizer_of(plain: Seq<u8>, optimized: Option<Result<Vec<u8>, String>>)
    -> Expected {
    match optimized {
        None => Expected::Bytes(plain),
        Some(Ok(bytes)) => judged(Some(bytes@)),
        Some(Err(_)) => Expected::CodecError,
    }
}

/// The quantizer settings for a quality range.
pub fn quantizer_settings(min: u8, max: u8) -> (s: QuantizerSettings)
    ensures
        s == quantizer_settings_of(min, max),
{
    if max <= MAX_COMPRESSION_BOUND {
        QuantizerSettings {
            speed: SLOW_SPEED,
            max_colors: REDUCED_COLORS,
            min_quality: min,
            max_quality: max,
            dithering: DITHERING_LEVEL,
        }
    } else {
        QuantizerSettings {
            speed: BALANCED_SPEED,
            max_colors: FULL_COLORS,
            min_quality: min,
            max_quality: max,
            dithering: DITHERING_LEVEL,
        }
    }
}

/// The JPEG settings for a quality.
pub fn jpeg_settings(quality: u8) -> (s: JpegSettings)
    ensures
        s == jpeg_settings_of(quality),
{
    JpegSettings { quality, progressive: true, optimize: quality <= MAX_COMPRESSION_BOUND }
}

/// The AVIF settings for a quality.
pub fn avif_settings(quality: u8) -> (s: Option<AvifSettings>)
    ensures
        s == avif_settings_of(quality),
{
    if 1 <= quality && quality <= 100 {
        Some(AvifSettings { quality, speed: AVIF_SPEED })
    } else {
        None
    }
}

/// Whether an image of this size has to be scaled down before it can be an icon.
pub fn icon_needs_downscale(width: u32, height: u32) -> (r: bool)
    ensures
        r == (width > ICON_MAX_DIMENSION || height > ICON_MAX_DIMENSION),
{
    width > ICON_MAX_DIMENSION || height > ICON_MAX_DIMENSION
}

/// Turns an indexed image back into RGBA samples. There is a result exactly when
/// every index lies within the palette and the samples fit in memory.
pub fn expand_palette(palette: &Vec<u8>, indices: &Vec<u8>) -> (r: Option<Vec<u8>>)
    ensures
        r is Some <==> palette_covers(palette@, indices@) && indices@.len() * 4 <= usize::MAX,
        r matches Some(samples) ==> samples@ == expanded(palette@, indices@),
{
    let n = indices.len();
    if n > usize::MAX / 4 {
        return None;
    }
    let mut out: Vec<u8> = Vec::with_capacity(n * 4);
    let mut i: usize = 0;
    while i < n
        invariant
            i <= n,
            n == indices@.len(),
            n * 4 <= usize::MAX,
            out@.len() == 4 * i,
            forall|j: int| 0 <= j < i ==> 4 * (#[trigger] indices@[j] as int) + 3 < palette@.len(),
            forall|k: int|
                0 <= k < 4 * i ==> #[trigger] out@[k] == palette@[4 * (indices@[k / 4] as int) + k
                    % 4],
        decreases n - i,
    {
        let base: usize = indices[i] as usize * 4;
        if base + 3 >= palette.len() {
            return None;
        }
        out.push(palette[base]);
        out.push(palette[base + 1]);
        out.push(palette[base + 2]);
        out.push(palette[base + 3]);
        i = i + 1;
    }
    proof {
        assert(out@ =~= expanded(palette@, indices@));
    }
    Some(out)
}

/// Judges what an encoder handed back: its bytes if there are any, and an encoder
/// error for a failure or for empty output.
pub fn encoder_outcome(outcome: Result<Vec<u8>, String>) -> (r: Result<Vec<u8>, CompressError>)
    ensures
        match outcome {
            Ok(bytes) => if bytes@.len() > 0 {
                r == Ok::<Vec<u8>, CompressError>(bytes)
            } else {
                fails_with(r, ErrorKind::Codec)
            },
            Err(message) => (r matches Err(e) && e.kind == ErrorKind::Codec && e.message == message),
        },
{
    match outcome {
        Ok(bytes) => {
            if bytes.len() > 0 {
                Ok(bytes)
            } else {
                Err(CompressError::codec(owned("encoder produced no output")))
            }
        },
        Err(message) => Err(CompressError::codec(message)),
    }
}

/// Judges what an encoder of the `image` crate handed back.
fn image_outcome(outcome: Result<Vec<u8>, image::ImageError>) -> (r: Result<Vec<u8>, CompressError>)
    ensures
        match outcome {
            Ok(bytes) => meets(r, judged(Some(bytes@))),
            Err(_) => fails_with(r, ErrorKind::Codec),
        },
{
    match outcome {
        Ok(bytes) => encoder_outcome(Ok(bytes)),
        Err(e) => encoder_outcome(Err(e.to_string())),
    }
}

/// Decodes `input` to 8-bit RGB samples. Empty input is refused without a look
/// at it.
fn decoded_rgb8(input: &[u8]) -> (r: Result<Raster, CompressError>)
    ensures
        r is Ok <==> !undecodable(input@),
        r matches Ok(raster) ==> raster@ == rgb8_of(input@),
        r is Err ==> fails_with(r, ErrorKind::Decode),
{
    if input.len() == 0 {
        return Err(CompressError::decode(owned("empty input")));
    }
    match decode_rgb8(input) {
        Ok(raster) => Ok(raster),
        Err(e) => Err(CompressError::decode(e.to_string())),
    }
}

/// Decodes `input` to 8-bit RGBA samples. Empty input is refused without a look
/// at it.
fn decoded_rgba8(input: &[u8]) -> (r: Result<Raster, CompressError>)
    ensures
        r is Ok <==> !undecodable(input@),
        r matches Ok(raster) ==> raster@ == rgba8_of(input@),
        r is Err ==> fails_with(r, ErrorKind::Decode),
{
    if input.len() == 0 {
        return Err(CompressError::decode(owned("empty input")));
    }
    match decode_rgba8(input) {
        Ok(raster) => Ok(raster),
        Err(e) => Err(CompressError::decode(e.to_string())),
    }
}

/// Decodes `input` and writes it again in the given container, pixel data
/// unchanged.
pub fn transcode(input: &[u8], container: Container) -> (r: Result<Vec<u8>, CompressError>)
    ensures
        meets(r, transcoded_of(input@, container)),
        adapter_outcome(input@, r),
{
    if input.len() == 0 {
        return Err(CompressError::decode(owned("empty input")));
    }
    match reencode(input, container) {
        Ok(inner) => image_outcome(inner),
        Err(e) => Err(CompressError::decode(e.to_string())),
    }
}

/// Writes an indexed image of the given size as RGBA PNG.
pub fn rebuild_png(width: u32, height: u32, indexed: &IndexedImage) -> (r: Result<
    Vec<u8>,
    CompressError,
>)
    ensures
        meets(r, rebuilt_png_of(width, height, indexed.palette@, indexed.indices@)),
        r matches Ok(bytes) ==> bytes@.len() > 0,
        r is Err ==> fails_with(r, ErrorKind::Codec),
{
    let samples = match expand_palette(&indexed.palette, &indexed.indices) {
        Some(samples) => samples,
        None => {
            return Err(CompressError::codec(owned("failed to build indexed->rgba image")));
        },
    };
    let rebuilt = Raster { width, height, pixels: samples };
    if !rebuilt.is_complete(4) {
        return Err(CompressError::codec(owned("failed to build indexed->rgba image")));
    }
    image_outcome(encode_rgba8(rebuilt, Container::Png))
}

/// Chooses what is handed back after the structural optimizer: the plain PNG
/// where the optimizer did not run, else what is made of its outcome.
pub fn after_optimizer(plain: Vec<u8>, optimized: Option<Result<Vec<u8>, String>>) -> (r: Result<
    Vec<u8>,
    CompressError,
>)
    ensures
        meets(r, after_optimizer_of(plain@, optimized)),
        optimized is None ==> r == Ok::<Vec<u8>, CompressError>(plain),
        optimized matches Some(Err(message)) ==> (r matches Err(e) && e.message == message),
{
    match optimized {
        None => Ok(plain),
        Some(outcome) => encoder_outcome(outcome),
    }
}

/// PNG by palette quantization within the bounds `min` and `max`, then written as
/// RGBA PNG and, if asked for, run through the structural optimizer.
///
/// A range that the quantizer does not accept is an encoder error.
pub fn quantize_png(input: &[u8], min: u8, max: u8, run_oxipng: bool) -> (r: Result<
    Vec<u8>,
    CompressError,
>)
    ensures
        adapter_outcome(input@, r),
        !quantizer_accepts(min, max) ==> r is Err,
        !run_oxipng ==> (r matches Ok(bytes) ==> is_plain_quantized_png(
            input@,
            quantizer_settings_of(min, max).max_colors,
            bytes@,
        )),
{
    let raster = match decoded_rgba8(input) {
        Ok(raster) => raster,
        Err(e) => {
            return Err(e);
        },
    };
    let settings = quantizer_settings(min, max);
    let indexed = match quantize_rgba(
        &raster,
        settings.speed,
        settings.max_colors,
        settings.min_quality,
        settings.max_quality,
        settings.dithering,
    ) {
        Ok(indexed) => indexed,
        Err(e) => {
            return Err(CompressError::codec(e.to_string()));
        },
    };
    let plain = match rebuild_png(raster.width, raster.height, &indexed) {
        Ok(plain) => plain,
        Err(e) => {
            return Err(e);
        },
    };
    proof {
        assert(is_png_of_indexed(
            input@,
            quantizer_settings_of(min, max).max_colors,
            indexed.palette@,
            indexed.indices@,
            plain@,
        ));
    }
    let optimized = if run_oxipng {
        match oxipng_optimize(plain.as_slice(), OPTIMIZER_PRESET, ChunkStripping::Safe) {
            Ok(bytes) => Some(Ok(bytes)),
            Err(e) => Some(Err(e.to_string())),
        }
    } else {
        None
    };
    after_optimizer(plain, optimized)
}

/// PNG by palette quantization, the bounds given as a quality string such as
/// `"50-80"`.
pub fn compress_png_bytes(input: &[u8], quality_range: &str, run_oxipng: bool) -> (r: Result<
    Vec<u8>,
    CompressError,
>)
    ensures
        adapter_outcome(input@, r),
        !quantizer_accepts(min_quality_of(quality_range@), max_quality_of(quality_range@))
            ==> r is Err,
        !run_oxipng ==> (r matches Ok(bytes) ==> is_plain_quantized_png(
            input@,
            quantizer_settings_of(
                min_quality_of(quality_range@),
                max_quality_of(quality_range@),
            ).max_colors,
            bytes@,
        )),
{
    let (min, max) = parse_quality_range(quality_range);
    quantize_png(input, min, max, run_oxipng)
}

/// Conversion to PNG: always by quantization.
pub fn to_png_bytes(input: &[u8], quality_range: &str, use_oxipng: bool) -> (r: Result<
    Vec<u8>,
    CompressError,
>)
    ensures
        adapter_outcome(input@, r),
        !quantizer_accepts(min_quality_of(quality_range@), max_quality_of(quality_range@))
            ==> r is Err,
        !use_oxipng ==> (r matches Ok(bytes) ==> is_plain_quantized_png(
            input@,
            quantizer_settings_of(
                min_quality_of(quality_range@),
                max_quality_of(quality_range@),
            ).max_colors,
            bytes@,
        )),
{
    compress_png_bytes(input, quality_range, use_oxipng)
}

/// Progressive JPEG from the RGB pixels of `input`, with the settings that
/// `jpeg_settings_of` gives for `quality`. An image that JPEG cannot record is an
/// encoder error.
pub fn compress_jpeg_bytes(input: &[u8], quality: u8) -> (r: Result<Vec<u8>, CompressError>)
    ensures
        meets(r, jpeg_bytes_of(input@, quality)),
        adapter_outcome(input@, r),
{
    let raster = match decoded_rgb8(input) {
        Ok(raster) => raster,
        Err(e) => {
            return Err(e);
        },
    };
    if !raster.is_complete(3) || raster.width > JPEG_MAX_DIMENSION || raster.height
        > JPEG_MAX_DIMENSION {
        return Err(CompressError::codec(owned("image size not supported by JPEG")));
    }
    let settings = jpeg_settings(quality);
    match jpeg_encode(&raster, settings.quality, settings.optimize) {
        Ok(bytes) => encoder_outcome(Ok(bytes)),
        Err(e) => encoder_outcome(Err(e.to_string())),
    }
}

/// Lossy WebP from the RGBA pixels of `input`.
pub fn to_webp_bytes(input: &[u8], quality: u8) -> (r: Result<Vec<u8>, CompressError>)
    ensures
        meets(r, webp_bytes_of(input@, quality)),
        adapter_outcome(input@, r),
{
    let raster = match decoded_rgba8(input) {
        Ok(raster) => raster,
        Err(e) => {
            return Err(e);
        },
    };
    if !raster.is_complete(4) {
        return Err(CompressError::codec(owned("image has no pixels")));
    }
    if raster.width > WEBP_MAX_DIMENSION || raster.height > WEBP_MAX_DIMENSION {
        return Err(CompressError::codec(owned("image size not supported by WebP")));
    }
    match webp_encode_rgba(&raster, false, quality) {
        Ok(bytes) => encoder_outcome(Ok(bytes)),
        Err(e) => encoder_outcome(Err(webp_error_text(&e))),
    }
}

/// Lossy AVIF from the RGBA pixels of `input`, at a fixed effort. An empty image
/// and a quality outside 1..=100 are encoder errors.
pub fn to_avif_bytes(input: &[u8], quality: u8) -> (r: Result<Vec<u8>, CompressError>)
    ensures
        adapter_outcome(input@, r),
        avif_settings_of(quality) is None ==> r is Err,
        !complete(rgba8_of(input@), 4) ==> r is Err,
{
    let raster = match decoded_rgba8(input) {
        Ok(raster) => raster,
        Err(e) => {
            return Err(e);
        },
    };
    if !raster.is_complete(4) {
        return Err(CompressError::codec(owned("image has no pixels")));
    }
    match avif_settings(quality) {
        Some(settings) => match avif_encode_rgba(&raster, settings.quality, settings.speed) {
            Ok(bytes) => encoder_outcome(Ok(bytes)),
            Err(e) => encoder_outcome(Err(e.to_string())),
        },
        None => Err(CompressError::codec(owned("quality out of range"))),
    }
}

/// HEIC input: decoded on a best-effort basis and written as JPEG. Input that
/// does not decode fails with a message of its own.
pub fn heic_to_jpeg_bytes(input: &[u8], quality: u8) -> (r: Result<Vec<u8>, CompressError>)
    ensures
        meets(r, heic_bytes_of(input@, quality)),
        r matches Ok(bytes) ==> (!undecodable(input@) && bytes@.len() > 0),
        undecodable(input@) ==> (r matches Err(e) && e.kind == ErrorKind::Decode && e.message@
            == "Unsupported HEIC format or corrupted file"@),
        r matches Err(e) ==> (e.kind == ErrorKind::Decode || e.kind == ErrorKind::Codec),
{
    let raster = match decoded_rgb8(input) {
        Ok(raster) => raster,
        Err(_) => {
            return Err(CompressError::decode(owned("Unsupported HEIC format or corrupted file")));
        },
    };
    if !raster.is_complete(3) {
        return Err(CompressError::codec(owned("image has no pixels")));
    }
    match image_outcome(encode_rgb8(raster, Container::Jpeg)) {
        Ok(jpeg) => compress_jpeg_bytes(jpeg.as_slice(), quality),
        Err(e) => Err(e),
    }
}

/// Conversion to TIFF, pixel data unchanged.
pub fn to_tiff_bytes(input: &[u8]) -> (r: Result<Vec<u8>, CompressError>)
    ensures
        meets(r, transcoded_of(input@, Container::Tiff)),
        adapter_outcome(input@, r),
{
    transcode(input, Container::Tiff)
}

/// Conversion to BMP, pixel data unchanged.
pub fn to_bmp_bytes(input: &[u8]) -> (r: Result<Vec<u8>, CompressError>)
    ensures
        meets(r, transcoded_of(input@, Container::Bmp)),
        adapter_outcome(input@, r),
{
    transcode(input, Container::Bmp)
}

/// Writes the image of `input` in a container, scaled down first if asked for.
fn icon_attempt(input: &[u8], downscale: bool, container: Container) -> (r: Result<
    Vec<u8>,
    CompressError,
>)
    ensures
        image_decodes(input@) && !downscale ==> meets(r, judged(reencoding(input@, container))),
        r matches Ok(bytes) ==> image_decodes(input@) && bytes@.len() > 0,
        r is Err && image_decodes(input@) ==> fails_with(r, ErrorKind::Codec),
        r is Err && !image_decodes(input@) ==> fails_with(r, ErrorKind::Decode),
{
    let outcome = if downscale {
        resize_lanczos3_reencode(input, ICON_MAX_DIMENSION, ICON_MAX_DIMENSION, container)
    } else {
        reencode(input, container)
    };
    match outcome {
        Ok(inner) => image_outcome(inner),
        Err(e) => Err(CompressError::decode(e.to_string())),
    }
}

/// Conversion to ICO. An image wider or higher than 256 is first scaled down to
/// fit; where the ICO encoder refuses the image, PNG bytes are handed out in
/// place of ICO bytes.
pub fn to_ico_bytes(input: &[u8]) -> (r: Result<Vec<u8>, CompressError>)
    ensures
        adapter_outcome(input@, r),
        ico_bytes_of(input@) matches Some(e) ==> meets(r, e),
{
    if input.len() == 0 {
        return Err(CompressError::decode(owned("empty input")));
    }
    let (width, height) = match decoded_size(input) {
        Ok(size) => size,
        Err(e) => {
            return Err(CompressError::decode(e.to_string()));
        },
    };
    let downscale = icon_needs_downscale(width, height);
    match icon_attempt(input, downscale, Container::Ico) {
        Ok(bytes) => Ok(bytes),
        Err(_) => icon_attempt(input, downscale, Container::Png),
    }
}

} // verus!
