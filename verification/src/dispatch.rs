//! The dispatch engine: from the extension of the input and the options to the
//! one codec that runs, and from there to the output bytes and their content type.
use vstd::prelude::*;
use crate::adapters::{
    avif_settings_of, complete, compress_jpeg_bytes, heic_bytes_of, heic_to_jpeg_bytes,
    ico_bytes_of, is_plain_quantized_png, jpeg_bytes_of, meets, quantize_png, quantizer_accepts,
    quantizer_settings_of, to_avif_bytes,
    to_bmp_bytes, to_ico_bytes, to_tiff_bytes, to_webp_bytes, transcode, transcoded_of,
    undecodable, webp_bytes_of, Expected, HEIC_JPEG_QUALITY,
};
use crate::error::{CompressError, ErrorKind};
use crate::imaging::{rgba8_of, Container};
use crate::options::{
    lossy_quality_of, requested_target, CompressionOptions, OptionsView, TargetFormat,
};
use crate::quality::{max_quality_of, min_quality_of, parse_quality_range, shared_quality};
use crate::text::{owned, str_equals};

verus! {

/// The quality at which JPEG input is written again when no conversion is asked
/// for. It does not depend on the quality range of the options.
pub const DEFAULT_JPEG_QUALITY: u8 = 75;

/// The codec that runs, with what is handed to it.
#[derive(Clone, Copy, Debug, PartialEq, Eq, Structural)]
pub enum CodecPlan {
    HeicToJpeg { quality: u8 },
    Webp { quality: u8 },
    Avif { quality: u8 },
    Jpeg { quality: u8 },
    PngQuantized { min: u8, max: u8, oxipng: bool },
    PngLossless,
    Tiff,
    Bmp,
    Ico,
}

/// Whether a lower-case extension names HEIC input.
pub open spec fn is_heic(ext: Seq<char>) -> bool {
    ext == "heic"@ || ext == "heif"@
}

/// PNG by quantization with the bounds and the optimizer switch of the options.
pub open spec fn quantized_plan(o: OptionsView) -> CodecPlan {
    CodecPlan::PngQuantized {
        min: min_quality_of(o.png_quality),
        max: max_quality_of(o.png_quality),
        oxipng: o.oxipng,
    }
}

/// The codec for input of a format that no conversion is asked for: PNG is
/// quantized or written unchanged, as `png_lossy` says; JPEG is written again at
/// quality 75; everything else becomes quantized PNG.
pub open spec fn plan_by_extension(ext: Seq<char>, o: OptionsView) -> CodecPlan {
    if ext == "png"@ {
        if o.png_lossy {
            quantized_plan(o)
        } else {
            CodecPlan::PngLossless
        }
    } else if ext == "jpg"@ || ext == "jpeg"@ {
        CodecPlan::Jpeg { quality: DEFAULT_JPEG_QUALITY }
    } else {
        quantized_plan(o)
    }
}

/// The codec for a target format. Conversion to PNG always quantizes, whatever
/// `png_lossy` says.
pub open spec fn plan_for_target(t: TargetFormat, o: OptionsView) -> CodecPlan {
    match t {
        TargetFormat::Webp => CodecPlan::Webp { quality: lossy_quality_of(o) as u8 },
        TargetFormat::Avif => CodecPlan::Avif { quality: lossy_quality_of(o) as u8 },
        TargetFormat::Jpeg => CodecPlan::Jpeg { quality: lossy_quality_of(o) as u8 },
        TargetFormat::Png => quantized_plan(o),
        TargetFormat::Tiff => CodecPlan::Tiff,
        TargetFormat::Bmp => CodecPlan::Bmp,
        TargetFormat::Ico => CodecPlan::Ico,
    }
}

/// The one codec that runs for a lower-case extension and options. HEIC input
/// comes first and overrides every option; then the requested target, by its
/// priority; then the extension.
pub open spec fn plan_of(ext: Seq<char>, o: OptionsView) -> CodecPlan {
    if is_heic(ext) {
        CodecPlan::HeicToJpeg { quality: HEIC_JPEG_QUALITY }
    } else {
        match requested_target(o) {
            Some(t) => plan_for_target(t, o),
            None => plan_by_extension(ext, o),
        }
    }
}

/// The content type that is reported for a codec. For ICO it is the icon type
/// even where the adapter fell back to PNG bytes.
pub open spec fn content_type_of(plan: CodecPlan) -> Seq<char> {
    match plan {
        CodecPlan::HeicToJpeg { .. } => "image/jpeg"@,
        CodecPlan::Webp { .. } => "image/webp"@,
        CodecPlan::Avif { .. } => "image/avif"@,
        CodecPlan::Jpeg { .. } => "image/jpeg"@,
        CodecPlan::PngQuantized { .. } => "image/png"@,
        CodecPlan::PngLossless => "image/png"@,
        CodecPlan::Tiff => "image/tiff"@,
        CodecPlan::Bmp => "image/bmp"@,
        CodecPlan::Ico => "image/x-icon"@,
    }
}

/// What running a codec keeps to: output comes only from input that decodes and
/// is never empty; input that does not decode gives a decode error; and but for
/// HEIC input, whose intermediate JPEG is decoded once more, every other failure
/// is an encoder error.
pub open spec fn run_outcome(input: Seq<u8>, plan: CodecPlan, r: Result<Vec<u8>, CompressError>)
    -> bool {
    match r {
        Ok(bytes) => !undecodable(input) && bytes@.len() > 0,
        Err(e) => if undecodable(input) {
            e.kind == ErrorKind::Decode
        } else if plan is HeicToJpeg {
            e.kind == ErrorKind::Decode || e.kind == ErrorKind::Codec
        } else {
            e.kind == ErrorKind::Codec
        },
    }
}

/// What a codec hands back where that is a function of the input alone: the
/// result of its adapter, for each codec but the two whose encoders work in as
/// many threads as the machine has, and but for an icon that is scaled down.
pub open spec fn exact_result_of(input: Seq<u8>, plan: CodecPlan) -> Option<Expected> {
    match plan {
        CodecPlan::HeicToJpeg { quality } => Some(heic_bytes_of(input, quality)),
        CodecPlan::Webp { quality } => Some(webp_bytes_of(input, quality)),
        CodecPlan::Avif { .. } => None,
        CodecPlan::Jpeg { quality } => Some(jpeg_bytes_of(input, quality)),
        CodecPlan::PngQuantized { .. } => None,
        CodecPlan::PngLossless => Some(transcoded_of(input, Container::Png)),
        CodecPlan::Tiff => Some(transcoded_of(input, Container::Tiff)),
        CodecPlan::Bmp => Some(transcoded_of(input, Container::Bmp)),
        CodecPlan::Ico => ico_bytes_of(input),
    }
}

/// The inputs on which a codec fails before its encoder is asked.
pub open spec fn refused_by(input: Seq<u8>, plan: CodecPlan) -> bool {
    match plan {
        CodecPlan::Avif { quality } => avif_settings_of(quality) is None || !complete(
            rgba8_of(input),
            4,
        ),
        CodecPlan::PngQuantized { min, max, .. } => !quantizer_accepts(min, max),
        _ => false,
    }
}

/// What `run_codec` hands back for a plan: the result of that plan's adapter
/// where it has a name, failure on what the adapter refuses, the plain PNG of
/// an indexed image where quantization runs without the optimizer, the error
/// classes of `run_outcome`, and for HEIC input that does not decode the message
/// that says so.
pub open spec fn codec_result(input: Seq<u8>, plan: CodecPlan, r: Result<Vec<u8>, CompressError>)
    -> bool {
    &&& run_outcome(input, plan, r)
    &&& match exact_result_of(input, plan) {
        Some(e) => meets(r, e),
        None => true,
    }
    &&& refused_by(input, plan) ==> r is Err
    &&& match plan {
        CodecPlan::PngQuantized { min, max, oxipng } => !oxipng ==> (r matches Ok(bytes)
            ==> is_plain_quantized_png(input, quantizer_settings_of(min, max).max_colors, bytes@)),
        _ => true,
    }
    &&& plan is HeicToJpeg && undecodable(input) ==> (r matches Err(e) && e.message@
        == "Unsupported HEIC format or corrupted file"@)
}

/// What is handed back once the codec has run: its bytes with the content type
/// of the plan, or its error.
pub open spec fn labelled(
    plan: CodecPlan,
    outcome: Result<Vec<u8>, CompressError>,
    r: Result<(Vec<u8>, String), CompressError>,
) -> bool {
    match outcome {
        Ok(bytes) => r matches Ok(out) && out.0 == bytes && out.1@ == content_type_of(plan),
        Err(e) => r == Err::<(Vec<u8>, String), CompressError>(e),
    }
}

/// Chooses the codec for a lower-case extension and options.
pub fn select_codec(ext_lower: &str, opts: &CompressionOptions) -> (plan: CodecPlan)
    ensures
        plan == plan_of(ext_lower@, opts@),
{
    if str_equals(ext_lower, "heic") || str_equals(ext_lower, "heif") {
        return CodecPlan::HeicToJpeg { quality: HEIC_JPEG_QUALITY };
    }
    let (min, max) = parse_quality_range(opts.png_quality.as_str());
    let quality = shared_quality(min, max);
    match opts.target() {
        Some(TargetFormat::Webp) => CodecPlan::Webp { quality },
        Some(TargetFormat::Avif) => CodecPlan::Avif { quality },
        Some(TargetFormat::Jpeg) => CodecPlan::Jpeg { quality },
        Some(TargetFormat::Png) => CodecPlan::PngQuantized { min, max, oxipng: opts.oxipng },
        Some(TargetFormat::Tiff) => CodecPlan::Tiff,
        Some(TargetFormat::Bmp) => CodecPlan::Bmp,
        Some(TargetFormat::Ico) => CodecPlan::Ico,
        None => {
            if str_equals(ext_lower, "png") {
                if opts.png_lossy {
                    CodecPlan::PngQuantized { min, max, oxipng: opts.oxipng }
                } else {
                    CodecPlan::PngLossless
                }
            } else if str_equals(ext_lower, "jpg") || str_equals(ext_lower, "jpeg") {
                CodecPlan::Jpeg { quality: DEFAULT_JPEG_QUALITY }
            } else {
                CodecPlan::PngQuantized { min, max, oxipng: opts.oxipng }
            }
        },
    }
}

/// The content type that is reported for a codec.
pub fn content_type(plan: CodecPlan) -> (r: String)
    ensures
        r@ == content_type_of(plan),
{
    match plan {
        CodecPlan::HeicToJpeg { .. } => owned("image/jpeg"),
        CodecPlan::Webp { .. } => owned("image/webp"),
        CodecPlan::Avif { .. } => owned("image/avif"),
        CodecPlan::Jpeg { .. } => owned("image/jpeg"),
        CodecPlan::PngQuantized { .. } => owned("image/png"),
        CodecPlan::PngLossless => owned("image/png"),
        CodecPlan::Tiff => owned("image/tiff"),
        CodecPlan::Bmp => owned("image/bmp"),
        CodecPlan::Ico => owned("image/x-icon"),
    }
}

/// Runs the chosen codec on the input bytes.
pub fn run_codec(input: &[u8], plan: CodecPlan) -> (r: Result<Vec<u8>, CompressError>)
    ensures
        codec_result(input@, plan, r),
{
    match plan {
        CodecPlan::HeicToJpeg { quality } => heic_to_jpeg_bytes(input, quality),
        CodecPlan::Webp { quality } => to_webp_bytes(input, quality),
        CodecPlan::Avif { quality } => to_avif_bytes(input, quality),
        CodecPlan::Jpeg { quality } => compress_jpeg_bytes(input, quality),
        CodecPlan::PngQuantized { min, max, oxipng } => quantize_png(input, min, max, oxipng),
        CodecPlan::PngLossless => transcode(input, Container::Png),
        CodecPlan::Tiff => to_tiff_bytes(input),
        CodecPlan::Bmp => to_bmp_bytes(input),
        CodecPlan::Ico => to_ico_bytes(input),
    }
}

/// Puts the content type of the plan to what the codec handed back.
pub fn label_outcome(plan: CodecPlan, outcome: Result<Vec<u8>, CompressError>) -> (r: Result<
    (Vec<u8>, String),
    CompressError,
>)
    ensures
        labelled(plan, outcome, r),
{
    match outcome {
        Ok(bytes) => Ok((bytes, content_type(plan))),
        Err(e) => Err(e),
    }
}

/// Compresses or converts one image: chooses the codec for the lower-case
/// extension and the options, runs it, and hands out the bytes with the content
/// type of the chosen codec.
pub fn compress_image_inproc(input_bytes: &[u8], ext_lower: &str, opts: &CompressionOptions) -> (r:
    Result<(Vec<u8>, String), CompressError>)
    ensures
        match r {
            Ok(out) => {
                &&& out.1@ == content_type_of(plan_of(ext_lower@, opts@))
                &&& codec_result(
                    input_bytes@,
                    plan_of(ext_lower@, opts@),
                    Ok::<Vec<u8>, CompressError>(out.0),
                )
            },
            Err(e) => codec_result(
                input_bytes@,
                plan_of(ext_lower@, opts@),
                Err::<Vec<u8>, CompressError>(e),
            ),
        },
        is_heic(ext_lower@) && r is Ok ==> r.unwrap().1@ == "image/jpeg"@,
        is_heic(ext_lower@) && undecodable(input_bytes@) ==> (r matches Err(e) && e.kind
            == ErrorKind::Decode && e.message@ == "Unsupported HEIC format or corrupted file"@),
{
    let plan = select_codec(ext_lower, opts);
    label_outcome(plan, run_codec(input_bytes, plan))
}

/// HEIC input is written as JPEG whatever the options ask for.
pub proof fn lemma_heic_overrides_options(ext: Seq<char>, o: OptionsView)
    requires
        is_heic(ext),
    ensures
        plan_of(ext, o) == (CodecPlan::HeicToJpeg { quality: HEIC_JPEG_QUALITY }),
        content_type_of(plan_of(ext, o)) == "image/jpeg"@,
{
}

/// For input that is not HEIC, a set WebP flag decides the codec whichever other
/// flags are set: AVIF does not run.
pub proof fn lemma_webp_outranks_other_targets(ext: Seq<char>, o: OptionsView)
    requires
        !is_heic(ext),
        o.to_webp,
    ensures
        plan_of(ext, o) == (CodecPlan::Webp { quality: lossy_quality_of(o) as u8 }),
        content_type_of(plan_of(ext, o)) == "image/webp"@,
{
}

/// The codec does not depend on the flags that come after the one that decides.
pub proof fn lemma_later_flags_are_ignored(ext: Seq<char>, o1: OptionsView, o2: OptionsView)
    requires
        requested_target(o1) == requested_target(o2),
        requested_target(o1) is Some,
        o1.png_quality == o2.png_quality,
        o1.oxipng == o2.oxipng,
    ensures
        plan_of(ext, o1) == plan_of(ext, o2),
{
}

/// For HEIC input the result is that of the HEIC adapter at quality 85, the same
/// for all options.
pub proof fn lemma_heic_result_ignores_options(
    input: Seq<u8>,
    ext: Seq<char>,
    o1: OptionsView,
    o2: OptionsView,
)
    requires
        is_heic(ext),
    ensures
        exact_result_of(input, plan_of(ext, o1)) == Some(heic_bytes_of(input, HEIC_JPEG_QUALITY)),
        exact_result_of(input, plan_of(ext, o1)) == exact_result_of(input, plan_of(ext, o2)),
{
}

/// For input that is not HEIC the first set target flag names the adapter whose
/// result is handed back, whatever the extension and the later flags are.
pub proof fn lemma_target_names_the_adapter(input: Seq<u8>, ext: Seq<char>, o: OptionsView)
    requires
        !is_heic(ext),
    ensures
        requested_target(o) == Some(TargetFormat::Webp) ==> exact_result_of(input, plan_of(ext, o))
            == Some(webp_bytes_of(input, lossy_quality_of(o) as u8)),
        requested_target(o) == Some(TargetFormat::Jpeg) ==> exact_result_of(input, plan_of(ext, o))
            == Some(jpeg_bytes_of(input, lossy_quality_of(o) as u8)),
        requested_target(o) == Some(TargetFormat::Tiff) ==> exact_result_of(input, plan_of(ext, o))
            == Some(transcoded_of(input, Container::Tiff)),
        requested_target(o) == Some(TargetFormat::Bmp) ==> exact_result_of(input, plan_of(ext, o))
            == Some(transcoded_of(input, Container::Bmp)),
        requested_target(o) == Some(TargetFormat::Ico) ==> exact_result_of(input, plan_of(ext, o))
            == ico_bytes_of(input),
        requested_target(o) == Some(TargetFormat::Avif) ==> plan_of(ext, o) == (CodecPlan::Avif {
            quality: lossy_quality_of(o) as u8,
        }),
        requested_target(o) == Some(TargetFormat::Png) ==> plan_of(ext, o) == quantized_plan(o),
{
}

/// Without a target flag the extension names the adapter: PNG is quantized or
/// written unchanged as `png_lossy` says, JPEG is written again at quality 75,
/// and everything else is quantized whatever `png_lossy` says.
pub proof fn lemma_extension_names_the_adapter(input: Seq<u8>, ext: Seq<char>, o: OptionsView)
    requires
        !is_heic(ext),
        requested_target(o) is None,
    ensures
        ext == "png"@ && !o.png_lossy ==> exact_result_of(input, plan_of(ext, o)) == Some(
            transcoded_of(input, Container::Png),
        ),
        ext == "png"@ && o.png_lossy ==> plan_of(ext, o) == quantized_plan(o),
        ext == "jpg"@ || ext == "jpeg"@ ==> exact_result_of(input, plan_of(ext, o)) == Some(
            jpeg_bytes_of(input, DEFAULT_JPEG_QUALITY),
        ),
        ext != "png"@ && ext != "jpg"@ && ext != "jpeg"@ ==> plan_of(ext, o) == quantized_plan(o),
{
    reveal_strlit("png");
    reveal_strlit("jpg");
    reveal_strlit("jpeg");
    assert("png"@.len() == 3 && "png"@[0] == 'p');
    assert("jpg"@.len() == 3 && "jpg"@[0] == 'j');
    assert("jpeg"@.len() == 4);
}

} // verus!
