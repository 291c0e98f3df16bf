//! Compression options: the flat record of what a request asks for, how request
//! fields fill it, and which target format wins when several are asked for.
use vstd::prelude::*;
use crate::quality::{max_quality_of, midpoint, min_quality_of, parse_quality_range, shared_quality};
use crate::text::{owned, str_equals};

verus! {

/// A format that a request can ask to convert to, in order of priority.
#[derive(Clone, Copy, Debug, PartialEq, Eq, Structural)]
pub enum TargetFormat {
    Webp,
    Avif,
    Jpeg,
    Png,
    Tiff,
    Bmp,
    Ico,
}

/// What one compression call is asked to do. Several target flags may be set at
/// once; `requested_target` says which of them counts.
#[derive(Clone, Debug)]
pub struct CompressionOptions {
    pub png_lossy: bool,
    pub png_quality: String,
    pub oxipng: bool,
    pub to_webp: bool,
    pub to_avif: bool,
    pub to_jpeg: bool,
    pub to_png: bool,
    pub to_tiff: bool,
    pub to_bmp: bool,
    pub to_ico: bool,
}

/// The mathematical value of a `CompressionOptions`.
pub struct OptionsView {
    pub png_lossy: bool,
    pub png_quality: Seq<char>,
    pub oxipng: bool,
    pub to_webp: bool,
    pub to_avif: bool,
    pub to_jpeg: bool,
    pub to_png: bool,
    pub to_tiff: bool,
    pub to_bmp: bool,
    pub to_ico: bool,
}

impl View for CompressionOptions {
    type V = OptionsView;

    open spec fn view(&self) -> OptionsView {
        OptionsView {
            png_lossy: self.png_lossy,
            png_quality: self.png_quality@,
            oxipng: self.oxipng,
            to_webp: self.to_webp,
            to_avif: self.to_avif,
            to_jpeg: self.to_jpeg,
            to_png: self.to_png,
            to_tiff: self.to_tiff,
            to_bmp: self.to_bmp,
            to_ico: self.to_ico,
        }
    }
}

/// The options of a request that asks for nothing: lossy PNG at `"50-80"`,
/// structural optimisation on, no conversion.
pub open spec fn default_options() -> OptionsView {
    OptionsView {
        png_lossy: true,
        png_quality: "50-80"@,
        oxipng: true,
        to_webp: false,
        to_avif: false,
        to_jpeg: false,
        to_png: false,
        to_tiff: false,
        to_bmp: false,
        to_ico: false,
    }
}

/// The target format that counts: the first flag that is set, in the order
/// WebP, AVIF, JPEG, PNG, TIFF, BMP, ICO. The flags after it are ignored.
pub open spec fn requested_target(o: OptionsView) -> Option<TargetFormat> {
    if o.to_webp {
        Some(TargetFormat::Webp)
    } else if o.to_avif {
        Some(TargetFormat::Avif)
    } else if o.to_jpeg {
        Some(TargetFormat::Jpeg)
    } else if o.to_png {
        Some(TargetFormat::Png)
    } else if o.to_tiff {
        Some(TargetFormat::Tiff)
    } else if o.to_bmp {
        Some(TargetFormat::Bmp)
    } else if o.to_ico {
        Some(TargetFormat::Ico)
    } else {
        None
    }
}

/// The options after an `output_format` field with the given value: the flag of
/// the named format is set, and an unknown name changes nothing.
pub open spec fn with_output_format(o: OptionsView, value: Seq<char>) -> OptionsView {
    if value == "webp"@ {
        OptionsView { to_webp: true, ..o }
    } else if value == "avif"@ {
        OptionsView { to_avif: true, ..o }
    } else if value == "jpeg"@ {
        OptionsView { to_jpeg: true, ..o }
    } else if value == "png"@ {
        OptionsView { to_png: true, ..o }
    } else if value == "tiff"@ {
        OptionsView { to_tiff: true, ..o }
    } else if value == "bmp"@ {
        OptionsView { to_bmp: true, ..o }
    } else if value == "ico"@ {
        OptionsView { to_ico: true, ..o }
    } else {
        o
    }
}

/// The options after one request field. The two switches are on exactly when
/// their value is `true`; a field with an unknown name changes nothing.
pub open spec fn with_field(o: OptionsView, name: Seq<char>, value: Seq<char>) -> OptionsView {
    if name == "png_quality"@ {
        OptionsView { png_quality: value, ..o }
    } else if name == "output_format"@ {
        with_output_format(o, value)
    } else if name == "oxipng"@ {
        OptionsView { oxipng: value == "true"@, ..o }
    } else if name == "png_lossy"@ {
        OptionsView { png_lossy: value == "true"@, ..o }
    } else {
        o
    }
}

/// Whether a request field of this name carries an option.
pub open spec fn is_option_field(name: Seq<char>) -> bool {
    name == "png_quality"@ || name == "output_format"@ || name == "oxipng"@ || name == "png_lossy"@
}

/// The quality that WebP, AVIF and JPEG conversion share: the midpoint of the
/// range that `png_quality` denotes.
pub open spec fn lossy_quality_of(o: OptionsView) -> int {
    midpoint(min_quality_of(o.png_quality), max_quality_of(o.png_quality))
}

/// Tests whether a request field of this name carries an option.
pub fn option_field(name: &str) -> (r: bool)
    ensures
        r == is_option_field(name@),
{
    str_equals(name, "png_quality") || str_equals(name, "output_format") || str_equals(
        name,
        "oxipng",
    ) || str_equals(name, "png_lossy")
}

/// A field that carries no option leaves the options as they are.
pub proof fn lemma_unknown_fields_are_ignored(o: OptionsView, name: Seq<char>, value: Seq<char>)
    requires
        !is_option_field(name),
    ensures
        with_field(o, name, value) == o,
{
}

impl CompressionOptions {
    /// The options of a request that asks for nothing.
    pub fn new() -> (o: CompressionOptions)
        ensures
            o@ == default_options(),
    {
        CompressionOptions {
            png_lossy: true,
            png_quality: owned("50-80"),
            oxipng: true,
            to_webp: false,
            to_avif: false,
            to_jpeg: false,
            to_png: false,
            to_tiff: false,
            to_bmp: false,
            to_ico: false,
        }
    }

    /// The options of a batch run, which can ask for WebP or AVIF only.
    pub fn for_batch(
        png_lossy: bool,
        png_quality: &str,
        oxipng: bool,
        to_webp: bool,
        to_avif: bool,
    ) -> (o: CompressionOptions)
        ensures
            o@ == (OptionsView {
                png_lossy,
                png_quality: png_quality@,
                oxipng,
                to_webp,
                to_avif,
                ..default_options()
            }),
    {
        CompressionOptions {
            png_lossy,
            png_quality: owned(png_quality),
            oxipng,
            to_webp,
            to_avif,
            to_jpeg: false,
            to_png: false,
            to_tiff: false,
            to_bmp: false,
            to_ico: false,
        }
    }

    /// Takes one `output_format` value into the options.
    pub fn set_output_format(&mut self, value: &str)
        ensures
            final(self)@ == with_output_format(old(self)@, value@),
    {
        if str_equals(value, "webp") {
            self.to_webp = true;
        } else if str_equals(value, "avif") {
            self.to_avif = true;
        } else if str_equals(value, "jpeg") {
            self.to_jpeg = true;
        } else if str_equals(value, "png") {
            self.to_png = true;
        } else if str_equals(value, "tiff") {
            self.to_tiff = true;
        } else if str_equals(value, "bmp") {
            self.to_bmp = true;
        } else if str_equals(value, "ico") {
            self.to_ico = true;
        }
    }

    /// Takes one request field into the options. Fields with unknown names are
    /// passed over in silence.
    pub fn apply_field(&mut self, name: &str, value: &str)
        ensures
            final(self)@ == with_field(old(self)@, name@, value@),
    {
        if str_equals(name, "png_quality") {
            self.png_quality = owned(value);
        } else if str_equals(name, "output_format") {
            self.set_output_format(value);
        } else if str_equals(name, "oxipng") {
            self.oxipng = str_equals(value, "true");
        } else if str_equals(name, "png_lossy") {
            self.png_lossy = str_equals(value, "true");
        }
    }

    /// The target format that counts, by the fixed order of priority.
    pub fn target(&self) -> (t: Option<TargetFormat>)
        ensures
            t == requested_target(self@),
    {
        if self.to_webp {
            Some(TargetFormat::Webp)
        } else if self.to_avif {
            Some(TargetFormat::Avif)
        } else if self.to_jpeg {
            Some(TargetFormat::Jpeg)
        } else if self.to_png {
            Some(TargetFormat::Png)
        } else if self.to_tiff {
            Some(TargetFormat::Tiff)
        } else if self.to_bmp {
            Some(TargetFormat::Bmp)
        } else if self.to_ico {
            Some(TargetFormat::Ico)
        } else {
            None
        }
    }

    /// The one quality that the lossy conversions share.
    pub fn lossy_quality(&self) -> (q: u8)
        ensures
            q as int == lossy_quality_of(self@),
    {
        let (min, max) = parse_quality_range(self.png_quality.as_str());
        shared_quality(min, max)
    }
}

impl Default for CompressionOptions {
    fn default() -> (o: CompressionOptions)
        ensures
            o@ == default_options(),
    {
        CompressionOptions::new()
    }
}

/// Whichever other flags are set, a set WebP flag decides the target.
pub proof fn lemma_webp_has_priority(o: OptionsView)
    requires
        o.to_webp,
    ensures
        requested_target(o) == Some(TargetFormat::Webp),
{
}

/// A flag decides the target exactly when no flag before it in the order is set.
pub proof fn lemma_target_is_first_set_flag(o: OptionsView)
    ensures
        requested_target(o) == Some(TargetFormat::Avif) <==> !o.to_webp && o.to_avif,
        requested_target(o) == Some(TargetFormat::Jpeg) <==> !o.to_webp && !o.to_avif && o.to_jpeg,
        requested_target(o) == Some(TargetFormat::Png) <==> !o.to_webp && !o.to_avif && !o.to_jpeg
            && o.to_png,
        requested_target(o) == Some(TargetFormat::Tiff) <==> !o.to_webp && !o.to_avif && !o.to_jpeg
            && !o.to_png && o.to_tiff,
        requested_target(o) == Some(TargetFormat::Bmp) <==> !o.to_webp && !o.to_avif && !o.to_jpeg
            && !o.to_png && !o.to_tiff && o.to_bmp,
        requested_target(o) == Some(TargetFormat::Ico) <==> !o.to_webp && !o.to_avif && !o.to_jpeg
            && !o.to_png && !o.to_tiff && !o.to_bmp && o.to_ico,
        requested_target(o) is None <==> !o.to_webp && !o.to_avif && !o.to_jpeg && !o.to_png
            && !o.to_tiff && !o.to_bmp && !o.to_ico,
{
}

} // verus!
