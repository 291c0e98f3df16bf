//! File names: the extension of an upload, the name of a download, and the names
//! that a batch run writes to.
use vstd::prelude::*;
use vstd::string::StrSliceExecFns;
use crate::dispatch::is_heic;
use crate::options::{requested_target, CompressionOptions, OptionsView, TargetFormat};
use crate::text::{chars_of, joined, owned, str_equals};

verus! {

/// What `str::to_lowercase` makes of a string.
pub uninterp spec fn lowercase_of(s: Seq<char>) -> Seq<char>;

/// Calls `str::to_lowercase`. The contract gives the result a name.
#[verifier::external_body]
pub(crate) fn to_lowercase(s: &str) -> (r: String)
    ensures
        r@ == lowercase_of(s@),
{
    s.to_lowercase()
}

/// The position of the last `c` in `s`, or -1 where `s` holds none.
pub open spec fn last_index_of(s: Seq<char>, c: char) -> int
    decreases s.len(),
{
    if s.len() == 0 {
        -1
    } else if s.last() == c {
        s.len() - 1
    } else {
        last_index_of(s.drop_last(), c)
    }
}

/// What follows the last `.` of a file name; the whole name where it holds none.
pub open spec fn raw_extension(name: Seq<char>) -> Seq<char> {
    name.subrange(last_index_of(name, '.') + 1, name.len() as int)
}

/// The name with what follows its last `.` replaced by `ext`. A name without a
/// `.` stays as it is.
pub open spec fn swap_extension(name: Seq<char>, ext: Seq<char>) -> Seq<char> {
    if last_index_of(name, '.') >= 0 {
        name.subrange(0, last_index_of(name, '.') + 1) + ext
    } else {
        name
    }
}

/// The name with its extension set to `ext`, as a path does it: what follows the
/// last `.` is replaced, unless that `.` opens the name; a name without an
/// extension gets one.
pub open spec fn with_extension(name: Seq<char>, ext: Seq<char>) -> Seq<char> {
    if last_index_of(name, '.') > 0 {
        name.subrange(0, last_index_of(name, '.')) + seq!['.'] + ext
    } else {
        name + seq!['.'] + ext
    }
}

/// The extension that names a target format in a file name.
pub open spec fn target_extension_of(t: TargetFormat) -> Seq<char> {
    match t {
        TargetFormat::Webp => "webp"@,
        TargetFormat::Avif => "avif"@,
        TargetFormat::Jpeg => "jpg"@,
        TargetFormat::Png => "png"@,
        TargetFormat::Tiff => "tiff"@,
        TargetFormat::Bmp => "bmp"@,
        TargetFormat::Ico => "ico"@,
    }
}

/// The name under which a converted upload is handed back: the extension follows
/// the format that was produced, JPEG for HEIC input and else the requested
/// target; where nothing was converted, the name gets the prefix `c_`.
pub open spec fn download_name_of(name: Seq<char>, ext_lower: Seq<char>, o: OptionsView) -> Seq<
    char,
> {
    if is_heic(ext_lower) {
        swap_extension(name, "jpg"@)
    } else {
        match requested_target(o) {
            Some(t) => swap_extension(name, target_extension_of(t)),
            None => "c_"@ + name,
        }
    }
}

/// The extension of a batch run's output where it differs from the input's: that
/// of the requested conversion, or `png` for input that is neither PNG nor JPEG.
pub open spec fn batch_extension_of(ext_lower: Seq<char>, to_webp: bool, to_avif: bool) -> Option<
    Seq<char>,
> {
    if to_webp {
        Some("webp"@)
    } else if to_avif {
        Some("avif"@)
    } else if ext_lower == "png"@ || ext_lower == "jpg"@ || ext_lower == "jpeg"@ {
        None
    } else {
        Some("png"@)
    }
}

/// The file name that a batch run writes to: the input's name with the prefix
/// `c_`, and with the new extension if there is one.
pub open spec fn batch_output_name_of(name: Seq<char>, ext: Option<Seq<char>>) -> Seq<char> {
    match ext {
        Some(e) => with_extension("c_"@ + name, e),
        None => "c_"@ + name,
    }
}

/// The name under which the input file is set aside while it is overwritten: as a
/// path forms it from the extension followed by `.bak`.
pub open spec fn backup_name_of(name: Seq<char>) -> Seq<char> {
    if last_index_of(name, '.') > 0 {
        name + ".bak"@
    } else {
        name + "..bak"@
    }
}

/// Whether a lower-case extension is one that a batch run picks up.
pub open spec fn is_supported_extension(ext: Seq<char>) -> bool {
    ||| ext == "png"@
    ||| ext == "jpg"@
    ||| ext == "jpeg"@
    ||| ext == "bmp"@
    ||| ext == "tiff"@
    ||| ext == "tif"@
    ||| ext == "webp"@
    ||| ext == "heic"@
    ||| ext == "heif"@
}

/// Finds the last `c` in `s`.
pub fn find_last(s: &str, c: char) -> (r: Option<usize>)
    ensures
        match r {
            Some(i) => i < s@.len() <= usize::MAX && i as int == last_index_of(s@, c),
            None => last_index_of(s@, c) == -1,
        },
{
    let chars = chars_of(s);
    let mut i = chars.len();
    proof {
        assert(s@.subrange(0, i as int) =~= s@);
    }
    while i > 0
        invariant
            chars@ == s@,
            i <= s@.len() <= usize::MAX,
            last_index_of(s@, c) == last_index_of(s@.subrange(0, i as int), c),
        decreases i,
    {
        let ghost head = s@.subrange(0, i as int);
        if chars[i - 1] == c {
            proof {
                assert(head.last() == c);
            }
            return Some(i - 1);
        }
        proof {
            assert(head.last() == s@[i - 1]);
            assert(head.drop_last() =~= s@.subrange(0, i - 1));
        }
        i = i - 1;
    }
    proof {
        assert(s@.subrange(0, 0).len() == 0);
    }
    None
}

/// Tests whether a lower-case extension is one that a batch run picks up.
pub fn supported_extension(ext_lower: &str) -> (r: bool)
    ensures
        r == is_supported_extension(ext_lower@),
{
    str_equals(ext_lower, "png") || str_equals(ext_lower, "jpg") || str_equals(ext_lower, "jpeg")
        || str_equals(ext_lower, "bmp") || str_equals(ext_lower, "tiff") || str_equals(
        ext_lower,
        "tif",
    ) || str_equals(ext_lower, "webp") || str_equals(ext_lower, "heic") || str_equals(
        ext_lower,
        "heif",
    )
}

/// The string in lower case.
pub fn lowercased(s: &str) -> (r: String)
    ensures
        r@ == lowercase_of(s@),
{
    to_lowercase(s)
}

/// Tests whether an extension, in whatever case, is one that a batch run picks
/// up.
pub fn candidate_extension(ext: &str) -> (r: bool)
    ensures
        r == is_supported_extension(lowercase_of(ext@)),
{
    let lower = to_lowercase(ext);
    supported_extension(lower.as_str())
}

/// The extension of an uploaded file in lower case: what follows the last `.` of
/// its name, or the whole name where it holds none.
pub fn upload_extension(name: &str) -> (r: String)
    ensures
        r@ == lowercase_of(raw_extension(name@)),
{
    let len = name.unicode_len();
    let start = match find_last(name, '.') {
        Some(i) => i + 1,
        None => 0,
    };
    to_lowercase(name.substring_char(start, len))
}

/// The name with what follows its last `.` replaced by `ext`.
pub fn swapped_extension(name: &str, ext: &str) -> (r: String)
    ensures
        r@ == swap_extension(name@, ext@),
{
    match find_last(name, '.') {
        Some(i) => joined(name.substring_char(0, i + 1), ext),
        None => owned(name),
    }
}

/// The name with its extension set to `ext`, as a path does it.
pub fn replaced_extension(name: &str, ext: &str) -> (r: String)
    ensures
        r@ == with_extension(name@, ext@),
{
    proof {
        reveal_strlit(".");
        assert("."@ =~= seq!['.']);
    }
    let stem = match find_last(name, '.') {
        Some(i) => if i > 0 {
            name.substring_char(0, i)
        } else {
            name
        },
        None => name,
    };
    let dotted = joined(stem, ".");
    joined(dotted.as_str(), ext)
}

/// The extension that names a target format in a file name.
pub fn target_extension(t: TargetFormat) -> (r: &'static str)
    ensures
        r@ == target_extension_of(t),
{
    match t {
        TargetFormat::Webp => "webp",
        TargetFormat::Avif => "avif",
        TargetFormat::Jpeg => "jpg",
        TargetFormat::Png => "png",
        TargetFormat::Tiff => "tiff",
        TargetFormat::Bmp => "bmp",
        TargetFormat::Ico => "ico",
    }
}

/// The name under which a converted upload is handed back.
pub fn download_name(name: &str, ext_lower: &str, opts: &CompressionOptions) -> (r: String)
    ensures
        r@ == download_name_of(name@, ext_lower@, opts@),
{
    if str_equals(ext_lower, "heic") || str_equals(ext_lower, "heif") {
        swapped_extension(name, "jpg")
    } else {
        match opts.target() {
            Some(t) => swapped_extension(name, target_extension(t)),
            None => joined("c_", name),
        }
    }
}

/// The extension of a batch run's output where it differs from the input's.
pub fn batch_extension(ext_lower: &str, to_webp: bool, to_avif: bool) -> (r: Option<&'static str>)
    ensures
        match r {
            Some(e) => batch_extension_of(ext_lower@, to_webp, to_avif) == Some(e@),
            None => batch_extension_of(ext_lower@, to_webp, to_avif) is None,
        },
{
    if to_webp {
        Some("webp")
    } else if to_avif {
        Some("avif")
    } else if str_equals(ext_lower, "png") || str_equals(ext_lower, "jpg") || str_equals(
        ext_lower,
        "jpeg",
    ) {
        None
    } else {
        Some("png")
    }
}

/// The file name that a batch run writes to.
pub fn batch_output_name(name: &str, ext: Option<&str>) -> (r: String)
    ensures
        r@ == batch_output_name_of(
            name@,
            match ext {
                Some(e) => Some(e@),
                None => None,
            },
        ),
{
    let prefixed = joined("c_", name);
    match ext {
        Some(e) => replaced_extension(prefixed.as_str(), e),
        None => prefixed,
    }
}

/// The name under which the input file is set aside while it is overwritten.
pub fn backup_name(name: &str) -> (r: String)
    ensures
        r@ == backup_name_of(name@),
{
    match find_last(name, '.') {
        Some(i) => if i > 0 {
            joined(name, ".bak")
        } else {
            joined(name, "..bak")
        },
        None => joined(name, "..bak"),
    }
}

/// Whether a batch run writes into the output directory: only where one is given
/// and the input files are not overwritten.
pub fn writes_to_output_dir(overwrite: bool, output_dir_given: bool) -> (r: bool)
    ensures
        r == (!overwrite && output_dir_given),
{
    !overwrite && output_dir_given
}

} // verus!
