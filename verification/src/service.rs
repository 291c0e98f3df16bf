//! The decisions of the two front ends: which mode a command line starts, how
//! many workers a batch gets, and what an upload is answered with.
use vstd::prelude::*;
use crate::dispatch::{codec_result, compress_image_inproc, content_type_of, plan_of};
use crate::error::CompressError;
use crate::naming::{download_name, download_name_of, lowercase_of, raw_extension, upload_extension};
use crate::options::CompressionOptions;
use crate::text::joined;

verus! {

/// The port that the web service listens on unless told otherwise.
pub const DEFAULT_PORT: u16 = 3030;

/// The status of an answer that carries the compressed bytes.
pub const STATUS_OK: u16 = 200;

/// The status of the answer to an upload without file data.
pub const STATUS_BAD_REQUEST: u16 = 400;

/// The status of the answer to an upload that could not be compressed.
pub const STATUS_SERVER_ERROR: u16 = 500;

/// What the program runs as.
#[derive(Clone, Copy, Debug, PartialEq, Eq, Structural)]
pub enum RunMode {
    Web,
    Batch,
}

/// The answer to an upload.
#[derive(Debug)]
pub enum UploadAnswer {
    /// The compressed bytes, their content type and the name to save them under.
    Compressed { body: Vec<u8>, content_type: String, file_name: String },
    /// The upload held no file data.
    MissingFile,
    /// The file could not be compressed.
    Failed(CompressError),
}

/// The mode of a command line: the web service where it is asked for or no input
/// is given, a batch run otherwise.
pub open spec fn run_mode_of(web: bool, input_given: bool) -> RunMode {
    if web || !input_given {
        RunMode::Web
    } else {
        RunMode::Batch
    }
}

/// The status that an answer is sent with.
pub open spec fn status_of(answer: UploadAnswer) -> u16 {
    match answer {
        UploadAnswer::Compressed { .. } => STATUS_OK,
        UploadAnswer::MissingFile => STATUS_BAD_REQUEST,
        UploadAnswer::Failed(_) => STATUS_SERVER_ERROR,
    }
}

/// The header value that offers the bytes for download under a name.
pub open spec fn content_disposition_of(file_name: Seq<char>) -> Seq<char> {
    "attachment; filename=\""@ + file_name + "\""@
}

/// The mode of a command line.
pub fn run_mode(web: bool, input_given: bool) -> (m: RunMode)
    ensures
        m == run_mode_of(web, input_given),
{
    if web || !input_given {
        RunMode::Web
    } else {
        RunMode::Batch
    }
}

/// The size of the worker pool: the number asked for, or else the number of
/// processing units of the machine.
pub fn worker_count(jobs: Option<usize>, processing_units: usize) -> (n: usize)
    ensures
        n == match jobs {
            Some(j) => j,
            None => processing_units,
        },
{
    match jobs {
        Some(j) => j,
        None => processing_units,
    }
}

/// The header value that offers the bytes for download under a name.
pub fn content_disposition(file_name: &str) -> (r: String)
    ensures
        r@ == content_disposition_of(file_name@),
{
    let opened = joined("attachment; filename=\"", file_name);
    joined(opened.as_str(), "\"")
}

impl UploadAnswer {
    /// The status that the answer is sent with.
    pub fn status(&self) -> (s: u16)
        ensures
            s == status_of(*self),
    {
        match self {
            UploadAnswer::Compressed { .. } => STATUS_OK,
            UploadAnswer::MissingFile => STATUS_BAD_REQUEST,
            UploadAnswer::Failed(_) => STATUS_SERVER_ERROR,
        }
    }
}

/// Makes the answer of what the dispatcher handed back: the bytes with their
/// content type and the download name, or the failure.
pub fn upload_answer(
    file_name: &str,
    ext_lower: &str,
    opts: &CompressionOptions,
    outcome: Result<(Vec<u8>, String), CompressError>,
) -> (r: UploadAnswer)
    ensures
        match outcome {
            Ok(out) => r matches UploadAnswer::Compressed { body, content_type, file_name: name }
                && body == out.0 && content_type == out.1 && name@ == download_name_of(
                file_name@,
                ext_lower@,
                opts@,
            ),
            Err(e) => r == UploadAnswer::Failed(e),
        },
{
    match outcome {
        Ok(out) => {
            let (body, content_type) = out;
            let name = download_name(file_name, ext_lower, opts);
            UploadAnswer::Compressed { body, content_type, file_name: name }
        },
        Err(e) => UploadAnswer::Failed(e),
    }
}

/// Answers an upload. Without file data the answer is `MissingFile`. Otherwise
/// the file is compressed by the codec that its extension and the options select;
/// the answer carries the bytes, the codec's content type and the download name,
/// or the error.
pub fn answer_upload(file_bytes: &[u8], file_name: &str, opts: &CompressionOptions) -> (r:
    UploadAnswer)
    ensures
        file_bytes@.len() == 0 <==> r is MissingFile,
        match r {
            UploadAnswer::Compressed { body, content_type, file_name: name } => {
                &&& codec_result(
                    file_bytes@,
                    plan_of(lowercase_of(raw_extension(file_name@)), opts@),
                    Ok::<Vec<u8>, CompressError>(body),
                )
                &&& content_type@ == content_type_of(
                    plan_of(lowercase_of(raw_extension(file_name@)), opts@),
                )
                &&& name@ == download_name_of(
                    file_name@,
                    lowercase_of(raw_extension(file_name@)),
                    opts@,
                )
            },
            UploadAnswer::MissingFile => true,
            UploadAnswer::Failed(e) => codec_result(
                file_bytes@,
                plan_of(lowercase_of(raw_extension(file_name@)), opts@),
                Err::<Vec<u8>, CompressError>(e),
            ),
        },
{
    if file_bytes.len() == 0 {
        return UploadAnswer::MissingFile;
    }
    let ext = upload_extension(file_name);
    upload_answer(
        file_name,
        ext.as_str(),
        opts,
        compress_image_inproc(file_bytes, ext.as_str(), opts),
    )
}

} // verus!
