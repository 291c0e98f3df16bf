//! The error that every codec path reports.
use vstd::prelude::*;

verus! {

/// The broad classes of failure.
#[derive(Clone, Copy, Debug, PartialEq, Eq, Structural)]
pub enum ErrorKind {
    /// The input bytes are malformed, empty, or of a format that cannot be read.
    Decode,
    /// An encoder refused its parameters or produced no output.
    Codec,
    /// A file could not be read, written or renamed.
    Io,
    /// A configuration value could not be used.
    Config,
}

/// A failed compression: its class and a message for people.
#[derive(Clone, Debug)]
pub struct CompressError {
    pub kind: ErrorKind,
    pub message: String,
}

impl CompressError {
    /// A decode failure with the given message.
    pub fn decode(message: String) -> (e: CompressError)
        ensures
            e.kind == ErrorKind::Decode,
            e.message == message,
    {
        CompressError { kind: ErrorKind::Decode, message }
    }

    /// An encoder failure with the given message.
    pub fn codec(message: String) -> (e: CompressError)
        ensures
            e.kind == ErrorKind::Codec,
            e.message == message,
    {
        CompressError { kind: ErrorKind::Codec, message }
    }

    /// The class of this failure.
    pub fn kind(&self) -> (k: ErrorKind)
        ensures
            k == self.kind,
    {
        self.kind
    }

    /// The message of this failure.
    pub fn message(&self) -> (m: &str)
        ensures
            m@ == self.message@,
    {
        self.message.as_str()
    }
}

} // verus!
