//! What can go wrong with one file.

use vstd::prelude::*;

verus! {

/// The kinds of per-file failure. None of them stops the batch.
#[derive(Clone, Copy, Debug, PartialEq, Eq, Structural)]
pub enum FailureKind {
    /// The destination already holds the output, or a file of the input's name.
    AlreadyExists,
    /// The input could not be converted to JPEG; it was copied as it is.
    ConvertFailed,
    /// The image could not be decoded.
    Decode,
    /// The image could not be resized.
    Resize,
    /// The pixels could not be encoded.
    Encode,
    /// Reading, writing, copying or deleting a file failed.
    Io,
    /// The converted file was kept because no sibling shares its stem.
    NotFound,
}

/// A per-file failure: its kind and the text that is reported for it.
#[derive(Debug)]
pub struct CompressError {
    pub kind: FailureKind,
    pub message: String,
}

impl CompressError {
    /// A failure of `kind` with `message` as its text.
    pub fn new(kind: FailureKind, message: String) -> (e: CompressError)
        ensures
            e.kind == kind,
            e.message == message,
    {
        CompressError { kind, message }
    }

    /// The text that is reported for this failure.
    pub fn to_string(&self) -> (s: String)
        ensures
            s@ == self.message@,
    {
        self.message.clone()
    }
}

} // verus!
