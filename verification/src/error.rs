//! The ways in which encoding a payload or reading a picture can fail.

use vstd::prelude::*;

verus! {

/// Why a symbol could not be made or read.
#[derive(Clone, Copy, Debug, PartialEq, Eq, Structural)]
pub enum QrError {
    /// The payload is longer than the largest version holds at the level
    /// asked for.
    CapacityExceeded,
    /// The bytes are no picture in a format that can be read, or what was
    /// read has not one value for each pixel.
    ImageUnreadable,
    /// The picture shows no three finder patterns that belong together.
    NoFinderPatternsFound,
    /// The finder patterns give no usable grid of modules.
    PerspectiveEstimationFailed,
    /// Neither copy of the format information can be corrected.
    FormatInfoUnrecoverable,
    /// A block of codewords has more errors than its code corrects. The
    /// reader that corrects the codewords tells neither which block it was
    /// nor how many errors it had, so the error tells neither.
    EccUncorrectable,
    /// The bit stream ends before a segment does, or a segment announces
    /// more than a symbol can hold.
    BitstreamMalformed,
    /// The symbol carries something other than byte data.
    UnsupportedMode,
    /// The payload is not text in UTF-8.
    PayloadNotText,
}

impl QrError {
    /// A short description of the error in words.
    pub open spec fn text(self) -> Seq<char> {
        match self {
            QrError::CapacityExceeded => "payload too long for any symbol"@,
            QrError::ImageUnreadable => "image cannot be read"@,
            QrError::NoFinderPatternsFound => "no finder patterns found"@,
            QrError::PerspectiveEstimationFailed => "perspective estimation failed"@,
            QrError::FormatInfoUnrecoverable => "format information unrecoverable"@,
            QrError::EccUncorrectable => "too many errors to correct"@,
            QrError::BitstreamMalformed => "bit stream malformed"@,
            QrError::UnsupportedMode => "unsupported mode"@,
            QrError::PayloadNotText => "payload is not UTF-8 text"@,
        }
    }

    /// A short description of the error in words.
    pub fn message(&self) -> (message: &'static str)
        ensures
            message@ == self.text(),
    {
        match self {
            QrError::CapacityExceeded => "payload too long for any symbol",
            QrError::ImageUnreadable => "image cannot be read",
            QrError::NoFinderPatternsFound => "no finder patterns found",
            QrError::PerspectiveEstimationFailed => "perspective estimation failed",
            QrError::FormatInfoUnrecoverable => "format information unrecoverable",
            QrError::EccUncorrectable => "too many errors to correct",
            QrError::BitstreamMalformed => "bit stream malformed",
            QrError::UnsupportedMode => "unsupported mode",
            QrError::PayloadNotText => "payload is not UTF-8 text",
        }
    }
}

} // verus!
