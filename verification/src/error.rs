//! The error taxonomy of the crate.  Every error is fatal to the invocation
//! that produced it; nothing is retried.

use vstd::prelude::*;

verus! {

/// A request that cannot be carried out as given.
#[derive(Clone, Copy, Debug, PartialEq, Eq, Structural)]
pub enum ValidationError {
    /// The number of positional arguments is not exactly one.
    ArgumentCount,
    /// A required flag is absent.
    MissingFlag,
    /// Neither or both of two mutually exclusive flags were given.
    ConflictingFlags,
    /// A width or a height is zero or negative.
    EmptyDimension,
    /// A width or a height, or the image they span, exceeds what can be held.
    DimensionTooLarge,
    /// A pixel buffer does not hold width x height x 3 bytes.
    BufferMismatch,
}

/// Encoded input that cannot be turned into segments and pixels.
#[derive(Clone, Copy, Debug, PartialEq, Eq, Structural)]
pub enum DecodeError {
    /// The input does not begin with a start-of-image marker.
    NotJpeg,
    /// The decoder gave up on the input.
    Codec,
    /// A metadata record carries a marker that is neither a comment nor an
    /// application segment.
    UnknownMarker,
    /// A metadata record is longer than a segment can be.
    SegmentTooLong,
    /// The decoder announced dimensions that its pixels do not fill.
    PixelCount,
}

/// An image that cannot be written out as a JPEG stream.
#[derive(Clone, Copy, Debug, PartialEq, Eq, Structural)]
pub enum EncodeError {
    /// The quality factor lies above 100.
    QualityOutOfRange,
    /// The grid has no pixels.
    EmptyImage,
    /// The grid is wider or taller than a JPEG frame can declare.
    ImageTooLarge,
    /// The codec handed back no finished stream.
    NoOutput,
}

/// A transcoder that did not do its work.
#[derive(Clone, Copy, Debug, PartialEq, Eq, Structural)]
pub enum SubprocessError {
    /// The transcoder could not be started.
    NotStarted,
    /// The transcoder ended abnormally or with a status other than success.
    Failed,
}

/// What ended a run of the compression pipeline.
#[derive(Clone, Copy, Debug, PartialEq, Eq, Structural)]
pub enum PipelineError {
    Validation(ValidationError),
    Decode(DecodeError),
    Encode(EncodeError),
    /// The input could not be read or the output could not be written.
    Io,
    /// An event arrived that the current stage does not wait for.
    OutOfOrder,
}

} // verus!
