//! The JPEG encoder of the `mozjpeg` crate, as far as this crate drives it.
//!
//! Nothing in this file is proved.  Each function makes one call into the
//! codec, and its contract records what the codec's sources show of that
//! call: under which conditions it returns normally, and what it does to the
//! encode session.  The session itself is opaque; `session` names what it has
//! been told so far.

use vstd::prelude::*;
use crate::segment::MarkerKind;

verus! {

/// The largest width or height the codec encodes.
pub const MAX_DIMENSION: u32 = 65500;

/// Where an encode session stands in the order the codec imposes.
#[derive(Clone, Copy, Debug, PartialEq, Eq, Structural)]
pub enum Phase {
    /// Parameters may be set; nothing has been written.
    Configuring,
    /// Compression has started: segments, then scanlines, may be written.
    Writing,
    /// Compression has been finalised: the stream is complete.
    Finished,
}

/// What an encode session has been told so far.
pub struct Session {
    pub phase: Phase,
    /// `set_scan_optimization_mode` has been called with "all components
    /// together".  This records the call, not the state of the codec, which
    /// is in that mode from the start.
    pub together: bool,
    /// The stream is collected in memory.
    pub buffered: bool,
    pub quality: nat,
    pub width: nat,
    pub height: nat,
    /// The segments written, as marker byte and payload, oldest first.
    pub segments: Seq<(u8, Seq<u8>)>,
    /// The number of scanlines written.
    pub lines: nat,
    /// The samples of the scanlines written, first line first.
    pub pixels: Seq<u8>,
}

/// `mozjpeg::Compress`, the codec's encode session.  Nothing inside it is
/// visible here.
#[verifier::external_type_specification]
#[verifier::external_body]
pub struct ExCompress(mozjpeg::Compress);

/// What the session behind a `mozjpeg::Compress` has been told so far.
pub uninterp spec fn session(codec: mozjpeg::Compress) -> Session;

/// The JPEG stream that the codec produces from full-colour RGB input under
/// the scan optimisation mode "all components together", for the given
/// quality factor, dimensions, segments and samples.
pub uninterp spec fn jpeg_stream(
    quality: nat,
    width: nat,
    height: nat,
    segments: Seq<(u8, Seq<u8>)>,
    pixels: Seq<u8>,
) -> Seq<u8>;

/// `mozjpeg::Compress::new` with the colour space `JCS_RGB`: a new session
/// that takes parameters, on which no scan optimisation mode has been set and
/// which has written nothing.
#[verifier::external_body]
pub(crate) fn open() -> (codec: mozjpeg::Compress)
    ensures
        session(codec).phase == Phase::Configuring,
        !session(codec).together,
        !session(codec).buffered,
        session(codec).segments == Seq::<(u8, Seq<u8>)>::empty(),
        session(codec).lines == 0,
        session(codec).pixels == Seq::<u8>::empty(),
{
    mozjpeg::Compress::new(mozjpeg::ColorSpace::JCS_RGB)
}

/// `mozjpeg::Compress::set_scan_optimization_mode` with
/// `ScanMode::AllComponentsTogether`.  The call puts every other compression
/// parameter back to its default, so nothing is said of the quality factor
/// afterwards; dimensions, destination and what was written are untouched.
#[verifier::external_body]
pub(crate) fn scan_together(codec: &mut mozjpeg::Compress)
    requires
        session(*old(codec)).phase == Phase::Configuring,
    ensures
        session(*final(codec)) == (Session {
            together: true,
            quality: session(*final(codec)).quality,
            ..session(*old(codec))
        }),
{
    codec.set_scan_optimization_mode(mozjpeg::ScanMode::AllComponentsTogether)
}

/// `mozjpeg::Compress::set_quality`.  The codec takes any factor and moves it
/// into the range it supports by itself.
#[verifier::external_body]
pub(crate) fn set_quality(codec: &mut mozjpeg::Compress, quality: u8)
    requires
        session(*old(codec)).phase == Phase::Configuring,
    ensures
        session(*final(codec)) == (Session { quality: quality as nat, ..session(*old(codec)) }),
{
    codec.set_quality(quality.into())
}

/// `mozjpeg::Compress::set_size`: declares the dimensions of the image.
#[verifier::external_body]
pub(crate) fn set_size(codec: &mut mozjpeg::Compress, width: u32, height: u32)
    requires
        session(*old(codec)).phase == Phase::Configuring,
    ensures
        session(*final(codec)) == (Session {
            width: width as nat,
            height: height as nat,
            ..session(*old(codec))
        }),
{
    codec.set_size(width as usize, height as usize)
}

/// `mozjpeg::Compress::set_mem_dest`: the stream goes to a buffer in memory.
#[verifier::external_body]
pub(crate) fn buffer_output(codec: &mut mozjpeg::Compress)
    requires
        session(*old(codec)).phase == Phase::Configuring,
    ensures
        session(*final(codec)) == (Session { buffered: true, ..session(*old(codec)) }),
{
    codec.set_mem_dest()
}

/// `mozjpeg::Compress::start_compress`.  The codec gives up on a session
/// without a destination and on dimensions outside 1 to 65500; on any other
/// session it freezes the parameters and is ready for segments and
/// scanlines.
#[verifier::external_body]
pub(crate) fn start(codec: &mut mozjpeg::Compress)
    requires
        session(*old(codec)).phase == Phase::Configuring,
        session(*old(codec)).buffered,
        1 <= session(*old(codec)).width <= MAX_DIMENSION,
        1 <= session(*old(codec)).height <= MAX_DIMENSION,
    ensures
        session(*final(codec)) == (Session { phase: Phase::Writing, ..session(*old(codec)) }),
{
    codec.start_compress()
}

/// `mozjpeg::Compress::write_marker`.  The codec takes a segment only after
/// the start and before the first scanline, and gives up on a payload longer
/// than 65533 bytes.  The segment goes into the stream behind those written
/// before it.
#[verifier::external_body]
pub(crate) fn write_segment(codec: &mut mozjpeg::Compress, kind: MarkerKind, payload: &[u8])
    requires
        session(*old(codec)).phase == Phase::Writing,
        session(*old(codec)).lines == 0,
        kind.valid(),
        payload@.len() <= 65533,
    ensures
        session(*final(codec)) == (Session {
            segments: session(*old(codec)).segments.push((kind.code_spec(), payload@)),
            ..session(*old(codec))
        }),
{
    let marker = match kind {
        MarkerKind::Comment => mozjpeg::Marker::COM,
        MarkerKind::App(number) => mozjpeg::Marker::APP(number),
    };
    codec.write_marker(marker, payload)
}

/// `mozjpeg::Compress::write_scanlines` with exactly one scanline.  The codec
/// reads rows of width x 3 samples from what it is given, so the row must
/// have that length.  It leaves a row untaken only where the image is
/// already complete or where the destination cannot take more for now; the
/// first is left out here, and a destination in memory grows instead.  So
/// the row is taken, and the answer of the call, which says so, is dropped.
#[verifier::external_body]
pub(crate) fn write_scanline(codec: &mut mozjpeg::Compress, row: &[u8])
    requires
        session(*old(codec)).phase == Phase::Writing,
        session(*old(codec)).buffered,
        session(*old(codec)).lines < session(*old(codec)).height,
        row@.len() == 3 * session(*old(codec)).width,
    ensures
        session(*final(codec)) == (Session {
            lines: session(*old(codec)).lines + 1,
            pixels: session(*old(codec)).pixels + row@,
            ..session(*old(codec))
        }),
{
    codec.write_scanlines(row);
}

/// `mozjpeg::Compress::finish_compress`.  The codec gives up unless every
/// scanline of the declared height has been written.
#[verifier::external_body]
pub(crate) fn finish(codec: &mut mozjpeg::Compress)
    requires
        session(*old(codec)).phase == Phase::Writing,
        session(*old(codec)).lines == session(*old(codec)).height,
    ensures
        session(*final(codec)) == (Session { phase: Phase::Finished, ..session(*old(codec)) }),
{
    codec.finish_compress()
}

/// `mozjpeg::Compress::data_to_vec`: the finished stream, or nothing where
/// the buffer is empty or cannot be copied.  A stream that comes out is the
/// one that the codec makes of what the session was told.
#[verifier::external_body]
pub(crate) fn take_stream(codec: mozjpeg::Compress) -> (stream: Option<Vec<u8>>)
    requires
        session(codec).phase == Phase::Finished,
        session(codec).together,
        session(codec).buffered,
    ensures
        stream matches Some(bytes) ==> bytes@ == jpeg_stream(
            session(codec).quality,
            session(codec).width,
            session(codec).height,
            session(codec).segments,
            session(codec).pixels,
        ),
{
    let mut codec = codec;
    codec.data_to_vec().ok()
}

} // verus!
