//! The scanline encoder: writes a pixel grid and its metadata segments out as
//! a JPEG stream, in the order the codec demands: dimensions first, then
//! every segment, then every scanline.

use vstd::prelude::*;
use crate::codec;
use crate::codec::{jpeg_stream, session, Phase, Session, MAX_DIMENSION};
use crate::config::MAX_QUALITY;
use crate::error::EncodeError;
use crate::grid::{lemma_row_bounds, GridView, PixelGrid};
use crate::segment::{coded, MetadataSegment};

verus! {

/// Why a grid cannot be encoded at a quality factor, if it cannot: the factor
/// is checked first, then that the grid has pixels, then that it fits a frame.
pub open spec fn refusal(grid: GridView, quality: u8) -> Option<EncodeError> {
    if quality > MAX_QUALITY {
        Some(EncodeError::QualityOutOfRange)
    } else if grid.width == 0 || grid.height == 0 {
        Some(EncodeError::EmptyImage)
    } else if grid.width > MAX_DIMENSION || grid.height > MAX_DIMENSION {
        Some(EncodeError::ImageTooLarge)
    } else {
        None
    }
}

/// What the encoder may answer once the codec has answered: the stream that
/// the codec makes of the input, or the report that the codec gave no
/// stream.
pub open spec fn encoded(
    grid: GridView,
    segments: Seq<(u8, Seq<u8>)>,
    quality: u8,
    answer: Result<Vec<u8>, EncodeError>,
) -> bool {
    match answer {
        Ok(bytes) => bytes@ == jpeg_stream(
            quality as nat,
            grid.width,
            grid.height,
            segments,
            grid.data,
        ),
        Err(e) => e == EncodeError::NoOutput,
    }
}

/// The first `lines` rows of a grid are the first `lines` x width x 3 samples
/// of its buffer, and the row behind them extends that prefix by itself.
proof fn lemma_rows_prefix(grid: GridView, line: nat)
    requires
        grid.consistent(),
        line < grid.height,
    ensures
        grid.data.subrange(0, line * grid.row_len() as int) + grid.row(line as int)
            == grid.data.subrange(0, (line + 1) * grid.row_len() as int),
{
    lemma_row_bounds(grid.width, grid.height, line);
    assert(grid.data.subrange(0, line * grid.row_len() as int) + grid.row(line as int)
        =~= grid.data.subrange(0, (line + 1) * grid.row_len() as int));
}

/// Writes every segment, in order, behind those the session already holds.
fn write_segments(codec: &mut mozjpeg::Compress, segments: &Vec<MetadataSegment>)
    requires
        session(*old(codec)).phase == Phase::Writing,
        session(*old(codec)).lines == 0,
    ensures
        session(*final(codec)) == (Session {
            segments: session(*old(codec)).segments + coded(segments@),
            ..session(*old(codec))
        }),
{
    let ghost before = session(*codec);
    let mut i: usize = 0;
    while i < segments.len()
        invariant
            i <= segments@.len(),
            before.phase == Phase::Writing,
            before.lines == 0,
            session(*codec) == (Session {
                segments: before.segments + coded(segments@).take(i as int),
                ..before
            }),
        decreases segments@.len() - i,
    {
        let segment = &segments[i];
        let kind = segment.kind();
        let payload = segment.payload();
        codec::write_segment(codec, kind, payload.as_slice());
        proof {
            assert(coded(segments@).take(i as int).push(coded(segments@)[i as int])
                =~= coded(segments@).take(i + 1));
            assert((before.segments + coded(segments@).take(i as int)).push(
                (kind.code_spec(), payload@),
            ) =~= before.segments + coded(segments@).take(i + 1));
        }
        i = i + 1;
    }
    proof {
        assert(coded(segments@).take(i as int) =~= coded(segments@));
    }
}

/// Writes the scanlines of a grid, row 0 first.
fn write_rows(codec: &mut mozjpeg::Compress, grid: &PixelGrid)
    requires
        session(*old(codec)).phase == Phase::Writing,
        session(*old(codec)).buffered,
        session(*old(codec)).lines == 0,
        session(*old(codec)).pixels == Seq::<u8>::empty(),
        session(*old(codec)).width == grid@.width,
        session(*old(codec)).height == grid@.height,
    ensures
        session(*final(codec)) == (Session {
            lines: grid@.height,
            pixels: grid@.data,
            ..session(*old(codec))
        }),
{
    let ghost before = session(*codec);
    let height = grid.height();
    let mut line: u32 = 0;
    proof {
        assert(grid@.data.subrange(0, 0) =~= Seq::<u8>::empty());
    }
    while line < height
        invariant
            line <= height,
            height == grid@.height,
            grid@.consistent(),
            before.phase == Phase::Writing,
            before.buffered,
            before.width == grid@.width,
            before.height == grid@.height,
            session(*codec) == (Session {
                lines: line as nat,
                pixels: grid@.data.subrange(0, line * grid@.row_len() as int),
                ..before
            }),
        decreases height - line,
    {
        proof {
            lemma_row_bounds(grid@.width, grid@.height, line as nat);
            lemma_rows_prefix(grid@, line as nat);
        }
        match grid.row(line) {
            Some(row) => codec::write_scanline(codec, row),
            None => {},
        }
        line = line + 1;
    }
    proof {
        assert(grid@.height * grid@.row_len() == 3 * grid@.width * grid@.height)
            by (nonlinear_arith);
        assert(grid@.data.subrange(0, line * grid@.row_len() as int) =~= grid@.data);
    }
}

/// What is returned for each answer of the codec to the request for the
/// finished stream.
pub fn stream_or_error(stream: Option<Vec<u8>>) -> (answer: Result<Vec<u8>, EncodeError>)
    ensures
        match stream {
            Some(bytes) => answer == Ok::<Vec<u8>, EncodeError>(bytes),
            None => answer == Err::<Vec<u8>, EncodeError>(EncodeError::NoOutput),
        },
{
    match stream {
        Some(bytes) => Ok(bytes),
        None => Err(EncodeError::NoOutput),
    }
}

/// Encodes a grid as a JPEG stream that carries the given segments in their
/// order, at a quality factor from 0 to 100.
///
/// A factor above 100, a grid without pixels and a grid beyond 65500 pixels
/// in either direction are refused before the codec is touched.  Otherwise
/// the session is configured for full-colour input and the scan optimisation
/// mode "all components together", the dimensions are declared, the segments
/// are written, then the scanlines, and the session is finalised.
pub fn encode(grid: &PixelGrid, segments: &Vec<MetadataSegment>, quality: u8) -> (answer: Result<
    Vec<u8>,
    EncodeError,
>)
    ensures
        match refusal(grid@, quality) {
            Some(e) => answer == Err::<Vec<u8>, EncodeError>(e),
            None => encoded(grid@, coded(segments@), quality, answer),
        },
{
    if quality > MAX_QUALITY {
        return Err(EncodeError::QualityOutOfRange);
    }
    let width = grid.width();
    let height = grid.height();
    if width == 0 || height == 0 {
        return Err(EncodeError::EmptyImage);
    }
    if width > MAX_DIMENSION || height > MAX_DIMENSION {
        return Err(EncodeError::ImageTooLarge);
    }
    let mut codec = codec::open();
    codec::scan_together(&mut codec);
    codec::set_quality(&mut codec, quality);
    codec::set_size(&mut codec, width, height);
    codec::buffer_output(&mut codec);
    codec::start(&mut codec);
    write_segments(&mut codec, segments);
    proof {
        assert(Seq::<(u8, Seq<u8>)>::empty() + coded(segments@) =~= coded(segments@));
    }
    write_rows(&mut codec, grid);
    codec::finish(&mut codec);
    stream_or_error(codec::take_stream(codec))
}

} // verus!
