//! The compression pipeline: read the input, extract its metadata, decode
//! its pixels, resample them, encode the result.
//!
//! Reading files, decoding and sharpening are done by the caller.  The
//! pipeline decides: it is told what the outside work produced, checks it,
//! does the resizing and the encoding itself, and answers with the next
//! piece of outside work or with the end of the run.  The order is fixed;
//! any failure ends the run, and nothing is tried twice.

use vstd::prelude::*;
use crate::codec::jpeg_stream;
use crate::config::CompressionConfig;
use crate::encode::encode;
use crate::error::{DecodeError, EncodeError, PipelineError, ValidationError};
use crate::grid::{flattened, GridView, PixelGrid};
use crate::resample::resize;
use crate::segment::{
    coded, collect, first_rejected, raw_views, rejection, MetadataSegment, RawSegment,
};

verus! {

/// What the pipeline waits for.
#[derive(Clone, Copy, Debug, PartialEq, Eq, Structural)]
pub enum Stage {
    /// The bytes of the input.
    ReadInput,
    /// The metadata records of the input.
    Extract,
    /// The decoded pixels of the input.
    Decode,
    /// The sharpened samples of the resized image.
    Resample,
    /// Nothing: the output has been handed over.
    Done,
    /// Nothing: the run has failed.
    Failed,
}

/// What the outside work produced.
pub enum Event {
    /// The input was read.
    InputRead(Vec<u8>),
    /// The metadata records were extracted, in the order of the input.
    Extracted(Vec<RawSegment>),
    /// The pixels were decoded scanline by scanline, row after row, and the
    /// decoder was finalised.
    Decoded { width: usize, height: usize, pixels: Vec<[u8; 3]> },
    /// The resized image was sharpened: its samples, row after row.
    Sharpened(Vec<u8>),
    /// The outside work failed.
    Failed(PipelineError),
}

/// The output of a run: the encoded bytes and the dimensions they declare.
pub struct CompressionResult {
    pub bytes: Vec<u8>,
    pub width: u32,
    pub height: u32,
}

/// What the caller is to do next.
pub enum Action {
    /// Extract the metadata records from these bytes, which are the input.
    Extract(Vec<u8>),
    /// Decode the pixels and finalise the decoder.
    Decode,
    /// Sharpen this grid, which is the resized image.
    Sharpen(PixelGrid),
    /// Write the output; the run is over.
    Write(CompressionResult),
    /// Report the error; the run is over and there is no output.
    Abort(PipelineError),
}

/// What a pipeline is, apart from how it is stored.
pub struct PipelineView {
    pub stage: Stage,
    pub config: CompressionConfig,
    /// The segments of the input, as marker byte and payload, in order.
    pub segments: Seq<(u8, Seq<u8>)>,
    /// The dimensions of the output.
    pub target: (u32, u32),
}

/// The state of one run of the compression pipeline.
pub struct Pipeline {
    stage: Stage,
    config: CompressionConfig,
    segments: Vec<MetadataSegment>,
    target: (u32, u32),
}

impl View for Pipeline {
    type V = PipelineView;

    closed spec fn view(&self) -> PipelineView {
        PipelineView {
            stage: self.stage,
            config: self.config,
            segments: coded(self.segments@),
            target: self.target,
        }
    }
}

/// Whether bytes begin with the start-of-image marker.
pub open spec fn starts_image(bytes: Seq<u8>) -> bool {
    bytes.len() >= 2 && bytes[0] == 0xFF && bytes[1] == 0xD8
}

/// A run that has failed: the stage is `Failed`, the answer is the error.
pub open spec fn fails(
    pre: PipelineView,
    post: PipelineView,
    action: Action,
    error: PipelineError,
) -> bool {
    &&& post == (PipelineView { stage: Stage::Failed, ..pre })
    &&& action matches Action::Abort(e)
    &&& e == error
}

/// The step on the bytes of the input: input that does not begin with the
/// start-of-image marker fails the run before any decoder sees it; any other
/// is handed back for extraction.
pub open spec fn on_input(
    pre: PipelineView,
    bytes: Seq<u8>,
    post: PipelineView,
    action: Action,
) -> bool {
    if starts_image(bytes) {
        &&& post == (PipelineView { stage: Stage::Extract, ..pre })
        &&& action matches Action::Extract(input)
        &&& input@ == bytes
    } else {
        fails(pre, post, action, PipelineError::Decode(DecodeError::NotJpeg))
    }
}

/// The step on the metadata records: the first record that is no segment
/// fails the run; otherwise all are kept, in their order.
pub open spec fn on_extracted(
    pre: PipelineView,
    raws: Seq<(u8, Seq<u8>)>,
    post: PipelineView,
    action: Action,
) -> bool {
    match first_rejected(raws) {
        Some(i) => fails(pre, post, action, PipelineError::Decode(rejection(raws[i])->Some_0)),
        None => {
            &&& post == (PipelineView { stage: Stage::Decode, segments: raws, ..pre })
            &&& action is Decode
        },
    }
}

/// The grid that the decoded pixels make, if they fill the dimensions.
pub open spec fn decoded_grid(width: usize, height: usize, pixels: Seq<[u8; 3]>) -> Option<
    GridView,
> {
    if width * height == pixels.len() && width <= u32::MAX && height <= u32::MAX {
        Some(GridView { width: width as nat, height: height as nat, data: flattened(pixels) })
    } else {
        None
    }
}

/// The step on the decoded pixels: pixels that do not fill their dimensions
/// fail the run, and so does a resize that is refused; otherwise the image is
/// resized to the dimensions asked for, or to its own where none were asked
/// for, and handed out for sharpening.
pub open spec fn on_decoded(
    pre: PipelineView,
    width: usize,
    height: usize,
    pixels: Seq<[u8; 3]>,
    post: PipelineView,
    action: Action,
) -> bool {
    match decoded_grid(width, height, pixels) {
        None => fails(pre, post, action, PipelineError::Decode(DecodeError::PixelCount)),
        Some(grid) => {
            let target = pre.config.target_spec(width as u32, height as u32);
            match crate::resample::refusal(grid, target.0, target.1) {
                Some(e) => fails(pre, post, action, PipelineError::Validation(e)),
                None => {
                    &&& post == (PipelineView { stage: Stage::Resample, target, ..pre })
                    &&& action matches Action::Sharpen(resized)
                    &&& resized@ == crate::resample::resized(grid, target.0, target.1)
                },
            }
        },
    }
}

/// The step on the sharpened samples: samples that do not fill the output
/// dimensions fail the run, and so does an encoding that is refused or that
/// the codec gives up; otherwise the output is the stream that the codec
/// makes of the samples and of every segment of the input, in order, with
/// the output dimensions declared.
pub open spec fn on_sharpened(
    pre: PipelineView,
    samples: Seq<u8>,
    post: PipelineView,
    action: Action,
) -> bool {
    let grid = GridView { width: pre.target.0 as nat, height: pre.target.1 as nat, data: samples };
    if !grid.consistent() {
        fails(pre, post, action, PipelineError::Validation(ValidationError::BufferMismatch))
    } else {
        match crate::encode::refusal(grid, pre.config.quality) {
            Some(e) => fails(pre, post, action, PipelineError::Encode(e)),
            None => {
                ||| {
                    &&& post == (PipelineView { stage: Stage::Done, ..pre })
                    &&& action matches Action::Write(result)
                    &&& result.width == pre.target.0
                    &&& result.height == pre.target.1
                    &&& result.bytes@ == jpeg_stream(
                        pre.config.quality as nat,
                        pre.target.0 as nat,
                        pre.target.1 as nat,
                        pre.segments,
                        samples,
                    )
                }
                ||| fails(pre, post, action, PipelineError::Encode(EncodeError::NoOutput))
            },
        }
    }
}

/// What a step may do: every pair of a stage and the event it waits for has
/// its own rule; a reported failure ends the run with the error reported; any
/// other event ends it as out of order.  From `Done` and `Failed` nothing
/// moves.
pub open spec fn allowed(pre: PipelineView, event: Event, post: PipelineView, action: Action) -> bool {
    match (pre.stage, event) {
        (Stage::Done, _) | (Stage::Failed, _) => {
            &&& post == pre
            &&& action matches Action::Abort(e)
            &&& e == PipelineError::OutOfOrder
        },
        (_, Event::Failed(error)) => fails(pre, post, action, error),
        (Stage::ReadInput, Event::InputRead(bytes)) => on_input(pre, bytes@, post, action),
        (Stage::Extract, Event::Extracted(raws)) => on_extracted(
            pre,
            raw_views(raws@),
            post,
            action,
        ),
        (Stage::Decode, Event::Decoded { width, height, pixels }) => on_decoded(
            pre,
            width,
            height,
            pixels@,
            post,
            action,
        ),
        (Stage::Resample, Event::Sharpened(samples)) => on_sharpened(pre, samples@, post, action),
        _ => fails(pre, post, action, PipelineError::OutOfOrder),
    }
}

impl Pipeline {
    /// A pipeline that waits for the bytes of the input.
    pub fn new(config: CompressionConfig) -> (pipeline: Pipeline)
        ensures
            pipeline@ == (PipelineView {
                stage: Stage::ReadInput,
                config,
                segments: Seq::<(u8, Seq<u8>)>::empty(),
                target: (0u32, 0u32),
            }),
    {
        let pipeline = Pipeline {
            stage: Stage::ReadInput,
            config,
            segments: Vec::new(),
            target: (0, 0),
        };
        proof {
            assert(coded(pipeline.segments@) =~= Seq::<(u8, Seq<u8>)>::empty());
        }
        pipeline
    }

    pub fn stage(&self) -> (stage: Stage)
        ensures
            stage == self@.stage,
    {
        self.stage
    }

    pub fn config(&self) -> (config: CompressionConfig)
        ensures
            config == self@.config,
    {
        self.config
    }

    /// The segments kept from the input, in order.
    pub fn segments(&self) -> (segments: &Vec<MetadataSegment>)
        ensures
            coded(segments@) == self@.segments,
    {
        &self.segments
    }

    /// The dimensions of the output, once the pixels have been decoded.
    pub fn target(&self) -> (target: (u32, u32))
        ensures
            target == self@.target,
    {
        self.target
    }

    fn fail(&mut self, error: PipelineError) -> (action: Action)
        ensures
            fails(old(self)@, final(self)@, action, error),
    {
        self.stage = Stage::Failed;
        Action::Abort(error)
    }

    fn take_input(&mut self, bytes: Vec<u8>) -> (action: Action)
        requires
            old(self)@.stage == Stage::ReadInput,
        ensures
            on_input(old(self)@, bytes@, final(self)@, action),
    {
        if bytes.len() >= 2 && bytes[0] == 0xFF && bytes[1] == 0xD8 {
            self.stage = Stage::Extract;
            Action::Extract(bytes)
        } else {
            self.fail(PipelineError::Decode(DecodeError::NotJpeg))
        }
    }

    fn take_records(&mut self, raws: Vec<RawSegment>) -> (action: Action)
        requires
            old(self)@.stage == Stage::Extract,
        ensures
            on_extracted(old(self)@, raw_views(raws@), final(self)@, action),
    {
        match collect(raws) {
            Err(e) => self.fail(PipelineError::Decode(e)),
            Ok(segments) => {
                self.segments = segments;
                self.stage = Stage::Decode;
                Action::Decode
            },
        }
    }

    fn take_pixels(&mut self, width: usize, height: usize, pixels: Vec<[u8; 3]>) -> (action: Action)
        requires
            old(self)@.stage == Stage::Decode,
        ensures
            on_decoded(old(self)@, width, height, pixels@, final(self)@, action),
    {
        let grid = match PixelGrid::from_pixels(width, height, &pixels) {
            Err(e) => { return self.fail(PipelineError::Decode(e)); },
            Ok(grid) => grid,
        };
        let target = self.config.target(grid.width(), grid.height());
        match resize(grid, target.0, target.1) {
            Err(e) => self.fail(PipelineError::Validation(e)),
            Ok(resized) => {
                self.target = target;
                self.stage = Stage::Resample;
                Action::Sharpen(resized)
            },
        }
    }

    fn take_samples(&mut self, samples: Vec<u8>) -> (action: Action)
        requires
            old(self)@.stage == Stage::Resample,
        ensures
            on_sharpened(old(self)@, samples@, final(self)@, action),
    {
        let (width, height) = self.target;
        let grid = match PixelGrid::new(width, height, samples) {
            Err(e) => { return self.fail(PipelineError::Validation(e)); },
            Ok(grid) => grid,
        };
        match encode(&grid, &self.segments, self.config.quality) {
            Err(e) => self.fail(PipelineError::Encode(e)),
            Ok(bytes) => {
                self.stage = Stage::Done;
                Action::Write(CompressionResult { bytes, width, height })
            },
        }
    }

    /// Takes what the outside work produced and answers what is to be done
    /// next.
    pub fn step(&mut self, event: Event) -> (action: Action)
        ensures
            allowed(old(self)@, event, final(self)@, action),
    {
        match self.stage {
            Stage::Done | Stage::Failed => { return Action::Abort(PipelineError::OutOfOrder); },
            _ => {},
        }
        match event {
            Event::Failed(error) => self.fail(error),
            Event::InputRead(bytes) => {
                match self.stage {
                    Stage::ReadInput => self.take_input(bytes),
                    _ => self.fail(PipelineError::OutOfOrder),
                }
            },
            Event::Extracted(raws) => {
                match self.stage {
                    Stage::Extract => self.take_records(raws),
                    _ => self.fail(PipelineError::OutOfOrder),
                }
            },
            Event::Decoded { width, height, pixels } => {
                match self.stage {
                    Stage::Decode => self.take_pixels(width, height, pixels),
                    _ => self.fail(PipelineError::OutOfOrder),
                }
            },
            Event::Sharpened(samples) => {
                match self.stage {
                    Stage::Resample => self.take_samples(samples),
                    _ => self.fail(PipelineError::OutOfOrder),
                }
            },
        }
    }
}

/// Three steps in a row that lead from the extracted records to the output:
/// the records are taken, the pixels are taken and resized, the sharpened
/// samples are taken and encoded.
pub open spec fn completes(
    start: PipelineView,
    raws: Vec<RawSegment>,
    width: usize,
    height: usize,
    pixels: Vec<[u8; 3]>,
    samples: Vec<u8>,
    output: CompressionResult,
) -> bool {
    exists|kept: PipelineView, resized: PipelineView, end: PipelineView, grid: PixelGrid|
        {
            &&& start.stage == Stage::Extract
            &&& #[trigger] allowed(start, Event::Extracted(raws), kept, Action::Decode)
            &&& #[trigger] allowed(
                kept,
                Event::Decoded { width, height, pixels },
                resized,
                Action::Sharpen(grid),
            )
            &&& #[trigger] allowed(resized, Event::Sharpened(samples), end, Action::Write(output))
        }
}

/// Every metadata record of the input reaches the output: whatever width,
/// height and quality are asked for, the stream that a completed run writes
/// is the one the codec makes of all the records extracted, in the order of
/// the input and with their payloads as they were.
pub proof fn lemma_output_carries_every_segment(
    start: PipelineView,
    raws: Vec<RawSegment>,
    width: usize,
    height: usize,
    pixels: Vec<[u8; 3]>,
    samples: Vec<u8>,
    output: CompressionResult,
)
    requires
        completes(start, raws, width, height, pixels, samples, output),
    ensures
        first_rejected(raw_views(raws@)) is None,
        output.bytes@ == jpeg_stream(
            start.config.quality as nat,
            output.width as nat,
            output.height as nat,
            raw_views(raws@),
            samples@,
        ),
{
}

/// The output has exactly the dimensions asked for: the width that was
/// given, or that of the source where none was given, and the height
/// likewise; and the samples that were encoded fill them.
pub proof fn lemma_output_has_target_dimensions(
    start: PipelineView,
    raws: Vec<RawSegment>,
    width: usize,
    height: usize,
    pixels: Vec<[u8; 3]>,
    samples: Vec<u8>,
    output: CompressionResult,
)
    requires
        completes(start, raws, width, height, pixels, samples, output),
    ensures
        width <= u32::MAX,
        height <= u32::MAX,
        output.width == match start.config.width {
            Some(w) => w,
            None => width as u32,
        },
        output.height == match start.config.height {
            Some(h) => h,
            None => height as u32,
        },
        samples@.len() == 3 * output.width * output.height,
{
}

/// Whether a source and what is asked of it are within what the library
/// carries out: the source has pixels and is no larger than a JPEG frame,
/// every width and height asked for is at least 1, the output is no larger
/// than the codec encodes, the quality factor is at most 100, and the buffers
/// of the resize can be allocated.
pub open spec fn feasible(config: CompressionConfig, width: usize, height: usize) -> bool {
    let target = config.target_spec(width as u32, height as u32);
    &&& config.valid()
    &&& 1 <= width <= crate::resample::MAX_SOURCE_DIMENSION
    &&& 1 <= height <= crate::resample::MAX_SOURCE_DIMENSION
    &&& target.0 <= crate::codec::MAX_DIMENSION
    &&& target.1 <= crate::codec::MAX_DIMENSION
    &&& crate::resample::allocatable(width as nat, target.0 as nat, target.1 as nat)
}

/// A feasible request is not refused.  Pixels that fill their dimensions are
/// resized and handed out for sharpening, also where the target equals the
/// source dimensions; samples that fill the output are encoded, and the run
/// then ends with the output unless the codec gives no stream.
pub proof fn lemma_feasible_request_is_carried_out(
    kept: PipelineView,
    width: usize,
    height: usize,
    pixels: Vec<[u8; 3]>,
    resized: PipelineView,
    first: Action,
    samples: Vec<u8>,
    end: PipelineView,
    second: Action,
)
    requires
        kept.stage == Stage::Decode,
        feasible(kept.config, width, height),
        pixels@.len() == width * height,
        allowed(kept, Event::Decoded { width, height, pixels }, resized, first),
        samples@.len() == 3 * resized.target.0 * resized.target.1,
        allowed(resized, Event::Sharpened(samples), end, second),
    ensures
        first is Sharpen,
        resized.stage == Stage::Resample,
        resized.target == kept.config.target_spec(width as u32, height as u32),
        first->Sharpen_0@.width == resized.target.0,
        first->Sharpen_0@.height == resized.target.1,
        second is Write || (second matches Action::Abort(e) && e == PipelineError::Encode(
            EncodeError::NoOutput,
        )),
        second matches Action::Write(output) ==> end.stage == Stage::Done && output.width
            == resized.target.0 && output.height == resized.target.1,
{
}

} // verus!
