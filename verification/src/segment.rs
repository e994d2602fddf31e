//! Metadata segments: the auxiliary blocks (EXIF, colour profile, comment and
//! the like) that travel beside the pixel data of an encoded image and have to
//! survive recompression in the order of the input.

use vstd::prelude::*;
use crate::error::DecodeError;

verus! {

/// The marker byte of a comment segment.
pub const COMMENT_CODE: u8 = 0xFE;

/// The marker byte of the first application segment; the sixteen application
/// segments take consecutive codes from here.
pub const FIRST_APP_CODE: u8 = 0xE0;

/// The highest application segment number.
pub const LAST_APP_NUMBER: u8 = 15;

/// The longest payload a segment can carry: its two length bytes count
/// themselves and leave 65533 values for the payload.
pub const MAX_PAYLOAD: usize = 65533;

/// Which category of metadata a segment belongs to.
#[derive(Clone, Copy, Debug, PartialEq, Eq, Structural)]
pub enum MarkerKind {
    /// Free text.
    Comment,
    /// Application data, numbered 0 to 15.
    App(u8),
}

impl MarkerKind {
    /// Whether the kind names a segment that exists.
    pub open spec fn valid(self) -> bool {
        match self {
            MarkerKind::Comment => true,
            MarkerKind::App(n) => n <= LAST_APP_NUMBER,
        }
    }

    /// The marker byte that announces a segment of this kind.
    pub open spec fn code_spec(self) -> u8
        recommends
            self.valid(),
    {
        match self {
            MarkerKind::Comment => COMMENT_CODE,
            MarkerKind::App(n) => (FIRST_APP_CODE + n) as u8,
        }
    }

    /// The kind that a marker byte announces, if it announces metadata.
    pub open spec fn from_code_spec(code: u8) -> Option<MarkerKind> {
        if code == COMMENT_CODE {
            Some(MarkerKind::Comment)
        } else if FIRST_APP_CODE <= code <= FIRST_APP_CODE + LAST_APP_NUMBER {
            Some(MarkerKind::App((code - FIRST_APP_CODE) as u8))
        } else {
            None
        }
    }

    pub fn is_valid(self) -> (ok: bool)
        ensures
            ok == self.valid(),
    {
        match self {
            MarkerKind::Comment => true,
            MarkerKind::App(n) => n <= LAST_APP_NUMBER,
        }
    }

    #[verifier::when_used_as_spec(code_spec)]
    pub fn code(self) -> (code: u8)
        requires
            self.valid(),
        ensures
            code == self.code_spec(),
    {
        match self {
            MarkerKind::Comment => COMMENT_CODE,
            MarkerKind::App(n) => FIRST_APP_CODE + n,
        }
    }

    pub fn from_code(code: u8) -> (kind: Option<MarkerKind>)
        ensures
            kind == MarkerKind::from_code_spec(code),
    {
        if code == COMMENT_CODE {
            Some(MarkerKind::Comment)
        } else if FIRST_APP_CODE <= code && code <= FIRST_APP_CODE + LAST_APP_NUMBER {
            Some(MarkerKind::App(code - FIRST_APP_CODE))
        } else {
            None
        }
    }
}

/// Every valid kind is recovered from its marker byte, and every byte that
/// announces metadata is the marker byte of the kind it announces.
pub proof fn lemma_code_round_trip(kind: MarkerKind, code: u8)
    ensures
        kind.valid() ==> MarkerKind::from_code_spec(kind.code_spec()) == Some(kind),
        MarkerKind::from_code_spec(code) matches Some(k) ==> k.valid() && k.code_spec() == code,
{
}

/// A metadata record as a decoder hands it over: a marker byte and the bytes
/// that followed it.
pub struct RawSegment {
    pub code: u8,
    pub payload: Vec<u8>,
}

impl View for RawSegment {
    type V = (u8, Seq<u8>);

    open spec fn view(&self) -> (u8, Seq<u8>) {
        (self.code, self.payload@)
    }
}

/// Why a record is no metadata segment, if it is none: its marker byte
/// announces no metadata, or its payload is too long.
pub open spec fn rejection(raw: (u8, Seq<u8>)) -> Option<DecodeError> {
    if MarkerKind::from_code_spec(raw.0) is None {
        Some(DecodeError::UnknownMarker)
    } else if raw.1.len() > MAX_PAYLOAD {
        Some(DecodeError::SegmentTooLong)
    } else {
        None
    }
}

/// The first record of a sequence that is no metadata segment, by position.
pub open spec fn first_rejected(raws: Seq<(u8, Seq<u8>)>) -> Option<int> {
    if exists|i: int| 0 <= i < raws.len() && rejection(#[trigger] raws[i]) is Some {
        Some(
            choose|i: int|
                0 <= i < raws.len() && rejection(#[trigger] raws[i]) is Some && forall|j: int|
                    0 <= j < i ==> rejection(#[trigger] raws[j]) is None,
        )
    } else {
        None
    }
}

/// What a segment is, apart from how it is stored.
pub struct SegmentView {
    pub kind: MarkerKind,
    pub payload: Seq<u8>,
}

impl SegmentView {
    /// The segment as the pair of marker byte and payload that a codec sees.
    pub open spec fn coded(self) -> (u8, Seq<u8>) {
        (self.kind.code_spec(), self.payload)
    }
}

/// One metadata segment: a kind and an opaque payload.  The kind is always
/// valid and the payload always fits into a segment.
pub struct MetadataSegment {
    kind: MarkerKind,
    payload: Vec<u8>,
}

impl View for MetadataSegment {
    type V = SegmentView;

    closed spec fn view(&self) -> SegmentView {
        SegmentView { kind: self.kind, payload: self.payload@ }
    }
}

impl MetadataSegment {
    #[verifier::type_invariant]
    spec fn well_formed(&self) -> bool {
        self.kind.valid() && self.payload@.len() <= MAX_PAYLOAD
    }

    /// Makes a segment from a decoder's record, or says why the record is
    /// none.  The payload is taken over as it is.
    pub fn from_raw(raw: RawSegment) -> (made: Result<MetadataSegment, DecodeError>)
        ensures
            match rejection(raw@) {
                Some(e) => made == Err::<MetadataSegment, DecodeError>(e),
                None => made is Ok && made->Ok_0@ == (SegmentView {
                    kind: MarkerKind::from_code_spec(raw.code)->Some_0,
                    payload: raw.payload@,
                }) && made->Ok_0@.coded() == raw@,
            },
    {
        match MarkerKind::from_code(raw.code) {
            None => Err(DecodeError::UnknownMarker),
            Some(kind) => {
                if raw.payload.len() > MAX_PAYLOAD {
                    Err(DecodeError::SegmentTooLong)
                } else {
                    Ok(MetadataSegment { kind, payload: raw.payload })
                }
            },
        }
    }

    pub fn kind(&self) -> (kind: MarkerKind)
        ensures
            kind == self@.kind,
            kind.valid(),
    {
        proof {
            use_type_invariant(self);
        }
        self.kind
    }

    pub fn payload(&self) -> (payload: &Vec<u8>)
        ensures
            payload@ == self@.payload,
            payload@.len() <= MAX_PAYLOAD,
    {
        proof {
            use_type_invariant(self);
        }
        &self.payload
    }
}

/// The segments of a sequence as the pairs of marker byte and payload that a
/// codec sees, in the same order.
pub open spec fn coded(segments: Seq<MetadataSegment>) -> Seq<(u8, Seq<u8>)> {
    Seq::new(segments.len(), |i: int| segments[i]@.coded())
}

/// The records of a sequence as pairs, in the same order.
pub open spec fn raw_views(raws: Seq<RawSegment>) -> Seq<(u8, Seq<u8>)> {
    Seq::new(raws.len(), |i: int| raws[i]@)
}

/// Turns the records of a decoder into segments, keeping their order.  The
/// first record that is no metadata segment fails the whole sequence with its
/// own error.
pub fn collect(raws: Vec<RawSegment>) -> (made: Result<Vec<MetadataSegment>, DecodeError>)
    ensures
        match first_rejected(raw_views(raws@)) {
            Some(i) => made == Err::<Vec<MetadataSegment>, DecodeError>(
                rejection(raw_views(raws@)[i])->Some_0,
            ),
            None => made is Ok && coded(made->Ok_0@) == raw_views(raws@),
        },
{
    let ghost all = raw_views(raws@);
    let ghost items = raws@;
    let mut segments: Vec<MetadataSegment> = Vec::new();
    for raw in it: raws
        invariant
            it.seq() == items,
            all == raw_views(items),
            segments@.len() == it.index(),
            forall|j: int| 0 <= j < it.index() ==> rejection(#[trigger] all[j]) is None,
            forall|j: int| 0 <= j < it.index() ==> (#[trigger] segments@[j])@.coded() == all[j],
    {
        let ghost position = it.index();
        assert(raw@ == all[position]);
        match MetadataSegment::from_raw(raw) {
            Err(e) => {
                assert(rejection(all[position]) == Some(e));
                return Err(e);
            },
            Ok(segment) => {
                segments.push(segment);
            },
        }
    }
    assert(coded(segments@) =~= all);
    Ok(segments)
}

} // verus!
