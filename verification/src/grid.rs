//! Pixel grids: width x height full-colour pixels of three 8-bit samples
//! (red, green, blue), stored row by row in one flat buffer.

use vstd::prelude::*;
use vstd::slice::slice_subrange;
use crate::error::{DecodeError, ValidationError};

verus! {

/// What a grid is, apart from how it is stored.
pub struct GridView {
    pub width: nat,
    pub height: nat,
    pub data: Seq<u8>,
}

impl GridView {
    /// The number of samples in one row.
    pub open spec fn row_len(self) -> nat {
        3 * self.width
    }

    /// Whether the buffer holds exactly the samples of the declared pixels.
    pub open spec fn consistent(self) -> bool {
        self.data.len() == 3 * self.width * self.height
    }

    /// The samples of one row.
    pub open spec fn row(self, line: int) -> Seq<u8> {
        self.data.subrange(line * self.row_len(), (line + 1) * self.row_len())
    }
}

/// The samples of a sequence of pixels, pixel after pixel.
pub open spec fn flattened(pixels: Seq<[u8; 3]>) -> Seq<u8> {
    Seq::new(3 * pixels.len(), |i: int| pixels[i / 3]@[i % 3])
}

/// A grid of pixels.  Its buffer always holds width x height x 3 samples.
pub struct PixelGrid {
    width: u32,
    height: u32,
    data: Vec<u8>,
}

impl View for PixelGrid {
    type V = GridView;

    closed spec fn view(&self) -> GridView {
        GridView { width: self.width as nat, height: self.height as nat, data: self.data@ }
    }
}

/// Where row `line` of a grid `width` pixels wide begins and ends in the flat
/// buffer, and that both lie inside a buffer of `height` such rows.
pub proof fn lemma_row_bounds(width: nat, height: nat, line: nat)
    requires
        line < height,
    ensures
        0 <= line * (3 * width) <= (line + 1) * (3 * width) <= 3 * width * height,
        (line + 1) * (3 * width) - line * (3 * width) == 3 * width,
{
    assert((line + 1) * (3 * width) == line * (3 * width) + 3 * width) by (nonlinear_arith);
    assert((line + 1) * (3 * width) <= height * (3 * width)) by (nonlinear_arith)
        requires
            line + 1 <= height,
    ;
    assert(height * (3 * width) == 3 * width * height) by (nonlinear_arith);
    assert(0 <= line * (3 * width)) by (nonlinear_arith);
}

impl PixelGrid {
    #[verifier::type_invariant]
    spec fn well_formed(&self) -> bool {
        self.data@.len() == 3 * (self.width as nat) * (self.height as nat)
    }

    /// Makes a grid from its dimensions and its samples.  A buffer of any
    /// other length than width x height x 3 is refused.
    pub fn new(width: u32, height: u32, data: Vec<u8>) -> (made: Result<PixelGrid, ValidationError>)
        ensures
            data@.len() != 3 * width * height ==> made == Err::<PixelGrid, ValidationError>(
                ValidationError::BufferMismatch,
            ),
            data@.len() == 3 * width * height ==> made is Ok && made->Ok_0@ == (GridView {
                width: width as nat,
                height: height as nat,
                data: data@,
            }),
    {
        assert(3 * (width as u128) * (height as u128) <= 3 * 0xffff_ffff * 0xffff_ffff)
            by (nonlinear_arith)
            requires
                width <= 0xffff_ffff,
                height <= 0xffff_ffff,
        ;
        let expected: u128 = 3 * (width as u128) * (height as u128);
        if data.len() as u128 != expected {
            Err(ValidationError::BufferMismatch)
        } else {
            Ok(PixelGrid { width, height, data })
        }
    }

    /// Makes a grid from the pixels a decoder read, scanline after scanline.
    /// The pixels must fill the announced dimensions exactly.
    pub fn from_pixels(width: usize, height: usize, pixels: &Vec<[u8; 3]>) -> (made: Result<
        PixelGrid,
        DecodeError,
    >)
        ensures
            width * height != pixels@.len() || width > u32::MAX || height > u32::MAX ==> made
                == Err::<PixelGrid, DecodeError>(DecodeError::PixelCount),
            width * height == pixels@.len() && width <= u32::MAX && height <= u32::MAX ==> made is Ok
                && made->Ok_0@ == (GridView {
                width: width as nat,
                height: height as nat,
                data: flattened(pixels@),
            }),
    {
        if width > u32::MAX as usize || height > u32::MAX as usize {
            return Err(DecodeError::PixelCount);
        }
        assert((width as u128) * (height as u128) <= 0xffff_ffff * 0xffff_ffff) by (nonlinear_arith)
            requires
                width <= 0xffff_ffff,
                height <= 0xffff_ffff,
        ;
        if (width as u128) * (height as u128) != pixels.len() as u128 {
            return Err(DecodeError::PixelCount);
        }
        let count = pixels.len();
        let mut data: Vec<u8> = Vec::new();
        let mut i: usize = 0;
        while i < count
            invariant
                count == pixels@.len(),
                i <= count,
                data@.len() == 3 * i,
                forall|k: int| 0 <= k < 3 * i ==> #[trigger] data@[k] == pixels@[k / 3]@[k % 3],
            decreases count - i,
        {
            let pixel = pixels[i];
            data.push(pixel[0]);
            data.push(pixel[1]);
            data.push(pixel[2]);
            i = i + 1;
        }
        assert(data@ =~= flattened(pixels@));
        assert(3 * (width as nat) * (height as nat) == 3 * (width * height)) by (nonlinear_arith);
        Ok(PixelGrid { width: width as u32, height: height as u32, data })
    }

    pub fn width(&self) -> (width: u32)
        ensures
            width == self@.width,
            self@.consistent(),
    {
        proof {
            use_type_invariant(self);
        }
        self.width
    }

    pub fn height(&self) -> (height: u32)
        ensures
            height == self@.height,
            self@.consistent(),
    {
        proof {
            use_type_invariant(self);
        }
        self.height
    }

    /// The samples, row after row.
    pub fn data(&self) -> (data: &Vec<u8>)
        ensures
            data@ == self@.data,
            self@.consistent(),
    {
        proof {
            use_type_invariant(self);
        }
        &self.data
    }

    /// Gives up the grid for its samples.
    pub fn into_data(self) -> (data: Vec<u8>)
        ensures
            data@ == self@.data,
            self@.consistent(),
    {
        proof {
            use_type_invariant(&self);
        }
        self.data
    }

    /// The samples of one row, or nothing where the grid has no such row.
    pub fn row(&self, line: u32) -> (row: Option<&[u8]>)
        ensures
            line >= self@.height ==> row is None,
            line < self@.height ==> row is Some && row->Some_0@ == self@.row(line as int)
                && row->Some_0@.len() == self@.row_len(),
    {
        proof {
            use_type_invariant(self);
        }
        if line >= self.height {
            None
        } else {
            proof {
                lemma_row_bounds(self.width as nat, self.height as nat, line as nat);
                assert(3 * (self.width as nat) <= self.data@.len());
                assert((line as nat) * (3 * (self.width as nat)) <= self.data@.len());
            }
            let held = self.data.len();
            let width = self.width as usize;
            assert(3 * width <= held);
            let row_len: usize = 3 * width;
            let start: usize = (line as usize) * row_len;
            Some(slice_subrange(self.data.as_slice(), start, start + row_len))
        }
    }
}

} // verus!
