//! The resampler: scales a pixel grid to a requested resolution with a
//! Lanczos filter of radius 3.
//!
//! The sharpening pass that follows every resize works on floating-point
//! parameters and is applied by the caller to the grid that comes out of
//! `resize`.

use vstd::prelude::*;
use crate::codec::MAX_DIMENSION;
use crate::error::ValidationError;
use crate::grid::{GridView, PixelGrid};

verus! {

/// The largest width or height of a grid that is resized: the largest a JPEG
/// frame declares.
pub const MAX_SOURCE_DIMENSION: u32 = 65535;

/// The samples that the `image` crate's Lanczos filter of radius 3 makes of
/// a full-colour image when it scales it to new dimensions.
pub uninterp spec fn lanczos3_resized(
    data: Seq<u8>,
    width: nat,
    height: nat,
    new_width: nat,
    new_height: nat,
) -> Seq<u8>;

/// Whether the buffers of a resize can be allocated: the intermediate image
/// holds four 32-bit samples for each of width x new_height pixels, the
/// result three 8-bit samples for each of new_width x new_height pixels.
pub open spec fn allocatable(width: nat, new_width: nat, new_height: nat) -> bool {
    16 * width * new_height <= isize::MAX && 3 * new_width * new_height <= isize::MAX
}

/// Whether the filter places its windows exactly enough: it computes pixel
/// positions in 32-bit floating point, which holds every position up to
/// 65535.5 to within a hundredth of a pixel, so that the pixel nearest to the
/// centre of a window always lies in the window and carries weight.  Beyond
/// 2^24 pixels a window can be left with no weight at all, and the filter
/// then gives up.
pub open spec fn placeable(width: nat, height: nat, new_width: nat, new_height: nat) -> bool {
    &&& width <= MAX_SOURCE_DIMENSION
    &&& height <= MAX_SOURCE_DIMENSION
    &&& new_width <= MAX_DIMENSION
    &&& new_height <= MAX_DIMENSION
}

/// `image::DynamicImage::resize_exact` with `FilterType::Lanczos3` on a
/// full-colour image made of the samples by `image::RgbImage::from_raw`, and
/// the samples of the result.  `from_raw` gives nothing where the buffer is
/// too short for the dimensions.  The filter reads source pixels, allocates
/// its buffers and divides by the sum of its weights without a check, hence
/// the conditions: there are pixels to read, the buffers can be allocated,
/// and no dimension is so large that a window is misplaced.  Its result has
/// exactly the new dimensions.
#[verifier::external_body]
fn lanczos3(data: Vec<u8>, width: u32, height: u32, new_width: u32, new_height: u32) -> (out:
    Option<Vec<u8>>)
    requires
        width >= 1,
        height >= 1,
        new_width >= 1,
        new_height >= 1,
        placeable(width as nat, height as nat, new_width as nat, new_height as nat),
        allocatable(width as nat, new_width as nat, new_height as nat),
    ensures
        out is Some <==> data@.len() >= 3 * width * height,
        out matches Some(samples) ==> samples@ == lanczos3_resized(
            data@,
            width as nat,
            height as nat,
            new_width as nat,
            new_height as nat,
        ) && samples@.len() == 3 * new_width * new_height,
{
    let source = image::RgbImage::from_raw(width, height, data)?;
    let scaled = image::DynamicImage::ImageRgb8(source).resize_exact(
        new_width,
        new_height,
        image::imageops::FilterType::Lanczos3,
    );
    Some(scaled.into_rgb8().into_raw())
}

/// Why a grid cannot be scaled to a target, if it cannot: an empty source or
/// target comes first; then a source beyond 65535 or a target beyond 65500
/// pixels in either direction, and a size beyond what can be allocated.
pub open spec fn refusal(grid: GridView, new_width: u32, new_height: u32) -> Option<
    ValidationError,
> {
    if grid.width == 0 || grid.height == 0 || new_width == 0 || new_height == 0 {
        Some(ValidationError::EmptyDimension)
    } else if !placeable(grid.width, grid.height, new_width as nat, new_height as nat)
        || !allocatable(grid.width, new_width as nat, new_height as nat) {
        Some(ValidationError::DimensionTooLarge)
    } else {
        None
    }
}

/// The grid that a resize makes of a grid.
pub open spec fn resized(grid: GridView, new_width: u32, new_height: u32) -> GridView {
    GridView {
        width: new_width as nat,
        height: new_height as nat,
        data: lanczos3_resized(
            grid.data,
            grid.width,
            grid.height,
            new_width as nat,
            new_height as nat,
        ),
    }
}

/// Whether the buffers of a resize can be allocated.
fn can_allocate(width: u32, new_width: u32, new_height: u32) -> (ok: bool)
    ensures
        ok == allocatable(width as nat, new_width as nat, new_height as nat),
{
    let limit: u128 = isize::MAX as u128;
    assert(16 * (width as u128) * (new_height as u128) <= 16 * 0xffff_ffff * 0xffff_ffff
        && 16 * (width as u128) * (new_height as u128) == 16 * (width as nat) * (new_height as nat))
        by (nonlinear_arith)
        requires
            width <= 0xffff_ffff,
            new_height <= 0xffff_ffff,
    ;
    assert(3 * (new_width as u128) * (new_height as u128) <= 3 * 0xffff_ffff * 0xffff_ffff
        && 3 * (new_width as u128) * (new_height as u128) == 3 * (new_width as nat) * (
    new_height as nat)) by (nonlinear_arith)
        requires
            new_width <= 0xffff_ffff,
            new_height <= 0xffff_ffff,
    ;
    let intermediate: u128 = 16 * (width as u128) * (new_height as u128);
    let result: u128 = 3 * (new_width as u128) * (new_height as u128);
    intermediate <= limit && result <= limit
}

/// Scales a grid to exactly `new_width` x `new_height` pixels.  A target
/// that equals the source dimensions is no special case here: the call is
/// made all the same, and the `image` crate then hands back a copy of the
/// samples.  A source or a target without pixels is refused, and so is a
/// source beyond 65535 pixels, a target beyond 65500 pixels in either
/// direction, and a size whose buffers cannot be allocated.
pub fn resize(grid: PixelGrid, new_width: u32, new_height: u32) -> (made: Result<
    PixelGrid,
    ValidationError,
>)
    ensures
        match refusal(grid@, new_width, new_height) {
            Some(e) => made == Err::<PixelGrid, ValidationError>(e),
            None => made is Ok && made->Ok_0@ == resized(grid@, new_width, new_height),
        },
{
    let width = grid.width();
    let height = grid.height();
    if width == 0 || height == 0 || new_width == 0 || new_height == 0 {
        return Err(ValidationError::EmptyDimension);
    }
    if width > MAX_SOURCE_DIMENSION || height > MAX_SOURCE_DIMENSION || new_width > MAX_DIMENSION
        || new_height > MAX_DIMENSION {
        return Err(ValidationError::DimensionTooLarge);
    }
    if !can_allocate(width, new_width, new_height) {
        return Err(ValidationError::DimensionTooLarge);
    }
    let data = grid.into_data();
    match lanczos3(data, width, height, new_width, new_height) {
        Some(samples) => PixelGrid::new(new_width, new_height, samples),
        None => Err(ValidationError::BufferMismatch),
    }
}

/// A resize to the dimensions the grid already has is not refused and gives
/// a grid of the same dimensions, for every grid that has pixels, that is
/// not beyond 65500 pixels in either direction, and whose buffers can be
/// allocated.
pub proof fn lemma_resize_to_own_size(grid: GridView, width: u32, height: u32)
    requires
        grid.width == width,
        grid.height == height,
        1 <= width <= MAX_DIMENSION,
        1 <= height <= MAX_DIMENSION,
        allocatable(grid.width, width as nat, height as nat),
    ensures
        refusal(grid, width, height) is None,
        resized(grid, width, height).width == grid.width,
        resized(grid, width, height).height == grid.height,
{
}

} // verus!
