//! Read-only defaults and the parameters of one compression.

use vstd::prelude::*;
use crate::error::ValidationError;

verus! {

/// The quality factor used where none is asked for.
pub const DEFAULT_QUALITY: u8 = 70;

/// The highest quality factor.
pub const MAX_QUALITY: u8 = 100;

/// The sigma of the unsharp mask that follows every resize, in tenths.
pub const SHARPEN_SIGMA_TENTHS: u8 = 5;

/// The threshold of the unsharp mask that follows every resize.
pub const SHARPEN_THRESHOLD: i32 = 10;

/// The second at which a thumbnail is taken where none is asked for.
pub const DEFAULT_THUMBNAIL_SECOND: i64 = 1;

/// The name of the image written where none is asked for.
pub const DEFAULT_IMAGE_OUTPUT: &'static str = "output.jpg";

/// The name of the video written where none is asked for.
pub const DEFAULT_VIDEO_OUTPUT: &'static str = "output.mp4";

/// The parameters of one compression: a target width and height, each of
/// which may be left to the source image, and a quality factor.
#[derive(Clone, Copy, Debug, PartialEq, Eq, Structural)]
pub struct CompressionConfig {
    pub width: Option<u32>,
    pub height: Option<u32>,
    pub quality: u8,
}

/// The factor the codec is given for a requested quality: the request itself
/// from 0 to 100, the nearer end of that range for any other.
pub open spec fn clamped_quality(requested: int) -> u8 {
    if requested < 0 {
        0
    } else if requested > MAX_QUALITY {
        MAX_QUALITY
    } else {
        requested as u8
    }
}

/// Why a requested width or height is no dimension, if it is none.
pub open spec fn dimension_refusal(requested: Option<i64>) -> Option<ValidationError> {
    match requested {
        None => None,
        Some(n) => if n <= 0 {
            Some(ValidationError::EmptyDimension)
        } else if n > u32::MAX {
            Some(ValidationError::DimensionTooLarge)
        } else {
            None
        },
    }
}

/// The dimension that a valid request stands for.
pub open spec fn dimension_of(requested: Option<i64>) -> Option<u32> {
    match requested {
        None => None,
        Some(n) => Some(n as u32),
    }
}

fn dimension(requested: Option<i64>) -> (made: Result<Option<u32>, ValidationError>)
    ensures
        match dimension_refusal(requested) {
            Some(e) => made == Err::<Option<u32>, ValidationError>(e),
            None => made == Ok::<Option<u32>, ValidationError>(dimension_of(requested)),
        },
{
    match requested {
        None => Ok(None),
        Some(n) => {
            if n <= 0 {
                Err(ValidationError::EmptyDimension)
            } else if n > u32::MAX as i64 {
                Err(ValidationError::DimensionTooLarge)
            } else {
                Ok(Some(n as u32))
            }
        },
    }
}

/// Moves a requested quality into the range from 0 to 100.
pub fn clamp_quality(requested: i64) -> (quality: u8)
    ensures
        quality == clamped_quality(requested as int),
        quality <= MAX_QUALITY,
{
    if requested < 0 {
        0
    } else if requested > MAX_QUALITY as i64 {
        MAX_QUALITY
    } else {
        requested as u8
    }
}

impl CompressionConfig {
    /// Whether the parameters can be carried out: every dimension asked for
    /// is at least 1 and the quality factor at most 100.
    pub open spec fn valid(self) -> bool {
        &&& self.width matches Some(w) ==> w >= 1
        &&& self.height matches Some(h) ==> h >= 1
        &&& self.quality <= MAX_QUALITY
    }

    /// Makes the parameters of a compression from what was asked for.  A
    /// width is checked before a height; a quality that is not asked for is
    /// 70, and one outside 0 to 100 is moved to the nearer end.
    pub fn new(width: Option<i64>, height: Option<i64>, quality: Option<i64>) -> (made: Result<
        CompressionConfig,
        ValidationError,
    >)
        ensures
            match (dimension_refusal(width), dimension_refusal(height)) {
                (Some(e), _) => made == Err::<CompressionConfig, ValidationError>(e),
                (None, Some(e)) => made == Err::<CompressionConfig, ValidationError>(e),
                (None, None) => made == Ok::<CompressionConfig, ValidationError>(
                    CompressionConfig {
                        width: dimension_of(width),
                        height: dimension_of(height),
                        quality: match quality {
                            Some(q) => clamped_quality(q as int),
                            None => DEFAULT_QUALITY,
                        },
                    },
                ) && made->Ok_0.valid(),
            },
    {
        let width = match dimension(width) {
            Ok(w) => w,
            Err(e) => { return Err(e); },
        };
        let height = match dimension(height) {
            Ok(h) => h,
            Err(e) => { return Err(e); },
        };
        let quality = match quality {
            Some(q) => clamp_quality(q),
            None => DEFAULT_QUALITY,
        };
        Ok(CompressionConfig { width, height, quality })
    }

    /// The dimensions of the output for a source of the given dimensions:
    /// each one as asked for, or that of the source where none was asked for.
    pub open spec fn target_spec(self, source_width: u32, source_height: u32) -> (u32, u32) {
        (
            match self.width {
                Some(w) => w,
                None => source_width,
            },
            match self.height {
                Some(h) => h,
                None => source_height,
            },
        )
    }

    #[verifier::when_used_as_spec(target_spec)]
    pub fn target(self, source_width: u32, source_height: u32) -> (target: (u32, u32))
        ensures
            target == self.target_spec(source_width, source_height),
    {
        let width = match self.width {
            Some(w) => w,
            None => source_width,
        };
        let height = match self.height {
            Some(h) => h,
            None => source_height,
        };
        (width, height)
    }
}

/// The output dimensions are stable: an image that already has them keeps
/// them when the same parameters are applied to it again.  Where nothing is
/// asked for they are those of the source.
pub proof fn lemma_target_is_stable(config: CompressionConfig, width: u32, height: u32)
    ensures
        ({
            let target = config.target_spec(width, height);
            config.target_spec(target.0, target.1) == target
        }),
        config.width is None && config.height is None ==> config.target_spec(width, height) == (
            width,
            height,
        ),
{
}

} // verus!
