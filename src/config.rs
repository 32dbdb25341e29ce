//! Grid resolution and the integer checks of a domain model.

use vstd::prelude::*;

verus! {

/// Pixel width (`x`) and height (`y`) of a sampled grid.
#[derive(Clone, Copy, Debug, PartialEq, Eq, Structural)]
pub struct Resolution {
    pub x: usize,
    pub y: usize,
}

/// Why a domain model cannot be evaluated.
#[derive(Clone, Copy, Debug, PartialEq, Eq, Structural)]
pub enum ConfigError {
    /// An axis has fewer than two samples, so its step is undefined.
    DegenerateAxis { count: usize },
    /// The real interval does not have `start < end`.
    InvertedXInterval,
    /// The imaginary interval does not have `start < end`.
    InvertedYInterval,
    /// The escape threshold is not positive.
    NonPositiveThreshold,
    /// The iteration cap is zero.
    ZeroIterations,
}

/// Smallest number of samples on an axis.
pub const MIN_AXIS_SAMPLES: usize = 2;

impl Resolution {
    /// The resolution of a freshly opened view, 1920 by 1080.
    pub fn default_view() -> (r: Resolution)
        ensures
            r.x == 1920,
            r.y == 1080,
    {
        Resolution { x: 1920, y: 1080 }
    }
}

/// Accepts an axis of `count` samples when it has at least two.
pub fn check_axis_count(count: usize) -> (r: Result<(), ConfigError>)
    ensures
        r is Ok <==> count >= MIN_AXIS_SAMPLES,
        r is Err ==> r == Err::<(), ConfigError>(ConfigError::DegenerateAxis { count }),
{
    if count < MIN_AXIS_SAMPLES {
        Err(ConfigError::DegenerateAxis { count })
    } else {
        Ok(())
    }
}

/// Accepts the integer part of a domain model: both axes have at least two
/// samples and the iteration cap is positive. The width is checked first.
pub fn check_grid(resolution: Resolution, max_iters: usize) -> (r: Result<(), ConfigError>)
    ensures
        r is Ok <==> (resolution.x >= MIN_AXIS_SAMPLES && resolution.y >= MIN_AXIS_SAMPLES
            && max_iters > 0),
        resolution.x < MIN_AXIS_SAMPLES ==> r == Err::<(), ConfigError>(
            ConfigError::DegenerateAxis { count: resolution.x },
        ),
        resolution.x >= MIN_AXIS_SAMPLES && resolution.y < MIN_AXIS_SAMPLES ==> r == Err::<
            (),
            ConfigError,
        >(ConfigError::DegenerateAxis { count: resolution.y }),
        resolution.x >= MIN_AXIS_SAMPLES && resolution.y >= MIN_AXIS_SAMPLES && max_iters == 0
            ==> r == Err::<(), ConfigError>(ConfigError::ZeroIterations),
{
    check_axis_count(resolution.x)?;
    check_axis_count(resolution.y)?;
    if max_iters == 0 {
        return Err(ConfigError::ZeroIterations);
    }
    Ok(())
}

} // verus!
