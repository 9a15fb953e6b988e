//! Animation of the Gaussian blur between two settings.

use vstd::prelude::*;

use crate::gaussian_blur::settings::GaussianBlurSettings;
use crate::range::{force_odd, odd_at_least};

verus! {

/// A lens to animate the Gaussian blur: it holds the settings at the
/// start and at the end of the animation, both legal.
///
/// The animation moves the kernel size from the one to the other. The
/// host interpolates; the lens writes what it interpolated to a camera.
#[derive(Clone, Copy, Debug)]
pub struct GaussianBlurLens {
    /// Gaussian blur settings at the start of the tweening.
    start: GaussianBlurSettings,
    /// Gaussian blur settings at the end of the tweening.
    end: GaussianBlurSettings,
}

impl GaussianBlurLens {
    /// The settings at the start of the tweening.
    pub closed spec fn start_settings(&self) -> GaussianBlurSettings {
        self.start
    }

    /// The settings at the end of the tweening.
    pub closed spec fn end_settings(&self) -> GaussianBlurSettings {
        self.end
    }

    /// Creates a lens to tween between the `start` and the `end` setting,
    /// each made legal.
    pub fn new(start: GaussianBlurSettings, end: GaussianBlurSettings) -> (lens: Self)
        ensures
            lens.start_settings() == start.legalized(),
            lens.end_settings() == end.legalized(),
    {
        GaussianBlurLens { start: start.create_concrete(), end: end.create_concrete() }
    }

    /// The settings at the start of the tweening.
    pub fn start(&self) -> (settings: GaussianBlurSettings)
        ensures
            settings == self.start_settings(),
    {
        self.start
    }

    /// The settings at the end of the tweening.
    pub fn end(&self) -> (settings: GaussianBlurSettings)
        ensures
            settings == self.end_settings(),
    {
        self.end
    }

    /// Writes an interpolated kernel size to the settings of a camera. An
    /// even size is replaced by the odd one that follows it; the sampling
    /// distance factor of the camera stays as it is.
    pub fn apply(&self, target: &mut GaussianBlurSettings, kernel_size: u32)
        ensures
            final(target).kernel_size == odd_at_least(kernel_size as int),
            final(target).kernel_size % 2 == 1,
            final(target).sampling_distance_factor == old(target).sampling_distance_factor,
    {
        target.kernel_size = force_odd(kernel_size);
    }
}

} // verus!
