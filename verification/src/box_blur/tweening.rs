//! Animation of the box blur between two settings.

use vstd::prelude::*;

use crate::box_blur::settings::BoxBlurSettings;
use crate::range::{force_odd, odd_at_least};
use crate::BlurSettingLens;

verus! {

/// A lens to animate the box blur: it holds the settings at the start and
/// at the end of the animation, both legal.
///
/// The animation moves the kernel size and the number of passes from the
/// one to the other. The host interpolates; the lens writes what it
/// interpolated to a camera.
#[derive(Clone, Copy, Debug)]
pub struct BoxBlurLens {
    /// Box blur settings at the start of the tweening.
    start: BoxBlurSettings,
    /// Box blur settings at the end of the tweening.
    end: BoxBlurSettings,
}

impl BlurSettingLens<BoxBlurSettings> for BoxBlurLens {
    fn new(start: BoxBlurSettings, end: BoxBlurSettings) -> (lens: Self)
        ensures
            lens.start_settings() == start.legalized(),
            lens.end_settings() == end.legalized(),
    {
        BoxBlurLens { start: start.create_concrete(), end: end.create_concrete() }
    }
}

impl BoxBlurLens {
    /// The settings at the start of the tweening.
    pub closed spec fn start_settings(&self) -> BoxBlurSettings {
        self.start
    }

    /// The settings at the end of the tweening.
    pub closed spec fn end_settings(&self) -> BoxBlurSettings {
        self.end
    }

    /// The settings at the start of the tweening.
    pub fn start(&self) -> (settings: BoxBlurSettings)
        ensures
            settings == self.start_settings(),
    {
        self.start
    }

    /// The settings at the end of the tweening.
    pub fn end(&self) -> (settings: BoxBlurSettings)
        ensures
            settings == self.end_settings(),
    {
        self.end
    }

    /// Writes an interpolated number of passes and an interpolated kernel
    /// size to the settings of a camera. An even size is replaced by the
    /// odd one that follows it.
    pub fn apply(&self, target: &mut BoxBlurSettings, passes: u32, kernel_size: u32)
        ensures
            final(target).passes == passes,
            final(target).kernel_size == odd_at_least(kernel_size as int),
            final(target).kernel_size % 2 == 1,
    {
        target.passes = passes;
        target.kernel_size = force_odd(kernel_size);
    }
}

} // verus!
