//! Settings of the box blur and the uniforms derived from them.

use vstd::prelude::*;

use crate::cost::SamplingCost;
use crate::range::{
    clamp, clamped, legal_kernel_size, legalize_kernel_size, lemma_legal_kernel_size,
};
use crate::BlurSetting;

verus! {

/// The least number of times the box convolution is applied.
pub const PASSES_MIN: u32 = 1;

/// The greatest number of times the box convolution is applied.
pub const PASSES_MAX: u32 = 5;

/// Applies a box blur to a 2D or 3D camera.
#[derive(Clone, Copy, Debug, PartialEq, Eq, Structural)]
pub struct BoxBlurSettings {
    /// Kernel size of the box blur.
    /// - It is clamped to the range from 1 to 401 and must be odd: for an
    ///   even value the next odd value is used.
    /// - A value of 1 disables the effect.
    /// - It defaults to 21.
    ///
    /// The effect samples `2 * kernel_size * passes` texels per pixel.
    pub kernel_size: u32,
    /// The number of times the box convolution is applied in succession.
    /// More passes give a smoother blur with fewer box artefacts.
    /// - It is clamped to the range from 1 to 5.
    /// - It defaults to 2.
    pub passes: u32,
}

/// The values that the box blur shader consumes.
#[derive(Clone, Copy, Debug, PartialEq, Eq, Structural)]
pub struct BoxBlurUniforms {
    /// The legal kernel size.
    pub kernel_size: u32,
    /// The legal number of convolutions.
    pub passes: u32,
}

impl BoxBlurUniforms {
    /// What holds of uniforms that were derived from settings: the kernel
    /// is legal and blurs, and the number of convolutions is legal.
    pub open spec fn wf(self) -> bool {
        &&& 3 <= self.kernel_size <= 401
        &&& self.kernel_size % 2 == 1
        &&& PASSES_MIN <= self.passes <= PASSES_MAX
    }
}

impl Default for BoxBlurSettings {
    fn default() -> (settings: Self)
        ensures
            settings.kernel_size == 21,
            settings.passes == 2,
    {
        BoxBlurSettings { kernel_size: 21, passes: 2 }
    }
}

impl BlurSetting for BoxBlurSettings {
    open spec fn is_no_blur(&self) -> bool {
        self.kernel_size == 1
    }

    /// Every convolution takes a horizontal and a vertical pass.
    open spec fn pass_count(&self) -> nat {
        if self.kernel_size == 1 {
            0
        } else {
            2 * self.passes as nat
        }
    }

    open spec fn sampling_numerator(&self) -> nat {
        if self.kernel_size == 1 {
            0
        } else {
            2 * self.kernel_size as nat * self.passes as nat
        }
    }

    open spec fn sampling_denominator(&self) -> nat {
        1
    }

    proof fn lemma_no_blur_is_free(&self) {
    }

    fn no_blur() -> (setting: Self)
        ensures
            setting.kernel_size == 1,
            setting.passes == 1,
    {
        BoxBlurSettings { kernel_size: 1, passes: 1 }
    }

    fn sampling_per_pixel(&self) -> (cost: SamplingCost) {
        if self.kernel_size == 1 {
            SamplingCost { numerator: 0, denominator: 1 }
        } else {
            let per_pass: u64 = 2 * (self.kernel_size as u64);
            assert(per_pass * self.passes == 2 * self.kernel_size as nat * self.passes as nat)
                by (nonlinear_arith)
                requires
                    per_pass == 2 * self.kernel_size,
            ;
            SamplingCost { numerator: per_pass * (self.passes as u64), denominator: 1 }
        }
    }

    fn passes(&self) -> (n: u32) {
        if self.kernel_size == 1 {
            0
        } else {
            2 * self.passes
        }
    }
}

impl BoxBlurSettings {
    /// The settings with every field made legal for the shader.
    pub open spec fn legalized(self) -> BoxBlurSettings {
        BoxBlurSettings {
            kernel_size: legal_kernel_size(self.kernel_size as int) as u32,
            passes: clamped(self.passes as int, PASSES_MIN as int, PASSES_MAX as int) as u32,
        }
    }

    /// Whether the settings are legal as they stand.
    pub open spec fn is_legal(self) -> bool {
        self.legalized() == self
    }

    /// The uniforms that the settings project to: none where the legal
    /// kernel size is 1, which disables the effect.
    pub open spec fn projected(self) -> Option<BoxBlurUniforms> {
        let legal = self.legalized();
        if legal.kernel_size == 1 {
            None
        } else {
            Some(BoxBlurUniforms { kernel_size: legal.kernel_size, passes: legal.passes })
        }
    }

    /// Computes new settings in which every field is legal for the
    /// shader.
    pub fn create_concrete(&self) -> (concrete: BoxBlurSettings)
        ensures
            concrete == self.legalized(),
            concrete.is_legal(),
            concrete.kernel_size % 2 == 1,
            1 <= concrete.kernel_size <= 401,
            PASSES_MIN <= concrete.passes <= PASSES_MAX,
    {
        BoxBlurSettings {
            kernel_size: legalize_kernel_size(self.kernel_size),
            passes: clamp(self.passes, PASSES_MIN, PASSES_MAX),
        }
    }

    /// Projects the settings of a camera to the uniforms of its shader,
    /// or to nothing where the effect is disabled.
    pub fn extract_component(settings: &BoxBlurSettings) -> (out: Option<BoxBlurUniforms>)
        ensures
            out == settings.projected(),
            out is None <==> settings.legalized().is_no_blur(),
            out matches Some(uniforms) ==> uniforms.wf(),
    {
        let settings = settings.create_concrete();
        if settings.kernel_size == 1 {
            None
        } else {
            Some(BoxBlurUniforms { kernel_size: settings.kernel_size, passes: settings.passes })
        }
    }
}

/// Legalizing twice gives what legalizing once gives, for every raw value
/// of the kernel size and of the number of passes.
pub proof fn lemma_box_legalized_idempotent(settings: BoxBlurSettings)
    ensures
        settings.legalized().legalized() == settings.legalized(),
{
    lemma_legal_kernel_size(settings.kernel_size as int);
}

/// The legal kernel size is odd and lies between 1 and 401.
pub proof fn lemma_box_legalized_kernel_is_odd(settings: BoxBlurSettings)
    ensures
        settings.legalized().kernel_size % 2 == 1,
        1 <= settings.legalized().kernel_size <= 401,
{
    lemma_legal_kernel_size(settings.kernel_size as int);
}

/// Legal settings project to nothing exactly where they stand for no
/// blur, and the projection of raw settings is that of their legal form.
/// Raw settings that stand for no blur project to nothing as well.
pub proof fn lemma_box_disable_gate(settings: BoxBlurSettings)
    ensures
        settings.legalized().projected() is None <==> settings.legalized().is_no_blur(),
        settings.legalized().projected() == settings.projected(),
        settings.projected() is None <==> 0 <= settings.kernel_size <= 1,
        settings.is_no_blur() ==> settings.projected() is None,
{
}

} // verus!
