//! Settings of the Gaussian blur and the uniforms derived from them.

use vstd::prelude::*;

use crate::cost::SamplingCost;
use crate::factor::{lemma_factor_legalized_idempotent, Factor, FACTOR_MIN_BITS};
use crate::range::{legal_kernel_size, legalize_kernel_size, lemma_legal_kernel_size};
use crate::BlurSetting;

verus! {

/// The kernel reaches three standard deviations to each side of its
/// centre, so the standard deviation is `kernel_size - 1` over this.
pub const SIGMA_DENOMINATOR: u32 = 6;

/// Applies a Gaussian blur to a 2D or 3D camera.
#[derive(Clone, Copy, Debug, PartialEq, Eq, Structural)]
pub struct GaussianBlurSettings {
    /// Kernel size of the Gaussian blur.
    /// - It is clamped to the range from 1 to 401.
    /// - It must be odd: for an even value the next odd value is used.
    /// - A value of 1 means no blur and skips the effect entirely.
    /// - It defaults to 31, a standard deviation of 5.
    ///
    /// The effect samples `2 * kernel_size` texels per pixel.
    pub kernel_size: u32,
    /// A factor applied to the distance of every texel that is sampled.
    /// A larger factor widens the blur at the same cost and lower quality.
    /// - It is clamped to the range from 1 to 100.
    /// - It need not be a whole number.
    /// - It defaults to 1, which leaves the distances as they are.
    pub sampling_distance_factor: Factor,
}

/// The values that the Gaussian blur shader consumes.
#[derive(Clone, Copy, Debug, PartialEq, Eq, Structural)]
pub struct GaussianBlurUniforms {
    /// The legal kernel size.
    pub kernel_size: u32,
    /// The standard deviation of the kernel, in units of one over
    /// `SIGMA_DENOMINATOR`.
    pub sigma_numerator: u32,
    /// The legal sampling distance factor.
    pub sampling_distance_factor: Factor,
}

impl GaussianBlurUniforms {
    /// What holds of uniforms that were derived from settings: the kernel
    /// is legal and blurs, and the standard deviation follows from it.
    pub open spec fn wf(self) -> bool {
        &&& 3 <= self.kernel_size <= 401
        &&& self.kernel_size % 2 == 1
        &&& self.sigma_numerator == self.kernel_size - 1
        &&& self.sampling_distance_factor.legalized() == self.sampling_distance_factor
    }
}

impl Default for GaussianBlurSettings {
    fn default() -> (settings: Self)
        ensures
            settings.kernel_size == 31,
            settings.sampling_distance_factor.bits == FACTOR_MIN_BITS,
    {
        GaussianBlurSettings { kernel_size: 31, sampling_distance_factor: Factor::one() }
    }
}

impl BlurSetting for GaussianBlurSettings {
    open spec fn is_no_blur(&self) -> bool {
        self.kernel_size == 1
    }

    open spec fn pass_count(&self) -> nat {
        if self.kernel_size == 1 {
            0
        } else {
            2
        }
    }

    open spec fn sampling_numerator(&self) -> nat {
        if self.kernel_size == 1 {
            0
        } else {
            2 * self.kernel_size as nat
        }
    }

    open spec fn sampling_denominator(&self) -> nat {
        1
    }

    proof fn lemma_no_blur_is_free(&self) {
    }

    fn no_blur() -> (setting: Self)
        ensures
            setting.kernel_size == 1,
            setting.sampling_distance_factor.bits == FACTOR_MIN_BITS,
    {
        GaussianBlurSettings { kernel_size: 1, sampling_distance_factor: Factor::one() }
    }

    fn sampling_per_pixel(&self) -> (cost: SamplingCost) {
        if self.kernel_size == 1 {
            SamplingCost { numerator: 0, denominator: 1 }
        } else {
            SamplingCost { numerator: 2 * (self.kernel_size as u64), denominator: 1 }
        }
    }

    fn passes(&self) -> (n: u32) {
        if self.kernel_size == 1 {
            0
        } else {
            2
        }
    }
}

impl GaussianBlurSettings {
    /// The settings with every field made legal for the shader.
    pub open spec fn legalized(self) -> GaussianBlurSettings {
        GaussianBlurSettings {
            kernel_size: legal_kernel_size(self.kernel_size as int) as u32,
            sampling_distance_factor: self.sampling_distance_factor.legalized(),
        }
    }

    /// Whether the settings are legal as they stand.
    pub open spec fn is_legal(self) -> bool {
        self.legalized() == self
    }

    /// The uniforms that the settings project to: none where the legal
    /// kernel size is 1, which disables the effect.
    pub open spec fn projected(self) -> Option<GaussianBlurUniforms> {
        let legal = self.legalized();
        if legal.kernel_size == 1 {
            None
        } else {
            Some(
                GaussianBlurUniforms {
                    kernel_size: legal.kernel_size,
                    sigma_numerator: (legal.kernel_size - 1) as u32,
                    sampling_distance_factor: legal.sampling_distance_factor,
                },
            )
        }
    }

    /// Computes new settings in which every field is legal for the
    /// shader.
    pub fn create_concrete(&self) -> (concrete: GaussianBlurSettings)
        ensures
            concrete == self.legalized(),
            concrete.is_legal(),
            concrete.kernel_size % 2 == 1,
            1 <= concrete.kernel_size <= 401,
    {
        GaussianBlurSettings {
            kernel_size: legalize_kernel_size(self.kernel_size),
            sampling_distance_factor: self.sampling_distance_factor.clamp_to_range(),
        }
    }

    /// Projects the settings of a camera to the uniforms of its shader,
    /// or to nothing where the effect is disabled.
    pub fn extract_component(settings: &GaussianBlurSettings) -> (out: Option<GaussianBlurUniforms>)
        ensures
            out == settings.projected(),
            out is None <==> settings.legalized().is_no_blur(),
            out matches Some(uniforms) ==> uniforms.wf(),
    {
        let settings = settings.create_concrete();
        if settings.kernel_size == 1 {
            None
        } else {
            Some(
                GaussianBlurUniforms {
                    kernel_size: settings.kernel_size,
                    sigma_numerator: settings.kernel_size - 1,
                    sampling_distance_factor: settings.sampling_distance_factor,
                },
            )
        }
    }
}

/// Legalizing twice gives what legalizing once gives, for every raw value
/// of the kernel size and every bit pattern of the factor.
pub proof fn lemma_gaussian_legalized_idempotent(settings: GaussianBlurSettings)
    ensures
        settings.legalized().legalized() == settings.legalized(),
{
    lemma_legal_kernel_size(settings.kernel_size as int);
    lemma_factor_legalized_idempotent(settings.sampling_distance_factor);
}

/// The legal kernel size is odd and lies between 1 and 401.
pub proof fn lemma_gaussian_legalized_kernel_is_odd(settings: GaussianBlurSettings)
    ensures
        settings.legalized().kernel_size % 2 == 1,
        1 <= settings.legalized().kernel_size <= 401,
{
    lemma_legal_kernel_size(settings.kernel_size as int);
}

/// Legal settings project to nothing exactly where they stand for no
/// blur, and the projection of raw settings is that of their legal form.
/// Raw settings that stand for no blur project to nothing as well.
pub proof fn lemma_gaussian_disable_gate(settings: GaussianBlurSettings)
    ensures
        settings.legalized().projected() is None <==> settings.legalized().is_no_blur(),
        settings.legalized().projected() == settings.projected(),
        settings.projected() is None <==> 0 <= settings.kernel_size <= 1,
        settings.is_no_blur() ==> settings.projected() is None,
{
}

} // verus!
