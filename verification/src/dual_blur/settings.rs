//! Settings of the dual blur.

use vstd::prelude::*;

use crate::cost::SamplingCost;
use crate::range::{clamp, clamped};
use crate::BlurSetting;

verus! {

/// The greatest number of downsampling passes; the least is 0.
pub const DOWNSAMPLING_PASSES_MAX: u32 = 8;

/// Applies a dual blur to a 2D or 3D camera.
#[derive(Clone, Copy, Debug, PartialEq, Eq, Structural)]
pub struct DualBlurSettings {
    /// The number of downsampling passes; as many upsampling passes
    /// follow them.
    /// - It is clamped to the range from 0 to 8.
    /// - A value of 0 disables the effect.
    /// - It defaults to 4.
    pub downsampling_passes: u32,
}

/// The numerator of the cost of `passes` downsampling passes and as many
/// upsampling passes, over `dual_cost_denominator(passes)`.
///
/// A downsampling pass samples 5 texels for each pixel of a target that
/// covers a quarter of its source, an upsampling pass 8 for each pixel of
/// its target: `5 / 4 + 8`, that is `37 / 4`, per pixel of the larger of
/// the two textures. Pair `p` works on a texture that covers `1 / 4^p` of
/// the view, so it adds `37 / 4^(p + 1)` samplings per pixel of the view.
pub open spec fn dual_cost_numerator(passes: nat) -> nat
    decreases passes,
{
    if passes == 0 {
        0
    } else {
        4 * dual_cost_numerator((passes - 1) as nat) + 37
    }
}

/// The denominator of the cost of `passes` pairs of passes: `4^passes`.
pub open spec fn dual_cost_denominator(passes: nat) -> nat
    decreases passes,
{
    if passes == 0 {
        1
    } else {
        4 * dual_cost_denominator((passes - 1) as nat)
    }
}

/// The cost in closed form: `37 * (4^passes - 1) / (3 * 4^passes)`. It
/// grows with every pair of passes and stays below `37 / 3`.
pub proof fn lemma_dual_cost_closed_form(passes: nat)
    ensures
        3 * dual_cost_numerator(passes) + 37 == 37 * dual_cost_denominator(passes),
        dual_cost_denominator(passes) > 0,
    decreases passes,
{
    if passes > 0 {
        lemma_dual_cost_closed_form((passes - 1) as nat);
    }
}

/// Numerator and denominator of the cost grow with the number of passes.
pub proof fn lemma_dual_cost_monotonic(fewer: nat, more: nat)
    requires
        fewer <= more,
    ensures
        dual_cost_numerator(fewer) <= dual_cost_numerator(more),
        dual_cost_denominator(fewer) <= dual_cost_denominator(more),
    decreases more,
{
    if fewer < more {
        lemma_dual_cost_monotonic(fewer, (more - 1) as nat);
    }
}

impl Default for DualBlurSettings {
    fn default() -> (settings: Self)
        ensures
            settings.downsampling_passes == 4,
    {
        DualBlurSettings { downsampling_passes: 4 }
    }
}

impl BlurSetting for DualBlurSettings {
    open spec fn is_no_blur(&self) -> bool {
        self.downsampling_passes == 0
    }

    open spec fn pass_count(&self) -> nat {
        2 * self.downsampling_passes as nat
    }

    open spec fn sampling_numerator(&self) -> nat {
        dual_cost_numerator(self.downsampling_passes as nat)
    }

    open spec fn sampling_denominator(&self) -> nat {
        dual_cost_denominator(self.downsampling_passes as nat)
    }

    proof fn lemma_no_blur_is_free(&self) {
        lemma_dual_cost_closed_form(self.downsampling_passes as nat);
    }

    fn no_blur() -> (setting: Self)
        ensures
            setting.downsampling_passes == 0,
    {
        DualBlurSettings { downsampling_passes: 0 }
    }

    fn sampling_per_pixel(&self) -> (cost: SamplingCost) {
        let mut numerator: u64 = 0;
        let mut denominator: u64 = 1;
        let mut pass: u32 = 0;
        while pass < self.downsampling_passes
            invariant
                pass <= self.downsampling_passes,
                numerator == dual_cost_numerator(pass as nat),
                denominator == dual_cost_denominator(pass as nat),
                dual_cost_numerator(self.downsampling_passes as nat) <= u64::MAX,
                dual_cost_denominator(self.downsampling_passes as nat) <= u64::MAX,
            decreases self.downsampling_passes - pass,
        {
            proof {
                lemma_dual_cost_monotonic((pass + 1) as nat, self.downsampling_passes as nat);
            }
            numerator = 4 * numerator + 37;
            denominator = 4 * denominator;
            pass += 1;
        }
        SamplingCost { numerator, denominator }
    }

    fn passes(&self) -> (n: u32) {
        self.downsampling_passes * 2
    }
}

impl DualBlurSettings {
    /// The settings with the number of passes made legal.
    pub open spec fn legalized(self) -> DualBlurSettings {
        DualBlurSettings {
            downsampling_passes: clamped(
                self.downsampling_passes as int,
                0,
                DOWNSAMPLING_PASSES_MAX as int,
            ) as u32,
        }
    }

    /// Whether the settings are legal as they stand.
    pub open spec fn is_legal(self) -> bool {
        self.legalized() == self
    }

    /// The legal settings that the passes run with: none where the number
    /// of passes is 0, which disables the effect.
    pub open spec fn projected(self) -> Option<DualBlurSettings> {
        if self.downsampling_passes == 0 {
            None
        } else {
            Some(self.legalized())
        }
    }

    /// Computes new settings in which the number of passes is legal.
    pub fn create_concrete(&self) -> (concrete: DualBlurSettings)
        ensures
            concrete == self.legalized(),
            concrete.is_legal(),
            concrete.downsampling_passes <= DOWNSAMPLING_PASSES_MAX,
    {
        DualBlurSettings {
            downsampling_passes: clamp(self.downsampling_passes, 0, DOWNSAMPLING_PASSES_MAX),
        }
    }

    /// Projects the settings of a camera to the legal settings that its
    /// passes run with, or to nothing where the effect is disabled.
    pub fn extract_component(settings: &DualBlurSettings) -> (out: Option<DualBlurSettings>)
        ensures
            out == settings.projected(),
            out is None <==> settings.legalized().is_no_blur(),
            out matches Some(concrete) ==> concrete.is_legal() && 1 <= concrete.downsampling_passes
                <= DOWNSAMPLING_PASSES_MAX,
    {
        if settings.downsampling_passes == 0 {
            None
        } else {
            Some(settings.create_concrete())
        }
    }
}

/// Legalizing twice gives what legalizing once gives, for every raw
/// number of passes.
pub proof fn lemma_dual_legalized_idempotent(settings: DualBlurSettings)
    ensures
        settings.legalized().legalized() == settings.legalized(),
{
}

/// Legal settings project to nothing exactly where they are the value
/// that stands for no blur, and raw settings where their legal form is.
pub proof fn lemma_dual_disable_gate(settings: DualBlurSettings)
    ensures
        settings.legalized().projected() is None <==> settings.legalized() == (DualBlurSettings {
            downsampling_passes: 0,
        }),
        settings.projected() is None <==> settings.legalized().is_no_blur(),
        settings.projected() is Some ==> settings.projected() == settings.legalized().projected(),
{
}

} // verus!
