//! A model of fullscreen post-processing blur effects for 2D and 3D
//! cameras.
//!
//! Four algorithms are covered: Gaussian blur, box blur, Kawase blur and
//! dual blur. For each, the library makes raw settings legal, projects the
//! legal settings to the values a shader consumes, and plans the ordered
//! list of render passes of one frame. Nothing here touches a GPU: the
//! host performs the passes that a plan lists.

pub mod box_blur;
pub mod cost;
pub mod dual_blur;
pub mod extent;
pub mod factor;
pub mod gaussian_blur;
pub mod graph;
pub mod kawase_blur;
pub mod pass;
pub mod pipeline;
pub mod range;
pub mod texture_cache;

pub use box_blur::{BoxBlurLens, BoxBlurNode, BoxBlurPipeline, BoxBlurSettings, BoxBlurUniforms};
pub use cost::SamplingCost;
pub use dual_blur::{
    prepare_dual_blur_textures, DualBlurNode, DualBlurPipeline, DualBlurSettings, DualBlurTexture,
};
pub use extent::Extent;
pub use factor::Factor;
pub use gaussian_blur::{
    GaussianBlurLens, GaussianBlurNode, GaussianBlurPipeline, GaussianBlurSettings,
    GaussianBlurUniforms,
};
pub use kawase_blur::{
    KawaseBlurNode, KawaseBlurPipeline, KawaseBlurSettings, KawaseBlurUniforms,
};
pub use pass::{Buffer, PassDescriptor, ShaderEntry};
pub use texture_cache::{
    Acquisition, CacheError, CachedTexture, TextureCache, TextureDescriptor,
};

use vstd::prelude::*;

verus! {

/// What every blur setting offers besides its legalization.
pub trait BlurSetting: Sized {
    /// Whether the setting stands for no blur at all, so that the effect
    /// is skipped for the camera that carries it.
    spec fn is_no_blur(&self) -> bool;

    /// The number of render passes that the setting asks for.
    spec fn pass_count(&self) -> nat;

    /// The numerator of the mean number of texture samplings per pixel.
    spec fn sampling_numerator(&self) -> nat;

    /// The denominator of the mean number of texture samplings per pixel.
    spec fn sampling_denominator(&self) -> nat;

    /// A setting that does not blur costs nothing: no pass runs and no
    /// texture is sampled.
    proof fn lemma_no_blur_is_free(&self)
        ensures
            self.is_no_blur() ==> self.pass_count() == 0 && self.sampling_numerator() == 0,
            self.sampling_denominator() > 0,
    ;

    /// Setting values that create no blur and keep the post-processing
    /// pipeline from running.
    fn no_blur() -> (setting: Self)
        ensures
            setting.is_no_blur(),
    ;

    /// An estimate of the mean number of texture samplings per pixel,
    /// all passes taken together.
    ///
    /// Meant for weighing quality against cost during development.
    fn sampling_per_pixel(&self) -> (cost: SamplingCost)
        requires
            self.sampling_numerator() <= u64::MAX,
            self.sampling_denominator() <= u64::MAX,
        ensures
            cost.numerator == self.sampling_numerator(),
            cost.denominator == self.sampling_denominator(),
    ;

    /// The number of post-processing passes that are needed.
    ///
    /// Meant for weighing quality against cost during development.
    fn passes(&self) -> (n: u32)
        requires
            self.pass_count() <= u32::MAX,
        ensures
            n == self.pass_count(),
    ;
}

/// A lens that can be created from a `start` and an `end` setting.
pub trait BlurSettingLens<C>: Sized {
    /// Creates a new lens from a `start` setting and an `end` setting.
    fn new(start: C, end: C) -> Self;
}

} // verus!
