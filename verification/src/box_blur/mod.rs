//! Box blur: a kernel of equal weights, applied in a horizontal and a
//! vertical pass, the pair repeated a number of times.

pub mod pipeline;
pub mod settings;
pub mod tweening;

pub use pipeline::{BoxBlurNode, BoxBlurPipeline};
pub use settings::{BoxBlurSettings, BoxBlurUniforms, PASSES_MAX, PASSES_MIN};
pub use tweening::BoxBlurLens;
