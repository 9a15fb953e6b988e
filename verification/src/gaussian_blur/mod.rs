//! Gaussian blur: a separable kernel, applied in a horizontal and a
//! vertical pass.

pub mod pipeline;
pub mod settings;
pub mod tweening;

pub use pipeline::{GaussianBlurNode, GaussianBlurPipeline};
pub use settings::{GaussianBlurSettings, GaussianBlurUniforms, SIGMA_DENOMINATOR};
pub use tweening::GaussianBlurLens;
