//! Kawase blur: one pass per sampling distance, each averaging four
//! texels at that distance from the pixel.

pub mod pipeline;
pub mod settings;

pub use pipeline::{KawaseBlurNode, KawaseBlurPipeline};
pub use settings::{KawaseBlurSettings, KawaseBlurUniforms, SAMPLING_DISTANCE_MAX};
