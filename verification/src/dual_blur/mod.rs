//! Dual blur: a chain of downsampling passes to ever smaller textures,
//! followed by as many upsampling passes back to the size of the view.

pub mod pipeline;
pub mod settings;
pub mod texture;

pub use pipeline::{DualBlurNode, DualBlurPipeline};
pub use settings::{DualBlurSettings, DOWNSAMPLING_PASSES_MAX};
pub use texture::{prepare_dual_blur_textures, DualBlurTexture};
