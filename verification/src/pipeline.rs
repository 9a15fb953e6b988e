//! What the host creates once for an effect: the layout of the bindings,
//! the sampler, and one render pipeline per entry point.
//!
//! Every render pipeline draws a fullscreen triangle of three vertices,
//! without index buffer, instancing, depth test or multisampling, into a
//! single colour target in the format of the view.

use vstd::prelude::*;

use crate::pass::ShaderEntry;

verus! {

/// What the fragment shader finds at one binding of its bind group. The
/// position of a binding in the layout is its binding number.
#[derive(Clone, Copy, Debug, PartialEq, Eq, Structural)]
pub enum Binding {
    /// The source of the pass: a two-dimensional texture of filterable
    /// floats, not multisampled.
    Texture,
    /// The filtering sampler of the effect.
    Sampler,
    /// The uniform buffer of the pass, without dynamic offset.
    Uniforms,
}

/// How a sampler picks a value between texels.
#[derive(Clone, Copy, Debug, PartialEq, Eq, Structural)]
pub enum FilterMode {
    /// The value of the nearest texel.
    Nearest,
    /// The values of the texels around, weighted by distance.
    Linear,
}

/// The sampler of an effect. It does not depend on the view and is the
/// same in every frame.
#[derive(Clone, Copy, Debug, PartialEq, Eq, Structural)]
pub struct SamplerDescriptor {
    /// The filter used when a texel covers more than a pixel.
    pub mag_filter: FilterMode,
    /// The filter used when a texel covers less than a pixel.
    pub min_filter: FilterMode,
    /// The filter used between mip levels.
    pub mipmap_filter: FilterMode,
}

/// One render pipeline of an effect.
#[derive(Clone, Copy, Debug)]
pub struct RenderPipelineDescriptor {
    /// The label of the pipeline, for debugging.
    pub label: &'static str,
    /// The fragment shader entry point that the pipeline runs.
    pub entry: ShaderEntry,
}

/// The layout of an effect whose shader takes uniforms: the source
/// texture at binding 0, the sampler at binding 1, the uniforms at
/// binding 2.
pub open spec fn bindings_with_uniforms() -> Seq<Binding> {
    seq![Binding::Texture, Binding::Sampler, Binding::Uniforms]
}

/// The layout of an effect whose shader takes no uniforms: the source
/// texture at binding 0, the sampler at binding 1.
pub open spec fn bindings_without_uniforms() -> Seq<Binding> {
    seq![Binding::Texture, Binding::Sampler]
}

/// Builds the layout of an effect, with or without uniforms.
pub fn bindings(with_uniforms: bool) -> (layout: Vec<Binding>)
    ensures
        with_uniforms ==> layout@ == bindings_with_uniforms(),
        !with_uniforms ==> layout@ == bindings_without_uniforms(),
{
    let mut layout: Vec<Binding> = Vec::new();
    layout.push(Binding::Texture);
    layout.push(Binding::Sampler);
    if with_uniforms {
        layout.push(Binding::Uniforms);
        assert(layout@ =~= bindings_with_uniforms());
    } else {
        assert(layout@ =~= bindings_without_uniforms());
    }
    layout
}

} // verus!
