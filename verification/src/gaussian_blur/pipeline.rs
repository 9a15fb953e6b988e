//! The passes of the Gaussian blur.

use vstd::prelude::*;

use crate::extent::Extent;
use crate::gaussian_blur::settings::GaussianBlurUniforms;
use crate::gaussian_blur::settings::GaussianBlurSettings;
use crate::pass::{is_sequential, ping_pong, ping_pong_pass, PassDescriptor, ShaderEntry};
use crate::pipeline::{
    bindings, bindings_with_uniforms, Binding, FilterMode, RenderPipelineDescriptor,
    SamplerDescriptor,
};
use crate::BlurSetting;

verus! {

/// The post-processing node of the Gaussian blur.
#[derive(Clone, Copy, Debug, Default)]
pub struct GaussianBlurNode;

/// Pass `index` of the Gaussian blur: the horizontal half of the kernel
/// first, then the vertical half, both at the size of the view and with
/// the one upload of uniforms of the frame.
pub open spec fn gaussian_pass(index: int, viewport: Extent) -> PassDescriptor {
    ping_pong_pass(
        index,
        if index == 0 {
            ShaderEntry::FragmentHorizontal
        } else {
            ShaderEntry::FragmentVertical
        },
        viewport,
        Some(0usize),
    )
}

/// The plan of the Gaussian blur: exactly two passes.
pub open spec fn gaussian_plan(viewport: Extent) -> Seq<PassDescriptor> {
    Seq::new(2, |i: int| gaussian_pass(i, viewport))
}

/// For settings that are legal and enabled, the plan has as many passes
/// as the settings report: two, whatever the kernel size.
pub proof fn lemma_gaussian_plan_length(settings: GaussianBlurSettings, viewport: Extent)
    requires
        !settings.legalized().is_no_blur(),
    ensures
        gaussian_plan(viewport).len() == settings.legalized().pass_count(),
        gaussian_plan(viewport).len() == 2,
        settings.projected() is Some,
{
}

impl GaussianBlurNode {
    /// The name of the node in the render graph.
    pub const NAME: &'static str = "gaussian_blur";

    /// Plans the passes of one frame for a camera with the given uniforms
    /// and viewport size.
    pub fn plan(
        &self,
        _uniforms: &GaussianBlurUniforms,
        viewport: Extent,
    ) -> (passes: Vec<PassDescriptor>)
        ensures
            passes@ == gaussian_plan(viewport),
            passes@.len() == 2,
            is_sequential(passes@),
            forall|i: int|
                0 <= i < passes@.len() ==> GaussianBlurPipeline::runs(
                    (#[trigger] passes@[i]).entry,
                ),
    {
        let mut passes: Vec<PassDescriptor> = Vec::new();
        passes.push(ping_pong(0, ShaderEntry::FragmentHorizontal, viewport, Some(0)));
        passes.push(ping_pong(1, ShaderEntry::FragmentVertical, viewport, Some(0)));
        assert(passes@ =~= gaussian_plan(viewport));
        passes
    }
}

/// What the host creates once for the Gaussian blur.
#[derive(Debug)]
pub struct GaussianBlurPipeline {
    /// The label of the bind group layout.
    pub layout_label: &'static str,
    /// The bindings of the bind group, in the order of their numbers.
    pub layout: Vec<Binding>,
    /// The sampler of the effect.
    pub sampler: SamplerDescriptor,
    /// The pipeline of the horizontal pass.
    pub horizontal: RenderPipelineDescriptor,
    /// The pipeline of the vertical pass.
    pub vertical: RenderPipelineDescriptor,
}

impl GaussianBlurPipeline {
    /// Whether the effect has a pipeline for the entry point.
    pub open spec fn runs(entry: ShaderEntry) -> bool {
        entry == ShaderEntry::FragmentHorizontal || entry == ShaderEntry::FragmentVertical
    }

    /// Describes the layout, the sampler and the two pipelines.
    pub fn new() -> (pipeline: GaussianBlurPipeline)
        ensures
            pipeline.layout_label@ == "gaussian_blur_bind_group_layout"@,
            pipeline.layout@ == bindings_with_uniforms(),
            pipeline.sampler == (SamplerDescriptor {
                mag_filter: FilterMode::Nearest,
                min_filter: FilterMode::Nearest,
                mipmap_filter: FilterMode::Nearest,
            }),
            pipeline.horizontal.label@ == "gaussian_blur_horizontal_pipeline"@,
            pipeline.horizontal.entry == ShaderEntry::FragmentHorizontal,
            pipeline.vertical.label@ == "gaussian_blur_vertical_pipeline"@,
            pipeline.vertical.entry == ShaderEntry::FragmentVertical,
    {
        GaussianBlurPipeline {
            layout_label: "gaussian_blur_bind_group_layout",
            layout: bindings(true),
            sampler: SamplerDescriptor {
                mag_filter: FilterMode::Nearest,
                min_filter: FilterMode::Nearest,
                mipmap_filter: FilterMode::Nearest,
            },
            horizontal: RenderPipelineDescriptor {
                label: "gaussian_blur_horizontal_pipeline",
                entry: ShaderEntry::FragmentHorizontal,
            },
            vertical: RenderPipelineDescriptor {
                label: "gaussian_blur_vertical_pipeline",
                entry: ShaderEntry::FragmentVertical,
            },
        }
    }

    /// The pipeline that runs the entry point of a pass, if the effect has
    /// one for it.
    pub fn pipeline_for(&self, entry: ShaderEntry) -> (pipeline: Option<RenderPipelineDescriptor>)
        ensures
            pipeline is Some <==> Self::runs(entry),
            entry == ShaderEntry::FragmentHorizontal ==> pipeline == Some(self.horizontal),
            entry == ShaderEntry::FragmentVertical ==> pipeline == Some(self.vertical),
    {
        match entry {
            ShaderEntry::FragmentHorizontal => Some(self.horizontal),
            ShaderEntry::FragmentVertical => Some(self.vertical),
            _ => None,
        }
    }
}

} // verus!
