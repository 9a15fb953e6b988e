//! The passes of the box blur.

use vstd::prelude::*;

use crate::box_blur::settings::{BoxBlurSettings, BoxBlurUniforms};
use crate::extent::Extent;
use crate::pass::{is_sequential, ping_pong, ping_pong_pass, PassDescriptor, ShaderEntry};
use crate::pipeline::{
    bindings, bindings_with_uniforms, Binding, FilterMode, RenderPipelineDescriptor,
    SamplerDescriptor,
};
use crate::BlurSetting;

verus! {

/// The post-processing node of the box blur.
#[derive(Clone, Copy, Debug, Default)]
pub struct BoxBlurNode;

/// Pass `index` of the box blur: horizontal and vertical passes take
/// turns, starting with a horizontal one, all at the size of the view and
/// with the one upload of uniforms of the frame.
pub open spec fn box_pass(index: int, viewport: Extent) -> PassDescriptor {
    ping_pong_pass(
        index,
        if index % 2 == 0 {
            ShaderEntry::FragmentHorizontal
        } else {
            ShaderEntry::FragmentVertical
        },
        viewport,
        Some(0usize),
    )
}

/// The plan of the box blur: a horizontal and a vertical pass for each of
/// the `convolutions`.
pub open spec fn box_plan(convolutions: nat, viewport: Extent) -> Seq<PassDescriptor> {
    Seq::new(2 * convolutions, |i: int| box_pass(i, viewport))
}

/// For settings that are legal and enabled, the plan made from their
/// uniforms has as many passes as the settings report: two for each
/// convolution.
pub proof fn lemma_box_plan_length(settings: BoxBlurSettings, viewport: Extent)
    requires
        !settings.legalized().is_no_blur(),
    ensures
        settings.projected() is Some,
        box_plan(settings.projected()->Some_0.passes as nat, viewport).len()
            == settings.legalized().pass_count(),
        settings.legalized().pass_count() == 2 * settings.legalized().passes,
{
}

impl BoxBlurNode {
    /// The name of the node in the render graph.
    pub const NAME: &'static str = "box_blur";

    /// Plans the passes of one frame for a camera with the given uniforms
    /// and viewport size.
    ///
    /// The plan must be addressable: twice the number of convolutions is
    /// the length of a list.
    pub fn plan(
        &self,
        uniforms: &BoxBlurUniforms,
        viewport: Extent,
    ) -> (passes: Vec<PassDescriptor>)
        requires
            2 * uniforms.passes <= usize::MAX,
        ensures
            passes@ == box_plan(uniforms.passes as nat, viewport),
            passes@.len() == 2 * uniforms.passes,
            is_sequential(passes@),
            forall|i: int|
                0 <= i < passes@.len() ==> BoxBlurPipeline::runs((#[trigger] passes@[i]).entry),
    {
        let mut passes: Vec<PassDescriptor> = Vec::new();
        let mut convolution: u32 = 0;
        while convolution < uniforms.passes
            invariant
                convolution <= uniforms.passes,
                2 * uniforms.passes <= usize::MAX,
                passes@.len() == 2 * convolution,
                forall|i: int| 0 <= i < passes@.len() ==> passes@[i] == box_pass(i, viewport),
            decreases uniforms.passes - convolution,
        {
            let index: usize = passes.len();
            passes.push(ping_pong(index, ShaderEntry::FragmentHorizontal, viewport, Some(0)));
            passes.push(ping_pong(index + 1, ShaderEntry::FragmentVertical, viewport, Some(0)));
            convolution += 1;
        }
        assert(passes@ =~= box_plan(uniforms.passes as nat, viewport));
        passes
    }
}

/// What the host creates once for the box blur.
#[derive(Debug)]
pub struct BoxBlurPipeline {
    /// The label of the bind group layout.
    pub layout_label: &'static str,
    /// The bindings of the bind group, in the order of their numbers.
    pub layout: Vec<Binding>,
    /// The sampler of the effect.
    pub sampler: SamplerDescriptor,
    /// The pipeline of the horizontal passes.
    pub horizontal: RenderPipelineDescriptor,
    /// The pipeline of the vertical passes.
    pub vertical: RenderPipelineDescriptor,
}

impl BoxBlurPipeline {
    /// Whether the effect has a pipeline for the entry point.
    pub open spec fn runs(entry: ShaderEntry) -> bool {
        entry == ShaderEntry::FragmentHorizontal || entry == ShaderEntry::FragmentVertical
    }

    /// Describes the layout, the sampler and the two pipelines.
    pub fn new() -> (pipeline: BoxBlurPipeline)
        ensures
            pipeline.layout_label@ == "box_blur_bind_group_layout"@,
            pipeline.layout@ == bindings_with_uniforms(),
            pipeline.sampler == (SamplerDescriptor {
                mag_filter: FilterMode::Nearest,
                min_filter: FilterMode::Nearest,
                mipmap_filter: FilterMode::Nearest,
            }),
            pipeline.horizontal.label@ == "box_blur_horizontal_pipeline"@,
            pipeline.horizontal.entry == ShaderEntry::FragmentHorizontal,
            pipeline.vertical.label@ == "box_blur_vertical_pipeline"@,
            pipeline.vertical.entry == ShaderEntry::FragmentVertical,
    {
        BoxBlurPipeline {
            layout_label: "box_blur_bind_group_layout",
            layout: bindings(true),
            sampler: SamplerDescriptor {
                mag_filter: FilterMode::Nearest,
                min_filter: FilterMode::Nearest,
                mipmap_filter: FilterMode::Nearest,
            },
            horizontal: RenderPipelineDescriptor {
                label: "box_blur_horizontal_pipeline",
                entry: ShaderEntry::FragmentHorizontal,
            },
            vertical: RenderPipelineDescriptor {
                label: "box_blur_vertical_pipeline",
                entry: ShaderEntry::FragmentVertical,
            },
        }
    }

    /// The pipeline that runs the entry point of a pass, if the effect has
    /// one for it.
    pub fn pipeline_for(&self, entry: ShaderEntry) -> (pipeline: Option<RenderPipelineDescriptor>)
        ensures
            pipeline is Some <==> Self::runs(entry),
            entry == ShaderEntry::FragmentHorizontal ==> pipeline == Some(self.horizontal),
            entry == ShaderEntry::FragmentVertical ==> pipeline == Some(self.vertical),
    {
        match entry {
            ShaderEntry::FragmentHorizontal => Some(self.horizontal),
            ShaderEntry::FragmentVertical => Some(self.vertical),
            _ => None,
        }
    }
}

} // verus!
