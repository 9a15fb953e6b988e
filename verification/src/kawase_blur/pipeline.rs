//! The passes of the Kawase blur.

use vstd::prelude::*;

use crate::extent::Extent;
use crate::kawase_blur::settings::{KawaseBlurSettings, KawaseBlurUniforms};
use crate::pass::{is_sequential, ping_pong, ping_pong_pass, PassDescriptor, ShaderEntry};
use crate::pipeline::{
    bindings, bindings_with_uniforms, Binding, FilterMode, RenderPipelineDescriptor,
    SamplerDescriptor,
};
use crate::BlurSetting;

verus! {

/// The post-processing node of the Kawase blur.
#[derive(Clone, Copy, Debug, Default)]
pub struct KawaseBlurNode;

/// Pass `index` of the Kawase blur: at the size of the view, with an
/// upload of uniforms of its own.
pub open spec fn kawase_pass(index: int, viewport: Extent) -> PassDescriptor {
    ping_pong_pass(index, ShaderEntry::Fragment, viewport, Some(index as usize))
}

/// The plan of the Kawase blur: one pass per sampling distance.
pub open spec fn kawase_plan(distances: nat, viewport: Extent) -> Seq<PassDescriptor> {
    Seq::new(distances, |i: int| kawase_pass(i, viewport))
}

/// The uploads of uniforms of one frame: one per sampling distance, in
/// the order of the passes.
pub open spec fn kawase_uniforms(distances: Seq<u32>) -> Seq<KawaseBlurUniforms> {
    Seq::new(distances.len(), |i: int| KawaseBlurUniforms { sampling_distance: distances[i] })
}

/// The plan has as many passes as the settings report, one for each
/// sampling distance, and pass `i` binds upload `i`, which carries the
/// `i`-th distance.
pub proof fn lemma_kawase_plan_length(settings: KawaseBlurSettings, viewport: Extent)
    ensures
        kawase_plan(settings@.len(), viewport).len() == settings.pass_count(),
        kawase_uniforms(settings@).len() == settings.pass_count(),
        forall|i: int|
            0 <= i < settings@.len() ==> (#[trigger] kawase_plan(
                settings@.len(),
                viewport,
            )[i]).uniform == Some(i as usize) && kawase_uniforms(settings@)[i].sampling_distance
                == settings@[i],
{
}

impl KawaseBlurNode {
    /// The name of the node in the render graph.
    pub const NAME: &'static str = "kawase_blur";

    /// Lists the uniforms of the passes of one frame: pass `i` runs with
    /// the `i`-th sampling distance of the settings.
    pub fn uniforms(&self, settings: &KawaseBlurSettings) -> (uploads: Vec<KawaseBlurUniforms>)
        ensures
            uploads@ == kawase_uniforms(settings@),
            uploads@.len() == settings@.len(),
    {
        let mut uploads: Vec<KawaseBlurUniforms> = Vec::new();
        let mut i: usize = 0;
        while i < settings.sampling_distances.len()
            invariant
                i <= settings.sampling_distances.len(),
                uploads@.len() == i,
                forall|j: int|
                    0 <= j < i ==> (#[trigger] uploads@[j]).sampling_distance
                        == settings.sampling_distances@[j],
            decreases settings.sampling_distances.len() - i,
        {
            uploads.push(KawaseBlurUniforms { sampling_distance: settings.sampling_distances[i] });
            i += 1;
        }
        assert(uploads@ =~= kawase_uniforms(settings@));
        uploads
    }

    /// Plans the passes of one frame for a camera with the given settings
    /// and viewport size.
    pub fn plan(
        &self,
        settings: &KawaseBlurSettings,
        viewport: Extent,
    ) -> (passes: Vec<PassDescriptor>)
        ensures
            passes@ == kawase_plan(settings@.len(), viewport),
            passes@.len() == settings@.len(),
            is_sequential(passes@),
            forall|i: int|
                0 <= i < passes@.len() ==> KawaseBlurPipeline::runs((#[trigger] passes@[i]).entry),
    {
        let mut passes: Vec<PassDescriptor> = Vec::new();
        let mut i: usize = 0;
        while i < settings.sampling_distances.len()
            invariant
                i <= settings.sampling_distances.len(),
                passes@.len() == i,
                forall|j: int| 0 <= j < i ==> passes@[j] == kawase_pass(j, viewport),
            decreases settings.sampling_distances.len() - i,
        {
            passes.push(ping_pong(i, ShaderEntry::Fragment, viewport, Some(i)));
            i += 1;
        }
        assert(passes@ =~= kawase_plan(settings@.len(), viewport));
        passes
    }
}

/// What the host creates once for the Kawase blur.
#[derive(Debug)]
pub struct KawaseBlurPipeline {
    /// The label of the bind group layout.
    pub layout_label: &'static str,
    /// The bindings of the bind group, in the order of their numbers.
    pub layout: Vec<Binding>,
    /// The sampler of the effect.
    pub sampler: SamplerDescriptor,
    /// The pipeline of every pass.
    pub pipeline: RenderPipelineDescriptor,
}

impl KawaseBlurPipeline {
    /// Whether the effect has a pipeline for the entry point.
    pub open spec fn runs(entry: ShaderEntry) -> bool {
        entry == ShaderEntry::Fragment
    }

    /// Describes the layout, the sampler and the pipeline.
    pub fn new() -> (pipeline: KawaseBlurPipeline)
        ensures
            pipeline.layout_label@ == "kawase_blur_bind_group_layout"@,
            pipeline.layout@ == bindings_with_uniforms(),
            pipeline.sampler == (SamplerDescriptor {
                mag_filter: FilterMode::Linear,
                min_filter: FilterMode::Linear,
                mipmap_filter: FilterMode::Linear,
            }),
            pipeline.pipeline.label@ == "kawase_blur_pipeline"@,
            pipeline.pipeline.entry == ShaderEntry::Fragment,
    {
        KawaseBlurPipeline {
            layout_label: "kawase_blur_bind_group_layout",
            layout: bindings(true),
            sampler: SamplerDescriptor {
                mag_filter: FilterMode::Linear,
                min_filter: FilterMode::Linear,
                mipmap_filter: FilterMode::Linear,
            },
            pipeline: RenderPipelineDescriptor {
                label: "kawase_blur_pipeline",
                entry: ShaderEntry::Fragment,
            },
        }
    }

    /// The pipeline that runs the entry point of a pass, if the effect has
    /// one for it.
    pub fn pipeline_for(&self, entry: ShaderEntry) -> (pipeline: Option<RenderPipelineDescriptor>)
        ensures
            pipeline is Some <==> Self::runs(entry),
            entry == ShaderEntry::Fragment ==> pipeline == Some(self.pipeline),
    {
        match entry {
            ShaderEntry::Fragment => Some(self.pipeline),
            _ => None,
        }
    }
}

} // verus!
