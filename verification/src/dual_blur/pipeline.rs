//! The passes of the dual blur.

use vstd::prelude::*;

use crate::dual_blur::settings::DualBlurSettings;
use crate::extent::{level_extent, Extent};
use crate::pass::{is_sequential, Buffer, PassDescriptor, ShaderEntry};
use crate::pipeline::{
    bindings, bindings_without_uniforms, Binding, FilterMode, RenderPipelineDescriptor,
    SamplerDescriptor,
};
use crate::BlurSetting;

verus! {

/// The post-processing node of the dual blur.
#[derive(Clone, Copy, Debug, Default)]
pub struct DualBlurNode;

/// The level that pass `index` reads, in a plan of `passes` downsampling
/// passes. Level 0 is the view itself. The downsampling passes walk down
/// from level 0, the upsampling passes walk back up from level `passes`.
pub open spec fn dual_source_level(index: int, passes: int) -> int {
    if index < passes {
        index
    } else {
        2 * passes - index
    }
}

/// The level that pass `index` writes: one below the level it reads while
/// downsampling, one above it while upsampling.
pub open spec fn dual_destination_level(index: int, passes: int) -> int {
    if index < passes {
        index + 1
    } else {
        2 * passes - index - 1
    }
}

/// The texture to read at a level: the image of the view at level 0, the
/// scratch texture of the level below it.
pub open spec fn level_source(level: int) -> Buffer {
    if level == 0 {
        Buffer::Front
    } else {
        Buffer::Level(level as u32)
    }
}

/// The texture to write at a level: the other buffer of the view at level
/// 0, the scratch texture of the level below it.
pub open spec fn level_destination(level: int) -> Buffer {
    if level == 0 {
        Buffer::Back
    } else {
        Buffer::Level(level as u32)
    }
}

/// The size of the texture to write at a level.
pub open spec fn level_target_extent(viewport: Extent, level: int) -> Extent {
    if level == 0 {
        viewport
    } else {
        level_extent(viewport, level as nat)
    }
}

/// Pass `index` of a dual blur of `passes` downsampling passes.
pub open spec fn dual_pass(index: int, passes: int, viewport: Extent) -> PassDescriptor {
    PassDescriptor {
        entry: if index < passes {
            ShaderEntry::FragmentDownsample
        } else {
            ShaderEntry::FragmentUpsample
        },
        source: level_source(dual_source_level(index, passes)),
        destination: level_destination(dual_destination_level(index, passes)),
        extent: level_target_extent(viewport, dual_destination_level(index, passes)),
        uniform: None,
    }
}

/// The plan of the dual blur: `passes` downsampling passes, then as many
/// upsampling passes in the reverse order of the levels.
pub open spec fn dual_plan(passes: nat, viewport: Extent) -> Seq<PassDescriptor> {
    Seq::new(2 * passes, |i: int| dual_pass(i, passes as int, viewport))
}

/// A dual blur plan can be issued pass by pass, and it ends by writing the
/// blurred image at the size of the view into the back buffer.
pub proof fn lemma_dual_plan_is_sequential(passes: nat, viewport: Extent)
    requires
        passes <= u32::MAX,
    ensures
        is_sequential(dual_plan(passes, viewport)),
        passes > 0 ==> dual_plan(passes, viewport).last().destination == Buffer::Back
            && dual_plan(passes, viewport).last().extent == viewport,
{
    let plan = dual_plan(passes, viewport);
    assert forall|i: int, j: int| 0 <= i && j == i + 1 && j < plan.len() implies (
    #[trigger] plan[j]).source == (#[trigger] plan[i]).destination by {
        assert(dual_source_level(j, passes as int) == dual_destination_level(i, passes as int));
    }
    assert forall|i: int| 0 <= i < plan.len() implies (#[trigger] plan[i]).source
        != plan[i].destination by {
        let from = dual_source_level(i, passes as int);
        let to = dual_destination_level(i, passes as int);
        assert(0 <= from <= passes && 0 <= to <= passes && from != to);
    }
}

/// The plan has as many passes as the settings report: a downsampling
/// and an upsampling pass for each level.
pub proof fn lemma_dual_plan_length(settings: DualBlurSettings, viewport: Extent)
    ensures
        dual_plan(settings.downsampling_passes as nat, viewport).len() == settings.pass_count(),
        settings.pass_count() == 2 * settings.downsampling_passes,
{
}

/// Every scratch texture that a plan of `passes` downsampling passes
/// names is one of the levels 1 to `passes`, and a pass that writes one
/// has the size of that level.
pub proof fn lemma_dual_plan_levels(passes: nat, viewport: Extent, index: int)
    requires
        passes <= u32::MAX,
        0 <= index < 2 * passes,
    ensures
        ({
            let pass = dual_plan(passes, viewport)[index];
            &&& pass.source matches Buffer::Level(level) ==> 1 <= level <= passes
            &&& pass.destination matches Buffer::Level(level) ==> 1 <= level <= passes
                && pass.extent == level_extent(viewport, level as nat)
            &&& pass.source != Buffer::Back
            &&& pass.destination != Buffer::Front
            &&& pass.uniform is None
        }),
{
}

impl DualBlurNode {
    /// The name of the node in the render graph.
    pub const NAME: &'static str = "dual_blur";

    /// Plans the passes of one frame for a camera with the given settings
    /// and viewport size.
    ///
    /// The plan must be addressable: twice the number of downsampling
    /// passes is the length of a list.
    pub fn plan(
        &self,
        settings: &DualBlurSettings,
        viewport: Extent,
    ) -> (passes: Vec<PassDescriptor>)
        requires
            2 * settings.downsampling_passes <= usize::MAX,
        ensures
            passes@ == dual_plan(settings.downsampling_passes as nat, viewport),
            passes@.len() == 2 * settings.downsampling_passes,
            is_sequential(passes@),
            forall|i: int|
                0 <= i < passes@.len() ==> DualBlurPipeline::runs((#[trigger] passes@[i]).entry),
            settings.downsampling_passes > 0 ==> passes@.last().destination == Buffer::Back
                && passes@.last().extent == viewport,
    {
        let count: u32 = settings.downsampling_passes;
        let mut passes: Vec<PassDescriptor> = Vec::new();
        let mut level: u32 = 0;
        while level < count
            invariant
                level <= count,
                2 * count <= usize::MAX,
                passes@.len() == level,
                forall|i: int|
                    0 <= i < passes@.len() ==> passes@[i] == dual_pass(i, count as int, viewport),
            decreases count - level,
        {
            let source = if level == 0 {
                Buffer::Front
            } else {
                Buffer::Level(level)
            };
            passes.push(
                PassDescriptor {
                    entry: ShaderEntry::FragmentDownsample,
                    source,
                    destination: Buffer::Level(level + 1),
                    extent: viewport.at_level(level + 1),
                    uniform: None,
                },
            );
            level += 1;
        }
        while level > 0
            invariant
                level <= count,
                2 * count <= usize::MAX,
                passes@.len() == 2 * count - level,
                forall|i: int|
                    0 <= i < passes@.len() ==> passes@[i] == dual_pass(i, count as int, viewport),
            decreases level,
        {
            let (destination, extent) = if level == 1 {
                (Buffer::Back, viewport)
            } else {
                (Buffer::Level(level - 1), viewport.at_level(level - 1))
            };
            passes.push(
                PassDescriptor {
                    entry: ShaderEntry::FragmentUpsample,
                    source: Buffer::Level(level),
                    destination,
                    extent,
                    uniform: None,
                },
            );
            level -= 1;
        }
        proof {
            assert(passes@ =~= dual_plan(count as nat, viewport));
            lemma_dual_plan_is_sequential(count as nat, viewport);
        }
        passes
    }
}

/// What the host creates once for the dual blur.
#[derive(Debug)]
pub struct DualBlurPipeline {
    /// The label of the bind group layout.
    pub layout_label: &'static str,
    /// The bindings of the bind group, in the order of their numbers.
    pub layout: Vec<Binding>,
    /// The sampler of the effect.
    pub sampler: SamplerDescriptor,
    /// The pipeline of the downsampling passes.
    pub downsample: RenderPipelineDescriptor,
    /// The pipeline of the upsampling passes.
    pub upsample: RenderPipelineDescriptor,
}

impl DualBlurPipeline {
    /// Whether the effect has a pipeline for the entry point.
    pub open spec fn runs(entry: ShaderEntry) -> bool {
        entry == ShaderEntry::FragmentDownsample || entry == ShaderEntry::FragmentUpsample
    }

    /// Describes the layout, the sampler and the two pipelines.
    pub fn new() -> (pipeline: DualBlurPipeline)
        ensures
            pipeline.layout_label@ == "dual_blur_bind_group_layout"@,
            pipeline.layout@ == bindings_without_uniforms(),
            pipeline.sampler == (SamplerDescriptor {
                mag_filter: FilterMode::Linear,
                min_filter: FilterMode::Linear,
                mipmap_filter: FilterMode::Nearest,
            }),
            pipeline.downsample.label@ == "dual_blur_pipeline"@,
            pipeline.downsample.entry == ShaderEntry::FragmentDownsample,
            pipeline.upsample.label@ == "dual_blur_pipeline"@,
            pipeline.upsample.entry == ShaderEntry::FragmentUpsample,
    {
        DualBlurPipeline {
            layout_label: "dual_blur_bind_group_layout",
            layout: bindings(false),
            sampler: SamplerDescriptor {
                mag_filter: FilterMode::Linear,
                min_filter: FilterMode::Linear,
                mipmap_filter: FilterMode::Nearest,
            },
            downsample: RenderPipelineDescriptor {
                label: "dual_blur_pipeline",
                entry: ShaderEntry::FragmentDownsample,
            },
            upsample: RenderPipelineDescriptor {
                label: "dual_blur_pipeline",
                entry: ShaderEntry::FragmentUpsample,
            },
        }
    }

    /// The pipeline that runs the entry point of a pass, if the effect has
    /// one for it.
    pub fn pipeline_for(&self, entry: ShaderEntry) -> (pipeline: Option<RenderPipelineDescriptor>)
        ensures
            pipeline is Some <==> Self::runs(entry),
            entry == ShaderEntry::FragmentDownsample ==> pipeline == Some(self.downsample),
            entry == ShaderEntry::FragmentUpsample ==> pipeline == Some(self.upsample),
    {
        match entry {
            ShaderEntry::FragmentDownsample => Some(self.downsample),
            ShaderEntry::FragmentUpsample => Some(self.upsample),
            _ => None,
        }
    }
}

} // verus!
