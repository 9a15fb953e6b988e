use camera_blur::graph::{render_graph_edges, Stage};
use camera_blur::pipeline::{bindings, Binding, FilterMode, SamplerDescriptor};
use camera_blur::{
    BoxBlurPipeline, DualBlurPipeline, GaussianBlurPipeline, KawaseBlurPipeline, ShaderEntry,
};

const NEAREST: SamplerDescriptor = SamplerDescriptor {
    mag_filter: FilterMode::Nearest,
    min_filter: FilterMode::Nearest,
    mipmap_filter: FilterMode::Nearest,
};

#[test]
fn bindings_with_and_without_uniforms() {
    assert_eq!(bindings(true), vec![Binding::Texture, Binding::Sampler, Binding::Uniforms]);
    assert_eq!(bindings(false), vec![Binding::Texture, Binding::Sampler]);
}

#[test]
fn gaussian_pipeline_has_a_horizontal_and_a_vertical_entry() {
    let pipeline = GaussianBlurPipeline::new();
    assert_eq!(pipeline.layout_label, "gaussian_blur_bind_group_layout");
    assert_eq!(pipeline.layout, vec![Binding::Texture, Binding::Sampler, Binding::Uniforms]);
    assert_eq!(pipeline.sampler, NEAREST);
    assert_eq!(pipeline.horizontal.label, "gaussian_blur_horizontal_pipeline");
    assert_eq!(pipeline.horizontal.entry, ShaderEntry::FragmentHorizontal);
    assert_eq!(pipeline.vertical.label, "gaussian_blur_vertical_pipeline");
    assert_eq!(pipeline.vertical.entry, ShaderEntry::FragmentVertical);
}

#[test]
fn gaussian_pipeline_is_found_by_entry() {
    let pipeline = GaussianBlurPipeline::new();
    let horizontal = pipeline.pipeline_for(ShaderEntry::FragmentHorizontal).unwrap();
    assert_eq!(horizontal.label, "gaussian_blur_horizontal_pipeline");
    let vertical = pipeline.pipeline_for(ShaderEntry::FragmentVertical).unwrap();
    assert_eq!(vertical.label, "gaussian_blur_vertical_pipeline");
    assert!(pipeline.pipeline_for(ShaderEntry::Fragment).is_none());
    assert!(pipeline.pipeline_for(ShaderEntry::FragmentDownsample).is_none());
    assert!(pipeline.pipeline_for(ShaderEntry::FragmentUpsample).is_none());
}

#[test]
fn box_pipeline_has_a_horizontal_and_a_vertical_entry() {
    let pipeline = BoxBlurPipeline::new();
    assert_eq!(pipeline.layout_label, "box_blur_bind_group_layout");
    assert_eq!(pipeline.layout, vec![Binding::Texture, Binding::Sampler, Binding::Uniforms]);
    assert_eq!(pipeline.sampler, NEAREST);
    assert_eq!(pipeline.horizontal.label, "box_blur_horizontal_pipeline");
    assert_eq!(pipeline.horizontal.entry, ShaderEntry::FragmentHorizontal);
    assert_eq!(pipeline.vertical.label, "box_blur_vertical_pipeline");
    assert_eq!(pipeline.vertical.entry, ShaderEntry::FragmentVertical);
    assert_eq!(
        pipeline.pipeline_for(ShaderEntry::FragmentVertical).unwrap().label,
        "box_blur_vertical_pipeline"
    );
    assert_eq!(
        pipeline.pipeline_for(ShaderEntry::FragmentHorizontal).unwrap().label,
        "box_blur_horizontal_pipeline"
    );
    assert!(pipeline.pipeline_for(ShaderEntry::Fragment).is_none());
}

#[test]
fn kawase_pipeline_has_a_single_entry_and_a_linear_sampler() {
    let pipeline = KawaseBlurPipeline::new();
    assert_eq!(pipeline.layout_label, "kawase_blur_bind_group_layout");
    assert_eq!(pipeline.layout, vec![Binding::Texture, Binding::Sampler, Binding::Uniforms]);
    assert_eq!(
        pipeline.sampler,
        SamplerDescriptor {
            mag_filter: FilterMode::Linear,
            min_filter: FilterMode::Linear,
            mipmap_filter: FilterMode::Linear,
        }
    );
    assert_eq!(pipeline.pipeline.label, "kawase_blur_pipeline");
    assert_eq!(pipeline.pipeline.entry, ShaderEntry::Fragment);
    assert_eq!(pipeline.pipeline_for(ShaderEntry::Fragment).unwrap().entry, ShaderEntry::Fragment);
    assert!(pipeline.pipeline_for(ShaderEntry::FragmentHorizontal).is_none());
}

#[test]
fn dual_pipeline_takes_no_uniforms() {
    let pipeline = DualBlurPipeline::new();
    assert_eq!(pipeline.layout_label, "dual_blur_bind_group_layout");
    assert_eq!(pipeline.layout, vec![Binding::Texture, Binding::Sampler]);
    assert_eq!(
        pipeline.sampler,
        SamplerDescriptor {
            mag_filter: FilterMode::Linear,
            min_filter: FilterMode::Linear,
            mipmap_filter: FilterMode::Nearest,
        }
    );
    assert_eq!(pipeline.downsample.label, "dual_blur_pipeline");
    assert_eq!(pipeline.downsample.entry, ShaderEntry::FragmentDownsample);
    assert_eq!(pipeline.upsample.label, "dual_blur_pipeline");
    assert_eq!(pipeline.upsample.entry, ShaderEntry::FragmentUpsample);
    assert_eq!(
        pipeline.pipeline_for(ShaderEntry::FragmentDownsample).unwrap().entry,
        ShaderEntry::FragmentDownsample
    );
    assert_eq!(
        pipeline.pipeline_for(ShaderEntry::FragmentUpsample).unwrap().entry,
        ShaderEntry::FragmentUpsample
    );
    assert!(pipeline.pipeline_for(ShaderEntry::FragmentVertical).is_none());
}

#[test]
fn blur_runs_after_tonemapping_and_before_the_end_of_post_processing() {
    assert_eq!(
        render_graph_edges(),
        vec![Stage::Tonemapping, Stage::Blur, Stage::EndMainPassPostProcessing]
    );
}
