//! Where the passes of an effect stand in the rendering order of a frame.

use vstd::prelude::*;

verus! {

/// A stage of the rendering of one view, in the order of the stages.
#[derive(Clone, Copy, Debug, PartialEq, Eq, Structural)]
pub enum Stage {
    /// Tone mapping of the rendered scene.
    Tonemapping,
    /// The passes of a blur effect, all of them, with nothing between.
    Blur,
    /// The end of the post-processing of the main pass; what follows it
    /// works on the composited frame.
    EndMainPassPostProcessing,
}

impl Stage {
    /// The position of the stage in the rendering order.
    pub open spec fn position(self) -> int {
        match self {
            Stage::Tonemapping => 0,
            Stage::Blur => 1,
            Stage::EndMainPassPostProcessing => 2,
        }
    }
}

/// The ordering constraint of every blur effect, in the 2D and in the 3D
/// render graph alike: the passes run after tone mapping, and before the
/// end of the post-processing of the main pass.
pub open spec fn placement() -> Seq<Stage> {
    seq![Stage::Tonemapping, Stage::Blur, Stage::EndMainPassPostProcessing]
}

/// Lists the stages around a blur effect in rendering order. The host
/// adds an edge to its render graph from each stage to the one after it.
pub fn render_graph_edges() -> (stages: Vec<Stage>)
    ensures
        stages@ == placement(),
        forall|i: int, j: int|
            0 <= i < j < stages@.len() ==> (#[trigger] stages@[i]).position() < (
            #[trigger] stages@[j]).position(),
{
    let mut stages: Vec<Stage> = Vec::new();
    stages.push(Stage::Tonemapping);
    stages.push(Stage::Blur);
    stages.push(Stage::EndMainPassPostProcessing);
    assert(stages@ =~= placement());
    stages
}

} // verus!
