//! Render passes and the plans made of them.
//!
//! A plan is the ordered list of the passes of one frame of one camera.
//! The host issues one render pass per entry, strictly in the order of the
//! list: every pass but the first reads what the pass before it wrote.

use vstd::prelude::*;

use crate::extent::Extent;

verus! {

/// The number of vertices that every pass draws: one triangle that covers
/// the whole target, without an index buffer.
pub const FULLSCREEN_TRIANGLE_VERTICES: u32 = 3;

/// The number of instances that every pass draws.
pub const INSTANCES: u32 = 1;

/// The bind group that holds the bindings of a pass.
pub const BIND_GROUP: u32 = 0;

/// A texture that a pass reads from or writes to.
#[derive(Clone, Copy, Debug, PartialEq, Eq, Structural)]
pub enum Buffer {
    /// The buffer of the view that holds the image when the chain of
    /// passes starts.
    Front,
    /// The other buffer of the view.
    Back,
    /// The scratch texture of a level below the view. Level 1 has half
    /// the width and height of the view, level 2 a quarter, and so on.
    Level(u32),
}

/// The fragment shader entry point that a pass runs.
#[derive(Clone, Copy, Debug, PartialEq, Eq, Structural)]
pub enum ShaderEntry {
    /// The horizontal half of a separable kernel.
    FragmentHorizontal,
    /// The vertical half of a separable kernel.
    FragmentVertical,
    /// The single entry point of the Kawase blur.
    Fragment,
    /// The downsampling kernel of the dual blur.
    FragmentDownsample,
    /// The upsampling kernel of the dual blur.
    FragmentUpsample,
}

impl ShaderEntry {
    /// The name of the entry point in the shader source.
    pub open spec fn name(self) -> Seq<char> {
        match self {
            ShaderEntry::FragmentHorizontal => "fragment_horizontal"@,
            ShaderEntry::FragmentVertical => "fragment_vertical"@,
            ShaderEntry::Fragment => "fragment"@,
            ShaderEntry::FragmentDownsample => "fragment_downsample"@,
            ShaderEntry::FragmentUpsample => "fragment_upsample"@,
        }
    }

    /// The name of the entry point in the shader source.
    pub fn entry_point(&self) -> (name: &'static str)
        ensures
            name@ == self.name(),
    {
        match self {
            ShaderEntry::FragmentHorizontal => "fragment_horizontal",
            ShaderEntry::FragmentVertical => "fragment_vertical",
            ShaderEntry::Fragment => "fragment",
            ShaderEntry::FragmentDownsample => "fragment_downsample",
            ShaderEntry::FragmentUpsample => "fragment_upsample",
        }
    }
}

/// One render pass: a fullscreen triangle drawn with one entry point,
/// sampling one texture and writing another.
#[derive(Clone, Copy, Debug, PartialEq, Eq, Structural)]
pub struct PassDescriptor {
    /// The entry point that the pass runs.
    pub entry: ShaderEntry,
    /// The texture that the pass samples.
    pub source: Buffer,
    /// The texture that the pass writes.
    pub destination: Buffer,
    /// The size of the destination.
    pub extent: Extent,
    /// The uniform upload that the pass binds, counted from 0 in the
    /// order of the uploads of the frame; none where the shader takes no
    /// uniforms.
    pub uniform: Option<usize>,
}

/// Whether every pass but the first reads the texture that the pass
/// before it wrote.
pub open spec fn is_chained(plan: Seq<PassDescriptor>) -> bool {
    forall|i: int, j: int|
        0 <= i && j == i + 1 && j < plan.len() ==> (#[trigger] plan[j]).source
            == (#[trigger] plan[i]).destination
}

/// Whether no pass reads the texture that it writes.
pub open spec fn never_reads_its_target(plan: Seq<PassDescriptor>) -> bool {
    forall|i: int| 0 <= i < plan.len() ==> (#[trigger] plan[i]).source != plan[i].destination
}

/// Whether the plan starts from the image that the view holds.
pub open spec fn starts_at_front(plan: Seq<PassDescriptor>) -> bool {
    plan.len() > 0 ==> plan[0].source == Buffer::Front
}

/// Whether the plan can be issued pass by pass: it starts from the image
/// of the view, each pass continues where the one before it ended, and no
/// pass reads what it writes.
pub open spec fn is_sequential(plan: Seq<PassDescriptor>) -> bool {
    &&& starts_at_front(plan)
    &&& is_chained(plan)
    &&& never_reads_its_target(plan)
}

/// What the textures hold while a plan is issued: for each texture that
/// holds an image, the passes that were applied to the image of the view
/// to get it, in the order in which they were applied.
pub open spec fn before_the_passes() -> Map<Buffer, Seq<PassDescriptor>> {
    Map::<Buffer, Seq<PassDescriptor>>::empty().insert(Buffer::Front, Seq::empty())
}

/// What the textures hold after one more pass: its destination holds what
/// its source held, with the pass applied.
pub open spec fn after_pass(
    contents: Map<Buffer, Seq<PassDescriptor>>,
    pass: PassDescriptor,
) -> Map<Buffer, Seq<PassDescriptor>> {
    contents.insert(pass.destination, contents[pass.source].push(pass))
}

/// What the textures hold after the passes of a plan were issued in the
/// order of the plan, starting from `contents`.
pub open spec fn after_passes(
    contents: Map<Buffer, Seq<PassDescriptor>>,
    plan: Seq<PassDescriptor>,
) -> Map<Buffer, Seq<PassDescriptor>>
    decreases plan.len(),
{
    if plan.len() == 0 {
        contents
    } else {
        after_pass(after_passes(contents, plan.drop_last()), plan.last())
    }
}

/// Issued in order, a sequential plan applies every one of its passes to
/// the image of the view, in the order of the plan: that is what the
/// texture written last holds in the end. Every pass finds an image in
/// the texture that it reads.
pub proof fn lemma_sequential_plan_applies_every_pass(plan: Seq<PassDescriptor>)
    requires
        is_sequential(plan),
        plan.len() > 0,
    ensures
        after_passes(before_the_passes(), plan).contains_key(plan.last().destination),
        after_passes(before_the_passes(), plan)[plan.last().destination] == plan,
        after_passes(before_the_passes(), plan.drop_last()).contains_key(plan.last().source),
    decreases plan.len(),
{
    let earlier = plan.drop_last();
    let pass = plan.last();
    if earlier.len() == 0 {
        assert(pass == plan[0]);
        assert(after_passes(before_the_passes(), earlier) == before_the_passes());
        assert(before_the_passes()[Buffer::Front].push(pass) =~= plan);
    } else {
        assert(is_sequential(earlier)) by {
            assert forall|i: int, j: int|
                0 <= i && j == i + 1 && j < earlier.len() implies (#[trigger] earlier[j]).source
                == (#[trigger] earlier[i]).destination by {
                assert(earlier[j] == plan[j] && earlier[i] == plan[i]);
            }
            assert forall|i: int| 0 <= i < earlier.len() implies (#[trigger] earlier[i]).source
                != earlier[i].destination by {
                assert(earlier[i] == plan[i]);
            }
            assert(earlier[0] == plan[0]);
        }
        lemma_sequential_plan_applies_every_pass(earlier);
        let last = plan.len() - 1;
        assert(plan[last].source == plan[last - 1].destination);
        assert(earlier.last() == plan[last - 1]);
        assert(earlier.push(pass) =~= plan);
    }
}

/// The buffer that pass `index` of a chain reads, where the chain swaps
/// the two buffers of the view after every pass.
pub open spec fn ping_pong_source(index: int) -> Buffer {
    if index % 2 == 0 {
        Buffer::Front
    } else {
        Buffer::Back
    }
}

/// The buffer that pass `index` of a chain writes, where the chain swaps
/// the two buffers of the view after every pass.
pub open spec fn ping_pong_destination(index: int) -> Buffer {
    if index % 2 == 0 {
        Buffer::Back
    } else {
        Buffer::Front
    }
}

/// A pass at the size of the view that reads one buffer of the view and
/// writes the other.
pub open spec fn ping_pong_pass(
    index: int,
    entry: ShaderEntry,
    viewport: Extent,
    uniform: Option<usize>,
) -> PassDescriptor {
    PassDescriptor {
        entry,
        source: ping_pong_source(index),
        destination: ping_pong_destination(index),
        extent: viewport,
        uniform,
    }
}

/// Makes the pass at position `index` of a chain that swaps the two
/// buffers of the view after every pass.
pub fn ping_pong(
    index: usize,
    entry: ShaderEntry,
    viewport: Extent,
    uniform: Option<usize>,
) -> (pass: PassDescriptor)
    ensures
        pass == ping_pong_pass(index as int, entry, viewport, uniform),
        pass.source != pass.destination,
{
    if index % 2 == 0 {
        PassDescriptor {
            entry,
            source: Buffer::Front,
            destination: Buffer::Back,
            extent: viewport,
            uniform,
        }
    } else {
        PassDescriptor {
            entry,
            source: Buffer::Back,
            destination: Buffer::Front,
            extent: viewport,
            uniform,
        }
    }
}

} // verus!
