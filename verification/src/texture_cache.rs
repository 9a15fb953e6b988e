//! The cache of the scratch textures of the cameras.
//!
//! A camera that runs a multi-pass effect below the size of its view needs
//! one scratch texture per level. The cache hands out handles for them. It
//! keeps the set of a camera from frame to frame for as long as the number
//! of levels and the size of every level stay the same, and replaces the
//! whole set by fresh textures when either changes. A texture is never
//! resized in place, and never shared between two cameras.

use std::collections::HashMap;
use vstd::prelude::*;
use vstd::std_specs::hash::group_hash_axioms;

use crate::extent::{level_extents, level_sizes, Extent};

verus! {

broadcast use group_hash_axioms;

/// A scratch texture: a full texture of its own with a single mip level,
/// usable as a render attachment and as a sampled texture.
#[derive(Clone, Copy, Debug, PartialEq, Eq, Structural)]
pub struct CachedTexture {
    /// The handle of the texture. No two textures that a cache hands out
    /// have the same handle.
    pub handle: u64,
    /// The size of the texture.
    pub extent: Extent,
}

/// What the host creates for a scratch texture. The format is that of the
/// colour target of the view, which only the host knows.
#[derive(Clone, Copy, Debug)]
pub struct TextureDescriptor {
    /// The label of the texture, for debugging.
    pub label: &'static str,
    /// The width and height of the texture.
    pub size: Extent,
    /// The depth of the texture: a single layer.
    pub depth_or_array_layers: u32,
    /// The number of mip levels: each level of an effect is a texture of
    /// its own, not a mip of one allocation.
    pub mip_level_count: u32,
    /// The number of samples per texel.
    pub sample_count: u32,
    /// Whether passes can render to the texture.
    pub render_attachment: bool,
    /// Whether passes can sample the texture.
    pub texture_binding: bool,
}

impl CachedTexture {
    /// Describes the texture to create for this handle: two-dimensional,
    /// of the size of its level, with one layer, one mip level and one
    /// sample per texel, to render to and to sample from. It is labelled
    /// for the dual blur, the one effect that works below the size of the
    /// view.
    pub fn descriptor(&self) -> (descriptor: TextureDescriptor)
        ensures
            descriptor.label@ == "dual_blur_texture"@,
            descriptor.size == self.extent,
            descriptor.depth_or_array_layers == 1,
            descriptor.mip_level_count == 1,
            descriptor.sample_count == 1,
            descriptor.render_attachment,
            descriptor.texture_binding,
    {
        TextureDescriptor {
            label: "dual_blur_texture",
            size: self.extent,
            depth_or_array_layers: 1,
            mip_level_count: 1,
            sample_count: 1,
            render_attachment: true,
            texture_binding: true,
        }
    }
}

/// What an acquisition hands to the host.
#[derive(Debug, PartialEq, Eq)]
pub struct Acquisition {
    /// The textures of the camera, from level 1 downwards.
    pub textures: Vec<CachedTexture>,
    /// Whether the textures are fresh. The host creates fresh textures
    /// before the passes of the frame run; it has those of a reused set
    /// from the frame that first acquired them.
    pub fresh: bool,
    /// The textures that the camera held before and that the fresh set
    /// replaces. The host destroys them; their handles never come back.
    pub released: Vec<CachedTexture>,
}

/// Why a cache could not hand out textures.
#[derive(Clone, Copy, Debug, PartialEq, Eq, Structural)]
pub enum CacheError {
    /// The allocator has no handles left for the textures asked for.
    HandlesExhausted,
}

/// What a cache holds: the set of textures of each camera, from level 1
/// downwards, and the handle that the next fresh texture gets.
pub struct CacheModel {
    /// The textures of each camera that has any.
    pub sets: Map<u64, Seq<CachedTexture>>,
    /// The least handle that was never handed out.
    pub next_handle: nat,
}

/// The sizes of a set of textures, in the order of the set.
pub open spec fn extents_of(textures: Seq<CachedTexture>) -> Seq<Extent> {
    Seq::new(textures.len(), |i: int| textures[i].extent)
}

/// A set of fresh textures of the given sizes, with consecutive handles
/// from `first_handle` on.
pub open spec fn fresh_textures(first_handle: nat, extents: Seq<Extent>) -> Seq<CachedTexture> {
    Seq::new(
        extents.len(),
        |i: int| CachedTexture { handle: (first_handle + i) as u64, extent: extents[i] },
    )
}

impl CacheModel {
    /// Whether the cache holds a set for the camera with exactly the
    /// given number and sizes of levels.
    pub open spec fn holds(self, camera_id: u64, extents: Seq<Extent>) -> bool {
        self.sets.contains_key(camera_id) && extents_of(self.sets[camera_id]) == extents
    }

    /// Whether the allocator has handles left for `levels` fresh
    /// textures.
    pub open spec fn can_allocate(self, levels: nat) -> bool {
        self.next_handle + levels <= u64::MAX
    }

    /// What an acquisition for the camera returns: the set that the cache
    /// holds where it fits, else a fresh set, else an error.
    pub open spec fn acquired(
        self,
        camera_id: u64,
        levels: nat,
        base_size: Extent,
    ) -> Result<Seq<CachedTexture>, CacheError> {
        let wanted = level_extents(base_size, levels);
        if self.holds(camera_id, wanted) {
            Ok(self.sets[camera_id])
        } else if self.can_allocate(levels) {
            Ok(fresh_textures(self.next_handle, wanted))
        } else {
            Err(CacheError::HandlesExhausted)
        }
    }

    /// Whether an acquisition for the camera allocates a fresh set: the
    /// cache holds no set that fits, and the allocator has handles left.
    pub open spec fn reallocates(self, camera_id: u64, levels: nat, base_size: Extent) -> bool {
        !self.holds(camera_id, level_extents(base_size, levels)) && self.can_allocate(levels)
    }

    /// The textures that an acquisition for the camera releases: the set
    /// that the camera held, where a fresh set replaces it.
    pub open spec fn released(
        self,
        camera_id: u64,
        levels: nat,
        base_size: Extent,
    ) -> Seq<CachedTexture> {
        if self.reallocates(camera_id, levels, base_size) && self.sets.contains_key(camera_id) {
            self.sets[camera_id]
        } else {
            Seq::empty()
        }
    }

    /// What the cache holds after an acquisition for the camera: the same
    /// where the set was reused or nothing could be allocated, else the
    /// fresh set in place of whatever the camera had; the sets of the
    /// other cameras stay.
    pub open spec fn after_acquire(
        self,
        camera_id: u64,
        levels: nat,
        base_size: Extent,
    ) -> CacheModel {
        let wanted = level_extents(base_size, levels);
        if self.holds(camera_id, wanted) || !self.can_allocate(levels) {
            self
        } else {
            CacheModel {
                sets: self.sets.insert(camera_id, fresh_textures(self.next_handle, wanted)),
                next_handle: self.next_handle + levels,
            }
        }
    }

    /// The invariant of a cache: every handle in it was handed out before,
    /// and no handle occurs twice, neither within the set of a camera nor
    /// in the sets of two cameras.
    pub open spec fn wf(self) -> bool {
        &&& self.next_handle <= u64::MAX
        &&& forall|camera: u64, i: int|
            self.sets.contains_key(camera) && 0 <= i < self.sets[camera].len() ==> (
            #[trigger] self.sets[camera][i]).handle < self.next_handle
        &&& forall|camera: u64, i: int, other: u64, j: int|
            self.sets.contains_key(camera) && 0 <= i < self.sets[camera].len()
                && self.sets.contains_key(other) && 0 <= j < self.sets[other].len() && (
            #[trigger] self.sets[camera][i]).handle == (#[trigger] self.sets[other][j]).handle
                ==> camera == other && i == j
    }
}

/// A cache that is well formed stays so through every acquisition.
pub proof fn lemma_acquire_keeps_wf(
    cache: CacheModel,
    camera_id: u64,
    levels: nat,
    base_size: Extent,
)
    requires
        cache.wf(),
    ensures
        cache.after_acquire(camera_id, levels, base_size).wf(),
        cache.after_acquire(camera_id, levels, base_size).next_handle >= cache.next_handle,
{
    let wanted = level_extents(base_size, levels);
    let after = cache.after_acquire(camera_id, levels, base_size);
    if !(cache.holds(camera_id, wanted) || !cache.can_allocate(levels)) {
        let fresh = fresh_textures(cache.next_handle, wanted);
        assert forall|camera: u64, i: int|
            after.sets.contains_key(camera) && 0 <= i < after.sets[camera].len() implies (
        #[trigger] after.sets[camera][i]).handle < after.next_handle by {
            if camera == camera_id {
                assert(fresh[i].handle == cache.next_handle + i);
            } else {
                assert(cache.sets[camera][i].handle < cache.next_handle);
            }
        }
        assert forall|camera: u64, i: int, other: u64, j: int|
            after.sets.contains_key(camera) && 0 <= i < after.sets[camera].len()
                && after.sets.contains_key(other) && 0 <= j < after.sets[other].len() && (
            #[trigger] after.sets[camera][i]).handle == (
            #[trigger] after.sets[other][j]).handle implies camera == other && i == j by {
            if camera == camera_id {
                assert(fresh[i].handle == cache.next_handle + i);
            } else {
                assert(cache.sets[camera][i].handle < cache.next_handle);
            }
            if other == camera_id {
                assert(fresh[j].handle == cache.next_handle + j);
            } else {
                assert(cache.sets[other][j].handle < cache.next_handle);
            }
        }
    }
}

/// An acquisition that succeeded, repeated for the same camera with the
/// same number of levels and the same base size, returns the same
/// textures and leaves the cache as it is: nothing is allocated again,
/// and nothing is released.
pub proof fn lemma_acquire_again_reuses(
    cache: CacheModel,
    camera_id: u64,
    levels: nat,
    base_size: Extent,
)
    requires
        cache.acquired(camera_id, levels, base_size) is Ok,
    ensures
        ({
            let after = cache.after_acquire(camera_id, levels, base_size);
            &&& after.acquired(camera_id, levels, base_size) == cache.acquired(
                camera_id,
                levels,
                base_size,
            )
            &&& after.after_acquire(camera_id, levels, base_size) == after
            &&& !after.reallocates(camera_id, levels, base_size)
            &&& after.released(camera_id, levels, base_size) == Seq::<CachedTexture>::empty()
        }),
{
    let wanted = level_extents(base_size, levels);
    let after = cache.after_acquire(camera_id, levels, base_size);
    if !cache.holds(camera_id, wanted) {
        assert(extents_of(fresh_textures(cache.next_handle, wanted)) =~= wanted);
        assert(after.holds(camera_id, wanted));
    }
}

/// An acquisition for a camera whose number of levels or level sizes have
/// changed replaces the whole set: the set that the camera held is
/// released, and each texture returned is fresh, with a handle that no
/// texture in the cache had before, and has the size of its level.
pub proof fn lemma_acquire_changed_reallocates(
    cache: CacheModel,
    camera_id: u64,
    levels: nat,
    base_size: Extent,
)
    requires
        cache.wf(),
        !cache.holds(camera_id, level_extents(base_size, levels)),
        cache.acquired(camera_id, levels, base_size) is Ok,
    ensures
        ({
            let textures = cache.acquired(camera_id, levels, base_size)->Ok_0;
            let after = cache.after_acquire(camera_id, levels, base_size);
            &&& cache.reallocates(camera_id, levels, base_size)
            &&& cache.sets.contains_key(camera_id) ==> cache.released(camera_id, levels, base_size)
                == cache.sets[camera_id]
            &&& textures.len() == levels
            &&& after.sets[camera_id] == textures
            &&& extents_of(textures) == level_extents(base_size, levels)
            &&& forall|i: int|
                0 <= i < levels ==> (#[trigger] textures[i]).handle == cache.next_handle + i
            &&& forall|i: int, camera: u64, j: int|
                0 <= i < levels && cache.sets.contains_key(camera) && 0 <= j
                    < cache.sets[camera].len() ==> (#[trigger] textures[i]).handle != (
                #[trigger] cache.sets[camera][j]).handle
        }),
{
    let wanted = level_extents(base_size, levels);
    let textures = fresh_textures(cache.next_handle, wanted);
    assert(extents_of(textures) =~= wanted);
    assert forall|i: int, camera: u64, j: int|
        0 <= i < levels && cache.sets.contains_key(camera) && 0 <= j
            < cache.sets[camera].len() implies (#[trigger] textures[i]).handle != (
    #[trigger] cache.sets[camera][j]).handle by {
        assert(cache.sets[camera][j].handle < cache.next_handle);
        assert(textures[i].handle == cache.next_handle + i);
    }
}

/// After a camera has acquired its textures, an acquisition for the same
/// camera and as many levels, but for a base size that changes the size
/// of a level, replaces every texture: it releases the textures that the
/// first acquisition returned, and the textures it returns have the sizes
/// of the levels below the new base size, and none of them has the handle
/// of a texture that the first acquisition returned.
pub proof fn lemma_acquire_resized_reallocates(
    cache: CacheModel,
    camera_id: u64,
    levels: nat,
    base_size: Extent,
    new_base_size: Extent,
)
    requires
        cache.wf(),
        level_extents(new_base_size, levels) != level_extents(base_size, levels),
        cache.acquired(camera_id, levels, base_size) is Ok,
        cache.after_acquire(camera_id, levels, base_size).acquired(
            camera_id,
            levels,
            new_base_size,
        ) is Ok,
    ensures
        ({
            let before = cache.acquired(camera_id, levels, base_size)->Ok_0;
            let held = cache.after_acquire(camera_id, levels, base_size);
            let after = held.acquired(camera_id, levels, new_base_size)->Ok_0;
            &&& held.reallocates(camera_id, levels, new_base_size)
            &&& held.released(camera_id, levels, new_base_size) == before
            &&& before.len() == levels
            &&& after.len() == levels
            &&& extents_of(after) == level_extents(new_base_size, levels)
            &&& forall|i: int, j: int|
                0 <= i < levels && 0 <= j < levels ==> (#[trigger] after[i]).handle != (
                #[trigger] before[j]).handle
        }),
{
    let wanted = level_extents(base_size, levels);
    let before = cache.acquired(camera_id, levels, base_size)->Ok_0;
    let held = cache.after_acquire(camera_id, levels, base_size);
    lemma_acquire_keeps_wf(cache, camera_id, levels, base_size);
    lemma_acquire_again_reuses(cache, camera_id, levels, base_size);
    assert(held.holds(camera_id, wanted)) by {
        if !cache.holds(camera_id, wanted) {
            assert(extents_of(fresh_textures(cache.next_handle, wanted)) =~= wanted);
        }
    }
    assert(held.sets[camera_id] == before);
    assert(extents_of(before).len() == wanted.len());
    lemma_acquire_changed_reallocates(held, camera_id, levels, new_base_size);
}

/// An acquisition for one camera leaves the sets of all other cameras as
/// they are.
pub proof fn lemma_acquire_keeps_other_cameras(
    cache: CacheModel,
    camera_id: u64,
    levels: nat,
    base_size: Extent,
    other: u64,
)
    requires
        other != camera_id,
    ensures
        ({
            let after = cache.after_acquire(camera_id, levels, base_size);
            &&& after.sets.contains_key(other) == cache.sets.contains_key(other)
            &&& cache.sets.contains_key(other) ==> after.sets[other] == cache.sets[other]
        }),
{
}

/// The cache of the scratch textures of all cameras.
pub struct TextureCache {
    sets: HashMap<u64, Vec<CachedTexture>>,
    next_handle: u64,
}

impl View for TextureCache {
    type V = CacheModel;

    /// What the cache holds.
    closed spec fn view(&self) -> CacheModel {
        CacheModel {
            sets: Map::new(
                |camera: u64| self.sets@.contains_key(camera),
                |camera: u64| self.sets@[camera]@,
            ),
            next_handle: self.next_handle as nat,
        }
    }
}

/// Whether a set of textures has exactly the given sizes, level by level.
fn has_extents(textures: &Vec<CachedTexture>, extents: &Vec<Extent>) -> (same: bool)
    ensures
        same == (extents_of(textures@) == extents@),
{
    if textures.len() != extents.len() {
        assert(extents_of(textures@).len() != extents@.len());
        return false;
    }
    let mut i: usize = 0;
    while i < textures.len()
        invariant
            i <= textures.len(),
            textures.len() == extents.len(),
            forall|j: int| 0 <= j < i ==> (#[trigger] textures@[j]).extent == extents@[j],
        decreases textures.len() - i,
    {
        if textures[i].extent != extents[i] {
            assert(extents_of(textures@)[i as int] != extents@[i as int]);
            return false;
        }
        i += 1;
    }
    assert(extents_of(textures@) =~= extents@);
    true
}

impl TextureCache {
    /// Whether the cache is well formed. A new cache is, and every
    /// acquisition keeps it so.
    pub open spec fn wf(&self) -> bool {
        self@.wf()
    }

    /// A cache that holds no texture and has handed out no handle.
    pub fn new() -> (cache: TextureCache)
        ensures
            cache.wf(),
            cache@.sets == Map::<u64, Seq<CachedTexture>>::empty(),
            cache@.next_handle == 0,
    {
        let cache = TextureCache { sets: HashMap::new(), next_handle: 0 };
        assert(cache@.sets =~= Map::<u64, Seq<CachedTexture>>::empty());
        cache
    }

    /// A cache that holds no texture and hands out handles from
    /// `first_handle` on, for a host that keeps the handles below it for
    /// textures of its own.
    pub fn starting_at(first_handle: u64) -> (cache: TextureCache)
        ensures
            cache.wf(),
            cache@.sets == Map::<u64, Seq<CachedTexture>>::empty(),
            cache@.next_handle == first_handle,
    {
        let cache = TextureCache { sets: HashMap::new(), next_handle: first_handle };
        assert(cache@.sets =~= Map::<u64, Seq<CachedTexture>>::empty());
        cache
    }

    /// Hands out the scratch textures of a camera: one for each of the
    /// levels 1 to `levels` below a view of size `base_size`.
    ///
    /// The textures of the frame before are handed out again where the
    /// camera had the same number of levels with the same sizes. Else the
    /// whole set is replaced by fresh textures. The acquisition fails only
    /// where the allocator has no handles left; the cache is then left as
    /// it was.
    pub fn acquire(
        &mut self,
        camera_id: u64,
        levels: u32,
        base_size: Extent,
    ) -> (result: Result<Acquisition, CacheError>)
        requires
            old(self).wf(),
        ensures
            final(self).wf(),
            final(self)@ == old(self)@.after_acquire(camera_id, levels as nat, base_size),
            match result {
                Ok(acquisition) => {
                    &&& old(self)@.acquired(camera_id, levels as nat, base_size) == Ok::<
                        Seq<CachedTexture>,
                        CacheError,
                    >(acquisition.textures@)
                    &&& acquisition.fresh == old(self)@.reallocates(
                        camera_id,
                        levels as nat,
                        base_size,
                    )
                    &&& acquisition.released@ == old(self)@.released(
                        camera_id,
                        levels as nat,
                        base_size,
                    )
                },
                Err(error) => old(self)@.acquired(camera_id, levels as nat, base_size) == Err::<
                    Seq<CachedTexture>,
                    CacheError,
                >(error),
            },
    {
        let wanted = level_sizes(base_size, levels);
        match self.sets.get(&camera_id) {
            Some(textures) => {
                if has_extents(textures, &wanted) {
                    return Ok(
                        Acquisition {
                            textures: textures.clone(),
                            fresh: false,
                            released: Vec::new(),
                        },
                    );
                }
            },
            None => {},
        }
        assert(!old(self)@.holds(camera_id, wanted@));
        if levels as u64 > u64::MAX - self.next_handle {
            return Err(CacheError::HandlesExhausted);
        }
        let first_handle: u64 = self.next_handle;
        let mut fresh: Vec<CachedTexture> = Vec::new();
        let mut i: usize = 0;
        while i < wanted.len()
            invariant
                i <= wanted.len(),
                wanted.len() == levels,
                first_handle + levels <= u64::MAX,
                fresh@.len() == i,
                forall|j: int|
                    0 <= j < i ==> fresh@[j] == (CachedTexture {
                        handle: (first_handle + j) as u64,
                        extent: wanted@[j],
                    }),
            decreases wanted.len() - i,
        {
            fresh.push(CachedTexture { handle: first_handle + i as u64, extent: wanted[i] });
            i += 1;
        }
        assert(fresh@ =~= fresh_textures(first_handle as nat, wanted@));
        let textures = fresh.clone();
        let released = match self.sets.insert(camera_id, fresh) {
            Some(replaced) => replaced,
            None => Vec::new(),
        };
        self.next_handle = first_handle + levels as u64;
        proof {
            assert(self@.sets =~= old(self)@.sets.insert(
                camera_id,
                fresh_textures(first_handle as nat, wanted@),
            ));
            lemma_acquire_keeps_wf(old(self)@, camera_id, levels as nat, base_size);
        }
        Ok(Acquisition { textures, fresh: true, released })
    }
}

} // verus!
