//! The scratch textures of a camera that runs the dual blur.

use vstd::prelude::*;

use crate::dual_blur::settings::DualBlurSettings;
use crate::extent::Extent;
use crate::texture_cache::{CacheError, CachedTexture, TextureCache};

verus! {

/// The scratch textures of one camera for one frame: the texture of level
/// 1 first, then that of level 2, and so on.
#[derive(Debug)]
pub struct DualBlurTexture {
    textures: Vec<CachedTexture>,
    fresh: bool,
    released: Vec<CachedTexture>,
}

impl View for DualBlurTexture {
    type V = Seq<CachedTexture>;

    /// The textures, from level 1 downwards.
    closed spec fn view(&self) -> Seq<CachedTexture> {
        self.textures@
    }
}

impl DualBlurTexture {
    /// Whether the textures are fresh, for the host to create.
    pub closed spec fn fresh(&self) -> bool {
        self.fresh
    }

    /// The textures that the fresh ones replace, for the host to destroy.
    pub closed spec fn released(&self) -> Seq<CachedTexture> {
        self.released@
    }

    /// Whether the textures are fresh. The host creates fresh textures
    /// before the passes of the frame run.
    pub fn is_fresh(&self) -> (fresh: bool)
        ensures
            fresh == self.fresh(),
    {
        self.fresh
    }

    /// The textures that the camera held before and that the fresh ones
    /// replace. The host destroys them.
    pub fn replaced(&self) -> (released: &Vec<CachedTexture>)
        ensures
            released@ == self.released(),
    {
        &self.released
    }

    /// The number of textures, which is the number of levels.
    pub fn len(&self) -> (n: usize)
        ensures
            n == self@.len(),
    {
        self.textures.len()
    }

    /// The texture at a position of the list; position 0 holds level 1.
    pub fn texture(&self, index: usize) -> (texture: CachedTexture)
        requires
            index < self@.len(),
        ensures
            texture == self@[index as int],
    {
        self.textures[index]
    }

    /// The texture of a level, if the camera has one for it: levels count
    /// from 1, the first texture below the view.
    pub fn level(&self, level: u32) -> (texture: Option<CachedTexture>)
        ensures
            texture is Some <==> 1 <= level <= self@.len(),
            texture matches Some(found) ==> found == self@[level - 1],
    {
        if level == 0 {
            return None;
        }
        let index: usize = (level - 1) as usize;
        if index < self.textures.len() {
            Some(self.textures[index])
        } else {
            None
        }
    }
}

/// Prepares the scratch textures of one camera for the frame: one for
/// each downsampling pass of its settings, acquired from the cache for the
/// size of its viewport.
///
/// A camera without a viewport size gets none, and the cache is left as
/// it is. A camera for which the cache cannot allocate gets none either:
/// its effect is skipped for the frame.
pub fn prepare_dual_blur_textures(
    texture_cache: &mut TextureCache,
    camera_id: u64,
    physical_viewport_size: Option<Extent>,
    settings: &DualBlurSettings,
) -> (prepared: Option<DualBlurTexture>)
    requires
        old(texture_cache).wf(),
    ensures
        final(texture_cache).wf(),
        match physical_viewport_size {
            Some(viewport) => {
                &&& final(texture_cache)@ == old(texture_cache)@.after_acquire(
                    camera_id,
                    settings.downsampling_passes as nat,
                    viewport,
                )
                &&& match prepared {
                    Some(textures) => {
                        &&& old(texture_cache)@.acquired(
                            camera_id,
                            settings.downsampling_passes as nat,
                            viewport,
                        ) == Ok::<Seq<CachedTexture>, CacheError>(textures@)
                        &&& textures.fresh() == old(texture_cache)@.reallocates(
                            camera_id,
                            settings.downsampling_passes as nat,
                            viewport,
                        )
                        &&& textures.released() == old(texture_cache)@.released(
                            camera_id,
                            settings.downsampling_passes as nat,
                            viewport,
                        )
                    },
                    None => old(texture_cache)@.acquired(
                        camera_id,
                        settings.downsampling_passes as nat,
                        viewport,
                    ) is Err,
                }
            },
            None => prepared is None && final(texture_cache)@ == old(texture_cache)@,
        },
{
    match physical_viewport_size {
        Some(viewport) => {
            match texture_cache.acquire(camera_id, settings.downsampling_passes, viewport) {
                Ok(acquisition) => Some(
                    DualBlurTexture {
                        textures: acquisition.textures,
                        fresh: acquisition.fresh,
                        released: acquisition.released,
                    },
                ),
                Err(_) => None,
            }
        },
        None => None,
    }
}

} // verus!
