//! Sizes of render targets, and the sizes of the textures below a view.

use vstd::arithmetic::div_mod::{lemma_basic_div, lemma_div_denominator};
use vstd::arithmetic::power2::{
    lemma2_to64, lemma_pow2_pos, lemma_pow2_strictly_increases, lemma_pow2_unfold, pow2,
};
use vstd::bits::lemma_u32_shr_is_div;
use vstd::prelude::*;

verus! {

/// The size of a render target in physical pixels.
#[derive(Clone, Copy, Debug, PartialEq, Eq, Structural)]
pub struct Extent {
    /// The width in pixels.
    pub width: u32,
    /// The height in pixels.
    pub height: u32,
}

/// One dimension of a texture `level` halvings below a base dimension:
/// the base divided by `2^level` and rounded down, but never less than
/// one pixel.
pub open spec fn level_dimension(base: u32, level: nat) -> u32 {
    let halved = base as nat / pow2(level);
    if halved < 1 {
        1u32
    } else {
        halved as u32
    }
}

/// The size of the texture of a level below a view of size `base`. Level
/// 1 is the first texture below the view, with half its width and height.
pub open spec fn level_extent(base: Extent, level: nat) -> Extent {
    Extent {
        width: level_dimension(base.width, level),
        height: level_dimension(base.height, level),
    }
}

/// The sizes of the textures of levels 1 to `levels`, in that order.
pub open spec fn level_extents(base: Extent, levels: nat) -> Seq<Extent> {
    Seq::new(levels, |i: int| level_extent(base, (i + 1) as nat))
}

/// Each level has half the dimension of the level above it, rounded down
/// and never less than one pixel: halving level by level gives what the
/// division of the base gives.
pub proof fn lemma_level_dimension_halves(base: u32, level: nat)
    ensures
        level_dimension(base, level + 1) == if level_dimension(base, level) / 2 < 1 {
            1
        } else {
            level_dimension(base, level) / 2
        },
        1 <= level_dimension(base, level + 1) <= level_dimension(base, level),
        base >= 1 ==> level_dimension(base, 0) == base,
{
    lemma_pow2_pos(level);
    lemma_pow2_unfold(level + 1);
    lemma_div_denominator(base as int, pow2(level) as int, 2);
    assert(pow2(level) * 2 == 2 * pow2(level)) by (nonlinear_arith);
    assert(base as nat / pow2(level + 1) == (base as nat / pow2(level)) / 2);
    assert(pow2(0) == 1) by {
        lemma2_to64();
    }
}

/// Computes one dimension of the texture of a level.
pub fn level_size(base: u32, level: u32) -> (size: u32)
    ensures
        size == level_dimension(base, level as nat),
        size >= 1,
{
    if level >= 32 {
        proof {
            lemma2_to64();
            if level > 32 {
                lemma_pow2_strictly_increases(32, level as nat);
            }
            lemma_basic_div(base as int, pow2(level as nat) as int);
        }
        1
    } else {
        proof {
            lemma_u32_shr_is_div(base, level);
        }
        let halved: u32 = base >> level;
        if halved < 1 {
            1
        } else {
            halved
        }
    }
}

/// Computes the sizes of the textures of levels 1 to `levels` below a
/// view of size `base`, in that order.
pub fn level_sizes(base: Extent, levels: u32) -> (sizes: Vec<Extent>)
    ensures
        sizes@ == level_extents(base, levels as nat),
        sizes@.len() == levels,
{
    let mut sizes: Vec<Extent> = Vec::new();
    let mut level: u32 = 0;
    while level < levels
        invariant
            level <= levels,
            sizes@.len() == level,
            forall|i: int| 0 <= i < level ==> sizes@[i] == level_extent(base, (i + 1) as nat),
        decreases levels - level,
    {
        level += 1;
        sizes.push(base.at_level(level));
    }
    assert(sizes@ =~= level_extents(base, levels as nat));
    sizes
}

impl Extent {
    /// Computes the size of the texture of a level below a view of this
    /// size.
    pub fn at_level(&self, level: u32) -> (extent: Extent)
        ensures
            extent == level_extent(*self, level as nat),
            extent.width >= 1,
            extent.height >= 1,
    {
        Extent { width: level_size(self.width, level), height: level_size(self.height, level) }
    }
}

} // verus!
