//! Settings of the Kawase blur and the uniforms derived from them.

use vstd::prelude::*;

use crate::cost::SamplingCost;
use crate::range::{clamp, clamped};
use crate::BlurSetting;

verus! {

/// The greatest sampling distance of a pass; the least is 0.
pub const SAMPLING_DISTANCE_MAX: u32 = 9;

/// Applies a Kawase blur to a 2D or 3D camera.
#[derive(Debug, PartialEq, Eq)]
pub struct KawaseBlurSettings {
    /// The sampling distance of each pass, in the order of the passes.
    /// A pass with distance `d` gives each pixel the mean of the four
    /// texels sampled at the corners `(d + 0.5, d + 0.5)`,
    /// `(-d - 0.5, d + 0.5)`, `(-d - 0.5, -d - 0.5)` and
    /// `(d + 0.5, -d - 0.5)` around it.
    /// - Each value is clamped to the range from 0 to 9.
    /// - An empty list disables the effect.
    pub sampling_distances: Vec<u32>,
}

impl View for KawaseBlurSettings {
    type V = Seq<u32>;

    /// The sampling distances, in the order of the passes.
    open spec fn view(&self) -> Seq<u32> {
        self.sampling_distances@
    }
}

impl Clone for KawaseBlurSettings {
    fn clone(&self) -> (copy: Self)
        ensures
            copy@ == self@,
    {
        KawaseBlurSettings { sampling_distances: self.sampling_distances.clone() }
    }
}

/// The values that the Kawase blur shader consumes in one pass.
#[derive(Clone, Copy, Debug, PartialEq, Eq, Structural)]
pub struct KawaseBlurUniforms {
    /// The sampling distance of the pass.
    pub sampling_distance: u32,
}

/// The sampling distance that the shader gets for a raw distance.
pub open spec fn legal_distance(distance: u32) -> u32 {
    clamped(distance as int, 0, SAMPLING_DISTANCE_MAX as int) as u32
}

/// Each distance made legal by itself; the number and the order of the
/// distances stay.
pub open spec fn legal_distances(distances: Seq<u32>) -> Seq<u32> {
    Seq::new(distances.len(), |i: int| legal_distance(distances[i]))
}

/// The distances that the passes run with: none where the list is empty,
/// which disables the effect, else each distance made legal.
pub open spec fn projected_distances(distances: Seq<u32>) -> Option<Seq<u32>> {
    if distances.len() == 0 {
        None
    } else {
        Some(legal_distances(distances))
    }
}

/// Whether every distance is legal as it stands.
pub open spec fn distances_are_legal(distances: Seq<u32>) -> bool {
    forall|i: int| 0 <= i < distances.len() ==> distances[i] <= SAMPLING_DISTANCE_MAX
}

impl Default for KawaseBlurSettings {
    fn default() -> (settings: Self)
        ensures
            settings@ == seq![0u32, 1u32, 2u32, 2u32, 3u32],
    {
        let mut sampling_distances: Vec<u32> = Vec::new();
        sampling_distances.push(0);
        sampling_distances.push(1);
        sampling_distances.push(2);
        sampling_distances.push(2);
        sampling_distances.push(3);
        assert(sampling_distances@ =~= seq![0u32, 1u32, 2u32, 2u32, 3u32]);
        KawaseBlurSettings { sampling_distances }
    }
}

impl BlurSetting for KawaseBlurSettings {
    open spec fn is_no_blur(&self) -> bool {
        self@.len() == 0
    }

    open spec fn pass_count(&self) -> nat {
        self@.len()
    }

    open spec fn sampling_numerator(&self) -> nat {
        4 * self@.len()
    }

    open spec fn sampling_denominator(&self) -> nat {
        1
    }

    proof fn lemma_no_blur_is_free(&self) {
    }

    fn no_blur() -> (setting: Self)
        ensures
            setting@ == Seq::<u32>::empty(),
    {
        KawaseBlurSettings { sampling_distances: Vec::new() }
    }

    fn sampling_per_pixel(&self) -> (cost: SamplingCost) {
        SamplingCost { numerator: 4 * (self.sampling_distances.len() as u64), denominator: 1 }
    }

    fn passes(&self) -> (n: u32) {
        self.sampling_distances.len() as u32
    }
}

impl KawaseBlurSettings {
    /// Computes new settings in which every distance is legal for the
    /// shader. The number of distances stays as it is.
    pub fn create_concrete(&self) -> (concrete: KawaseBlurSettings)
        ensures
            concrete@ == legal_distances(self@),
            concrete@.len() == self@.len(),
            distances_are_legal(concrete@),
    {
        let mut sampling_distances: Vec<u32> = Vec::new();
        let mut i: usize = 0;
        while i < self.sampling_distances.len()
            invariant
                i <= self.sampling_distances.len(),
                sampling_distances@.len() == i,
                forall|j: int|
                    0 <= j < i ==> sampling_distances@[j] == legal_distance(
                        #[trigger] self.sampling_distances@[j],
                    ),
            decreases self.sampling_distances.len() - i,
        {
            sampling_distances.push(clamp(self.sampling_distances[i], 0, SAMPLING_DISTANCE_MAX));
            i += 1;
        }
        assert(sampling_distances@ =~= legal_distances(self@));
        KawaseBlurSettings { sampling_distances }
    }

    /// Projects the settings of a camera to the legal settings that its
    /// passes run with, or to nothing where the effect is disabled.
    pub fn extract_component(settings: &KawaseBlurSettings) -> (out: Option<KawaseBlurSettings>)
        ensures
            match out {
                Some(concrete) => projected_distances(settings@) == Some(concrete@),
                None => projected_distances(settings@) is None,
            },
            out is None <==> settings.is_no_blur(),
            out matches Some(concrete) ==> distances_are_legal(concrete@)
                && !concrete.is_no_blur(),
    {
        if settings.sampling_distances.len() == 0 {
            None
        } else {
            Some(settings.create_concrete())
        }
    }
}

/// Legalizing twice gives what legalizing once gives, for every list of
/// raw distances; and legalizing keeps the number of distances.
pub proof fn lemma_kawase_legalized_idempotent(distances: Seq<u32>)
    ensures
        legal_distances(legal_distances(distances)) == legal_distances(distances),
        legal_distances(distances).len() == distances.len(),
        distances_are_legal(legal_distances(distances)),
        distances_are_legal(distances) ==> legal_distances(distances) == distances,
{
    assert(legal_distances(legal_distances(distances)) =~= legal_distances(distances));
    if distances_are_legal(distances) {
        assert(legal_distances(distances) =~= distances);
    }
}

/// Legal distances project to nothing exactly where they are the empty
/// list, the one value that stands for no blur; that is where the raw
/// list is empty; and the projection of raw distances is that of their
/// legal form.
pub proof fn lemma_kawase_disable_gate(distances: Seq<u32>)
    ensures
        projected_distances(legal_distances(distances)) is None <==> legal_distances(distances)
            == Seq::<u32>::empty(),
        projected_distances(legal_distances(distances)) == projected_distances(distances),
        projected_distances(distances) is None <==> distances.len() == 0,
{
    lemma_kawase_legalized_idempotent(distances);
    assert(legal_distances(distances).len() == distances.len());
    if distances.len() == 0 {
        assert(legal_distances(distances) =~= Seq::<u32>::empty());
    }
}

} // verus!
