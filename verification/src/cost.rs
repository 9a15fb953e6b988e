//! The cost of an effect, counted in texture samplings per pixel.

use vstd::prelude::*;

verus! {

/// A mean number of texture samplings per pixel, as an exact fraction.
///
/// Passes that run below the resolution of the view sample less than once
/// per pixel of the view, so the mean need not be a whole number.
#[derive(Clone, Copy, Debug, PartialEq, Eq, Structural)]
pub struct SamplingCost {
    /// The numerator of the fraction.
    pub numerator: u64,
    /// The denominator of the fraction; never zero for a cost that one of
    /// the settings of this library reports.
    pub denominator: u64,
}

} // verus!
