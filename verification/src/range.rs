//! Bringing raw integers into the ranges the shaders accept.

use vstd::prelude::*;

verus! {

/// `v` brought into the closed range from `lo` to `hi`: values below `lo`
/// become `lo`, values above `hi` become `hi`, all others stay.
pub open spec fn clamped(v: int, lo: int, hi: int) -> int {
    if v < lo {
        lo
    } else if v > hi {
        hi
    } else {
        v
    }
}

/// The least odd number that is not below `v`.
pub open spec fn odd_at_least(v: int) -> int {
    if v % 2 == 0 {
        v + 1
    } else {
        v
    }
}

/// The least kernel size; a kernel of this size leaves the image as it is.
pub const KERNEL_SIZE_MIN: u32 = 1;

/// The greatest kernel size. It is odd, so forcing parity after the clamp
/// never leaves the range.
pub const KERNEL_SIZE_MAX: u32 = 401;

/// The kernel size that the shaders get for a raw kernel size `v`: `v`
/// clamped to the legal range, and then the least odd number not below it.
pub open spec fn legal_kernel_size(v: int) -> int {
    odd_at_least(clamped(v, KERNEL_SIZE_MIN as int, KERNEL_SIZE_MAX as int))
}

/// Clamps `v` to the closed range from `lo` to `hi`.
pub fn clamp(v: u32, lo: u32, hi: u32) -> (r: u32)
    requires
        lo <= hi,
    ensures
        r == clamped(v as int, lo as int, hi as int),
        lo <= r <= hi,
{
    if v < lo {
        lo
    } else if v > hi {
        hi
    } else {
        v
    }
}

/// Replaces an even `v` by the odd number that follows it; an odd `v` stays.
///
/// The largest `u32` is odd, so the result always fits.
pub fn force_odd(v: u32) -> (r: u32)
    ensures
        r == odd_at_least(v as int),
        r % 2 == 1,
        v <= r <= v + 1,
{
    if v % 2 == 0 {
        v + 1
    } else {
        v
    }
}

/// Makes a raw kernel size legal: clamps it to the range from 1 to 401 and
/// replaces an even value by the odd one that follows it.
pub fn legalize_kernel_size(v: u32) -> (r: u32)
    ensures
        r == legal_kernel_size(v as int),
        KERNEL_SIZE_MIN <= r <= KERNEL_SIZE_MAX,
        r % 2 == 1,
{
    force_odd(clamp(v, KERNEL_SIZE_MIN, KERNEL_SIZE_MAX))
}

/// A legal kernel size is odd, lies in the legal range, and is left as it
/// is by another legalization.
pub proof fn lemma_legal_kernel_size(v: int)
    ensures
        legal_kernel_size(v) % 2 == 1,
        KERNEL_SIZE_MIN <= legal_kernel_size(v) <= KERNEL_SIZE_MAX,
        legal_kernel_size(legal_kernel_size(v)) == legal_kernel_size(v),
{
}

} // verus!
