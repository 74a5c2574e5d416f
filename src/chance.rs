//! Random draws, from `rand`'s thread-local generator.

use rand::Rng;
use vstd::prelude::*;

verus! {

/// Relies on `rand::Rng::gen_range` over an inclusive range: a value in
/// `lo..=hi`; it panics on an empty range, which `requires` rules out.
#[verifier::external_body]
pub(crate) fn random_in(lo: u64, hi: u64) -> (r: u64)
    requires
        lo <= hi,
    ensures
        lo <= r <= hi,
{
    rand::thread_rng().gen_range(lo..=hi)
}

/// Relies on `rand::Rng::gen_ratio`: `true` with chance
/// `numerator / denominator`, always when the two are equal and never when
/// the numerator is zero; it panics when `denominator == 0` or
/// `numerator > denominator`, which `requires` rules out.
#[verifier::external_body]
pub(crate) fn random_ratio(numerator: u32, denominator: u32) -> (r: bool)
    requires
        0 < denominator,
        numerator <= denominator,
    ensures
        numerator == denominator ==> r,
        numerator == 0 ==> !r,
{
    rand::thread_rng().gen_ratio(numerator, denominator)
}

} // verus!
