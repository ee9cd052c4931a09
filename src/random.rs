//! The random draws that the simulation makes, through `rand`.
use rand::rngs::StdRng;
use rand::Rng;
use vstd::prelude::*;

verus! {

/// The generator handed to every function that draws: `rand`'s seedable `StdRng`.
#[verifier::external_type_specification]
#[verifier::external_body]
pub struct ExStdRng(StdRng);

/// Relies on `rand::Rng::gen_range` over an inclusive `i64` range: the value
/// lies within the range; the call panics only on an empty range.
#[verifier::external_body]
pub(crate) fn draw_between(rng: &mut StdRng, low: i64, high: i64) -> (r: i64)
    requires
        low <= high,
    ensures
        low <= r <= high,
{
    rng.gen_range(low..=high)
}

/// Relies on `rand::Rng::gen_ratio`: true with chance `numerator / denominator`,
/// never true for a zero numerator, always true when both are equal; the call
/// panics on a zero denominator or a numerator above it.
#[verifier::external_body]
pub(crate) fn draw_ratio(rng: &mut StdRng, numerator: u32, denominator: u32) -> (r: bool)
    requires
        0 < denominator,
        numerator <= denominator,
    ensures
        numerator == 0 ==> !r,
        numerator == denominator ==> r,
{
    rng.gen_ratio(numerator, denominator)
}

} // verus!
