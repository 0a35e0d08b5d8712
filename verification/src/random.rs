//! The pseudo-random generator that breaks ties, from the `rand` crate.
use vstd::prelude::*;
use rand::Rng;
use rand::SeedableRng;

verus! {

/// `rand::rngs::StdRng`, the generator of the `rand` crate. Its state is
/// opaque here: a value of it is only carried along and handed to the two
/// functions below.
#[verifier::external_type_specification]
#[verifier::external_body]
pub struct ExStdRng(rand::rngs::StdRng);

/// Calls `rand::SeedableRng::seed_from_u64` for `StdRng`, which builds a
/// generator whose stream is fixed by `seed`. Nothing is claimed of the
/// stream.
#[verifier::external_body]
pub(crate) fn seeded(seed: u64) -> rand::rngs::StdRng {
    rand::rngs::StdRng::seed_from_u64(seed)
}

/// Calls `rand::Rng::gen_ratio`, which is `true` with a chance of
/// `numerator` in `denominator`: always where the two are equal, never where
/// `numerator` is zero. It panics where `denominator` is zero or smaller
/// than `numerator`.
#[verifier::external_body]
pub(crate) fn ratio(rng: &mut rand::rngs::StdRng, numerator: u32, denominator: u32) -> (hit: bool)
    requires
        0 < denominator,
        numerator <= denominator,
    ensures
        numerator == denominator ==> hit,
        numerator == 0 ==> !hit,
{
    rng.gen_ratio(numerator, denominator)
}

} // verus!
