//! Trusted boundary to the pseudo-random number generator of `bracket_lib`.
//! The generator is injected by the caller, so obstacle generation is
//! reproducible from a seed.
use vstd::prelude::*;

verus! {

/// `bracket_lib::random::RandomNumberGenerator`, the xorshift generator the
/// game draws gap positions from. Opaque here: values of it are only carried
/// through to `rand_range`.
#[verifier::external_type_specification]
#[verifier::external_body]
pub struct ExRandomNumberGenerator(bracket_lib::random::RandomNumberGenerator);

/// Relies on `bracket_lib::random::RandomNumberGenerator::range`, which
/// draws uniformly from `min` inclusive to `max` exclusive and panics on an
/// empty range. Nothing more is promised of a random draw than its bounds.
#[verifier::external_body]
pub(crate) fn rand_range(
    rng: &mut bracket_lib::random::RandomNumberGenerator,
    min: i32,
    max: i32,
) -> (r: i32)
    requires
        min < max,
    ensures
        min <= r < max,
{
    rng.range(min, max)
}

} // verus!
