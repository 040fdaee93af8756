//! Rolls of a die, taken from bracket-lib's random number generator.

use vstd::prelude::*;
use bracket_lib::prelude::RandomNumberGenerator;

verus! {

/// bracket-lib's random number generator. Its state is hidden from the
/// verifier; it is only handed on to the calls below.
#[verifier::external_type_specification]
#[verifier::external_body]
pub struct ExRandomNumberGenerator(bracket_lib::prelude::RandomNumberGenerator);

/// One call of `RandomNumberGenerator::range` at `i32`.
///
/// Trusted, not proved: for `min < max` the generator hands out a number
/// that is at least `min` and less than `max`. Which one depends on the
/// generator's state, so nothing more is said. On an empty range the
/// generator panics; the precondition leaves that case out.
#[verifier::external_body]
pub(crate) fn roll_between(rng: &mut RandomNumberGenerator, min: i32, max: i32) -> (roll: i32)
    requires
        min < max,
    ensures
        min <= roll < max,
{
    rng.range(min, max)
}

} // verus!
