//! The random source from which the gaps of the walls are drawn.
//!
//! The generator is `bracket_lib`'s. Verus cannot see inside it, so what this
//! module says of it is believed, not proved: that it exists as a type, that
//! it can be created, and that a draw from a range lies in that range.
use vstd::prelude::*;
use bracket_lib::prelude::RandomNumberGenerator;

verus! {

/// `bracket_lib::prelude::RandomNumberGenerator`, carried as an opaque value.
#[verifier::external_type_specification]
#[verifier::external_body]
pub struct ExRandomNumberGenerator(bracket_lib::prelude::RandomNumberGenerator);

/// `RandomNumberGenerator::new` makes a generator whose seed comes from the
/// operating system. Nothing is claimed of the generator it returns.
pub assume_specification[ bracket_lib::prelude::RandomNumberGenerator::new ]() -> (rng:
    RandomNumberGenerator)
;

/// Draws a row from `min` up to but not including `max`.
///
/// Calls `RandomNumberGenerator::range`, which samples the half-open range
/// `min..max` and panics when that range is empty. The contract claims only
/// what holds of every draw: that it lies in the range. Two draws may differ.
#[verifier::external_body]
pub(crate) fn draw_between(rng: &mut RandomNumberGenerator, min: i32, max: i32) -> (drawn: i32)
    requires
        min < max,
    ensures
        min <= drawn < max,
{
    rng.range(min, max)
}

} // verus!
