//! The source of chance.

use vstd::prelude::*;

verus! {

/// Draws a `bool` with `rand::random_ratio`, from the generator of the
/// current thread: `true` with a chance of `numerator` in `denominator`.
///
/// Not proved, but taken from the documentation of `rand`: a ratio of zero
/// always gives `false`, and a ratio of one always gives `true`. Nothing
/// else is claimed of the outcome. `rand` panics on a denominator of zero
/// and on a numerator above the denominator, so both are left out.
#[verifier::external_body]
pub(crate) fn random_ratio(numerator: u32, denominator: u32) -> (drawn: bool)
    requires
        denominator > 0,
        numerator <= denominator,
    ensures
        numerator == 0 ==> !drawn,
        numerator == denominator ==> drawn,
{
    rand::random_ratio(numerator, denominator)
}

} // verus!
