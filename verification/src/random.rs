//! The source of randomness.

use vstd::prelude::*;

verus! {

/// Draws an integer from `low..=high` with `rand::Rng::random_range` on the
/// thread's generator, `rand::rng()`. The call panics on an empty range,
/// which `requires` leaves out; what it returns lies in the range. Two
/// draws may differ.
#[verifier::external_body]
pub(crate) fn random_in_range(low: i64, high: i64) -> (value: i64)
    requires
        low <= high,
    ensures
        low <= value <= high,
{
    rand::Rng::random_range(&mut rand::rng(), low..=high)
}

} // verus!
