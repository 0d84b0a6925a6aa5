//! The one place where the library draws randomness.

use vstd::prelude::*;

use nanorand::Rng;

verus! {

/// Draw one die: a value in `[1, sided]`.
///
/// Relies on nanorand's `tls_rng().generate_range` over the inclusive range
/// `1..=sided`: the result lies inside the range, and with a non-empty range
/// (`sided >= 1`) the call does not panic. No distribution or
/// reproducibility claim is made: two calls with the same argument may
/// differ.
#[verifier::external_body]
pub(crate) fn roll_point(sided: u64) -> (r: u64)
    requires
        1 <= sided,
    ensures
        1 <= r <= sided,
{
    nanorand::tls_rng().generate_range(1..=sided)
}

} // verus!
