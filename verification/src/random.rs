//! Random numbers, drawn from the thread-local generator of the `fastrand`
//! crate. Both functions are trusted, and promise no more than a range: two
//! calls may give different values.
use vstd::prelude::*;

verus! {

/// `fastrand::u8` over the whole range: any byte.
#[verifier::external_body]
pub(crate) fn random_byte() -> (byte: u8) {
    fastrand::u8(..)
}

/// `fastrand::usize` over `0..bound`: some value under `bound`. The call
/// panics on an empty range, which `requires` leaves out.
#[verifier::external_body]
pub(crate) fn random_below(bound: usize) -> (value: usize)
    requires
        bound > 0,
    ensures
        value < bound,
{
    fastrand::usize(0..bound)
}

} // verus!
