//! The one source of randomness that the library draws from itself.

use vstd::prelude::*;

verus! {

/// Draws a number with `rand::random`, which asks the thread-local generator
/// of the `rand` crate for a uniformly distributed `u16`.
///
/// Nothing is claimed of the number: every `u16` may come back, and two calls
/// need not agree.
#[verifier::external_body]
pub(crate) fn random_u16() -> (raw: u16) {
    rand::random::<u16>()
}

} // verus!
