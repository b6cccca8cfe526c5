use rand::Rng;
use vstd::prelude::*;

verus! {

/// A random byte below `limit`, from `rand::thread_rng().gen_range(0..limit)`.
///
/// Trusted: `gen_range` on a half-open range of integers returns a value of
/// the range, so one that is at least zero and less than `limit`; it panics
/// on an empty range, which `limit > 0` rules out. Nothing is said of which
/// value comes back: two calls may differ.
///
/// The generator is seeded, and from time to time seeded again, from the
/// system's source of randomness, and gives up with a panic if that source
/// fails. No argument decides that, so no precondition can rule it out; it
/// is left aside, as running out of memory is.
#[verifier::external_body]
pub(crate) fn random_below(limit: u8) -> (byte: u8)
    requires
        limit > 0,
    ensures
        byte < limit,
{
    rand::thread_rng().gen_range(0..limit)
}

} // verus!
