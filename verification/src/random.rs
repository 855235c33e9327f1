//! Draws from the thread-local random generator.
//!
//! Nothing is known of a draw beyond the range that it was asked for, so two
//! draws with the same arguments may differ. Whatever is decided on a draw is
//! decided by a function that takes the drawn value as an argument.

use rand::Rng;
use vstd::prelude::*;

verus! {

/// Calls `rand::Rng::gen_range` on `rand::thread_rng()` with the range
/// `low..high`.
///
/// The range must not be empty, as `gen_range` panics on an empty range. The
/// value lies in the range: at least `low` and less than `high`.
#[verifier::external_body]
pub(crate) fn random_in_range(low: i64, high: i64) -> (value: i64)
    requires
        low < high,
    ensures
        low <= value < high,
{
    rand::thread_rng().gen_range(low..high)
}

/// Calls `rand::Rng::gen_ratio` on `rand::thread_rng()`.
///
/// The denominator must be positive and the numerator at most the
/// denominator, as `gen_ratio` panics otherwise. The answer is `true` with a
/// chance of `numerator` in `denominator`; all that is certain is that a
/// chance of zero gives `false` and a chance of one gives `true`.
#[verifier::external_body]
pub(crate) fn random_ratio(numerator: u32, denominator: u32) -> (heads: bool)
    requires
        0 < denominator,
        numerator <= denominator,
    ensures
        numerator == 0 ==> !heads,
        numerator == denominator ==> heads,
{
    rand::thread_rng().gen_ratio(numerator, denominator)
}

} // verus!
