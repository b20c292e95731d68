//! The library's only source of randomness, the `rand` crate.

use vstd::prelude::*;

verus! {

/// Relies on `rand::random`: draws a value of type `T` from the thread-local
/// generator. The result is nondeterministic, so nothing is promised of it.
pub assume_specification<T>[ rand::random::<T> ]() -> (r: T)
    where
        rand::distributions::Standard: rand::distributions::Distribution<T>,
;

/// A random draw from `min ..= max`. Only the bounds are promised; the
/// distribution is not part of any contract.
pub(crate) fn rand_range(min: i64, max: i64) -> (r: i64)
    requires
        min <= max,
        max - min < u32::MAX,
    ensures
        min <= r <= max,
{
    let span: u32 = ((max - min) as u32) + 1;
    let draw: u32 = rand::random::<u32>() % span;
    min + (draw as i64)
}

/// A fair-ish coin flip; neither outcome is promised.
pub(crate) fn rand_bool() -> bool {
    rand::random::<bool>()
}

} // verus!
