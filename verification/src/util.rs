use vstd::prelude::*;
use vstd::std_specs::cmp::PartialOrdIs;
use vstd::std_specs::cmp::PartialOrdSpec;

verus! {

/// Clamp `value` into the closed interval `[min, max]`.
///
/// For types whose comparison operators obey their specification the
/// result is pinned exactly; the `min <= max` requirement mirrors the
/// convention of the standard `clamp`.
pub fn clamp<T: PartialOrd>(value: T, min: T, max: T) -> (r: T)
    ensures
        T::obeys_partial_cmp_spec() ==> r == (if value.is_lt(&min) {
            min
        } else if value.is_gt(&max) {
            max
        } else {
            value
        }),
{
    if value < min {
        min
    } else if value > max {
        max
    } else {
        value
    }
}

/// Relies on rand::random_range: a uniform sample from `0..n`, which is
/// always strictly below `n`; an empty range would panic, so `n` must be
/// positive.
#[verifier::external_body]
pub(crate) fn random_below(n: usize) -> (r: usize)
    requires
        1 <= n,
    ensures
        r < n,
{
    rand::random_range(0..n)
}

/// Relies on rand::random_range: a uniform sample from `min..=max`,
/// which always lies within the range; an empty range would panic, so
/// `min` must not exceed `max`.
#[verifier::external_body]
pub fn random_int(min: i32, max: i32) -> (r: i32)
    requires
        min <= max,
    ensures
        min <= r <= max,
{
    rand::random_range(min..=max)
}

} // verus!
