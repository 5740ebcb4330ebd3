//! Integer conversions that saturate instead of failing.
use vstd::prelude::*;

verus! {

/// `n` as an `i64`, or `i64::MAX` where it does not fit.
pub open spec fn saturating_i64(n: int) -> i64 {
    if n > i64::MAX {
        i64::MAX
    } else {
        n as i64
    }
}

/// `i64::try_from(n).unwrap_or(i64::MAX)` for a `usize`.
pub fn usize_to_i64_saturating(n: usize) -> (r: i64)
    ensures
        r == saturating_i64(n as int),
{
    if n as u128 > i64::MAX as u128 {
        i64::MAX
    } else {
        n as i64
    }
}

/// `i64::try_from(n).unwrap_or(i64::MAX)` for a `u64`.
pub fn u64_to_i64_saturating(n: u64) -> (r: i64)
    ensures
        r == saturating_i64(n as int),
{
    if n > i64::MAX as u64 {
        i64::MAX
    } else {
        n as i64
    }
}

/// `i64::try_from(n).unwrap_or(i64::MAX)` for a `u128`.
pub fn u128_to_i64_saturating(n: u128) -> (r: i64)
    ensures
        r == saturating_i64(n as int),
{
    if n > i64::MAX as u128 {
        i64::MAX
    } else {
        n as i64
    }
}

} // verus!
