//! Hunger and happiness are percentages: every change saturates at 0 and 100.

use vstd::prelude::*;

verus! {

/// The lowest value a stat can take.
pub const STAT_MIN: u8 = 0;

/// The highest value a stat can take.
pub const STAT_MAX: u8 = 100;

/// `v` brought into the closed range from `STAT_MIN` to `STAT_MAX`.
pub open spec fn saturate(v: int) -> int {
    if v < STAT_MIN as int {
        STAT_MIN as int
    } else if v > STAT_MAX as int {
        STAT_MAX as int
    } else {
        v
    }
}

/// Adds a signed amount to a stat and saturates the sum. The sum is formed in
/// a wider integer, so no combination of `value` and `delta` wraps.
pub fn apply_delta(value: u8, delta: i8) -> (r: u8)
    ensures
        r as int == saturate(value as int + delta as int),
        STAT_MIN <= r <= STAT_MAX,
{
    let sum: i16 = value as i16 + delta as i16;
    if sum < STAT_MIN as i16 {
        STAT_MIN
    } else if sum > STAT_MAX as i16 {
        STAT_MAX
    } else {
        sum as u8
    }
}

/// Saturation never leaves the range, whatever is added to whatever value.
pub proof fn lemma_saturate_in_range(v: int, d: int)
    ensures
        STAT_MIN <= saturate(v + d) <= STAT_MAX,
{
}

/// A sum that is already a valid stat is kept as it is; one below the range
/// becomes the minimum and one above it the maximum.
pub proof fn lemma_saturate_boundaries(v: int, d: int)
    ensures
        STAT_MIN <= v + d <= STAT_MAX ==> saturate(v + d) == v + d,
        v + d < STAT_MIN ==> saturate(v + d) == STAT_MIN,
        v + d > STAT_MAX ==> saturate(v + d) == STAT_MAX,
{
}

} // verus!
