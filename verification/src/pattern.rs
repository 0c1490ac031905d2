//! Packing a cell's four corner signs into a 4-bit pattern.

use vstd::prelude::*;

verus! {

/// Numeric weight of one corner sample: a sample recorded as `1` marks a
/// corner on or above the contour threshold and contributes its bit; any
/// other value counts as outside and contributes nothing.
pub open spec fn bit_of(v: i64) -> int {
    if v == 1 {
        1
    } else {
        0
    }
}

/// Packs the four corner samples of a cell into a pattern in `0..=15`,
/// most significant bit first, in the fixed corner order top-left,
/// top-right, bottom-right, bottom-left.
pub fn square_to_num(square: Vec<i64>) -> (num: i64)
    requires
        square@.len() == 4,
    ensures
        num == 8 * bit_of(square@[0]) + 4 * bit_of(square@[1]) + 2 * bit_of(square@[2]) + bit_of(
            square@[3],
        ),
        0 <= num <= 15,
{
    let mut sum: i64 = 0;
    if square[0] == 1 {
        sum = sum + 8;
    }
    if square[1] == 1 {
        sum = sum + 4;
    }
    if square[2] == 1 {
        sum = sum + 2;
    }
    if square[3] == 1 {
        sum = sum + 1;
    }
    sum
}

} // verus!
