use vstd::prelude::*;

verus! {

/// Fixed-point scale: every physical quantity (world units, seconds, speeds,
/// the zoom factor) is stored as an integer count of thousandths.
pub const MILLI: u64 = 1000;

/// The value fits in a signed 64-bit machine word.
pub open spec fn fits_i64(v: int) -> bool {
    i64::MIN <= v <= i64::MAX
}

/// Division by the fixed-point scale, truncating toward zero: the rounding
/// applied whenever a product of two fixed-point values is rescaled.
pub open spec fn div_milli(p: int) -> int {
    if p >= 0 {
        p / (MILLI as int)
    } else {
        -((-p) / (MILLI as int))
    }
}

/// A product of nonnegative factors is bounded by the product of the bounds.
pub proof fn lemma_mul_le(a: int, b: int, x: int, y: int)
    by (nonlinear_arith)
    requires
        0 <= a <= x,
        0 <= b <= y,
    ensures
        a * b <= x * y,
{
}

} // verus!
