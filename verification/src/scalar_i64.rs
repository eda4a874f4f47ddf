//! The `i64` scalar leaf: saturating two's-complement arithmetic.
//!
//! The leaf keeps every operation total: sums, differences and products
//! saturate at the ends of the `i64` range, quotients truncate toward zero,
//! and a zero divisor yields zero. The square root is the integer square
//! root (zero on negative inputs), and the reciprocal is one divided by the
//! value in the leaf's own division.

use vstd::prelude::*;
use crate::vector_space::{ArrayVectorSpace, ArrayVectorSpaceMut, VectorScalar};
use vstd::arithmetic::div_mod::{lemma_basic_div, lemma_div_basics_4, lemma_div_basics_5};

verus! {

/// Saturation of a mathematical integer into the `i64` range.
pub open spec fn sat_i64(x: int) -> i64 {
    if x > i64::MAX {
        i64::MAX
    } else if x < i64::MIN {
        i64::MIN
    } else {
        x as i64
    }
}

/// Absolute value of a mathematical integer.
pub open spec fn abs_int(x: int) -> int {
    if x >= 0 {
        x
    } else {
        -x
    }
}

/// Quotient truncated toward zero, as the machine division computes it.
pub open spec fn trunc_div(a: int, b: int) -> int
    recommends
        b != 0,
{
    if (a >= 0) == (b >= 0) {
        abs_int(a) / abs_int(b)
    } else {
        -(abs_int(a) / abs_int(b))
    }
}

/// The leaf quotient: truncated and saturated, and zero on a zero divisor.
pub open spec fn spec_div_i64(a: i64, b: i64) -> i64 {
    if b == 0 {
        0
    } else {
        sat_i64(trunc_div(a as int, b as int))
    }
}

/// Floor of the square root of `n` (zero when `n` is not positive).
pub open spec fn sqrt_floor(n: int) -> int
    decreases n,
{
    if n <= 0 {
        0
    } else if (sqrt_floor(n - 1) + 1) * (sqrt_floor(n - 1) + 1) <= n {
        sqrt_floor(n - 1) + 1
    } else {
        sqrt_floor(n - 1)
    }
}

/// `sqrt_floor(n)` is the greatest integer whose square is at most `n`.
pub proof fn lemma_sqrt_floor_bounds(n: int)
    requires
        n >= 0,
    ensures
        0 <= sqrt_floor(n) <= n,
        sqrt_floor(n) * sqrt_floor(n) <= n,
        n < (sqrt_floor(n) + 1) * (sqrt_floor(n) + 1),
    decreases n,
{
    if n > 0 {
        lemma_sqrt_floor_bounds(n - 1);
        let p = sqrt_floor(n - 1);
        if (p + 1) * (p + 1) <= n {
            assert((p + 1) * (p + 1) < (p + 2) * (p + 2)) by (nonlinear_arith)
                requires
                    p >= 0,
            ;
            assert(p + 1 <= n) by (nonlinear_arith)
                requires
                    p >= 0 && (p + 1) * (p + 1) <= n,
            ;
        }
    }
}

/// Any nonnegative `r` with `r * r <= n < (r + 1) * (r + 1)` is `sqrt_floor(n)`.
pub proof fn lemma_sqrt_floor_unique(n: int, r: int)
    requires
        n >= 0,
        r >= 0,
        r * r <= n,
        n < (r + 1) * (r + 1),
    ensures
        r == sqrt_floor(n),
{
    lemma_sqrt_floor_bounds(n);
    let s = sqrt_floor(n);
    if r < s {
        assert((r + 1) * (r + 1) <= s * s) by (nonlinear_arith)
            requires
                0 <= r && r + 1 <= s,
        ;
    }
    if s < r {
        assert((s + 1) * (s + 1) <= r * r) by (nonlinear_arith)
            requires
                0 <= s && s + 1 <= r,
        ;
    }
}

/// Saturating sum of two `i64` values.
pub fn sat_add_i64(a: i64, b: i64) -> (r: i64)
    ensures
        r == sat_i64(a + b),
{
    let w: i128 = a as i128 + b as i128;
    if w > i64::MAX as i128 {
        i64::MAX
    } else if w < i64::MIN as i128 {
        i64::MIN
    } else {
        w as i64
    }
}

/// Saturating difference of two `i64` values.
pub fn sat_sub_i64(a: i64, b: i64) -> (r: i64)
    ensures
        r == sat_i64(a - b),
{
    let w: i128 = a as i128 - b as i128;
    if w > i64::MAX as i128 {
        i64::MAX
    } else if w < i64::MIN as i128 {
        i64::MIN
    } else {
        w as i64
    }
}

/// Saturating product of two `i64` values.
pub fn sat_mul_i64(a: i64, b: i64) -> (r: i64)
    ensures
        r == sat_i64(a * b),
{
    proof {
        assert(-0x4000_0000_0000_0000_0000_0000_0000_0000 <= (a as int) * (b as int)
            <= 0x4000_0000_0000_0000_0000_0000_0000_0000) by (nonlinear_arith)
            requires
                i64::MIN <= a <= i64::MAX && i64::MIN <= b <= i64::MAX,
        ;
    }
    let w: i128 = (a as i128) * (b as i128);
    if w > i64::MAX as i128 {
        i64::MAX
    } else if w < i64::MIN as i128 {
        i64::MIN
    } else {
        w as i64
    }
}

/// Truncating, saturating quotient of two `i64` values; zero on a zero
/// divisor.
pub fn sat_div_i64(a: i64, b: i64) -> (r: i64)
    ensures
        r == spec_div_i64(a, b),
{
    if b == 0 {
        return 0;
    }
    let aa: u64 = if a >= 0 {
        a as u64
    } else {
        (-(a as i128)) as u64
    };
    let ab: u64 = if b >= 0 {
        b as u64
    } else {
        (-(b as i128)) as u64
    };
    let q: u64 = aa / ab;
    proof {
        lemma_div_basics_4(aa as int, ab as int);
        lemma_div_basics_5(aa as int, ab as int);
    }
    if (a < 0) == (b < 0) {
        if q > i64::MAX as u64 {
            i64::MAX
        } else {
            q as i64
        }
    } else {
        (-(q as i128)) as i64
    }
}

/// Integer square root by bisection.
fn isqrt_u64(v: u64) -> (r: u64)
    ensures
        r as int == sqrt_floor(v as int),
{
    let mut lo: u64 = 0;
    let mut hi: u64 = 0x1_0000_0000;
    proof {
        assert((hi as int) * (hi as int) > v as int) by (nonlinear_arith)
            requires
                hi == 0x1_0000_0000u64 && v <= u64::MAX,
        ;
    }
    while hi - lo > 1
        invariant
            lo < hi <= 0x1_0000_0000u64,
            (lo as int) * (lo as int) <= v as int,
            (v as int) < (hi as int) * (hi as int),
        decreases hi - lo,
    {
        let mid: u64 = lo + (hi - lo) / 2;
        proof {
            assert((mid as int) * (mid as int) <= u64::MAX) by (nonlinear_arith)
                requires
                    mid < 0x1_0000_0000u64,
            ;
        }
        let sq: u64 = mid * mid;
        if sq <= v {
            lo = mid;
        } else {
            hi = mid;
        }
    }
    proof {
        lemma_sqrt_floor_unique(v as int, lo as int);
    }
    lo
}

impl VectorScalar for i64 {
    open spec fn spec_zero() -> i64 {
        0
    }

    open spec fn spec_leaf_le(self, rhs: i64) -> bool {
        self <= rhs
    }

    open spec fn spec_leaf_add(self, rhs: i64) -> i64 {
        sat_i64(self + rhs)
    }

    open spec fn spec_leaf_mul(self, rhs: i64) -> i64 {
        sat_i64(self * rhs)
    }

    open spec fn spec_leaf_clamp(self, min: i64, max: i64) -> i64 {
        if self < min {
            min
        } else if self > max {
            max
        } else {
            self
        }
    }

    open spec fn spec_sqrt(self) -> i64 {
        sqrt_floor(self as int) as i64
    }

    open spec fn spec_recip(self) -> i64 {
        spec_div_i64(1, self)
    }

    fn zero() -> (r: i64) {
        0
    }

    fn leaf_add(self, rhs: i64) -> (r: i64) {
        sat_add_i64(self, rhs)
    }

    fn sqrt(self) -> (r: i64) {
        if self <= 0 {
            0
        } else {
            proof {
                lemma_sqrt_floor_bounds(self as int);
            }
            isqrt_u64(self as u64) as i64
        }
    }

    fn recip(self) -> (r: i64) {
        proof {
            if self > 1 || self < -1 {
                lemma_basic_div(1, abs_int(self as int));
            }
        }
        if self == 0 {
            0
        } else if self == 1 {
            1
        } else if self == -1 {
            -1
        } else {
            0
        }
    }
}

impl ArrayVectorSpace<i64> for i64 {
    open spec fn leaves(self) -> Seq<i64> {
        seq![self]
    }

    open spec fn spec_dot(self, rhs: i64) -> i64 {
        self.spec_leaf_mul(rhs)
    }

    open spec fn spec_sum(self, rhs: i64) -> i64 {
        self.spec_leaf_add(rhs)
    }

    open spec fn spec_diff(self, rhs: i64) -> i64 {
        sat_i64(self - rhs)
    }

    open spec fn spec_prod(self, rhs: i64) -> i64 {
        self.spec_leaf_mul(rhs)
    }

    open spec fn spec_quot(self, rhs: i64) -> i64 {
        spec_div_i64(self, rhs)
    }

    open spec fn spec_scal_mul(self, k: i64) -> i64 {
        self.spec_leaf_mul(k)
    }

    open spec fn spec_clamp(self, min: i64, max: i64) -> i64 {
        self.spec_leaf_clamp(min, max)
    }

    open spec fn spec_normalized(self) -> i64 {
        1
    }

    fn dot(self, rhs: i64) -> (r: i64) {
        sat_mul_i64(self, rhs)
    }

    fn add(self, rhs: i64) -> (r: i64) {
        sat_add_i64(self, rhs)
    }

    fn sub(self, rhs: i64) -> (r: i64) {
        sat_sub_i64(self, rhs)
    }

    fn mul(self, rhs: i64) -> (r: i64) {
        sat_mul_i64(self, rhs)
    }

    fn div(self, rhs: i64) -> (r: i64) {
        sat_div_i64(self, rhs)
    }

    fn scal_mul(self, rhs: i64) -> (r: i64) {
        sat_mul_i64(self, rhs)
    }

    fn clamp(self, min: i64, max: i64) -> (r: i64) {
        if self < min {
            min
        } else if self > max {
            max
        } else {
            self
        }
    }

    fn normalized(self) -> (r: i64) {
        1
    }

    proof fn lemma_scal_mul_leaves(self, k: i64) {
        assert(self.spec_scal_mul(k).leaves() =~= self.leaves().map_values(
            |l: i64| l.spec_leaf_mul(k),
        ));
    }

    proof fn lemma_clamp_leaves(self, min: i64, max: i64) {
        assert(self.spec_clamp(min, max).leaves() =~= self.leaves().map_values(
            |l: i64| l.spec_leaf_clamp(min, max),
        ));
    }
}

/// On scalar leaves every operation is the plain leaf arithmetic: the inner
/// product is the product, and each element-wise operation is the matching
/// scalar operation — exactly, whenever the mathematical result fits in
/// `i64`, and saturated otherwise.
pub proof fn lemma_leaf_identities(a: i64, b: i64)
    ensures
        a.spec_dot(b) == sat_i64(a * b),
        a.spec_sum(b) == sat_i64(a + b),
        a.spec_diff(b) == sat_i64(a - b),
        a.spec_prod(b) == sat_i64(a * b),
        a.spec_quot(b) == spec_div_i64(a, b),
        a.spec_scal_mul(b) == sat_i64(a * b),
        i64::MIN <= a * b <= i64::MAX ==> a.spec_dot(b) == a * b && a.spec_prod(b) == a * b,
        i64::MIN <= a + b <= i64::MAX ==> a.spec_sum(b) == a + b,
        i64::MIN <= a - b <= i64::MAX ==> a.spec_diff(b) == a - b,
        b != 0 && !(a == i64::MIN && b == -1) ==> a.spec_quot(b) == trunc_div(a as int, b as int),
{
    if b != 0 {
        lemma_div_basics_4(abs_int(a as int), abs_int(b as int));
        lemma_div_basics_5(abs_int(a as int), abs_int(b as int));
        if a == i64::MIN && b != -1 && b < 0 {
            assert(abs_int(a as int) / abs_int(b as int) < abs_int(a as int)) by {
                vstd::arithmetic::div_mod::lemma_div_is_strictly_smaller(
                    abs_int(a as int),
                    abs_int(b as int),
                );
            }
        }
        if a == i64::MIN && b > 1 {
            assert(abs_int(a as int) / abs_int(b as int) < abs_int(a as int)) by {
                vstd::arithmetic::div_mod::lemma_div_is_strictly_smaller(
                    abs_int(a as int),
                    abs_int(b as int),
                );
            }
        }
    }
}

/// Clamping a leaf into `[min, max]` yields `max(min, min(e, max))`, which
/// always lies in `[min, max]`.
pub proof fn lemma_leaf_clamp_formula(e: i64, min: i64, max: i64)
    requires
        min <= max,
    ensures
        e.spec_leaf_clamp(min, max) == vstd::math::max(min as int, vstd::math::min(e as int, max as int)),
        min <= e.spec_leaf_clamp(min, max) <= max,
{
}

/// The degenerate base case: normalizing a scalar leaf yields `1`, whatever
/// the leaf's value was.
pub proof fn lemma_leaf_normalized_is_one(a: i64)
    ensures
        a.spec_normalized() == 1,
{
}

impl ArrayVectorSpaceMut<i64> for i64 {
    fn mut_add(&mut self, rhs: &i64) {
        *self = sat_add_i64(*self, *rhs);
    }

    fn mut_sub(&mut self, rhs: &i64) {
        *self = sat_sub_i64(*self, *rhs);
    }

    fn mut_mul(&mut self, rhs: &i64) {
        *self = sat_mul_i64(*self, *rhs);
    }

    fn mut_div(&mut self, rhs: &i64) {
        *self = sat_div_i64(*self, *rhs);
    }

    fn mut_scal_mul(&mut self, rhs: i64) {
        *self = sat_mul_i64(*self, rhs);
    }

    fn mut_clamp(&mut self, min: i64, max: i64) {
        if *self < min {
            *self = min;
        } else if *self > max {
            *self = max;
        }
    }

    fn mut_normalized(&mut self) {
        *self = 1;
    }
}

} // verus!
