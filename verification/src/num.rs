//! Exact rational values and the clamped integer divisions the position and
//! resize arithmetic is built on.
//!
//! Scale factors and percentages reach the library as [`Fraction`]s, so every
//! coordinate and dimension below is computed exactly over the integers and
//! then clamped to its machine range, mirroring a saturating cast.

use vstd::prelude::*;

verus! {

/// An exact rational number `num / den` with a positive denominator.
#[derive(Clone, Copy, Debug, PartialEq, Eq, Structural)]
pub struct Fraction {
    pub num: i64,
    pub den: i64,
}

impl Fraction {
    /// A fraction is well formed when its denominator is at least one.
    pub open spec fn wf(self) -> bool {
        self.den >= 1
    }

    /// Builds a fraction, rejecting non-positive denominators.
    pub fn new(num: i64, den: i64) -> (r: Option<Fraction>)
        ensures
            den >= 1 ==> r == Some(Fraction { num, den }),
            den < 1 ==> r is None,
            r is Some ==> r->0.wf(),
    {
        if den >= 1 {
            Some(Fraction { num, den })
        } else {
            None
        }
    }

}

/// Division truncating toward zero, for a positive divisor.  This is the
/// rounding Rust's `/` applies to signed machine integers.
pub open spec fn trunc_div(a: int, b: int) -> int
    recommends
        b >= 1,
{
    if a >= 0 {
        a / b
    } else {
        -((-a) / b)
    }
}

/// Clamps a mathematical integer into the `i64` range.
pub open spec fn clamp_i64(v: int) -> int {
    if v < i64::MIN {
        i64::MIN as int
    } else if v > i64::MAX {
        i64::MAX as int
    } else {
        v
    }
}

/// Clamps a mathematical integer into the `u32` range.
pub open spec fn clamp_u32(v: int) -> int {
    if v < 0 {
        0
    } else if v > u32::MAX {
        u32::MAX as int
    } else {
        v
    }
}

/// A product is bounded by the product of the factors' bounds.
pub proof fn lemma_mul_bound(a: int, b: int, aa: int, bb: int)
    requires
        -aa <= a <= aa,
        -bb <= b <= bb,
        0 <= aa,
        0 <= bb,
    ensures
        -(aa * bb) <= a * b <= aa * bb,
{
    assert(-(aa * bb) <= a * b <= aa * bb) by (nonlinear_arith)
        requires
            -aa <= a <= aa,
            -bb <= b <= bb,
            0 <= aa,
            0 <= bb,
    ;
}

/// Computes `a / b` truncated toward zero, clamped into `i64`.
pub fn trunc_div_clamp_i64(a: i128, b: i128) -> (r: i64)
    requires
        b >= 1,
        a > i128::MIN,
    ensures
        r as int == clamp_i64(trunc_div(a as int, b as int)),
{
    if a >= 0 {
        let q: u128 = (a as u128) / (b as u128);
        if q > i64::MAX as u128 {
            i64::MAX
        } else {
            q as i64
        }
    } else {
        let q: u128 = ((-a) as u128) / (b as u128);
        if q >= 9223372036854775808u128 {
            i64::MIN
        } else {
            -(q as i64)
        }
    }
}

/// Computes `floor(extent * num / den)` clamped into `u32`, the effect of a
/// rational scale factor on one image dimension.
pub fn scale_extent(extent: u32, num: i64, den: i64) -> (r: u32)
    requires
        den >= 1,
    ensures
        r as int == clamp_u32((extent as int * num as int) / (den as int)),
{
    if num <= 0 || extent == 0 {
        proof {
            assert(extent as int * num as int <= 0) by (nonlinear_arith)
                requires
                    num <= 0 || extent == 0,
                    extent >= 0,
            ;
            assert((extent as int * num as int) / (den as int) <= 0) by (nonlinear_arith)
                requires
                    extent as int * num as int <= 0,
                    den >= 1,
            ;
        }
        0u32
    } else {
        proof {
            assert(extent as int * num as int <= u32::MAX as int * i64::MAX as int)
                by (nonlinear_arith)
                requires
                    0 <= extent as int <= u32::MAX as int,
                    0 <= num as int <= i64::MAX as int,
            ;
        }
        let p: u128 = (extent as u128) * (num as u128);
        let q: u128 = p / (den as u128);
        if q > u32::MAX as u128 {
            u32::MAX
        } else {
            q as u32
        }
    }
}

/// Computes `min(floor(extent * target / source), u32::MAX)`: the dimension
/// derived from the other axis when an aspect ratio is preserved.
pub fn aspect_extent(extent: u32, target: u32, source: u32) -> (r: u32)
    requires
        source >= 1,
    ensures
        r as int == clamp_u32((extent as int * target as int) / (source as int)),
{
    proof {
        assert(extent as int * target as int <= u32::MAX as int * u32::MAX as int)
            by (nonlinear_arith)
            requires
                0 <= extent as int <= u32::MAX as int,
                0 <= target as int <= u32::MAX as int,
        ;
        assert((extent as int * target as int) / (source as int) >= 0) by (nonlinear_arith)
            requires
                extent as int * target as int >= 0,
                source >= 1,
        ;
    }
    let p: u64 = (extent as u64) * (target as u64);
    let q: u64 = p / (source as u64);
    if q > u32::MAX as u64 {
        u32::MAX
    } else {
        q as u32
    }
}

} // verus!
