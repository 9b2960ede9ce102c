//! Fixed-point scalars: every coordinate, color channel, depth and angle in
//! the pipeline is a signed 64-bit count of 10^-8 units.
//!
//! All arithmetic is total: results are clamped (saturated) into the i64
//! range, multiplication and division truncate toward zero, exactly as the
//! specification functions below state.

use vstd::prelude::*;

verus! {

/// Number of raw units in 1.0: values carry 8 decimal places.
pub const SCALE: i64 = 100_000_000;

/// Half of one unit, used when rounding to the nearest whole number.
pub const HALF_SCALE: i64 = 50_000_000;

/// A real quantity stored as a signed count of 10^-8 units.
#[derive(Clone, Copy, Debug, PartialEq, Eq, Structural, PartialOrd, Ord)]
pub struct Fixed {
    pub raw: i64,
}

/// Absolute value over the mathematical integers.
pub open spec fn iabs(x: int) -> int {
    if x >= 0 {
        x
    } else {
        -x
    }
}

/// Clamp an integer into the i64 range (saturating arithmetic).
#[verifier::opaque]
pub open spec fn sat64(x: int) -> int {
    if x > i64::MAX {
        i64::MAX as int
    } else if x < i64::MIN {
        i64::MIN as int
    } else {
        x
    }
}

/// Clamp an integer into the i32 range.
#[verifier::opaque]
pub open spec fn sat32(x: int) -> int {
    if x > i32::MAX {
        i32::MAX as int
    } else if x < i32::MIN {
        i32::MIN as int
    } else {
        x
    }
}

/// Truncating (round-toward-zero) division, as hardware signed division does.
#[verifier::opaque]
pub open spec fn tdiv(a: int, b: int) -> int {
    if (a >= 0) == (b >= 0) {
        iabs(a) / iabs(b)
    } else {
        -(iabs(a) / iabs(b))
    }
}

/// Raw-unit addition: saturating.
#[verifier::opaque]
pub open spec fn fx_add(a: int, b: int) -> int {
    sat64(a + b)
}

/// Raw-unit subtraction: saturating.
#[verifier::opaque]
pub open spec fn fx_sub(a: int, b: int) -> int {
    sat64(a - b)
}

/// Raw-unit negation: saturating (the minimum raw value stays pinned).
#[verifier::opaque]
pub open spec fn fx_neg(a: int) -> int {
    sat64(-a)
}

/// Raw-unit multiplication: the exact product rescaled by truncation, then
/// clamped.
#[verifier::opaque]
pub open spec fn fx_mul(a: int, b: int) -> int {
    sat64(tdiv(a * b, SCALE as int))
}

/// Raw-unit division: the exact quotient rescaled by truncation, then
/// clamped. Meaningful only for a nonzero divisor.
#[verifier::opaque]
pub open spec fn fx_div(a: int, b: int) -> int {
    sat64(tdiv(a * (SCALE as int), b))
}

/// Nearest whole number of units, halves rounding away from zero.
#[verifier::opaque]
pub open spec fn fx_round(a: int) -> int {
    if a >= 0 {
        (a + (HALF_SCALE as int)) / (SCALE as int)
    } else {
        -((-a + (HALF_SCALE as int)) / (SCALE as int))
    }
}

/// Whole-number part, truncating toward zero.
#[verifier::opaque]
pub open spec fn fx_trunc(a: int) -> int {
    tdiv(a, SCALE as int)
}

/// Structure-level mirrors of the raw-unit operations, used by every
/// contract downstream.
pub open spec fn f_add(a: Fixed, b: Fixed) -> Fixed {
    Fixed { raw: fx_add(a.raw as int, b.raw as int) as i64 }
}

pub open spec fn f_sub(a: Fixed, b: Fixed) -> Fixed {
    Fixed { raw: fx_sub(a.raw as int, b.raw as int) as i64 }
}

pub open spec fn f_neg(a: Fixed) -> Fixed {
    Fixed { raw: fx_neg(a.raw as int) as i64 }
}

pub open spec fn f_mul(a: Fixed, b: Fixed) -> Fixed {
    Fixed { raw: fx_mul(a.raw as int, b.raw as int) as i64 }
}

pub open spec fn f_div(a: Fixed, b: Fixed) -> Fixed {
    Fixed { raw: fx_div(a.raw as int, b.raw as int) as i64 }
}

pub open spec fn f_abs(a: Fixed) -> Fixed {
    Fixed { raw: sat64(iabs(a.raw as int)) as i64 }
}

/// The whole number `v`, as a fixed-point value.
pub open spec fn f_from_int(v: int) -> Fixed {
    Fixed { raw: sat64(v * (SCALE as int)) as i64 }
}

/// Multiplying by one is the identity: `x * 1 == x` despite rescaling.
pub proof fn lemma_mul_one(x: Fixed)
    ensures
        f_mul(x, Fixed { raw: SCALE }) == x,
{
    reveal(fx_mul);
    reveal(tdiv);
    reveal(sat64);
    let a = x.raw as int;
    let s = SCALE as int;
    vstd::arithmetic::div_mod::lemma_div_multiples_vanish(a, s);
    vstd::arithmetic::div_mod::lemma_div_multiples_vanish(-a, s);
    assert(a * s == s * a);
    assert(-(a * s) == s * (-a));
}

/// Multiplying by zero gives zero.
pub proof fn lemma_mul_zero(x: Fixed)
    ensures
        f_mul(x, Fixed { raw: 0 }).raw == 0,
{
    reveal(fx_mul);
    reveal(tdiv);
    reveal(sat64);
    let s = SCALE as int;
    assert(x.raw as int * 0 == 0);
    vstd::arithmetic::div_mod::lemma_div_of0(s);
}

proof fn lemma_prod_in_wide_range(a: int, b: int)
    requires
        i64::MIN <= a <= i64::MAX,
        i64::MIN <= b <= i64::MAX,
    ensures
        i128::MIN < a * b < i128::MAX,
{
    assert(i128::MIN < a * b < i128::MAX) by (nonlinear_arith)
        requires
            i64::MIN <= a <= i64::MAX,
            i64::MIN <= b <= i64::MAX,
    ;
}

/// Clamp a wide intermediate back into the i64 range.
pub(crate) fn sat_narrow(x: i128) -> (r: i64)
    ensures
        r as int == sat64(x as int),
{
    proof {
        reveal(sat64);
    }
    if x > i64::MAX as i128 {
        i64::MAX
    } else if x < i64::MIN as i128 {
        i64::MIN
    } else {
        x as i64
    }
}

/// Truncating signed division on wide intermediates.
pub(crate) fn tdiv_wide(a: i128, b: i128) -> (q: i128)
    requires
        b != 0,
        a > i128::MIN,
        b > i128::MIN,
    ensures
        q as int == tdiv(a as int, b as int),
{
    proof {
        reveal(tdiv);
    }
    let an: u128 = if a >= 0 {
        a as u128
    } else {
        (-a) as u128
    };
    let bn: u128 = if b >= 0 {
        b as u128
    } else {
        (-b) as u128
    };
    let qn: u128 = an / bn;
    assert(qn <= an) by (nonlinear_arith)
        requires
            bn >= 1,
            qn == an as int / bn as int,
    ;
    if (a >= 0) == (b >= 0) {
        qn as i128
    } else {
        -(qn as i128)
    }
}

impl Fixed {
    /// The value holding exactly `raw` counts of 10^-8.
    pub fn from_raw(raw: i64) -> (r: Fixed)
        ensures
            r.raw == raw,
    {
        Fixed { raw }
    }

    /// The whole number `v`.
    pub fn from_int(v: i32) -> (r: Fixed)
        ensures
            r == f_from_int(v as int),
    {
        proof {
            reveal(sat64);
        }
        Fixed { raw: (v as i64) * SCALE }
    }

    pub fn zero() -> (r: Fixed)
        ensures
            r.raw == 0,
    {
        Fixed { raw: 0 }
    }

    pub fn one() -> (r: Fixed)
        ensures
            r.raw == SCALE,
    {
        Fixed { raw: SCALE }
    }

    pub fn add(self, other: Fixed) -> (r: Fixed)
        ensures
            r == f_add(self, other),
    {
        proof {
            reveal(fx_add);
        }
        Fixed { raw: sat_narrow(self.raw as i128 + other.raw as i128) }
    }

    pub fn sub(self, other: Fixed) -> (r: Fixed)
        ensures
            r == f_sub(self, other),
    {
        proof {
            reveal(fx_sub);
        }
        Fixed { raw: sat_narrow(self.raw as i128 - other.raw as i128) }
    }

    pub fn neg(self) -> (r: Fixed)
        ensures
            r == f_neg(self),
    {
        proof {
            reveal(fx_neg);
        }
        Fixed { raw: sat_narrow(-(self.raw as i128)) }
    }

    pub fn abs(self) -> (r: Fixed)
        ensures
            r == f_abs(self),
    {
        proof {
            reveal(sat64);
        }
        if self.raw >= 0 {
            self
        } else {
            Fixed { raw: sat_narrow(-(self.raw as i128)) }
        }
    }

    pub fn mul(self, other: Fixed) -> (r: Fixed)
        ensures
            r == f_mul(self, other),
    {
        proof {
            reveal(fx_mul);
            lemma_prod_in_wide_range(self.raw as int, other.raw as int);
        }
        let p: i128 = (self.raw as i128) * (other.raw as i128);
        Fixed { raw: sat_narrow(tdiv_wide(p, SCALE as i128)) }
    }

    /// Exact quotient, truncated to 10^-8 resolution and clamped.
    pub fn div(self, other: Fixed) -> (r: Fixed)
        requires
            other.raw != 0,
        ensures
            r == f_div(self, other),
    {
        proof {
            reveal(fx_div);
            lemma_prod_in_wide_range(self.raw as int, SCALE as int);
        }
        let p: i128 = (self.raw as i128) * (SCALE as i128);
        Fixed { raw: sat_narrow(tdiv_wide(p, other.raw as i128)) }
    }

    /// Nearest whole number, halves away from zero, clamped into i32.
    pub fn round_i32(self) -> (r: i32)
        ensures
            r as int == sat32(fx_round(self.raw as int)),
    {
        proof {
            reveal(fx_round);
            reveal(sat32);
        }
        let a: i128 = self.raw as i128;
        let q: i128 = if a >= 0 {
            let n: u128 = (a + HALF_SCALE as i128) as u128;
            (n / (SCALE as u128)) as i128
        } else {
            let n: u128 = (-a + HALF_SCALE as i128) as u128;
            -((n / (SCALE as u128)) as i128)
        };
        assert(q as int == fx_round(self.raw as int));
        if q > i32::MAX as i128 {
            i32::MAX
        } else if q < i32::MIN as i128 {
            i32::MIN
        } else {
            q as i32
        }
    }

    /// Whole-number part, truncated toward zero, clamped into i32.
    pub fn trunc_i32(self) -> (r: i32)
        ensures
            r as int == sat32(fx_trunc(self.raw as int)),
    {
        proof {
            reveal(fx_trunc);
            reveal(sat32);
        }
        let q: i128 = tdiv_wide(self.raw as i128, SCALE as i128);
        if q > i32::MAX as i128 {
            i32::MAX
        } else if q < i32::MIN as i128 {
            i32::MIN
        } else {
            q as i32
        }
    }
}

} // verus!
