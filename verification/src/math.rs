//! Comparison helpers, vectors, 4x4 transform matrices and fixed-point
//! trigonometry.
//!
//! The equality helpers tolerate a fixed epsilon of 10^-5 (1000 raw units),
//! which is part of their public contract; the derived ordering on `Fixed`
//! itself is exact. Matrices are stored as four rows; multiplication and
//! matrix-vector application are specified entry by entry over the exact
//! saturating fixed-point operations.

use core::cmp::Ordering;
use crate::fixed::{
    f_add, f_div, f_from_int, f_mul, f_neg, f_sub, iabs, Fixed, HALF_SCALE, SCALE,
};
use vstd::prelude::*;

verus! {

/// Comparison tolerance: 10^-5, i.e. 1000 raw units.
pub const EPSILON_RAW: i64 = 1_000;

/// One quarter turn, pi/2, in raw units.
pub const HALF_PI_RAW: i64 = 157_079_633;

/// Half a turn, pi, in raw units.
pub const PI_RAW: i64 = 314_159_265;

/// A full turn, 2*pi, in raw units.
pub const TWO_PI_RAW: i64 = 628_318_531;

pub open spec fn spec_fixed_equals(left: Fixed, right: Fixed) -> bool {
    iabs(left.raw - right.raw) < EPSILON_RAW
}

pub open spec fn spec_fixed_compare(left: Fixed, right: Fixed) -> Option<Ordering> {
    if iabs(left.raw - right.raw) < EPSILON_RAW {
        Some(Ordering::Equal)
    } else if left.raw < right.raw {
        Some(Ordering::Less)
    } else {
        Some(Ordering::Greater)
    }
}

/// Equality up to the documented epsilon of 10^-5.
pub fn fixed_equals(left: Fixed, right: Fixed) -> (r: bool)
    ensures
        r == spec_fixed_equals(left, right),
{
    match fixed_compare(left, right) {
        Some(Ordering::Equal) => true,
        _ => false,
    }
}

/// Three-way comparison that reports equality whenever the two values are
/// within 10^-5 of each other. Always `Some`: fixed-point values are totally
/// ordered.
pub fn fixed_compare(left: Fixed, right: Fixed) -> (r: Option<Ordering>)
    ensures
        r == spec_fixed_compare(left, right),
{
    let gap: i64 = if left.raw >= right.raw {
        if left.raw as i128 - right.raw as i128 >= EPSILON_RAW as i128 {
            EPSILON_RAW
        } else {
            (left.raw - right.raw)
        }
    } else {
        if right.raw as i128 - left.raw as i128 >= EPSILON_RAW as i128 {
            EPSILON_RAW
        } else {
            (right.raw - left.raw)
        }
    };
    if gap < EPSILON_RAW {
        Some(Ordering::Equal)
    } else if left.raw < right.raw {
        Some(Ordering::Less)
    } else {
        Some(Ordering::Greater)
    }
}

/// A 3-component vector of fixed-point values, used for translation and
/// scale factors.
#[derive(Clone, Copy, Debug, PartialEq, Eq, Structural)]
pub struct Vec3 {
    pub x: Fixed,
    pub y: Fixed,
    pub z: Fixed,
}

/// A homogeneous 4-component vector: points carry `w == 1`, directions
/// `w == 0`.
#[derive(Clone, Copy, Debug, PartialEq, Eq, Structural)]
pub struct Vec4 {
    pub x: Fixed,
    pub y: Fixed,
    pub z: Fixed,
    pub w: Fixed,
}

/// A 4x4 transform matrix stored as four rows.
#[derive(Clone, Copy, Debug, PartialEq, Eq, Structural)]
pub struct Mat4 {
    pub r0: Vec4,
    pub r1: Vec4,
    pub r2: Vec4,
    pub r3: Vec4,
}

pub open spec fn f_zero() -> Fixed {
    Fixed { raw: 0 }
}

pub open spec fn f_one() -> Fixed {
    Fixed { raw: SCALE }
}

/// Dot product of two rows, summed left to right.
pub open spec fn f_dot4(a: Vec4, b: Vec4) -> Fixed {
    f_add(f_add(f_add(f_mul(a.x, b.x), f_mul(a.y, b.y)), f_mul(a.z, b.z)), f_mul(a.w, b.w))
}

pub open spec fn spec_col0(m: Mat4) -> Vec4 {
    Vec4 { x: m.r0.x, y: m.r1.x, z: m.r2.x, w: m.r3.x }
}

pub open spec fn spec_col1(m: Mat4) -> Vec4 {
    Vec4 { x: m.r0.y, y: m.r1.y, z: m.r2.y, w: m.r3.y }
}

pub open spec fn spec_col2(m: Mat4) -> Vec4 {
    Vec4 { x: m.r0.z, y: m.r1.z, z: m.r2.z, w: m.r3.z }
}

pub open spec fn spec_col3(m: Mat4) -> Vec4 {
    Vec4 { x: m.r0.w, y: m.r1.w, z: m.r2.w, w: m.r3.w }
}

pub open spec fn spec_mat_vec_mul(m: Mat4, v: Vec4) -> Vec4 {
    Vec4 {
        x: f_dot4(m.r0, v),
        y: f_dot4(m.r1, v),
        z: f_dot4(m.r2, v),
        w: f_dot4(m.r3, v),
    }
}

pub open spec fn spec_mat_mul(a: Mat4, b: Mat4) -> Mat4 {
    Mat4 {
        r0: Vec4 {
            x: f_dot4(a.r0, spec_col0(b)),
            y: f_dot4(a.r0, spec_col1(b)),
            z: f_dot4(a.r0, spec_col2(b)),
            w: f_dot4(a.r0, spec_col3(b)),
        },
        r1: Vec4 {
            x: f_dot4(a.r1, spec_col0(b)),
            y: f_dot4(a.r1, spec_col1(b)),
            z: f_dot4(a.r1, spec_col2(b)),
            w: f_dot4(a.r1, spec_col3(b)),
        },
        r2: Vec4 {
            x: f_dot4(a.r2, spec_col0(b)),
            y: f_dot4(a.r2, spec_col1(b)),
            z: f_dot4(a.r2, spec_col2(b)),
            w: f_dot4(a.r2, spec_col3(b)),
        },
        r3: Vec4 {
            x: f_dot4(a.r3, spec_col0(b)),
            y: f_dot4(a.r3, spec_col1(b)),
            z: f_dot4(a.r3, spec_col2(b)),
            w: f_dot4(a.r3, spec_col3(b)),
        },
    }
}

pub open spec fn spec_identity_matrix() -> Mat4 {
    Mat4 {
        r0: Vec4 { x: f_one(), y: f_zero(), z: f_zero(), w: f_zero() },
        r1: Vec4 { x: f_zero(), y: f_one(), z: f_zero(), w: f_zero() },
        r2: Vec4 { x: f_zero(), y: f_zero(), z: f_one(), w: f_zero() },
        r3: Vec4 { x: f_zero(), y: f_zero(), z: f_zero(), w: f_one() },
    }
}

pub open spec fn spec_translation_matrix(v: Vec3) -> Mat4 {
    Mat4 {
        r0: Vec4 { x: f_one(), y: f_zero(), z: f_zero(), w: v.x },
        r1: Vec4 { x: f_zero(), y: f_one(), z: f_zero(), w: v.y },
        r2: Vec4 { x: f_zero(), y: f_zero(), z: f_one(), w: v.z },
        r3: Vec4 { x: f_zero(), y: f_zero(), z: f_zero(), w: f_one() },
    }
}

pub open spec fn spec_scale_matrix(v: Vec3) -> Mat4 {
    Mat4 {
        r0: Vec4 { x: v.x, y: f_zero(), z: f_zero(), w: f_zero() },
        r1: Vec4 { x: f_zero(), y: v.y, z: f_zero(), w: f_zero() },
        r2: Vec4 { x: f_zero(), y: f_zero(), z: v.z, w: f_zero() },
        r3: Vec4 { x: f_zero(), y: f_zero(), z: f_zero(), w: f_one() },
    }
}

pub open spec fn spec_x_rotation_matrix(theta: Fixed) -> Mat4 {
    let c = spec_cos(theta);
    let s = spec_sin(theta);
    Mat4 {
        r0: Vec4 { x: f_one(), y: f_zero(), z: f_zero(), w: f_zero() },
        r1: Vec4 { x: f_zero(), y: c, z: f_neg(s), w: f_zero() },
        r2: Vec4 { x: f_zero(), y: s, z: c, w: f_zero() },
        r3: Vec4 { x: f_zero(), y: f_zero(), z: f_zero(), w: f_one() },
    }
}

pub open spec fn spec_y_rotation_matrix(theta: Fixed) -> Mat4 {
    let c = spec_cos(theta);
    let s = spec_sin(theta);
    Mat4 {
        r0: Vec4 { x: c, y: f_zero(), z: s, w: f_zero() },
        r1: Vec4 { x: f_zero(), y: f_one(), z: f_zero(), w: f_zero() },
        r2: Vec4 { x: f_neg(s), y: f_zero(), z: c, w: f_zero() },
        r3: Vec4 { x: f_zero(), y: f_zero(), z: f_zero(), w: f_one() },
    }
}

pub open spec fn spec_z_rotation_matrix(theta: Fixed) -> Mat4 {
    let c = spec_cos(theta);
    let s = spec_sin(theta);
    Mat4 {
        r0: Vec4 { x: c, y: f_neg(s), z: f_zero(), w: f_zero() },
        r1: Vec4 { x: s, y: c, z: f_zero(), w: f_zero() },
        r2: Vec4 { x: f_zero(), y: f_zero(), z: f_one(), w: f_zero() },
        r3: Vec4 { x: f_zero(), y: f_zero(), z: f_zero(), w: f_one() },
    }
}

/// Angle folded into `[0, 2*pi)` by Euclidean remainder.
pub open spec fn spec_angle_mod(raw: int) -> int {
    raw % (TWO_PI_RAW as int)
}

/// Rational sine approximation on `[0, pi]`:
/// `16 x (pi - x) / (5 pi^2 - 4 x (pi - x))`, evaluated in fixed point.
pub open spec fn spec_sin_core(x: Fixed) -> Fixed {
    let u = f_mul(x, f_sub(Fixed { raw: PI_RAW }, x));
    let num = f_mul(f_from_int(16), u);
    let den = f_sub(
        f_mul(f_from_int(5), f_mul(Fixed { raw: PI_RAW }, Fixed { raw: PI_RAW })),
        f_mul(f_from_int(4), u),
    );
    if den.raw == 0 {
        f_zero()
    } else {
        f_div(num, den)
    }
}

/// Clamp into `[-1, 1]`.
pub open spec fn spec_clamp_unit(v: Fixed) -> Fixed {
    if v.raw > SCALE {
        f_one()
    } else if v.raw < -SCALE {
        Fixed { raw: (-SCALE) as i64 }
    } else {
        v
    }
}

pub open spec fn spec_sin(theta: Fixed) -> Fixed {
    let m = spec_angle_mod(theta.raw as int);
    if m <= PI_RAW {
        spec_clamp_unit(spec_sin_core(Fixed { raw: m as i64 }))
    } else {
        spec_clamp_unit(f_neg(spec_sin_core(Fixed { raw: (m - PI_RAW) as i64 })))
    }
}

pub open spec fn spec_cos(theta: Fixed) -> Fixed {
    spec_sin(f_add(theta, Fixed { raw: HALF_PI_RAW }))
}

/// Fold an angle into `[0, 2*pi)`.
fn angle_mod(theta: Fixed) -> (m: i64)
    ensures
        m as int == spec_angle_mod(theta.raw as int),
        0 <= m < TWO_PI_RAW,
{
    let a: i64 = theta.raw;
    let q: i64;
    let neg: bool = a < 0;
    let mag: u64 = if neg {
        ((-(a as i128)) as u64)
    } else {
        a as u64
    };
    let rem: u64 = mag % (TWO_PI_RAW as u64);
    proof {
        vstd::arithmetic::div_mod::lemma_fundamental_div_mod(mag as int, TWO_PI_RAW as int);
        vstd::arithmetic::div_mod::lemma_fundamental_div_mod(theta.raw as int, TWO_PI_RAW as int);
        vstd::arithmetic::div_mod::lemma_mod_bound(theta.raw as int, TWO_PI_RAW as int);
    }
    if neg {
        if rem == 0 {
            proof {
                lemma_mod_negated(theta.raw as int, mag as int, 0);
            }
            0
        } else {
            proof {
                lemma_mod_negated(theta.raw as int, mag as int, rem as int);
            }
            TWO_PI_RAW - (rem as i64)
        }
    } else {
        rem as i64
    }
}

/// For `a == -m` with `m >= 0` and `r == m % k`, the Euclidean remainder of
/// `a` is `0` when `r == 0` and `k - r` otherwise.
proof fn lemma_mod_negated(a: int, m: int, r: int)
    requires
        a == -m,
        m >= 0,
        r == m % (TWO_PI_RAW as int),
    ensures
        r == 0 ==> a % (TWO_PI_RAW as int) == 0,
        r != 0 ==> a % (TWO_PI_RAW as int) == TWO_PI_RAW - r,
{
    let k = TWO_PI_RAW as int;
    vstd::arithmetic::div_mod::lemma_fundamental_div_mod(m, k);
    vstd::arithmetic::div_mod::lemma_mod_bound(m, k);
    let q = m / k;
    if r == 0 {
        assert(a == k * (-q));
        vstd::arithmetic::div_mod::lemma_mod_multiples_basic(-q, k);
    } else {
        assert(a == k * (-q - 1) + (k - r)) by {
            assert(m == k * q + r);
        }
        assert((k * (-q - 1) + (k - r)) % k == (k - r) % k) by {
            vstd::arithmetic::div_mod::lemma_mod_multiples_vanish(-q - 1, k - r, k);
        }
        vstd::arithmetic::div_mod::lemma_small_mod((k - r) as nat, k as nat);
    }
}

/// Sine of an angle in radians, in `[-1, 1]`, by the rational approximation
/// [`spec_sin_core`] after folding into one turn.
pub fn fixed_sin(theta: Fixed) -> (r: Fixed)
    ensures
        r == spec_sin(theta),
        -SCALE <= r.raw <= SCALE,
{
    let m = angle_mod(theta);
    let s = if m <= PI_RAW {
        sin_core(Fixed { raw: m })
    } else {
        sin_core(Fixed { raw: m - PI_RAW }).neg()
    };
    if s.raw > SCALE {
        Fixed { raw: SCALE }
    } else if s.raw < -SCALE {
        Fixed { raw: -SCALE }
    } else {
        s
    }
}

/// Cosine as the sine of the angle advanced by a quarter turn.
pub fn fixed_cos(theta: Fixed) -> (r: Fixed)
    ensures
        r == spec_cos(theta),
        -SCALE <= r.raw <= SCALE,
{
    fixed_sin(theta.add(Fixed { raw: HALF_PI_RAW }))
}

fn sin_core(x: Fixed) -> (r: Fixed)
    ensures
        r == spec_sin_core(x),
{
    let pi = Fixed { raw: PI_RAW };
    let u = x.mul(pi.sub(x));
    let num = Fixed::from_int(16).mul(u);
    let den = Fixed::from_int(5).mul(pi.mul(pi)).sub(Fixed::from_int(4).mul(u));
    if den.raw == 0 {
        Fixed { raw: 0 }
    } else {
        num.div(den)
    }
}

/// Dot product of a row with a column vector.
pub fn dot4(a: &Vec4, b: &Vec4) -> (r: Fixed)
    ensures
        r == f_dot4(*a, *b),
{
    a.x.mul(b.x).add(a.y.mul(b.y)).add(a.z.mul(b.z)).add(a.w.mul(b.w))
}

/// Apply a transform matrix to a homogeneous vector.
pub fn mat_vec_mul(m: &Mat4, v: &Vec4) -> (r: Vec4)
    ensures
        r == spec_mat_vec_mul(*m, *v),
{
    Vec4 { x: dot4(&m.r0, v), y: dot4(&m.r1, v), z: dot4(&m.r2, v), w: dot4(&m.r3, v) }
}

/// Matrix product `a * b`.
pub fn mat_mul(a: &Mat4, b: &Mat4) -> (r: Mat4)
    ensures
        r == spec_mat_mul(*a, *b),
{
    let c0 = Vec4 { x: b.r0.x, y: b.r1.x, z: b.r2.x, w: b.r3.x };
    let c1 = Vec4 { x: b.r0.y, y: b.r1.y, z: b.r2.y, w: b.r3.y };
    let c2 = Vec4 { x: b.r0.z, y: b.r1.z, z: b.r2.z, w: b.r3.z };
    let c3 = Vec4 { x: b.r0.w, y: b.r1.w, z: b.r2.w, w: b.r3.w };
    Mat4 {
        r0: Vec4 {
            x: dot4(&a.r0, &c0),
            y: dot4(&a.r0, &c1),
            z: dot4(&a.r0, &c2),
            w: dot4(&a.r0, &c3),
        },
        r1: Vec4 {
            x: dot4(&a.r1, &c0),
            y: dot4(&a.r1, &c1),
            z: dot4(&a.r1, &c2),
            w: dot4(&a.r1, &c3),
        },
        r2: Vec4 {
            x: dot4(&a.r2, &c0),
            y: dot4(&a.r2, &c1),
            z: dot4(&a.r2, &c2),
            w: dot4(&a.r2, &c3),
        },
        r3: Vec4 {
            x: dot4(&a.r3, &c0),
            y: dot4(&a.r3, &c1),
            z: dot4(&a.r3, &c2),
            w: dot4(&a.r3, &c3),
        },
    }
}

pub fn identity_matrix() -> (r: Mat4)
    ensures
        r == spec_identity_matrix(),
{
    let z = Fixed { raw: 0 };
    let o = Fixed { raw: SCALE };
    Mat4 {
        r0: Vec4 { x: o, y: z, z: z, w: z },
        r1: Vec4 { x: z, y: o, z: z, w: z },
        r2: Vec4 { x: z, y: z, z: o, w: z },
        r3: Vec4 { x: z, y: z, z: z, w: o },
    }
}

/// Matrix translating points (but not directions) by `vec`.
pub fn translation_matrix(vec: Vec3) -> (r: Mat4)
    ensures
        r == spec_translation_matrix(vec),
{
    let z = Fixed { raw: 0 };
    let o = Fixed { raw: SCALE };
    Mat4 {
        r0: Vec4 { x: o, y: z, z: z, w: vec.x },
        r1: Vec4 { x: z, y: o, z: z, w: vec.y },
        r2: Vec4 { x: z, y: z, z: o, w: vec.z },
        r3: Vec4 { x: z, y: z, z: z, w: o },
    }
}

/// Matrix scaling each axis by the matching component of `vec`.
pub fn scale_matrix(vec: Vec3) -> (r: Mat4)
    ensures
        r == spec_scale_matrix(vec),
{
    let z = Fixed { raw: 0 };
    let o = Fixed { raw: SCALE };
    Mat4 {
        r0: Vec4 { x: vec.x, y: z, z: z, w: z },
        r1: Vec4 { x: z, y: vec.y, z: z, w: z },
        r2: Vec4 { x: z, y: z, z: vec.z, w: z },
        r3: Vec4 { x: z, y: z, z: z, w: o },
    }
}

/// Rotation about the x axis by `theta` radians.
pub fn x_rotation_matrix(theta: Fixed) -> (r: Mat4)
    ensures
        r == spec_x_rotation_matrix(theta),
{
    let c = fixed_cos(theta);
    let s = fixed_sin(theta);
    let z = Fixed { raw: 0 };
    let o = Fixed { raw: SCALE };
    Mat4 {
        r0: Vec4 { x: o, y: z, z: z, w: z },
        r1: Vec4 { x: z, y: c, z: s.neg(), w: z },
        r2: Vec4 { x: z, y: s, z: c, w: z },
        r3: Vec4 { x: z, y: z, z: z, w: o },
    }
}

/// Rotation about the y axis by `theta` radians.
pub fn y_rotation_matrix(theta: Fixed) -> (r: Mat4)
    ensures
        r == spec_y_rotation_matrix(theta),
{
    let c = fixed_cos(theta);
    let s = fixed_sin(theta);
    let z = Fixed { raw: 0 };
    let o = Fixed { raw: SCALE };
    Mat4 {
        r0: Vec4 { x: c, y: z, z: s, w: z },
        r1: Vec4 { x: z, y: o, z: z, w: z },
        r2: Vec4 { x: s.neg(), y: z, z: c, w: z },
        r3: Vec4 { x: z, y: z, z: z, w: o },
    }
}

/// Rotation about the z axis by `theta` radians.
pub fn z_rotation_matrix(theta: Fixed) -> (r: Mat4)
    ensures
        r == spec_z_rotation_matrix(theta),
{
    let c = fixed_cos(theta);
    let s = fixed_sin(theta);
    let z = Fixed { raw: 0 };
    let o = Fixed { raw: SCALE };
    Mat4 {
        r0: Vec4 { x: c, y: s.neg(), z: z, w: z },
        r1: Vec4 { x: s, y: c, z: z, w: z },
        r2: Vec4 { x: z, y: z, z: o, w: z },
        r3: Vec4 { x: z, y: z, z: z, w: o },
    }
}

} // verus!
