//! Fixed-point trigonometry.
//!
//! Angles are fixed-point radians. Sine and cosine reduce the angle into
//! one period, fold it into the central interval, evaluate a short Taylor
//! polynomial there and clamp the value to one unit; the specification
//! functions state that computation exactly.

use vstd::prelude::*;

verus! {

use crate::fixed::{fx_mul, i64_tdiv, lemma_tdiv_rem, mul_fx, tdiv, SCALE};
use crate::geom::{q4_bounded, Quat};

/// Fixed-point pi.
pub const PI_FX: i64 = 3_141_593;

/// Fixed-point 2 * pi.
pub const TWO_PI_FX: i64 = 6_283_185;

/// Fixed-point pi / 2.
pub const HALF_PI_FX: i64 = 1_570_796;

/// The angle folded into `[0, 2*pi)`.
pub open spec fn angle_norm(a: int) -> int {
    let r = a - tdiv(a, TWO_PI_FX as int) * (TWO_PI_FX as int);
    if r < 0 {
        r + TWO_PI_FX as int
    } else {
        r
    }
}

/// The angle folded into `(-pi, pi]`.
pub open spec fn angle_pm(a: int) -> int {
    let r = angle_norm(a);
    if r > PI_FX as int {
        r - TWO_PI_FX as int
    } else {
        r
    }
}

/// Reflection of a `(-pi, pi]` angle into the central interval around
/// zero on which the sine polynomial is evaluated.
pub open spec fn sin_fold(x: int) -> int {
    if x > HALF_PI_FX as int {
        PI_FX as int - x
    } else if x < -(HALF_PI_FX as int) {
        -(PI_FX as int) - x
    } else {
        x
    }
}

/// Degree-7 Taylor polynomial for sine.
pub open spec fn sin_poly(y: int) -> int {
    let y2 = mul_fx(y, y);
    let y3 = mul_fx(y2, y);
    let y5 = mul_fx(y3, y2);
    let y7 = mul_fx(y5, y2);
    y - tdiv(y3, 6) + tdiv(y5, 120) - tdiv(y7, 5040)
}

/// Degree-6 Taylor polynomial for cosine.
pub open spec fn cos_poly(y: int) -> int {
    let y2 = mul_fx(y, y);
    let y4 = mul_fx(y2, y2);
    let y6 = mul_fx(y4, y2);
    SCALE as int - tdiv(y2, 2) + tdiv(y4, 24) - tdiv(y6, 720)
}

/// Clamp to one unit.
pub open spec fn clamp_unit(v: int) -> int {
    if v > SCALE as int {
        SCALE as int
    } else if v < -(SCALE as int) {
        -(SCALE as int)
    } else {
        v
    }
}

/// Fixed-point sine of a fixed-point angle in radians.
pub open spec fn sin_fx(a: int) -> int {
    clamp_unit(sin_poly(sin_fold(angle_pm(a))))
}

/// Fixed-point cosine of a fixed-point angle in radians.
pub open spec fn cos_fx(a: int) -> int {
    let x0 = angle_pm(a);
    let x = if x0 < 0 {
        -x0
    } else {
        x0
    };
    if x > HALF_PI_FX as int {
        clamp_unit(-cos_poly(PI_FX as int - x))
    } else {
        clamp_unit(cos_poly(x))
    }
}

/// The quaternion turning by `angle` about the X axis.
pub open spec fn rot_x_fx(angle: int) -> (int, int, int, int) {
    (sin_fx(tdiv(angle, 2)), 0, 0, cos_fx(tdiv(angle, 2)))
}

/// The quaternion turning by `angle` about the Y axis.
pub open spec fn rot_y_fx(angle: int) -> (int, int, int, int) {
    (0, sin_fx(tdiv(angle, 2)), 0, cos_fx(tdiv(angle, 2)))
}

/// Fold any fixed-point angle into `[0, 2*pi)`.
fn reduce_angle(a: i64) -> (r: i64)
    ensures
        r == angle_norm(a as int),
        0 <= r < TWO_PI_FX,
{
    let q = i64_tdiv(a, TWO_PI_FX);
    proof {
        lemma_tdiv_rem(a as int, TWO_PI_FX as int);
    }
    let p: i128 = (q as i128) * (TWO_PI_FX as i128);
    let r0: i64 = ((a as i128) - p) as i64;
    if r0 < 0 {
        r0 + TWO_PI_FX
    } else {
        r0
    }
}

/// Fixed-point sine.
pub fn sin_fixed(a: i64) -> (r: i64)
    ensures
        r == sin_fx(a as int),
        -SCALE <= r <= SCALE,
{
    let rn = reduce_angle(a);
    let x0 = if rn > PI_FX {
        rn - TWO_PI_FX
    } else {
        rn
    };
    let y = if x0 > HALF_PI_FX {
        PI_FX - x0
    } else if x0 < -HALF_PI_FX {
        -PI_FX - x0
    } else {
        x0
    };
    let y2 = fx_mul(y, y, Ghost(1_570_797), Ghost(1_570_797));
    let y3 = fx_mul(y2, y, Ghost(2_467_403), Ghost(1_570_797));
    let y5 = fx_mul(y3, y2, Ghost(3_875_789), Ghost(2_467_403));
    let y7 = fx_mul(y5, y2, Ghost(9_563_133), Ghost(2_467_403));
    let s = y - i64_tdiv(y3, 6) + i64_tdiv(y5, 120) - i64_tdiv(y7, 5040);
    proof {
        crate::fixed::lemma_tdiv_bound(y3 as int, 3_875_789, 6);
        crate::fixed::lemma_tdiv_bound(y5 as int, 9_563_133, 120);
        crate::fixed::lemma_tdiv_bound(y7 as int, 23_596_103, 5040);
    }
    if s > SCALE {
        SCALE
    } else if s < -SCALE {
        -SCALE
    } else {
        s
    }
}

/// Fixed-point cosine.
pub fn cos_fixed(a: i64) -> (r: i64)
    ensures
        r == cos_fx(a as int),
        -SCALE <= r <= SCALE,
{
    let rn = reduce_angle(a);
    let x0 = if rn > PI_FX {
        rn - TWO_PI_FX
    } else {
        rn
    };
    let x = if x0 < 0 {
        -x0
    } else {
        x0
    };
    let y = if x > HALF_PI_FX {
        PI_FX - x
    } else {
        x
    };
    let y2 = fx_mul(y, y, Ghost(1_570_797), Ghost(1_570_797));
    let y4 = fx_mul(y2, y2, Ghost(2_467_403), Ghost(2_467_403));
    let y6 = fx_mul(y4, y2, Ghost(6_088_077), Ghost(2_467_403));
    let c = SCALE - i64_tdiv(y2, 2) + i64_tdiv(y4, 24) - i64_tdiv(y6, 720);
    proof {
        crate::fixed::lemma_tdiv_bound(y2 as int, 2_467_403, 2);
        crate::fixed::lemma_tdiv_bound(y4 as int, 6_088_077, 24);
        crate::fixed::lemma_tdiv_bound(y6 as int, 15_021_739, 720);
    }
    let v = if x > HALF_PI_FX {
        -c
    } else {
        c
    };
    if v > SCALE {
        SCALE
    } else if v < -SCALE {
        -SCALE
    } else {
        v
    }
}

impl Quat {
    /// The quaternion turning by `angle` (fixed-point radians) about the
    /// X axis.
    pub fn from_rotation_x(angle: i64) -> (r: Quat)
        ensures
            r@ == rot_x_fx(angle as int),
            q4_bounded(r@, SCALE as int),
    {
        let half = i64_tdiv(angle, 2);
        let s = sin_fixed(half);
        let c = cos_fixed(half);
        Quat { x: s, y: 0, z: 0, w: c }
    }

    /// The quaternion turning by `angle` (fixed-point radians) about the
    /// Y axis.
    pub fn from_rotation_y(angle: i64) -> (r: Quat)
        ensures
            r@ == rot_y_fx(angle as int),
            q4_bounded(r@, SCALE as int),
    {
        let half = i64_tdiv(angle, 2);
        let s = sin_fixed(half);
        let c = cos_fixed(half);
        Quat { x: 0, y: s, z: 0, w: c }
    }
}

} // verus!
