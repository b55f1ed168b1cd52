//! Vectors and quaternions over fixed-point scalars.
//!
//! Every executable operation returns exactly the value of the matching
//! specification function; ghost magnitude bounds accompany the operands so
//! that absence of overflow is proved at every call site.

use vstd::prelude::*;

verus! {

use crate::fixed::{div_fx, fx_mul, is_isqrt, isqrt_u128, lemma_tdiv_bound,
    lemma_tdiv_exact, mul_fx, sqrt_floor, tdiv, i128_tdiv, SCALE};

/// A 2-vector of fixed-point scalars (millionths of a unit).
#[derive(Clone, Copy, PartialEq, Eq, Structural, Debug)]
pub struct Vec2 {
    pub x: i64,
    pub y: i64,
}

/// A 3-vector of fixed-point scalars (millionths of a unit).
#[derive(Clone, Copy, PartialEq, Eq, Structural, Debug)]
pub struct Vec3 {
    pub x: i64,
    pub y: i64,
    pub z: i64,
}

/// An orientation quaternion with fixed-point components, `(x, y, z, w)`.
#[derive(Clone, Copy, PartialEq, Eq, Structural, Debug)]
pub struct Quat {
    pub x: i64,
    pub y: i64,
    pub z: i64,
    pub w: i64,
}

impl View for Vec2 {
    type V = (int, int);

    open spec fn view(&self) -> (int, int) {
        (self.x as int, self.y as int)
    }
}

impl View for Vec3 {
    type V = (int, int, int);

    open spec fn view(&self) -> (int, int, int) {
        (self.x as int, self.y as int, self.z as int)
    }
}

impl View for Quat {
    type V = (int, int, int, int);

    open spec fn view(&self) -> (int, int, int, int) {
        (self.x as int, self.y as int, self.z as int, self.w as int)
    }
}

/// Component-wise sum.
pub open spec fn v3_add(a: (int, int, int), b: (int, int, int)) -> (int, int, int) {
    (a.0 + b.0, a.1 + b.1, a.2 + b.2)
}

/// Component-wise difference.
pub open spec fn v3_sub(a: (int, int, int), b: (int, int, int)) -> (int, int, int) {
    (a.0 - b.0, a.1 - b.1, a.2 - b.2)
}

/// Fixed-point scaling of each component by `s`.
pub open spec fn v3_scale_fx(v: (int, int, int), s: int) -> (int, int, int) {
    (mul_fx(v.0, s), mul_fx(v.1, s), mul_fx(v.2, s))
}

/// All components lie within `m` of zero.
pub open spec fn v3_bounded(v: (int, int, int), m: int) -> bool {
    -m <= v.0 <= m && -m <= v.1 <= m && -m <= v.2 <= m
}

/// All four quaternion components lie within `m` of zero.
pub open spec fn q4_bounded(q: (int, int, int, int), m: int) -> bool {
    -m <= q.0 <= m && -m <= q.1 <= m && -m <= q.2 <= m && -m <= q.3 <= m
}

/// Fixed-point cross product.
pub open spec fn cross_fx(a: (int, int, int), b: (int, int, int)) -> (int, int, int) {
    (
        mul_fx(a.1, b.2) - mul_fx(a.2, b.1),
        mul_fx(a.2, b.0) - mul_fx(a.0, b.2),
        mul_fx(a.0, b.1) - mul_fx(a.1, b.0),
    )
}

/// Fixed-point Hamilton product of two quaternions.
pub open spec fn quat_mul_fx(p: (int, int, int, int), q: (int, int, int, int)) -> (
    int,
    int,
    int,
    int,
) {
    (
        mul_fx(p.3, q.0) + mul_fx(p.0, q.3) + mul_fx(p.1, q.2) - mul_fx(p.2, q.1),
        mul_fx(p.3, q.1) - mul_fx(p.0, q.2) + mul_fx(p.1, q.3) + mul_fx(p.2, q.0),
        mul_fx(p.3, q.2) + mul_fx(p.0, q.1) - mul_fx(p.1, q.0) + mul_fx(p.2, q.3),
        mul_fx(p.3, q.3) - mul_fx(p.0, q.0) - mul_fx(p.1, q.1) - mul_fx(p.2, q.2),
    )
}

/// Rotation of `v` by the quaternion `q`:
/// `v + w * t + qv x t` where `t = 2 * (qv x v)`.
pub open spec fn quat_rotate_fx(q: (int, int, int, int), v: (int, int, int)) -> (int, int, int) {
    let qv = (q.0, q.1, q.2);
    let c = cross_fx(qv, v);
    let t = (2 * c.0, 2 * c.1, 2 * c.2);
    let wt = (mul_fx(q.3, t.0), mul_fx(q.3, t.1), mul_fx(q.3, t.2));
    v3_add(v3_add(v, wt), cross_fx(qv, t))
}

/// Sum of the squared components (scaled by `SCALE * SCALE`).
pub open spec fn quat_norm_sq(q: (int, int, int, int)) -> int {
    q.0 * q.0 + q.1 * q.1 + q.2 * q.2 + q.3 * q.3
}

/// Normalization to (approximately) unit length; the zero quaternion
/// normalizes to the identity.
pub open spec fn quat_normalize_fx(q: (int, int, int, int)) -> (int, int, int, int) {
    let n = sqrt_floor(quat_norm_sq(q));
    if n == 0 {
        (0, 0, 0, SCALE as int)
    } else {
        (div_fx(q.0, n), div_fx(q.1, n), div_fx(q.2, n), div_fx(q.3, n))
    }
}

/// Squared distance between two points.
pub open spec fn dist_sq(a: (int, int, int), b: (int, int, int)) -> int {
    let d = v3_sub(a, b);
    d.0 * d.0 + d.1 * d.1 + d.2 * d.2
}

/// Distance between two points: the integer square root of the squared
/// distance, rounded down.
pub open spec fn dist_fx(a: (int, int, int), b: (int, int, int)) -> int {
    sqrt_floor(dist_sq(a, b))
}

/// Distance between two points, rounded down.
pub fn v3_dist(a: &Vec3, b: &Vec3) -> (r: i64)
    requires
        v3_bounded(a@, 2_000_000_000_000_000_000),
        v3_bounded(b@, 2_000_000_000_000_000_000),
    ensures
        r as int == dist_fx(a@, b@),
        0 <= r,
{
    let dx: i128 = (a.x as i128) - (b.x as i128);
    let dy: i128 = (a.y as i128) - (b.y as i128);
    let dz: i128 = (a.z as i128) - (b.z as i128);
    proof {
        assert(dx * dx >= 0 && dy * dy >= 0 && dz * dz >= 0) by (nonlinear_arith);
        assert(dx * dx <= 4_000_000_000_000_000_000int * 4_000_000_000_000_000_000int && dy * dy
            <= 4_000_000_000_000_000_000int * 4_000_000_000_000_000_000int && dz * dz
            <= 4_000_000_000_000_000_000int * 4_000_000_000_000_000_000int) by (nonlinear_arith)
            requires
                -4_000_000_000_000_000_000 <= dx <= 4_000_000_000_000_000_000,
                -4_000_000_000_000_000_000 <= dy <= 4_000_000_000_000_000_000,
                -4_000_000_000_000_000_000 <= dz <= 4_000_000_000_000_000_000,
        ;
    }
    let sq: i128 = dx * dx + dy * dy + dz * dz;
    let r128 = isqrt_u128(sq as u128);
    proof {
        assert(sq as int == dist_sq(a@, b@));
        assert(r128 as int <= 7_000_000_000_000_000_000) by (nonlinear_arith)
            requires
                0 <= r128 as int,
                (r128 as int) * (r128 as int) <= sq as int,
                sq as int <= 3int * (4_000_000_000_000_000_000int
                    * 4_000_000_000_000_000_000int),
        ;
    }
    r128 as i64
}

/// Component-wise vector sum.
pub(crate) fn v3_plus(a: &Vec3, b: &Vec3, Ghost(ba): Ghost<int>, Ghost(bb): Ghost<int>) -> (r: Vec3)
    requires
        v3_bounded(a@, ba),
        v3_bounded(b@, bb),
        ba + bb <= 0x7fff_ffff_ffff_ffff,
    ensures
        r@ == v3_add(a@, b@),
        v3_bounded(r@, ba + bb),
{
    Vec3 { x: a.x + b.x, y: a.y + b.y, z: a.z + b.z }
}

/// Fixed-point scaling of a vector by a scalar.
pub(crate) fn v3_scale(v: &Vec3, s: i64, Ghost(bv): Ghost<int>, Ghost(bs): Ghost<int>) -> (r: Vec3)
    requires
        v3_bounded(v@, bv),
        -bs <= s <= bs,
        bv * bs <= 0x7fff_ffff_ffff_ffff * 1_000_000,
    ensures
        r@ == v3_scale_fx(v@, s as int),
        v3_bounded(r@, tdiv(bv * bs, 1_000_000)),
{
    let x = fx_mul(v.x, s, Ghost(bv), Ghost(bs));
    let y = fx_mul(v.y, s, Ghost(bv), Ghost(bs));
    let z = fx_mul(v.z, s, Ghost(bv), Ghost(bs));
    Vec3 { x, y, z }
}

/// Fixed-point cross product.
pub(crate) fn v3_cross(a: &Vec3, b: &Vec3, Ghost(ba): Ghost<int>, Ghost(bb): Ghost<int>) -> (r: Vec3)
    requires
        v3_bounded(a@, ba),
        v3_bounded(b@, bb),
        ba * bb <= 0x3fff_ffff_ffff_ffff * 1_000_000,
    ensures
        r@ == cross_fx(a@, b@),
        v3_bounded(r@, 2 * tdiv(ba * bb, 1_000_000)),
{
    proof {
        assert(0 <= ba * bb) by (nonlinear_arith)
            requires
                0 <= ba,
                0 <= bb,
        ;
        lemma_tdiv_bound(ba * bb, 0x3fff_ffff_ffff_ffffint * 1_000_000int, 1_000_000int);
        lemma_tdiv_exact(0x3fff_ffff_ffff_ffffint, 1_000_000int);
    }
    let x = fx_mul(a.y, b.z, Ghost(ba), Ghost(bb)) - fx_mul(a.z, b.y, Ghost(ba), Ghost(bb));
    let y = fx_mul(a.z, b.x, Ghost(ba), Ghost(bb)) - fx_mul(a.x, b.z, Ghost(ba), Ghost(bb));
    let z = fx_mul(a.x, b.y, Ghost(ba), Ghost(bb)) - fx_mul(a.y, b.x, Ghost(ba), Ghost(bb));
    Vec3 { x, y, z }
}

/// Fixed-point Hamilton product.
pub(crate) fn quat_mul(p: &Quat, q: &Quat, Ghost(bp): Ghost<int>, Ghost(bq): Ghost<int>) -> (r: Quat)
    requires
        q4_bounded(p@, bp),
        q4_bounded(q@, bq),
        bp * bq <= 0x1fff_ffff_ffff_ffff * 1_000_000,
    ensures
        r@ == quat_mul_fx(p@, q@),
        q4_bounded(r@, 4 * tdiv(bp * bq, 1_000_000)),
{
    proof {
        assert(0 <= bp * bq) by (nonlinear_arith)
            requires
                0 <= bp,
                0 <= bq,
        ;
        lemma_tdiv_bound(bp * bq, 0x1fff_ffff_ffff_ffffint * 1_000_000int, 1_000_000int);
        lemma_tdiv_exact(0x1fff_ffff_ffff_ffffint, 1_000_000int);
    }
    let x = fx_mul(p.w, q.x, Ghost(bp), Ghost(bq)) + fx_mul(p.x, q.w, Ghost(bp), Ghost(bq))
        + fx_mul(p.y, q.z, Ghost(bp), Ghost(bq)) - fx_mul(p.z, q.y, Ghost(bp), Ghost(bq));
    let y = fx_mul(p.w, q.y, Ghost(bp), Ghost(bq)) - fx_mul(p.x, q.z, Ghost(bp), Ghost(bq))
        + fx_mul(p.y, q.w, Ghost(bp), Ghost(bq)) + fx_mul(p.z, q.x, Ghost(bp), Ghost(bq));
    let z = fx_mul(p.w, q.z, Ghost(bp), Ghost(bq)) + fx_mul(p.x, q.y, Ghost(bp), Ghost(bq))
        - fx_mul(p.y, q.x, Ghost(bp), Ghost(bq)) + fx_mul(p.z, q.w, Ghost(bp), Ghost(bq));
    let w = fx_mul(p.w, q.w, Ghost(bp), Ghost(bq)) - fx_mul(p.x, q.x, Ghost(bp), Ghost(bq))
        - fx_mul(p.y, q.y, Ghost(bp), Ghost(bq)) - fx_mul(p.z, q.z, Ghost(bp), Ghost(bq));
    Quat { x, y, z, w }
}

/// Rotation of `v` by a quaternion whose components fit in one unit.
pub(crate) fn quat_rotate(q: &Quat, v: &Vec3, Ghost(bv): Ghost<int>) -> (r: Vec3)
    requires
        q4_bounded(q@, SCALE as int),
        v3_bounded(v@, bv),
        0 <= bv <= 700_000_000_000_000_000,
    ensures
        r@ == quat_rotate_fx(q@, v@),
        v3_bounded(r@, 13 * bv),
{
    proof {
        lemma_tdiv_exact(bv, 1_000_000);
        lemma_tdiv_exact(4 * bv, 1_000_000);
    }
    let qv = Vec3 { x: q.x, y: q.y, z: q.z };
    let c = v3_cross(&qv, v, Ghost(SCALE as int), Ghost(bv));
    let t = Vec3 { x: 2 * c.x, y: 2 * c.y, z: 2 * c.z };
    let wt = Vec3 {
        x: fx_mul(q.w, t.x, Ghost(SCALE as int), Ghost(4 * bv)),
        y: fx_mul(q.w, t.y, Ghost(SCALE as int), Ghost(4 * bv)),
        z: fx_mul(q.w, t.z, Ghost(SCALE as int), Ghost(4 * bv)),
    };
    let c2 = v3_cross(&qv, &t, Ghost(SCALE as int), Ghost(4 * bv));
    let s1 = v3_plus(v, &wt, Ghost(bv), Ghost(4 * bv));
    v3_plus(&s1, &c2, Ghost(5 * bv), Ghost(8 * bv))
}

/// Normalization of a quaternion to (approximately) unit length.
pub(crate) fn quat_normalize(q: &Quat, Ghost(bq): Ghost<int>) -> (r: Quat)
    requires
        q4_bounded(q@, bq),
        0 <= bq <= 1_000_000_000_000,
    ensures
        r@ == quat_normalize_fx(q@),
        q4_bounded(r@, SCALE as int),
{
    proof {
        assert((q.x as int) * (q.x as int) >= 0 && (q.y as int) * (q.y as int) >= 0 && (q.z as int)
            * (q.z as int) >= 0 && (q.w as int) * (q.w as int) >= 0) by (nonlinear_arith);
        assert((q.x as int) * (q.x as int) <= bq * bq && (q.y as int) * (q.y as int) <= bq * bq && (
        q.z as int) * (q.z as int) <= bq * bq && (q.w as int) * (q.w as int) <= bq * bq)
            by (nonlinear_arith)
            requires
                q4_bounded(q@, bq),
        ;
        assert(bq * bq <= 1_000_000_000_000int * 1_000_000_000_000int) by (nonlinear_arith)
            requires
                0 <= bq <= 1_000_000_000_000,
        ;
    }
    let sq: i128 = (q.x as i128) * (q.x as i128) + (q.y as i128) * (q.y as i128) + (q.z as i128)
        * (q.z as i128) + (q.w as i128) * (q.w as i128);
    proof {
        assert(sq as int == quat_norm_sq(q@));
    }
    let n128: u128 = isqrt_u128(sq as u128);
    if n128 == 0 {
        proof {
            assert(sqrt_floor(quat_norm_sq(q@)) == 0);
        }
        Quat { x: 0, y: 0, z: 0, w: SCALE }
    } else {
        let n: i128 = n128 as i128;
        let ghost ni = n as int;
        proof {
            assert(is_isqrt(quat_norm_sq(q@), ni));
            assert(-ni <= q.x as int <= ni && -ni <= q.y as int <= ni && -ni <= q.z as int <= ni
                && -ni <= q.w as int <= ni) by (nonlinear_arith)
                requires
                    1 <= ni,
                    (q.x as int) * (q.x as int) <= quat_norm_sq(q@),
                    (q.y as int) * (q.y as int) <= quat_norm_sq(q@),
                    (q.z as int) * (q.z as int) <= quat_norm_sq(q@),
                    (q.w as int) * (q.w as int) <= quat_norm_sq(q@),
                    quat_norm_sq(q@) < (ni + 1) * (ni + 1),
            ;
            lemma_tdiv_bound((q.x as int) * 1_000_000, ni * 1_000_000, ni);
            lemma_tdiv_bound((q.y as int) * 1_000_000, ni * 1_000_000, ni);
            lemma_tdiv_bound((q.z as int) * 1_000_000, ni * 1_000_000, ni);
            lemma_tdiv_bound((q.w as int) * 1_000_000, ni * 1_000_000, ni);
            lemma_tdiv_exact(1_000_000, ni);
        }
        let x = i128_tdiv((q.x as i128) * 1_000_000, n) as i64;
        let y = i128_tdiv((q.y as i128) * 1_000_000, n) as i64;
        let z = i128_tdiv((q.z as i128) * 1_000_000, n) as i64;
        let w = i128_tdiv((q.w as i128) * 1_000_000, n) as i64;
        Quat { x, y, z, w }
    }
}

} // verus!
