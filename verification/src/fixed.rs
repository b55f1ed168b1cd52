//! Fixed-point scalar arithmetic.
//!
//! A scalar is an `i64` holding a count of millionths: the value `1.5` is
//! stored as `1_500_000`. Products and quotients are truncated toward zero,
//! exactly as the specification functions [`mul_fx`] and [`div_fx`] state.

use vstd::prelude::*;

verus! {

use vstd::arithmetic::div_mod::{
    lemma_div_is_ordered,
    lemma_div_is_ordered_by_denominator,
    lemma_div_multiples_vanish,
    lemma_div_nonincreasing,
    lemma_div_pos_is_pos,
};

/// Number of fixed-point steps per whole unit: scalars hold millionths.
pub const SCALE: i64 = 1_000_000;

/// Division truncated toward zero (the rounding every fixed-point
/// operation of this crate uses), for a positive divisor.
pub open spec fn tdiv(a: int, b: int) -> int {
    if a >= 0 {
        a / b
    } else {
        -((-a) / b)
    }
}

/// Fixed-point product: `a * b` in millionths, truncated toward zero.
pub open spec fn mul_fx(a: int, b: int) -> int {
    tdiv(a * b, SCALE as int)
}

/// Fixed-point quotient: `a / b` in millionths, truncated toward zero.
pub open spec fn div_fx(a: int, b: int) -> int {
    tdiv(a * (SCALE as int), b)
}

/// Truncating division shrinks magnitudes and respects magnitude bounds.
pub proof fn lemma_tdiv_bound(x: int, m: int, d: int)
    requires
        1 <= d,
        -m <= x <= m,
    ensures
        -tdiv(m, d) <= tdiv(x, d) <= tdiv(m, d),
        -m <= tdiv(x, d) <= m,
{
    if x >= 0 {
        lemma_div_pos_is_pos(x, d);
        lemma_div_is_ordered(x, m, d);
        lemma_div_nonincreasing(x, d);
        lemma_div_nonincreasing(m, d);
    } else {
        lemma_div_pos_is_pos(-x, d);
        lemma_div_is_ordered(-x, m, d);
        lemma_div_nonincreasing(-x, d);
        lemma_div_nonincreasing(m, d);
    }
}

/// Dividing an exact multiple of `d` by `d` recovers the factor.
pub proof fn lemma_tdiv_exact(c: int, d: int)
    requires
        1 <= d,
    ensures
        tdiv(c * d, d) == c,
{
    if c >= 0 {
        assert(c * d >= 0) by (nonlinear_arith)
            requires
                c >= 0 && d >= 1,
        ;
        lemma_div_multiples_vanish(c, d);
        assert((d * c) / d == c);
        assert(c * d == d * c);
        assert(tdiv(c * d, d) == (c * d) / d);
        assert(tdiv(c * d, d) == c);
    } else {
        assert(c * d < 0 && -(c * d) == (-c) * d) by (nonlinear_arith)
            requires
                c < 0 && d >= 1,
        ;
        lemma_div_multiples_vanish(-c, d);
        assert((d * (-c)) / d == -c);
        assert(-(c * d) == d * (-c));
        assert(tdiv(c * d, d) == -((-(c * d)) / d));
        assert(tdiv(c * d, d) == c);
    }
}

/// The remainder left by truncating division stays within one divisor
/// of zero, on the same side as the dividend.
pub proof fn lemma_tdiv_rem(a: int, d: int)
    requires
        1 <= d,
    ensures
        a >= 0 ==> 0 <= a - tdiv(a, d) * d < d,
        a < 0 ==> -d < a - tdiv(a, d) * d <= 0,
{
    if a >= 0 {
        vstd::arithmetic::div_mod::lemma_fundamental_div_mod(a, d);
        vstd::arithmetic::div_mod::lemma_mod_division_less_than_divisor(a, d);
        assert(d * (a / d) == (a / d) * d) by (nonlinear_arith);
    } else {
        vstd::arithmetic::div_mod::lemma_fundamental_div_mod(-a, d);
        vstd::arithmetic::div_mod::lemma_mod_division_less_than_divisor(-a, d);
        assert(d * ((-a) / d) == ((-a) / d) * d) by (nonlinear_arith);
        assert(a - (-((-a) / d)) * d == -((-a) - ((-a) / d) * d)) by (nonlinear_arith);
    }
}

/// Truncating division of an `i128` by a positive divisor.
pub fn i128_tdiv(a: i128, b: i128) -> (r: i128)
    requires
        1 <= b,
    ensures
        r == tdiv(a as int, b as int),
{
    proof {
        lemma_tdiv_bound(a as int, if a >= 0 { a as int } else { -(a as int) }, b as int);
    }
    match a.checked_div(b) {
        Some(q) => q,
        None => {
            proof {
                assert(false);
            }
            0
        },
    }
}

/// Truncating division of an `i64` by a positive divisor.
pub fn i64_tdiv(a: i64, b: i64) -> (r: i64)
    requires
        1 <= b,
    ensures
        r == tdiv(a as int, b as int),
{
    proof {
        lemma_tdiv_bound(a as int, if a >= 0 { a as int } else { -(a as int) }, b as int);
    }
    match a.checked_div(b) {
        Some(q) => q,
        None => {
            proof {
                assert(false);
            }
            0
        },
    }
}

/// Fixed-point multiplication. The ghost arguments carry magnitude bounds
/// on the operands, from which freedom from overflow follows.
pub(crate) fn fx_mul(a: i64, b: i64, Ghost(ba): Ghost<int>, Ghost(bb): Ghost<int>) -> (r: i64)
    requires
        -ba <= a <= ba,
        -bb <= b <= bb,
        ba * bb <= 0x7fff_ffff_ffff_ffff * 1_000_000,
    ensures
        r == mul_fx(a as int, b as int),
        -tdiv(ba * bb, 1_000_000) <= r <= tdiv(ba * bb, 1_000_000),
{
    proof {
        assert(-(ba * bb) <= (a as int) * (b as int) <= ba * bb) by (nonlinear_arith)
            requires
                -ba <= a <= ba,
                -bb <= b <= bb,
        ;
        lemma_tdiv_bound((a as int) * (b as int), ba * bb, 1_000_000);
        assert(0 <= ba * bb) by (nonlinear_arith)
            requires
                0 <= ba,
                0 <= bb,
        ;
        lemma_tdiv_bound(ba * bb, 0x7fff_ffff_ffff_ffffint * 1_000_000int, 1_000_000int);
        lemma_tdiv_exact(0x7fff_ffff_ffff_ffffint, 1_000_000int);
    }
    let p: i128 = (a as i128) * (b as i128);
    let q: i128 = i128_tdiv(p, 1_000_000);
    q as i64
}

/// Fixed-point division by a positive divisor. `ba` bounds the numerator's
/// magnitude and `bmin` is a positive lower bound on the divisor.
pub(crate) fn fx_div(a: i64, b: i64, Ghost(ba): Ghost<int>, Ghost(bmin): Ghost<int>) -> (r: i64)
    requires
        1 <= bmin <= b,
        -ba <= a <= ba,
        ba * 1_000_000 <= 0x7fff_ffff_ffff_ffff * bmin,
    ensures
        r == div_fx(a as int, b as int),
        -tdiv(ba * 1_000_000, bmin) <= r <= tdiv(ba * 1_000_000, bmin),
{
    proof {
        assert(-(ba * 1_000_000) <= (a as int) * 1_000_000 <= ba * 1_000_000) by (nonlinear_arith)
            requires
                -ba <= a <= ba,
        ;
        lemma_tdiv_bound((a as int) * 1_000_000, ba * 1_000_000, b as int);
        if ba * 1_000_000 >= 0 {
            lemma_div_is_ordered_by_denominator(ba * 1_000_000, bmin, b as int);
        }
        lemma_tdiv_bound(ba * 1_000_000int, 0x7fff_ffff_ffff_ffffint * bmin, bmin);
        assert(tdiv(0x7fff_ffff_ffff_ffff * bmin, bmin) == 0x7fff_ffff_ffff_ffff) by {
            lemma_tdiv_exact(0x7fff_ffff_ffff_ffffint, bmin);
        }
    }
    let p: i128 = (a as i128) * 1_000_000;
    let q: i128 = i128_tdiv(p, b as i128);
    q as i64
}

/// `r` is the integer square root of `n`, rounded down.
pub open spec fn is_isqrt(n: int, r: int) -> bool {
    0 <= r && r * r <= n && n < (r + 1) * (r + 1)
}

/// The integer square root of `n`, rounded down.
pub open spec fn sqrt_floor(n: int) -> int {
    choose|r: int| is_isqrt(n, r)
}

/// A number has at most one rounded-down integer square root.
pub proof fn lemma_isqrt_unique(n: int, r1: int, r2: int)
    requires
        is_isqrt(n, r1),
        is_isqrt(n, r2),
    ensures
        r1 == r2,
{
    assert(r1 == r2) by (nonlinear_arith)
        requires
            0 <= r1 && r1 * r1 <= n && n < (r1 + 1) * (r1 + 1),
            0 <= r2 && r2 * r2 <= n && n < (r2 + 1) * (r2 + 1),
    ;
}

/// Integer square root of a `u128`, rounded down.
pub fn isqrt_u128(n: u128) -> (r: u128)
    ensures
        is_isqrt(n as int, r as int),
        r == sqrt_floor(n as int),
        r < 0x1_0000_0000_0000_0000,
{
    let mut lo: u128 = 0;
    let mut hi: u128 = 0x1_0000_0000_0000_0000;
    while hi - lo > 1
        invariant
            lo < hi <= 0x1_0000_0000_0000_0000,
            (lo as int) * (lo as int) <= n as int,
            (n as int) < (hi as int) * (hi as int),
        decreases hi - lo,
    {
        let mid: u128 = lo + (hi - lo) / 2;
        proof {
            assert((mid as int) * (mid as int) <= 0xffff_ffff_ffff_ffff * 0xffff_ffff_ffff_ffff)
                by (nonlinear_arith)
                requires
                    0 <= mid <= 0xffff_ffff_ffff_ffff,
            ;
        }
        if mid * mid <= n {
            lo = mid;
        } else {
            hi = mid;
        }
    }
    proof {
        assert(hi == lo + 1);
        assert(is_isqrt(n as int, lo as int));
        assert(exists|r: int| is_isqrt(n as int, r));
        assert(lo == sqrt_floor(n as int)) by {
            let w = choose|r: int| is_isqrt(n as int, r);
            lemma_isqrt_unique(n as int, lo as int, w);
        }
    }
    lo
}

} // verus!
