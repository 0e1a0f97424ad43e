//! Fixed-point scalar arithmetic.
//!
//! A scalar is an `i64` holding its value times `ONE`.  The functions here
//! give floor (Euclidean) rounding, stated exactly over mathematical
//! integers, together with an integer square root.

use vstd::prelude::*;
use vstd::arithmetic::div_mod::{
    lemma_fundamental_div_mod, lemma_fundamental_div_mod_converse, lemma_div_is_ordered,
    lemma_div_nonincreasing, lemma_div_pos_is_pos,
};

verus! {

/// The fixed-point scale: a scalar `x` denotes the real number `x / ONE`.
pub const ONE: i64 = 65536;

/// Magnitude bound on the fixed-point coordinates that the scene's
/// intersection queries accept; keeps every intermediate product of the
/// exact segment/sphere tests inside `i128`.
pub const MAX_COORD: i64 = 0x1000_0000;

/// 2^126, the bound under which a `u128` square root argument must stay.
pub const SQRT_ARG_LIMIT: u128 = 0x4000_0000_0000_0000_0000_0000_0000_0000;

/// 2^126 as `i128`, the magnitude bound for exact division arguments.
pub const DIV_ARG_LIMIT: i128 = 0x4000_0000_0000_0000_0000_0000_0000_0000;

/// 2^62, the magnitude bound on products fed to `fp_mul`.
pub const FP_PRODUCT_LIMIT: i64 = 0x4000_0000_0000_0000;

/// 2^46, the magnitude bound on dividends fed to `fp_div`.
pub const FP_DIVIDEND_LIMIT: i64 = 0x4000_0000_0000;

/// Fixed-point product, rounded toward negative infinity.
pub open spec fn fp_mul_spec(a: int, b: int) -> int {
    (a * b) / (ONE as int)
}

/// Fixed-point quotient, rounded toward negative infinity.
pub open spec fn fp_div_spec(a: int, b: int) -> int {
    (a * (ONE as int)) / b
}

/// For a nonpositive dividend and positive divisor, floor division does not
/// move the value further from zero.
pub proof fn lemma_div_ge_self_nonpos(x: int, d: int)
    requires
        x <= 0,
        1 <= d,
    ensures
        x <= x / d <= 0,
{
    lemma_fundamental_div_mod(x, d);
    lemma_div_is_ordered(x, 0, d);
    vstd::arithmetic::div_mod::lemma_div_of0(d);
    let q = x / d;
    let r = x % d;
    if q <= -1 {
        assert((d - 1) * q <= -(d - 1)) by (nonlinear_arith)
            requires
                q <= -1,
                1 <= d,
        ;
        assert(d * q + r - q == (d - 1) * q + r) by (nonlinear_arith);
    }
}

/// Floor (Euclidean) division of `p` by a positive `d`, exact over `int`.
pub fn div_floor_i128(p: i128, d: i128) -> (r: i128)
    requires
        0 < d < DIV_ARG_LIMIT,
        -DIV_ARG_LIMIT < p < DIV_ARG_LIMIT,
    ensures
        r == p as int / d as int,
        -DIV_ARG_LIMIT <= r <= DIV_ARG_LIMIT,
{
    let du: u128 = d as u128;
    if p >= 0 {
        let q: u128 = (p as u128) / du;
        proof {
            lemma_div_nonincreasing(p as int, d as int);
            lemma_div_pos_is_pos(p as int, d as int);
        }
        q as i128
    } else {
        let m: u128 = (-p) as u128;
        let q: u128 = m / du;
        let rem: u128 = m % du;
        proof {
            lemma_fundamental_div_mod(m as int, d as int);
            lemma_div_nonincreasing(m as int, d as int);
            lemma_div_pos_is_pos(m as int, d as int);
        }
        if rem == 0 {
            proof {
                assert((-(q as int)) * (d as int) == -((d as int) * (q as int)))
                    by (nonlinear_arith);
                lemma_fundamental_div_mod_converse(p as int, d as int, -(q as int), 0);
            }
            -(q as i128)
        } else {
            proof {
                assert((-(q as int) - 1) * (d as int) == -((d as int) * (q as int)) - (d as int))
                    by (nonlinear_arith);
                lemma_fundamental_div_mod_converse(
                    p as int,
                    d as int,
                    -(q as int) - 1,
                    d as int - rem as int,
                );
            }
            -(q as i128) - 1
        }
    }
}

/// Fixed-point multiplication with floor rounding.
pub fn fp_mul(a: i64, b: i64) -> (r: i64)
    requires
        -(FP_PRODUCT_LIMIT as int) <= a * b <= FP_PRODUCT_LIMIT as int,
    ensures
        r == fp_mul_spec(a as int, b as int),
{
    let p: i128 = (a as i128) * (b as i128);
    let q: i128 = div_floor_i128(p, 65536);
    proof {
        if p >= 0 {
            lemma_div_nonincreasing(p as int, 65536);
            lemma_div_pos_is_pos(p as int, 65536);
        } else {
            lemma_div_ge_self_nonpos(p as int, 65536);
        }
    }
    q as i64
}

/// Fixed-point division by a positive divisor, floor rounding.
pub fn fp_div(a: i64, b: i64) -> (r: i64)
    requires
        0 < b,
        -(FP_DIVIDEND_LIMIT as int) <= a as int <= FP_DIVIDEND_LIMIT as int,
    ensures
        r == fp_div_spec(a as int, b as int),
{
    let p: i128 = (a as i128) * 65536;
    let q: i128 = div_floor_i128(p, b as i128);
    proof {
        if p >= 0 {
            lemma_div_nonincreasing(p as int, b as int);
            lemma_div_pos_is_pos(p as int, b as int);
        } else {
            lemma_div_ge_self_nonpos(p as int, b as int);
        }
    }
    q as i64
}

/// Floor division by a positive divisor never grows a value's magnitude.
pub proof fn lemma_div_magnitude(x: int, d: int)
    requires
        1 <= d,
    ensures
        x >= 0 ==> 0 <= x / d <= x,
        x <= 0 ==> x <= x / d <= 0,
{
    if x >= 0 {
        lemma_div_nonincreasing(x, d);
        lemma_div_pos_is_pos(x, d);
    } else {
        lemma_div_ge_self_nonpos(x, d);
    }
}

/// Magnitude bound on the endpoints `fp_lerp` accepts.
pub const FP_LERP_LIMIT: i64 = 0x100_0000_0000;

/// Fixed-point linear interpolation, floor-rounded.
pub open spec fn fp_lerp_spec(t: int, a: int, b: int) -> int {
    a + fp_mul_spec(t, b - a)
}

/// Fixed-point linear interpolation between `a` and `b`, exact up to the
/// floor rounding of the fixed-point product; the result never leaves the
/// closed interval spanned by `a` and `b`.
pub fn fp_lerp(t: i64, a: i64, b: i64) -> (r: i64)
    requires
        0 <= t <= ONE,
        -FP_LERP_LIMIT <= a <= FP_LERP_LIMIT,
        -FP_LERP_LIMIT <= b <= FP_LERP_LIMIT,
    ensures
        r == a + fp_mul_spec(t as int, b - a),
        a <= b ==> a <= r <= b,
        b <= a ==> b <= r <= a,
{
    let diff: i64 = b - a;
    proof {
        if diff >= 0 {
            assert(0 <= (t as int) * (diff as int) <= (ONE as int) * (diff as int))
                by (nonlinear_arith)
                requires
                    0 <= t <= ONE,
                    0 <= diff,
            ;
            lemma_div_is_ordered(0, (t as int) * (diff as int), ONE as int);
            lemma_div_is_ordered((t as int) * (diff as int), (ONE as int) * (diff as int),
                ONE as int);
            vstd::arithmetic::div_mod::lemma_div_multiples_vanish(diff as int, ONE as int);
            vstd::arithmetic::div_mod::lemma_div_of0(ONE as int);
        } else {
            assert((ONE as int) * (diff as int) <= (t as int) * (diff as int) <= 0)
                by (nonlinear_arith)
                requires
                    0 <= t <= ONE,
                    diff <= 0,
            ;
            lemma_div_is_ordered((ONE as int) * (diff as int), (t as int) * (diff as int),
                ONE as int);
            lemma_div_is_ordered((t as int) * (diff as int), 0, ONE as int);
            vstd::arithmetic::div_mod::lemma_div_multiples_vanish(diff as int, ONE as int);
            vstd::arithmetic::div_mod::lemma_div_of0(ONE as int);
        }
    }
    let step: i64 = fp_mul(t, diff);
    a + step
}

/// The integer square root, rounded down.
pub open spec fn sqrt_floor(n: nat) -> nat
    decreases n,
{
    if n == 0 {
        0
    } else {
        let s = sqrt_floor((n - 1) as nat);
        if (s + 1) * (s + 1) <= n {
            s + 1
        } else {
            s
        }
    }
}

pub proof fn lemma_sqrt_floor_bounds(n: nat)
    ensures
        sqrt_floor(n) * sqrt_floor(n) <= n,
        n < (sqrt_floor(n) + 1) * (sqrt_floor(n) + 1),
    decreases n,
{
    if n == 0 {
        assert((sqrt_floor(0) + 1) * (sqrt_floor(0) + 1) == 1) by (nonlinear_arith)
            requires
                sqrt_floor(0) == 0nat,
        ;
    } else {
        lemma_sqrt_floor_bounds((n - 1) as nat);
        let s = sqrt_floor((n - 1) as nat);
        assert(sqrt_floor(n) == if (s + 1) * (s + 1) <= n {
            s + 1
        } else {
            s
        });
        if (s + 1) * (s + 1) <= n {
            assert((s + 2) * (s + 2) > (s + 1) * (s + 1) + 1) by (nonlinear_arith);
            assert(n < (s + 1) * (s + 1) + 1);
            assert(n < (s + 2) * (s + 2));
            assert((sqrt_floor(n) + 1) * (sqrt_floor(n) + 1) == (s + 2) * (s + 2));
        }
    }
}

/// Any integer meeting the square-root bracketing is the floor square root.
pub proof fn lemma_sqrt_floor_unique(n: nat, r: nat)
    requires
        r * r <= n,
        n < (r + 1) * (r + 1),
    ensures
        r == sqrt_floor(n),
{
    lemma_sqrt_floor_bounds(n);
    let s = sqrt_floor(n);
    if r < s {
        assert((r + 1) * (r + 1) <= s * s) by (nonlinear_arith)
            requires
                r + 1 <= s,
        ;
    }
    if r > s {
        assert((s + 1) * (s + 1) <= r * r) by (nonlinear_arith)
            requires
                s + 1 <= r,
        ;
    }
}

/// Integer square root by bisection.
pub fn isqrt(x: u128) -> (r: u64)
    requires
        x < SQRT_ARG_LIMIT,
    ensures
        r as nat == sqrt_floor(x as nat),
        (r as int) * (r as int) <= x as int,
        (x as int) < (r as int + 1) * (r as int + 1),
{
    let mut lo: u64 = 0;
    let mut hi: u64 = 0x8000_0000_0000_0000;
    proof {
        assert(0x8000_0000_0000_0000int * 0x8000_0000_0000_0000int
            == 0x4000_0000_0000_0000_0000_0000_0000_0000int) by (nonlinear_arith);
    }
    while lo + 1 < hi
        invariant
            lo < hi <= 0x8000_0000_0000_0000,
            (lo as int) * (lo as int) <= x as int,
            (x as int) < (hi as int) * (hi as int),
        decreases hi - lo,
    {
        let mid: u64 = lo + (hi - lo) / 2;
        proof {
            assert((mid as int) * (mid as int) < 0x4000_0000_0000_0000_0000_0000_0000_0000int)
                by (nonlinear_arith)
                requires
                    mid < 0x8000_0000_0000_0000u64,
            ;
        }
        if (mid as u128) * (mid as u128) <= x {
            lo = mid;
        } else {
            hi = mid;
        }
    }
    proof {
        lemma_sqrt_floor_unique(x as nat, lo as nat);
    }
    lo
}

} // verus!
