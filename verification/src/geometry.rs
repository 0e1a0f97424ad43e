//! Points, vectors, normals and rays over fixed-point coordinates.

use vstd::prelude::*;
use crate::num::{
    fp_div, fp_div_spec, fp_lerp, fp_mul_spec, isqrt, lemma_div_magnitude, sqrt_floor, ONE,
    FP_LERP_LIMIT, MAX_COORD,
};
use vstd::arithmetic::div_mod::lemma_div_is_ordered;

verus! {

/// A sample-space point: both coordinates are fixed-point values in [0, ONE].
#[derive(Clone, Copy, PartialEq, Eq, Structural, Debug)]
pub struct Point2 {
    pub x: i64,
    pub y: i64,
}

/// An integer raster coordinate (a pixel).
#[derive(Clone, Copy, PartialEq, Eq, Structural, Debug)]
pub struct Point2i {
    pub x: i64,
    pub y: i64,
}

/// A position, fixed-point coordinates.
#[derive(Clone, Copy, PartialEq, Eq, Structural, Debug)]
pub struct Point3 {
    pub x: i64,
    pub y: i64,
    pub z: i64,
}

/// A direction or offset, fixed-point coordinates.
#[derive(Clone, Copy, PartialEq, Eq, Structural, Debug)]
pub struct Vector3 {
    pub x: i64,
    pub y: i64,
    pub z: i64,
}

/// A surface normal, fixed-point coordinates.
#[derive(Clone, Copy, PartialEq, Eq, Structural, Debug)]
pub struct Normal3 {
    pub x: i64,
    pub y: i64,
    pub z: i64,
}

/// A ray: origin, direction, and the parametric range [0, t_max] in
/// fixed-point units of the direction's length.
#[derive(Clone, Copy, PartialEq, Eq, Structural, Debug)]
pub struct Ray {
    pub o: Point3,
    pub d: Vector3,
    pub t_max: i64,
    pub time: i64,
}

pub open spec fn pnt3_bounded(p: Point3) -> bool {
    &&& -MAX_COORD <= p.x <= MAX_COORD
    &&& -MAX_COORD <= p.y <= MAX_COORD
    &&& -MAX_COORD <= p.z <= MAX_COORD
}

pub open spec fn vec3_bounded(v: Vector3, m: int) -> bool {
    &&& -m <= v.x <= m
    &&& -m <= v.y <= m
    &&& -m <= v.z <= m
}

pub open spec fn nrm3_bounded(n: Normal3, m: int) -> bool {
    &&& -m <= n.x <= m
    &&& -m <= n.y <= m
    &&& -m <= n.z <= m
}

pub open spec fn vec3_is_zero(v: Vector3) -> bool {
    v.x == 0 && v.y == 0 && v.z == 0
}

/// Squared length of a vector in raw (twice-scaled) fixed-point units.
pub open spec fn vec3_len2(v: Vector3) -> int {
    (v.x as int) * (v.x as int) + (v.y as int) * (v.y as int) + (v.z as int) * (v.z as int)
}

/// Floor square root of the squared length: the vector's fixed-point length.
pub open spec fn vec3_len_floor(v: Vector3) -> int {
    sqrt_floor(vec3_len2(v) as nat) as int
}

/// The normalized direction: each coordinate divided by the floor length.
pub open spec fn vec3_normalize_spec(v: Vector3) -> Vector3 {
    Vector3 {
        x: fp_div_spec(v.x as int, vec3_len_floor(v)) as i64,
        y: fp_div_spec(v.y as int, vec3_len_floor(v)) as i64,
        z: fp_div_spec(v.z as int, vec3_len_floor(v)) as i64,
    }
}

pub fn pnt3_default() -> (r: Point3)
    ensures
        r == (Point3 { x: 0, y: 0, z: 0 }),
{
    Point3 { x: 0, y: 0, z: 0 }
}

pub fn vec3_default() -> (r: Vector3)
    ensures
        r == (Vector3 { x: 0, y: 0, z: 0 }),
{
    Vector3 { x: 0, y: 0, z: 0 }
}

pub fn nrm3_default() -> (r: Normal3)
    ensures
        r == (Normal3 { x: 0, y: 0, z: 0 }),
{
    Normal3 { x: 0, y: 0, z: 0 }
}

/// The offset from `a` to `b`.
pub fn pnt3_sub(b: &Point3, a: &Point3) -> (r: Vector3)
    requires
        pnt3_bounded(*b),
        pnt3_bounded(*a),
    ensures
        r.x == b.x - a.x,
        r.y == b.y - a.y,
        r.z == b.z - a.z,
        vec3_bounded(r, 2 * MAX_COORD),
{
    Vector3 { x: b.x - a.x, y: b.y - a.y, z: b.z - a.z }
}

/// Squared distance between two points, in raw (twice-scaled) units.
pub open spec fn pnt3_dist2(a: Point3, b: Point3) -> int {
    (b.x - a.x) * (b.x - a.x) + (b.y - a.y) * (b.y - a.y) + (b.z - a.z) * (b.z - a.z)
}

/// Bounds the squared length of a vector with bounded coordinates.
pub proof fn lemma_len2_bounds(v: Vector3, m: int)
    requires
        vec3_bounded(v, m),
        0 <= m,
    ensures
        0 <= vec3_len2(v) <= 3 * m * m,
        0 <= (v.x as int) * (v.x as int) <= m * m,
        0 <= (v.y as int) * (v.y as int) <= m * m,
        0 <= (v.z as int) * (v.z as int) <= m * m,
        vec3_is_zero(v) <==> vec3_len2(v) == 0,
{
    assert(3 * m * m == m * m + m * m + m * m) by (nonlinear_arith);
    assert(0 <= (v.x as int) * (v.x as int) <= m * m) by (nonlinear_arith)
        requires
            -m <= v.x <= m,
            0 <= m,
    ;
    assert(0 <= (v.y as int) * (v.y as int) <= m * m) by (nonlinear_arith)
        requires
            -m <= v.y <= m,
            0 <= m,
    ;
    assert(0 <= (v.z as int) * (v.z as int) <= m * m) by (nonlinear_arith)
        requires
            -m <= v.z <= m,
            0 <= m,
    ;
    assert(v.x != 0 ==> (v.x as int) * (v.x as int) >= 1) by (nonlinear_arith);
    assert(v.y != 0 ==> (v.y as int) * (v.y as int) >= 1) by (nonlinear_arith);
    assert(v.z != 0 ==> (v.z as int) * (v.z as int) >= 1) by (nonlinear_arith);
    if vec3_is_zero(v) {
        assert(vec3_len2(v) == 0) by (nonlinear_arith)
            requires
                v.x == 0 && v.y == 0 && v.z == 0,
                vec3_len2(v) == (v.x as int) * (v.x as int) + (v.y as int) * (v.y as int) + (
                v.z as int) * (v.z as int),
        ;
    }
}

/// Fixed-point length of a vector.
pub fn vec3_length(v: &Vector3) -> (r: i64)
    requires
        vec3_bounded(*v, 2 * MAX_COORD),
    ensures
        r == vec3_len_floor(*v),
        0 <= r <= 0x4000_0000,
        r == 0 <==> vec3_is_zero(*v),
{
    proof {
        lemma_len2_bounds(*v, 2 * MAX_COORD);
        assert((2 * MAX_COORD as int) * (2 * MAX_COORD as int) == 0x400_0000_0000_0000int)
            by (nonlinear_arith);
        assert(3 * (2 * MAX_COORD as int) * (2 * MAX_COORD as int) == 0xC00_0000_0000_0000int)
            by (nonlinear_arith);
        assert((2 * MAX_COORD as int) * (2 * MAX_COORD as int)
            == (2 * MAX_COORD) * (2 * MAX_COORD));
    }
    let xs: i128 = (v.x as i128) * (v.x as i128);
    let ys: i128 = (v.y as i128) * (v.y as i128);
    let zs: i128 = (v.z as i128) * (v.z as i128);
    let sum: i128 = xs + ys + zs;
    let len: u64 = isqrt(sum as u128);
    proof {
        assert((len as int) <= 0x4000_0000int) by (nonlinear_arith)
            requires
                (len as int) * (len as int) <= sum as int,
                sum as int <= 0xC00_0000_0000_0000int,
        ;
        if vec3_is_zero(*v) {
        } else {
            assert(len >= 1) by (nonlinear_arith)
                requires
                    (sum as int) < (len as int + 1) * (len as int + 1),
                    sum as int >= 1,
            ;
        }
    }
    len as i64
}

/// Normalizes a nonzero vector; exact statement over the floor length.
pub fn vec3_normalize(v: &Vector3) -> (r: Vector3)
    requires
        vec3_bounded(*v, 2 * MAX_COORD),
        !vec3_is_zero(*v),
    ensures
        r == vec3_normalize_spec(*v),
        vec3_len_floor(*v) >= 1,
        vec3_bounded(r, 2 * ONE),
{
    let len: i64 = vec3_length(v);
    proof {
        lemma_len2_bounds(*v, 2 * MAX_COORD);
        crate::num::lemma_sqrt_floor_bounds(vec3_len2(*v) as nat);
        lemma_component_ratio(v.x as int, len as int, vec3_len2(*v));
        lemma_component_ratio(v.y as int, len as int, vec3_len2(*v));
        lemma_component_ratio(v.z as int, len as int, vec3_len2(*v));
    }
    let rx: i64 = fp_div(v.x, len);
    let ry: i64 = fp_div(v.y, len);
    let rz: i64 = fp_div(v.z, len);
    proof {
        lemma_div_magnitude((v.x as int) * (ONE as int), len as int);
        lemma_div_magnitude((v.y as int) * (ONE as int), len as int);
        lemma_div_magnitude((v.z as int) * (ONE as int), len as int);
    }
    Vector3 { x: rx, y: ry, z: rz }
}

/// A coordinate divided by the floor length of its own vector stays below
/// twice the fixed-point unit.
proof fn lemma_component_ratio(x: int, len: int, len2: int)
    requires
        x * x <= len2,
        len >= 1,
        len * len <= len2,
        len2 < (len + 1) * (len + 1),
    ensures
        -2 * (ONE as int) <= (x * (ONE as int)) / len <= 2 * (ONE as int),
{
    assert((len + 1) * (len + 1) <= (2 * len) * (2 * len)) by (nonlinear_arith)
        requires
            len >= 1,
    ;
    assert(-2 * len < x < 2 * len) by (nonlinear_arith)
        requires
            x * x < (2 * len) * (2 * len),
            len >= 1,
    ;
    lemma_div_is_ordered(x * (ONE as int), 2 * len * (ONE as int), len);
    lemma_div_is_ordered(-2 * len * (ONE as int), x * (ONE as int), len);
    vstd::arithmetic::div_mod::lemma_div_multiples_vanish(2 * (ONE as int), len);
    vstd::arithmetic::div_mod::lemma_div_multiples_vanish(-2 * (ONE as int), len);
    assert(2 * len * (ONE as int) == len * (2 * (ONE as int)));
    assert(-2 * len * (ONE as int) == len * (-2 * (ONE as int)));
}

/// Flips a vector.
pub fn vec3_neg(v: &Vector3) -> (r: Vector3)
    requires
        vec3_bounded(*v, 0x1000_0000_0000_0000),
    ensures
        r.x == -v.x,
        r.y == -v.y,
        r.z == -v.z,
{
    Vector3 { x: -v.x, y: -v.y, z: -v.z }
}

/// Fixed-point dot product of two normals.
pub open spec fn nrm_dot_spec(a: Normal3, b: Normal3) -> int {
    fp_mul_spec(a.x as int, b.x as int) + fp_mul_spec(a.y as int, b.y as int) + fp_mul_spec(
        a.z as int,
        b.z as int,
    )
}

/// Componentwise fixed-point linear interpolation between two points.
pub open spec fn pnt3_lerp_spec(t: int, a: Point3, b: Point3) -> Point3 {
    Point3 {
        x: (a.x + fp_mul_spec(t, b.x - a.x)) as i64,
        y: (a.y + fp_mul_spec(t, b.y - a.y)) as i64,
        z: (a.z + fp_mul_spec(t, b.z - a.z)) as i64,
    }
}

pub open spec fn in_closed_interval(x: int, a: int, b: int) -> bool {
    if a <= b {
        a <= x <= b
    } else {
        b <= x <= a
    }
}

/// A lerped point stays in the axis-aligned box spanned by its endpoints.
pub open spec fn pnt3_in_hull(p: Point3, a: Point3, b: Point3) -> bool {
    &&& in_closed_interval(p.x as int, a.x as int, b.x as int)
    &&& in_closed_interval(p.y as int, a.y as int, b.y as int)
    &&& in_closed_interval(p.z as int, a.z as int, b.z as int)
}

pub fn pnt3_lerp(t: i64, a: &Point3, b: &Point3) -> (r: Point3)
    requires
        0 <= t <= ONE,
        -FP_LERP_LIMIT <= a.x <= FP_LERP_LIMIT,
        -FP_LERP_LIMIT <= a.y <= FP_LERP_LIMIT,
        -FP_LERP_LIMIT <= a.z <= FP_LERP_LIMIT,
        -FP_LERP_LIMIT <= b.x <= FP_LERP_LIMIT,
        -FP_LERP_LIMIT <= b.y <= FP_LERP_LIMIT,
        -FP_LERP_LIMIT <= b.z <= FP_LERP_LIMIT,
    ensures
        r == pnt3_lerp_spec(t as int, *a, *b),
        pnt3_in_hull(r, *a, *b),
{
    let x: i64 = fp_lerp(t, a.x, b.x);
    let y: i64 = fp_lerp(t, a.y, b.y);
    let z: i64 = fp_lerp(t, a.z, b.z);
    Point3 { x, y, z }
}

/// An axis-aligned box.
#[derive(Clone, Copy, PartialEq, Eq, Structural, Debug)]
pub struct Bounds3 {
    pub p_min: Point3,
    pub p_max: Point3,
}

pub open spec fn min_spec(a: int, b: int) -> int {
    if a <= b {
        a
    } else {
        b
    }
}

pub open spec fn max_spec(a: int, b: int) -> int {
    if a >= b {
        a
    } else {
        b
    }
}

/// The box spanned by two corner points.
pub open spec fn bnd3_new_spec(a: Point3, b: Point3) -> Bounds3 {
    Bounds3 {
        p_min: Point3 {
            x: min_spec(a.x as int, b.x as int) as i64,
            y: min_spec(a.y as int, b.y as int) as i64,
            z: min_spec(a.z as int, b.z as int) as i64,
        },
        p_max: Point3 {
            x: max_spec(a.x as int, b.x as int) as i64,
            y: max_spec(a.y as int, b.y as int) as i64,
            z: max_spec(a.z as int, b.z as int) as i64,
        },
    }
}

/// The smallest box holding both boxes.
pub open spec fn bnd3_union_spec(a: Bounds3, b: Bounds3) -> Bounds3 {
    Bounds3 {
        p_min: Point3 {
            x: min_spec(a.p_min.x as int, b.p_min.x as int) as i64,
            y: min_spec(a.p_min.y as int, b.p_min.y as int) as i64,
            z: min_spec(a.p_min.z as int, b.p_min.z as int) as i64,
        },
        p_max: Point3 {
            x: max_spec(a.p_max.x as int, b.p_max.x as int) as i64,
            y: max_spec(a.p_max.y as int, b.p_max.y as int) as i64,
            z: max_spec(a.p_max.z as int, b.p_max.z as int) as i64,
        },
    }
}

/// The box grown by `delta` on every side.
pub open spec fn bnd3_expand_spec(b: Bounds3, delta: int) -> Bounds3 {
    Bounds3 {
        p_min: Point3 {
            x: (b.p_min.x - delta) as i64,
            y: (b.p_min.y - delta) as i64,
            z: (b.p_min.z - delta) as i64,
        },
        p_max: Point3 {
            x: (b.p_max.x + delta) as i64,
            y: (b.p_max.y + delta) as i64,
            z: (b.p_max.z + delta) as i64,
        },
    }
}

fn i64_min(a: i64, b: i64) -> (r: i64)
    ensures
        r == min_spec(a as int, b as int),
{
    if a <= b {
        a
    } else {
        b
    }
}

fn i64_max(a: i64, b: i64) -> (r: i64)
    ensures
        r == max_spec(a as int, b as int),
{
    if a >= b {
        a
    } else {
        b
    }
}

impl Bounds3 {
    /// The box spanned by two corner points.
    pub fn new(a: Point3, b: Point3) -> (r: Bounds3)
        ensures
            r == bnd3_new_spec(a, b),
    {
        Bounds3 {
            p_min: Point3 { x: i64_min(a.x, b.x), y: i64_min(a.y, b.y), z: i64_min(a.z, b.z) },
            p_max: Point3 { x: i64_max(a.x, b.x), y: i64_max(a.y, b.y), z: i64_max(a.z, b.z) },
        }
    }
}

/// The smallest box holding both boxes.
pub fn bnd3_union_bnd3(a: &Bounds3, b: &Bounds3) -> (r: Bounds3)
    ensures
        r == bnd3_union_spec(*a, *b),
{
    Bounds3 {
        p_min: Point3 {
            x: i64_min(a.p_min.x, b.p_min.x),
            y: i64_min(a.p_min.y, b.p_min.y),
            z: i64_min(a.p_min.z, b.p_min.z),
        },
        p_max: Point3 {
            x: i64_max(a.p_max.x, b.p_max.x),
            y: i64_max(a.p_max.y, b.p_max.y),
            z: i64_max(a.p_max.z, b.p_max.z),
        },
    }
}

/// The box grown by `delta` on every side.
pub fn bnd3_expand(b: &Bounds3, delta: i64) -> (r: Bounds3)
    requires
        -0x1000_0000_0000 <= b.p_min.x - delta <= 0x1000_0000_0000,
        -0x1000_0000_0000 <= b.p_min.y - delta <= 0x1000_0000_0000,
        -0x1000_0000_0000 <= b.p_min.z - delta <= 0x1000_0000_0000,
        -0x1000_0000_0000 <= b.p_max.x + delta <= 0x1000_0000_0000,
        -0x1000_0000_0000 <= b.p_max.y + delta <= 0x1000_0000_0000,
        -0x1000_0000_0000 <= b.p_max.z + delta <= 0x1000_0000_0000,
    ensures
        r == bnd3_expand_spec(*b, delta as int),
{
    Bounds3 {
        p_min: Point3 { x: b.p_min.x - delta, y: b.p_min.y - delta, z: b.p_min.z - delta },
        p_max: Point3 { x: b.p_max.x + delta, y: b.p_max.y + delta, z: b.p_max.z + delta },
    }
}

/// Fixed-point distance between two points: the floor square root of the
/// raw squared distance.
pub fn pnt3_distance(a: &Point3, b: &Point3) -> (r: i64)
    requires
        pnt3_bounded(*a),
        pnt3_bounded(*b),
    ensures
        r as int == sqrt_floor(pnt3_dist2(*a, *b) as nat),
        0 <= r <= 0x4000_0000,
{
    let d: Vector3 = pnt3_sub(b, a);
    vec3_length(&d)
}

/// Fixed-point squared distance between two points.
pub fn pnt3_distance_squared(a: &Point3, b: &Point3) -> (r: i64)
    requires
        pnt3_bounded(*a),
        pnt3_bounded(*b),
    ensures
        r as int == pnt3_dist2(*a, *b) / (ONE as int),
        0 <= r,
{
    let d: Vector3 = pnt3_sub(b, a);
    proof {
        lemma_len2_bounds(d, 2 * MAX_COORD);
        assert((2 * MAX_COORD as int) * (2 * MAX_COORD as int) == 0x400_0000_0000_0000int)
            by (nonlinear_arith);
        assert(3 * (2 * MAX_COORD as int) * (2 * MAX_COORD as int) == 0xC00_0000_0000_0000int)
            by (nonlinear_arith);
    }
    let xs: i128 = (d.x as i128) * (d.x as i128);
    let ys: i128 = (d.y as i128) * (d.y as i128);
    let zs: i128 = (d.z as i128) * (d.z as i128);
    let sum: i128 = xs + ys + zs;
    proof {
        crate::num::lemma_div_magnitude(sum as int, ONE as int);
        vstd::arithmetic::div_mod::lemma_div_pos_is_pos(sum as int, ONE as int);
    }
    crate::num::div_floor_i128(sum, 65536) as i64
}

} // verus!
