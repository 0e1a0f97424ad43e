//! The scene as seen by this core: spherical primitives with optional
//! materials, an exact boolean occlusion query, and an intersection query
//! used by the transmittance walk.
//!
//! All occlusion mathematics is exact: whether a segment meets a sphere is
//! decided by evaluating the squared-distance quadratic at its clamped
//! vertex with integer cross-multiplication, so no square root and no
//! epsilon offsetting enter the boolean test.

use vstd::prelude::*;
use crate::geometry::{
    pnt3_bounded, pnt3_dist2, pnt3_in_hull, pnt3_lerp, pnt3_lerp_spec, Point3, Ray,
};
use crate::num::{div_floor_i128, isqrt, lemma_div_magnitude, ONE, MAX_COORD};

verus! {

/// A spherical scene primitive.  A primitive with no material handle is a
/// pass-through (non-opaque) boundary for the transmittance walk.
#[derive(Clone, Copy, PartialEq, Eq, Structural, Debug)]
pub struct Primitive {
    pub center: Point3,
    pub radius: i64,
    pub material: Option<u32>,
}

impl Primitive {
    /// The material handle carried by this primitive, if any.
    pub fn get_material(&self) -> (r: Option<u32>)
        ensures
            r == self.material,
    {
        self.material
    }
}

pub open spec fn prim_wf(p: Primitive) -> bool {
    &&& pnt3_bounded(p.center)
    &&& 0 < p.radius <= MAX_COORD
}

/// Squared radius, in the same raw units as squared distances.
pub open spec fn prim_r2(p: Primitive) -> int {
    (p.radius as int) * (p.radius as int)
}

/// Coefficient `a` of the squared-distance quadratic along the segment
/// from `o` to `e`: the squared segment length.
pub open spec fn quad_a(o: Point3, e: Point3) -> int {
    pnt3_dist2(o, e)
}

/// Coefficient `b`: the dot product of the offset from the sphere center
/// to `o` with the segment direction.
pub open spec fn quad_b(o: Point3, e: Point3, c: Point3) -> int {
    (o.x - c.x) * (e.x - o.x) + (o.y - c.y) * (e.y - o.y) + (o.z - c.z) * (e.z - o.z)
}

/// Coefficient `c`: the squared distance from `o` to the sphere center.
pub open spec fn quad_c(o: Point3, c: Point3) -> int {
    (o.x - c.x) * (o.x - c.x) + (o.y - c.y) * (o.y - c.y) + (o.z - c.z) * (o.z - c.z)
}

/// The squared distance from the sphere center to the segment point with
/// parameter `n / dn`, cross-multiplied by `dn * dn`.
pub open spec fn quad_at(a: int, b: int, c: int, n: int, dn: int) -> int {
    a * n * n + 2 * b * n * dn + c * dn * dn
}

/// Some point of the closed segment from `o` to `e` (at rational parameter
/// `n / dn` in [0, 1]) lies strictly inside the sphere around `c` with
/// squared radius `r2`.
pub open spec fn seg_hits_sphere(o: Point3, e: Point3, c: Point3, r2: int) -> bool {
    exists|n: int, dn: int|
        0 < dn && 0 <= n <= dn && quad_at(quad_a(o, e), quad_b(o, e, c), quad_c(o, c), n, dn)
            < r2 * dn * dn
}

/// The segment crosses the sphere's boundary: leaving it when the segment
/// starts strictly inside, or entering it when the segment starts outside.
pub open spec fn seg_crosses_sphere(o: Point3, e: Point3, c: Point3, r2: int) -> bool {
    if quad_c(o, c) < r2 {
        quad_a(o, e) + 2 * quad_b(o, e, c) + quad_c(o, c) >= r2
    } else {
        seg_hits_sphere(o, e, c, r2)
    }
}

proof fn lemma_prod_bound(x: int, y: int, m: int)
    requires
        -m <= x <= m,
        -m <= y <= m,
        0 <= m,
    ensures
        -(m * m) <= x * y <= m * m,
{
    assert(-(m * m) <= x * y <= m * m) by (nonlinear_arith)
        requires
            -m <= x <= m,
            -m <= y <= m,
            0 <= m,
    ;
}

/// When `b >= 0` and the segment origin is at or beyond the radius, the
/// quadratic never dips under `r2` on [0, 1].
proof fn lemma_no_hit_start(a: int, b: int, c: int, r2: int, n: int, dn: int)
    requires
        a >= 0,
        b >= 0,
        c >= r2,
        0 <= n <= dn,
        0 < dn,
    ensures
        quad_at(a, b, c, n, dn) >= r2 * dn * dn,
{
    assert(a * n * n + 2 * b * n * dn + c * dn * dn >= r2 * dn * dn) by (nonlinear_arith)
        requires
            a >= 0,
            b >= 0,
            c >= r2,
            0 <= n <= dn,
            0 < dn,
    ;
}

#[verifier::rlimit(100)]
proof fn lemma_no_hit_end_nl(a: int, b: int, c: int, r2: int, n: int, dn: int)
    by (nonlinear_arith)
    requires
        a >= 0,
        b <= -a,
        a + 2 * b + c >= r2,
        0 <= n <= dn,
        0 < dn,
    ensures
        a * n * n + 2 * b * n * dn + c * dn * dn >= r2 * dn * dn,
{
}

/// When `b <= -a` and the far endpoint is at or beyond the radius, the
/// quadratic never dips under `r2` on [0, 1].
proof fn lemma_no_hit_end(a: int, b: int, c: int, r2: int, n: int, dn: int)
    requires
        a >= 0,
        b <= -a,
        a + 2 * b + c >= r2,
        0 <= n <= dn,
        0 < dn,
    ensures
        quad_at(a, b, c, n, dn) >= r2 * dn * dn,
{
    lemma_no_hit_end_nl(a, b, c, r2, n, dn);
}

#[verifier::rlimit(100)]
proof fn lemma_no_hit_mid_nl(a: int, b: int, c: int, r2: int, n: int, dn: int)
    by (nonlinear_arith)
    requires
        a > 0,
        a * c - b * b >= r2 * a,
        0 <= n <= dn,
        0 < dn,
    ensures
        a * n * n + 2 * b * n * dn + c * dn * dn >= r2 * dn * dn,
{
}

/// When the vertex value `c - b*b/a` is at or beyond the radius, the
/// quadratic never dips under `r2` anywhere on [0, 1].
proof fn lemma_no_hit_mid(a: int, b: int, c: int, r2: int, n: int, dn: int)
    requires
        a > 0,
        a * c - b * b >= r2 * a,
        0 <= n <= dn,
        0 < dn,
    ensures
        quad_at(a, b, c, n, dn) >= r2 * dn * dn,
{
    lemma_no_hit_mid_nl(a, b, c, r2, n, dn);
}

/// A zero segment length forces the linear coefficient to vanish.
proof fn lemma_zero_dir(o: Point3, e: Point3, c: Point3)
    requires
        quad_a(o, e) == 0,
    ensures
        quad_b(o, e, c) == 0,
{
    let dx = e.x - o.x;
    let dy = e.y - o.y;
    let dz = e.z - o.z;
    assert(dx * dx >= 0 && dy * dy >= 0 && dz * dz >= 0) by (nonlinear_arith);
    assert(dx * dx == 0 ==> dx == 0) by (nonlinear_arith);
    assert(dy * dy == 0 ==> dy == 0) by (nonlinear_arith);
    assert(dz * dz == 0 ==> dz == 0) by (nonlinear_arith);
    assert((o.x - c.x) * dx == 0 && (o.y - c.y) * dy == 0 && (o.z - c.z) * dz == 0)
        by (nonlinear_arith)
        requires
            dx == 0 && dy == 0 && dz == 0,
    ;
}

/// Exact decision: does the closed segment from `o` to `e` reach strictly
/// inside the sphere around `c` with radius `radius`?
pub fn seg_hits_sphere_exec(o: &Point3, e: &Point3, c: &Point3, radius: i64) -> (hit: bool)
    requires
        pnt3_bounded(*o),
        pnt3_bounded(*e),
        pnt3_bounded(*c),
        0 < radius <= MAX_COORD,
    ensures
        hit == seg_hits_sphere(*o, *e, *c, (radius as int) * (radius as int)),
{
    let dx: i128 = (e.x as i128) - (o.x as i128);
    let dy: i128 = (e.y as i128) - (o.y as i128);
    let dz: i128 = (e.z as i128) - (o.z as i128);
    let fx: i128 = (o.x as i128) - (c.x as i128);
    let fy: i128 = (o.y as i128) - (c.y as i128);
    let fz: i128 = (o.z as i128) - (c.z as i128);
    proof {
        lemma_prod_bound(dx as int, dx as int, 0x2000_0000);
        lemma_prod_bound(dy as int, dy as int, 0x2000_0000);
        lemma_prod_bound(dz as int, dz as int, 0x2000_0000);
        lemma_prod_bound(fx as int, fx as int, 0x2000_0000);
        lemma_prod_bound(fy as int, fy as int, 0x2000_0000);
        lemma_prod_bound(fz as int, fz as int, 0x2000_0000);
        lemma_prod_bound(fx as int, dx as int, 0x2000_0000);
        lemma_prod_bound(fy as int, dy as int, 0x2000_0000);
        lemma_prod_bound(fz as int, dz as int, 0x2000_0000);
        assert((dx as int) * (dx as int) >= 0) by (nonlinear_arith);
        assert((dy as int) * (dy as int) >= 0) by (nonlinear_arith);
        assert((dz as int) * (dz as int) >= 0) by (nonlinear_arith);
        assert((fx as int) * (fx as int) >= 0) by (nonlinear_arith);
        assert((fy as int) * (fy as int) >= 0) by (nonlinear_arith);
        assert((fz as int) * (fz as int) >= 0) by (nonlinear_arith);
        assert(0x2000_0000int * 0x2000_0000int == 0x400_0000_0000_0000int)
            by (nonlinear_arith);
    }
    let a: i128 = dx * dx + dy * dy + dz * dz;
    let b: i128 = fx * dx + fy * dy + fz * dz;
    let cq: i128 = fx * fx + fy * fy + fz * fz;
    proof {
        lemma_prod_bound(radius as int, radius as int, MAX_COORD as int);
        assert(MAX_COORD as int * (MAX_COORD as int) == 0x100_0000_0000_0000int)
            by (nonlinear_arith);
        assert(a as int == quad_a(*o, *e));
        assert(b as int == quad_b(*o, *e, *c));
        assert(cq as int == quad_c(*o, *c));
    }
    let r2: i128 = (radius as i128) * (radius as i128);
    let ghost spec_r2: int = (radius as int) * (radius as int);
    if b >= 0 {
        let hit: bool = cq < r2;
        proof {
            if hit {
                assert(quad_at(quad_a(*o, *e), quad_b(*o, *e, *c), quad_c(*o, *c), 0, 1)
                    == cq as int);
                assert(spec_r2 * 1 * 1 == spec_r2);
                assert(seg_hits_sphere(*o, *e, *c, spec_r2));
            } else {
                assert forall|n: int, dn: int| 0 < dn && 0 <= n <= dn implies quad_at(
                    quad_a(*o, *e),
                    quad_b(*o, *e, *c),
                    quad_c(*o, *c),
                    n,
                    dn,
                ) >= spec_r2 * dn * dn by {
                    lemma_no_hit_start(a as int, b as int, cq as int, spec_r2, n, dn);
                }
                assert(!seg_hits_sphere(*o, *e, *c, spec_r2));
            }
        }
        hit
    } else if b <= -a {
        let hit: bool = a + 2 * b + cq < r2;
        proof {
            if hit {
                assert(quad_at(quad_a(*o, *e), quad_b(*o, *e, *c), quad_c(*o, *c), 1, 1)
                    == a + 2 * b + cq);
                assert(spec_r2 * 1 * 1 == spec_r2);
                assert(seg_hits_sphere(*o, *e, *c, spec_r2));
            } else {
                assert forall|n: int, dn: int| 0 < dn && 0 <= n <= dn implies quad_at(
                    quad_a(*o, *e),
                    quad_b(*o, *e, *c),
                    quad_c(*o, *c),
                    n,
                    dn,
                ) >= spec_r2 * dn * dn by {
                    lemma_no_hit_end(a as int, b as int, cq as int, spec_r2, n, dn);
                }
                assert(!seg_hits_sphere(*o, *e, *c, spec_r2));
            }
        }
        hit
    } else {
        proof {
            if a == 0 {
                lemma_zero_dir(*o, *e, *c);
            }
            lemma_prod_bound(a as int, cq as int, 0xC00_0000_0000_0000);
            lemma_prod_bound(b as int, b as int, 0xC00_0000_0000_0000);
            lemma_prod_bound(r2 as int, a as int, 0xC00_0000_0000_0000);
            assert(0xC00_0000_0000_0000int * 0xC00_0000_0000_0000int
                == 0x90_0000_0000_0000_0000_0000_0000_0000int) by (nonlinear_arith);
        }
        let lhs: i128 = a * cq - b * b;
        let rhs: i128 = r2 * a;
        let hit: bool = lhs < rhs;
        proof {
            if hit {
                let bn: int = -(b as int);
                let an: int = a as int;
                assert(0 <= bn <= an);
                assert(an * bn * bn + 2 * (b as int) * bn * an + (cq as int) * an * an < spec_r2
                    * an * an) by (nonlinear_arith)
                    requires
                        an * (cq as int) - (b as int) * (b as int) < spec_r2 * an,
                        an > 0,
                        bn == -(b as int),
                ;
                assert(quad_at(quad_a(*o, *e), quad_b(*o, *e, *c), quad_c(*o, *c), bn, an)
                    == an * bn * bn + 2 * (b as int) * bn * an + (cq as int) * an * an);
                assert(seg_hits_sphere(*o, *e, *c, spec_r2));
            } else {
                assert forall|n: int, dn: int| 0 < dn && 0 <= n <= dn implies quad_at(
                    quad_a(*o, *e),
                    quad_b(*o, *e, *c),
                    quad_c(*o, *c),
                    n,
                    dn,
                ) >= spec_r2 * dn * dn by {
                    lemma_no_hit_mid(a as int, b as int, cq as int, spec_r2, n, dn);
                }
                assert(!seg_hits_sphere(*o, *e, *c, spec_r2));
            }
        }
        hit
    }
}

/// The scene: a finite list of spherical primitives.
#[derive(Clone, Debug)]
pub struct Scene {
    pub primitives: Vec<Primitive>,
}

impl Scene {
    pub open spec fn wf(&self) -> bool {
        forall|i: int| 0 <= i < self.primitives@.len() ==> prim_wf(#[trigger] self.primitives@[i])
    }

    /// Some primitive reaches strictly inside the segment from `o` to `e`.
    pub open spec fn blocked(&self, o: Point3, e: Point3) -> bool {
        exists|i: int|
            0 <= i < self.primitives@.len() && seg_hits_sphere(
                o,
                e,
                #[trigger] self.primitives@[i].center,
                prim_r2(self.primitives@[i]),
            )
    }

    /// Some primitive boundary is crossed by the segment from `o` to `e`.
    pub open spec fn crossed(&self, o: Point3, e: Point3) -> bool {
        exists|i: int|
            0 <= i < self.primitives@.len() && seg_crosses_sphere(
                o,
                e,
                #[trigger] self.primitives@[i].center,
                prim_r2(self.primitives@[i]),
            )
    }

    pub fn new(primitives: Vec<Primitive>) -> (r: Scene)
        ensures
            r.primitives == primitives,
    {
        Scene { primitives }
    }

    /// The existence-only occlusion query: true iff the segment of `ray`
    /// (from its origin to origin + direction) reaches strictly inside
    /// some primitive.
    pub fn intersect_p(&self, ray: &Ray) -> (hit: bool)
        requires
            self.wf(),
            ray_bounded(*ray),
        ensures
            hit == self.blocked(ray.o, ray_end(*ray)),
    {
        let e: Point3 = ray_end_exec(ray);
        let n: usize = self.primitives.len();
        let mut i: usize = 0;
        let mut found: bool = false;
        while i < n
            invariant
                0 <= i <= n,
                n == self.primitives@.len(),
                self.wf(),
                pnt3_bounded(ray.o),
                pnt3_bounded(e),
                e == ray_end(*ray),
                found == exists|j: int|
                    0 <= j < i && seg_hits_sphere(
                        ray.o,
                        e,
                        #[trigger] self.primitives@[j].center,
                        prim_r2(self.primitives@[j]),
                    ),
            decreases n - i,
        {
            let prim: Primitive = self.primitives[i];
            let h: bool = seg_hits_sphere_exec(&ray.o, &e, &prim.center, prim.radius);
            proof {
                if h {
                    assert(seg_hits_sphere(
                        ray.o,
                        e,
                        self.primitives@[i as int].center,
                        prim_r2(self.primitives@[i as int]),
                    ));
                }
            }
            found = found || h;
            i = i + 1;
        }
        found
    }
}

/// One boundary-crossing test with an approximate crossing parameter.
/// `Some(t)` means the segment crosses the sphere's boundary; `t` is a
/// fixed-point parameter in [0, ONE] placed just past the crossing (the
/// root is taken with a floor square root and rounded up one step), so a
/// walk that restarts from the returned point makes progress past the
/// boundary.
fn seg_cross_exec(o: &Point3, e: &Point3, c: &Point3, radius: i64) -> (res: Option<i64>)
    requires
        pnt3_bounded(*o),
        pnt3_bounded(*e),
        pnt3_bounded(*c),
        0 < radius <= MAX_COORD,
    ensures
        res is Some <==> seg_crosses_sphere(*o, *e, *c, (radius as int) * (radius as int)),
        res is Some ==> 0 <= res->0 <= ONE,
{
    let dx: i128 = (e.x as i128) - (o.x as i128);
    let dy: i128 = (e.y as i128) - (o.y as i128);
    let dz: i128 = (e.z as i128) - (o.z as i128);
    let fx: i128 = (o.x as i128) - (c.x as i128);
    let fy: i128 = (o.y as i128) - (c.y as i128);
    let fz: i128 = (o.z as i128) - (c.z as i128);
    proof {
        lemma_prod_bound(dx as int, dx as int, 0x2000_0000);
        lemma_prod_bound(dy as int, dy as int, 0x2000_0000);
        lemma_prod_bound(dz as int, dz as int, 0x2000_0000);
        lemma_prod_bound(fx as int, fx as int, 0x2000_0000);
        lemma_prod_bound(fy as int, fy as int, 0x2000_0000);
        lemma_prod_bound(fz as int, fz as int, 0x2000_0000);
        lemma_prod_bound(fx as int, dx as int, 0x2000_0000);
        lemma_prod_bound(fy as int, dy as int, 0x2000_0000);
        lemma_prod_bound(fz as int, dz as int, 0x2000_0000);
        assert((dx as int) * (dx as int) >= 0) by (nonlinear_arith);
        assert((dy as int) * (dy as int) >= 0) by (nonlinear_arith);
        assert((dz as int) * (dz as int) >= 0) by (nonlinear_arith);
        assert((fx as int) * (fx as int) >= 0) by (nonlinear_arith);
        assert((fy as int) * (fy as int) >= 0) by (nonlinear_arith);
        assert((fz as int) * (fz as int) >= 0) by (nonlinear_arith);
        assert(0x2000_0000int * 0x2000_0000int == 0x400_0000_0000_0000int)
            by (nonlinear_arith);
        lemma_prod_bound(radius as int, radius as int, MAX_COORD as int);
        assert(MAX_COORD as int * (MAX_COORD as int) == 0x100_0000_0000_0000int)
            by (nonlinear_arith);
    }
    let a: i128 = dx * dx + dy * dy + dz * dz;
    let b: i128 = fx * dx + fy * dy + fz * dz;
    let cq: i128 = fx * fx + fy * fy + fz * fz;
    let r2: i128 = (radius as i128) * (radius as i128);
    proof {
        assert(a as int == quad_a(*o, *e));
        assert(b as int == quad_b(*o, *e, *c));
        assert(cq as int == quad_c(*o, *c));
    }
    if cq < r2 {
        // The segment starts strictly inside: it crosses the boundary iff
        // its far endpoint is at or beyond the radius; the crossing is the
        // quadratic's larger (exit) root.
        if a + 2 * b + cq >= r2 {
            proof {
                if a == 0 {
                    lemma_zero_dir(*o, *e, *c);
                }
                lemma_prod_bound(a as int, r2 as int - cq as int, 0x1000_0000_0000_0000);
                lemma_prod_bound(b as int, b as int, 0x1000_0000_0000_0000);
                assert(0x1000_0000_0000_0000int * 0x1000_0000_0000_0000int
                    == 0x100_0000_0000_0000_0000_0000_0000_0000int) by (nonlinear_arith);
            }
            let disc: i128 = b * b + a * (r2 - cq);
            let discu: u128 = if disc > 0 {
                disc as u128
            } else {
                0
            };
            let s: u64 = isqrt(discu);
            let tnum0: i128 = (s as i128) - b;
            let tnum: i128 = if tnum0 > 0 {
                tnum0
            } else {
                0
            };
            proof {
                lemma_div_magnitude(tnum as int * 65536, a as int);
            }
            let traw: i128 = div_floor_i128(tnum * 65536, a) + 1;
            let t: i64 = if traw >= 65536 {
                65536
            } else {
                traw as i64
            };
            Some(t)
        } else {
            None
        }
    } else {
        // The segment starts outside: it crosses iff some interior point
        // dips under the radius; the crossing is the smaller (entry) root.
        let hit: bool = seg_hits_sphere_exec(o, e, c, radius);
        if hit {
            proof {
                if a == 0 {
                    lemma_zero_dir(*o, *e, *c);
                    assert forall|n: int, dn: int| 0 < dn && 0 <= n <= dn implies quad_at(
                        quad_a(*o, *e),
                        quad_b(*o, *e, *c),
                        quad_c(*o, *c),
                        n,
                        dn,
                    ) >= ((radius as int) * (radius as int)) * dn * dn by {
                        lemma_no_hit_start(0, 0, cq as int, (radius as int) * (radius as int), n,
                            dn);
                    }
                    assert(!seg_hits_sphere(*o, *e, *c, (radius as int) * (radius as int)));
                }
                lemma_prod_bound(a as int, cq as int - r2 as int, 0x1000_0000_0000_0000);
                lemma_prod_bound(b as int, b as int, 0x1000_0000_0000_0000);
                assert(0x1000_0000_0000_0000int * 0x1000_0000_0000_0000int
                    == 0x100_0000_0000_0000_0000_0000_0000_0000int) by (nonlinear_arith);
            }
            let disc: i128 = b * b - a * (cq - r2);
            let discu: u128 = if disc > 0 {
                disc as u128
            } else {
                0
            };
            let s: u64 = isqrt(discu);
            let tnum0: i128 = -b - (s as i128);
            let tnum: i128 = if tnum0 > 0 {
                tnum0
            } else {
                0
            };
            proof {
                lemma_div_magnitude(tnum as int * 65536, a as int);
            }
            let traw: i128 = div_floor_i128(tnum * 65536, a) + 1;
            let t: i64 = if traw >= 65536 {
                65536
            } else {
                traw as i64
            };
            Some(t)
        } else {
            None
        }
    }
}

/// A resolved intersection of the transmittance walk: the primitive met,
/// the approximate crossing parameter, and the walk's restart point.
#[derive(Clone, Copy, PartialEq, Eq, Structural, Debug)]
pub struct SceneHit {
    pub prim_index: usize,
    pub t_hit: i64,
    pub p: Point3,
}

impl Scene {
    /// Finds a primitive whose boundary the segment of `ray` crosses and
    /// the point just past the nearest computed crossing; `None` exactly
    /// when no primitive boundary is crossed.
    pub fn intersect(&self, ray: &Ray) -> (res: Option<SceneHit>)
        requires
            self.wf(),
            ray_bounded(*ray),
        ensures
            res is None <==> !self.crossed(ray.o, ray_end(*ray)),
            match res {
                Option::None => true,
                Option::Some(h) => {
                    &&& (h.prim_index as int) < self.primitives@.len()
                    &&& seg_crosses_sphere(
                        ray.o,
                        ray_end(*ray),
                        self.primitives@[h.prim_index as int].center,
                        prim_r2(self.primitives@[h.prim_index as int]),
                    )
                    &&& 0 <= h.t_hit <= ONE
                    &&& h.p == pnt3_lerp_spec(h.t_hit as int, ray.o, ray_end(*ray))
                    &&& pnt3_in_hull(h.p, ray.o, ray_end(*ray))
                    &&& pnt3_bounded(h.p)
                },
            },
    {
        let e: Point3 = ray_end_exec(ray);
        let n: usize = self.primitives.len();
        let mut i: usize = 0;
        let mut best_index: usize = 0;
        let mut best_t: i64 = 0;
        let mut have: bool = false;
        while i < n
            invariant
                0 <= i <= n,
                n == self.primitives@.len(),
                self.wf(),
                pnt3_bounded(ray.o),
                pnt3_bounded(e),
                e == ray_end(*ray),
                !have ==> forall|j: int|
                    0 <= j < i ==> !seg_crosses_sphere(
                        ray.o,
                        e,
                        #[trigger] self.primitives@[j].center,
                        prim_r2(self.primitives@[j]),
                    ),
                have ==> {
                    &&& (best_index as int) < i
                    &&& seg_crosses_sphere(
                        ray.o,
                        e,
                        self.primitives@[best_index as int].center,
                        prim_r2(self.primitives@[best_index as int]),
                    )
                    &&& 0 <= best_t <= ONE
                },
            decreases n - i,
        {
            let prim: Primitive = self.primitives[i];
            match seg_cross_exec(&ray.o, &e, &prim.center, prim.radius) {
                Option::Some(t) => {
                    if !have || t < best_t {
                        best_index = i;
                        best_t = t;
                        have = true;
                    } else {
                        proof {
                            assert(seg_crosses_sphere(
                                ray.o,
                                e,
                                self.primitives@[i as int].center,
                                prim_r2(self.primitives@[i as int]),
                            ));
                        }
                    }
                },
                Option::None => {},
            }
            i = i + 1;
        }
        if have {
            let p: Point3 = pnt3_lerp(best_t, &ray.o, &e);
            Some(SceneHit { prim_index: best_index, t_hit: best_t, p })
        } else {
            None
        }
    }
}


/// The segment endpoint of a ray: origin plus direction.
pub open spec fn ray_end(r: Ray) -> Point3 {
    Point3 {
        x: (r.o.x + r.d.x) as i64,
        y: (r.o.y + r.d.y) as i64,
        z: (r.o.z + r.d.z) as i64,
    }
}

/// Both the origin and the segment endpoint stay inside the coordinate
/// range the exact tests accept.
pub open spec fn ray_bounded(r: Ray) -> bool {
    &&& pnt3_bounded(r.o)
    &&& -MAX_COORD <= r.o.x + r.d.x <= MAX_COORD
    &&& -MAX_COORD <= r.o.y + r.d.y <= MAX_COORD
    &&& -MAX_COORD <= r.o.z + r.d.z <= MAX_COORD
}

pub fn ray_end_exec(ray: &Ray) -> (r: Point3)
    requires
        ray_bounded(*ray),
    ensures
        r == ray_end(*ray),
        pnt3_bounded(r),
{
    Point3 { x: ray.o.x + ray.d.x, y: ray.o.y + ray.d.y, z: ray.o.z + ray.d.z }
}

} // verus!
