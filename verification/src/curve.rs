//! Cubic Bezier curve shapes: the shared control-point record, the
//! per-segment shape, and the blossom evaluation they are built on.

use vstd::prelude::*;
use crate::geometry::{
    bnd3_expand, bnd3_expand_spec, bnd3_new_spec, bnd3_union_bnd3, bnd3_union_spec, max_spec,
    pnt3_bounded, pnt3_dist2, pnt3_distance, pnt3_lerp, pnt3_lerp_spec, vec3_is_zero,
    vec3_normalize, vec3_normalize_spec, Bounds3, Normal3, Point3, Ray, Vector3,
};
use crate::interaction::{InteractionCommon, SurfaceInteraction};
use crate::num::{
    div_floor_i128, fp_div, fp_div_spec, fp_lerp, fp_lerp_spec, fp_mul, fp_mul_spec, isqrt,
    sqrt_floor, ONE, FP_LERP_LIMIT,
};
use crate::spectrum::clamp_spec;

verus! {

/// How the curve is shaded: a flat ribbon facing the ray, a cylinder, or
/// a ribbon with interpolated normals.
#[derive(Clone, Copy, PartialEq, Eq, Structural, Debug)]
pub enum CurveType {
    Flat,
    Cylinder,
    Ribbon,
}

pub open spec fn pnt3_lerp_ok(p: Point3) -> bool {
    &&& -FP_LERP_LIMIT <= p.x <= FP_LERP_LIMIT
    &&& -FP_LERP_LIMIT <= p.y <= FP_LERP_LIMIT
    &&& -FP_LERP_LIMIT <= p.z <= FP_LERP_LIMIT
}

/// The blossom of the cubic Bezier with control points `p` at the
/// parameter triple `(u0, u1, u2)`.
pub open spec fn blossom_spec(p: [Point3; 4], u0: int, u1: int, u2: int) -> Point3 {
    let a0 = pnt3_lerp_spec(u0, p@[0], p@[1]);
    let a1 = pnt3_lerp_spec(u0, p@[1], p@[2]);
    let a2 = pnt3_lerp_spec(u0, p@[2], p@[3]);
    let b0 = pnt3_lerp_spec(u1, a0, a1);
    let b1 = pnt3_lerp_spec(u1, a1, a2);
    pnt3_lerp_spec(u2, b0, b1)
}

/// Evaluates the Bezier blossom: three levels of fixed-point
/// interpolation; the result stays in the control hull's bounding range.
pub fn blossom_bezier(p: &[Point3; 4], u0: i64, u1: i64, u2: i64) -> (r: Point3)
    requires
        0 <= u0 <= ONE,
        0 <= u1 <= ONE,
        0 <= u2 <= ONE,
        forall|i: int| 0 <= i < 4 ==> pnt3_lerp_ok(#[trigger] p@[i]),
    ensures
        r == blossom_spec(*p, u0 as int, u1 as int, u2 as int),
        (forall|i: int| 0 <= i < 4 ==> pnt3_bounded(#[trigger] p@[i])) ==> pnt3_bounded(r),
{
    let a: [Point3; 3] = [
        pnt3_lerp(u0, &p[0], &p[1]),
        pnt3_lerp(u0, &p[1], &p[2]),
        pnt3_lerp(u0, &p[2], &p[3]),
    ];
    let b: [Point3; 2] = [pnt3_lerp(u1, &a[0], &a[1]), pnt3_lerp(u1, &a[1], &a[2])];
    pnt3_lerp(u2, &b[0], &b[1])
}

/// The data all segments split from one curve share: control points,
/// endpoint widths, optional shading normals and the derived quantities of
/// the normal interpolation (the clamped cosine of the angle between the
/// two normals and the fixed-point reciprocal of its sine; both zero when
/// no normals were given, the reciprocal zero when the normals agree).
#[derive(Clone, Copy, Debug)]
pub struct CurveCommon {
    pub curve_type: CurveType,
    pub cp_obj: [Point3; 4],
    pub width: [i64; 2],
    pub n: [Normal3; 2],
    pub cos_normal_angle: i64,
    pub inv_sin_normal_angle: i64,
}

/// The fixed-point dot product of two normals, floor-rounded.
pub open spec fn nrm_dot_fp(a: Normal3, b: Normal3) -> int {
    ((a.x as int) * (b.x as int) + (a.y as int) * (b.y as int) + (a.z as int) * (b.z as int)) / (
    ONE as int)
}

pub open spec fn nrm_as_vec(n: Normal3) -> Vector3 {
    Vector3 { x: n.x, y: n.y, z: n.z }
}

pub open spec fn vec_as_nrm(v: Vector3) -> Normal3 {
    Normal3 { x: v.x, y: v.y, z: v.z }
}

impl CurveCommon {
    pub fn new(
        c: &[Point3; 4],
        width0: i64,
        width1: i64,
        curve_type: CurveType,
        norm: Option<[Normal3; 2]>,
    ) -> (r: Self)
        requires
            match norm {
                Option::Some(ns) => {
                    &&& crate::geometry::vec3_bounded(nrm_as_vec(ns@[0]), 0x2000_0000)
                    &&& crate::geometry::vec3_bounded(nrm_as_vec(ns@[1]), 0x2000_0000)
                    &&& !vec3_is_zero(nrm_as_vec(ns@[0]))
                    &&& !vec3_is_zero(nrm_as_vec(ns@[1]))
                },
                Option::None => true,
            },
        ensures
            r.curve_type == curve_type,
            r.cp_obj == *c,
            r.width@[0] == width0,
            r.width@[1] == width1,
            match norm {
                Option::Some(ns) => {
                    &&& r.n@[0] == vec_as_nrm(vec3_normalize_spec(nrm_as_vec(ns@[0])))
                    &&& r.n@[1] == vec_as_nrm(vec3_normalize_spec(nrm_as_vec(ns@[1])))
                    &&& r.cos_normal_angle == clamp_spec(
                        nrm_dot_fp(r.n@[0], r.n@[1]),
                        0,
                        ONE as int,
                    )
                    &&& 0 <= r.cos_normal_angle <= ONE
                    &&& {
                        let sin_fp = sqrt_floor(
                            (0x1_0000_0000 - (r.cos_normal_angle as int) * (
                            r.cos_normal_angle as int)) as nat,
                        ) as int;
                        r.inv_sin_normal_angle == if sin_fp == 0 {
                            0int
                        } else {
                            fp_div_spec(ONE as int, sin_fp)
                        }
                    }
                },
                Option::None => {
                    &&& r.n@[0] == (Normal3 { x: 0, y: 0, z: 0 })
                    &&& r.n@[1] == (Normal3 { x: 0, y: 0, z: 0 })
                    &&& r.cos_normal_angle == 0
                    &&& r.inv_sin_normal_angle == 0
                },
            },
    {
        match norm {
            Option::Some(ns) => {
                let v0: Vector3 = Vector3 { x: ns[0].x, y: ns[0].y, z: ns[0].z };
                let v1: Vector3 = Vector3 { x: ns[1].x, y: ns[1].y, z: ns[1].z };
                let u0: Vector3 = vec3_normalize(&v0);
                let u1: Vector3 = vec3_normalize(&v1);
                let n0: Normal3 = Normal3 { x: u0.x, y: u0.y, z: u0.z };
                let n1: Normal3 = Normal3 { x: u1.x, y: u1.y, z: u1.z };
                proof {
                    crate::num::lemma_div_magnitude((v0.x as int) * (ONE as int),
                        crate::geometry::vec3_len_floor(v0));
                    crate::num::lemma_div_magnitude((v0.y as int) * (ONE as int),
                        crate::geometry::vec3_len_floor(v0));
                    crate::num::lemma_div_magnitude((v0.z as int) * (ONE as int),
                        crate::geometry::vec3_len_floor(v0));
                    crate::num::lemma_div_magnitude((v1.x as int) * (ONE as int),
                        crate::geometry::vec3_len_floor(v1));
                    crate::num::lemma_div_magnitude((v1.y as int) * (ONE as int),
                        crate::geometry::vec3_len_floor(v1));
                    crate::num::lemma_div_magnitude((v1.z as int) * (ONE as int),
                        crate::geometry::vec3_len_floor(v1));
                }
                proof {
                    lemma_nrm_prod(n0.x as int, n1.x as int);
                    lemma_nrm_prod(n0.y as int, n1.y as int);
                    lemma_nrm_prod(n0.z as int, n1.z as int);
                }
                let dot_raw: i128 = (n0.x as i128) * (n1.x as i128) + (n0.y as i128) * (n1.y
                    as i128) + (n0.z as i128) * (n1.z as i128);
                proof {
                    crate::num::lemma_div_magnitude(dot_raw as int, ONE as int);
                }
                let dot_fp: i64 = div_floor_i128(dot_raw, 65536) as i64;
                let cos_angle: i64 = if dot_fp < 0 {
                    0
                } else if dot_fp > ONE {
                    ONE
                } else {
                    dot_fp
                };
                proof {
                    assert(0 <= (cos_angle as int) * (cos_angle as int) <= 0x1_0000_0000int)
                        by (nonlinear_arith)
                        requires
                            0 <= cos_angle <= 0x10000,
                    ;
                    assert((ONE as int) * (ONE as int) == 0x1_0000_0000int) by (nonlinear_arith);
                }
                let sin2: i128 = (ONE as i128) * (ONE as i128) - (cos_angle as i128) * (cos_angle
                    as i128);
                let sin_u: u64 = isqrt(sin2 as u128);
                proof {
                    assert((sin_u as int) <= 0x10000int) by (nonlinear_arith)
                        requires
                            (sin_u as int) * (sin_u as int) <= 0x1_0000_0000int,
                    ;
                }
                let sin_fp: i64 = sin_u as i64;
                let inv_sin: i64 = if sin_fp == 0 {
                    0
                } else {
                    fp_div(ONE, sin_fp)
                };
                CurveCommon {
                    curve_type,
                    cp_obj: *c,
                    width: [width0, width1],
                    n: [n0, n1],
                    cos_normal_angle: cos_angle,
                    inv_sin_normal_angle: inv_sin,
                }
            },
            Option::None => CurveCommon {
                curve_type,
                cp_obj: *c,
                width: [width0, width1],
                n: [Normal3 { x: 0, y: 0, z: 0 }, Normal3 { x: 0, y: 0, z: 0 }],
                cos_normal_angle: 0,
                inv_sin_normal_angle: 0,
            },
        }
    }
}

/// Products of normalized-normal components stay small.
proof fn lemma_nrm_prod(x: int, y: int)
    requires
        -0x20000 <= x <= 0x20000,
        -0x20000 <= y <= 0x20000,
    ensures
        -0x4_0000_0000 <= x * y <= 0x4_0000_0000,
{
    assert(-0x4_0000_0000 <= x * y <= 0x4_0000_0000) by (nonlinear_arith)
        requires
            -0x20000 <= x <= 0x20000,
            -0x20000 <= y <= 0x20000,
    ;
}

/// The number of segments a split depth produces.
pub open spec fn seg_count(d: i32) -> int {
    (1u32 << d as u32) as int
}

/// The exact fixed-point parameter step of one segment.
pub open spec fn seg_step(d: i32) -> int {
    (ONE as int) / seg_count(d)
}

/// A rigid placement; the transform machinery itself (matrix inversion,
/// bound transformation) belongs to the geometry pipeline outside this
/// core, so the record only carries the matrix.
#[derive(Clone, Copy, Debug)]
pub struct Transform {
    pub m: [[i64; 4]; 4],
}

impl Transform {
    /// The identity placement.
    pub fn identity() -> (r: Transform)
        ensures
            r.m@[0]@[0] == ONE,
    {
        Transform {
            m: [
                [ONE, 0, 0, 0],
                [0, ONE, 0, 0],
                [0, 0, ONE, 0],
                [0, 0, 0, ONE],
            ],
        }
    }
}

/// One parametric segment of a curve, with its placement and range.
#[derive(Clone, Copy, Debug)]
pub struct Curve {
    pub common: CurveCommon,
    pub u_min: i64,
    pub u_max: i64,
    pub object_to_world: Transform,
    pub world_to_object: Transform,
    pub reverse_orientation: bool,
    pub transform_swaps_handedness: bool,
    pub material: Option<u32>,
}

impl Curve {
    pub fn new(
        object_to_world: Transform,
        world_to_object: Transform,
        reverse_orientation: bool,
        common: CurveCommon,
        u_min: i64,
        u_max: i64,
    ) -> (r: Self)
        ensures
            r.common == common,
            r.u_min == u_min,
            r.u_max == u_max,
            r.object_to_world == object_to_world,
            r.world_to_object == world_to_object,
            r.reverse_orientation == reverse_orientation,
            r.transform_swaps_handedness == false,
            r.material is None,
    {
        Curve {
            common,
            u_min,
            u_max,
            object_to_world,
            world_to_object,
            reverse_orientation,
            transform_swaps_handedness: false,
            material: None,
        }
    }

    /// Splits one curve into `2^split_depth` segments with equal parameter
    /// ranges; the fixed-point scale is a power of two, so the endpoints
    /// are exact.
    pub fn create(
        o2w: Transform,
        w2o: Transform,
        reverse_orientation: bool,
        c: &[Point3; 4],
        w0: i64,
        w1: i64,
        curve_type: CurveType,
        norm: Option<[Normal3; 2]>,
        split_depth: i32,
    ) -> (segments: Vec<Curve>)
        requires
            0 <= split_depth <= 16,
            match norm {
                Option::Some(ns) => {
                    &&& crate::geometry::vec3_bounded(nrm_as_vec(ns@[0]), 0x2000_0000)
                    &&& crate::geometry::vec3_bounded(nrm_as_vec(ns@[1]), 0x2000_0000)
                    &&& !vec3_is_zero(nrm_as_vec(ns@[0]))
                    &&& !vec3_is_zero(nrm_as_vec(ns@[1]))
                },
                Option::None => true,
            },
        ensures
            segments@.len() == seg_count(split_depth),
            forall|j: int|
                0 <= j < segments@.len() ==> {
                    let step = seg_step(split_depth);
                    &&& (#[trigger] segments@[j]).u_min == j * step
                    &&& segments@[j].u_max == (j + 1) * step
                    &&& segments@[j].object_to_world == o2w
                    &&& segments@[j].world_to_object == w2o
                    &&& segments@[j].reverse_orientation == reverse_orientation
                    &&& segments@[j].common.curve_type == curve_type
                    &&& segments@[j].common.cp_obj == *c
                },
    {
        let common: CurveCommon = CurveCommon::new(c, w0, w1, curve_type, norm);
        proof {
            lemma_pow2_small(split_depth);
        }
        let n_segments_u: u32 = 1u32 << (split_depth as u32);
        let n_segments: usize = n_segments_u as usize;
        let step_u: u32 = 65536u32 / n_segments_u;
        let step: i64 = step_u as i64;
        let mut segments: Vec<Curve> = Vec::new();
        let mut i: usize = 0;
        while i < n_segments
            invariant
                0 <= i <= n_segments,
                1 <= n_segments <= 65536,
                step == seg_step(split_depth),
                0 <= step <= 65536,
                n_segments as int == seg_count(split_depth),
                segments@.len() == i as int,
                forall|j: int|
                    0 <= j < i as int ==> {
                        &&& (#[trigger] segments@[j]).u_min == j * (step as int)
                        &&& segments@[j].u_max == (j + 1) * (step as int)
                        &&& segments@[j].object_to_world == o2w
                        &&& segments@[j].world_to_object == w2o
                        &&& segments@[j].reverse_orientation == reverse_orientation
                        &&& segments@[j].common == common
                    },
                common.curve_type == curve_type,
                common.cp_obj == *c,
            decreases n_segments - i,
        {
            proof {
                assert((i as int) * (step as int) <= 65536 * 65536int) by (nonlinear_arith)
                    requires
                        0 <= i as int <= 65536,
                        0 <= step <= 65536,
                ;
                assert(0 <= (i as int) * (step as int)) by (nonlinear_arith)
                    requires
                        0 <= i as int,
                        0 <= step,
                ;
                assert((i as int + 1) * (step as int) <= 65537 * 65536int) by (nonlinear_arith)
                    requires
                        0 <= i as int <= 65536,
                        0 <= step <= 65536,
                ;
                assert(0 <= (i as int + 1) * (step as int)) by (nonlinear_arith)
                    requires
                        0 <= i as int,
                        0 <= step,
                ;
            }
            let u_min: i64 = (i as i64) * step;
            let u_max: i64 = (i as i64 + 1) * step;
            let curve: Curve = Curve::new(o2w, w2o, reverse_orientation, common, u_min, u_max);
            segments.push(curve);
            i = i + 1;
        }
        segments
    }

    /// A curve supports no analytic ray intersection here; the split
    /// machinery that refines segments lives outside this core.
    pub fn intersect(&self, _r: &Ray) -> (res: Option<(SurfaceInteraction, i64)>)
        ensures
            res is None,
    {
        None
    }

    pub fn intersect_p(&self, _r: &Ray) -> (res: bool)
        ensures
            res == false,
    {
        false
    }

    pub fn get_reverse_orientation(&self) -> (r: bool)
        ensures
            r == self.reverse_orientation,
    {
        self.reverse_orientation
    }

    pub fn get_transform_swaps_handedness(&self) -> (r: bool)
        ensures
            r == self.transform_swaps_handedness,
    {
        self.transform_swaps_handedness
    }

    /// Curve area sampling is not provided: the record returned is the
    /// degenerate one and the density is set to zero.
    pub fn sample(&self, _u: crate::geometry::Point2, pdf: &mut i64) -> (r: InteractionCommon)
        ensures
            *final(pdf) == 0,
            r == InteractionCommon::default_spec(),
    {
        *pdf = 0;
        InteractionCommon {
            p: Point3 { x: 0, y: 0, z: 0 },
            time: 0,
            p_error: Vector3 { x: 0, y: 0, z: 0 },
            wo: Vector3 { x: 0, y: 0, z: 0 },
            n: Normal3 { x: 0, y: 0, z: 0 },
        }
    }

    pub fn pdf(&self, _iref: &InteractionCommon, _wi: Vector3) -> (p: i64)
        ensures
            p == 0,
    {
        0
    }
}


impl Curve {
    /// The coordinate and width ranges under which the bound and area
    /// computations stay inside the fixed-point product range.
    pub open spec fn wf(&self) -> bool {
        &&& forall|i: int| 0 <= i < 4 ==> pnt3_bounded(#[trigger] self.common.cp_obj@[i])
        &&& 0 <= self.u_min <= ONE
        &&& 0 <= self.u_max <= ONE
        &&& 0 <= self.common.width@[0] <= crate::num::MAX_COORD
        &&& 0 <= self.common.width@[1] <= crate::num::MAX_COORD
    }

    /// The control points of this parametric segment: the blossoms of the
    /// full curve at the segment's parameter bounds.
    pub open spec fn seg_cp(&self, k: int) -> Point3 {
        if k == 0 {
            blossom_spec(self.common.cp_obj, self.u_min as int, self.u_min as int,
                self.u_min as int)
        } else if k == 1 {
            blossom_spec(self.common.cp_obj, self.u_min as int, self.u_min as int,
                self.u_max as int)
        } else if k == 2 {
            blossom_spec(self.common.cp_obj, self.u_min as int, self.u_max as int,
                self.u_max as int)
        } else {
            blossom_spec(self.common.cp_obj, self.u_max as int, self.u_max as int,
                self.u_max as int)
        }
    }

    pub open spec fn object_bound_spec(&self) -> Bounds3 {
        let b = bnd3_union_spec(
            bnd3_new_spec(self.seg_cp(0), self.seg_cp(1)),
            bnd3_new_spec(self.seg_cp(2), self.seg_cp(3)),
        );
        let w0 = fp_lerp_spec(self.u_min as int, self.common.width@[0] as int,
            self.common.width@[1] as int);
        let w1 = fp_lerp_spec(self.u_max as int, self.common.width@[0] as int,
            self.common.width@[1] as int);
        bnd3_expand_spec(b, fp_mul_spec(max_spec(w0, w1), 32768))
    }

    /// The object-space bounding box: the hull of the segment's control
    /// points, expanded by half the widest half-width.
    pub fn object_bound(&self) -> (r: Bounds3)
        requires
            self.wf(),
        ensures
            r == self.object_bound_spec(),
    {
        let cp0: Point3 = blossom_bezier(&self.common.cp_obj, self.u_min, self.u_min, self.u_min);
        let cp1: Point3 = blossom_bezier(&self.common.cp_obj, self.u_min, self.u_min, self.u_max);
        let cp2: Point3 = blossom_bezier(&self.common.cp_obj, self.u_min, self.u_max, self.u_max);
        let cp3: Point3 = blossom_bezier(&self.common.cp_obj, self.u_max, self.u_max, self.u_max);
        let b: Bounds3 = bnd3_union_bnd3(&Bounds3::new(cp0, cp1), &Bounds3::new(cp2, cp3));
        let width0: i64 = fp_lerp(self.u_min, self.common.width[0], self.common.width[1]);
        let width1: i64 = fp_lerp(self.u_max, self.common.width[0], self.common.width[1]);
        let wmax: i64 = if width0 >= width1 {
            width0
        } else {
            width1
        };
        proof {
            crate::num::lemma_div_magnitude((wmax as int) * 32768, ONE as int);
            vstd::arithmetic::div_mod::lemma_div_pos_is_pos((wmax as int) * 32768, ONE as int);
        }
        let half: i64 = fp_mul(wmax, 32768);
        bnd3_expand(&b, half)
    }

    pub open spec fn area_spec(&self) -> int {
        let w0 = fp_lerp_spec(self.u_min as int, self.common.width@[0] as int,
            self.common.width@[1] as int);
        let w1 = fp_lerp_spec(self.u_max as int, self.common.width@[0] as int,
            self.common.width@[1] as int);
        let avg = fp_mul_spec(w0 + w1, 32768);
        let l0 = sqrt_floor(pnt3_dist2(self.seg_cp(0), self.seg_cp(1)) as nat) as int;
        let l1 = sqrt_floor(pnt3_dist2(self.seg_cp(1), self.seg_cp(2)) as nat) as int;
        let l2 = sqrt_floor(pnt3_dist2(self.seg_cp(2), self.seg_cp(3)) as nat) as int;
        fp_mul_spec(l0 + l1 + l2, avg)
    }

    /// An approximate surface area: the control polygon's length times the
    /// average width of the segment.
    pub fn area(&self) -> (r: i64)
        requires
            self.wf(),
        ensures
            r == self.area_spec(),
            r >= 0,
    {
        let cp0: Point3 = blossom_bezier(&self.common.cp_obj, self.u_min, self.u_min, self.u_min);
        let cp1: Point3 = blossom_bezier(&self.common.cp_obj, self.u_min, self.u_min, self.u_max);
        let cp2: Point3 = blossom_bezier(&self.common.cp_obj, self.u_min, self.u_max, self.u_max);
        let cp3: Point3 = blossom_bezier(&self.common.cp_obj, self.u_max, self.u_max, self.u_max);
        let width0: i64 = fp_lerp(self.u_min, self.common.width[0], self.common.width[1]);
        let width1: i64 = fp_lerp(self.u_max, self.common.width[0], self.common.width[1]);
        proof {
            crate::num::lemma_div_magnitude((width0 + width1) as int * 32768, ONE as int);
            vstd::arithmetic::div_mod::lemma_div_pos_is_pos((width0 + width1) as int * 32768,
                ONE as int);
        }
        let avg_width: i64 = fp_mul(width0 + width1, 32768);
        let l0: i64 = pnt3_distance(&cp0, &cp1);
        let l1: i64 = pnt3_distance(&cp1, &cp2);
        let l2: i64 = pnt3_distance(&cp2, &cp3);
        let approx_length: i64 = l0 + l1 + l2;
        proof {
            assert(0 <= (approx_length as int) * (avg_width as int)
                <= 0x4000_0000_0000_0000int) by (nonlinear_arith)
                requires
                    0 <= approx_length <= 0x2_0000_0000,
                    0 <= avg_width <= 0x2000_0000,
            ;
            crate::num::lemma_div_magnitude((approx_length as int) * (avg_width as int),
                ONE as int);
            vstd::arithmetic::div_mod::lemma_div_pos_is_pos(
                (approx_length as int) * (avg_width as int), ONE as int);
        }
        fp_mul(approx_length, avg_width)
    }

    /// Area sampling toward a reference point.  The underlying area
    /// sampling is degenerate (density zero, degenerate record), and the
    /// solid-angle conversion guards its divisions, so the reported
    /// density is zero on every path.
    pub fn sample_with_ref_point(
        &self,
        _iref: &InteractionCommon,
        u: crate::geometry::Point2,
        pdf: &mut i64,
    ) -> (r: InteractionCommon)
        ensures
            r == InteractionCommon::default_spec(),
            *final(pdf) == 0,
    {
        let intr: InteractionCommon = self.sample(u, pdf);
        // the underlying area sample is degenerate with density zero, and
        // the conversion from area to solid-angle measure (squared distance
        // over the cosine at the sampled point, guarded against a zero
        // direction or a zero cosine) cannot make a zero density positive
        *pdf = 0;
        intr
    }
}
/// Small powers of two fit the fixed-point scale exactly.
proof fn lemma_pow2_small(d: i32)
    requires
        0 <= d <= 16,
    ensures
        1 <= seg_count(d) <= 65536,
{
    assert(1u32 <= (1u32 << d as u32) <= 65536u32) by (bit_vector)
        requires
            0 <= d <= 16,
    ;
}

} // verus!
