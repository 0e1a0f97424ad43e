//! Light sources: per-variant sampling capabilities with matched
//! probability densities, the delta-light flag test, and the deferred
//! visibility/transmittance query resolved by the integrator.

use vstd::prelude::*;
use crate::geometry::{
    pnt3_bounded, pnt3_dist2, vec3_is_zero, vec3_normalize, vec3_normalize_spec, Normal3, Point2,
    Point3, Ray, Vector3,
};
use crate::interaction::InteractionCommon;
use crate::num::{div_floor_i128, fp_div_spec, fp_mul_spec, lemma_div_magnitude, ONE};
use crate::scene::{prim_r2, seg_crosses_sphere, Scene};
use crate::sampler::Sampler;
use crate::spectrum::{spectrum_bounded, spectrum_nonneg, spectrum_unit, spectrum_zero, Spectrum};

verus! {

/// The positional delta bit: the light is a single point.
pub const DELTA_POSITION: u8 = 1;

/// The directional delta bit: the light is a single direction.
pub const DELTA_DIRECTION: u8 = 2;

/// The area bit: the light is an emissive surface.
pub const AREA: u8 = 4;

/// The infinite bit: the light surrounds the whole scene.
pub const INFINITE: u8 = 8;

/// The classification bits a light carries, fixed for its lifetime.
#[derive(Clone, Copy, PartialEq, Eq, Structural, Debug)]
pub enum LightFlags {
    DeltaPosition,
    DeltaDirection,
    Area,
    Infinite,
}

pub open spec fn flag_bit(f: LightFlags) -> u8 {
    match f {
        LightFlags::DeltaPosition => DELTA_POSITION,
        LightFlags::DeltaDirection => DELTA_DIRECTION,
        LightFlags::Area => AREA,
        LightFlags::Infinite => INFINITE,
    }
}

impl LightFlags {
    /// The bit this flag occupies in a light's flag byte.
    pub fn bit(&self) -> (r: u8)
        ensures
            r == flag_bit(*self),
    {
        match self {
            LightFlags::DeltaPosition => DELTA_POSITION,
            LightFlags::DeltaDirection => DELTA_DIRECTION,
            LightFlags::Area => AREA,
            LightFlags::Infinite => INFINITE,
        }
    }
}

/// A light is a delta light exactly when its position or its direction is
/// a Dirac delta: it occupies zero measure and can never be reached by
/// finite-area sampling.
pub open spec fn is_delta(flags: u8) -> bool {
    flags & DELTA_POSITION != 0 || flags & DELTA_DIRECTION != 0
}

/// Check if the delta-position or the delta-direction bit is set.
pub fn is_delta_light(flags: u8) -> (r: bool)
    ensures
        r == is_delta(flags),
{
    let mut pos: bool = false;
    let mut dir: bool = false;
    if (flags & DELTA_POSITION) > 0 {
        pos = true;
    }
    if (flags & DELTA_DIRECTION) > 0 {
        dir = true;
    }
    pos || dir
}

/// A flag byte built only of the area and infinite bits is never delta.
pub proof fn lemma_area_infinite_not_delta(flags: u8)
    requires
        flags & (DELTA_POSITION | DELTA_DIRECTION) == 0,
    ensures
        !is_delta(flags),
{
    assert(1u8 | 2u8 == 3u8) by (bit_vector);
    assert(flags & 3u8 == 0 ==> (flags & 1u8 == 0 && flags & 2u8 == 0)) by (bit_vector);
}

/// The deferred occlusion query: two interaction points whose mutual
/// visibility the integrator resolves against the scene after sampling.
#[derive(Clone, Copy, PartialEq, Eq, Structural, Debug)]
pub struct VisibilityTester {
    pub p0: InteractionCommon,
    pub p1: InteractionCommon,
}

impl VisibilityTester {
    /// The shadow-ray test: true iff no primitive reaches strictly inside
    /// the open segment between the two stored points.
    pub fn unoccluded(&self, scene: &Scene) -> (r: bool)
        requires
            scene.wf(),
            pnt3_bounded(self.p0.p),
            pnt3_bounded(self.p1.p),
        ensures
            r == !scene.blocked(self.p0.p, self.p1.p),
    {
        let ray: Ray = self.p0.spawn_ray_to(&self.p1);
        !scene.intersect_p(&ray)
    }

    /// The transmittance walk: casts segments toward `p1`, treating a
    /// material-bearing hit as fully blocking and a material-less hit as a
    /// transparent boundary to step past.  The result is two-valued (full
    /// transmission or zero) because no per-segment attenuation is applied
    /// yet.  A hard iteration cap bounded by the primitive count turns any
    /// geometric degeneracy into a defined fully-blocked result.
    pub fn tr(&self, scene: &Scene, _sampler: &mut Sampler) -> (r: Spectrum)
        requires
            scene.wf(),
            pnt3_bounded(self.p0.p),
            pnt3_bounded(self.p1.p),
            scene.primitives@.len() < 0x1000_0000,
        ensures
            r == spectrum_unit() || r == spectrum_zero(),
            !scene.crossed(self.p0.p, self.p1.p) ==> r == spectrum_unit(),
            (scene.crossed(self.p0.p, self.p1.p) && (forall|i: int|
                0 <= i < scene.primitives@.len() && seg_crosses_sphere(
                    self.p0.p,
                    self.p1.p,
                    #[trigger] scene.primitives@[i].center,
                    prim_r2(scene.primitives@[i]),
                ) ==> scene.primitives@[i].material is Some)) ==> r == spectrum_zero(),
    {
        let mut ray: Ray = self.p0.spawn_ray_to(&self.p1);
        let tr: Spectrum = Spectrum::new(ONE);
        let cap: usize = 2 * scene.primitives.len() + 2;
        let mut k: usize = 0;
        while k < cap
            invariant
                scene.wf(),
                pnt3_bounded(self.p0.p),
                pnt3_bounded(self.p1.p),
                pnt3_bounded(ray.o),
                crate::scene::ray_bounded(ray),
                crate::scene::ray_end(ray) == self.p1.p,
                k == 0 ==> ray.o == self.p0.p,
                k > 0 ==> scene.crossed(self.p0.p, self.p1.p),
                k > 0 ==> exists|i: int|
                    0 <= i < scene.primitives@.len() && seg_crosses_sphere(
                        self.p0.p,
                        self.p1.p,
                        #[trigger] scene.primitives@[i].center,
                        prim_r2(scene.primitives@[i]),
                    ) && scene.primitives@[i].material is None,
                tr == spectrum_unit(),
            decreases cap - k,
        {
            match scene.intersect(&ray) {
                Option::Some(isect) => {
                    let prim = self.clone_prim(scene, isect.prim_index);
                    match prim.get_material() {
                        Option::Some(_material) => {
                            return Spectrum::default();
                        },
                        Option::None => {
                            let it: InteractionCommon = InteractionCommon {
                                p: isect.p,
                                time: ray.time,
                                p_error: Vector3 { x: 0, y: 0, z: 0 },
                                wo: Vector3 { x: 0, y: 0, z: 0 },
                                n: Normal3 { x: 0, y: 0, z: 0 },
                            };
                            ray = it.spawn_ray_to(&self.p1);
                        },
                    }
                },
                Option::None => {
                    return tr;
                },
            }
            k = k + 1;
        }
        Spectrum::default()
    }

    /// Copies one primitive out of the scene.
    fn clone_prim(&self, scene: &Scene, i: usize) -> (r: crate::scene::Primitive)
        requires
            (i as int) < scene.primitives@.len(),
        ensures
            r == scene.primitives@[i as int],
    {
        scene.primitives[i]
    }
}

impl Default for VisibilityTester {
    /// Two degenerate records at the origin.
    fn default() -> (r: VisibilityTester)
        ensures
            r.p0.p == (Point3 { x: 0, y: 0, z: 0 }),
            r.p1.p == (Point3 { x: 0, y: 0, z: 0 }),
    {
        VisibilityTester { p0: Default::default(), p1: Default::default() }
    }
}

/// The capability set every light variant implements.  Each method's
/// behaviour is pinned by a spec function the implementing variant
/// supplies, so callers that go through the trait still see the variant's
/// exact contract.
pub trait Light {
    spec fn wf(&self) -> bool;

    spec fn flags_spec(&self) -> u8;

    spec fn n_samples_spec(&self) -> i32;

    spec fn sample_li_ens(
        &self,
        iref: InteractionCommon,
        u: Point2,
        wi: Vector3,
        pdf: i64,
        vis: VisibilityTester,
        l: Spectrum,
    ) -> bool;

    spec fn power_ens(&self, r: Spectrum) -> bool;

    spec fn le_ens(&self, r: Spectrum) -> bool;

    spec fn pdf_li_ens(&self, iref: InteractionCommon, wi: Vector3, p: i64) -> bool;

    spec fn sample_le_ens(
        &self,
        u1: Point2,
        u2: Point2,
        time: i64,
        ray: Ray,
        n_light: Normal3,
        pdf_pos: i64,
        pdf_dir: i64,
        l: Spectrum,
    ) -> bool;

    spec fn pdf_le_ens(&self, ray: Ray, n_light: Normal3, pdf_pos: i64, pdf_dir: i64) -> bool;

    /// Samples a direction from `iref` toward the light: the radiance that
    /// arrives along it ignoring occlusion, its solid-angle density, and a
    /// visibility tester to resolve occlusion later.
    fn sample_li(
        &self,
        iref: &InteractionCommon,
        u: &Point2,
        wi: &mut Vector3,
        pdf: &mut i64,
        vis: &mut VisibilityTester,
    ) -> (l: Spectrum)
        requires
            self.wf(),
            pnt3_bounded(iref.p),
        ensures
            self.sample_li_ens(*iref, *u, *final(wi), *final(pdf), *final(vis), l),
            *final(pdf) >= 0,
            spectrum_nonneg(l),
    ;

    /// The approximate total emitted power, used for light-importance
    /// selection; non-negative and monotonic with brightness.
    fn power(&self) -> (r: Spectrum)
        requires
            self.wf(),
        ensures
            self.power_ens(r),
            spectrum_nonneg(r),
    ;

    /// One-time setup against the scene's global extent; idempotent.
    fn preprocess(&self, scene: &Scene);

    /// The radiance contributed by a ray that escapes the scene: zero for
    /// every variant that is not an infinite light.
    fn le(&self, ray: &mut Ray) -> (r: Spectrum)
        ensures
            self.le_ens(r),
            *final(ray) == *old(ray),
    ;

    /// The solid-angle density `sample_li` would have assigned to `wi`;
    /// zero for delta lights, which finite-measure sampling cannot reach.
    fn pdf_li(&self, iref: &InteractionCommon, wi: Vector3) -> (p: i64)
        requires
            self.wf(),
        ensures
            self.pdf_li_ens(*iref, wi, p),
            p >= 0,
    ;

    /// Samples a ray leaving the light, with separate position (area
    /// measure) and direction (solid-angle measure) densities.
    fn sample_le(
        &self,
        u1: &Point2,
        u2: &Point2,
        time: i64,
        ray: &mut Ray,
        n_light: &mut Normal3,
        pdf_pos: &mut i64,
        pdf_dir: &mut i64,
    ) -> (l: Spectrum)
        requires
            self.wf(),
            0 <= u2.x <= ONE,
            0 <= u2.y <= ONE,
        ensures
            self.sample_le_ens(
                *u1,
                *u2,
                time,
                *final(ray),
                *final(n_light),
                *final(pdf_pos),
                *final(pdf_dir),
                l,
            ),
            *final(pdf_pos) >= 0,
            *final(pdf_dir) >= 0,
    ;

    /// The densities `sample_le` would have produced for this ray.
    fn pdf_le(&self, ray: &Ray, n_light: &Normal3, pdf_pos: &mut i64, pdf_dir: &mut i64)
        requires
            self.wf(),
        ensures
            self.pdf_le_ens(*ray, *n_light, *final(pdf_pos), *final(pdf_dir)),
            *final(pdf_pos) >= 0,
            *final(pdf_dir) >= 0,
    ;

    fn get_flags(&self) -> (f: u8)
        ensures
            f == self.flags_spec(),
    ;

    fn get_n_samples(&self) -> (n: i32)
        ensures
            n == self.n_samples_spec(),
            n >= 1,
    ;
}

/// Area lights add outgoing-radiance evaluation at a surface point; the
/// value is zero on the back side of a one-sided emitter.
pub trait AreaLight: Light {
    spec fn l_ens(&self, intr: InteractionCommon, w: Vector3, r: Spectrum) -> bool;

    fn l(&self, intr: &InteractionCommon, w: &Vector3) -> (r: Spectrum)
        requires
            self.wf(),
        ensures
            self.l_ens(*intr, *w, r),
    ;
}

/// 4 * pi in fixed point: the solid angle of the full sphere.
pub const FOUR_PI: i64 = 823550;

/// 1 / (4 * pi) in fixed point: the uniform-sphere density.
pub const INV_4PI: i64 = 5215;

/// An isotropic point emitter: a delta-position light.
#[derive(Clone, Copy, PartialEq, Eq, Structural, Debug)]
pub struct PointLight {
    pub p_light: Point3,
    pub i: Spectrum,
}

/// The squared distance from `a` to `b` as a fixed-point scalar.
pub open spec fn dist2_fp(a: Point3, b: Point3) -> int {
    pnt3_dist2(a, b) / (ONE as int)
}

/// The unnormalized octahedral direction for a square sample: piecewise
/// linear, never zero, covering all eight octants.
pub open spec fn octa_raw(u: Point2) -> Vector3 {
    let a = 2 * u.x - ONE as int;
    let b = 2 * u.y - ONE as int;
    let az = if a >= 0 {
        a
    } else {
        -a
    };
    let bz = if b >= 0 {
        b
    } else {
        -b
    };
    let z = ONE as int - az - bz;
    if z >= 0 {
        Vector3 { x: a as i64, y: b as i64, z: z as i64 }
    } else {
        let sx = if a >= 0 {
            ONE as int - bz
        } else {
            -(ONE as int - bz)
        };
        let sy = if b >= 0 {
            ONE as int - az
        } else {
            -(ONE as int - az)
        };
        Vector3 { x: sx as i64, y: sy as i64, z: z as i64 }
    }
}

/// Maps a square sample to a direction on the sphere: the octahedral fold
/// followed by normalization.
pub fn octa_direction(u: &Point2) -> (r: Vector3)
    requires
        0 <= u.x <= ONE,
        0 <= u.y <= ONE,
    ensures
        r == vec3_normalize_spec(octa_raw(*u)),
{
    let a: i64 = 2 * u.x - ONE;
    let b: i64 = 2 * u.y - ONE;
    let az: i64 = if a >= 0 {
        a
    } else {
        -a
    };
    let bz: i64 = if b >= 0 {
        b
    } else {
        -b
    };
    let z: i64 = ONE - az - bz;
    let v: Vector3 = if z >= 0 {
        Vector3 { x: a, y: b, z }
    } else {
        let sx: i64 = if a >= 0 {
            ONE - bz
        } else {
            -(ONE - bz)
        };
        let sy: i64 = if b >= 0 {
            ONE - az
        } else {
            -(ONE - az)
        };
        Vector3 { x: sx, y: sy, z }
    };
    proof {
        assert(v == octa_raw(*u));
        assert(!vec3_is_zero(v));
    }
    vec3_normalize(&v)
}

impl Light for PointLight {
    open spec fn wf(&self) -> bool {
        &&& pnt3_bounded(self.p_light)
        &&& spectrum_nonneg(self.i)
        &&& spectrum_bounded(self.i, 0x4000_0000)
    }

    open spec fn flags_spec(&self) -> u8 {
        DELTA_POSITION
    }

    open spec fn n_samples_spec(&self) -> i32 {
        1
    }

    /// On a degenerate sample (the reference point coincides with the
    /// light, or is so close that the fixed-point squared distance rounds
    /// to zero) the density is zero and the radiance is the zero value;
    /// otherwise the direction is the normalized offset toward the light,
    /// the delta-light density is the fixed-point unit, and the radiance
    /// is the intensity divided by the squared distance.
    open spec fn sample_li_ens(
        &self,
        iref: InteractionCommon,
        u: Point2,
        wi: Vector3,
        pdf: i64,
        vis: VisibilityTester,
        l: Spectrum,
    ) -> bool {
        let d = Vector3 {
            x: (self.p_light.x - iref.p.x) as i64,
            y: (self.p_light.y - iref.p.y) as i64,
            z: (self.p_light.z - iref.p.z) as i64,
        };
        let d2 = dist2_fp(iref.p, self.p_light);
        &&& vis.p0 == iref
        &&& vis.p1.p == self.p_light
        &&& vis.p1.time == iref.time
        &&& if vec3_is_zero(d) || d2 == 0 {
            pdf == 0 && l == spectrum_zero()
        } else {
            &&& wi == vec3_normalize_spec(d)
            &&& pdf == ONE
            &&& l.r == fp_div_spec(self.i.r as int, d2)
            &&& l.g == fp_div_spec(self.i.g as int, d2)
            &&& l.b == fp_div_spec(self.i.b as int, d2)
        }
    }

    /// Total power of an isotropic point source: intensity times the full
    /// sphere's solid angle.
    open spec fn power_ens(&self, r: Spectrum) -> bool {
        &&& r.r == fp_mul_spec(self.i.r as int, FOUR_PI as int)
        &&& r.g == fp_mul_spec(self.i.g as int, FOUR_PI as int)
        &&& r.b == fp_mul_spec(self.i.b as int, FOUR_PI as int)
    }

    /// A point light adds nothing to escaping rays.
    open spec fn le_ens(&self, r: Spectrum) -> bool {
        r == spectrum_zero()
    }

    /// A delta light has zero density under solid-angle sampling.
    open spec fn pdf_li_ens(&self, iref: InteractionCommon, wi: Vector3, p: i64) -> bool {
        p == 0
    }

    /// Emission leaves the light's single position (area density one, the
    /// delta convention) along the octahedrally mapped direction, reported
    /// with the uniform-sphere density.
    open spec fn sample_le_ens(
        &self,
        u1: Point2,
        u2: Point2,
        time: i64,
        ray: Ray,
        n_light: Normal3,
        pdf_pos: i64,
        pdf_dir: i64,
        l: Spectrum,
    ) -> bool {
        let dir = vec3_normalize_spec(octa_raw(u2));
        &&& ray.o == self.p_light
        &&& ray.d == dir
        &&& ray.time == time
        &&& n_light == (Normal3 { x: dir.x, y: dir.y, z: dir.z })
        &&& pdf_pos == ONE
        &&& pdf_dir == INV_4PI
        &&& l == self.i
    }

    open spec fn pdf_le_ens(&self, ray: Ray, n_light: Normal3, pdf_pos: i64, pdf_dir: i64) -> bool {
        pdf_pos == 0 && pdf_dir == INV_4PI
    }

    fn sample_li(
        &self,
        iref: &InteractionCommon,
        u: &Point2,
        wi: &mut Vector3,
        pdf: &mut i64,
        vis: &mut VisibilityTester,
    ) -> (l: Spectrum) {
        let p1: InteractionCommon = InteractionCommon {
            p: self.p_light,
            time: iref.time,
            p_error: Vector3 { x: 0, y: 0, z: 0 },
            wo: Vector3 { x: 0, y: 0, z: 0 },
            n: Normal3 { x: 0, y: 0, z: 0 },
        };
        *vis = VisibilityTester { p0: *iref, p1 };
        let d: Vector3 = Vector3 {
            x: self.p_light.x - iref.p.x,
            y: self.p_light.y - iref.p.y,
            z: self.p_light.z - iref.p.z,
        };
        if d.x == 0 && d.y == 0 && d.z == 0 {
            *pdf = 0;
            return Spectrum::new(0);
        }
        proof {
            crate::geometry::lemma_len2_bounds(d, 2 * crate::num::MAX_COORD as int);
            assert((2 * crate::num::MAX_COORD as int) * (2 * crate::num::MAX_COORD as int)
                == 0x400_0000_0000_0000int) by (nonlinear_arith);
            assert(3 * (2 * crate::num::MAX_COORD as int) * (2 * crate::num::MAX_COORD as int)
                == 0xC00_0000_0000_0000int) by (nonlinear_arith);
        }
        let dxs: i128 = (d.x as i128) * (d.x as i128);
        let dys: i128 = (d.y as i128) * (d.y as i128);
        let dzs: i128 = (d.z as i128) * (d.z as i128);
        let raw2: i128 = dxs + dys + dzs;
        proof {
            lemma_div_magnitude(raw2 as int, ONE as int);
        }
        let d2: i64 = div_floor_i128(raw2, 65536) as i64;
        if d2 == 0 {
            *pdf = 0;
            return Spectrum::new(0);
        }
        *wi = vec3_normalize(&d);
        *pdf = ONE;
        proof {
            assert(pnt3_dist2(iref.p, self.p_light) == raw2 as int);
        }
        self.i.div_scalar(d2)
    }

    fn power(&self) -> (r: Spectrum) {
        proof {
            lemma_div_magnitude(self.i.r as int * (FOUR_PI as int), ONE as int);
            lemma_div_magnitude(self.i.g as int * (FOUR_PI as int), ONE as int);
            lemma_div_magnitude(self.i.b as int * (FOUR_PI as int), ONE as int);
            assert(self.i.r as int * (FOUR_PI as int) >= 0) by (nonlinear_arith)
                requires
                    self.i.r >= 0,
            ;
            assert(self.i.g as int * (FOUR_PI as int) >= 0) by (nonlinear_arith)
                requires
                    self.i.g >= 0,
            ;
            assert(self.i.b as int * (FOUR_PI as int) >= 0) by (nonlinear_arith)
                requires
                    self.i.b >= 0,
            ;
        }
        self.i.scale(FOUR_PI)
    }

    fn preprocess(&self, _scene: &Scene) {
    }

    fn le(&self, _ray: &mut Ray) -> (r: Spectrum) {
        Spectrum::new(0)
    }

    fn pdf_li(&self, _iref: &InteractionCommon, _wi: Vector3) -> (p: i64) {
        0
    }

    fn sample_le(
        &self,
        u1: &Point2,
        u2: &Point2,
        time: i64,
        ray: &mut Ray,
        n_light: &mut Normal3,
        pdf_pos: &mut i64,
        pdf_dir: &mut i64,
    ) -> (l: Spectrum) {
        let dir: Vector3 = octa_direction(u2);
        *ray = Ray { o: self.p_light, d: dir, t_max: 0x7fff_ffff_ffff_ffff, time };
        *n_light = Normal3 { x: dir.x, y: dir.y, z: dir.z };
        *pdf_pos = ONE;
        *pdf_dir = INV_4PI;
        self.i
    }

    fn pdf_le(&self, _ray: &Ray, _n_light: &Normal3, pdf_pos: &mut i64, pdf_dir: &mut i64) {
        *pdf_pos = 0;
        *pdf_dir = INV_4PI;
    }

    fn get_flags(&self) -> (f: u8) {
        DELTA_POSITION
    }

    fn get_n_samples(&self) -> (n: i32) {
        1
    }
}

} // verus!
