use light_transport::geometry::{Point2, Point2i, Point3};
use light_transport::interaction::InteractionCommon;
use light_transport::light::{
    is_delta_light, Light, LightFlags, PointLight, VisibilityTester, AREA, DELTA_POSITION,
    FOUR_PI, INFINITE,
};
use light_transport::num::ONE;
use light_transport::sampler::Sampler;
use light_transport::scene::{Primitive, Scene};
use light_transport::spectrum::Spectrum;
use light_transport::uber::{
    Bxdf, FloatTexture, SpectrumTexture, TextureParams, TransportMode, UberMaterial,
};
use light_transport::curve::{blossom_bezier, Curve, CurveCommon, CurveType, Transform};

fn origin_record() -> InteractionCommon {
    InteractionCommon::default()
}

fn record_at(x: i64, y: i64, z: i64) -> InteractionCommon {
    let mut r = InteractionCommon::default();
    r.p = Point3 { x, y, z };
    r
}

fn point_light_above() -> PointLight {
    PointLight {
        p_light: Point3 { x: 0, y: 5 * ONE, z: 0 },
        i: Spectrum::new(ONE),
    }
}

fn empty_scene() -> Scene {
    Scene::new(Vec::new())
}

fn sphere_scene(material: Option<u32>) -> Scene {
    let prim = Primitive {
        center: Point3 { x: 0, y: 2 * ONE, z: 0 },
        radius: ONE,
        material,
    };
    Scene::new(vec![prim])
}

#[test]
fn delta_flag_bits() {
    assert!(is_delta_light(DELTA_POSITION));
    assert!(is_delta_light(2));
    assert!(is_delta_light(3));
    assert!(!is_delta_light(0));
    assert!(!is_delta_light(AREA));
    assert!(!is_delta_light(INFINITE));
    assert!(!is_delta_light(AREA | INFINITE));
    assert_eq!(LightFlags::DeltaPosition.bit(), 1);
    assert_eq!(LightFlags::DeltaDirection.bit(), 2);
    assert_eq!(LightFlags::Area.bit(), 4);
    assert_eq!(LightFlags::Infinite.bit(), 8);
}

#[test]
fn unoccluded_in_empty_scene() {
    let vis = VisibilityTester {
        p0: origin_record(),
        p1: record_at(0, 5 * ONE, 0),
    };
    assert!(vis.unoccluded(&empty_scene()));
}

#[test]
fn occluded_by_opaque_sphere() {
    let vis = VisibilityTester {
        p0: origin_record(),
        p1: record_at(0, 5 * ONE, 0),
    };
    assert!(!vis.unoccluded(&sphere_scene(Some(7))));
}

#[test]
fn transmittance_empty_scene_is_identity() {
    let vis = VisibilityTester {
        p0: origin_record(),
        p1: record_at(0, 5 * ONE, 0),
    };
    let mut sampler = Sampler::new(1, 0);
    assert_eq!(vis.tr(&empty_scene(), &mut sampler), Spectrum::new(ONE));
}

#[test]
fn transmittance_through_pass_through_sphere() {
    let vis = VisibilityTester {
        p0: origin_record(),
        p1: record_at(0, 5 * ONE, 0),
    };
    let mut sampler = Sampler::new(1, 0);
    assert_eq!(vis.tr(&sphere_scene(None), &mut sampler), Spectrum::new(ONE));
}

#[test]
fn transmittance_blocked_by_opaque_sphere() {
    let vis = VisibilityTester {
        p0: origin_record(),
        p1: record_at(0, 5 * ONE, 0),
    };
    let mut sampler = Sampler::new(1, 0);
    assert_eq!(vis.tr(&sphere_scene(Some(1)), &mut sampler), Spectrum::new(0));
}

#[test]
fn transmittance_degenerate_sphere_on_endpoint() {
    // A pass-through primitive exactly coincident with the target point:
    // the walk must still terminate with a defined two-valued result.
    let vis = VisibilityTester {
        p0: origin_record(),
        p1: record_at(0, 5 * ONE, 0),
    };
    let prim = Primitive {
        center: Point3 { x: 0, y: 5 * ONE, z: 0 },
        radius: ONE,
        material: None,
    };
    let mut sampler = Sampler::new(1, 0);
    let r = vis.tr(&Scene::new(vec![prim]), &mut sampler);
    assert!(r == Spectrum::new(ONE) || r == Spectrum::new(0));
}

#[test]
fn point_light_sample_toward_light() {
    let light = point_light_above();
    let iref = origin_record();
    let u = Point2 { x: 0, y: 0 };
    let mut wi = light_transport::geometry::Vector3 { x: 0, y: 0, z: 0 };
    let mut pdf: i64 = -1;
    let mut vis = VisibilityTester {
        p0: origin_record(),
        p1: origin_record(),
    };
    let l = light.sample_li(&iref, &u, &mut wi, &mut pdf, &mut vis);
    assert_eq!(wi.x, 0);
    assert_eq!(wi.y, ONE);
    assert_eq!(wi.z, 0);
    assert_eq!(pdf, ONE);
    // intensity ONE over squared distance 25: 65536 * 65536 / 1638400
    assert_eq!(l.r, 2621);
    assert_eq!(l.g, 2621);
    assert_eq!(l.b, 2621);
    assert!(vis.unoccluded(&empty_scene()));
    assert!(!vis.unoccluded(&sphere_scene(Some(3))));
}

#[test]
fn point_light_degenerate_sample() {
    let light = PointLight {
        p_light: Point3 { x: 0, y: 0, z: 0 },
        i: Spectrum::new(ONE),
    };
    let iref = origin_record();
    let u = Point2 { x: 0, y: 0 };
    let mut wi = light_transport::geometry::Vector3 { x: 9, y: 9, z: 9 };
    let mut pdf: i64 = -1;
    let mut vis = VisibilityTester {
        p0: origin_record(),
        p1: origin_record(),
    };
    let l = light.sample_li(&iref, &u, &mut wi, &mut pdf, &mut vis);
    assert_eq!(pdf, 0);
    assert!(l.is_black());
}

#[test]
fn point_light_metadata() {
    let light = point_light_above();
    assert_eq!(light.get_flags(), DELTA_POSITION);
    assert!(is_delta_light(light.get_flags()));
    assert_eq!(light.get_n_samples(), 1);
    let p = light.power();
    assert_eq!(p.r, FOUR_PI);
    let mut ray = light_transport::geometry::Ray {
        o: Point3 { x: 0, y: 0, z: 0 },
        d: light_transport::geometry::Vector3 { x: 0, y: 0, z: ONE },
        t_max: ONE,
        time: 0,
    };
    assert!(light.le(&mut ray).is_black());
    assert_eq!(light.pdf_li(&origin_record(), ray.d), 0);
}

#[test]
fn sampler_sample_budget() {
    let mut s = Sampler::new(4, 11);
    s.start_pixel(Point2i { x: 3, y: 9 });
    assert!(s.start_next_sample());
    assert!(s.start_next_sample());
    assert!(s.start_next_sample());
    assert!(s.start_next_sample());
    assert!(!s.start_next_sample());
    assert_eq!(s.get_samples_per_pixel(), 4);
    // a fresh pixel resets the budget
    s.start_pixel(Point2i { x: 4, y: 9 });
    assert_eq!(s.get_current_sample_number(), 0);
    assert!(s.start_next_sample());
}

#[test]
fn sampler_determinism() {
    let mut a = Sampler::new(8, 42);
    let mut b = Sampler::new(8, 42);
    a.start_pixel(Point2i { x: 5, y: 6 });
    b.start_pixel(Point2i { x: 5, y: 6 });
    for _ in 0..10 {
        assert_eq!(a.get_1d(), b.get_1d());
        let pa = a.get_2d();
        let pb = b.get_2d();
        assert_eq!(pa.x, pb.x);
        assert_eq!(pa.y, pb.y);
        let va = a.get_1d();
        assert!(va >= 0 && va < ONE);
        let vb = b.get_1d();
        assert!(vb >= 0 && vb < ONE);
    }
    // a different seed diverges somewhere in a short prefix
    let mut c = Sampler::new(8, 43);
    c.start_pixel(Point2i { x: 5, y: 6 });
    let mut d = Sampler::new(8, 42);
    d.start_pixel(Point2i { x: 5, y: 6 });
    let mut diverged = false;
    for _ in 0..8 {
        if c.get_1d() != d.get_1d() {
            diverged = true;
        }
    }
    assert!(diverged);
}

#[test]
fn sampler_arrays_and_round_count() {
    let mut s = Sampler::new(2, 7);
    assert_eq!(s.round_count(5), 9);
    assert_eq!(s.round_count(4), 4);
    assert_eq!(s.round_count(0), 0);
    assert_eq!(s.round_count(10), 16);
    assert_eq!(s.round_count(9), 9);
    s.request_2d_array(9);
    s.start_pixel(Point2i { x: 0, y: 0 });
    let arr = s.get_2d_array(9);
    assert_eq!(arr.len(), 9);
    for p in &arr {
        assert!(p.x >= 0 && p.x < ONE);
        assert!(p.y >= 0 && p.y < ONE);
    }
    // an unregistered length yields the defined zero-filled array
    let bad = s.get_2d_array(5);
    assert_eq!(bad.len(), 5);
    for p in &bad {
        assert_eq!(p.x, 0);
        assert_eq!(p.y, 0);
    }
}

#[test]
fn sampler_clone_for_worker() {
    let mut s = Sampler::new(16, 3);
    s.request_2d_array(4);
    let w = s.clone_for_worker(99);
    assert_eq!(w.get_samples_per_pixel(), 16);
    assert_eq!(w.get_current_sample_number(), 0);
}

#[test]
fn sampler_camera_sample() {
    let mut s = Sampler::new(1, 5);
    s.start_pixel(Point2i { x: 2, y: 3 });
    let cs = s.get_camera_sample(Point2i { x: 2, y: 3 });
    assert!(cs.p_film.x >= 2 * ONE && cs.p_film.x < 3 * ONE);
    assert!(cs.p_film.y >= 3 * ONE && cs.p_film.y < 4 * ONE);
    assert!(cs.time >= 0 && cs.time < ONE);
    assert!(cs.p_lens.x >= 0 && cs.p_lens.x < ONE);
}

#[test]
fn uber_material_defaults() {
    let mp = TextureParams {
        kd: None,
        ks: None,
        kr: None,
        kt: None,
        roughness: None,
        u_roughness: None,
        v_roughness: None,
        eta: None,
        opacity: None,
        remap_roughness: None,
    };
    let m = UberMaterial::create(&mp);
    assert_eq!(m.kd, SpectrumTexture::Constant(Spectrum::new(16384)));
    assert_eq!(m.eta, FloatTexture::Constant(98304));
    assert!(m.remap_roughness);
}

#[test]
fn uber_material_bsdf_lobes() {
    let mp = TextureParams {
        kd: None,
        ks: None,
        kr: None,
        kt: None,
        roughness: None,
        u_roughness: None,
        v_roughness: None,
        eta: None,
        opacity: None,
        remap_roughness: None,
    };
    let m = UberMaterial::create(&mp);
    let si = light_transport::interaction::SurfaceInteraction {
        common: InteractionCommon::default(),
        uv: Point2 { x: 0, y: 0 },
    };
    let b = m.bsdf(&si, TransportMode::Radiance);
    // full opacity: no pass-through lobe; diffuse and glossy remain
    assert_eq!(b.bxdfs.len(), 2);
    assert!(matches!(b.bxdfs[0], Bxdf::LambertianReflection { .. }));
    assert!(matches!(b.bxdfs[1], Bxdf::MicrofacetReflection { .. }));
    assert_eq!(b.eta, 98304);
}

#[test]
fn uber_material_translucent_lobes() {
    let mp = TextureParams {
        kd: None,
        ks: None,
        kr: None,
        kt: Some(SpectrumTexture::Constant(Spectrum::new(ONE))),
        roughness: None,
        u_roughness: None,
        v_roughness: None,
        eta: None,
        opacity: Some(SpectrumTexture::Constant(Spectrum::new(ONE / 2))),
        remap_roughness: None,
    };
    let m = UberMaterial::create(&mp);
    let si = light_transport::interaction::SurfaceInteraction {
        common: InteractionCommon::default(),
        uv: Point2 { x: 0, y: 0 },
    };
    let b = m.bsdf(&si, TransportMode::Radiance);
    // half opacity: pass-through, diffuse, glossy, and the kt lobe
    assert_eq!(b.bxdfs.len(), 4);
    assert!(matches!(b.bxdfs[0], Bxdf::SpecularTransmission { .. }));
    assert_eq!(b.eta, ONE);
}

#[test]
fn curve_create_splits_parameter_range() {
    let c = [
        Point3 { x: 0, y: 0, z: 0 },
        Point3 { x: ONE, y: 0, z: 0 },
        Point3 { x: 2 * ONE, y: 0, z: 0 },
        Point3 { x: 3 * ONE, y: 0, z: 0 },
    ];
    let segs = Curve::create(
        Transform::identity(),
        Transform::identity(),
        false,
        &c,
        ONE,
        ONE,
        CurveType::Flat,
        None,
        2,
    );
    assert_eq!(segs.len(), 4);
    assert_eq!(segs[0].u_min, 0);
    assert_eq!(segs[0].u_max, ONE / 4);
    assert_eq!(segs[3].u_min, 3 * (ONE / 4));
    assert_eq!(segs[3].u_max, ONE);
    assert!(!segs[0].get_reverse_orientation());
    assert!(!segs[0].get_transform_swaps_handedness());
}

#[test]
fn blossom_endpoints() {
    let c = [
        Point3 { x: 0, y: 0, z: 0 },
        Point3 { x: ONE, y: ONE, z: 0 },
        Point3 { x: 2 * ONE, y: ONE, z: 0 },
        Point3 { x: 3 * ONE, y: 0, z: 0 },
    ];
    let start = blossom_bezier(&c, 0, 0, 0);
    assert_eq!(start, c[0]);
    let end = blossom_bezier(&c, ONE, ONE, ONE);
    assert_eq!(end, c[3]);
}

#[test]
fn curve_common_parallel_normals() {
    let c = [
        Point3 { x: 0, y: 0, z: 0 },
        Point3 { x: ONE, y: 0, z: 0 },
        Point3 { x: 2 * ONE, y: 0, z: 0 },
        Point3 { x: 3 * ONE, y: 0, z: 0 },
    ];
    let n = light_transport::geometry::Normal3 { x: 0, y: 0, z: ONE };
    let cc = CurveCommon::new(&c, ONE, ONE / 2, CurveType::Ribbon, Some([n, n]));
    assert_eq!(cc.cos_normal_angle, ONE);
    assert_eq!(cc.inv_sin_normal_angle, 0);
    assert_eq!(cc.width[0], ONE);
    assert_eq!(cc.width[1], ONE / 2);
    let plain = CurveCommon::new(&c, ONE, ONE, CurveType::Flat, None);
    assert_eq!(plain.cos_normal_angle, 0);
}

#[test]
fn curve_degenerate_queries() {
    let c = [
        Point3 { x: 0, y: 0, z: 0 },
        Point3 { x: ONE, y: 0, z: 0 },
        Point3 { x: 2 * ONE, y: 0, z: 0 },
        Point3 { x: 3 * ONE, y: 0, z: 0 },
    ];
    let cc = CurveCommon::new(&c, ONE, ONE, CurveType::Flat, None);
    let curve = Curve::new(Transform::identity(), Transform::identity(), false, cc, 0, ONE);
    let ray = light_transport::geometry::Ray {
        o: Point3 { x: 0, y: 0, z: 0 },
        d: light_transport::geometry::Vector3 { x: ONE, y: 0, z: 0 },
        t_max: ONE,
        time: 0,
    };
    assert!(curve.intersect(&ray).is_none());
    assert!(!curve.intersect_p(&ray));
    let mut pdf: i64 = 5;
    let r = curve.sample(Point2 { x: 0, y: 0 }, &mut pdf);
    assert_eq!(pdf, 0);
    assert_eq!(r.p, Point3 { x: 0, y: 0, z: 0 });
    assert_eq!(curve.pdf(&InteractionCommon::default(), ray.d), 0);
}

#[test]
fn spectrum_value_conventions() {
    let z = Spectrum::default();
    assert!(z.is_black());
    let s = Spectrum { r: -5, g: ONE + 7, b: 3 };
    let c = s.clamp(0, ONE);
    assert_eq!(c.r, 0);
    assert_eq!(c.g, ONE);
    assert_eq!(c.b, 3);
    let two = Spectrum::new(2 * ONE);
    let half = Spectrum::new(ONE / 2);
    let prod = two.component_mul(&half);
    assert_eq!(prod.r, ONE);
    assert_eq!(two.add(&half).r, 2 * ONE + ONE / 2);
    assert_eq!(two.sub(&half).r, ONE + ONE / 2);
    assert_eq!(two.div_scalar(ONE / 2).r, 4 * ONE);
}

#[test]
fn curve_bound_and_area() {
    let c = [
        Point3 { x: 0, y: 0, z: 0 },
        Point3 { x: ONE, y: 0, z: 0 },
        Point3 { x: 2 * ONE, y: 0, z: 0 },
        Point3 { x: 3 * ONE, y: 0, z: 0 },
    ];
    let cc = CurveCommon::new(&c, ONE, ONE, CurveType::Flat, None);
    let curve = Curve::new(Transform::identity(), Transform::identity(), false, cc, 0, ONE);
    let b = curve.object_bound();
    // a straight segment of length 3 and width 1: the hull expanded by 1/2
    assert_eq!(b.p_min.x, -ONE / 2);
    assert_eq!(b.p_max.x, 3 * ONE + ONE / 2);
    assert_eq!(b.p_min.y, -ONE / 2);
    assert_eq!(b.p_max.y, ONE / 2);
    // length 3 times average width 1
    assert_eq!(curve.area(), 3 * ONE);
    let mut pdf: i64 = 77;
    let iref = record_at(ONE, ONE, 0);
    let r = curve.sample_with_ref_point(&iref, Point2 { x: 0, y: 0 }, &mut pdf);
    assert_eq!(pdf, 0);
    assert_eq!(r.p, Point3 { x: 0, y: 0, z: 0 });
}
