//! The uber material: turns texture parameters into the list of scattering
//! lobes (bxdfs) a surface hit carries, with opacity acting both as a
//! scale on every lobe and as a pass-through transmission of its own.

use vstd::prelude::*;
use crate::interaction::SurfaceInteraction;
use crate::num::{fp_mul_spec, ONE};
use crate::spectrum::{clamp_spec, spectrum_bounded, spectrum_zero, Spectrum, CHANNEL_LIMIT};

verus! {

/// Whether a path carries radiance or importance; some lobes depend on it.
#[derive(Clone, Copy, PartialEq, Eq, Structural, Debug)]
pub enum TransportMode {
    Radiance,
    Importance,
}

/// A spectrum-valued texture; scene-file parsing is outside this core, so
/// the constant texture stands for whatever the loader produced.
#[derive(Clone, Copy, PartialEq, Eq, Structural, Debug)]
pub enum SpectrumTexture {
    Constant(Spectrum),
}

pub open spec fn spectrum_texture_eval(t: SpectrumTexture) -> Spectrum {
    match t {
        SpectrumTexture::Constant(s) => s,
    }
}

impl SpectrumTexture {
    pub fn evaluate(&self, _si: &SurfaceInteraction) -> (r: Spectrum)
        ensures
            r == spectrum_texture_eval(*self),
    {
        match self {
            SpectrumTexture::Constant(s) => *s,
        }
    }
}

/// A scalar-valued texture.
#[derive(Clone, Copy, PartialEq, Eq, Structural, Debug)]
pub enum FloatTexture {
    Constant(i64),
}

pub open spec fn float_texture_eval(t: FloatTexture) -> i64 {
    match t {
        FloatTexture::Constant(v) => v,
    }
}

impl FloatTexture {
    pub fn evaluate(&self, _si: &SurfaceInteraction) -> (r: i64)
        ensures
            r == float_texture_eval(*self),
    {
        match self {
            FloatTexture::Constant(v) => *v,
        }
    }
}

/// One scattering lobe.  The microfacet lobe carries its (possibly still
/// to-be-remapped) roughness parameters; evaluating the distribution
/// itself belongs to the reflection machinery outside this core.
#[derive(Clone, Copy, PartialEq, Eq, Structural, Debug)]
pub enum Bxdf {
    SpecularTransmission { t: Spectrum, eta_a: i64, eta_b: i64, mode: TransportMode },
    LambertianReflection { r: Spectrum },
    MicrofacetReflection {
        r: Spectrum,
        u_roughness: i64,
        v_roughness: i64,
        remap: bool,
        eta_i: i64,
        eta_t: i64,
    },
    SpecularReflection { r: Spectrum, eta_i: i64, eta_t: i64 },
}

/// The scattering function of a surface point: its relative refraction
/// index and the lobes contributing to it.
#[derive(Clone, Debug)]
pub struct Bsdf {
    pub eta: i64,
    pub bxdfs: Vec<Bxdf>,
}

impl Bsdf {
    pub fn new(_si: &SurfaceInteraction, eta: i64, bxdfs: Vec<Bxdf>) -> (r: Bsdf)
        ensures
            r.eta == eta,
            r.bxdfs == bxdfs,
    {
        Bsdf { eta, bxdfs }
    }
}

/// The named parameters the scene loader hands a material; a missing
/// entry falls back to the material's documented default.
#[derive(Clone, Copy, PartialEq, Eq, Structural, Debug)]
pub struct TextureParams {
    pub kd: Option<SpectrumTexture>,
    pub ks: Option<SpectrumTexture>,
    pub kr: Option<SpectrumTexture>,
    pub kt: Option<SpectrumTexture>,
    pub roughness: Option<FloatTexture>,
    pub u_roughness: Option<FloatTexture>,
    pub v_roughness: Option<FloatTexture>,
    pub eta: Option<FloatTexture>,
    pub opacity: Option<SpectrumTexture>,
    pub remap_roughness: Option<bool>,
}

/// The uber material: diffuse, glossy, mirror and transmissive lobes
/// scaled by an opacity, each behind a texture.
#[derive(Clone, Copy, PartialEq, Eq, Structural, Debug)]
pub struct UberMaterial {
    pub kd: SpectrumTexture,
    pub ks: SpectrumTexture,
    pub kr: SpectrumTexture,
    pub kt: SpectrumTexture,
    pub roughness: FloatTexture,
    pub u_roughness: Option<FloatTexture>,
    pub v_roughness: Option<FloatTexture>,
    pub eta: FloatTexture,
    pub opacity: SpectrumTexture,
    pub remap_roughness: bool,
}

/// Clamp every channel to the non-negative range.
pub open spec fn clamp_nonneg_spec(s: Spectrum) -> Spectrum {
    Spectrum {
        r: clamp_spec(s.r as int, 0, i64::MAX as int) as i64,
        g: clamp_spec(s.g as int, 0, i64::MAX as int) as i64,
        b: clamp_spec(s.b as int, 0, i64::MAX as int) as i64,
    }
}

/// Componentwise fixed-point product.
pub open spec fn mul_spectrum_spec(a: Spectrum, b: Spectrum) -> Spectrum {
    Spectrum {
        r: fp_mul_spec(a.r as int, b.r as int) as i64,
        g: fp_mul_spec(a.g as int, b.g as int) as i64,
        b: fp_mul_spec(a.b as int, b.b as int) as i64,
    }
}

impl UberMaterial {
    /// Every texture value this material can produce stays inside the
    /// channel range of the fixed-point products.
    pub open spec fn wf(&self) -> bool {
        &&& spectrum_bounded(spectrum_texture_eval(self.kd), CHANNEL_LIMIT as int)
        &&& spectrum_bounded(spectrum_texture_eval(self.ks), CHANNEL_LIMIT as int)
        &&& spectrum_bounded(spectrum_texture_eval(self.kr), CHANNEL_LIMIT as int)
        &&& spectrum_bounded(spectrum_texture_eval(self.kt), CHANNEL_LIMIT as int)
        &&& spectrum_bounded(spectrum_texture_eval(self.opacity), CHANNEL_LIMIT as int)
    }

    /// The opacity-complement transmission lobe's weight.
    pub open spec fn t_spec(&self) -> Spectrum {
        let op = clamp_nonneg_spec(spectrum_texture_eval(self.opacity));
        clamp_nonneg_spec(
            Spectrum { r: (ONE - op.r) as i64, g: (ONE - op.g) as i64, b: (ONE - op.b) as i64 },
        )
    }

    /// The lobes `bsdf` builds, in order, as a function of the material's
    /// textures and the transport mode.
    pub open spec fn bxdfs_spec(&self, mode: TransportMode) -> Seq<Bxdf> {
        let op = clamp_nonneg_spec(spectrum_texture_eval(self.opacity));
        let t = self.t_spec();
        let e = float_texture_eval(self.eta);
        let kd = mul_spectrum_spec(op, clamp_nonneg_spec(spectrum_texture_eval(self.kd)));
        let ks = mul_spectrum_spec(op, clamp_nonneg_spec(spectrum_texture_eval(self.ks)));
        let kr = mul_spectrum_spec(op, clamp_nonneg_spec(spectrum_texture_eval(self.kr)));
        let kt = mul_spectrum_spec(op, clamp_nonneg_spec(spectrum_texture_eval(self.kt)));
        let u_rough = match self.u_roughness {
            Option::Some(t) => float_texture_eval(t),
            Option::None => float_texture_eval(self.roughness),
        };
        let v_rough = match self.v_roughness {
            Option::Some(t) => float_texture_eval(t),
            Option::None => float_texture_eval(self.roughness),
        };
        let s0 = Seq::<Bxdf>::empty();
        let s1 = if t != spectrum_zero() {
            s0.push(Bxdf::SpecularTransmission { t, eta_a: ONE, eta_b: ONE, mode })
        } else {
            s0
        };
        let s2 = if kd != spectrum_zero() {
            s1.push(Bxdf::LambertianReflection { r: kd })
        } else {
            s1
        };
        let s3 = if ks != spectrum_zero() {
            s2.push(
                Bxdf::MicrofacetReflection {
                    r: ks,
                    u_roughness: u_rough,
                    v_roughness: v_rough,
                    remap: self.remap_roughness,
                    eta_i: ONE,
                    eta_t: e,
                },
            )
        } else {
            s2
        };
        let s4 = if kr != spectrum_zero() {
            s3.push(Bxdf::SpecularReflection { r: kr, eta_i: ONE, eta_t: e })
        } else {
            s3
        };
        if kt != spectrum_zero() {
            s4.push(Bxdf::SpecularTransmission { t: kt, eta_a: ONE, eta_b: e, mode })
        } else {
            s4
        }
    }

    pub fn new(
        kd: SpectrumTexture,
        ks: SpectrumTexture,
        kr: SpectrumTexture,
        kt: SpectrumTexture,
        roughness: FloatTexture,
        u_roughness: Option<FloatTexture>,
        v_roughness: Option<FloatTexture>,
        eta: FloatTexture,
        opacity: SpectrumTexture,
        remap_roughness: bool,
    ) -> (r: Self)
        ensures
            r == (UberMaterial {
                kd,
                ks,
                kr,
                kt,
                roughness,
                u_roughness,
                v_roughness,
                eta,
                opacity,
                remap_roughness,
            }),
    {
        UberMaterial {
            kd,
            ks,
            kr,
            kt,
            roughness,
            u_roughness,
            v_roughness,
            eta,
            opacity,
            remap_roughness,
        }
    }

    /// Builds the material from named parameters, supplying the documented
    /// defaults for every missing one: diffuse and glossy weight 0.25,
    /// no mirror or transmission, roughness 0.1, refraction index 1.5,
    /// full opacity, roughness remapping on.
    pub fn create(mp: &TextureParams) -> (r: UberMaterial)
        ensures
            r.kd == mp.kd.unwrap_or(SpectrumTexture::Constant(
                Spectrum { r: 16384, g: 16384, b: 16384 },
            )),
            r.ks == mp.ks.unwrap_or(SpectrumTexture::Constant(
                Spectrum { r: 16384, g: 16384, b: 16384 },
            )),
            r.kr == mp.kr.unwrap_or(SpectrumTexture::Constant(Spectrum { r: 0, g: 0, b: 0 })),
            r.kt == mp.kt.unwrap_or(SpectrumTexture::Constant(Spectrum { r: 0, g: 0, b: 0 })),
            r.roughness == mp.roughness.unwrap_or(FloatTexture::Constant(6554)),
            r.u_roughness == mp.u_roughness,
            r.v_roughness == mp.v_roughness,
            r.eta == mp.eta.unwrap_or(FloatTexture::Constant(98304)),
            r.opacity == mp.opacity.unwrap_or(SpectrumTexture::Constant(
                Spectrum { r: ONE, g: ONE, b: ONE },
            )),
            r.remap_roughness == mp.remap_roughness.unwrap_or(true),
    {
        let kd: SpectrumTexture = match mp.kd {
            Option::Some(t) => t,
            Option::None => SpectrumTexture::Constant(Spectrum::new(16384)),
        };
        let ks: SpectrumTexture = match mp.ks {
            Option::Some(t) => t,
            Option::None => SpectrumTexture::Constant(Spectrum::new(16384)),
        };
        let kr: SpectrumTexture = match mp.kr {
            Option::Some(t) => t,
            Option::None => SpectrumTexture::Constant(Spectrum::new(0)),
        };
        let kt: SpectrumTexture = match mp.kt {
            Option::Some(t) => t,
            Option::None => SpectrumTexture::Constant(Spectrum::new(0)),
        };
        let roughness: FloatTexture = match mp.roughness {
            Option::Some(t) => t,
            Option::None => FloatTexture::Constant(6554),
        };
        let opacity: SpectrumTexture = match mp.opacity {
            Option::Some(t) => t,
            Option::None => SpectrumTexture::Constant(Spectrum::new(ONE)),
        };
        let remap_roughness: bool = match mp.remap_roughness {
            Option::Some(b) => b,
            Option::None => true,
        };
        let eta: FloatTexture = match mp.eta {
            Option::Some(t) => t,
            Option::None => FloatTexture::Constant(98304),
        };
        UberMaterial::new(
            kd,
            ks,
            kr,
            kt,
            roughness,
            mp.u_roughness,
            mp.v_roughness,
            eta,
            opacity,
            remap_roughness,
        )
    }

    /// Assembles the scattering lobes for a surface hit: the opacity
    /// complement as a pass-through transmission, then the diffuse,
    /// glossy, mirror and transmissive lobes, each scaled by the opacity
    /// and dropped when black; the bsdf's index is one when any opacity
    /// pass-through exists, else the material's.
    pub fn bsdf(&self, si: &SurfaceInteraction, mode: TransportMode) -> (r: Bsdf)
        requires
            self.wf(),
        ensures
            r.bxdfs@ == self.bxdfs_spec(mode),
            r.eta == if self.t_spec() != spectrum_zero() {
                ONE as i64
            } else {
                float_texture_eval(self.eta)
            },
    {
        let mut bxdfs: Vec<Bxdf> = Vec::new();
        let e: i64 = self.eta.evaluate(si);
        let op: Spectrum = self.opacity.evaluate(si).clamp(0, i64::MAX);
        let t: Spectrum = Spectrum::new(ONE).sub(&op).clamp(0, i64::MAX);
        proof {
            assert(op == clamp_nonneg_spec(spectrum_texture_eval(self.opacity)));
            assert(t == self.t_spec());
        }
        if !t.is_black() {
            bxdfs.push(Bxdf::SpecularTransmission { t, eta_a: ONE, eta_b: ONE, mode });
        }
        let kd: Spectrum = op.component_mul(&self.kd.evaluate(si).clamp(0, i64::MAX));
        if !kd.is_black() {
            bxdfs.push(Bxdf::LambertianReflection { r: kd });
        }
        let ks: Spectrum = op.component_mul(&self.ks.evaluate(si).clamp(0, i64::MAX));
        if !ks.is_black() {
            let u_rough: i64 = match &self.u_roughness {
                Option::Some(tex) => tex.evaluate(si),
                Option::None => self.roughness.evaluate(si),
            };
            let v_rough: i64 = match &self.v_roughness {
                Option::Some(tex) => tex.evaluate(si),
                Option::None => self.roughness.evaluate(si),
            };
            bxdfs.push(
                Bxdf::MicrofacetReflection {
                    r: ks,
                    u_roughness: u_rough,
                    v_roughness: v_rough,
                    remap: self.remap_roughness,
                    eta_i: ONE,
                    eta_t: e,
                },
            );
        }
        let kr: Spectrum = op.component_mul(&self.kr.evaluate(si).clamp(0, i64::MAX));
        if !kr.is_black() {
            bxdfs.push(Bxdf::SpecularReflection { r: kr, eta_i: ONE, eta_t: e });
        }
        let kt: Spectrum = op.component_mul(&self.kt.evaluate(si).clamp(0, i64::MAX));
        if !kt.is_black() {
            bxdfs.push(Bxdf::SpecularTransmission { t: kt, eta_a: ONE, eta_b: e, mode });
        }
        proof {
            assert(bxdfs@ =~= self.bxdfs_spec(mode));
        }
        if !t.is_black() {
            Bsdf::new(si, ONE, bxdfs)
        } else {
            Bsdf::new(si, e, bxdfs)
        }
    }
}

} // verus!
