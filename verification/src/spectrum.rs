//! Radiance values: an additive RGB quantity in fixed-point.

use vstd::prelude::*;
use crate::num::{fp_div, fp_div_spec, fp_mul, fp_mul_spec, ONE};

verus! {

/// Magnitude bound on the channels fed to componentwise products.
pub const CHANNEL_LIMIT: i64 = 0x8000_0000;

/// An additive radiometric quantity with three fixed-point channels.
#[derive(Clone, Copy, PartialEq, Eq, Structural, Debug)]
pub struct Spectrum {
    pub r: i64,
    pub g: i64,
    pub b: i64,
}

pub open spec fn spectrum_zero() -> Spectrum {
    Spectrum { r: 0, g: 0, b: 0 }
}

/// The identity for componentwise scaling: full transmission.
pub open spec fn spectrum_unit() -> Spectrum {
    Spectrum { r: ONE, g: ONE, b: ONE }
}

pub open spec fn spectrum_nonneg(s: Spectrum) -> bool {
    s.r >= 0 && s.g >= 0 && s.b >= 0
}

pub open spec fn spectrum_bounded(s: Spectrum, m: int) -> bool {
    &&& -m <= s.r <= m
    &&& -m <= s.g <= m
    &&& -m <= s.b <= m
}

pub open spec fn clamp_spec(x: int, low: int, high: int) -> int {
    if x < low {
        low
    } else if x > high {
        high
    } else {
        x
    }
}

impl Spectrum {
    /// A constant spectrum: every channel holds `v`.
    pub fn new(v: i64) -> (r: Spectrum)
        ensures
            r == (Spectrum { r: v, g: v, b: v }),
    {
        Spectrum { r: v, g: v, b: v }
    }

    /// True iff the value is exactly zero in every channel.
    pub fn is_black(&self) -> (r: bool)
        ensures
            r == (*self == spectrum_zero()),
    {
        self.r == 0 && self.g == 0 && self.b == 0
    }

    /// Clamps every channel into `[low, high]`.
    pub fn clamp(&self, low: i64, high: i64) -> (r: Spectrum)
        requires
            low <= high,
        ensures
            r.r == clamp_spec(self.r as int, low as int, high as int),
            r.g == clamp_spec(self.g as int, low as int, high as int),
            r.b == clamp_spec(self.b as int, low as int, high as int),
    {
        let cr: i64 = if self.r < low {
            low
        } else if self.r > high {
            high
        } else {
            self.r
        };
        let cg: i64 = if self.g < low {
            low
        } else if self.g > high {
            high
        } else {
            self.g
        };
        let cb: i64 = if self.b < low {
            low
        } else if self.b > high {
            high
        } else {
            self.b
        };
        Spectrum { r: cr, g: cg, b: cb }
    }

    /// Componentwise sum.
    pub fn add(&self, o: &Spectrum) -> (r: Spectrum)
        requires
            spectrum_bounded(*self, 0x1000_0000_0000_0000),
            spectrum_bounded(*o, 0x1000_0000_0000_0000),
        ensures
            r.r == self.r + o.r,
            r.g == self.g + o.g,
            r.b == self.b + o.b,
    {
        Spectrum { r: self.r + o.r, g: self.g + o.g, b: self.b + o.b }
    }

    /// Componentwise difference.
    pub fn sub(&self, o: &Spectrum) -> (r: Spectrum)
        requires
            spectrum_bounded(*self, 0x1000_0000_0000_0000),
            spectrum_bounded(*o, 0x1000_0000_0000_0000),
        ensures
            r.r == self.r - o.r,
            r.g == self.g - o.g,
            r.b == self.b - o.b,
    {
        Spectrum { r: self.r - o.r, g: self.g - o.g, b: self.b - o.b }
    }

    /// Componentwise fixed-point product.
    pub fn component_mul(&self, o: &Spectrum) -> (r: Spectrum)
        requires
            spectrum_bounded(*self, CHANNEL_LIMIT as int),
            spectrum_bounded(*o, CHANNEL_LIMIT as int),
        ensures
            r.r == fp_mul_spec(self.r as int, o.r as int),
            r.g == fp_mul_spec(self.g as int, o.g as int),
            r.b == fp_mul_spec(self.b as int, o.b as int),
    {
        proof {
            lemma_channel_products(*self, *o);
        }
        Spectrum {
            r: fp_mul(self.r, o.r),
            g: fp_mul(self.g, o.g),
            b: fp_mul(self.b, o.b),
        }
    }

    /// Scales every channel by a fixed-point factor.
    pub fn scale(&self, k: i64) -> (r: Spectrum)
        requires
            spectrum_bounded(*self, CHANNEL_LIMIT as int),
            -CHANNEL_LIMIT <= k <= CHANNEL_LIMIT,
        ensures
            r.r == fp_mul_spec(self.r as int, k as int),
            r.g == fp_mul_spec(self.g as int, k as int),
            r.b == fp_mul_spec(self.b as int, k as int),
    {
        proof {
            lemma_channel_products(*self, Spectrum { r: k, g: k, b: k });
        }
        Spectrum { r: fp_mul(self.r, k), g: fp_mul(self.g, k), b: fp_mul(self.b, k) }
    }

    /// Divides every channel by a positive fixed-point scalar.
    pub fn div_scalar(&self, k: i64) -> (r: Spectrum)
        requires
            0 < k,
            spectrum_bounded(*self, 0x4000_0000_0000),
        ensures
            r.r == fp_div_spec(self.r as int, k as int),
            r.g == fp_div_spec(self.g as int, k as int),
            r.b == fp_div_spec(self.b as int, k as int),
    {
        Spectrum { r: fp_div(self.r, k), g: fp_div(self.g, k), b: fp_div(self.b, k) }
    }
}

impl Default for Spectrum {
    /// The zero radiance value.
    fn default() -> (r: Spectrum)
        ensures
            r == spectrum_zero(),
    {
        Spectrum { r: 0, g: 0, b: 0 }
    }
}

/// Channel products of two bounded spectra stay inside the fixed-point
/// multiplication range.
proof fn lemma_channel_products(a: Spectrum, b: Spectrum)
    requires
        spectrum_bounded(a, CHANNEL_LIMIT as int),
        spectrum_bounded(b, CHANNEL_LIMIT as int),
    ensures
        -0x4000_0000_0000_0000 <= (a.r as int) * (b.r as int) <= 0x4000_0000_0000_0000,
        -0x4000_0000_0000_0000 <= (a.g as int) * (b.g as int) <= 0x4000_0000_0000_0000,
        -0x4000_0000_0000_0000 <= (a.b as int) * (b.b as int) <= 0x4000_0000_0000_0000,
{
    assert(-0x4000_0000_0000_0000 <= (a.r as int) * (b.r as int) <= 0x4000_0000_0000_0000)
        by (nonlinear_arith)
        requires
            -0x8000_0000 <= a.r <= 0x8000_0000,
            -0x8000_0000 <= b.r <= 0x8000_0000,
    ;
    assert(-0x4000_0000_0000_0000 <= (a.g as int) * (b.g as int) <= 0x4000_0000_0000_0000)
        by (nonlinear_arith)
        requires
            -0x8000_0000 <= a.g <= 0x8000_0000,
            -0x8000_0000 <= b.g <= 0x8000_0000,
    ;
    assert(-0x4000_0000_0000_0000 <= (a.b as int) * (b.b as int) <= 0x4000_0000_0000_0000)
        by (nonlinear_arith)
        requires
            -0x8000_0000 <= a.b <= 0x8000_0000,
            -0x8000_0000 <= b.b <= 0x8000_0000,
    ;
}

} // verus!
