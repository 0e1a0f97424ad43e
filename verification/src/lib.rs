//! Core abstractions of a stochastic light-transport renderer: light
//! sampling with matched probability densities, deferred visibility and
//! transmittance queries against a scene, and the per-pixel sample-stream
//! generator that drives every Monte Carlo estimate.
//!
//! All scalar quantities are fixed-point numbers: an `i64` carrying the
//! value scaled by `num::ONE`.  Every geometric and radiometric routine is
//! stated and proved over exact integer arithmetic.

pub mod curve;
pub mod geometry;
pub mod interaction;
pub mod light;
pub mod num;
pub mod sampler;
pub mod scene;
pub mod spectrum;
pub mod uber;
