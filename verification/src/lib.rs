//! Core logic for converting an equirectangular panorama into a cubemap.
//!
//! The library covers the parts of the pipeline that are exact, discrete
//! computations: the cube-face orientation table and per-pixel direction
//! numerators, the wrap/clamp index arithmetic of the bilinear sampler, the
//! layout compositor that blits six rendered faces into one image, the
//! overflow-checked buffer sizing, and the face-suffix naming scheme.
//! Floating-point work (normalization, trigonometric projection, filtering,
//! tone curves) and all I/O live in the surrounding application, which feeds
//! this library plain values and consumes plain values back.

pub mod codecs;
pub mod error;
pub mod image_utils;
pub mod layouts;
pub mod math;
pub mod paths;
