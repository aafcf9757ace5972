//! A raster compositing engine for a painting tool: per-channel blend laws,
//! stencil patterns with their color sources, disk-shaped footprints, opacity
//! masks, and a brush that stamps them onto an RGBA canvas, clipped to its bounds.
pub mod config;
pub mod disk;
pub mod geometry;
pub mod mix_methods;
pub mod naming;
pub mod patterns;
pub mod pressure_mask;
pub mod raster;
pub mod tools;
