//! The discrete core of an ambient-occlusion ray tracer for scenes of
//! spheres: the raster's pixel order, the nearest-hit merge over distances
//! held as single-precision bit patterns, the biased and clamped occlusion
//! ratio of a ray bundle, and the assembly of the RGB framebuffer.
pub mod frame;
pub mod hit;
pub mod occlusion;
pub mod raster;
pub mod trace;
