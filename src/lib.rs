//! Integer-side pieces of a recursive ray tracer: texture lookup with
//! wrapped coordinates, the output raster, and the recursion bound of
//! the shading engine.

pub mod pixels;
pub mod texture;
pub mod raster;
pub mod shading;
