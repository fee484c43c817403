//! A CPU triangle rasterizer over fixed-point arithmetic.
//!
//! Geometry is transformed through homogeneous coordinates, clipped against
//! the near plane, and rasterized with perspective-correct barycentric
//! interpolation, a depth buffer, and a shadow-mapping pass. All scalars are
//! signed 64-bit fixed-point numbers with 16 fraction bits, so every stage is
//! an exact integer function of its inputs.

pub mod camera;
pub mod clip;
pub mod fx;
pub mod light;
pub mod math;
pub mod model;
pub mod render;
pub mod scene;
pub mod shader;
pub mod texture;
pub mod transform;
