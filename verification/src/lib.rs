//! A small recursive ray tracer over a fixed-point number model: spheres and
//! point lights, hard shadows, mirror reflection and dielectric refraction,
//! plus an infinite checkerboard ground plane.

pub mod fx;
pub mod vec3;
pub mod material;
pub mod light;
pub mod sphere;
pub mod trace;
pub mod render;
pub mod laws;
