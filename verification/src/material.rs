//! Shading parameters attached to a surface.

use vstd::prelude::*;
use crate::fx::{Fx, FX_SCALE};
use crate::vec3::{v3_zero, Vec3, Vec3S};

verus! {

/// The model of a material: four albedo weights (diffuse, specular,
/// reflection, refraction), a base color, a specular exponent and a
/// refractive index.
pub ghost struct MaterialS {
    pub albedo: (int, int, int, int),
    pub diffuse_color: Vec3S,
    pub specular_exponent: nat,
    pub refractive_index: int,
}

/// Shading parameters of a surface: never validated, never mutated after
/// construction, copied freely.
#[derive(Clone, Copy, Debug)]
pub struct Material {
    pub albedo: (Fx, Fx, Fx, Fx),
    pub diffuse_color: Vec3,
    pub specular_exponent: u32,
    pub refractive_index: Fx,
}

impl View for Material {
    type V = MaterialS;

    open spec fn view(&self) -> MaterialS {
        MaterialS {
            albedo: (self.albedo.0@, self.albedo.1@, self.albedo.2@, self.albedo.3@),
            diffuse_color: self.diffuse_color@,
            specular_exponent: self.specular_exponent as nat,
            refractive_index: self.refractive_index@,
        }
    }
}

/// The material of the blank default: pure diffuse, black, no shine.
pub open spec fn blank_material() -> MaterialS {
    MaterialS {
        albedo: (FX_SCALE as int, 0, 0, 0),
        diffuse_color: v3_zero(),
        specular_exponent: 0,
        refractive_index: 0,
    }
}

impl Material {
    pub fn new(
        albedo: (Fx, Fx, Fx, Fx),
        diffuse_color: Vec3,
        specular_exponent: u32,
        refractive_index: Fx,
    ) -> (r: Material)
        ensures
            r@.albedo == (albedo.0@, albedo.1@, albedo.2@, albedo.3@),
            r@.diffuse_color == diffuse_color@,
            r@.specular_exponent == specular_exponent as nat,
            r@.refractive_index == refractive_index@,
    {
        Material { albedo, diffuse_color, specular_exponent, refractive_index }
    }

    /// A blank default material: fully diffuse and black.
    pub fn new_blank() -> (r: Material)
        ensures
            r@ == blank_material(),
    {
        Material {
            albedo: (Fx::one(), Fx::zero(), Fx::zero(), Fx::zero()),
            diffuse_color: Vec3::zero(),
            specular_exponent: 0,
            refractive_index: Fx::zero(),
        }
    }
}

} // verus!
