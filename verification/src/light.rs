//! Point lights.

use vstd::prelude::*;
use crate::fx::Fx;
use crate::vec3::{Vec3, Vec3S};

verus! {

/// The model of a point light: a position and a scalar intensity.
pub ghost struct LightS {
    pub position: Vec3S,
    pub intensity: int,
}

/// A point light, immutable for the lifetime of a render.
#[derive(Clone, Copy, Debug, PartialEq, Eq, Structural)]
pub struct Light {
    pub position: Vec3,
    pub intensity: Fx,
}

impl View for Light {
    type V = LightS;

    open spec fn view(&self) -> LightS {
        LightS { position: self.position@, intensity: self.intensity@ }
    }
}

impl Light {
    pub fn new(position: Vec3, intensity: Fx) -> (r: Light)
        ensures
            r@.position == position@,
            r@.intensity == intensity@,
    {
        Light { position, intensity }
    }
}

} // verus!
