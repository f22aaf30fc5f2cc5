//! The stylized material model: plain data carried by every shape and
//! snapshotted into each hit record.

use crate::fx::FX_ONE;
use crate::vec::Fx3;
use vstd::prelude::*;

verus! {

/// Surface material: albedo color, roughness and specular chance in [0, 1],
/// non-negative emission strength with its own color.
#[derive(Clone, Copy, PartialEq, Eq, Structural, Debug)]
pub struct Mat {
    pub albedo: Fx3,
    pub roughness: i64,
    pub specular_chance: i64,
    pub emission: i64,
    pub emission_color: Fx3,
}

impl Mat {
    /// The stated range of each material parameter.
    pub open spec fn wf(self) -> bool {
        &&& 0 <= self.roughness <= FX_ONE
        &&& 0 <= self.specular_chance <= FX_ONE
        &&& 0 <= self.emission
    }
}

impl Default for Mat {
    /// A black, perfectly smooth, non-emissive material.
    fn default() -> (r: Mat)
        ensures
            r == (Mat {
                albedo: Fx3 { x: 0, y: 0, z: 0 },
                roughness: 0,
                specular_chance: 0,
                emission: 0,
                emission_color: Fx3 { x: 0, y: 0, z: 0 },
            }),
            r.wf(),
    {
        Mat {
            albedo: Fx3 { x: 0, y: 0, z: 0 },
            roughness: 0,
            specular_chance: 0,
            emission: 0,
            emission_color: Fx3 { x: 0, y: 0, z: 0 },
        }
    }
}

} // verus!
