//! Light sources. The only variant today is a point light with a position,
//! a color, and a scalar strength.

use crate::vec::{spec_v3_scale, Fx3};
use vstd::prelude::*;

verus! {

/// A point light.
#[derive(Clone, Copy, PartialEq, Eq, Structural, Debug)]
pub struct Point {
    pub position: Fx3,
    pub color: Fx3,
    pub strength: i64,
}

impl Point {
    /// Build a point light from its fields.
    pub fn new(position: Fx3, color: Fx3, strength: i64) -> (r: Point)
        ensures
            r == (Point { position, color, strength }),
    {
        Point { position, color, strength }
    }
}

/// A tagged light variant.
#[derive(Clone, Copy, PartialEq, Eq, Structural, Debug)]
pub enum Light {
    Point(Point),
}

/// The radiance a light emits: its color scaled by its strength.
pub open spec fn spec_light_sample(l: Light) -> Fx3 {
    match l {
        Light::Point(p) => spec_v3_scale(p.color, p.strength),
    }
}

/// The position a light illuminates from.
pub open spec fn spec_light_pos(l: Light) -> Fx3 {
    match l {
        Light::Point(p) => p.position,
    }
}

impl Default for Light {
    /// A point light at the origin with zero color and strength.
    fn default() -> (r: Light)
        ensures
            r == Light::Point(
                Point {
                    position: Fx3 { x: 0, y: 0, z: 0 },
                    color: Fx3 { x: 0, y: 0, z: 0 },
                    strength: 0,
                },
            ),
    {
        Light::Point(
            Point {
                position: Fx3 { x: 0, y: 0, z: 0 },
                color: Fx3 { x: 0, y: 0, z: 0 },
                strength: 0,
            },
        )
    }
}

impl Light {
    /// The radiance this light emits.
    pub fn sample(&self) -> (r: Fx3)
        ensures
            r == spec_light_sample(*self),
    {
        match self {
            Light::Point(p) => p.color.scale(p.strength),
        }
    }

    /// The position this light illuminates from.
    pub fn get_pos(&self) -> (r: Fx3)
        ensures
            r == spec_light_pos(*self),
    {
        match self {
            Light::Point(p) => p.position,
        }
    }
}

} // verus!
