//! The scene's global light.

use vstd::prelude::*;
use crate::fixed::{Vec3, Vec4};

verus! {

/// The global light colour, the ambient light colour and the global light direction.
#[derive(Clone, Copy, Debug, PartialEq, Eq, Structural)]
pub struct Lighting {
    pub global: Vec3,
    pub ambient: Vec3,
    pub global_direction: Vec4,
}

impl Lighting {
    /// A light with the given global colour, ambient colour and direction.
    pub fn new(global: &Vec3, ambient: &Vec3, global_direction: &Vec4) -> (r: Lighting)
        ensures
            r == (Lighting { global: *global, ambient: *ambient, global_direction: *global_direction }),
    {
        Lighting { global: *global, ambient: *ambient, global_direction: *global_direction }
    }

    /// Another light with the given global colour, ambient colour and direction.
    pub fn update(&self, global: &Vec3, ambient: &Vec3, global_direction: &Vec4) -> (r: Lighting)
        ensures
            r == (Lighting { global: *global, ambient: *ambient, global_direction: *global_direction }),
    {
        Lighting::new(global, ambient, global_direction)
    }
}

} // verus!
