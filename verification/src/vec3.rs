//! Three-component vectors as the library moves them.
//!
//! The rendering pipeline consumes 32-bit floating-point components, but
//! this layer never computes with them: it only carries them from the scene
//! to a uniform slot. Each component is therefore held as its IEEE-754 bit
//! pattern, which the unverified boundary converts to and from `f32`.

use vstd::prelude::*;

verus! {

/// A three-component vector; each field is the bit pattern of one
/// single-precision floating-point component.
#[derive(Clone, Copy, Debug, PartialEq, Eq, Structural)]
pub struct Vec3 {
    pub x: u32,
    pub y: u32,
    pub z: u32,
}

impl Vec3 {
    /// Builds a vector from three component bit patterns.
    pub fn new(x: u32, y: u32, z: u32) -> (v: Vec3)
        ensures
            v == (Vec3 { x, y, z }),
    {
        Vec3 { x, y, z }
    }
}

} // verus!
