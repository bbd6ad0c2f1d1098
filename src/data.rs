use vstd::prelude::*;

verus! {

/// A pair of unsigned integers: a pixel position or a screen size.
#[derive(Clone, Copy, Debug, PartialEq, Eq, Structural)]
pub struct UVec2 {
    pub x: u32,
    pub y: u32,
}

/// A triple of unsigned integers: a pixel position with a frame seed as its
/// third coordinate.
#[derive(Clone, Copy, Debug, PartialEq, Eq, Structural)]
pub struct UVec3 {
    pub x: u32,
    pub y: u32,
    pub z: u32,
}

/// The side of a surface that a ray meets.
#[derive(Clone, Copy, Debug, PartialEq, Eq, Structural, Default)]
pub enum Face {
    /// The ray arrives against the outward normal.
    #[default]
    Front,
    /// The ray arrives from inside the surface.
    Back,
}

} // verus!
