use vstd::prelude::*;

verus! {

/// How a surface scatters the light that reaches it.
#[derive(Clone, Copy, Debug, PartialEq, Eq, Structural, Default)]
pub enum Reflection {
    /// Lambertian scattering around the normal.
    #[default]
    Diffuse,
    /// Mirror reflection, blurred by a fuzz factor.
    Metal,
    /// Dielectric refraction or reflection.
    Glass,
}

} // verus!
