//! Spheres: which root of the ray equation, if any, is a hit.

use crate::material::Material;
use crate::scalar::Scalar;
use vstd::prelude::*;

verus! {

/// A sphere around `center`. The radius is above zero.
#[derive(Clone, Debug)]
pub struct Sphere {
    pub center: [Scalar; 3],
    pub radius: Scalar,
    pub material: Material,
}

/// The outcome of the quadratic test: a ray hits a sphere when the
/// discriminant of its equation is above zero, so that the ray crosses the
/// surface twice, and the nearer crossing lies in front of the ray's origin.
/// The hit is then at the nearer crossing.
pub open spec fn root_outcome(discriminant: Scalar, nearer_root: Scalar) -> Option<Scalar> {
    if discriminant.spec_is_positive() && nearer_root.spec_is_positive() {
        Some(nearer_root)
    } else {
        None
    }
}

impl Sphere {
    /// The quadratic test. `discriminant` is that of the equation of the ray
    /// and the sphere in the ray parameter, and `nearer_root` the smaller of
    /// its two roots, which is no number when there is none. The result is
    /// the parameter of the hit, or nothing when the ray misses the sphere,
    /// only touches it, or has all of it behind its origin.
    pub fn root_hit(discriminant: Scalar, nearer_root: Scalar) -> (hit: Option<Scalar>)
        ensures
            hit == root_outcome(discriminant, nearer_root),
    {
        if discriminant.is_positive() && nearer_root.is_positive() {
            Some(nearer_root)
        } else {
            None
        }
    }
}

/// A hit on a sphere is always in front of the ray's origin, and a ray whose
/// nearer crossing is in front of its origin always hits.
pub proof fn lemma_sphere_hit_in_front(discriminant: Scalar, nearer_root: Scalar)
    ensures
        root_outcome(discriminant, nearer_root) matches Some(t) ==> t == nearer_root
            && t.spec_is_positive(),
        discriminant.spec_is_positive() && nearer_root.spec_is_positive() ==> root_outcome(
            discriminant,
            nearer_root,
        ) == Some(nearer_root),
        nearer_root.nan() ==> root_outcome(discriminant, nearer_root) is None,
{
}

} // verus!
