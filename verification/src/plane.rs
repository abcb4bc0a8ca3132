//! When a ray has no intersection with a plane.
use vstd::prelude::*;
use crate::scalar::Scalar;

verus! {

/// Whether a ray is taken to run in the plane, so that no single time of
/// intersection exists: the plane's equation, evaluated at the ray's origin
/// (`normal . origin + d`), is exactly zero.
pub open spec fn spec_lies_in_plane(offset: Scalar) -> bool {
    offset.equals(Scalar::zero())
}

/// Whether a ray is taken to run in the plane. `offset` is the plane's
/// equation evaluated at the ray's origin, of either sign. Every other ray
/// has an intersection time, which may lie behind the origin.
#[verifier::when_used_as_spec(spec_lies_in_plane)]
pub fn lies_in_plane(offset: Scalar) -> (degenerate: bool)
    ensures
        degenerate == spec_lies_in_plane(offset),
        degenerate == offset.negated().equals(Scalar::zero()),
{
    offset.equals(Scalar::zero())
}

} // verus!
