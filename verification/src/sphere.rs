//! Which crossing of a sphere a ray reports.
//!
//! A ray of unit direction passes closest to the sphere's centre at the
//! time `t_closest`, and crosses the surface half a chord before and half a
//! chord after that time. From the squared lengths involved it is decided
//! here whether there is a crossing ahead of the ray at all, and which of
//! the two it is.
use vstd::prelude::*;
use crate::scalar::Scalar;

verus! {

/// What a ray meets of a sphere.
#[derive(Clone, Copy, Debug, PartialEq, Eq)]
pub enum Crossing {
    /// Nothing: the sphere lies behind the ray or beside it.
    Miss,
    /// The near side, from outside: the hit is at `t_closest` minus the
    /// half chord.
    Entry,
    /// The far side, from inside: the hit is at `t_closest` plus the half
    /// chord.
    Exit,
}

/// Whether a point whose squared distance from the centre is
/// `sqrd_distance` lies inside the sphere of squared radius `sqrd_radius`.
pub open spec fn is_inside(sqrd_distance: Scalar, sqrd_radius: Scalar) -> bool {
    sqrd_distance.less_than(sqrd_radius)
}

/// What a ray meets of a sphere, given the squared distance from the ray's
/// origin to the centre, the squared radius, the time of closest approach
/// (the vector from origin to centre, dotted with the direction) and the
/// squared half chord (`sqrd_radius - sqrd_distance + t_closest * t_closest`).
///
/// From outside, a sphere whose closest approach is not ahead of the ray is
/// missed. A negative squared half chord means that the ray passes beside
/// the sphere. Otherwise a ray that starts inside leaves through the far
/// side, and one that starts outside enters through the near side.
pub open spec fn spec_crossing(
    sqrd_distance: Scalar,
    sqrd_radius: Scalar,
    t_closest: Scalar,
    sqrd_half_chord: Scalar,
) -> Crossing {
    if t_closest.at_most(Scalar::zero()) && !is_inside(sqrd_distance, sqrd_radius) {
        Crossing::Miss
    } else if sqrd_half_chord.less_than(Scalar::zero()) {
        Crossing::Miss
    } else if is_inside(sqrd_distance, sqrd_radius) {
        Crossing::Exit
    } else {
        Crossing::Entry
    }
}

/// What a ray meets of a sphere; see [`spec_crossing`] for the arguments.
///
/// In particular a ray that starts outside the sphere and points away from
/// it reports no crossing, whatever the half chord is.
#[verifier::when_used_as_spec(spec_crossing)]
pub fn crossing(
    sqrd_distance: Scalar,
    sqrd_radius: Scalar,
    t_closest: Scalar,
    sqrd_half_chord: Scalar,
) -> (c: Crossing)
    ensures
        c == spec_crossing(sqrd_distance, sqrd_radius, t_closest, sqrd_half_chord),
        !is_inside(sqrd_distance, sqrd_radius) && t_closest.at_most(Scalar::zero()) ==> c
            is Miss,
{
    let inside = sqrd_distance.less_than(sqrd_radius);
    if t_closest.at_most(Scalar::zero()) && !inside {
        Crossing::Miss
    } else if sqrd_half_chord.less_than(Scalar::zero()) {
        Crossing::Miss
    } else if inside {
        Crossing::Exit
    } else {
        Crossing::Entry
    }
}

} // verus!
