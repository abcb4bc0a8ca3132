//! What a light without area gives to a surface, and when it is hidden.
//!
//! Two kinds of light are known: a directional light, infinitely far away,
//! and a point light at a position. The cosine between the surface normal
//! and the direction to the light, and the distances, are the caller's to
//! compute; how they are clamped, and when an occluder hides the light, is
//! decided here.
use vstd::prelude::*;
use crate::scalar::Scalar;

verus! {

/// The share of a light's radiance that reaches a surface, by Lambert's
/// cosine law: the cosine itself where the surface faces the light, and
/// zero where the light is at or below the surface's horizon.
pub open spec fn spec_lambert_factor(cosine: Scalar) -> Scalar {
    if cosine.greater_than(Scalar::zero()) {
        cosine
    } else {
        Scalar::zero()
    }
}

/// What a point light's intensity is divided by at a squared distance:
/// the squared distance itself from distance one on, and one inside that,
/// so that the light does not grow without bound near its position.
pub open spec fn spec_falloff_divisor(sqrd_distance: Scalar) -> Scalar {
    if sqrd_distance.greater_than(Scalar::one()) {
        sqrd_distance
    } else {
        Scalar::one()
    }
}

/// Whether a directional light is hidden from a point, given the time of
/// the first hit along the vector to the light, if there is one. The light
/// is infinitely far away, so anything that is hit hides it.
pub open spec fn spec_directional_is_hidden(first_hit: Option<Scalar>) -> bool {
    first_hit is Some
}

/// Whether a point light at the given distance is hidden from a point,
/// given the time of the first hit along the vector to the light, if there
/// is one. An occluder hides the light if it lies before the light, not at
/// it or beyond it.
pub open spec fn spec_point_is_hidden(distance: Scalar, first_hit: Option<Scalar>) -> bool {
    match first_hit {
        Some(hit) => hit.less_than(distance),
        None => false,
    }
}

/// The factor by which a light's radiance is scaled at a surface whose
/// normal makes the given cosine with the direction to the light.
///
/// The factor is positive zero whenever the cosine is not above zero: a
/// light at or below the horizon contributes nothing. A cosine that is no
/// number counts as such.
#[verifier::when_used_as_spec(spec_lambert_factor)]
pub fn lambert_factor(cosine: Scalar) -> (factor: Scalar)
    ensures
        factor == spec_lambert_factor(cosine),
        cosine.at_most(Scalar::zero()) ==> factor == Scalar::zero(),
        cosine.greater_than(Scalar::zero()) ==> factor == cosine,
        !factor.is_nan() && Scalar::zero().at_most(factor),
{
    if cosine.greater_than(Scalar::zero()) {
        cosine
    } else {
        Scalar::zero()
    }
}

/// The number by which a point light's intensity is divided at the given
/// squared distance from it.
///
/// From distance one on this is the squared distance, which gives the
/// inverse-square law; nearer than that it is one, which caps the light.
#[verifier::when_used_as_spec(spec_falloff_divisor)]
pub fn falloff_divisor(sqrd_distance: Scalar) -> (divisor: Scalar)
    ensures
        divisor == spec_falloff_divisor(sqrd_distance),
        sqrd_distance.at_least(Scalar::one()) ==> divisor.equals(sqrd_distance),
        sqrd_distance.less_than(Scalar::one()) ==> divisor == Scalar::one(),
        !divisor.is_nan() && Scalar::one().at_most(divisor),
{
    if sqrd_distance.greater_than(Scalar::one()) {
        sqrd_distance
    } else {
        Scalar::one()
    }
}

/// Whether a directional light is hidden from a point.
#[verifier::when_used_as_spec(spec_directional_is_hidden)]
pub fn directional_is_hidden(first_hit: Option<Scalar>) -> (hidden: bool)
    ensures
        hidden == spec_directional_is_hidden(first_hit),
{
    first_hit.is_some()
}

/// Whether a point light at the given distance is hidden from a point.
#[verifier::when_used_as_spec(spec_point_is_hidden)]
pub fn point_is_hidden(distance: Scalar, first_hit: Option<Scalar>) -> (hidden: bool)
    ensures
        hidden == spec_point_is_hidden(distance, first_hit),
{
    match first_hit {
        Some(hit) => hit.less_than(distance),
        None => false,
    }
}

/// An occluder that is hit before the light is reached hides a point light;
/// one that is hit at the light's distance or beyond it does not, and
/// neither does the absence of any hit.
pub proof fn point_light_is_hidden_only_from_before(distance: Scalar, hit: Scalar)
    requires
        !distance.is_nan(),
        !hit.is_nan(),
    ensures
        hit.rank() < distance.rank() ==> point_is_hidden(distance, Some(hit)),
        hit.rank() >= distance.rank() ==> !point_is_hidden(distance, Some(hit)),
        !point_is_hidden(distance, None),
{
}

} // verus!
