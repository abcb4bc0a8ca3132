//! What a film and a perspective projection accept.
use vstd::arithmetic::power2::{lemma2_to64, lemma_pow2_adds, pow2};
use vstd::prelude::*;
use crate::scalar::Scalar;

verus! {

/// The encoding of 360, a full turn in degrees.
pub const FULL_TURN_DEGREES_BITS: u32 = 0x43b4_0000;

/// A full turn, in degrees.
pub open spec fn full_turn_degrees() -> Scalar {
    Scalar { bits: FULL_TURN_DEGREES_BITS }
}

/// Whether a film can have the given ratio of width to height: the ratio
/// is a number above zero.
pub open spec fn spec_is_aspect_ratio(ratio: Scalar) -> bool {
    ratio.greater_than(Scalar::zero())
}

/// Whether a film of the given ratio of width to height is wider than it
/// is high, so that its height is the side that spans the screen from -1
/// to 1 and its width the side that is scaled by the ratio.
pub open spec fn spec_is_wide(ratio: Scalar) -> bool {
    ratio.greater_than(Scalar::one())
}

/// Whether a perspective projection can be made with near and far planes
/// at the given distances and the given field of view in degrees:
/// `near > 0`, `far > near` and `0 < fov < 360`.
pub open spec fn spec_projection_accepts(near: Scalar, far: Scalar, fov_degrees: Scalar) -> bool {
    &&& near.greater_than(Scalar::zero())
    &&& far.greater_than(near)
    &&& fov_degrees.greater_than(Scalar::zero())
    &&& fov_degrees.less_than(full_turn_degrees())
}

/// Whether a film can have the given ratio of width to height. A film of
/// no width has none.
#[verifier::when_used_as_spec(spec_is_aspect_ratio)]
pub fn is_aspect_ratio(ratio: Scalar) -> (ok: bool)
    ensures
        ok == spec_is_aspect_ratio(ratio),
{
    ratio.greater_than(Scalar::zero())
}

/// Whether a film of the given ratio of width to height is wider than it
/// is high.
#[verifier::when_used_as_spec(spec_is_wide)]
pub fn is_wide(ratio: Scalar) -> (wide: bool)
    ensures
        wide == spec_is_wide(ratio),
        wide ==> is_aspect_ratio(ratio),
{
    ratio.greater_than(Scalar::one())
}

/// Whether a perspective projection can be made with the given planes and
/// field of view. Making one from parameters that this refuses is an error
/// of the caller.
#[verifier::when_used_as_spec(spec_projection_accepts)]
pub fn projection_accepts(near: Scalar, far: Scalar, fov_degrees: Scalar) -> (ok: bool)
    ensures
        ok == spec_projection_accepts(near, far, fov_degrees),
{
    near.greater_than(Scalar::zero()) && far.greater_than(near) && fov_degrees.greater_than(
        Scalar::zero(),
    ) && fov_degrees.less_than(Scalar::from_bits(FULL_TURN_DEGREES_BITS))
}

/// The bound on the field of view is the number 360.
pub proof fn full_turn_is_360_degrees()
    ensures
        full_turn_degrees().is_finite(),
        full_turn_degrees().value_in_steps() == 360 * pow2(149),
{
    let full_turn = full_turn_degrees();
    assert(full_turn.exponent_field() == 135 && full_turn.fraction_field() == 0x34_0000);
    assert(pow2(149) == 32768 * pow2(134)) by {
        lemma2_to64();
        lemma_pow2_adds(15, 134);
    }
    assert(11796480 * pow2(134) == 360 * (32768 * pow2(134))) by (nonlinear_arith);
}

} // verus!
