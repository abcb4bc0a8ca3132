//! When a vector has a direction, and when it counts as a unit vector.
use vstd::arithmetic::power2::{lemma2_to64, lemma_pow2_adds, lemma_pow2_pos, pow2};
use vstd::prelude::*;
use crate::scalar::{distance_grows_with_magnitude, Scalar};

verus! {

/// The encoding of a millionth: a vector must be longer than this to be
/// normalized.
pub const MIN_LENGTH_FOR_NORMALIZATION_BITS: u32 = 0x3586_37bd;

/// The encoding of a millionth: a unit vector's length is nearer to one
/// than this.
pub const NORMALIZED_EPS_BITS: u32 = 0x3586_37bd;

/// The length that a vector must exceed to be normalized.
pub open spec fn min_length_for_normalization() -> Scalar {
    Scalar { bits: MIN_LENGTH_FOR_NORMALIZATION_BITS }
}

/// The bound on how far a unit vector's length is from one.
pub open spec fn normalized_eps() -> Scalar {
    Scalar { bits: NORMALIZED_EPS_BITS }
}

/// Whether a vector of the given length has a direction that can be
/// derived from it: the length is a number above a millionth.
pub open spec fn spec_can_normalize(length: Scalar) -> bool {
    length.greater_than(min_length_for_normalization())
}

/// Whether a length that differs from one by `deviation` (the length minus
/// one) is that of a unit vector: the deviation is within a millionth,
/// either way.
pub open spec fn spec_is_normalized(deviation: Scalar) -> bool {
    deviation.absolute().less_than(normalized_eps())
}

/// Whether a vector of the given length can be normalized. A vector whose
/// length is at most a millionth, or is no number, cannot: no direction can
/// be derived from it.
#[verifier::when_used_as_spec(spec_can_normalize)]
pub fn can_normalize(length: Scalar) -> (ok: bool)
    ensures
        ok == spec_can_normalize(length),
        length.at_most(min_length_for_normalization()) ==> !ok,
        length.is_nan() ==> !ok,
{
    length.greater_than(Scalar::from_bits(MIN_LENGTH_FOR_NORMALIZATION_BITS))
}

/// Whether a vector whose length minus one is `deviation` counts as a unit
/// vector.
#[verifier::when_used_as_spec(spec_is_normalized)]
pub fn is_normalized(deviation: Scalar) -> (unit: bool)
    ensures
        unit == spec_is_normalized(deviation),
        unit == (deviation.less_than(normalized_eps())
            && deviation.greater_than(normalized_eps().negated())),
{
    deviation.absolute().less_than(Scalar::from_bits(NORMALIZED_EPS_BITS))
}

/// How far `steps`, a number in steps of two to the minus 149th, is from a
/// millionth, in millionths of a step.
pub open spec fn distance_from_a_millionth(steps: int) -> int {
    if 1_000_000 * steps >= pow2(149) {
        1_000_000 * steps - pow2(149)
    } else {
        pow2(149) - 1_000_000 * steps
    }
}

/// The threshold is a millionth as nearly as binary32 can say it: no finite
/// number is nearer to a millionth than the one that the threshold encodes.
pub proof fn threshold_is_nearest_to_a_millionth(other: Scalar)
    requires
        other.is_finite(),
    ensures
        min_length_for_normalization().is_finite(),
        distance_from_a_millionth(min_length_for_normalization().value_in_steps())
            <= distance_from_a_millionth(other.value_in_steps()),
        NORMALIZED_EPS_BITS == MIN_LENGTH_FOR_NORMALIZATION_BITS,
{
    let below = min_length_for_normalization();
    let above = Scalar { bits: (MIN_LENGTH_FOR_NORMALIZATION_BITS + 1) as u32 };
    let unit = pow2(106) as int;
    let one = pow2(149) as int;
    assert(below.exponent_field() == 107 && below.fraction_field() == 407485);
    assert(above.exponent_field() == 107 && above.fraction_field() == 407486);
    assert(one == 8796093022208 * unit && unit > 0) by {
        lemma2_to64();
        lemma_pow2_adds(32, 11);
        lemma_pow2_adds(43, 106);
        lemma_pow2_pos(106);
    }
    let nearest = below.value_in_steps();
    let value = other.value_in_steps();
    assert(nearest == 8796093 * unit);
    assert(value <= 8796093 * unit || value >= 8796094 * unit) by {
        if !other.sign() {
            if other.magnitude() < below.magnitude() {
                distance_grows_with_magnitude(other, below);
            } else if other.magnitude() > above.magnitude() {
                distance_grows_with_magnitude(above, other);
            }
        }
    }
    // The threshold is 22208 parts in 8796093022208 short of a millionth;
    // its upper neighbour is 977792 parts beyond.
    assert(one - 1_000_000 * nearest == 22208 * unit) by (nonlinear_arith)
        requires
            nearest == 8796093 * unit,
            one == 8796093022208 * unit,
    ;
    assert(one - 1_000_000 * value >= 22208 * unit || 1_000_000 * value - one >= 22208 * unit)
        by (nonlinear_arith)
        requires
            value <= 8796093 * unit || value >= 8796094 * unit,
            one == 8796093022208 * unit,
            unit > 0,
    ;
}

} // verus!
