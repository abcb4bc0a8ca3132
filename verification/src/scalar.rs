//! Single-precision numbers as the tracer's decisions see them.
//!
//! Every branch the tracer takes is an order question about
//! single-precision numbers: is this hit nearer than that one, is this
//! length long enough, is this pivot zero. The arithmetic that produces the
//! numbers is the caller's business; this module answers the order
//! questions, on the 32 bits of the IEEE 754 binary32 encoding, and proves
//! the answers against an integer rank that grows exactly as the encoded
//! number does.
use vstd::arithmetic::power2::{
    lemma2_to64, lemma_pow2_adds, lemma_pow2_pos, lemma_pow2_strictly_increases, lemma_pow2_unfold,
    pow2,
};
use vstd::prelude::*;

verus! {

/// The bit that binary32 sets for numbers below zero and for negative zero.
pub const SIGN_BIT: u32 = 0x8000_0000;

/// The encoding of positive infinity. A larger magnitude encodes no number.
pub const INFINITY_BITS: u32 = 0x7f80_0000;

/// The encoding of the number one.
pub const ONE_BITS: u32 = 0x3f80_0000;

/// How many fractions binary32 tells apart between one power of two and
/// the next: two to the 23rd.
pub const FRACTIONS: u32 = 0x80_0000;

/// A single-precision number, held as the 32 bits of its binary32 encoding.
///
/// Callers make one with the bits that their number converts to, and turn
/// the bits of a result back into a number; no bit pattern is invalid.
#[derive(Clone, Copy, Debug)]
pub struct Scalar {
    pub bits: u32,
}

impl Scalar {
    /// The encoding with the sign bit cleared.
    pub open spec fn magnitude(self) -> nat {
        if self.bits >= SIGN_BIT {
            (self.bits - SIGN_BIT) as nat
        } else {
            self.bits as nat
        }
    }

    /// Whether the sign bit is set.
    pub open spec fn sign(self) -> bool {
        self.bits >= SIGN_BIT
    }

    /// Where the number stands on the number line, as an integer: the
    /// magnitude, counted downwards from zero where the sign bit is set. Of
    /// two numbers the lower one has the lower rank, and both zeros have
    /// rank zero; see [`rank_orders_by_value`].
    pub open spec fn rank(self) -> int {
        if self.sign() {
            -(self.magnitude() as int)
        } else {
            self.magnitude() as int
        }
    }

    /// Whether the encoding is that of a finite number.
    pub open spec fn is_finite(self) -> bool {
        self.magnitude() < INFINITY_BITS
    }

    /// The exponent field of the encoding: its bits 23 to 30.
    pub open spec fn exponent_field(self) -> nat {
        self.magnitude() / (FRACTIONS as nat)
    }

    /// The fraction field of the encoding: its lowest 23 bits.
    pub open spec fn fraction_field(self) -> nat {
        self.magnitude() % (FRACTIONS as nat)
    }

    /// How far a finite number is from zero, counted in steps of two to
    /// the minus 149th, the smallest distance that binary32 tells from
    /// zero. With exponent field zero the number is its fraction field in
    /// steps; with exponent field `e` it is `(2^23 + fraction) * 2^(e - 1)`
    /// steps. This is what IEEE 754 defines the encoding to mean.
    pub open spec fn distance_in_steps(self) -> nat {
        if self.exponent_field() == 0 {
            self.fraction_field()
        } else {
            ((FRACTIONS + self.fraction_field()) * pow2((self.exponent_field() - 1) as nat)) as nat
        }
    }

    /// The finite number that the encoding stands for, in steps of two to
    /// the minus 149th.
    pub open spec fn value_in_steps(self) -> int {
        if self.sign() {
            -(self.distance_in_steps() as int)
        } else {
            self.distance_in_steps() as int
        }
    }

    /// Whether the encoding is no number at all: its magnitude lies beyond
    /// that of infinity.
    pub open spec fn spec_is_nan(self) -> bool {
        self.magnitude() > INFINITY_BITS
    }

    /// Whether both are numbers and `self` is the lower one.
    pub open spec fn spec_less_than(self, other: Scalar) -> bool {
        !self.is_nan() && !other.is_nan() && self.rank() < other.rank()
    }

    /// Whether both are numbers and `self` is not the higher one.
    pub open spec fn spec_at_most(self, other: Scalar) -> bool {
        !self.is_nan() && !other.is_nan() && self.rank() <= other.rank()
    }

    /// Whether both are numbers, and the same number. The two zeros are.
    pub open spec fn spec_equals(self, other: Scalar) -> bool {
        !self.is_nan() && !other.is_nan() && self.rank() == other.rank()
    }

    /// Whether both are numbers and `self` is the higher one.
    pub open spec fn spec_greater_than(self, other: Scalar) -> bool {
        other.less_than(self)
    }

    /// Whether both are numbers and `self` is not the lower one.
    pub open spec fn spec_at_least(self, other: Scalar) -> bool {
        other.at_most(self)
    }

    /// Whether the number is zero, of either sign.
    pub open spec fn spec_is_zero(self) -> bool {
        self.magnitude() == 0
    }

    /// The encoding with its sign bit flipped.
    pub open spec fn spec_negated(self) -> Scalar {
        if self.bits >= SIGN_BIT {
            Scalar { bits: (self.bits - SIGN_BIT) as u32 }
        } else {
            Scalar { bits: (self.bits + SIGN_BIT) as u32 }
        }
    }

    /// The encoding with its sign bit cleared.
    pub open spec fn spec_absolute(self) -> Scalar {
        Scalar { bits: self.magnitude() as u32 }
    }

    /// Positive zero.
    pub open spec fn spec_zero() -> Scalar {
        Scalar { bits: 0 }
    }

    /// The number one.
    pub open spec fn spec_one() -> Scalar {
        Scalar { bits: ONE_BITS }
    }

    /// Positive infinity.
    pub open spec fn spec_infinity() -> Scalar {
        Scalar { bits: INFINITY_BITS }
    }

    /// Negative infinity.
    pub open spec fn spec_neg_infinity() -> Scalar {
        Scalar { bits: (INFINITY_BITS + SIGN_BIT) as u32 }
    }

    /// Positive zero.
    #[verifier::when_used_as_spec(spec_zero)]
    pub fn zero() -> (s: Scalar)
        ensures
            s == Scalar::spec_zero(),
    {
        Scalar { bits: 0 }
    }

    /// The number one.
    #[verifier::when_used_as_spec(spec_one)]
    pub fn one() -> (s: Scalar)
        ensures
            s == Scalar::spec_one(),
    {
        Scalar { bits: ONE_BITS }
    }

    /// Positive infinity.
    #[verifier::when_used_as_spec(spec_infinity)]
    pub fn infinity() -> (s: Scalar)
        ensures
            s == Scalar::spec_infinity(),
    {
        Scalar { bits: INFINITY_BITS }
    }

    /// Negative infinity.
    #[verifier::when_used_as_spec(spec_neg_infinity)]
    pub fn neg_infinity() -> (s: Scalar)
        ensures
            s == Scalar::spec_neg_infinity(),
    {
        Scalar { bits: INFINITY_BITS + SIGN_BIT }
    }

    /// The number that `bits` encodes.
    pub fn from_bits(bits: u32) -> (s: Scalar)
        ensures
            s.bits == bits,
    {
        Scalar { bits }
    }

    /// The encoding of the number.
    pub fn to_bits(self) -> (bits: u32)
        ensures
            bits == self.bits,
    {
        self.bits
    }

    /// The encoding without its sign bit, as a machine integer.
    fn magnitude_bits(self) -> (m: u32)
        ensures
            m == self.magnitude(),
            m < SIGN_BIT,
    {
        if self.bits >= SIGN_BIT {
            self.bits - SIGN_BIT
        } else {
            self.bits
        }
    }

    /// Whether the encoding is no number at all.
    #[verifier::when_used_as_spec(spec_is_nan)]
    pub fn is_nan(self) -> (r: bool)
        ensures
            r == self.spec_is_nan(),
    {
        self.magnitude_bits() > INFINITY_BITS
    }

    /// `self < other` as IEEE 754 orders numbers: false whenever either
    /// side is no number, and neither zero is below the other.
    #[verifier::when_used_as_spec(spec_less_than)]
    pub fn less_than(self, other: Scalar) -> (r: bool)
        ensures
            r == self.spec_less_than(other),
    {
        if self.is_nan() || other.is_nan() {
            return false;
        }
        let a: u32 = self.magnitude_bits();
        let b: u32 = other.magnitude_bits();
        if self.bits >= SIGN_BIT {
            if other.bits >= SIGN_BIT {
                b < a
            } else {
                a > 0 || b > 0
            }
        } else {
            other.bits < SIGN_BIT && a < b
        }
    }

    /// `self == other` as IEEE 754 compares numbers: false whenever either
    /// side is no number, and the two zeros are equal.
    #[verifier::when_used_as_spec(spec_equals)]
    pub fn equals(self, other: Scalar) -> (r: bool)
        ensures
            r == self.spec_equals(other),
    {
        if self.is_nan() || other.is_nan() {
            return false;
        }
        let a: u32 = self.magnitude_bits();
        let b: u32 = other.magnitude_bits();
        (a == 0 && b == 0) || self.bits == other.bits
    }

    /// `self <= other` as IEEE 754 orders numbers.
    #[verifier::when_used_as_spec(spec_at_most)]
    pub fn at_most(self, other: Scalar) -> (r: bool)
        ensures
            r == self.spec_at_most(other),
    {
        self.less_than(other) || self.equals(other)
    }

    /// `self > other` as IEEE 754 orders numbers.
    #[verifier::when_used_as_spec(spec_greater_than)]
    pub fn greater_than(self, other: Scalar) -> (r: bool)
        ensures
            r == self.spec_greater_than(other),
    {
        other.less_than(self)
    }

    /// `self >= other` as IEEE 754 orders numbers.
    #[verifier::when_used_as_spec(spec_at_least)]
    pub fn at_least(self, other: Scalar) -> (r: bool)
        ensures
            r == self.spec_at_least(other),
    {
        other.at_most(self)
    }

    /// Whether the number is zero, of either sign.
    #[verifier::when_used_as_spec(spec_is_zero)]
    pub fn is_zero(self) -> (r: bool)
        ensures
            r == self.spec_is_zero(),
    {
        self.magnitude_bits() == 0
    }

    /// The number with its sign flipped.
    #[verifier::when_used_as_spec(spec_negated)]
    pub fn negated(self) -> (r: Scalar)
        ensures
            r == self.spec_negated(),
    {
        if self.bits >= SIGN_BIT {
            Scalar { bits: self.bits - SIGN_BIT }
        } else {
            Scalar { bits: self.bits + SIGN_BIT }
        }
    }

    /// The number with its sign cleared.
    #[verifier::when_used_as_spec(spec_absolute)]
    pub fn absolute(self) -> (r: Scalar)
        ensures
            r == self.spec_absolute(),
    {
        Scalar { bits: self.magnitude_bits() }
    }
}

/// The larger magnitude encodes the number that is farther from zero.
pub proof fn distance_grows_with_magnitude(a: Scalar, b: Scalar)
    requires
        a.magnitude() < b.magnitude(),
    ensures
        a.distance_in_steps() < b.distance_in_steps(),
{
    let r = FRACTIONS as nat;
    let (ea, fa) = (a.exponent_field(), a.fraction_field());
    let (eb, fb) = (b.exponent_field(), b.fraction_field());
    assert(a.magnitude() == ea * r + fa && fa < r && b.magnitude() == eb * r + fb && fb < r);
    assert(ea <= eb && (ea == eb ==> fa < fb)) by (nonlinear_arith)
        requires
            ea * r + fa < eb * r + fb,
            fa < r,
            fb < r,
    ;
    if eb > 0 {
        let pb = pow2((eb - 1) as nat);
        lemma_pow2_pos((eb - 1) as nat);
        if ea == eb {
            assert((r + fa) * pb < (r + fb) * pb) by (nonlinear_arith)
                requires
                    fa < fb,
                    pb > 0,
            ;
        } else if ea == 0 {
            assert(fa < (r + fb) * pb) by (nonlinear_arith)
                requires
                    fa < r,
                    pb > 0,
            ;
        } else {
            let pa = pow2((ea - 1) as nat);
            lemma_pow2_pos((ea - 1) as nat);
            lemma_pow2_unfold(ea);
            if ea < eb - 1 {
                lemma_pow2_strictly_increases(ea, (eb - 1) as nat);
            }
            assert((r + fa) * pa < (r + fb) * pb) by (nonlinear_arith)
                requires
                    fa < r,
                    pa > 0,
                    2 * pa <= pb,
            ;
        }
    }
}

/// The rank orders the finite numbers as their values do: of two finite
/// numbers the one of lower rank is the lower number, and two of the same
/// rank are the same number. So every comparison that this library makes
/// by rank is the comparison of the two numbers themselves.
pub proof fn rank_orders_by_value(a: Scalar, b: Scalar)
    requires
        a.is_finite(),
        b.is_finite(),
    ensures
        a.less_than(b) == (a.value_in_steps() < b.value_in_steps()),
        a.equals(b) == (a.value_in_steps() == b.value_in_steps()),
        a.at_most(b) == (a.value_in_steps() <= b.value_in_steps()),
{
    if a.magnitude() < b.magnitude() {
        distance_grows_with_magnitude(a, b);
    } else if b.magnitude() < a.magnitude() {
        distance_grows_with_magnitude(b, a);
    }
    let zero = Scalar::zero();
    assert(zero.distance_in_steps() == 0);
    if a.magnitude() > 0 {
        distance_grows_with_magnitude(zero, a);
    }
    if b.magnitude() > 0 {
        distance_grows_with_magnitude(zero, b);
    }
}

/// Every finite number lies between the two infinities, and no finite
/// number or infinity is an encoding that is no number.
pub proof fn infinities_bound_the_numbers(a: Scalar)
    ensures
        a.is_finite() ==> Scalar::neg_infinity().less_than(a) && a.less_than(Scalar::infinity()),
        a.is_finite() ==> !a.is_nan(),
        !Scalar::infinity().is_finite() && !Scalar::infinity().is_nan(),
        !Scalar::neg_infinity().is_finite() && !Scalar::neg_infinity().is_nan(),
        Scalar::neg_infinity() == Scalar::infinity().negated(),
{
}

/// The encodings called zero and one are those of the numbers zero and
/// one: one is two to the 149th steps of two to the minus 149th.
pub proof fn zero_and_one_are_what_they_are_called()
    ensures
        Scalar::zero().is_finite() && Scalar::zero().value_in_steps() == 0,
        Scalar::one().is_finite() && Scalar::one().value_in_steps() == pow2(149),
{
    let one = Scalar::one();
    assert(one.exponent_field() == 127 && one.fraction_field() == 0);
    lemma_pow2_adds(23, 126);
    lemma2_to64();
}

/// No number is below itself, and of two numbers at most one is below the
/// other: what is below is neither equal nor above.
pub proof fn order_is_strict(a: Scalar, b: Scalar)
    ensures
        !a.less_than(a),
        a.less_than(b) ==> !b.less_than(a) && !a.equals(b),
{
}

/// What is below a number is below everything above that number.
pub proof fn order_is_transitive(a: Scalar, b: Scalar, c: Scalar)
    requires
        a.less_than(b),
        b.less_than(c),
    ensures
        a.less_than(c),
{
}

/// Two numbers are always comparable: one is below the other or they are
/// equal. An encoding that is no number compares false with everything,
/// itself included.
pub proof fn order_is_total_on_numbers(a: Scalar, b: Scalar)
    ensures
        !a.is_nan() && !b.is_nan() ==> a.less_than(b) || a.equals(b) || b.less_than(a),
        a.is_nan() || b.is_nan() ==> !a.less_than(b) && !a.equals(b) && !a.at_most(b)
            && !a.greater_than(b) && !a.at_least(b),
{
}

/// Flipping the sign mirrors the number line: it gives the number of the
/// opposite value, it turns the order around, and doing it twice gives the
/// encoding back.
pub proof fn negation_mirrors_order(a: Scalar, b: Scalar)
    ensures
        a.negated().negated() == a,
        a.negated().is_nan() == a.is_nan(),
        a.negated().rank() == -a.rank(),
        a.negated().value_in_steps() == -a.value_in_steps(),
        a.less_than(b) == b.negated().less_than(a.negated()),
{
}

/// Clearing the sign gives the distance from zero: never a number below
/// zero, the number itself where that was not below zero, and its negation
/// where it was.
pub proof fn absolute_is_distance_from_zero(a: Scalar)
    ensures
        a.absolute().is_nan() == a.is_nan(),
        !a.is_nan() ==> Scalar::zero().at_most(a.absolute()),
        a.absolute().rank() == if a.rank() < 0 { -a.rank() } else { a.rank() },
        a.absolute().value_in_steps() == a.distance_in_steps(),
        a.absolute() == if a.sign() { a.negated() } else { a },
{
}

} // verus!
