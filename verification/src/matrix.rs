//! The decisions of matrix inversion and of building a perspective matrix.
//!
//! Inversion is Gauss-Jordan elimination with partial pivoting. At each
//! column the eliminating code hands over the column as it stands and asks
//! which row to pivot on; the answer, and whether the matrix has turned out
//! singular, are decided here.
use vstd::arithmetic::power2::{lemma2_to64, lemma_pow2_adds, pow2};
use vstd::prelude::*;
use crate::scalar::Scalar;

verus! {

/// The encoding of 180, the field of view at which a perspective
/// projection flattens out.
pub const HALF_TURN_DEGREES_BITS: u32 = 0x4334_0000;

/// How much an entry counts as a pivot: its distance from zero, and less
/// than any distance if it is no number.
pub open spec fn weight(entry: Scalar) -> int {
    if entry.is_nan() {
        -1
    } else {
        entry.magnitude() as int
    }
}

/// Whether `row` is the row that elimination pivots on, for a column whose
/// rows from `start` on are still to be eliminated: the first of those rows
/// whose entry is farthest from zero. An entry that is no number is never
/// preferred to a number; if the entry at `start` itself is no number,
/// nothing displaces it.
pub open spec fn is_pivot_row(column: Seq<Scalar>, start: int, row: int) -> bool {
    &&& 0 <= start <= row < column.len()
    &&& column[start].is_nan() ==> row == start
    &&& !column[start].is_nan() ==> {
        &&& forall|j: int| start <= j < column.len() ==> weight(#[trigger] column[j]) <= weight(column[row])
        &&& forall|j: int| start <= j < row ==> weight(#[trigger] column[j]) < weight(column[row])
    }
}

/// A column has one pivot row.
pub proof fn pivot_row_is_unique(column: Seq<Scalar>, start: int, a: int, b: int)
    requires
        is_pivot_row(column, start, a),
        is_pivot_row(column, start, b),
    ensures
        a == b,
{
    if !column[start].is_nan() && a != b {
        if a < b {
            assert(weight(column[a]) < weight(column[b]));
        } else {
            assert(weight(column[b]) < weight(column[a]));
        }
    }
}

/// A column of numbers has a zero pivot exactly if all of it, from `start`
/// on, is zero: partial pivoting reports a matrix as singular only when no
/// row could serve.
pub proof fn zero_pivot_means_zero_column(column: Seq<Scalar>, start: int, row: int)
    requires
        is_pivot_row(column, start, row),
        forall|j: int| start <= j < column.len() ==> !(#[trigger] column[j]).is_nan(),
    ensures
        column[row].is_zero() <==> forall|j: int|
            start <= j < column.len() ==> (#[trigger] column[j]).is_zero(),
{
    if column[row].is_zero() {
        assert forall|j: int| start <= j < column.len() implies (#[trigger] column[j]).is_zero() by {
            assert(weight(column[j]) <= weight(column[row]));
        }
    }
}

/// Chooses the row to pivot on in `column`, among the rows from `start` on,
/// and reports a singular matrix.
///
/// Returns the pivot row, or `None` if the entry in that row is exactly
/// zero, in which case the matrix has no inverse.
pub fn select_pivot(column: &[Scalar], start: usize) -> (pivot: Option<usize>)
    requires
        start < column.len(),
    ensures
        pivot matches Some(row) ==> is_pivot_row(column@, start as int, row as int)
            && !column@[row as int].is_zero(),
        pivot is None ==> exists|row: int|
            is_pivot_row(column@, start as int, row) && column@[row].is_zero(),
{
    let mut row: usize = start;
    let mut i: usize = start + 1;
    while i < column.len()
        invariant
            start <= row < i <= column.len(),
            column@[start as int].is_nan() ==> row == start,
            !column@[start as int].is_nan() ==> !column@[row as int].is_nan(),
            !column@[start as int].is_nan() ==> forall|j: int|
                start <= j < i ==> weight(#[trigger] column@[j]) <= weight(column@[row as int]),
            !column@[start as int].is_nan() ==> forall|j: int|
                start <= j < row ==> weight(#[trigger] column@[j]) < weight(column@[row as int]),
        decreases column.len() - i,
    {
        if column[row].absolute().less_than(column[i].absolute()) {
            row = i;
        }
        i += 1;
    }
    if column[row].is_zero() {
        assert(is_pivot_row(column@, start as int, row as int));
        None
    } else {
        Some(row)
    }
}

/// The field of view, in degrees, at which a perspective projection
/// flattens out.
pub open spec fn half_turn_degrees() -> Scalar {
    Scalar { bits: HALF_TURN_DEGREES_BITS }
}

/// Whether a perspective matrix can be built for a view volume from `near`
/// to `far` with the given field of view in degrees: `0 <= near < far` and
/// `0 < fov < 180`.
pub open spec fn spec_perspective_accepts(near: Scalar, far: Scalar, fov_degrees: Scalar) -> bool {
    &&& Scalar::zero().at_most(near)
    &&& near.less_than(far)
    &&& Scalar::zero().less_than(fov_degrees)
    &&& fov_degrees.less_than(half_turn_degrees())
}

/// Whether a perspective matrix can be built for a view volume from `near`
/// to `far` with the given field of view in degrees. Building one for
/// parameters that this refuses is an error of the caller.
#[verifier::when_used_as_spec(spec_perspective_accepts)]
pub fn perspective_accepts(near: Scalar, far: Scalar, fov_degrees: Scalar) -> (ok: bool)
    ensures
        ok == spec_perspective_accepts(near, far, fov_degrees),
{
    Scalar::zero().at_most(near) && near.less_than(far) && Scalar::zero().less_than(fov_degrees)
        && fov_degrees.less_than(Scalar::from_bits(HALF_TURN_DEGREES_BITS))
}

/// The bound on the field of view is the number 180.
pub proof fn half_turn_is_180_degrees()
    ensures
        half_turn_degrees().is_finite(),
        half_turn_degrees().value_in_steps() == 180 * pow2(149),
{
    let half_turn = half_turn_degrees();
    assert(half_turn.exponent_field() == 134 && half_turn.fraction_field() == 0x34_0000);
    assert(pow2(149) == 65536 * pow2(133)) by {
        lemma2_to64();
        lemma_pow2_adds(16, 133);
    }
    assert(11796480 * pow2(133) == 180 * (65536 * pow2(133))) by (nonlinear_arith);
}

} // verus!
