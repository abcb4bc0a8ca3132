//! The slab test for an axis-aligned box.
//!
//! A box is the overlap of three slabs, one per axis, each the space
//! between two parallel planes. A ray is inside a slab for one stretch of
//! time; it hits the box if the three stretches overlap, and enters the box
//! when it has entered the last of the slabs. The caller works out, for each
//! axis, when the ray crosses the two planes; what follows from those times
//! is decided here.
use vstd::prelude::*;
use crate::scalar::Scalar;

verus! {

/// One axis of the slab test: the ray and the box along that axis, and the
/// times at which the ray crosses the box's two planes there.
#[derive(Clone, Copy, Debug)]
pub struct Slab {
    /// The component of the ray's direction along the axis.
    pub direction: Scalar,
    /// The coordinate of the ray's origin on the axis.
    pub origin: Scalar,
    /// The coordinate of the box's lower corner on the axis.
    pub lower: Scalar,
    /// The coordinate of the box's upper corner on the axis.
    pub upper: Scalar,
    /// When the ray crosses the plane through the lower corner:
    /// `(lower - origin) / direction`.
    pub t_lower: Scalar,
    /// When the ray crosses the plane through the upper corner:
    /// `(upper - origin) / direction`.
    pub t_upper: Scalar,
}

/// A stretch of time, from `near` to `far`.
#[derive(Clone, Copy, Debug)]
pub struct Interval {
    pub near: Scalar,
    pub far: Scalar,
}

impl Slab {
    /// Whether the ray runs along the slab without ever being in it: it is
    /// exactly parallel to the planes and starts outside them.
    pub open spec fn spec_is_missed_in_parallel(self) -> bool {
        self.direction.equals(Scalar::zero()) && (self.origin.less_than(self.lower)
            || self.upper.less_than(self.origin))
    }

    /// When the ray enters the slab: the earlier of the two crossings.
    pub open spec fn spec_entry(self) -> Scalar {
        if self.t_lower.greater_than(self.t_upper) {
            self.t_upper
        } else {
            self.t_lower
        }
    }

    /// When the ray leaves the slab: the later of the two crossings.
    pub open spec fn spec_exit(self) -> Scalar {
        if self.t_lower.greater_than(self.t_upper) {
            self.t_lower
        } else {
            self.t_upper
        }
    }

    /// Whether every one of the slab's two crossing times is a number.
    pub open spec fn has_crossing_times(self) -> bool {
        !self.t_lower.is_nan() && !self.t_upper.is_nan()
    }

    /// Whether the ray runs along the slab without ever being in it.
    #[verifier::when_used_as_spec(spec_is_missed_in_parallel)]
    pub fn is_missed_in_parallel(self) -> (missed: bool)
        ensures
            missed == self.spec_is_missed_in_parallel(),
    {
        self.direction.equals(Scalar::zero()) && (self.origin.less_than(self.lower)
            || self.upper.less_than(self.origin))
    }

    /// When the ray enters the slab.
    #[verifier::when_used_as_spec(spec_entry)]
    pub fn entry(self) -> (t: Scalar)
        ensures
            t == self.spec_entry(),
    {
        if self.t_lower.greater_than(self.t_upper) {
            self.t_upper
        } else {
            self.t_lower
        }
    }

    /// When the ray leaves the slab.
    #[verifier::when_used_as_spec(spec_exit)]
    pub fn exit(self) -> (t: Scalar)
        ensures
            t == self.spec_exit(),
    {
        if self.t_lower.greater_than(self.t_upper) {
            self.t_lower
        } else {
            self.t_upper
        }
    }
}

/// All of time: the stretch that the slab test starts from.
pub open spec fn all_time() -> Interval {
    Interval { near: Scalar::neg_infinity(), far: Scalar::infinity() }
}

/// The stretch of time that is left of `window` once the ray must also be
/// inside `slab`, or `None` if the ray cannot hit the box: it misses the
/// slab in parallel, or it has left one slab before it enters another, or
/// what is left lies wholly behind the ray's origin.
pub open spec fn narrowed(window: Option<Interval>, slab: Slab) -> Option<Interval> {
    match window {
        None => None,
        Some(w) => if slab.is_missed_in_parallel() {
            None
        } else {
            let near = if slab.entry().greater_than(w.near) {
                slab.entry()
            } else {
                w.near
            };
            let far = if slab.exit().less_than(w.far) {
                slab.exit()
            } else {
                w.far
            };
            if near.greater_than(far) || far.less_than(Scalar::zero()) {
                None
            } else {
                Some(Interval { near, far })
            }
        },
    }
}

/// When a ray enters the box whose three slabs are `x`, `y` and `z`, or
/// `None` if it does not hit the box.
pub open spec fn spec_intersection_time(x: Slab, y: Slab, z: Slab) -> Option<Scalar> {
    match narrowed(narrowed(narrowed(Some(all_time()), x), y), z) {
        Some(w) => Some(w.near),
        None => None,
    }
}

/// Narrows `window` to the time that the ray spends inside `slab` as well.
pub fn narrow(window: Interval, slab: Slab) -> (rest: Option<Interval>)
    ensures
        rest == narrowed(Some(window), slab),
{
    if slab.is_missed_in_parallel() {
        return None;
    }
    let t1 = slab.entry();
    let t2 = slab.exit();
    let near = if t1.greater_than(window.near) {
        t1
    } else {
        window.near
    };
    let far = if t2.less_than(window.far) {
        t2
    } else {
        window.far
    };
    if near.greater_than(far) || far.less_than(Scalar::zero()) {
        None
    } else {
        Some(Interval { near, far })
    }
}

/// When a ray enters the box whose three slabs are `x`, `y` and `z`, or
/// `None` if it does not hit the box. The ray's direction must have unit
/// length for the result to be a distance.
#[verifier::when_used_as_spec(spec_intersection_time)]
pub fn intersection_time(x: Slab, y: Slab, z: Slab) -> (time: Option<Scalar>)
    ensures
        time == spec_intersection_time(x, y, z),
{
    let start = Interval { near: Scalar::neg_infinity(), far: Scalar::infinity() };
    let after_x = match narrow(start, x) {
        Some(w) => w,
        None => {
            return None;
        },
    };
    let after_y = match narrow(after_x, y) {
        Some(w) => w,
        None => {
            return None;
        },
    };
    match narrow(after_y, z) {
        Some(w) => Some(w.near),
        None => None,
    }
}

/// A hit is a time at which the ray is inside all three slabs, and the
/// time reported is the first such time: it is at or after each slab's
/// entry and at or before each slab's exit, it is itself the entry into one
/// of the slabs (or the start of time, if the ray has been in all of them
/// for ever), and no slab is left before the ray's origin.
pub proof fn hit_is_latest_entry(x: Slab, y: Slab, z: Slab, t: Scalar)
    requires
        x.has_crossing_times(),
        y.has_crossing_times(),
        z.has_crossing_times(),
        spec_intersection_time(x, y, z) == Some(t),
    ensures
        x.entry().at_most(t) && t.at_most(x.exit()) && Scalar::zero().at_most(x.exit()),
        y.entry().at_most(t) && t.at_most(y.exit()) && Scalar::zero().at_most(y.exit()),
        z.entry().at_most(t) && t.at_most(z.exit()) && Scalar::zero().at_most(z.exit()),
        t == Scalar::neg_infinity() || t == x.entry() || t == y.entry() || t == z.entry(),
        !x.is_missed_in_parallel() && !y.is_missed_in_parallel() && !z.is_missed_in_parallel(),
{
}

/// Whenever there is a time at which the ray is inside all three slabs,
/// none of which it leaves before its origin or misses in parallel, the box
/// is reported as hit.
pub proof fn overlapping_slabs_are_hit(x: Slab, y: Slab, z: Slab, t: Scalar)
    requires
        x.has_crossing_times(),
        y.has_crossing_times(),
        z.has_crossing_times(),
        !x.is_missed_in_parallel() && !y.is_missed_in_parallel() && !z.is_missed_in_parallel(),
        x.entry().at_most(t) && t.at_most(x.exit()) && Scalar::zero().at_most(x.exit()),
        y.entry().at_most(t) && t.at_most(y.exit()) && Scalar::zero().at_most(y.exit()),
        z.entry().at_most(t) && t.at_most(z.exit()) && Scalar::zero().at_most(z.exit()),
    ensures
        spec_intersection_time(x, y, z) is Some,
{
}

} // verus!
