//! Which entity a ray hits, and how far a traced path is followed.
//!
//! A scene tests a ray against each of its entities in the order in which
//! they were added, and keeps the nearest hit that lies ahead of the ray.
//! Tracing follows the reflected ray from hit to hit and stops when a ray
//! hits nothing or when the budget of bounces is spent.
use vstd::prelude::*;
use crate::light::{spec_directional_is_hidden, spec_point_is_hidden};
use crate::scalar::Scalar;

verus! {

/// The number of bounces that a traced ray may make.
pub const MAX_BOUNCES: u32 = 8;

/// Whether a hit at the given time lies ahead of the ray: the time is a
/// number above zero and below infinity. A hit at the ray's own origin, at
/// time zero, does not count, which keeps a surface from hiding itself.
pub open spec fn is_ahead(time: Scalar) -> bool {
    time.greater_than(Scalar::zero()) && time.less_than(Scalar::infinity())
}

/// Whether an entity's answer is a hit ahead of the ray.
pub open spec fn hits_ahead(answer: Option<Scalar>) -> bool {
    answer matches Some(time) && is_ahead(time)
}

/// Whether entity `k` is the one that the ray hits, going by the first
/// `count` answers only: its hit lies ahead of the ray, no hit ahead of the
/// ray is nearer, and every entity before it with a hit ahead of the ray is
/// farther. Of several entities hit at the same time the first one wins.
pub open spec fn is_nearest_of_first(times: Seq<Option<Scalar>>, count: int, k: int) -> bool {
    &&& 0 <= k < count <= times.len()
    &&& hits_ahead(times[k])
    &&& forall|j: int|
        0 <= j < count && hits_ahead(#[trigger] times[j]) ==> times[k]->0.rank() <= times[j]->0.rank()
    &&& forall|j: int|
        0 <= j < k && hits_ahead(#[trigger] times[j]) ==> times[k]->0.rank() < times[j]->0.rank()
}

/// Whether entity `k` is the one that the ray hits, where `times` holds
/// each entity's answer: the time of its intersection with the ray, or
/// `None` if it has none.
pub open spec fn is_nearest(times: Seq<Option<Scalar>>, k: int) -> bool {
    is_nearest_of_first(times, times.len() as int, k)
}

/// A ray hits at most one entity.
pub proof fn nearest_is_unique(times: Seq<Option<Scalar>>, a: int, b: int)
    requires
        is_nearest(times, a),
        is_nearest(times, b),
    ensures
        a == b,
{
    if a < b {
        assert(times[b]->0.rank() < times[a]->0.rank());
    } else if b < a {
        assert(times[a]->0.rank() < times[b]->0.rank());
    }
}

/// Finds the entity that a ray hits. `times` holds the answer of each
/// entity, in the order in which the entities were added to the scene.
///
/// Returns the index of the entity whose hit is the nearest one ahead of
/// the ray, the first of them if several are equally near, or `None` if no
/// entity has a hit ahead of the ray.
pub fn nearest_hit(times: &[Option<Scalar>]) -> (nearest: Option<usize>)
    ensures
        match nearest {
            Some(k) => is_nearest(times@, k as int),
            None => forall|j: int| 0 <= j < times.len() ==> !hits_ahead(#[trigger] times@[j]),
        },
{
    let mut nearest: Option<usize> = None;
    let mut best_time = Scalar::infinity();
    let mut i: usize = 0;
    while i < times.len()
        invariant
            i <= times.len(),
            match nearest {
                Some(k) => is_nearest_of_first(times@, i as int, k as int) && best_time
                    == times@[k as int]->0,
                None => best_time == Scalar::infinity() && forall|j: int|
                    0 <= j < i ==> !hits_ahead(#[trigger] times@[j]),
            },
        decreases times.len() - i,
    {
        match times[i] {
            Some(time) => {
                if time.less_than(best_time) && time.greater_than(Scalar::zero()) {
                    best_time = time;
                    nearest = Some(i);
                }
            },
            None => {},
        }
        i += 1;
    }
    nearest
}

/// What tracing does with a ray.
#[derive(Clone, Copy, Debug, PartialEq, Eq, Structural)]
pub enum Bounce {
    /// The ray hit nothing: it brings back the background, which is black.
    Background,
    /// The ray hit something, but no bounces are left: the path ends here
    /// and brings back nothing more.
    Exhausted,
    /// The ray hit something: it brings back the light that the hit point
    /// receives, and what a reflected ray brings back with the bounces that
    /// are left.
    Shade { bounces_left: u32 },
}

/// What tracing does with a ray that has `bounces_left` bounces to spend,
/// given whether it hit anything.
pub open spec fn spec_bounce(hit: bool, bounces_left: u32) -> Bounce {
    if !hit {
        Bounce::Background
    } else if bounces_left == 0 {
        Bounce::Exhausted
    } else {
        Bounce::Shade { bounces_left: (bounces_left - 1) as u32 }
    }
}

/// What tracing does with a ray that has `bounces_left` bounces to spend,
/// given whether it hit anything. A ray from the camera starts with
/// [`MAX_BOUNCES`].
#[verifier::when_used_as_spec(spec_bounce)]
pub fn bounce(hit: bool, bounces_left: u32) -> (step: Bounce)
    ensures
        step == spec_bounce(hit, bounces_left),
{
    if !hit {
        Bounce::Background
    } else if bounces_left == 0 {
        Bounce::Exhausted
    } else {
        Bounce::Shade { bounces_left: bounces_left - 1 }
    }
}

/// How many hit points are shaded along a path whose rays, one after the
/// other, hit or miss as `hits` says, when the first ray has `bounces_left`
/// bounces to spend.
pub open spec fn shaded_points(hits: Seq<bool>, bounces_left: u32) -> nat
    decreases hits.len(),
{
    if hits.len() == 0 {
        0
    } else {
        match spec_bounce(hits[0], bounces_left) {
            Bounce::Shade { bounces_left: rest } => 1 + shaded_points(hits.drop_first(), rest),
            _ => 0,
        }
    }
}

/// A traced path shades no more hit points than it has bounces to spend,
/// whatever its rays hit: the budget alone bounds the cost of a trace.
pub proof fn shading_is_bounded(hits: Seq<bool>, bounces_left: u32)
    ensures
        shaded_points(hits, bounces_left) <= bounces_left,
        shaded_points(hits, bounces_left) <= hits.len(),
    decreases hits.len(),
{
    if hits.len() > 0 {
        match spec_bounce(hits[0], bounces_left) {
            Bounce::Shade { bounces_left: rest } => {
                shading_is_bounded(hits.drop_first(), rest);
            },
            _ => {},
        }
    }
}

/// In a scene without entities no ray hits anything, and a ray that hits
/// nothing brings back the background, whatever its budget.
pub proof fn empty_scene_is_background(times: Seq<Option<Scalar>>, bounces_left: u32)
    requires
        times.len() == 0,
    ensures
        forall|k: int| !is_nearest(times, k),
        spec_bounce(false, bounces_left) == Bounce::Background,
{
}

/// What `nearest_hit` reports of a ray, as the time that a light is asked
/// about: the time of the entity found, or nothing.
pub open spec fn first_hit(times: Seq<Option<Scalar>>, nearest: Option<int>) -> Option<Scalar> {
    match nearest {
        Some(k) => times[k],
        None => None,
    }
}

/// Whether `nearest` is what a scan of `times` reports.
pub open spec fn is_scan_result(times: Seq<Option<Scalar>>, nearest: Option<int>) -> bool {
    match nearest {
        Some(k) => is_nearest(times, k),
        None => forall|j: int| 0 <= j < times.len() ==> !hits_ahead(#[trigger] times[j]),
    }
}

/// A point light is hidden exactly by what lies between: asked about the
/// first hit of the shadow ray alone, the light at `distance` is hidden if
/// and only if some entity is hit ahead of the shadow ray and before the
/// light. Entities at the light's distance or beyond it hide nothing.
pub proof fn point_light_is_hidden_by_what_lies_before_it(
    times: Seq<Option<Scalar>>,
    nearest: Option<int>,
    distance: Scalar,
)
    requires
        is_scan_result(times, nearest),
    ensures
        spec_point_is_hidden(distance, first_hit(times, nearest)) <==> exists|j: int|
            0 <= j < times.len() && hits_ahead(#[trigger] times[j]) && times[j]->0.less_than(
                distance,
            ),
{
    if let Some(k) = nearest {
        if exists|j: int|
            0 <= j < times.len() && hits_ahead(#[trigger] times[j]) && times[j]->0.less_than(
                distance,
            ) {
            let j = choose|j: int|
                0 <= j < times.len() && hits_ahead(#[trigger] times[j]) && times[j]->0.less_than(
                    distance,
                );
            assert(times[k]->0.rank() <= times[j]->0.rank());
        }
    }
}

/// A directional light is hidden exactly if some entity is hit ahead of
/// the shadow ray, however far away.
pub proof fn directional_light_is_hidden_by_any_entity(
    times: Seq<Option<Scalar>>,
    nearest: Option<int>,
)
    requires
        is_scan_result(times, nearest),
    ensures
        spec_directional_is_hidden(first_hit(times, nearest)) <==> exists|j: int|
            0 <= j < times.len() && hits_ahead(#[trigger] times[j]),
{
}

} // verus!
