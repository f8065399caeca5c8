//! Control of the recursive light-transport estimate of one camera ray.
//!
//! A path starts with a depth budget. While budget remains, the ray is traced
//! against the scene, and the struck material either scatters it (the path
//! goes on with one unit less of budget, its colour attenuated), absorbs it
//! (black), or the ray misses everything (the sky gradient). An exhausted
//! budget ends the path in black without consulting the scene. The colour
//! arithmetic lies with the caller; these functions decide each step.

use vstd::prelude::*;

verus! {

/// The radiance a path ends with.
#[derive(Debug, Clone, Copy, PartialEq, Eq, Structural)]
pub enum Shade {
    /// No light: the path was absorbed or ran out of budget.
    Black,
    /// The environment's sky gradient, seen along the last ray.
    Sky,
}

/// What tracing a ray against the scene gave.
#[derive(Debug, Clone, Copy, PartialEq, Eq, Structural)]
pub enum Bounce {
    /// No primitive was hit in the admissible distance interval.
    Miss,
    /// A primitive was hit and its material absorbed the ray.
    Absorbed,
    /// A primitive was hit and its material scattered the ray onward.
    Scattered,
}

/// How a path begins.
#[derive(Debug, Clone, Copy, PartialEq, Eq, Structural)]
pub enum PathStart {
    /// The path ends at once with this shade; the scene is not consulted.
    Finish(Shade),
    /// The ray must be traced against the scene.
    Trace,
}

/// How a path goes on after one trace.
#[derive(Debug, Clone, Copy, PartialEq, Eq, Structural)]
pub enum PathStep {
    /// The path ends with this shade.
    Finish(Shade),
    /// The scattered ray starts a path with this budget, and its result is
    /// attenuated by the material.
    Continue(usize),
}

/// First decision for a ray with `depth_budget` bounces left.
pub fn begin_path(depth_budget: usize) -> (r: PathStart)
    ensures
        depth_budget == 0 ==> r == PathStart::Finish(Shade::Black),
        depth_budget > 0 ==> r == PathStart::Trace,
{
    if depth_budget == 0 {
        PathStart::Finish(Shade::Black)
    } else {
        PathStart::Trace
    }
}

/// Decision after a ray with `depth_budget` bounces left was traced.
pub fn after_bounce(depth_budget: usize, bounce: Bounce) -> (r: PathStep)
    requires
        depth_budget > 0,
    ensures
        r == (match bounce {
            Bounce::Miss => PathStep::Finish(Shade::Sky),
            Bounce::Absorbed => PathStep::Finish(Shade::Black),
            Bounce::Scattered => PathStep::Continue((depth_budget - 1) as usize),
        }),
{
    match bounce {
        Bounce::Miss => PathStep::Finish(Shade::Sky),
        Bounce::Absorbed => PathStep::Finish(Shade::Black),
        Bounce::Scattered => PathStep::Continue(depth_budget - 1),
    }
}

/// Where a whole path ends, when the `k`-th trace of it (counted from
/// `first`) gives `outcome(k)`: the final shade, and how many scatterings
/// attenuate it. This is the composition of `begin_path` and `after_bounce`.
pub open spec fn path_end(depth_budget: nat, outcome: spec_fn(nat) -> Bounce, first: nat) -> (
    Shade,
    nat,
)
    decreases depth_budget,
{
    if depth_budget == 0 {
        (Shade::Black, 0)
    } else {
        match outcome(first) {
            Bounce::Miss => (Shade::Sky, 0),
            Bounce::Absorbed => (Shade::Black, 0),
            Bounce::Scattered => {
                let rest = path_end((depth_budget - 1) as nat, outcome, first + 1);
                (rest.0, rest.1 + 1)
            },
        }
    }
}

/// A path with no budget left is black with no attenuation, whatever the
/// scene would have given.
pub proof fn lemma_exhausted_path_is_black(outcome: spec_fn(nat) -> Bounce, first: nat)
    ensures
        path_end(0, outcome, first) == (Shade::Black, 0nat),
{
}

/// A ray that misses every primitive, with budget left, sees the sky
/// directly.
pub proof fn lemma_miss_sees_sky(depth_budget: nat, outcome: spec_fn(nat) -> Bounce, first: nat)
    requires
        depth_budget > 0,
        outcome(first) == Bounce::Miss,
    ensures
        path_end(depth_budget, outcome, first) == (Shade::Sky, 0nat),
{
}

/// A path scatters at most as many times as its depth budget allows.
pub proof fn lemma_scatterings_within_budget(
    depth_budget: nat,
    outcome: spec_fn(nat) -> Bounce,
    first: nat,
)
    ensures
        path_end(depth_budget, outcome, first).1 <= depth_budget,
    decreases depth_budget,
{
    if depth_budget > 0 {
        lemma_scatterings_within_budget((depth_budget - 1) as nat, outcome, first + 1);
    }
}

/// A path whose traces all scatter uses up its whole budget and ends black.
pub proof fn lemma_endless_scattering_ends_black(
    depth_budget: nat,
    outcome: spec_fn(nat) -> Bounce,
    first: nat,
)
    requires
        forall|k: nat| k >= first ==> #[trigger] outcome(k) == Bounce::Scattered,
    ensures
        path_end(depth_budget, outcome, first) == (Shade::Black, depth_budget),
    decreases depth_budget,
{
    if depth_budget > 0 {
        lemma_endless_scattering_ends_black((depth_budget - 1) as nat, outcome, first + 1);
    }
}

} // verus!
