use vstd::prelude::*;

verus! {

/// What the path integrator does next with a ray.
#[derive(Clone, Copy, Debug, PartialEq, Eq, Structural)]
pub enum PathAction {
    /// The ray hit nothing: its radiance is black.
    Background,
    /// The ray hit a surface and the depth is spent: its radiance is what
    /// the surface emits.
    Emit,
    /// The ray hit a surface with depth to spare: ask the material to
    /// scatter; if it does, add the attenuated radiance of the scattered ray,
    /// traced with `depth`, to what the surface emits, else take the emission
    /// alone.
    Bounce { depth: i32 },
}

/// The action for a ray traced with `depth` bounces left, given whether it
/// hit the scene.
pub open spec fn next_action(depth: int, hit: bool) -> PathAction {
    if !hit {
        PathAction::Background
    } else if depth > 0 {
        PathAction::Bounce { depth: (depth - 1) as i32 }
    } else {
        PathAction::Emit
    }
}

/// How many more bounces a ray traced with `depth` may take.
pub open spec fn bounce_budget(depth: int) -> nat {
    if depth > 0 {
        depth as nat
    } else {
        0
    }
}

/// Decides the integrator's next step for a ray traced with `depth`.
pub fn path_action(depth: i32, hit: bool) -> (r: PathAction)
    ensures
        r == next_action(depth as int, hit),
{
    if !hit {
        PathAction::Background
    } else if depth > 0 {
        PathAction::Bounce { depth: depth - 1 }
    } else {
        PathAction::Emit
    }
}

/// Every bounce spends budget, and a ray with no budget left never bounces:
/// a ray trapped between mirrors still stops after `depth` bounces, and at
/// depth 0 the integrator returns only what the hit emits (or black).
pub proof fn lemma_bounce_spends_budget(depth: i32, hit: bool)
    ensures
        next_action(depth as int, hit) matches PathAction::Bounce { depth: d } ==> bounce_budget(
            d as int,
        ) < bounce_budget(depth as int),
        bounce_budget(depth as int) == 0 ==> !(next_action(depth as int, hit) is Bounce),
{
}

} // verus!
