//! Force generators: external collaborators that add to body forces before
//! velocities integrate.

pub mod drag;
pub mod spring;

use vstd::prelude::*;

use crate::engine::body::rigid_body::RigidBody;
use drag::{drag_apply_spec, LinearDrag};
use spring::{spring_apply_spec, Spring};

verus! {

/// A force generator: it may read any body state and add to forces and
/// torques, and nothing else.
#[derive(Debug, Clone, Copy, PartialEq, Eq)]
pub enum ForceGen {
    Drag(LinearDrag),
    Spring(Spring),
}

/// What one generator adds to the bodies' force accumulators.
pub open spec fn force_apply_spec(f: ForceGen, bodies: Seq<RigidBody>) -> Seq<RigidBody> {
    match f {
        ForceGen::Drag(d) => drag_apply_spec(d, bodies),
        ForceGen::Spring(s) => spring_apply_spec(s, bodies),
    }
}

impl ForceGen {
    /// Add this generator's forces to the bodies.
    pub fn apply(&self, bodies: &mut Vec<RigidBody>)
        ensures
            final(bodies)@ == force_apply_spec(*self, old(bodies)@),
    {
        match self {
            ForceGen::Drag(d) => d.apply(bodies),
            ForceGen::Spring(s) => s.apply(bodies),
        }
    }
}


/// No generator touches a static body: drag and springs add force only to
/// bodies with positive inverse mass.
pub proof fn lemma_force_apply_static(f: ForceGen, bodies: Seq<RigidBody>, k: int)
    requires
        0 <= k < bodies.len(),
        bodies[k].inv_mass == 0,
    ensures
        force_apply_spec(f, bodies).len() == bodies.len(),
        force_apply_spec(f, bodies)[k] == bodies[k],
{
    match f {
        ForceGen::Drag(d) => {
            assert(drag_apply_spec(d, bodies)[k] == bodies[k]);
        },
        ForceGen::Spring(s) => {
            spring::lemma_spring_apply_static(s, bodies, k);
        },
    }
}

} // verus!
