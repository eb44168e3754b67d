//! Linear viscous drag: a force opposing velocity.

use vstd::prelude::*;

use crate::engine::body::rigid_body::RigidBody;
use crate::math::vec::{vscale_spec, vsub_spec, Vec2};

verus! {

/// Linear drag with coefficient `k`: every dynamic body feels `-k * vel`.
#[derive(Debug, Clone, Copy, PartialEq, Eq, Structural)]
pub struct LinearDrag {
    pub k: i64,
}

/// Each dynamic body's force less `k` times its velocity; static bodies are
/// untouched.
pub open spec fn drag_apply_spec(d: LinearDrag, bodies: Seq<RigidBody>) -> Seq<RigidBody> {
    Seq::new(
        bodies.len(),
        |i: int| if bodies[i].inv_mass > 0 {
            RigidBody { force: vsub_spec(bodies[i].force, vscale_spec(bodies[i].vel, d.k as int)), ..bodies[i] }
        } else {
            bodies[i]
        },
    )
}

impl LinearDrag {
    /// Subtract `k * vel` from every dynamic body's force accumulator.
    pub fn apply(&self, bodies: &mut Vec<RigidBody>)
        ensures
            final(bodies)@ == drag_apply_spec(*self, old(bodies)@),
    {
        let n = bodies.len();
        let mut i: usize = 0;
        while i < n
            invariant
                i <= n,
                bodies@.len() == n as int,
                n == old(bodies)@.len(),
                forall|j: int| 0 <= j < i as int ==> bodies@[j] == drag_apply_spec(*self, old(bodies)@)[j],
                forall|j: int| i as int <= j < n as int ==> bodies@[j] == old(bodies)@[j],
            decreases n - i,
        {
            let e = bodies[i];
            if e.inv_mass > 0 {
                bodies.set(i, RigidBody { force: e.force.sub(e.vel.scale(self.k)), ..e });
            }
            i += 1;
        }
        proof {
            assert(bodies@ =~= drag_apply_spec(*self, old(bodies)@));
        }
    }
}

} // verus!
