//! Cross-cutting simulation parameters shared by broad phase, narrow phase,
//! and solver.

use vstd::prelude::*;

verus! {

/// Knobs that several stages must agree on.
#[derive(Debug, Clone, Copy, PartialEq, Eq, Structural)]
pub struct SimParams {
    /// Extra distance treated as "in range": it fattens broad-phase boxes and
    /// lets the narrow phase emit contacts slightly before overlap.
    pub speculative_distance: i64,
}

impl Default for SimParams {
    /// Five centimetres of speculative-contact distance.
    fn default() -> (r: Self)
        ensures
            r.speculative_distance == 50_000,
    {
        SimParams { speculative_distance: 50_000 }
    }
}

} // verus!
