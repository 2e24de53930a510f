//! Scalar tuning parameters for the external raymarch integration loop.

use vstd::prelude::*;

verus! {

/// Step budget handed to the external integrator. No validation happens
/// here: the integrator interprets or clamps the budget itself.
#[derive(Clone, Copy, Debug, PartialEq, Eq, Structural, Hash)]
pub struct RaymarchSettings {
    pub n_steps: u32,
}

impl Default for RaymarchSettings {
    /// The default step budget is 300.
    fn default() -> (r: Self)
        ensures
            r.n_steps == 300,
    {
        RaymarchSettings { n_steps: 300 }
    }
}

} // verus!
