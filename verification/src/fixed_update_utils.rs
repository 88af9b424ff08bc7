//! A per-frame flag telling whether the fixed timestep ran this frame.

use vstd::prelude::*;

verus! {

/// Whether the fixed timestep has run since the start of the frame.
#[derive(Clone, Copy, PartialEq, Eq, Structural, Debug)]
pub struct DidFixedTimestepRunThisFrame(pub bool);

/// Reset the flag at the start of every frame.
pub fn clear_fixed_timestep_flag(flag: &mut DidFixedTimestepRunThisFrame)
    ensures
        !final(flag).0,
{
    flag.0 = false;
}

/// Set the flag during each fixed timestep.
pub fn set_fixed_time_step_flag(flag: &mut DidFixedTimestepRunThisFrame)
    ensures
        final(flag).0,
{
    flag.0 = true;
}

/// Read the flag.
pub fn did_fixed_timestep_run_this_frame(flag: &DidFixedTimestepRunThisFrame) -> (r: bool)
    ensures
        r == flag.0,
{
    flag.0
}

} // verus!
