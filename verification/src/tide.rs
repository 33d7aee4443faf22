//! The swarm arriving: one carrier, then a ramp, then the rest at once.
//!
//! How many should be out by a tick is the tide's own curve; what is decided
//! here is how many to spawn now. Killing one does not bring another: the
//! count the curve is compared against is how many have ever been spawned,
//! so a carrier you killed is a carrier that is not in the system, which is
//! the whole reason to shoot at them while you gather.

use vstd::prelude::*;

verus! {

/// How many carriers this system has spawned so far.
#[derive(Clone, Copy, PartialEq, Eq, Debug, Structural)]
pub struct TideState {
    pub spawned: usize,
}

impl TideState {
    /// A system nobody has arrived in yet.
    pub fn fresh() -> (t: TideState)
        ensures
            t.spawned == 0,
    {
        TideState { spawned: 0 }
    }
}

/// How many to spawn, and how many will have been spawned after: the gap to
/// the curve where it is ahead, and nothing where it is not.
pub open spec fn spec_tide(spawned: usize, retreat: bool, want: usize) -> (usize, usize) {
    if retreat && want > spawned {
        ((want - spawned) as usize, want)
    } else {
        (0, spawned)
    }
}

/// Bring the carriers out that the curve says should be out by now, `want`,
/// and answer how many to spawn this tick. Only a retreat has a tide.
pub fn tide_carriers(state: &mut TideState, retreat: bool, want: usize) -> (n: usize)
    ensures
        (n, final(state).spawned) == spec_tide(old(state).spawned, retreat, want),
{
    if !retreat || want <= state.spawned {
        return 0;
    }
    let n = want - state.spawned;
    state.spawned = want;
    n
}

} // verus!
