//! Mode 4: unsafe terrain clearance. The mode has three voice requests, for
//! gear, flaps and terrain, which the arbiter reads; the mode itself never
//! raises them.

use vstd::prelude::*;
use crate::state::RuntimeState;

verus! {

impl RuntimeState {
    /// Runs mode 4: its three voice requests stay as they are.
    pub fn update_mode_4_logic(&mut self)
        ensures
            *final(self) == *old(self),
    {
    }
}

} // verus!
