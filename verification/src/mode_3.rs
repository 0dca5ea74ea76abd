//! Mode 3: altitude loss after takeoff.

use vstd::prelude::*;
use crate::interpolation::{interp1, interpolation};
use crate::state::{FlightPhase, RuntimeState};

verus! {

pub const MODE_3_ALERT_AREA_BREAKPOINTS: [i32; 2] = [8_000, 143_000];

pub const MODE_3_ALERT_AREA_VALUES: [i32; 2] = [30_000, 1_500_000];

impl RuntimeState {
    /// The altitude loss watch is on: in the takeoff phase, below 1500 ft
    /// and descending.
    pub open spec fn mode_3_enabled(self) -> bool {
        &&& self.flight_phase == FlightPhase::Takeoff
        &&& self.radio_altitude < 1_500_000
        &&& self.chosen_vertical_speed < 0
    }

    /// The highest altitude reached, after the tick. It rises with the
    /// altitude while the watch is on and never falls.
    pub open spec fn next_max_achieved_altitude(self) -> i32 {
        if self.mode_3_enabled() && self.chosen_altitude > self.mode_3_max_achieved_altitude {
            self.chosen_altitude
        } else {
            self.mode_3_max_achieved_altitude
        }
    }

    /// The altitude lost from the highest altitude reached.
    pub open spec fn altitude_loss(self) -> int {
        self.next_max_achieved_altitude() - self.chosen_altitude
    }

    /// The altitude loss boundary is met.
    pub open spec fn mode_3_boundary_met(self) -> bool {
        &&& interp1(
            MODE_3_ALERT_AREA_BREAKPOINTS@,
            MODE_3_ALERT_AREA_VALUES@,
            self.altitude_loss(),
        ) < self.radio_altitude
        &&& self.altitude_loss() > 8_000
        &&& self.radio_altitude > 30_000
    }

    /// The state after mode 3 has run. The voice request of the mode is
    /// left as it is.
    pub open spec fn after_mode_3_logic(self) -> RuntimeState {
        RuntimeState {
            mode_3_max_achieved_altitude: self.next_max_achieved_altitude(),
            mode_3_lamp_active: self.mode_3_boundary_met(),
            ..self
        }
    }

    fn compute_max_achieved_altitude(&self) -> (altitude: i32)
        ensures
            altitude == self.next_max_achieved_altitude(),
    {
        let mode_3_enabled: bool = self.flight_phase == FlightPhase::Takeoff
            && self.radio_altitude < 1_500_000 && self.chosen_vertical_speed < 0;
        if mode_3_enabled && self.chosen_altitude > self.mode_3_max_achieved_altitude {
            self.chosen_altitude
        } else {
            self.mode_3_max_achieved_altitude
        }
    }

    fn is_mode_3_boundary_met(&self) -> (met: bool)
        ensures
            met == self.mode_3_boundary_met(),
    {
        let altitude_loss: i64 = self.compute_max_achieved_altitude() as i64
            - self.chosen_altitude as i64;
        interpolation(
            MODE_3_ALERT_AREA_BREAKPOINTS.as_slice(),
            MODE_3_ALERT_AREA_VALUES.as_slice(),
            altitude_loss,
        ) < self.radio_altitude && altitude_loss > 8_000 && self.radio_altitude > 30_000
    }

    /// Runs mode 3: the altitude loss lamp.
    pub fn update_mode_3_logic(&mut self)
        ensures
            *final(self) == old(self).after_mode_3_logic(),
    {
        let max_achieved: i32 = self.compute_max_achieved_altitude();
        let mode_3_boundary_met: bool = self.is_mode_3_boundary_met();
        *self = RuntimeState {
            mode_3_max_achieved_altitude: max_achieved,
            mode_3_lamp_active: mode_3_boundary_met,
            ..*self
        };
    }
}

} // verus!
