//! The ground state and the flight phase.

use vstd::prelude::*;
use crate::arith::clamp;
use crate::logic_nodes::ConfirmationNode;
use crate::sensors::{AirDataReferenceBus, InertialReferenceBus};
use crate::state::{FlightPhase, RuntimeState};

verus! {

/// The altitude-time product above which a takeoff has become an approach:
/// 84 700 foot seconds.
pub const TAKEOFF_TO_APPROACH_THRESHOLD: u128 = 84_700_000_000_000_000;

/// The integral after a further step, held at the largest value it can
/// take.
pub open spec fn integrated(integral: u128, step: int) -> u128 {
    if integral + step > u128::MAX {
        u128::MAX
    } else {
        (integral + step) as u128
    }
}

impl RuntimeState {
    /// High and fast enough to be flying: at or above 25 ft and 90 kt.
    pub open spec fn airborne_condition(self, adr: AirDataReferenceBus) -> bool {
        self.radio_altitude >= 25_000 && adr.computed_airspeed.value >= 90_000
    }

    /// Low and still rolling: below 25 ft and above 60 kt.
    pub open spec fn touchdown_condition(self, adr: AirDataReferenceBus) -> bool {
        self.radio_altitude < 25_000 && adr.computed_airspeed.value > 60_000
    }

    /// A reposition is confirmed: the ground state and the flight phase
    /// follow the radio altitude and the airspeed at once, and the phase
    /// integral rests.
    pub open spec fn repositioning(self) -> bool {
        self.reposition_mode_confirm_node.output
    }

    /// The ground state after the tick, the confirmation of the airborne
    /// condition being given. It is left when the airborne condition holds
    /// and either the pitch is 5 degrees or more or the condition is
    /// confirmed, and entered on the touchdown condition.
    pub open spec fn next_on_ground(
        self,
        adr: AirDataReferenceBus,
        ir: InertialReferenceBus,
        confirmed: bool,
    ) -> bool {
        if self.repositioning() {
            !self.airborne_condition(adr)
        } else if self.on_ground && self.airborne_condition(adr) && (ir.pitch_angle.value
            >= 5_000 || confirmed) {
            false
        } else if !self.on_ground && self.touchdown_condition(adr) {
            true
        } else {
            self.on_ground
        }
    }

    /// The altitude-time integral after the tick: it grows by the altitude,
    /// held between 0 and 700 ft, times the length of the tick while the
    /// aircraft is flying in the takeoff phase, and is zero otherwise.
    pub open spec fn next_integrator(self, delta: u64, on_ground: bool) -> u128 {
        if self.repositioning() {
            self.takeoff_to_approach_condition_integrator
        } else if self.flight_phase == FlightPhase::Takeoff && !on_ground {
            integrated(
                self.takeoff_to_approach_condition_integrator,
                clamp(self.chosen_altitude as int, 0, 700_000) * delta,
            )
        } else {
            0
        }
    }

    /// The flight phase after the tick, the new integral being given. A
    /// takeoff becomes an approach when the integral passes its threshold,
    /// unless the audio declutter is disabled; an approach becomes a
    /// takeoff below 245 ft.
    pub open spec fn next_flight_phase(self, integrator: u128) -> FlightPhase {
        if self.repositioning() {
            if self.radio_altitude >= 245_000 {
                FlightPhase::Approach
            } else {
                FlightPhase::Takeoff
            }
        } else if self.flight_phase == FlightPhase::Takeoff {
            if !self.pin_programs.audio_declutter_disable && integrator
                > TAKEOFF_TO_APPROACH_THRESHOLD {
                FlightPhase::Approach
            } else {
                FlightPhase::Takeoff
            }
        } else if self.radio_altitude < 245_000 {
            FlightPhase::Takeoff
        } else {
            FlightPhase::Approach
        }
    }

    /// The state after the ground state and the flight phase have been
    /// worked out.
    pub open spec fn after_general_logic(
        self,
        delta: u64,
        adr: AirDataReferenceBus,
        ir: InertialReferenceBus,
    ) -> RuntimeState {
        let node = self.ground_to_air_confirm_node.updated(self.airborne_condition(adr), delta);
        let on_ground = self.next_on_ground(adr, ir, node.output);
        let integrator = self.next_integrator(delta, on_ground);
        RuntimeState {
            ground_to_air_confirm_node: node,
            on_ground,
            takeoff_to_approach_condition_integrator: integrator,
            flight_phase: self.next_flight_phase(integrator),
            ..self
        }
    }

    fn is_airborne_condition(&self, adr: &AirDataReferenceBus) -> (met: bool)
        ensures
            met == self.airborne_condition(*adr),
    {
        self.radio_altitude >= 25_000 && adr.computed_airspeed.value() >= 90_000
    }

    fn compute_on_ground(
        &self,
        adr: &AirDataReferenceBus,
        ir: &InertialReferenceBus,
        confirmed: bool,
    ) -> (on_ground: bool)
        ensures
            on_ground == self.next_on_ground(*adr, *ir, confirmed),
    {
        let ground_to_air_ra_speed_condition: bool = self.radio_altitude >= 25_000
            && adr.computed_airspeed.value() >= 90_000;
        let ground_to_air_pitch_condition: bool = ir.pitch_angle.value_or_default() >= 5_000;
        let air_to_ground_condition: bool = self.radio_altitude < 25_000
            && adr.computed_airspeed.value() > 60_000;
        if self.reposition_mode_confirm_node.get_output() {
            !ground_to_air_ra_speed_condition
        } else if self.on_ground && ground_to_air_ra_speed_condition && (
        ground_to_air_pitch_condition || confirmed) {
            false
        } else if !self.on_ground && air_to_ground_condition {
            true
        } else {
            self.on_ground
        }
    }

    fn compute_integrator(&self, delta: u64, on_ground: bool) -> (integrator: u128)
        ensures
            integrator == self.next_integrator(delta, on_ground),
    {
        if self.reposition_mode_confirm_node.get_output() {
            self.takeoff_to_approach_condition_integrator
        } else if self.flight_phase == FlightPhase::Takeoff && !on_ground {
            let altitude: u128 = if self.chosen_altitude < 0 {
                0
            } else if self.chosen_altitude > 700_000 {
                700_000
            } else {
                self.chosen_altitude as u128
            };
            assert(altitude * delta <= 700_000 * 0xffff_ffff_ffff_ffff) by (nonlinear_arith)
                requires
                    0 <= altitude <= 700_000,
                    0 <= delta <= 0xffff_ffff_ffff_ffff,
            ;
            self.takeoff_to_approach_condition_integrator.saturating_add(altitude * delta as u128)
        } else {
            0
        }
    }

    fn compute_flight_phase(&self, integrator: u128) -> (phase: FlightPhase)
        ensures
            phase == self.next_flight_phase(integrator),
    {
        if self.reposition_mode_confirm_node.get_output() {
            if self.radio_altitude >= 245_000 {
                FlightPhase::Approach
            } else {
                FlightPhase::Takeoff
            }
        } else if self.flight_phase == FlightPhase::Takeoff {
            if !self.pin_programs.audio_declutter_disable && integrator
                > TAKEOFF_TO_APPROACH_THRESHOLD {
                FlightPhase::Approach
            } else {
                FlightPhase::Takeoff
            }
        } else if self.radio_altitude < 245_000 {
            FlightPhase::Takeoff
        } else {
            FlightPhase::Approach
        }
    }

    /// Works out the ground state and the flight phase.
    pub fn update_general_logic(
        &mut self,
        delta: u64,
        adr: &AirDataReferenceBus,
        ir: &InertialReferenceBus,
    )
        ensures
            *final(self) == old(self).after_general_logic(delta, *adr, *ir),
    {
        let ground_to_air_ra_speed_condition: bool = self.is_airborne_condition(adr);
        let mut node: ConfirmationNode = self.ground_to_air_confirm_node;
        let confirmed: bool = node.update(ground_to_air_ra_speed_condition, delta);
        let on_ground: bool = self.compute_on_ground(adr, ir, confirmed);
        let integrator: u128 = self.compute_integrator(delta, on_ground);
        let phase: FlightPhase = self.compute_flight_phase(integrator);
        *self = RuntimeState {
            ground_to_air_confirm_node: node,
            on_ground,
            takeoff_to_approach_condition_integrator: integrator,
            flight_phase: phase,
            ..*self
        };
    }
}

} // verus!
