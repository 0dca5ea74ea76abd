//! The computer as its host sees it: created at power-on, advanced once per
//! tick, and read out into the output discretes.

use vstd::prelude::*;
use crate::aural::AuralWarning;
use crate::logic_nodes::{time_left, ConfirmationNode};
use crate::sensors::{
    AirDataReferenceBus,
    InertialReferenceBus,
    InstrumentLandingSystemBus,
    RadioAltimeter,
};
use crate::state::{
    EnhancedGroundProximityWarningComputerPinProgramming,
    FlightPhase,
    RuntimeState,
};
use crate::taws::{
    TerrainAwarenessWarningSystemBusOutputs,
    TerrainAwarenessWarningSystemDiscreteInputs,
    TerrainAwarenessWarningSystemDiscreteOutputs,
};

verus! {

impl RuntimeState {
    /// The fixed parameters of the state are those it was created with.
    pub open spec fn configured(self) -> bool {
        let fresh = RuntimeState::initial(
            self.pin_programs,
            0,
            self.on_ground,
            self.flight_phase,
        );
        &&& self.reposition_mode_confirm_node.rising
            == fresh.reposition_mode_confirm_node.rising
        &&& self.reposition_mode_confirm_node.confirm_time
            == fresh.reposition_mode_confirm_node.confirm_time
        &&& self.ground_to_air_confirm_node.rising == fresh.ground_to_air_confirm_node.rising
        &&& self.ground_to_air_confirm_node.confirm_time
            == fresh.ground_to_air_confirm_node.confirm_time
        &&& self.audio_inhibit_discrete_conf_node.rising
            == fresh.audio_inhibit_discrete_conf_node.rising
        &&& self.audio_inhibit_discrete_conf_node.confirm_time
            == fresh.audio_inhibit_discrete_conf_node.confirm_time
        &&& self.gpws_inhibit_discrete_conf_node.rising
            == fresh.gpws_inhibit_discrete_conf_node.rising
        &&& self.gpws_inhibit_discrete_conf_node.confirm_time
            == fresh.gpws_inhibit_discrete_conf_node.confirm_time
        &&& self.mode_1_sinkrate_debounce.well_formed()
        &&& self.mode_1_sinkrate_debounce.rise.confirm_time
            == fresh.mode_1_sinkrate_debounce.rise.confirm_time
        &&& self.mode_1_sinkrate_debounce.fall.confirm_time
            == fresh.mode_1_sinkrate_debounce.fall.confirm_time
        &&& self.mode_1_pull_up_debounce.well_formed()
        &&& self.mode_1_pull_up_debounce.rise.confirm_time
            == fresh.mode_1_pull_up_debounce.rise.confirm_time
        &&& self.mode_1_pull_up_debounce.fall.confirm_time
            == fresh.mode_1_pull_up_debounce.fall.confirm_time
        &&& self.mode_2_takeoff_latch_node.rising == fresh.mode_2_takeoff_latch_node.rising
        &&& self.mode_2_takeoff_latch_node.hold_time == fresh.mode_2_takeoff_latch_node.hold_time
        &&& self.mode_2_ra_rate_limiter.rate == fresh.mode_2_ra_rate_limiter.rate
        &&& self.mode_2_closure_rate_rate_limiter.rate
            == fresh.mode_2_closure_rate_rate_limiter.rate
        &&& self.mode_2_ra_filter.time_constant == fresh.mode_2_ra_filter.time_constant
    }

    /// While the self test runs, and while the inhibit discrete is
    /// confirmed, neither lamp is lit and nothing is spoken.
    pub open spec fn quiet_while_inoperative(self) -> bool {
        (self.remaining_startup > 0 || self.gpws_inhibit_discrete_conf_node.output)
            ==> self.quiet()
    }

    /// What holds of every state the computer can be in.
    pub open spec fn well_formed(self) -> bool {
        self.configured() && self.quiet_while_inoperative()
    }

    /// The computer cannot be relied on: a fault was found or the self test
    /// still runs.
    pub open spec fn gpws_inop(self) -> bool {
        self.gpws_sys_fault || self.remaining_startup > 0
    }

    /// The terrain function cannot be relied on.
    pub open spec fn terrain_inop(self) -> bool {
        self.terr_sys_fault || self.remaining_startup > 0
    }

    /// The state after the modes and the outputs have run on the inputs of
    /// one tick, in their fixed order.
    pub open spec fn after_logic(
        self,
        delta: u64,
        discrete_inputs: TerrainAwarenessWarningSystemDiscreteInputs,
        ra1: RadioAltimeter,
        ra2: RadioAltimeter,
        adr: AirDataReferenceBus,
        ir: InertialReferenceBus,
        ils: InstrumentLandingSystemBus,
    ) -> RuntimeState {
        self.after_fault_logic(delta, discrete_inputs, ra1, ra2, adr, ir, ils).after_general_logic(
            delta,
            adr,
            ir,
        ).after_mode_1_logic(delta, ils).after_mode_2_logic(
            delta,
            adr,
            discrete_inputs,
            ils,
        ).after_mode_3_logic().after_mode_5_logic(
            delta,
            ils,
            ir,
            discrete_inputs,
        ).after_lamp_output(discrete_inputs).after_aural_output(delta, discrete_inputs)
    }

    /// The state after one tick. The tick first uses up the self test; as
    /// long as some of it is left nothing else happens. After that the
    /// reposition discrete is confirmed and the logic runs.
    pub open spec fn after_update(
        self,
        delta: u64,
        discrete_inputs: TerrainAwarenessWarningSystemDiscreteInputs,
        ra1: RadioAltimeter,
        ra2: RadioAltimeter,
        adr: AirDataReferenceBus,
        ir: InertialReferenceBus,
        ils: InstrumentLandingSystemBus,
    ) -> RuntimeState {
        if time_left(self.remaining_startup, delta) > 0 {
            RuntimeState { remaining_startup: time_left(self.remaining_startup, delta), ..self }
        } else {
            (RuntimeState {
                remaining_startup: 0,
                reposition_mode_confirm_node: self.reposition_mode_confirm_node.updated(
                    discrete_inputs.sim_reposition_active,
                    delta,
                ),
                ..self
            }).after_logic(delta, discrete_inputs, ra1, ra2, adr, ir, ils)
        }
    }

    /// Runs the logic of one tick: the selection of the inputs, the ground
    /// state and flight phase, the five modes, the lamps and the arbiter.
    pub fn update_logic(
        &mut self,
        delta: u64,
        discrete_inputs: &TerrainAwarenessWarningSystemDiscreteInputs,
        ra1: &RadioAltimeter,
        ra2: &RadioAltimeter,
        adr: &AirDataReferenceBus,
        ir: &InertialReferenceBus,
        ils: &InstrumentLandingSystemBus,
    )
        ensures
            *final(self) == old(self).after_logic(
                delta,
                *discrete_inputs,
                *ra1,
                *ra2,
                *adr,
                *ir,
                *ils,
            ),
    {
        self.update_fault_logic(delta, discrete_inputs, ra1, ra2, adr, ir, ils);
        self.update_general_logic(delta, adr, ir);

        self.update_mode_1_logic(delta, ils);
        self.update_mode_2_logic(delta, adr, discrete_inputs, ils);
        self.update_mode_3_logic();
        self.update_mode_4_logic();
        self.update_mode_5_logic(delta, ils, ir, discrete_inputs);

        self.compute_lamp_output(discrete_inputs);
        self.compute_aural_output(delta, discrete_inputs);
    }

    /// The discrete outputs that go with the state.
    pub open spec fn discrete_outputs(self) -> TerrainAwarenessWarningSystemDiscreteOutputs {
        TerrainAwarenessWarningSystemDiscreteOutputs {
            alert_lamp: self.alert_lamp_activated,
            warning_lamp: self.warning_lamp_activated,
            audio_on: self.aural_output != AuralWarning::Silent,
            terrain_obstacle_caution: false,
            terrain_obstacle_warning: false,
            gpws_inop: self.gpws_inop(),
            terrain_inop: self.terrain_inop(),
            terrain_not_available: false,
            raas_inop: false,
            capt_terrain_display_active: false,
            fo_terrain_display_active: false,
            tcas_inhibit: false,
        }
    }

    /// A state at power-on is well formed.
    pub proof fn lemma_initial_well_formed(
        pin_programs: EnhancedGroundProximityWarningComputerPinProgramming,
        self_check: u64,
        on_ground: bool,
        flight_phase: FlightPhase,
    )
        ensures
            RuntimeState::initial(pin_programs, self_check, on_ground, flight_phase).well_formed(),
    {
    }

    /// A tick keeps the fixed parameters.
    pub proof fn lemma_update_keeps_configured(
        self,
        delta: u64,
        discrete_inputs: TerrainAwarenessWarningSystemDiscreteInputs,
        ra1: RadioAltimeter,
        ra2: RadioAltimeter,
        adr: AirDataReferenceBus,
        ir: InertialReferenceBus,
        ils: InstrumentLandingSystemBus,
    )
        requires
            self.configured(),
        ensures
            self.after_update(delta, discrete_inputs, ra1, ra2, adr, ir, ils).configured(),
    {
    }

    /// The emission count starts anew with each change of the aural
    /// warning: after a tick that changed the warning, the count is zero.
    /// It is zero as well while nothing is spoken after a tick of logic.
    pub proof fn lemma_emissions_restart(
        self,
        delta: u64,
        discrete_inputs: TerrainAwarenessWarningSystemDiscreteInputs,
        ra1: RadioAltimeter,
        ra2: RadioAltimeter,
        adr: AirDataReferenceBus,
        ir: InertialReferenceBus,
        ils: InstrumentLandingSystemBus,
    )
        ensures
            ({
                let next = self.after_update(delta, discrete_inputs, ra1, ra2, adr, ir, ils);
                next.aural_output != self.aural_output
                    ==> next.number_of_aural_warning_emissions == 0
            }),
    {
    }

    /// An inoperative computer is quiet, as far as the self test and the
    /// confirmed inhibit discrete make it inoperative: a tick keeps the
    /// state well formed. After a tick with the audio inhibit discrete
    /// confirmed nothing is spoken either.
    pub proof fn lemma_update_keeps_well_formed(
        self,
        delta: u64,
        discrete_inputs: TerrainAwarenessWarningSystemDiscreteInputs,
        ra1: RadioAltimeter,
        ra2: RadioAltimeter,
        adr: AirDataReferenceBus,
        ir: InertialReferenceBus,
        ils: InstrumentLandingSystemBus,
    )
        requires
            self.well_formed(),
        ensures
            ({
                let next = self.after_update(delta, discrete_inputs, ra1, ra2, adr, ir, ils);
                &&& next.well_formed()
                &&& next.remaining_startup == 0 && next.audio_inhibit_discrete_conf_node.output
                    ==> next.aural_output == AuralWarning::Silent
            }),
    {
        self.lemma_update_keeps_configured(delta, discrete_inputs, ra1, ra2, adr, ir, ils);
    }

    /// No mode but mode 2 has a lamp or voice request up.
    pub open spec fn no_request_but_of_mode_2(self) -> bool {
        &&& !self.mode_1_sinkrate_lamp_active
        &&& !self.mode_1_sinkrate_voice_active
        &&& !self.mode_1_pull_up_active
        &&& !self.mode_3_dont_sink_voice_active
        &&& !self.mode_4_too_low_gear_voice_active
        &&& !self.mode_4_too_low_flaps_voice_active
        &&& !self.mode_4_too_low_terrain_voice_active
        &&& !self.mode_5_glideslope_lamp_active
        &&& !self.mode_5_glideslope_soft_voice_active
        &&& !self.mode_5_glideslope_hard_voice_active
    }

    /// The warnings of mode 2 clear when the terrain falls away: after a
    /// tick of logic that leaves the filtered closure rate at 2038 ft/min or
    /// less, the requests of mode 2 are down and its preface is due again;
    /// with no request of another mode up, both lamps are out, nothing is
    /// spoken and the emission count is zero.
    pub proof fn lemma_update_ends_mode_2_without_closure(
        self,
        delta: u64,
        discrete_inputs: TerrainAwarenessWarningSystemDiscreteInputs,
        ra1: RadioAltimeter,
        ra2: RadioAltimeter,
        adr: AirDataReferenceBus,
        ir: InertialReferenceBus,
        ils: InstrumentLandingSystemBus,
    )
        ensures
            ({
                let next = self.after_update(delta, discrete_inputs, ra1, ra2, adr, ir, ils);
                time_left(self.remaining_startup, delta) == 0 && next.mode_2_ra_filter.output
                    <= 2_038_000 ==> {
                    &&& !next.mode_2_pull_up_preface_active
                    &&& !next.mode_2_pull_up_active
                    &&& !next.mode_2_terrain_active
                    &&& !next.mode_2_pull_up_preface_voice_emitted
                    &&& next.no_request_but_of_mode_2() ==> next.quiet()
                        && next.number_of_aural_warning_emissions == 0
                }
            }),
    {
    }

    /// The audio discrete is on exactly while a warning is selected, and an
    /// inoperative computer shows no lamp and speaks no warning where the
    /// self test or the confirmed inhibit discrete makes it inoperative.
    pub proof fn lemma_outputs(self)
        requires
            self.well_formed(),
        ensures
            self.discrete_outputs().audio_on <==> self.aural_output != AuralWarning::Silent,
            self.remaining_startup > 0 ==> self.discrete_outputs().gpws_inop,
            self.remaining_startup > 0 || self.gpws_inhibit_discrete_conf_node.output ==> {
                &&& !self.discrete_outputs().warning_lamp
                &&& !self.discrete_outputs().alert_lamp
                &&& !self.discrete_outputs().audio_on
            },
    {
    }
}

/// The runtime of the computer: its state, reached only through the
/// functions below.
pub struct EnhancedGroundProximityWarningComputerRuntime {
    state: RuntimeState,
}

impl EnhancedGroundProximityWarningComputerRuntime {
    /// The state of the runtime.
    pub closed spec fn view(&self) -> RuntimeState {
        self.state
    }

    /// A runtime that needs no self test.
    pub fn new_running(on_ground: bool, flight_phase: FlightPhase) -> (runtime: Self)
        ensures
            runtime@ == RuntimeState::initial(
                EnhancedGroundProximityWarningComputerPinProgramming {
                    audio_declutter_disable: false,
                    alternate_lamp_format: false,
                },
                0,
                on_ground,
                flight_phase,
            ),
            runtime@.well_formed(),
    {
        Self::new(0, on_ground, flight_phase)
    }

    /// A runtime at power-on, with the length of its self test in
    /// nanoseconds and the ground state and flight phase that were kept
    /// over the loss of power. Neither pin is set.
    pub fn new(self_check: u64, on_ground: bool, flight_phase: FlightPhase) -> (runtime: Self)
        ensures
            runtime@ == RuntimeState::initial(
                EnhancedGroundProximityWarningComputerPinProgramming {
                    audio_declutter_disable: false,
                    alternate_lamp_format: false,
                },
                self_check,
                on_ground,
                flight_phase,
            ),
            runtime@.well_formed(),
    {
        Self::new_with_pin_programs(
            EnhancedGroundProximityWarningComputerPinProgramming {
                audio_declutter_disable: false,
                alternate_lamp_format: false,
            },
            self_check,
            on_ground,
            flight_phase,
        )
    }

    /// A runtime at power-on with the given pin programming.
    pub fn new_with_pin_programs(
        pin_programs: EnhancedGroundProximityWarningComputerPinProgramming,
        self_check: u64,
        on_ground: bool,
        flight_phase: FlightPhase,
    ) -> (runtime: Self)
        ensures
            runtime@ == RuntimeState::initial(pin_programs, self_check, on_ground, flight_phase),
            runtime@.well_formed(),
    {
        proof {
            RuntimeState::lemma_initial_well_formed(
                pin_programs,
                self_check,
                on_ground,
                flight_phase,
            );
        }
        EnhancedGroundProximityWarningComputerRuntime {
            state: RuntimeState::new(pin_programs, self_check, on_ground, flight_phase),
        }
    }

    /// Advances the computer by one tick of `delta` nanoseconds on the
    /// inputs sampled for it.
    pub fn update(
        &mut self,
        delta: u64,
        discrete_inputs: &TerrainAwarenessWarningSystemDiscreteInputs,
        ra1: &RadioAltimeter,
        ra2: &RadioAltimeter,
        adr: &AirDataReferenceBus,
        ir: &InertialReferenceBus,
        ils: &InstrumentLandingSystemBus,
    )
        ensures
            final(self)@ == old(self)@.after_update(
                delta,
                *discrete_inputs,
                *ra1,
                *ra2,
                *adr,
                *ir,
                *ils,
            ),
            final(self)@.aural_output != old(self)@.aural_output
                ==> final(self)@.number_of_aural_warning_emissions == 0,
            old(self)@.well_formed() ==> final(self)@.well_formed(),
    {
        proof {
            self.state.lemma_emissions_restart(
                delta,
                *discrete_inputs,
                *ra1,
                *ra2,
                *adr,
                *ir,
                *ils,
            );
            if self.state.well_formed() {
                self.state.lemma_update_keeps_well_formed(
                    delta,
                    *discrete_inputs,
                    *ra1,
                    *ra2,
                    *adr,
                    *ir,
                    *ils,
                );
            }
        }
        let remaining: u64 = self.state.remaining_startup.saturating_sub(delta);
        if remaining > 0 {
            self.state = RuntimeState { remaining_startup: remaining, ..self.state };
        } else {
            let mut reposition: ConfirmationNode = self.state.reposition_mode_confirm_node;
            reposition.update(discrete_inputs.sim_reposition_active, delta);
            let mut state: RuntimeState = RuntimeState {
                remaining_startup: 0,
                reposition_mode_confirm_node: reposition,
                ..self.state
            };
            state.update_logic(delta, discrete_inputs, ra1, ra2, adr, ir, ils);
            self.state = state;
        }
    }

    pub fn get_aural_output(&self) -> (aural: AuralWarning)
        ensures
            aural == self@.aural_output,
    {
        self.state.aural_output
    }

    pub fn get_on_ground(&self) -> (on_ground: bool)
        ensures
            on_ground == self@.on_ground,
    {
        self.state.on_ground
    }

    pub fn get_flight_phase(&self) -> (phase: FlightPhase)
        ensures
            phase == self@.flight_phase,
    {
        self.state.flight_phase
    }

    /// The state, for a host that shows or records it.
    pub fn state(&self) -> (state: RuntimeState)
        ensures
            state == self@,
    {
        self.state
    }

    /// Writes the discrete outputs of the tick. The bus outputs are left as
    /// they are: the selected warning is read with `get_aural_output`.
    #[allow(unused_variables)]
    pub fn set_outputs(
        &self,
        discrete_outputs: &mut TerrainAwarenessWarningSystemDiscreteOutputs,
        bus_outputs: &mut TerrainAwarenessWarningSystemBusOutputs,
    )
        ensures
            *final(discrete_outputs) == self@.discrete_outputs(),
            final(discrete_outputs).audio_on <==> self@.aural_output != AuralWarning::Silent,
            *final(bus_outputs) == *old(bus_outputs),
            self@.well_formed() && final(discrete_outputs).gpws_inop && (self@.remaining_startup
                > 0 || self@.gpws_inhibit_discrete_conf_node.output) ==> {
                &&& !final(discrete_outputs).warning_lamp
                &&& !final(discrete_outputs).alert_lamp
                &&& self@.aural_output == AuralWarning::Silent
            },
    {
        let audio_on: bool = self.state.aural_output != AuralWarning::Silent;
        let starting: bool = self.state.remaining_startup > 0;
        let gpws_inop: bool = one_of(self.state.gpws_sys_fault, starting);
        let terrain_inop: bool = one_of(self.state.terr_sys_fault, starting);
        *discrete_outputs = TerrainAwarenessWarningSystemDiscreteOutputs {
            alert_lamp: self.state.alert_lamp_activated,
            warning_lamp: self.state.warning_lamp_activated,
            audio_on,
            terrain_obstacle_caution: false,
            terrain_obstacle_warning: false,
            gpws_inop,
            terrain_inop,
            terrain_not_available: false,
            raas_inop: false,
            capt_terrain_display_active: false,
            fo_terrain_display_active: false,
            tcas_inhibit: false,
        };
    }
}

fn one_of(a: bool, b: bool) -> (r: bool)
    ensures
        r == (a || b),
{
    a || b
}

} // verus!
