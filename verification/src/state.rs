//! The state of the computer between ticks.

use vstd::prelude::*;
use crate::aural::AuralWarning;
use crate::derivative::DerivativeNode;
use crate::logic_nodes::{ConfirmationNode, Debounce, MonostableTriggerNode};
use crate::low_pass_filter::LowPassFilter;
use crate::rate_limiter::RateLimiter;

verus! {

/// Whether the flight is in its takeoff or in its approach part.
#[derive(Clone, Copy, PartialEq, Eq, Debug, Structural)]
pub enum FlightPhase {
    Takeoff,
    Approach,
}

/// The options that are wired at installation and read once.
#[derive(Clone, Copy, Debug)]
pub struct EnhancedGroundProximityWarningComputerPinProgramming {
    pub audio_declutter_disable: bool,
    pub alternate_lamp_format: bool,
}

impl Default for EnhancedGroundProximityWarningComputerPinProgramming {
    fn default() -> (pins: Self)
        ensures
            !pins.audio_declutter_disable,
            !pins.alternate_lamp_format,
    {
        EnhancedGroundProximityWarningComputerPinProgramming {
            audio_declutter_disable: false,
            alternate_lamp_format: false,
        }
    }
}

/// All that the computer keeps from one tick to the next.
#[derive(Clone, Copy, Debug)]
pub struct RuntimeState {
    pub pin_programs: EnhancedGroundProximityWarningComputerPinProgramming,
    /// What is left of the self test, in nanoseconds; zero once it is done.
    pub remaining_startup: u64,
    pub reposition_mode_confirm_node: ConfirmationNode,
    pub on_ground: bool,
    pub flight_phase: FlightPhase,
    /// The selected vertical speed, in thousandths of a foot per minute.
    pub chosen_vertical_speed: i32,
    /// The selected altitude, in thousandths of a foot.
    pub chosen_altitude: i32,
    /// The selected radio altitude, in thousandths of a foot.
    pub radio_altitude: i32,
    pub ground_to_air_confirm_node: ConfirmationNode,
    /// Altitude held over time since lift-off, in thousandths of a foot
    /// times nanoseconds.
    pub takeoff_to_approach_condition_integrator: u128,
    pub gpws_sys_fault: bool,
    pub terr_sys_fault: bool,
    pub gs_fault: bool,
    pub vs_fault: bool,
    pub altitude_fault: bool,
    pub audio_inhibit_discrete_conf_node: ConfirmationNode,
    pub gpws_inhibit_discrete_conf_node: ConfirmationNode,
    pub mode_1_sinkrate_debounce: Debounce,
    pub mode_1_pull_up_debounce: Debounce,
    /// The time to impact at the last sink rate call, in millionths of a
    /// minute; zero while none is stored.
    pub mode_1_sinkrate_time_to_impact: i64,
    pub mode_1_sinkrate_emitted_for_current_time_to_impact: bool,
    pub mode_1_sinkrate_lamp_active: bool,
    pub mode_1_sinkrate_voice_active: bool,
    pub mode_1_pull_up_active: bool,
    pub mode_2_takeoff_latch_node: MonostableTriggerNode,
    pub mode_2_closure_rate_derivative: DerivativeNode,
    pub mode_2_ra_rate_limiter: RateLimiter,
    pub mode_2_closure_rate_rate_limiter: RateLimiter,
    pub mode_2_ra_filter: LowPassFilter,
    pub mode_2_pull_up_preface_voice_emitted: bool,
    pub mode_2_pull_up_preface_active: bool,
    pub mode_2_pull_up_active: bool,
    pub mode_2_terrain_active: bool,
    /// The highest altitude reached while the altitude loss watch was on,
    /// in thousandths of a foot.
    pub mode_3_max_achieved_altitude: i32,
    pub mode_3_lamp_active: bool,
    pub mode_3_dont_sink_voice_active: bool,
    pub mode_4_too_low_gear_voice_active: bool,
    pub mode_4_too_low_flaps_voice_active: bool,
    pub mode_4_too_low_terrain_voice_active: bool,
    /// The pause before the next glideslope call, in nanoseconds.
    pub mode_5_time_to_next_aural: u64,
    /// How many fifths the soft glideslope threshold has been raised by.
    pub mode_5_declutter_threshold_steps: u32,
    pub mode_5_glideslope_soft_voice_active: bool,
    pub mode_5_glideslope_hard_voice_active: bool,
    pub mode_5_glideslope_lamp_active: bool,
    pub number_of_aural_warning_emissions: u32,
    /// How long the selected warning has been selected, in nanoseconds.
    pub time_since_first_emission: u64,
    pub warning_lamp_activated: bool,
    pub alert_lamp_activated: bool,
    pub aural_output: AuralWarning,
}

impl RuntimeState {
    /// Neither lamp is lit and nothing is spoken.
    pub open spec fn quiet(self) -> bool {
        &&& !self.warning_lamp_activated
        &&& !self.alert_lamp_activated
        &&& self.aural_output == AuralWarning::Silent
    }

    /// The state at power-on.
    pub open spec fn initial(
        pin_programs: EnhancedGroundProximityWarningComputerPinProgramming,
        self_check: u64,
        on_ground: bool,
        flight_phase: FlightPhase,
    ) -> RuntimeState {
        RuntimeState {
            pin_programs,
            remaining_startup: self_check,
            reposition_mode_confirm_node: ConfirmationNode::falling_at_rest(3_000_000_000),
            on_ground,
            flight_phase,
            chosen_vertical_speed: 0,
            chosen_altitude: 0,
            radio_altitude: 0,
            ground_to_air_confirm_node: ConfirmationNode::rising_at_rest(10_000_000_000),
            takeoff_to_approach_condition_integrator: 0,
            gpws_sys_fault: false,
            terr_sys_fault: false,
            gs_fault: false,
            vs_fault: false,
            altitude_fault: false,
            audio_inhibit_discrete_conf_node: ConfirmationNode::rising_at_rest(60_000_000_000),
            gpws_inhibit_discrete_conf_node: ConfirmationNode::rising_at_rest(5_000_000_000),
            mode_1_sinkrate_debounce: Debounce::at_rest(800_000_000, 200_000_000),
            mode_1_pull_up_debounce: Debounce::at_rest(1_600_000_000, 200_000_000),
            mode_1_sinkrate_time_to_impact: 0,
            mode_1_sinkrate_emitted_for_current_time_to_impact: false,
            mode_1_sinkrate_lamp_active: false,
            mode_1_sinkrate_voice_active: false,
            mode_1_pull_up_active: false,
            mode_2_takeoff_latch_node: MonostableTriggerNode::at_rest(false, 60_000_000_000),
            mode_2_closure_rate_derivative: DerivativeNode { previous: None, rate: 0 },
            mode_2_ra_rate_limiter: RateLimiter { rate: 170_000, state: None },
            mode_2_closure_rate_rate_limiter: RateLimiter { rate: 2_900_000, state: None },
            mode_2_ra_filter: LowPassFilter { time_constant: 1_000_000_000, output: 0 },
            mode_2_pull_up_preface_voice_emitted: false,
            mode_2_pull_up_preface_active: false,
            mode_2_pull_up_active: false,
            mode_2_terrain_active: false,
            mode_3_max_achieved_altitude: 0,
            mode_3_lamp_active: false,
            mode_3_dont_sink_voice_active: false,
            mode_4_too_low_gear_voice_active: false,
            mode_4_too_low_flaps_voice_active: false,
            mode_4_too_low_terrain_voice_active: false,
            mode_5_time_to_next_aural: 0,
            mode_5_declutter_threshold_steps: 0,
            mode_5_glideslope_soft_voice_active: false,
            mode_5_glideslope_hard_voice_active: false,
            mode_5_glideslope_lamp_active: false,
            number_of_aural_warning_emissions: 0,
            time_since_first_emission: 0,
            warning_lamp_activated: false,
            alert_lamp_activated: false,
            aural_output: AuralWarning::Silent,
        }
    }

    /// The state at power-on.
    pub fn new(
        pin_programs: EnhancedGroundProximityWarningComputerPinProgramming,
        self_check: u64,
        on_ground: bool,
        flight_phase: FlightPhase,
    ) -> (state: RuntimeState)
        ensures
            state == RuntimeState::initial(pin_programs, self_check, on_ground, flight_phase),
    {
        RuntimeState {
            pin_programs,
            remaining_startup: self_check,
            reposition_mode_confirm_node: ConfirmationNode::new_falling(3_000_000_000),
            on_ground,
            flight_phase,
            chosen_vertical_speed: 0,
            chosen_altitude: 0,
            radio_altitude: 0,
            ground_to_air_confirm_node: ConfirmationNode::new_rising(10_000_000_000),
            takeoff_to_approach_condition_integrator: 0,
            gpws_sys_fault: false,
            terr_sys_fault: false,
            gs_fault: false,
            vs_fault: false,
            altitude_fault: false,
            audio_inhibit_discrete_conf_node: ConfirmationNode::new_rising(60_000_000_000),
            gpws_inhibit_discrete_conf_node: ConfirmationNode::new_rising(5_000_000_000),
            mode_1_sinkrate_debounce: Debounce::new(800_000_000, 200_000_000),
            mode_1_pull_up_debounce: Debounce::new(1_600_000_000, 200_000_000),
            mode_1_sinkrate_time_to_impact: 0,
            mode_1_sinkrate_emitted_for_current_time_to_impact: false,
            mode_1_sinkrate_lamp_active: false,
            mode_1_sinkrate_voice_active: false,
            mode_1_pull_up_active: false,
            mode_2_takeoff_latch_node: MonostableTriggerNode::new_falling(60_000_000_000),
            mode_2_closure_rate_derivative: DerivativeNode::new(),
            mode_2_ra_rate_limiter: RateLimiter::new_symmetrical(170_000),
            mode_2_closure_rate_rate_limiter: RateLimiter::new_symmetrical(2_900_000),
            mode_2_ra_filter: LowPassFilter::new(1_000_000_000),
            mode_2_pull_up_preface_voice_emitted: false,
            mode_2_pull_up_preface_active: false,
            mode_2_pull_up_active: false,
            mode_2_terrain_active: false,
            mode_3_max_achieved_altitude: 0,
            mode_3_lamp_active: false,
            mode_3_dont_sink_voice_active: false,
            mode_4_too_low_gear_voice_active: false,
            mode_4_too_low_flaps_voice_active: false,
            mode_4_too_low_terrain_voice_active: false,
            mode_5_time_to_next_aural: 0,
            mode_5_declutter_threshold_steps: 0,
            mode_5_glideslope_soft_voice_active: false,
            mode_5_glideslope_hard_voice_active: false,
            mode_5_glideslope_lamp_active: false,
            number_of_aural_warning_emissions: 0,
            time_since_first_emission: 0,
            warning_lamp_activated: false,
            alert_lamp_activated: false,
            aural_output: AuralWarning::Silent,
        }
    }
}

} // verus!
