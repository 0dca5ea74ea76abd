//! Mode 5: descent below the glideslope.
//!
//! Deviations are kept in millionths. One dot of glideslope deviation is
//! 87 500 of them and one dot of localizer deviation 77 500, so the
//! thresholds of 1.3, 2, 2.7 and 3.4 glideslope dots are 113 750, 175 000,
//! 236 250 and 297 500, and two localizer dots are 155 000.

use vstd::prelude::*;
use crate::arinc429::SignStatus;
use crate::arith::{abs, div_floor, rem_toward_zero, rem_toward_zero_i64};
use crate::aural::AuralWarning;
use crate::interpolation::{interp1, interpolation};
use crate::logic_nodes::time_left;
use crate::sensors::{InertialReferenceBus, InstrumentLandingSystemBus};
use crate::state::{FlightPhase, RuntimeState};
use crate::taws::TerrainAwarenessWarningSystemDiscreteInputs;

verus! {

pub const MODE_5_SOFT_ALERT_UPPER_BOUNDARY_BREAKPOINTS: [i32; 2] = [-500_000, 0];

pub const MODE_5_SOFT_ALERT_UPPER_BOUNDARY_VALUES: [i32; 2] = [1_000_000, 500_000];

pub const MODE_5_SOFT_ALERT_BREAKPOINTS: [i32; 2] = [113_750, 236_250];

pub const MODE_5_SOFT_ALERT_VALUES: [i32; 2] = [150_000, 50_000];

pub const MODE_5_HARD_ALERT_BREAKPOINTS: [i32; 2] = [175_000, 297_500];

pub const MODE_5_HARD_ALERT_VALUES: [i32; 2] = [150_000, 50_000];

/// The pause after a hard glideslope call with the audio declutter in use:
/// three seconds.
pub const MODE_5_HARD_ALERT_PAUSE: u64 = 3_000_000_000;

/// How far below the beam the aircraft is: the glideslope deviation with
/// its sign turned.
pub open spec fn fly_up_deviation(ils: InstrumentLandingSystemBus) -> int {
    -ils.glideslope_deviation.value
}

/// The angle from the runway heading to the track, in thousandths of a
/// degree, brought into the range around zero.
pub open spec fn heading_difference(
    ir: InertialReferenceBus,
    ils: InstrumentLandingSystemBus,
) -> int {
    rem_toward_zero(ir.magnetic_track.value - ils.runway_heading.value + 540_000, 360_000)
        - 180_000
}

/// The fly-up deviation as the soft aural boundary sees it after the
/// threshold has been raised by `steps` fifths.
pub open spec fn decluttered_deviation(fly_up: int, steps: u32) -> int {
    (fly_up * 5) / (5 + steps)
}

/// The pause between glideslope calls without the audio declutter: 0.0067 s
/// for each foot of radio altitude per dot of fly-up deviation. It is zero
/// where there is no height or no deviation.
pub open spec fn glideslope_pause(radio_altitude: i32, fly_up: int) -> u64 {
    if radio_altitude <= 0 || fly_up == 0 {
        0
    } else {
        ((radio_altitude * 586_250_000) / abs(fly_up)) as u64
    }
}

fn compute_fly_up_deviation(ils: &InstrumentLandingSystemBus) -> (fly_up: i64)
    ensures
        fly_up == fly_up_deviation(*ils),
{
    -(ils.glideslope_deviation.value() as i64)
}

fn compute_heading_difference(ir: &InertialReferenceBus, ils: &InstrumentLandingSystemBus) -> (difference:
    i64)
    ensures
        difference == heading_difference(*ir, *ils),
{
    let turned: i64 = ir.magnetic_track.value() as i64 - ils.runway_heading.value() as i64
        + 540_000;
    rem_toward_zero_i64(turned, 360_000) - 180_000
}

fn compute_decluttered_deviation(fly_up: i64, steps: u32) -> (deviation: i64)
    requires
        -0x8000_0000 <= fly_up <= 0x8000_0000,
    ensures
        deviation == decluttered_deviation(fly_up as int, steps),
        fly_up <= 0 ==> deviation <= 0,
{
    div_floor(fly_up as i128 * 5, 5 + steps as i128) as i64
}

fn compute_glideslope_pause(radio_altitude: i32, fly_up: i64) -> (pause: u64)
    requires
        -0x8000_0000 <= fly_up <= 0x8000_0000,
    ensures
        pause == glideslope_pause(radio_altitude, fly_up as int),
{
    if radio_altitude <= 0 || fly_up == 0 {
        0
    } else {
        let size: i128 = if fly_up < 0 {
            -(fly_up as i128)
        } else {
            fly_up as i128
        };
        div_floor(radio_altitude as i128 * 586_250_000, size) as u64
    }
}

impl RuntimeState {
    /// Mode 5 is armed: the glideslope is received and not inhibited, the
    /// aircraft is set up for landing with the gear down, and it is lined
    /// up with the runway, by track within 50 degrees unless the track is
    /// not to be had, and by localizer within two dots unless below 500 ft.
    pub open spec fn mode_5_armed(
        self,
        ils: InstrumentLandingSystemBus,
        ir: InertialReferenceBus,
        discrete_inputs: TerrainAwarenessWarningSystemDiscreteInputs,
    ) -> bool {
        &&& ils.glideslope_deviation.status == SignStatus::NormalOperation
        &&& !discrete_inputs.glideslope_inhibit
        &&& (discrete_inputs.landing_flaps || self.flight_phase == FlightPhase::Approach)
        &&& discrete_inputs.landing_gear_downlocked
        &&& (abs(heading_difference(ir, ils)) < 50_000 || ir.magnetic_track.status
            != SignStatus::NormalOperation)
        &&& (abs(ils.localizer_deviation.value as int) < 155_000 || self.radio_altitude
            < 500_000)
    }

    /// The hard boundary is met.
    pub open spec fn mode_5_hard_boundary_met(self, fly_up: int, armed: bool) -> bool {
        &&& interp1(MODE_5_HARD_ALERT_BREAKPOINTS@, MODE_5_HARD_ALERT_VALUES@, fly_up)
            < self.radio_altitude
        &&& fly_up > 175_000
        &&& 50_000 < self.radio_altitude < 300_000
        &&& armed
    }

    /// The radio altitude below which the soft boundary lies.
    pub open spec fn mode_5_soft_upper_boundary(self) -> int {
        interp1(
            MODE_5_SOFT_ALERT_UPPER_BOUNDARY_BREAKPOINTS@,
            MODE_5_SOFT_ALERT_UPPER_BOUNDARY_VALUES@,
            self.chosen_vertical_speed as int,
        )
    }

    /// The soft boundary is met by the given deviation.
    pub open spec fn mode_5_soft_boundary_met(self, deviation: int, armed: bool) -> bool {
        &&& interp1(MODE_5_SOFT_ALERT_BREAKPOINTS@, MODE_5_SOFT_ALERT_VALUES@, deviation)
            < self.radio_altitude
        &&& deviation > 113_750
        &&& 50_000 < self.radio_altitude < self.mode_5_soft_upper_boundary()
        &&& armed
    }

    /// The soft voice request.
    pub open spec fn mode_5_soft_voice(self, soft_aural: bool, hard: bool) -> bool {
        if self.pin_programs.audio_declutter_disable {
            soft_aural && !hard && self.mode_5_time_to_next_aural == 0
        } else {
            soft_aural && !hard
        }
    }

    /// The hard voice request.
    pub open spec fn mode_5_hard_voice(self, hard: bool) -> bool {
        hard && self.mode_5_time_to_next_aural == 0
    }

    /// The pause before the next call, after the tick. Without the audio
    /// declutter it is set from height and deviation after each call while
    /// either boundary is met; with it, it is three seconds after each hard
    /// call while the hard boundary is met. A pause that runs is used up by
    /// the tick, and outside of the boundaries there is none.
    pub open spec fn next_time_to_next_aural(
        self,
        delta: u64,
        fly_up: int,
        soft_aural: bool,
        hard: bool,
    ) -> u64 {
        if self.pin_programs.audio_declutter_disable {
            if !(hard || soft_aural) {
                0
            } else if self.mode_5_time_to_next_aural == 0 && (self.aural_output
                == AuralWarning::GlideslopeHard || self.aural_output
                == AuralWarning::GlideslopeSoft) && self.number_of_aural_warning_emissions > 0 {
                glideslope_pause(self.radio_altitude, fly_up)
            } else {
                time_left(self.mode_5_time_to_next_aural, delta)
            }
        } else {
            if !hard {
                0
            } else if self.mode_5_time_to_next_aural == 0 && self.aural_output
                == AuralWarning::GlideslopeHard && self.number_of_aural_warning_emissions > 0 {
                MODE_5_HARD_ALERT_PAUSE
            } else {
                time_left(self.mode_5_time_to_next_aural, delta)
            }
        }
    }

    /// By how many fifths the soft threshold is raised, after the tick. With
    /// the audio declutter in use it goes up by one after each soft call
    /// while the soft boundary is met, and back to none outside of it.
    pub open spec fn next_declutter_threshold_steps(self, soft_lamp: bool, soft_voice: bool) -> u32 {
        if self.pin_programs.audio_declutter_disable {
            self.mode_5_declutter_threshold_steps
        } else if !soft_lamp {
            0
        } else if soft_voice && self.aural_output == AuralWarning::GlideslopeSoft
            && self.number_of_aural_warning_emissions > 0 {
            if self.mode_5_declutter_threshold_steps == u32::MAX {
                u32::MAX
            } else {
                (self.mode_5_declutter_threshold_steps + 1) as u32
            }
        } else {
            self.mode_5_declutter_threshold_steps
        }
    }

    /// The state after mode 5 has run.
    pub open spec fn after_mode_5_logic(
        self,
        delta: u64,
        ils: InstrumentLandingSystemBus,
        ir: InertialReferenceBus,
        discrete_inputs: TerrainAwarenessWarningSystemDiscreteInputs,
    ) -> RuntimeState {
        let fly_up = fly_up_deviation(ils);
        let armed = self.mode_5_armed(ils, ir, discrete_inputs);
        let hard = self.mode_5_hard_boundary_met(fly_up, armed);
        let soft_lamp = self.mode_5_soft_boundary_met(fly_up, armed);
        let soft_aural = self.mode_5_soft_boundary_met(
            decluttered_deviation(fly_up, self.mode_5_declutter_threshold_steps),
            armed,
        );
        let soft_voice = self.mode_5_soft_voice(soft_aural, hard);
        RuntimeState {
            mode_5_glideslope_lamp_active: armed && (soft_lamp || hard),
            mode_5_glideslope_soft_voice_active: soft_voice,
            mode_5_glideslope_hard_voice_active: self.mode_5_hard_voice(hard),
            mode_5_time_to_next_aural: self.next_time_to_next_aural(
                delta,
                fly_up,
                soft_aural,
                hard,
            ),
            mode_5_declutter_threshold_steps: self.next_declutter_threshold_steps(
                soft_lamp,
                soft_voice,
            ),
            ..self
        }
    }

    fn is_mode_5_armed(
        &self,
        ils: &InstrumentLandingSystemBus,
        ir: &InertialReferenceBus,
        discrete_inputs: &TerrainAwarenessWarningSystemDiscreteInputs,
    ) -> (armed: bool)
        ensures
            armed == self.mode_5_armed(*ils, *ir, *discrete_inputs),
    {
        let heading_difference: i64 = compute_heading_difference(ir, ils);
        let heading_size: i64 = if heading_difference < 0 {
            -heading_difference
        } else {
            heading_difference
        };
        let localizer: i64 = ils.localizer_deviation.value() as i64;
        let localizer_size: i64 = if localizer < 0 {
            -localizer
        } else {
            localizer
        };
        ils.glideslope_deviation.is_normal_operation() && !discrete_inputs.glideslope_inhibit && (
        discrete_inputs.landing_flaps || self.flight_phase == FlightPhase::Approach)
            && discrete_inputs.landing_gear_downlocked && (heading_size < 50_000
            || !ir.magnetic_track.is_normal_operation()) && (localizer_size < 155_000
            || self.radio_altitude < 500_000)
    }

    fn is_mode_5_hard_boundary_met(&self, fly_up: i64, armed: bool) -> (met: bool)
        ensures
            met == self.mode_5_hard_boundary_met(fly_up as int, armed),
    {
        interpolation(
            MODE_5_HARD_ALERT_BREAKPOINTS.as_slice(),
            MODE_5_HARD_ALERT_VALUES.as_slice(),
            fly_up,
        ) < self.radio_altitude && fly_up > 175_000 && self.radio_altitude < 300_000
            && self.radio_altitude > 50_000 && armed
    }

    fn is_mode_5_soft_boundary_met(&self, deviation: i64, armed: bool) -> (met: bool)
        ensures
            met == self.mode_5_soft_boundary_met(deviation as int, armed),
    {
        let mode_5_soft_alert_upper_boundary: i32 = interpolation(
            MODE_5_SOFT_ALERT_UPPER_BOUNDARY_BREAKPOINTS.as_slice(),
            MODE_5_SOFT_ALERT_UPPER_BOUNDARY_VALUES.as_slice(),
            self.chosen_vertical_speed as i64,
        );
        interpolation(
            MODE_5_SOFT_ALERT_BREAKPOINTS.as_slice(),
            MODE_5_SOFT_ALERT_VALUES.as_slice(),
            deviation,
        ) < self.radio_altitude && deviation > 113_750 && self.radio_altitude
            < mode_5_soft_alert_upper_boundary && self.radio_altitude > 50_000 && armed
    }

    fn is_mode_5_soft_voice(&self, soft_aural: bool, hard: bool) -> (active: bool)
        ensures
            active == self.mode_5_soft_voice(soft_aural, hard),
    {
        if self.pin_programs.audio_declutter_disable {
            soft_aural && !hard && self.mode_5_time_to_next_aural == 0
        } else {
            soft_aural && !hard
        }
    }

    fn is_mode_5_hard_voice(&self, hard: bool) -> (active: bool)
        ensures
            active == self.mode_5_hard_voice(hard),
    {
        hard && self.mode_5_time_to_next_aural == 0
    }

    fn compute_time_to_next_aural(&self, delta: u64, fly_up: i64, soft_aural: bool, hard: bool) -> (pause:
        u64)
        requires
            -0x8000_0000 <= fly_up <= 0x8000_0000,
        ensures
            pause == self.next_time_to_next_aural(delta, fly_up as int, soft_aural, hard),
    {
        if self.pin_programs.audio_declutter_disable {
            if !(hard || soft_aural) {
                0
            } else if self.mode_5_time_to_next_aural == 0 && (self.aural_output
                == AuralWarning::GlideslopeHard || self.aural_output
                == AuralWarning::GlideslopeSoft) && self.number_of_aural_warning_emissions > 0 {
                compute_glideslope_pause(self.radio_altitude, fly_up)
            } else {
                self.mode_5_time_to_next_aural.saturating_sub(delta)
            }
        } else {
            if !hard {
                0
            } else if self.mode_5_time_to_next_aural == 0 && self.aural_output
                == AuralWarning::GlideslopeHard && self.number_of_aural_warning_emissions > 0 {
                MODE_5_HARD_ALERT_PAUSE
            } else {
                self.mode_5_time_to_next_aural.saturating_sub(delta)
            }
        }
    }

    fn compute_declutter_threshold_steps(&self, soft_lamp: bool, soft_voice: bool) -> (steps: u32)
        ensures
            steps == self.next_declutter_threshold_steps(soft_lamp, soft_voice),
    {
        if self.pin_programs.audio_declutter_disable {
            self.mode_5_declutter_threshold_steps
        } else if !soft_lamp {
            0
        } else if soft_voice && self.aural_output == AuralWarning::GlideslopeSoft
            && self.number_of_aural_warning_emissions > 0 {
            self.mode_5_declutter_threshold_steps.saturating_add(1)
        } else {
            self.mode_5_declutter_threshold_steps
        }
    }

    fn is_mode_5_lamp(armed: bool, soft_lamp: bool, hard: bool) -> (lit: bool)
        ensures
            lit == (armed && (soft_lamp || hard)),
    {
        armed && (soft_lamp || hard)
    }

    /// Runs mode 5: the glideslope lamp and the soft and hard voice
    /// requests.
    pub fn update_mode_5_logic(
        &mut self,
        delta: u64,
        ils: &InstrumentLandingSystemBus,
        ir: &InertialReferenceBus,
        discrete_inputs: &TerrainAwarenessWarningSystemDiscreteInputs,
    )
        ensures
            *final(self) == old(self).after_mode_5_logic(delta, *ils, *ir, *discrete_inputs),
    {
        let gs_deviation_fly_up: i64 = compute_fly_up_deviation(ils);
        let mode_5_active: bool = self.is_mode_5_armed(ils, ir, discrete_inputs);
        let hard: bool = self.is_mode_5_hard_boundary_met(gs_deviation_fly_up, mode_5_active);
        let soft_lamp: bool = self.is_mode_5_soft_boundary_met(gs_deviation_fly_up, mode_5_active);
        let soft_alert_aural_boundary_biased: i64 = compute_decluttered_deviation(
            gs_deviation_fly_up,
            self.mode_5_declutter_threshold_steps,
        );
        let soft_aural: bool = self.is_mode_5_soft_boundary_met(
            soft_alert_aural_boundary_biased,
            mode_5_active,
        );
        let soft_voice: bool = self.is_mode_5_soft_voice(soft_aural, hard);
        let hard_voice: bool = self.is_mode_5_hard_voice(hard);
        let pause: u64 = self.compute_time_to_next_aural(
            delta,
            gs_deviation_fly_up,
            soft_aural,
            hard,
        );
        let steps: u32 = self.compute_declutter_threshold_steps(soft_lamp, soft_voice);
        let lamp: bool = Self::is_mode_5_lamp(mode_5_active, soft_lamp, hard);
        *self = RuntimeState {
            mode_5_glideslope_lamp_active: lamp,
            mode_5_glideslope_soft_voice_active: soft_voice,
            mode_5_glideslope_hard_voice_active: hard_voice,
            mode_5_time_to_next_aural: pause,
            mode_5_declutter_threshold_steps: steps,
            ..*self
        };
    }
}

} // verus!
