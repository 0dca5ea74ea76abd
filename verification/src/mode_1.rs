//! Mode 1: excessive descent rate.

use vstd::prelude::*;
use crate::arith::{clamp, div_floor};
use crate::aural::AuralWarning;
use crate::interpolation::{interp1, interpolation};
use crate::logic_nodes::Debounce;
use crate::sensors::InstrumentLandingSystemBus;
use crate::state::RuntimeState;

verus! {

pub const MODE_1_ALERT_AREA_BREAKPOINTS: [i32; 2] = [-5_007_000, -964_000];

pub const MODE_1_ALERT_AREA_VALUES: [i32; 2] = [2_450_000, 10_000];

pub const MODE_1_WARNING_AREA_BREAKPOINTS: [i32; 3] = [-7_125_000, -1_710_000, -1_482_000];

pub const MODE_1_WARNING_AREA_VALUES: [i32; 3] = [2_450_000, 284_000, 10_000];

/// What is added to the vertical speed above the beam: 300 ft/min times the
/// radio altitude as a share of 100 ft times the glideslope deviation as a
/// share of 0.175, each share held between 0 and 1.
pub open spec fn glideslope_bias(radio_altitude: i32, glideslope_deviation: i32) -> int {
    (3 * (clamp(radio_altitude as int, 0, 100_000) * clamp(
        glideslope_deviation as int,
        0,
        175_000,
    ))) / 175_000
}

/// The radio altitude over the rate of descent, in millionths of a minute.
/// It is negative in a climb and zero in level flight.
pub open spec fn time_to_impact(radio_altitude: i32, vertical_speed: i32) -> int {
    if vertical_speed < 0 {
        (radio_altitude * 1_000_000) / (-vertical_speed)
    } else if vertical_speed > 0 {
        (-radio_altitude * 1_000_000) / (vertical_speed as int)
    } else {
        0
    }
}

/// The sink rate boundary: the aircraft is between 10 and 2450 ft, descends
/// by more than 964 ft/min, and is at or below the altitude that the alert
/// area gives for its rate of descent.
pub open spec fn sink_rate_boundary_met(biased_vertical_speed: int, radio_altitude: i32) -> bool {
    &&& interp1(
        MODE_1_ALERT_AREA_BREAKPOINTS@,
        MODE_1_ALERT_AREA_VALUES@,
        biased_vertical_speed,
    ) >= radio_altitude
    &&& 10_000 < radio_altitude < 2_450_000
    &&& biased_vertical_speed < -964_000
}

/// The pull up boundary: the aircraft is between 10 and 2450 ft, descends by
/// more than 1482 ft/min, and is at or below the altitude that the warning
/// area gives for its rate of descent.
pub open spec fn pull_up_boundary_met(vertical_speed: i32, radio_altitude: i32) -> bool {
    &&& interp1(
        MODE_1_WARNING_AREA_BREAKPOINTS@,
        MODE_1_WARNING_AREA_VALUES@,
        vertical_speed as int,
    ) >= radio_altitude
    &&& 10_000 < radio_altitude < 2_450_000
    &&& vertical_speed < -1_482_000
}

fn compute_glideslope_bias(radio_altitude: i32, glideslope_deviation: i32) -> (bias: i64)
    ensures
        bias == glideslope_bias(radio_altitude, glideslope_deviation),
        0 <= bias <= 300_000,
{
    let height: i64 = if radio_altitude < 0 {
        0
    } else if radio_altitude > 100_000 {
        100_000
    } else {
        radio_altitude as i64
    };
    let deviation: i64 = if glideslope_deviation < 0 {
        0
    } else if glideslope_deviation > 175_000 {
        175_000
    } else {
        glideslope_deviation as i64
    };
    assert(0 <= height * deviation <= 17_500_000_000) by (nonlinear_arith)
        requires
            0 <= height <= 100_000,
            0 <= deviation <= 175_000,
    ;
    let product: i64 = 3 * (height * deviation);
    (product / 175_000) as i64
}

fn compute_time_to_impact(radio_altitude: i32, vertical_speed: i32) -> (time: i64)
    ensures
        time == time_to_impact(radio_altitude, vertical_speed),
        -0x10_0000_0000_0000 <= time <= 0x10_0000_0000_0000,
{
    let scaled: i128 = radio_altitude as i128 * 1_000_000;
    if vertical_speed < 0 {
        div_floor(scaled, -(vertical_speed as i128)) as i64
    } else if vertical_speed > 0 {
        div_floor(-scaled, vertical_speed as i128) as i64
    } else {
        0
    }
}

impl RuntimeState {
    /// The vertical speed the sink rate boundary is held against. With the
    /// audio declutter in use it is biased above the beam.
    pub open spec fn biased_vertical_speed(self, ils: InstrumentLandingSystemBus) -> int {
        if self.pin_programs.audio_declutter_disable {
            self.chosen_vertical_speed as int
        } else {
            self.chosen_vertical_speed + glideslope_bias(
                self.radio_altitude,
                ils.glideslope_deviation.value,
            )
        }
    }

    /// The sink rate boundary is met.
    pub open spec fn mode_1_alert_boundary_met(self, ils: InstrumentLandingSystemBus) -> bool {
        sink_rate_boundary_met(self.biased_vertical_speed(ils), self.radio_altitude)
    }

    /// The pull up boundary is met.
    pub open spec fn mode_1_warning_boundary_met(self) -> bool {
        pull_up_boundary_met(self.chosen_vertical_speed, self.radio_altitude)
    }

    /// The time to impact is less than four fifths of the stored one.
    pub open spec fn time_to_impact_worsened(self) -> bool {
        time_to_impact(self.radio_altitude, self.chosen_vertical_speed) * 10
            < self.mode_1_sinkrate_time_to_impact * 8
    }

    /// The stored time to impact after the tick, the new state of the lamp
    /// being given: the present one when the lamp is lit and either none is
    /// stored or it has worsened, none when the lamp is out.
    pub open spec fn next_time_to_impact(self, lamp: bool) -> int {
        if (self.mode_1_sinkrate_time_to_impact == 0 || self.time_to_impact_worsened()) && lamp {
            time_to_impact(self.radio_altitude, self.chosen_vertical_speed)
        } else if !lamp {
            0
        } else {
            self.mode_1_sinkrate_time_to_impact as int
        }
    }

    /// Whether the sink rate call counts as made for the stored time to
    /// impact, after the tick. It does once it was spoken twice while the
    /// time to impact had not worsened, and no longer when it has worsened
    /// or the lamp is out.
    pub open spec fn next_sinkrate_emitted(self, lamp: bool) -> bool {
        let twice = self.number_of_aural_warning_emissions >= 2 && self.aural_output
            == AuralWarning::SinkRate;
        if !self.mode_1_sinkrate_emitted_for_current_time_to_impact && twice
            && !self.time_to_impact_worsened() {
            true
        } else if (self.mode_1_sinkrate_emitted_for_current_time_to_impact
            && self.time_to_impact_worsened()) || !lamp {
            false
        } else {
            self.mode_1_sinkrate_emitted_for_current_time_to_impact
        }
    }

    /// The state after mode 1 has run.
    pub open spec fn after_mode_1_logic(
        self,
        delta: u64,
        ils: InstrumentLandingSystemBus,
    ) -> RuntimeState {
        let sinkrate = self.mode_1_sinkrate_debounce.updated(
            self.mode_1_alert_boundary_met(ils),
            delta,
        );
        let pull_up = self.mode_1_pull_up_debounce.updated(
            self.mode_1_warning_boundary_met(),
            delta,
        );
        let emitted = self.next_sinkrate_emitted(sinkrate.output());
        RuntimeState {
            mode_1_sinkrate_debounce: sinkrate,
            mode_1_pull_up_debounce: pull_up,
            mode_1_sinkrate_time_to_impact: self.next_time_to_impact(sinkrate.output()) as i64,
            mode_1_sinkrate_emitted_for_current_time_to_impact: emitted,
            mode_1_sinkrate_lamp_active: sinkrate.output(),
            mode_1_pull_up_active: pull_up.output(),
            mode_1_sinkrate_voice_active: sinkrate.output() && !pull_up.output() && (
            self.pin_programs.audio_declutter_disable || !emitted),
            ..self
        }
    }

    /// The sink rate lamp and the pull up request are what their debounces
    /// put out, and the debounces see the two boundaries of the tick: the
    /// lamp latches and clears as `Debounce::lemma_latches`,
    /// `Debounce::lemma_clears` and `Debounce::lemma_not_early` say, after
    /// 800 ms and 200 ms for the sink rate and 1600 ms and 200 ms for the
    /// pull up.
    pub proof fn lemma_mode_1_lamps_are_debounced(
        self,
        delta: u64,
        ils: InstrumentLandingSystemBus,
    )
        ensures
            ({
                let next = self.after_mode_1_logic(delta, ils);
                &&& next.mode_1_sinkrate_debounce == self.mode_1_sinkrate_debounce.updated(
                    self.mode_1_alert_boundary_met(ils),
                    delta,
                )
                &&& next.mode_1_sinkrate_lamp_active == next.mode_1_sinkrate_debounce.output()
                &&& next.mode_1_pull_up_debounce == self.mode_1_pull_up_debounce.updated(
                    self.mode_1_warning_boundary_met(),
                    delta,
                )
                &&& next.mode_1_pull_up_active == next.mode_1_pull_up_debounce.output()
            }),
    {
    }

    fn compute_biased_vertical_speed(&self, ils: &InstrumentLandingSystemBus) -> (speed: i64)
        ensures
            speed == self.biased_vertical_speed(*ils),
    {
        if self.pin_programs.audio_declutter_disable {
            self.chosen_vertical_speed as i64
        } else {
            self.chosen_vertical_speed as i64 + compute_glideslope_bias(
                self.radio_altitude,
                ils.glideslope_deviation.value(),
            )
        }
    }

    fn is_mode_1_alert_boundary_met(&self, ils: &InstrumentLandingSystemBus) -> (met: bool)
        ensures
            met == self.mode_1_alert_boundary_met(*ils),
    {
        let biased_vertical_speed: i64 = self.compute_biased_vertical_speed(ils);
        interpolation(
            MODE_1_ALERT_AREA_BREAKPOINTS.as_slice(),
            MODE_1_ALERT_AREA_VALUES.as_slice(),
            biased_vertical_speed,
        ) >= self.radio_altitude && self.radio_altitude > 10_000 && self.radio_altitude
            < 2_450_000 && biased_vertical_speed < -964_000
    }

    fn is_mode_1_warning_boundary_met(&self) -> (met: bool)
        ensures
            met == self.mode_1_warning_boundary_met(),
    {
        interpolation(
            MODE_1_WARNING_AREA_BREAKPOINTS.as_slice(),
            MODE_1_WARNING_AREA_VALUES.as_slice(),
            self.chosen_vertical_speed as i64,
        ) >= self.radio_altitude && self.radio_altitude > 10_000 && self.radio_altitude
            < 2_450_000 && self.chosen_vertical_speed < -1_482_000
    }

    fn is_time_to_impact_worsened(&self) -> (worsened: bool)
        ensures
            worsened == self.time_to_impact_worsened(),
    {
        let current: i128 = compute_time_to_impact(
            self.radio_altitude,
            self.chosen_vertical_speed,
        ) as i128;
        current * 10 < self.mode_1_sinkrate_time_to_impact as i128 * 8
    }

    fn compute_time_to_impact_store(&self, lamp: bool) -> (stored: i64)
        ensures
            stored == self.next_time_to_impact(lamp),
    {
        let worsened: bool = self.is_time_to_impact_worsened();
        if (self.mode_1_sinkrate_time_to_impact == 0 || worsened) && lamp {
            compute_time_to_impact(self.radio_altitude, self.chosen_vertical_speed)
        } else if !lamp {
            0
        } else {
            self.mode_1_sinkrate_time_to_impact
        }
    }

    fn compute_sinkrate_emitted(&self, lamp: bool) -> (emitted: bool)
        ensures
            emitted == self.next_sinkrate_emitted(lamp),
    {
        let worsened: bool = self.is_time_to_impact_worsened();
        let sinkrate_voice_emitted_twice: bool = self.number_of_aural_warning_emissions >= 2
            && self.aural_output == AuralWarning::SinkRate;
        if !self.mode_1_sinkrate_emitted_for_current_time_to_impact
            && sinkrate_voice_emitted_twice && !worsened {
            true
        } else if (self.mode_1_sinkrate_emitted_for_current_time_to_impact && worsened) || !lamp {
            false
        } else {
            self.mode_1_sinkrate_emitted_for_current_time_to_impact
        }
    }

    fn is_sinkrate_voice_active(&self, lamp: bool, pull_up: bool, emitted: bool) -> (active: bool)
        ensures
            active == (lamp && !pull_up && (self.pin_programs.audio_declutter_disable
                || !emitted)),
    {
        lamp && !pull_up && (self.pin_programs.audio_declutter_disable || !emitted)
    }

    /// Runs mode 1: the sink rate lamp and voice and the pull up request.
    pub fn update_mode_1_logic(&mut self, delta: u64, ils: &InstrumentLandingSystemBus)
        ensures
            *final(self) == old(self).after_mode_1_logic(delta, *ils),
    {
        let mode_1_alert_boundary_met: bool = self.is_mode_1_alert_boundary_met(ils);
        let mode_1_warning_boundary_met: bool = self.is_mode_1_warning_boundary_met();
        let mut sinkrate: Debounce = self.mode_1_sinkrate_debounce;
        let lamp: bool = sinkrate.update(mode_1_alert_boundary_met, delta);
        let mut pull_up_debounce: Debounce = self.mode_1_pull_up_debounce;
        let pull_up: bool = pull_up_debounce.update(mode_1_warning_boundary_met, delta);
        let stored: i64 = self.compute_time_to_impact_store(lamp);
        let emitted: bool = self.compute_sinkrate_emitted(lamp);
        let voice: bool = self.is_sinkrate_voice_active(lamp, pull_up, emitted);
        *self = RuntimeState {
            mode_1_sinkrate_debounce: sinkrate,
            mode_1_pull_up_debounce: pull_up_debounce,
            mode_1_sinkrate_time_to_impact: stored,
            mode_1_sinkrate_emitted_for_current_time_to_impact: emitted,
            mode_1_sinkrate_lamp_active: lamp,
            mode_1_pull_up_active: pull_up,
            mode_1_sinkrate_voice_active: voice,
            ..*self
        };
    }
}

} // verus!
