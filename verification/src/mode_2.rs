//! Mode 2: excessive closure rate to terrain.

use vstd::prelude::*;
use crate::arinc429::SignStatus;
use crate::arith::{abs, clamp, div_floor, saturate, saturate_i32};
use crate::aural::AuralWarning;
use crate::derivative::DerivativeNode;
use crate::interpolation::{interp1, interpolation};
use crate::logic_nodes::MonostableTriggerNode;
use crate::low_pass_filter::LowPassFilter;
use crate::rate_limiter::RateLimiter;
use crate::sensors::{AirDataReferenceBus, InstrumentLandingSystemBus};
use crate::state::RuntimeState;
use crate::taws::TerrainAwarenessWarningSystemDiscreteInputs;

verus! {

pub const MODE_2_ALERT_AREA_BREAKPOINTS: [i32; 3] = [2_038_000, 3_545_000, 9_800_000];

pub const MODE_2_ALERT_AREA_VALUES: [i32; 3] = [30_000, 1_220_000, 2_450_000];

pub const MODE_2_B_CUTOFF_AREA_BREAKPOINTS: [i32; 2] = [-1_000_000, -400_000];

pub const MODE_2_B_CUTOFF_AREA_VALUES: [i32; 2] = [600_000, 200_000];

/// The closure rate in feet per minute that goes with a rate of change of
/// the radio altitude in feet per second.
pub open spec fn closure_rate_of(altitude_rate: i32) -> i32 {
    saturate(altitude_rate * -60) as i32
}

/// The upper boundary of mode 2A: 1650 ft at 220 kt, rising by 8.9 ft per
/// knot up to 2450 ft.
pub open spec fn mode_2_a_upper_boundary(airspeed: i32) -> int {
    clamp(1_650_000 + (89 * (airspeed - 220_000)) / 10, 1_650_000, 2_450_000)
}

/// On the beam: both deviations are in normal operation and small, the
/// glideslope one below 0.175 and the localizer one below 0.155.
pub open spec fn on_the_beam(ils: InstrumentLandingSystemBus) -> bool {
    &&& ils.glideslope_deviation.status == SignStatus::NormalOperation
    &&& ils.localizer_deviation.status == SignStatus::NormalOperation
    &&& abs(ils.glideslope_deviation.value as int) < 175_000
    &&& abs(ils.localizer_deviation.value as int) < 155_000
}

fn compute_closure_rate_of(altitude_rate: i32) -> (rate: i32)
    ensures
        rate == closure_rate_of(altitude_rate),
{
    saturate_i32(altitude_rate as i128 * -60)
}

fn compute_mode_2_a_upper_boundary(airspeed: i32) -> (boundary: i32)
    ensures
        boundary == mode_2_a_upper_boundary(airspeed),
{
    let slope: i128 = div_floor(89 * (airspeed as i128 - 220_000), 10);
    let boundary: i128 = 1_650_000 + slope;
    if boundary < 1_650_000 {
        1_650_000
    } else if boundary > 2_450_000 {
        2_450_000
    } else {
        boundary as i32
    }
}

fn is_on_the_beam(ils: &InstrumentLandingSystemBus) -> (on: bool)
    ensures
        on == on_the_beam(*ils),
{
    let glideslope: i64 = ils.glideslope_deviation.value() as i64;
    let localizer: i64 = ils.localizer_deviation.value() as i64;
    let glideslope_size: i64 = if glideslope < 0 {
        -glideslope
    } else {
        glideslope
    };
    let localizer_size: i64 = if localizer < 0 {
        -localizer
    } else {
        localizer
    };
    ils.glideslope_deviation.is_normal_operation() && ils.localizer_deviation.is_normal_operation()
        && glideslope_size < 175_000 && localizer_size < 155_000
}

impl RuntimeState {
    /// Mode 2B takes the place of mode 2A: for a minute after lift-off, with
    /// landing flaps, or on the beam.
    pub open spec fn mode_2_b_active(
        self,
        latch: MonostableTriggerNode,
        discrete_inputs: TerrainAwarenessWarningSystemDiscreteInputs,
        ils: InstrumentLandingSystemBus,
    ) -> bool {
        latch.active() || discrete_inputs.landing_flaps || on_the_beam(ils)
    }

    /// The radio altitude below which the envelope lies.
    pub open spec fn mode_2_upper_boundary(self, b_active: bool, adr: AirDataReferenceBus) -> int {
        if b_active {
            789_000
        } else {
            mode_2_a_upper_boundary(adr.computed_airspeed.value)
        }
    }

    /// The radio altitude above which the envelope lies.
    pub open spec fn mode_2_lower_boundary(
        self,
        b_active: bool,
        discrete_inputs: TerrainAwarenessWarningSystemDiscreteInputs,
    ) -> int {
        if b_active && discrete_inputs.landing_flaps {
            interp1(
                MODE_2_B_CUTOFF_AREA_BREAKPOINTS@,
                MODE_2_B_CUTOFF_AREA_VALUES@,
                self.chosen_vertical_speed as int,
            )
        } else {
            30_000
        }
    }

    /// The aircraft is inside the envelope, the filtered closure rate and
    /// the two boundaries being given.
    pub open spec fn mode_2_boundary_met(self, closure_rate: i32, lower: int, upper: int) -> bool {
        &&& interp1(
            MODE_2_ALERT_AREA_BREAKPOINTS@,
            MODE_2_ALERT_AREA_VALUES@,
            closure_rate as int,
        ) >= self.radio_altitude
        &&& closure_rate > 2_038_000
        &&& lower < self.radio_altitude < upper
    }

    /// Whether the terrain preface counts as spoken, after the tick. Inside
    /// the envelope it does once the terrain call has been spoken twice;
    /// outside of it, or with flaps and gear down, it does not.
    pub open spec fn next_preface_emitted(self, met: bool, terrain_only: bool) -> bool {
        if met && !self.mode_2_pull_up_preface_voice_emitted && !terrain_only {
            self.number_of_aural_warning_emissions >= 2 && self.aural_output
                == AuralWarning::Terrain
        } else if !met || terrain_only {
            false
        } else {
            self.mode_2_pull_up_preface_voice_emitted
        }
    }

    /// The state after mode 2 has run. The closure rate is the rate of
    /// change of the radio altitude, slew limited to 170 ft/s, turned into
    /// feet per minute toward the terrain, slew limited to 2900 ft/min per
    /// second and low-pass filtered over a second.
    pub open spec fn after_mode_2_logic(
        self,
        delta: u64,
        adr: AirDataReferenceBus,
        discrete_inputs: TerrainAwarenessWarningSystemDiscreteInputs,
        ils: InstrumentLandingSystemBus,
    ) -> RuntimeState {
        let latch = self.mode_2_takeoff_latch_node.updated(self.on_ground, delta);
        let ra_limiter = self.mode_2_ra_rate_limiter.updated(delta, self.radio_altitude);
        let derivative = self.mode_2_closure_rate_derivative.updated(ra_limiter.value(), delta);
        let closure_limiter = self.mode_2_closure_rate_rate_limiter.updated(
            delta,
            closure_rate_of(derivative.rate),
        );
        let filter = self.mode_2_ra_filter.updated(delta, closure_limiter.value());
        let b_active = self.mode_2_b_active(latch, discrete_inputs, ils);
        let met = self.mode_2_boundary_met(
            filter.output,
            self.mode_2_lower_boundary(b_active, discrete_inputs),
            self.mode_2_upper_boundary(b_active, adr),
        );
        let terrain_only = discrete_inputs.landing_flaps
            && discrete_inputs.landing_gear_downlocked;
        let emitted = self.next_preface_emitted(met, terrain_only);
        RuntimeState {
            mode_2_takeoff_latch_node: latch,
            mode_2_ra_rate_limiter: ra_limiter,
            mode_2_closure_rate_derivative: derivative,
            mode_2_closure_rate_rate_limiter: closure_limiter,
            mode_2_ra_filter: filter,
            mode_2_pull_up_preface_voice_emitted: emitted,
            mode_2_pull_up_preface_active: !terrain_only && met && !emitted,
            mode_2_pull_up_active: !terrain_only && met && emitted,
            mode_2_terrain_active: terrain_only && met,
            ..self
        }
    }

    /// Mode 2 ends with the closure: a filtered closure rate of at most
    /// 2038 ft/min after the tick leaves none of the requests of the mode
    /// up, and the preface due again.
    pub proof fn lemma_mode_2_ends_without_closure(
        self,
        delta: u64,
        adr: AirDataReferenceBus,
        discrete_inputs: TerrainAwarenessWarningSystemDiscreteInputs,
        ils: InstrumentLandingSystemBus,
    )
        ensures
            ({
                let next = self.after_mode_2_logic(delta, adr, discrete_inputs, ils);
                next.mode_2_ra_filter.output <= 2_038_000 ==> {
                    &&& !next.mode_2_pull_up_preface_active
                    &&& !next.mode_2_pull_up_active
                    &&& !next.mode_2_terrain_active
                    &&& !next.mode_2_pull_up_preface_voice_emitted
                }
            }),
    {
    }

    fn is_mode_2_b_active(
        &self,
        latch: &MonostableTriggerNode,
        discrete_inputs: &TerrainAwarenessWarningSystemDiscreteInputs,
        ils: &InstrumentLandingSystemBus,
    ) -> (active: bool)
        ensures
            active == self.mode_2_b_active(*latch, *discrete_inputs, *ils),
    {
        latch.output() || discrete_inputs.landing_flaps || is_on_the_beam(ils)
    }

    fn compute_mode_2_upper_boundary(&self, b_active: bool, adr: &AirDataReferenceBus) -> (boundary:
        i32)
        ensures
            boundary == self.mode_2_upper_boundary(b_active, *adr),
    {
        if b_active {
            789_000
        } else {
            compute_mode_2_a_upper_boundary(adr.computed_airspeed.value_or_default())
        }
    }

    fn compute_mode_2_lower_boundary(
        &self,
        b_active: bool,
        discrete_inputs: &TerrainAwarenessWarningSystemDiscreteInputs,
    ) -> (boundary: i32)
        ensures
            boundary == self.mode_2_lower_boundary(b_active, *discrete_inputs),
    {
        if b_active && discrete_inputs.landing_flaps {
            interpolation(
                MODE_2_B_CUTOFF_AREA_BREAKPOINTS.as_slice(),
                MODE_2_B_CUTOFF_AREA_VALUES.as_slice(),
                self.chosen_vertical_speed as i64,
            )
        } else {
            30_000
        }
    }

    fn is_mode_2_boundary_met(&self, closure_rate: i32, lower: i32, upper: i32) -> (met: bool)
        ensures
            met == self.mode_2_boundary_met(closure_rate, lower as int, upper as int),
    {
        interpolation(
            MODE_2_ALERT_AREA_BREAKPOINTS.as_slice(),
            MODE_2_ALERT_AREA_VALUES.as_slice(),
            closure_rate as i64,
        ) >= self.radio_altitude && closure_rate > 2_038_000 && self.radio_altitude > lower
            && self.radio_altitude < upper
    }

    fn compute_preface_emitted(&self, met: bool, terrain_only: bool) -> (emitted: bool)
        ensures
            emitted == self.next_preface_emitted(met, terrain_only),
    {
        if met && !self.mode_2_pull_up_preface_voice_emitted && !terrain_only {
            self.number_of_aural_warning_emissions >= 2 && self.aural_output
                == AuralWarning::Terrain
        } else if !met || terrain_only {
            false
        } else {
            self.mode_2_pull_up_preface_voice_emitted
        }
    }

    /// Runs mode 2: the terrain preface, the pull up request and the terrain
    /// call.
    pub fn update_mode_2_logic(
        &mut self,
        delta: u64,
        adr: &AirDataReferenceBus,
        discrete_inputs: &TerrainAwarenessWarningSystemDiscreteInputs,
        ils: &InstrumentLandingSystemBus,
    )
        ensures
            *final(self) == old(self).after_mode_2_logic(delta, *adr, *discrete_inputs, *ils),
    {
        let mut latch: MonostableTriggerNode = self.mode_2_takeoff_latch_node;
        latch.update(self.on_ground, delta);

        let mut ra_limiter: RateLimiter = self.mode_2_ra_rate_limiter;
        let ra_ratelim: i32 = ra_limiter.update(delta, self.radio_altitude);
        let mut derivative: DerivativeNode = self.mode_2_closure_rate_derivative;
        let altitude_rate: i32 = derivative.update(ra_ratelim, delta);
        let closure_rate_raw: i32 = compute_closure_rate_of(altitude_rate);
        let mut closure_limiter: RateLimiter = self.mode_2_closure_rate_rate_limiter;
        let closure_rate_limited: i32 = closure_limiter.update(delta, closure_rate_raw);
        let mut filter: LowPassFilter = self.mode_2_ra_filter;
        let filtered_closure_rate: i32 = filter.update(delta, closure_rate_limited);

        let mode_2_b_active: bool = self.is_mode_2_b_active(&latch, discrete_inputs, ils);
        let upper: i32 = self.compute_mode_2_upper_boundary(mode_2_b_active, adr);
        let lower: i32 = self.compute_mode_2_lower_boundary(mode_2_b_active, discrete_inputs);
        let met: bool = self.is_mode_2_boundary_met(filtered_closure_rate, lower, upper);
        let aural_terrain_only: bool = both(
            discrete_inputs.landing_flaps,
            discrete_inputs.landing_gear_downlocked,
        );
        let emitted: bool = self.compute_preface_emitted(met, aural_terrain_only);
        let preface: bool = all_of(!aural_terrain_only, met, !emitted);
        let pull_up: bool = all_of(!aural_terrain_only, met, emitted);
        let terrain: bool = both(aural_terrain_only, met);
        *self = RuntimeState {
            mode_2_takeoff_latch_node: latch,
            mode_2_ra_rate_limiter: ra_limiter,
            mode_2_closure_rate_derivative: derivative,
            mode_2_closure_rate_rate_limiter: closure_limiter,
            mode_2_ra_filter: filter,
            mode_2_pull_up_preface_voice_emitted: emitted,
            mode_2_pull_up_preface_active: preface,
            mode_2_pull_up_active: pull_up,
            mode_2_terrain_active: terrain,
            ..*self
        };
    }
}

fn both(a: bool, b: bool) -> (r: bool)
    ensures
        r == (a && b),
{
    a && b
}

fn all_of(a: bool, b: bool, c: bool) -> (r: bool)
    ensures
        r == (a && b && c),
{
    a && b && c
}

} // verus!
