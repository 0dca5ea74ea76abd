//! How long the lamps of mode 1 take to follow their boundaries while the
//! inputs stay as they are.

use vstd::prelude::*;
use crate::logic_nodes::total_time;
use crate::mode_1::{glideslope_bias, pull_up_boundary_met, sink_rate_boundary_met};
use crate::sensors::{
    AirDataReferenceBus,
    InertialReferenceBus,
    InstrumentLandingSystemBus,
    RadioAltimeter,
};
use crate::state::{EnhancedGroundProximityWarningComputerPinProgramming, RuntimeState};
use crate::taws::TerrainAwarenessWarningSystemDiscreteInputs;
use crate::validation::{selected_radio_altitude, selected_value};

verus! {

/// What the computer samples in one tick.
pub struct Samples {
    pub discrete_inputs: TerrainAwarenessWarningSystemDiscreteInputs,
    pub ra1: RadioAltimeter,
    pub ra2: RadioAltimeter,
    pub adr: AirDataReferenceBus,
    pub ir: InertialReferenceBus,
    pub ils: InstrumentLandingSystemBus,
}

impl Samples {
    /// The radio altitude that is selected from the samples.
    pub open spec fn radio_altitude(self) -> i32 {
        selected_radio_altitude(self.ra1.radio_altitude, self.ra2.radio_altitude)
    }

    /// The vertical speed that is selected from the samples.
    pub open spec fn vertical_speed(self) -> i32 {
        selected_value(self.ir.inertial_vertical_speed, self.adr.vertical_speed)
    }

    /// The samples meet the sink rate boundary of mode 1.
    pub open spec fn meets_sink_rate_boundary(
        self,
        pin_programs: EnhancedGroundProximityWarningComputerPinProgramming,
    ) -> bool {
        sink_rate_boundary_met(
            if pin_programs.audio_declutter_disable {
                self.vertical_speed() as int
            } else {
                self.vertical_speed() + glideslope_bias(
                    self.radio_altitude(),
                    self.ils.glideslope_deviation.value,
                )
            },
            self.radio_altitude(),
        )
    }

    /// The samples meet the pull up boundary of mode 1.
    pub open spec fn meets_pull_up_boundary(self) -> bool {
        pull_up_boundary_met(self.vertical_speed(), self.radio_altitude())
    }
}

impl RuntimeState {
    /// The state after one tick on the samples.
    pub open spec fn after_tick(self, delta: u64, samples: Samples) -> RuntimeState {
        self.after_update(
            delta,
            samples.discrete_inputs,
            samples.ra1,
            samples.ra2,
            samples.adr,
            samples.ir,
            samples.ils,
        )
    }

    /// The state after a run of ticks during which the samples did not
    /// change.
    pub open spec fn after_ticks(self, deltas: Seq<u64>, samples: Samples) -> RuntimeState
        decreases deltas.len(),
    {
        if deltas.len() == 0 {
            self
        } else {
            self.after_ticks(deltas.drop_last(), samples).after_tick(deltas.last(), samples)
        }
    }

    /// One tick after the self test advances the two debounces of mode 1 on
    /// the boundaries that the samples meet, and shows their outputs.
    pub proof fn lemma_tick_advances_mode_1(self, delta: u64, samples: Samples)
        requires
            self.remaining_startup == 0,
        ensures
            ({
                let next = self.after_tick(delta, samples);
                &&& next.remaining_startup == 0
                &&& next.pin_programs == self.pin_programs
                &&& next.mode_1_sinkrate_debounce == self.mode_1_sinkrate_debounce.updated(
                    samples.meets_sink_rate_boundary(self.pin_programs),
                    delta,
                )
                &&& next.mode_1_pull_up_debounce == self.mode_1_pull_up_debounce.updated(
                    samples.meets_pull_up_boundary(),
                    delta,
                )
                &&& next.mode_1_sinkrate_lamp_active == next.mode_1_sinkrate_debounce.output()
                &&& next.mode_1_pull_up_active == next.mode_1_pull_up_debounce.output()
                &&& next.warning_lamp_activated == next.warning_lamp(samples.discrete_inputs)
                &&& next.alert_lamp_activated == next.alert_lamp(samples.discrete_inputs)
            }),
    {
    }

    /// A run of ticks after the self test runs the two debounces of mode 1
    /// on the boundaries that the samples meet.
    pub proof fn lemma_ticks_run_mode_1(self, deltas: Seq<u64>, samples: Samples)
        requires
            self.remaining_startup == 0,
        ensures
            ({
                let end = self.after_ticks(deltas, samples);
                &&& end.remaining_startup == 0
                &&& end.pin_programs == self.pin_programs
                &&& end.mode_1_sinkrate_debounce == self.mode_1_sinkrate_debounce.run(
                    samples.meets_sink_rate_boundary(self.pin_programs),
                    deltas,
                )
                &&& end.mode_1_pull_up_debounce == self.mode_1_pull_up_debounce.run(
                    samples.meets_pull_up_boundary(),
                    deltas,
                )
                &&& deltas.len() > 0 ==> {
                    &&& end.mode_1_sinkrate_lamp_active == end.mode_1_sinkrate_debounce.output()
                    &&& end.mode_1_pull_up_active == end.mode_1_pull_up_debounce.output()
                    &&& end.warning_lamp_activated == end.warning_lamp(samples.discrete_inputs)
                    &&& end.alert_lamp_activated == end.alert_lamp(samples.discrete_inputs)
                }
            }),
        decreases deltas.len(),
    {
        if deltas.len() > 0 {
            self.lemma_ticks_run_mode_1(deltas.drop_last(), samples);
            self.after_ticks(deltas.drop_last(), samples).lemma_tick_advances_mode_1(
                deltas.last(),
                samples,
            );
        }
    }

    /// The sink rate lamp latches within its rising confirmation time: with
    /// samples that stay as they are and meet the sink rate boundary, the
    /// lamp request is up after ticks that add up to 800 ms, and with it
    /// the lamp of the format in use unless the inhibit discrete is set.
    pub proof fn lemma_sink_rate_lamp_latches(self, deltas: Seq<u64>, samples: Samples)
        requires
            self.configured(),
            self.remaining_startup == 0,
            samples.meets_sink_rate_boundary(self.pin_programs),
            deltas.len() > 0,
            total_time(deltas) >= 800_000_000,
        ensures
            self.after_ticks(deltas, samples).mode_1_sinkrate_lamp_active,
            !samples.discrete_inputs.gpws_inhibit ==> if self.pin_programs.alternate_lamp_format {
                self.after_ticks(deltas, samples).alert_lamp_activated
            } else {
                self.after_ticks(deltas, samples).warning_lamp_activated
            },
    {
        self.lemma_ticks_run_mode_1(deltas, samples);
        self.mode_1_sinkrate_debounce.lemma_latches(deltas);
    }

    /// The sink rate lamp clears within its falling confirmation time: with
    /// samples that stay as they are and do not meet the sink rate boundary,
    /// the lamp request is down after ticks that add up to 200 ms.
    pub proof fn lemma_sink_rate_lamp_clears(self, deltas: Seq<u64>, samples: Samples)
        requires
            self.configured(),
            self.remaining_startup == 0,
            !samples.meets_sink_rate_boundary(self.pin_programs),
            deltas.len() > 0,
            total_time(deltas) >= 200_000_000,
        ensures
            !self.after_ticks(deltas, samples).mode_1_sinkrate_lamp_active,
    {
        self.lemma_ticks_run_mode_1(deltas, samples);
        self.mode_1_sinkrate_debounce.lemma_clears(deltas);
    }

    /// The pull up request latches within its rising confirmation time:
    /// with samples that stay as they are and meet the pull up boundary, it
    /// is up after ticks that add up to 1600 ms, and with it the warning
    /// lamp unless the inhibit discrete is set.
    pub proof fn lemma_pull_up_latches(self, deltas: Seq<u64>, samples: Samples)
        requires
            self.configured(),
            self.remaining_startup == 0,
            samples.meets_pull_up_boundary(),
            deltas.len() > 0,
            total_time(deltas) >= 1_600_000_000,
        ensures
            self.after_ticks(deltas, samples).mode_1_pull_up_active,
            !samples.discrete_inputs.gpws_inhibit ==> self.after_ticks(
                deltas,
                samples,
            ).warning_lamp_activated,
    {
        self.lemma_ticks_run_mode_1(deltas, samples);
        self.mode_1_pull_up_debounce.lemma_latches(deltas);
    }

    /// The pull up request clears within its falling confirmation time:
    /// with samples that stay as they are and do not meet the pull up
    /// boundary, it is down after ticks that add up to 200 ms.
    pub proof fn lemma_pull_up_clears(self, deltas: Seq<u64>, samples: Samples)
        requires
            self.configured(),
            self.remaining_startup == 0,
            !samples.meets_pull_up_boundary(),
            deltas.len() > 0,
            total_time(deltas) >= 200_000_000,
        ensures
            !self.after_ticks(deltas, samples).mode_1_pull_up_active,
    {
        self.lemma_ticks_run_mode_1(deltas, samples);
        self.mode_1_pull_up_debounce.lemma_clears(deltas);
    }
}

} // verus!
