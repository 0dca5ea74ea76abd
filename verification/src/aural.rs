//! The aural warnings, the arbiter that selects one of them per tick, and
//! the count of how often the selected one has been spoken.

use vstd::prelude::*;
use crate::logic_nodes::time_sum;
use crate::state::RuntimeState;
use crate::taws::TerrainAwarenessWarningSystemDiscreteInputs;

verus! {

/// The messages the computer can speak. At most one is selected at a time.
#[derive(Clone, Copy, PartialEq, Eq, Debug, Structural)]
pub enum AuralWarning {
    Silent,
    PullUp,
    Terrain,
    TooLowTerrain,
    TooLowGear,
    TooLowFlaps,
    SinkRate,
    DontSink,
    GlideslopeSoft,
    GlideslopeHard,
    TerrainAhead,
    ObstacleAhead,
}

impl AuralWarning {
    /// The length of one full cycle of the message, the silence after it
    /// counted in, in nanoseconds.
    pub open spec fn duration(self) -> u64 {
        match self {
            AuralWarning::Silent => 0,
            AuralWarning::PullUp => 1_100_000_000,
            AuralWarning::Terrain => 2_400_000_000,
            AuralWarning::TooLowTerrain => 1_100_000_000,
            AuralWarning::TooLowGear => 1_100_000_000,
            AuralWarning::TooLowFlaps => 1_100_000_000,
            AuralWarning::SinkRate => 1_100_000_000,
            AuralWarning::DontSink => 1_100_000_000,
            AuralWarning::GlideslopeSoft => 1_600_000_000,
            AuralWarning::GlideslopeHard => 1_600_000_000,
            AuralWarning::TerrainAhead => 2_400_000_000,
            AuralWarning::ObstacleAhead => 2_400_000_000,
        }
    }

    /// The place of the warning in the list, from 0 for none to 11.
    pub open spec fn ordinal(self) -> u8 {
        match self {
            AuralWarning::Silent => 0,
            AuralWarning::PullUp => 1,
            AuralWarning::Terrain => 2,
            AuralWarning::TooLowTerrain => 3,
            AuralWarning::TooLowGear => 4,
            AuralWarning::TooLowFlaps => 5,
            AuralWarning::SinkRate => 6,
            AuralWarning::DontSink => 7,
            AuralWarning::GlideslopeSoft => 8,
            AuralWarning::GlideslopeHard => 9,
            AuralWarning::TerrainAhead => 10,
            AuralWarning::ObstacleAhead => 11,
        }
    }

    /// The length of one full cycle of the message, in nanoseconds.
    pub fn get_duration(&self) -> (duration: u64)
        ensures
            duration == self.duration(),
    {
        match self {
            AuralWarning::Silent => 0,
            AuralWarning::PullUp => 1_100_000_000,
            AuralWarning::Terrain => 2_400_000_000,
            AuralWarning::TooLowTerrain => 1_100_000_000,
            AuralWarning::TooLowGear => 1_100_000_000,
            AuralWarning::TooLowFlaps => 1_100_000_000,
            AuralWarning::SinkRate => 1_100_000_000,
            AuralWarning::DontSink => 1_100_000_000,
            AuralWarning::GlideslopeSoft => 1_600_000_000,
            AuralWarning::GlideslopeHard => 1_600_000_000,
            AuralWarning::TerrainAhead => 2_400_000_000,
            AuralWarning::ObstacleAhead => 2_400_000_000,
        }
    }

    /// The byte that stands for the warning on the bus.
    pub fn to_ordinal(&self) -> (ordinal: u8)
        ensures
            ordinal == self.ordinal(),
    {
        match self {
            AuralWarning::Silent => 0,
            AuralWarning::PullUp => 1,
            AuralWarning::Terrain => 2,
            AuralWarning::TooLowTerrain => 3,
            AuralWarning::TooLowGear => 4,
            AuralWarning::TooLowFlaps => 5,
            AuralWarning::SinkRate => 6,
            AuralWarning::DontSink => 7,
            AuralWarning::GlideslopeSoft => 8,
            AuralWarning::GlideslopeHard => 9,
            AuralWarning::TerrainAhead => 10,
            AuralWarning::ObstacleAhead => 11,
        }
    }
}

/// How many full cycles of a warning fit into the time it has been
/// selected, held at the largest count.
pub open spec fn emissions(elapsed: u64, aural: AuralWarning) -> u32
    recommends
        aural != AuralWarning::Silent,
{
    if elapsed / aural.duration() > u32::MAX {
        u32::MAX
    } else {
        (elapsed / aural.duration()) as u32
    }
}

impl RuntimeState {
    /// The warning that wins the tick. The voice requests are taken in a
    /// fixed order of priority and the first one set wins; either inhibit
    /// discrete silences them all.
    pub open spec fn selected_aural(
        self,
        discrete_inputs: TerrainAwarenessWarningSystemDiscreteInputs,
    ) -> AuralWarning {
        if discrete_inputs.gpws_inhibit || discrete_inputs.audio_inhibit {
            AuralWarning::Silent
        } else if self.mode_1_pull_up_active {
            AuralWarning::PullUp
        } else if self.mode_2_pull_up_preface_active {
            AuralWarning::Terrain
        } else if self.mode_2_pull_up_active {
            AuralWarning::PullUp
        } else if self.mode_2_terrain_active {
            AuralWarning::Terrain
        } else if self.mode_4_too_low_terrain_voice_active {
            AuralWarning::TooLowTerrain
        } else if self.mode_4_too_low_gear_voice_active {
            AuralWarning::TooLowGear
        } else if self.mode_4_too_low_flaps_voice_active {
            AuralWarning::TooLowFlaps
        } else if self.mode_1_sinkrate_voice_active {
            AuralWarning::SinkRate
        } else if self.mode_3_dont_sink_voice_active {
            AuralWarning::DontSink
        } else if self.mode_5_glideslope_soft_voice_active {
            AuralWarning::GlideslopeSoft
        } else if self.mode_5_glideslope_hard_voice_active {
            AuralWarning::GlideslopeHard
        } else {
            AuralWarning::Silent
        }
    }

    /// The state after the arbiter has run. A warning that differs from the
    /// one before, or no warning at all, starts the count and its clock
    /// anew; a warning that stays is counted in full cycles of its length.
    pub open spec fn after_aural_output(
        self,
        delta: u64,
        discrete_inputs: TerrainAwarenessWarningSystemDiscreteInputs,
    ) -> RuntimeState {
        let aural = self.selected_aural(discrete_inputs);
        if aural != self.aural_output || aural == AuralWarning::Silent {
            RuntimeState {
                aural_output: aural,
                number_of_aural_warning_emissions: 0,
                time_since_first_emission: 0,
                ..self
            }
        } else {
            let elapsed = time_sum(self.time_since_first_emission, delta);
            RuntimeState {
                aural_output: aural,
                number_of_aural_warning_emissions: emissions(elapsed, aural),
                time_since_first_emission: elapsed,
                ..self
            }
        }
    }

    /// The warning that wins the tick.
    fn select_aural(
        &self,
        discrete_inputs: &TerrainAwarenessWarningSystemDiscreteInputs,
    ) -> (aural: AuralWarning)
        ensures
            aural == self.selected_aural(*discrete_inputs),
    {
        let basic_gpws_inhibit: bool = discrete_inputs.gpws_inhibit
            || discrete_inputs.audio_inhibit;
        if basic_gpws_inhibit {
            AuralWarning::Silent
        } else if self.mode_1_pull_up_active {
            AuralWarning::PullUp
        } else if self.mode_2_pull_up_preface_active {
            AuralWarning::Terrain
        } else if self.mode_2_pull_up_active {
            AuralWarning::PullUp
        } else if self.mode_2_terrain_active {
            AuralWarning::Terrain
        } else if self.mode_4_too_low_terrain_voice_active {
            AuralWarning::TooLowTerrain
        } else if self.mode_4_too_low_gear_voice_active {
            AuralWarning::TooLowGear
        } else if self.mode_4_too_low_flaps_voice_active {
            AuralWarning::TooLowFlaps
        } else if self.mode_1_sinkrate_voice_active {
            AuralWarning::SinkRate
        } else if self.mode_3_dont_sink_voice_active {
            AuralWarning::DontSink
        } else if self.mode_5_glideslope_soft_voice_active {
            AuralWarning::GlideslopeSoft
        } else if self.mode_5_glideslope_hard_voice_active {
            AuralWarning::GlideslopeHard
        } else {
            AuralWarning::Silent
        }
    }

    /// Selects the aural warning of the tick and counts its emissions.
    pub fn compute_aural_output(
        &mut self,
        delta: u64,
        discrete_inputs: &TerrainAwarenessWarningSystemDiscreteInputs,
    )
        ensures
            *final(self) == old(self).after_aural_output(delta, *discrete_inputs),
    {
        let aural: AuralWarning = self.select_aural(discrete_inputs);
        let restart: bool = aural != self.aural_output || aural == AuralWarning::Silent;
        let elapsed: u64 = if restart {
            0
        } else {
            self.time_since_first_emission.saturating_add(delta)
        };
        let count: u32 = if restart {
            0
        } else {
            let cycles: u64 = elapsed / aural.get_duration();
            if cycles > 0xffff_ffff {
                0xffff_ffff
            } else {
                cycles as u32
            }
        };
        self.aural_output = aural;
        self.number_of_aural_warning_emissions = count;
        self.time_since_first_emission = elapsed;
    }
}

} // verus!
