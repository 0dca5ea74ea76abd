//! The discrete inputs and the outputs of the terrain awareness and warning
//! system.

use vstd::prelude::*;

verus! {

/// The discrete inputs, sampled once per tick.
#[derive(Clone, Copy, Debug)]
pub struct TerrainAwarenessWarningSystemDiscreteInputs {
    pub sim_reposition_active: bool,
    pub audio_inhibit: bool,
    pub gpws_inhibit: bool,
    pub landing_flaps: bool,
    pub landing_gear_downlocked: bool,
    pub glideslope_inhibit: bool,
}

/// The discrete outputs, written once per tick.
#[derive(Clone, Copy, Debug)]
pub struct TerrainAwarenessWarningSystemDiscreteOutputs {
    pub alert_lamp: bool,
    pub warning_lamp: bool,
    pub audio_on: bool,
    pub terrain_obstacle_caution: bool,
    pub terrain_obstacle_warning: bool,
    pub gpws_inop: bool,
    pub terrain_inop: bool,
    pub terrain_not_available: bool,
    pub raas_inop: bool,
    pub capt_terrain_display_active: bool,
    pub fo_terrain_display_active: bool,
    pub tcas_inhibit: bool,
}

/// What goes out on the bus: the byte that stands for the selected aural
/// warning, which the host puts there.
#[derive(Clone, Copy, Debug)]
pub struct TerrainAwarenessWarningSystemBusOutputs {
    pub aural_warning: u8,
}

impl TerrainAwarenessWarningSystemDiscreteInputs {
    /// No discrete is set.
    pub fn new() -> (inputs: TerrainAwarenessWarningSystemDiscreteInputs)
        ensures
            inputs == (TerrainAwarenessWarningSystemDiscreteInputs {
                sim_reposition_active: false,
                audio_inhibit: false,
                gpws_inhibit: false,
                landing_flaps: false,
                landing_gear_downlocked: false,
                glideslope_inhibit: false,
            }),
    {
        TerrainAwarenessWarningSystemDiscreteInputs {
            sim_reposition_active: false,
            audio_inhibit: false,
            gpws_inhibit: false,
            landing_flaps: false,
            landing_gear_downlocked: false,
            glideslope_inhibit: false,
        }
    }
}

impl TerrainAwarenessWarningSystemDiscreteOutputs {
    /// No discrete is set.
    pub fn new() -> (outputs: TerrainAwarenessWarningSystemDiscreteOutputs)
        ensures
            outputs == (TerrainAwarenessWarningSystemDiscreteOutputs {
                alert_lamp: false,
                warning_lamp: false,
                audio_on: false,
                terrain_obstacle_caution: false,
                terrain_obstacle_warning: false,
                gpws_inop: false,
                terrain_inop: false,
                terrain_not_available: false,
                raas_inop: false,
                capt_terrain_display_active: false,
                fo_terrain_display_active: false,
                tcas_inhibit: false,
            }),
    {
        TerrainAwarenessWarningSystemDiscreteOutputs {
            alert_lamp: false,
            warning_lamp: false,
            audio_on: false,
            terrain_obstacle_caution: false,
            terrain_obstacle_warning: false,
            gpws_inop: false,
            terrain_inop: false,
            terrain_not_available: false,
            raas_inop: false,
            capt_terrain_display_active: false,
            fo_terrain_display_active: false,
            tcas_inhibit: false,
        }
    }
}

impl TerrainAwarenessWarningSystemBusOutputs {
    /// Nothing selected.
    pub fn new() -> (outputs: TerrainAwarenessWarningSystemBusOutputs)
        ensures
            outputs == (TerrainAwarenessWarningSystemBusOutputs { aural_warning: 0 }),
    {
        TerrainAwarenessWarningSystemBusOutputs { aural_warning: 0 }
    }
}

} // verus!
