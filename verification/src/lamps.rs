//! The two lamps, composed from the lamp requests of the modes.

use vstd::prelude::*;
use crate::state::RuntimeState;
use crate::taws::TerrainAwarenessWarningSystemDiscreteInputs;

verus! {

impl RuntimeState {
    /// The warning lamp. In the standard format it shows every mode 1 and
    /// mode 2 request, in the alternate format the pull up requests only.
    /// The inhibit discrete puts it out.
    pub open spec fn warning_lamp(
        self,
        discrete_inputs: TerrainAwarenessWarningSystemDiscreteInputs,
    ) -> bool {
        if self.pin_programs.alternate_lamp_format {
            (self.mode_1_pull_up_active || self.mode_2_pull_up_active)
                && !discrete_inputs.gpws_inhibit
        } else {
            (self.mode_1_sinkrate_lamp_active || self.mode_1_pull_up_active
                || self.mode_2_pull_up_active || self.mode_2_pull_up_preface_active
                || self.mode_2_terrain_active) && !discrete_inputs.gpws_inhibit
        }
    }

    /// The alert lamp. In the standard format it shows the glideslope
    /// request, in the alternate format also the requests that are no pull
    /// up. The inhibit discrete puts it out.
    pub open spec fn alert_lamp(
        self,
        discrete_inputs: TerrainAwarenessWarningSystemDiscreteInputs,
    ) -> bool {
        if self.pin_programs.alternate_lamp_format {
            (self.mode_1_sinkrate_lamp_active || self.mode_2_pull_up_preface_active
                || self.mode_2_terrain_active || self.mode_5_glideslope_lamp_active)
                && !discrete_inputs.gpws_inhibit
        } else {
            self.mode_5_glideslope_lamp_active && !discrete_inputs.gpws_inhibit
        }
    }

    /// The state after the lamps have been composed.
    pub open spec fn after_lamp_output(
        self,
        discrete_inputs: TerrainAwarenessWarningSystemDiscreteInputs,
    ) -> RuntimeState {
        RuntimeState {
            warning_lamp_activated: self.warning_lamp(discrete_inputs),
            alert_lamp_activated: self.alert_lamp(discrete_inputs),
            ..self
        }
    }

    fn warning_lamp_request(
        &self,
        discrete_inputs: &TerrainAwarenessWarningSystemDiscreteInputs,
    ) -> (lit: bool)
        ensures
            lit == self.warning_lamp(*discrete_inputs),
    {
        if self.pin_programs.alternate_lamp_format {
            (self.mode_1_pull_up_active || self.mode_2_pull_up_active)
                && !discrete_inputs.gpws_inhibit
        } else {
            (self.mode_1_sinkrate_lamp_active || self.mode_1_pull_up_active
                || self.mode_2_pull_up_active || self.mode_2_pull_up_preface_active
                || self.mode_2_terrain_active) && !discrete_inputs.gpws_inhibit
        }
    }

    fn alert_lamp_request(
        &self,
        discrete_inputs: &TerrainAwarenessWarningSystemDiscreteInputs,
    ) -> (lit: bool)
        ensures
            lit == self.alert_lamp(*discrete_inputs),
    {
        if self.pin_programs.alternate_lamp_format {
            (self.mode_1_sinkrate_lamp_active || self.mode_2_pull_up_preface_active
                || self.mode_2_terrain_active || self.mode_5_glideslope_lamp_active)
                && !discrete_inputs.gpws_inhibit
        } else {
            self.mode_5_glideslope_lamp_active && !discrete_inputs.gpws_inhibit
        }
    }

    /// Composes the two lamps.
    pub fn compute_lamp_output(
        &mut self,
        discrete_inputs: &TerrainAwarenessWarningSystemDiscreteInputs,
    )
        ensures
            *final(self) == old(self).after_lamp_output(*discrete_inputs),
    {
        let warning: bool = self.warning_lamp_request(discrete_inputs);
        let alert: bool = self.alert_lamp_request(discrete_inputs);
        self.warning_lamp_activated = warning;
        self.alert_lamp_activated = alert;
    }
}

} // verus!
