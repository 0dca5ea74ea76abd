//! Selection of the signals the modes work on, from redundant sources, and
//! the fault flags that go with it.

use vstd::prelude::*;
use crate::arinc429::{Arinc429Word, SignStatus};
use crate::arith::abs;
use crate::logic_nodes::ConfirmationNode;
use crate::sensors::{
    AirDataReferenceBus,
    InertialReferenceBus,
    InstrumentLandingSystemBus,
    RadioAltimeter,
};
use crate::state::RuntimeState;
use crate::taws::TerrainAwarenessWarningSystemDiscreteInputs;

verus! {

/// The radio altitude taken from two channels that can both be used: the
/// first if both are below 2500 ft or within 500 ft of each other, else the
/// larger of the two.
pub open spec fn radio_altitude_of_pair(first: i32, second: i32) -> i32 {
    if (first < 2_500_000 && second < 2_500_000) || abs(first - second) < 500_000 {
        first
    } else if first >= second {
        first
    } else {
        second
    }
}

/// The radio altitude selected from the two channels. Channels in normal
/// operation come first: both are combined, a single one is taken as it is.
/// With none in normal operation the channels that do not warn of a failure
/// are used in the same way. With both failed the altitude is zero.
pub open spec fn selected_radio_altitude(first: Arinc429Word, second: Arinc429Word) -> i32 {
    let first_normal = first.status == SignStatus::NormalOperation;
    let second_normal = second.status == SignStatus::NormalOperation;
    let first_usable = first.status != SignStatus::FailureWarning;
    let second_usable = second.status != SignStatus::FailureWarning;
    if first_normal && second_normal {
        radio_altitude_of_pair(first.value, second.value)
    } else if first_normal {
        first.value
    } else if second_normal {
        second.value
    } else if first_usable && second_usable {
        radio_altitude_of_pair(first.value, second.value)
    } else if first_usable {
        first.value
    } else if second_usable {
        second.value
    } else {
        0
    }
}

/// Both radio altimeters warn of a failure.
pub open spec fn radio_altitude_fault(first: Arinc429Word, second: Arinc429Word) -> bool {
    first.status == SignStatus::FailureWarning && second.status == SignStatus::FailureWarning
}

/// The value selected from an inertial word and its air data stand-in: the
/// inertial one if it is in normal operation, else the air data one.
pub open spec fn selected_value(inertial: Arinc429Word, air_data: Arinc429Word) -> i32 {
    if inertial.status == SignStatus::NormalOperation {
        inertial.value
    } else {
        air_data.value
    }
}

/// Neither of the two sources is in normal operation.
pub open spec fn selection_fault(inertial: Arinc429Word, air_data: Arinc429Word) -> bool {
    inertial.status != SignStatus::NormalOperation && air_data.status
        != SignStatus::NormalOperation
}

fn select_radio_altitude_of_pair(first: i32, second: i32) -> (altitude: i32)
    ensures
        altitude == radio_altitude_of_pair(first, second),
{
    let difference: i64 = first as i64 - second as i64;
    let distance: i64 = if difference < 0 {
        -difference
    } else {
        difference
    };
    if (first < 2_500_000 && second < 2_500_000) || distance < 500_000 {
        first
    } else if first >= second {
        first
    } else {
        second
    }
}

fn select_radio_altitude(first: &Arinc429Word, second: &Arinc429Word) -> (altitude: i32)
    ensures
        altitude == selected_radio_altitude(*first, *second),
{
    let first_normal: bool = first.is_normal_operation();
    let second_normal: bool = second.is_normal_operation();
    let first_usable: bool = !first.is_failure_warning();
    let second_usable: bool = !second.is_failure_warning();
    if first_normal && second_normal {
        select_radio_altitude_of_pair(first.value, second.value)
    } else if first_normal {
        first.value
    } else if second_normal {
        second.value
    } else if first_usable && second_usable {
        select_radio_altitude_of_pair(first.value, second.value)
    } else if first_usable {
        first.value
    } else if second_usable {
        second.value
    } else {
        0
    }
}

fn both_failed(first: &Arinc429Word, second: &Arinc429Word) -> (failed: bool)
    ensures
        failed == radio_altitude_fault(*first, *second),
{
    first.is_failure_warning() && second.is_failure_warning()
}

fn neither_normal(inertial: &Arinc429Word, air_data: &Arinc429Word) -> (fault: bool)
    ensures
        fault == selection_fault(*inertial, *air_data),
{
    !inertial.is_normal_operation() && !air_data.is_normal_operation()
}

fn any_of(a: bool, b: bool, c: bool, d: bool) -> (any: bool)
    ensures
        any == (a || b || c || d),
{
    a || b || c || d
}

fn select_value(inertial: &Arinc429Word, air_data: &Arinc429Word) -> (value: i32)
    ensures
        value == selected_value(*inertial, *air_data),
{
    match inertial.normal_value() {
        Some(value) => value,
        None => air_data.value_or_default(),
    }
}

impl RuntimeState {
    /// The state after the inputs have been selected and monitored.
    pub open spec fn after_fault_logic(
        self,
        delta: u64,
        discrete_inputs: TerrainAwarenessWarningSystemDiscreteInputs,
        ra1: RadioAltimeter,
        ra2: RadioAltimeter,
        adr: AirDataReferenceBus,
        ir: InertialReferenceBus,
        ils: InstrumentLandingSystemBus,
    ) -> RuntimeState {
        let audio_node = self.audio_inhibit_discrete_conf_node.updated(
            discrete_inputs.audio_inhibit,
            delta,
        );
        let gpws_node = self.gpws_inhibit_discrete_conf_node.updated(
            discrete_inputs.gpws_inhibit,
            delta,
        );
        RuntimeState {
            radio_altitude: selected_radio_altitude(ra1.radio_altitude, ra2.radio_altitude),
            chosen_vertical_speed: selected_value(ir.inertial_vertical_speed, adr.vertical_speed),
            vs_fault: selection_fault(ir.inertial_vertical_speed, adr.vertical_speed),
            chosen_altitude: selected_value(ir.inertial_altitude, adr.standard_altitude),
            altitude_fault: selection_fault(ir.inertial_altitude, adr.standard_altitude),
            gs_fault: ils.glideslope_deviation.status == SignStatus::FailureWarning,
            audio_inhibit_discrete_conf_node: audio_node,
            gpws_inhibit_discrete_conf_node: gpws_node,
            gpws_sys_fault: audio_node.output || gpws_node.output || radio_altitude_fault(
                ra1.radio_altitude,
                ra2.radio_altitude,
            ) || adr.computed_airspeed.status == SignStatus::FailureWarning,
            terr_sys_fault: false,
            ..self
        }
    }

    /// Selects the radio altitude, the vertical speed and the altitude, and
    /// works out the fault flags.
    pub fn update_fault_logic(
        &mut self,
        delta: u64,
        discrete_inputs: &TerrainAwarenessWarningSystemDiscreteInputs,
        ra1: &RadioAltimeter,
        ra2: &RadioAltimeter,
        adr: &AirDataReferenceBus,
        ir: &InertialReferenceBus,
        ils: &InstrumentLandingSystemBus,
    )
        ensures
            *final(self) == old(self).after_fault_logic(
                delta,
                *discrete_inputs,
                *ra1,
                *ra2,
                *adr,
                *ir,
                *ils,
            ),
    {
        let ra_fault: bool = both_failed(&ra1.radio_altitude, &ra2.radio_altitude);
        let radio_altitude: i32 = select_radio_altitude(&ra1.radio_altitude, &ra2.radio_altitude);
        let vertical_speed: i32 = select_value(&ir.inertial_vertical_speed, &adr.vertical_speed);
        let vs_fault: bool = neither_normal(&ir.inertial_vertical_speed, &adr.vertical_speed);
        let altitude: i32 = select_value(&ir.inertial_altitude, &adr.standard_altitude);
        let altitude_fault: bool = neither_normal(&ir.inertial_altitude, &adr.standard_altitude);
        let cas_fault: bool = adr.computed_airspeed.is_failure_warning();
        let gs_fault: bool = ils.glideslope_deviation.is_failure_warning();
        let mut audio_node: ConfirmationNode = self.audio_inhibit_discrete_conf_node;
        let audio_inhibited: bool = audio_node.update(discrete_inputs.audio_inhibit, delta);
        let mut gpws_node: ConfirmationNode = self.gpws_inhibit_discrete_conf_node;
        let gpws_inhibited: bool = gpws_node.update(discrete_inputs.gpws_inhibit, delta);
        let gpws_sys_fault: bool = any_of(audio_inhibited, gpws_inhibited, ra_fault, cas_fault);

        *self = RuntimeState {
            radio_altitude,
            chosen_vertical_speed: vertical_speed,
            vs_fault,
            chosen_altitude: altitude,
            altitude_fault,
            gs_fault,
            audio_inhibit_discrete_conf_node: audio_node,
            gpws_inhibit_discrete_conf_node: gpws_node,
            gpws_sys_fault,
            terr_sys_fault: false,
            ..*self
        };
    }
}

} // verus!
