//! The parts of the warning logic, each on values chosen for it.

use egpws::arinc429::{Arinc429Word, SignStatus};
use egpws::aural::AuralWarning;
use egpws::runtime::EnhancedGroundProximityWarningComputerRuntime;
use egpws::sensors::{
    AirDataReferenceBus, InertialReferenceBus, InstrumentLandingSystemBus, RadioAltimeter,
};
use egpws::state::{
    EnhancedGroundProximityWarningComputerPinProgramming, FlightPhase, RuntimeState,
};
use egpws::taws::{
    TerrainAwarenessWarningSystemBusOutputs, TerrainAwarenessWarningSystemDiscreteInputs,
    TerrainAwarenessWarningSystemDiscreteOutputs,
};

const MS: u64 = 1_000_000;
const S: u64 = 1_000_000_000;

fn normal(value: i32) -> Arinc429Word {
    Arinc429Word::new(value, SignStatus::NormalOperation)
}

fn no_data(value: i32) -> Arinc429Word {
    Arinc429Word::new(value, SignStatus::NoComputedData)
}

fn failed(value: i32) -> Arinc429Word {
    Arinc429Word::new(value, SignStatus::FailureWarning)
}

/// The inputs of one tick, in the units of the buses.
#[derive(Clone, Copy)]
struct Inputs {
    discrete: TerrainAwarenessWarningSystemDiscreteInputs,
    ra1: RadioAltimeter,
    ra2: RadioAltimeter,
    adr: AirDataReferenceBus,
    ir: InertialReferenceBus,
    ils: InstrumentLandingSystemBus,
}

impl Inputs {
    /// Level flight at the given radio altitude and airspeed, no landing
    /// system tuned.
    fn level(radio_altitude: i32, airspeed: i32) -> Inputs {
        Inputs {
            discrete: TerrainAwarenessWarningSystemDiscreteInputs::new(),
            ra1: RadioAltimeter {
                radio_altitude: normal(radio_altitude),
            },
            ra2: RadioAltimeter {
                radio_altitude: normal(radio_altitude),
            },
            adr: AirDataReferenceBus {
                computed_airspeed: normal(airspeed),
                vertical_speed: normal(0),
                standard_altitude: normal(radio_altitude),
            },
            ir: InertialReferenceBus {
                inertial_altitude: normal(radio_altitude),
                inertial_vertical_speed: normal(0),
                pitch_angle: normal(0),
                magnetic_track: normal(0),
            },
            ils: InstrumentLandingSystemBus {
                glideslope_deviation: no_data(0),
                localizer_deviation: normal(0),
                runway_heading: normal(0),
            },
        }
    }

    fn radio_altitude(mut self, radio_altitude: i32) -> Inputs {
        self.ra1.radio_altitude = normal(radio_altitude);
        self.ra2.radio_altitude = normal(radio_altitude);
        self
    }

    fn vertical_speed(mut self, vertical_speed: i32) -> Inputs {
        self.adr.vertical_speed = normal(vertical_speed);
        self.ir.inertial_vertical_speed = normal(vertical_speed);
        self
    }

    fn altitude(mut self, altitude: i32) -> Inputs {
        self.adr.standard_altitude = normal(altitude);
        self.ir.inertial_altitude = normal(altitude);
        self
    }

    fn glideslope(mut self, deviation: i32) -> Inputs {
        self.ils.glideslope_deviation = normal(deviation);
        self
    }

    fn landing(mut self) -> Inputs {
        self.discrete.landing_flaps = true;
        self.discrete.landing_gear_downlocked = true;
        self
    }
}

fn fresh(declutter_disable: bool, alternate_lamp_format: bool) -> RuntimeState {
    RuntimeState::new(
        EnhancedGroundProximityWarningComputerPinProgramming {
            audio_declutter_disable: declutter_disable,
            alternate_lamp_format,
        },
        0,
        false,
        FlightPhase::Takeoff,
    )
}

/// One tick on a state whose self test is over.
fn run(state: &mut RuntimeState, delta: u64, inputs: &Inputs) {
    state
        .reposition_mode_confirm_node
        .update(inputs.discrete.sim_reposition_active, delta);
    state.update_logic(
        delta,
        &inputs.discrete,
        &inputs.ra1,
        &inputs.ra2,
        &inputs.adr,
        &inputs.ir,
        &inputs.ils,
    );
}

fn step(
    runtime: &mut EnhancedGroundProximityWarningComputerRuntime,
    delta: u64,
    inputs: &Inputs,
) {
    runtime.update(
        delta,
        &inputs.discrete,
        &inputs.ra1,
        &inputs.ra2,
        &inputs.adr,
        &inputs.ir,
        &inputs.ils,
    );
}

const ALL_WARNINGS: [AuralWarning; 12] = [
    AuralWarning::Silent,
    AuralWarning::PullUp,
    AuralWarning::Terrain,
    AuralWarning::TooLowTerrain,
    AuralWarning::TooLowGear,
    AuralWarning::TooLowFlaps,
    AuralWarning::SinkRate,
    AuralWarning::DontSink,
    AuralWarning::GlideslopeSoft,
    AuralWarning::GlideslopeHard,
    AuralWarning::TerrainAhead,
    AuralWarning::ObstacleAhead,
];

#[test]
fn aural_warnings_have_their_cycle_durations() {
    let durations: [u64; 12] = [
        0,
        1_100 * MS,
        2_400 * MS,
        1_100 * MS,
        1_100 * MS,
        1_100 * MS,
        1_100 * MS,
        1_100 * MS,
        1_600 * MS,
        1_600 * MS,
        2_400 * MS,
        2_400 * MS,
    ];
    for (warning, duration) in ALL_WARNINGS.iter().zip(durations) {
        assert_eq!(warning.get_duration(), duration);
    }
}

#[test]
fn aural_warnings_are_numbered_in_their_order() {
    for (place, warning) in ALL_WARNINGS.iter().enumerate() {
        assert_eq!(warning.to_ordinal() as usize, place);
        assert_eq!(*warning as usize, place);
    }
}

#[test]
fn pin_programming_defaults_to_no_pin_set() {
    let pins = EnhancedGroundProximityWarningComputerPinProgramming::default();
    assert!(!pins.audio_declutter_disable);
    assert!(!pins.alternate_lamp_format);
}

/// The state with the voice requests from `first` on raised, the lower
/// priorities all being set along with it.
fn with_requests_from(first: usize) -> RuntimeState {
    let mut state = fresh(false, false);
    state.mode_1_pull_up_active = first <= 0;
    state.mode_2_pull_up_preface_active = first <= 1;
    state.mode_2_pull_up_active = first <= 2;
    state.mode_2_terrain_active = first <= 3;
    state.mode_4_too_low_terrain_voice_active = first <= 4;
    state.mode_4_too_low_gear_voice_active = first <= 5;
    state.mode_4_too_low_flaps_voice_active = first <= 6;
    state.mode_1_sinkrate_voice_active = first <= 7;
    state.mode_3_dont_sink_voice_active = first <= 8;
    state.mode_5_glideslope_soft_voice_active = first <= 9;
    state.mode_5_glideslope_hard_voice_active = first <= 10;
    state
}

#[test]
fn arbiter_takes_the_first_request_in_its_order_of_priority() {
    let expected = [
        AuralWarning::PullUp,
        AuralWarning::Terrain,
        AuralWarning::PullUp,
        AuralWarning::Terrain,
        AuralWarning::TooLowTerrain,
        AuralWarning::TooLowGear,
        AuralWarning::TooLowFlaps,
        AuralWarning::SinkRate,
        AuralWarning::DontSink,
        AuralWarning::GlideslopeSoft,
        AuralWarning::GlideslopeHard,
        AuralWarning::Silent,
    ];
    let discrete = TerrainAwarenessWarningSystemDiscreteInputs::new();
    for (first, warning) in expected.iter().enumerate() {
        let mut state = with_requests_from(first);
        state.compute_aural_output(100 * MS, &discrete);
        assert_eq!(state.aural_output, *warning, "requests from {}", first);
    }
}

#[test]
fn arbiter_tells_the_two_pull_up_and_terrain_requests_apart_by_priority_only() {
    let discrete = TerrainAwarenessWarningSystemDiscreteInputs::new();
    let mut state = fresh(false, false);
    state.mode_2_pull_up_active = true;
    state.mode_2_terrain_active = true;
    state.compute_aural_output(0, &discrete);
    assert_eq!(state.aural_output, AuralWarning::PullUp);
    state.mode_2_pull_up_preface_active = true;
    state.compute_aural_output(0, &discrete);
    assert_eq!(state.aural_output, AuralWarning::Terrain);
}

#[test]
fn arbiter_is_silenced_by_either_inhibit() {
    let mut discrete = TerrainAwarenessWarningSystemDiscreteInputs::new();
    discrete.gpws_inhibit = true;
    let mut state = with_requests_from(0);
    state.compute_aural_output(100 * MS, &discrete);
    assert_eq!(state.aural_output, AuralWarning::Silent);

    discrete.gpws_inhibit = false;
    discrete.audio_inhibit = true;
    let mut state = with_requests_from(0);
    state.compute_aural_output(100 * MS, &discrete);
    assert_eq!(state.aural_output, AuralWarning::Silent);
}

#[test]
fn emissions_are_counted_in_full_cycles_and_start_over_on_a_change() {
    let discrete = TerrainAwarenessWarningSystemDiscreteInputs::new();
    let mut state = fresh(false, false);
    state.mode_2_terrain_active = true;
    state.compute_aural_output(1 * S, &discrete);
    // The tick that selects the warning does not count.
    assert_eq!(state.aural_output, AuralWarning::Terrain);
    assert_eq!(state.number_of_aural_warning_emissions, 0);
    assert_eq!(state.time_since_first_emission, 0);

    state.compute_aural_output(2_399 * MS, &discrete);
    assert_eq!(state.number_of_aural_warning_emissions, 0);
    state.compute_aural_output(1 * MS, &discrete);
    assert_eq!(state.number_of_aural_warning_emissions, 1);
    state.compute_aural_output(2_399 * MS, &discrete);
    assert_eq!(state.number_of_aural_warning_emissions, 1);
    state.compute_aural_output(1 * MS, &discrete);
    assert_eq!(state.number_of_aural_warning_emissions, 2);
    assert_eq!(state.time_since_first_emission, 4_800 * MS);
    // 9.9 s of a warning of 1.1 s would be nine cycles; of 2.4 s it is four.
    state.compute_aural_output(5_100 * MS, &discrete);
    assert_eq!(state.number_of_aural_warning_emissions, 4);

    state.mode_1_pull_up_active = true;
    state.compute_aural_output(10 * S, &discrete);
    assert_eq!(state.aural_output, AuralWarning::PullUp);
    assert_eq!(state.number_of_aural_warning_emissions, 0);
    assert_eq!(state.time_since_first_emission, 0);
    state.compute_aural_output(9_900 * MS, &discrete);
    assert_eq!(state.number_of_aural_warning_emissions, 9);

    state.mode_1_pull_up_active = false;
    state.mode_2_terrain_active = false;
    state.compute_aural_output(1 * S, &discrete);
    assert_eq!(state.aural_output, AuralWarning::Silent);
    assert_eq!(state.number_of_aural_warning_emissions, 0);
    state.compute_aural_output(10 * S, &discrete);
    assert_eq!(state.number_of_aural_warning_emissions, 0);
    assert_eq!(state.time_since_first_emission, 0);
}

#[test]
fn emission_count_and_clock_stop_at_their_largest_values() {
    let discrete = TerrainAwarenessWarningSystemDiscreteInputs::new();
    let mut state = fresh(false, false);
    state.mode_1_pull_up_active = true;
    state.compute_aural_output(0, &discrete);
    state.compute_aural_output(u64::MAX, &discrete);
    state.compute_aural_output(u64::MAX, &discrete);
    assert_eq!(state.time_since_first_emission, u64::MAX);
    assert_eq!(state.number_of_aural_warning_emissions, u32::MAX);
}

#[test]
fn lamps_in_the_standard_format() {
    let discrete = TerrainAwarenessWarningSystemDiscreteInputs::new();
    for request in 0..6 {
        let mut state = fresh(false, false);
        state.mode_1_sinkrate_lamp_active = request == 0;
        state.mode_1_pull_up_active = request == 1;
        state.mode_2_pull_up_active = request == 2;
        state.mode_2_pull_up_preface_active = request == 3;
        state.mode_2_terrain_active = request == 4;
        state.mode_5_glideslope_lamp_active = request == 5;
        state.mode_3_lamp_active = true;
        state.compute_lamp_output(&discrete);
        assert_eq!(state.warning_lamp_activated, request < 5, "request {}", request);
        assert_eq!(state.alert_lamp_activated, request == 5, "request {}", request);
    }
}

#[test]
fn lamps_in_the_alternate_format() {
    let discrete = TerrainAwarenessWarningSystemDiscreteInputs::new();
    for request in 0..6 {
        let mut state = fresh(false, true);
        state.mode_1_sinkrate_lamp_active = request == 0;
        state.mode_1_pull_up_active = request == 1;
        state.mode_2_pull_up_active = request == 2;
        state.mode_2_pull_up_preface_active = request == 3;
        state.mode_2_terrain_active = request == 4;
        state.mode_5_glideslope_lamp_active = request == 5;
        state.compute_lamp_output(&discrete);
        let pull_up = request == 1 || request == 2;
        assert_eq!(state.warning_lamp_activated, pull_up, "request {}", request);
        assert_eq!(state.alert_lamp_activated, !pull_up, "request {}", request);
    }
}

#[test]
fn lamps_are_put_out_by_the_gpws_inhibit_but_not_by_the_audio_inhibit() {
    for alternate in [false, true] {
        let mut state = fresh(false, alternate);
        state.mode_1_pull_up_active = true;
        state.mode_1_sinkrate_lamp_active = true;
        state.mode_5_glideslope_lamp_active = true;
        let mut discrete = TerrainAwarenessWarningSystemDiscreteInputs::new();
        discrete.audio_inhibit = true;
        state.compute_lamp_output(&discrete);
        assert!(state.warning_lamp_activated);
        assert!(state.alert_lamp_activated);
        discrete.gpws_inhibit = true;
        state.compute_lamp_output(&discrete);
        assert!(!state.warning_lamp_activated);
        assert!(!state.alert_lamp_activated);
    }
}

fn selected_radio_altitude(first: Arinc429Word, second: Arinc429Word) -> (i32, bool) {
    let mut inputs = Inputs::level(0, 0);
    inputs.ra1.radio_altitude = first;
    inputs.ra2.radio_altitude = second;
    let mut state = fresh(false, false);
    state.radio_altitude = 123;
    run(&mut state, 1 * MS, &inputs);
    (state.radio_altitude, state.gpws_sys_fault)
}

#[test]
fn radio_altitude_of_two_normal_channels() {
    // Both below 2500 ft: the first, however far apart.
    assert_eq!(
        selected_radio_altitude(normal(100_000), normal(2_499_999)),
        (100_000, false)
    );
    assert_eq!(
        selected_radio_altitude(normal(2_499_999), normal(100_000)),
        (2_499_999, false)
    );
    // Within 500 ft of each other: the first, however high.
    assert_eq!(
        selected_radio_altitude(normal(3_000_000), normal(3_499_999)),
        (3_000_000, false)
    );
    assert_eq!(
        selected_radio_altitude(normal(3_499_999), normal(3_000_000)),
        (3_499_999, false)
    );
    // Neither: the larger.
    assert_eq!(
        selected_radio_altitude(normal(3_000_000), normal(3_500_000)),
        (3_500_000, false)
    );
    assert_eq!(
        selected_radio_altitude(normal(3_500_000), normal(3_000_000)),
        (3_500_000, false)
    );
    assert_eq!(
        selected_radio_altitude(normal(1_000_000), normal(2_500_000)),
        (2_500_000, false)
    );
    assert_eq!(
        selected_radio_altitude(normal(i32::MIN), normal(i32::MAX)),
        (i32::MAX, false)
    );
}

#[test]
fn radio_altitude_of_a_single_normal_channel() {
    assert_eq!(
        selected_radio_altitude(normal(1_000_000), failed(7)),
        (1_000_000, false)
    );
    assert_eq!(
        selected_radio_altitude(failed(7), normal(1_000_000)),
        (1_000_000, false)
    );
    assert_eq!(
        selected_radio_altitude(normal(1_000_000), no_data(8_192_000)),
        (1_000_000, false)
    );
    assert_eq!(
        selected_radio_altitude(no_data(8_192_000), normal(1_000_000)),
        (1_000_000, false)
    );
}

#[test]
fn radio_altitude_without_a_normal_channel() {
    assert_eq!(
        selected_radio_altitude(no_data(8_192_000), no_data(8_192_000)),
        (8_192_000, false)
    );
    assert_eq!(
        selected_radio_altitude(no_data(-20_000), no_data(8_192_000)),
        (8_192_000, false)
    );
    assert_eq!(
        selected_radio_altitude(no_data(-20_000), failed(7)),
        (-20_000, false)
    );
    assert_eq!(
        selected_radio_altitude(failed(7), no_data(8_192_000)),
        (8_192_000, false)
    );
    // Both failed: zero, and the computer is inoperative.
    assert_eq!(selected_radio_altitude(failed(7), failed(9)), (0, true));
}

#[test]
fn vertical_speed_and_altitude_fall_back_from_inertial_to_air_data() {
    let mut inputs = Inputs::level(1_000_000, 200_000);
    inputs.ir.inertial_vertical_speed = normal(-1_000);
    inputs.adr.vertical_speed = normal(-2_000);
    inputs.ir.inertial_altitude = normal(5_000);
    inputs.adr.standard_altitude = normal(6_000);
    let mut state = fresh(false, false);
    run(&mut state, 1 * MS, &inputs);
    assert_eq!(state.chosen_vertical_speed, -1_000);
    assert_eq!(state.chosen_altitude, 5_000);
    assert!(!state.vs_fault);
    assert!(!state.altitude_fault);

    inputs.ir.inertial_vertical_speed = no_data(-1_000);
    inputs.ir.inertial_altitude = failed(5_000);
    run(&mut state, 1 * MS, &inputs);
    assert_eq!(state.chosen_vertical_speed, -2_000);
    assert_eq!(state.chosen_altitude, 6_000);
    assert!(!state.vs_fault);
    assert!(!state.altitude_fault);

    // Neither is normal: the air data payload as it is, and the fault flag.
    inputs.adr.vertical_speed = failed(-3_000);
    inputs.adr.standard_altitude = no_data(7_000);
    run(&mut state, 1 * MS, &inputs);
    assert_eq!(state.chosen_vertical_speed, -3_000);
    assert_eq!(state.chosen_altitude, 7_000);
    assert!(state.vs_fault);
    assert!(state.altitude_fault);
    // These two faults do not make the computer inoperative.
    assert!(!state.gpws_sys_fault);
    assert!(!state.terr_sys_fault);
}

#[test]
fn airspeed_failure_makes_the_computer_inoperative_and_glideslope_failure_does_not() {
    let mut inputs = Inputs::level(1_000_000, 200_000);
    let mut state = fresh(false, false);
    inputs.ils.glideslope_deviation = failed(0);
    run(&mut state, 1 * MS, &inputs);
    assert!(state.gs_fault);
    assert!(!state.gpws_sys_fault);

    inputs.ils.glideslope_deviation = normal(0);
    inputs.adr.computed_airspeed = no_data(200_000);
    run(&mut state, 1 * MS, &inputs);
    assert!(!state.gs_fault);
    assert!(!state.gpws_sys_fault);

    inputs.adr.computed_airspeed = failed(200_000);
    run(&mut state, 1 * MS, &inputs);
    assert!(state.gpws_sys_fault);
}

#[test]
fn inhibit_discretes_make_the_computer_inoperative_once_confirmed() {
    let mut inputs = Inputs::level(1_000_000, 200_000);
    let mut state = fresh(false, false);
    inputs.discrete.gpws_inhibit = true;
    run(&mut state, 4_999 * MS, &inputs);
    assert!(!state.gpws_sys_fault);
    run(&mut state, 1 * MS, &inputs);
    assert!(state.gpws_sys_fault);
    inputs.discrete.gpws_inhibit = false;
    run(&mut state, 1 * MS, &inputs);
    assert!(!state.gpws_sys_fault);

    inputs.discrete.audio_inhibit = true;
    run(&mut state, 59_999 * MS, &inputs);
    assert!(!state.gpws_sys_fault);
    run(&mut state, 1 * MS, &inputs);
    assert!(state.gpws_sys_fault);
    inputs.discrete.audio_inhibit = false;
    run(&mut state, 1 * MS, &inputs);
    assert!(!state.gpws_sys_fault);
}

#[test]
fn ground_is_left_after_ten_seconds_at_height_and_speed() {
    let mut state = fresh(false, false);
    state.on_ground = true;
    let inputs = Inputs::level(25_000, 90_000);
    run(&mut state, 9_999 * MS, &inputs);
    assert!(state.on_ground);
    run(&mut state, 1 * MS, &inputs);
    assert!(!state.on_ground);
}

#[test]
fn ground_is_not_left_below_height_or_speed() {
    let mut state = fresh(false, false);
    state.on_ground = true;
    run(&mut state, 20 * S, &Inputs::level(24_999, 90_000));
    assert!(state.on_ground);
    run(&mut state, 20 * S, &Inputs::level(25_000, 89_999));
    assert!(state.on_ground);
    let mut pitched = Inputs::level(24_999, 90_000);
    pitched.ir.pitch_angle = normal(10_000);
    run(&mut state, 20 * S, &pitched);
    assert!(state.on_ground);
}

#[test]
fn ground_is_left_at_once_with_five_degrees_of_pitch() {
    let mut state = fresh(false, false);
    state.on_ground = true;
    let mut inputs = Inputs::level(25_000, 90_000);
    inputs.ir.pitch_angle = normal(4_999);
    run(&mut state, 1 * MS, &inputs);
    assert!(state.on_ground);
    inputs.ir.pitch_angle = normal(5_000);
    run(&mut state, 1 * MS, &inputs);
    assert!(!state.on_ground);
}

#[test]
fn ground_is_reached_low_and_above_sixty_knots() {
    let mut state = fresh(false, false);
    run(&mut state, 1 * MS, &Inputs::level(25_000, 140_000));
    assert!(!state.on_ground);
    run(&mut state, 1 * MS, &Inputs::level(24_999, 60_000));
    assert!(!state.on_ground);
    run(&mut state, 1 * MS, &Inputs::level(24_999, 60_001));
    assert!(state.on_ground);
}

#[test]
fn takeoff_becomes_approach_when_the_altitude_integral_passes_its_threshold() {
    // 700 ft held for 121 s make 84 700 ft s, which has to be passed.
    let mut state = fresh(false, false);
    let inputs = Inputs::level(2_000_000, 250_000).altitude(5_000_000);
    run(&mut state, 121 * S, &inputs);
    assert_eq!(state.flight_phase, FlightPhase::Takeoff);
    assert_eq!(
        state.takeoff_to_approach_condition_integrator,
        84_700_000_000_000_000
    );
    run(&mut state, 1, &inputs);
    assert_eq!(state.flight_phase, FlightPhase::Approach);
    // In the approach phase the integral rests at zero.
    run(&mut state, 1 * S, &inputs);
    assert_eq!(state.takeoff_to_approach_condition_integrator, 0);
}

#[test]
fn altitude_integral_counts_the_altitude_between_nothing_and_700_ft() {
    let mut state = fresh(false, false);
    run(
        &mut state,
        2 * S,
        &Inputs::level(2_000_000, 250_000).altitude(350_000),
    );
    assert_eq!(
        state.takeoff_to_approach_condition_integrator,
        700_000_000_000_000
    );
    run(
        &mut state,
        2 * S,
        &Inputs::level(2_000_000, 250_000).altitude(-350_000),
    );
    assert_eq!(
        state.takeoff_to_approach_condition_integrator,
        700_000_000_000_000
    );
    // On the ground it starts over.
    state.on_ground = true;
    run(
        &mut state,
        2 * S,
        &Inputs::level(0, 0).altitude(350_000),
    );
    assert_eq!(state.takeoff_to_approach_condition_integrator, 0);
}

#[test]
fn takeoff_stays_takeoff_with_the_audio_declutter_disabled() {
    let mut state = fresh(true, false);
    let inputs = Inputs::level(2_000_000, 250_000).altitude(5_000_000);
    run(&mut state, 1_000 * S, &inputs);
    assert_eq!(state.flight_phase, FlightPhase::Takeoff);
    run(&mut state, u64::MAX, &inputs);
    run(&mut state, u64::MAX, &inputs);
    assert_eq!(state.flight_phase, FlightPhase::Takeoff);
}

#[test]
fn approach_becomes_takeoff_below_245_ft() {
    let mut state = fresh(false, false);
    state.flight_phase = FlightPhase::Approach;
    run(&mut state, 1 * S, &Inputs::level(245_000, 140_000));
    assert_eq!(state.flight_phase, FlightPhase::Approach);
    run(&mut state, 1 * S, &Inputs::level(244_999, 140_000));
    assert_eq!(state.flight_phase, FlightPhase::Takeoff);
}

#[test]
fn mode_1_sink_rate_boundary_is_biased_above_the_beam() {
    // 20 ft and a full deviation above the beam take 60 ft/min off the
    // descent: 1000 ft/min count as 940, which is outside of the boundary.
    let inputs = Inputs::level(20_000, 140_000)
        .vertical_speed(-1_000_000)
        .glideslope(175_000);
    let mut state = fresh(false, false);
    run(&mut state, 1 * S, &inputs);
    run(&mut state, 1 * S, &inputs);
    assert!(!state.mode_1_sinkrate_lamp_active);

    // At 20 ft the boundary is at 980.57 ft/min; with the 60 ft/min of bias
    // it takes 1040.57 ft/min to be inside.
    let mut state = fresh(false, false);
    run(&mut state, 1 * S, &inputs.vertical_speed(-1_040_570));
    assert!(state.mode_1_sinkrate_lamp_active);
    let mut state = fresh(false, false);
    run(&mut state, 1 * S, &inputs.vertical_speed(-1_040_569));
    assert!(!state.mode_1_sinkrate_lamp_active);
    // Half the height and half the deviation make a quarter of the bias.
    let mut state = fresh(true, false);
    run(&mut state, 1 * S, &Inputs::level(50_000, 140_000).vertical_speed(-1_100_000));
    assert!(state.mode_1_sinkrate_lamp_active);
    let half = Inputs::level(50_000, 140_000).glideslope(87_500);
    let mut state = fresh(false, false);
    run(&mut state, 1 * S, &half.vertical_speed(-1_105_279));
    assert!(state.mode_1_sinkrate_lamp_active);
    let mut state = fresh(false, false);
    run(&mut state, 1 * S, &half.vertical_speed(-1_105_278));
    assert!(!state.mode_1_sinkrate_lamp_active);

    // Below the beam, and with the declutter disabled, there is no bias.
    let mut state = fresh(false, false);
    run(&mut state, 1 * S, &inputs.glideslope(-175_000));
    assert!(state.mode_1_sinkrate_lamp_active);
    let mut state = fresh(true, false);
    run(&mut state, 1 * S, &inputs);
    assert!(state.mode_1_sinkrate_lamp_active);
}

#[test]
fn mode_1_boundaries_end_at_10_and_2450_ft() {
    for (radio_altitude, inside) in [
        (10_000, false),
        (10_001, true),
        (2_449_999, true),
        (2_450_000, false),
    ] {
        let mut state = fresh(true, false);
        let inputs = Inputs::level(radio_altitude, 250_000).vertical_speed(-8_000_000);
        run(&mut state, 2 * S, &inputs);
        assert_eq!(state.mode_1_sinkrate_lamp_active, inside, "{}", radio_altitude);
        assert_eq!(state.mode_1_pull_up_active, inside, "{}", radio_altitude);
    }
}

#[test]
fn mode_1_pull_up_takes_the_voice_from_the_sink_rate() {
    let mut state = fresh(false, false);
    let inputs = Inputs::level(1_500_000, 250_000).vertical_speed(-5_000_000);
    run(&mut state, 800 * MS, &inputs);
    assert!(state.mode_1_sinkrate_lamp_active);
    assert!(state.mode_1_sinkrate_voice_active);
    assert!(!state.mode_1_pull_up_active);
    assert_eq!(state.aural_output, AuralWarning::SinkRate);
    run(&mut state, 800 * MS, &inputs);
    assert!(state.mode_1_sinkrate_lamp_active);
    assert!(!state.mode_1_sinkrate_voice_active);
    assert!(state.mode_1_pull_up_active);
    assert_eq!(state.aural_output, AuralWarning::PullUp);
}

#[test]
fn mode_1_sink_rate_call_is_spoken_twice_and_again_when_a_fifth_closer() {
    let mut state = fresh(false, false);
    let inputs = Inputs::level(1_500_000, 250_000).vertical_speed(-4_000_000);
    run(&mut state, 800 * MS, &inputs);
    assert_eq!(state.aural_output, AuralWarning::SinkRate);
    // 1500 ft at 4000 ft/min: 0.375 min to impact.
    assert_eq!(state.mode_1_sinkrate_time_to_impact, 375_000);

    run(&mut state, 2_200 * MS, &inputs);
    assert_eq!(state.number_of_aural_warning_emissions, 2);
    assert_eq!(state.aural_output, AuralWarning::SinkRate);
    assert!(!state.mode_1_sinkrate_emitted_for_current_time_to_impact);
    // The count of two is seen one tick later, and silences the call.
    run(&mut state, 1 * MS, &inputs);
    assert!(state.mode_1_sinkrate_emitted_for_current_time_to_impact);
    assert_eq!(state.aural_output, AuralWarning::Silent);
    assert!(state.mode_1_sinkrate_lamp_active);
    assert!(state.warning_lamp_activated);

    // 1200 ft is four fifths of the stored time: not yet worse.
    run(&mut state, 1 * MS, &inputs.radio_altitude(1_200_000));
    assert_eq!(state.aural_output, AuralWarning::Silent);
    assert_eq!(state.mode_1_sinkrate_time_to_impact, 375_000);
    run(&mut state, 1 * MS, &inputs.radio_altitude(1_199_999));
    assert_eq!(state.aural_output, AuralWarning::SinkRate);
    assert_eq!(state.mode_1_sinkrate_time_to_impact, 299_999);
    assert!(!state.mode_1_sinkrate_emitted_for_current_time_to_impact);
}

#[test]
fn mode_1_sink_rate_call_goes_on_with_the_audio_declutter_disabled() {
    let mut state = fresh(true, false);
    let inputs = Inputs::level(1_500_000, 250_000).vertical_speed(-4_000_000);
    run(&mut state, 800 * MS, &inputs);
    run(&mut state, 2_200 * MS, &inputs);
    run(&mut state, 1 * MS, &inputs);
    assert!(state.mode_1_sinkrate_emitted_for_current_time_to_impact);
    assert_eq!(state.aural_output, AuralWarning::SinkRate);
    run(&mut state, 10 * S, &inputs);
    assert_eq!(state.aural_output, AuralWarning::SinkRate);
    assert_eq!(state.number_of_aural_warning_emissions, 11);
}

#[test]
fn mode_1_store_is_cleared_with_the_lamp() {
    let mut state = fresh(false, false);
    let inputs = Inputs::level(1_500_000, 250_000).vertical_speed(-4_000_000);
    run(&mut state, 800 * MS, &inputs);
    assert_eq!(state.mode_1_sinkrate_time_to_impact, 375_000);
    run(&mut state, 100 * MS, &inputs.vertical_speed(0));
    assert!(state.mode_1_sinkrate_lamp_active);
    run(&mut state, 100 * MS, &inputs.vertical_speed(0));
    assert!(!state.mode_1_sinkrate_lamp_active);
    assert_eq!(state.mode_1_sinkrate_time_to_impact, 0);
}

/// Flies level at 2500 ft, then lets the terrain come up to the radio
/// altitude given, in one tick of three seconds.
fn closing(state: &mut RuntimeState, inputs: &Inputs) {
    let high = inputs.radio_altitude(2_500_000);
    run(state, 1 * S, &high);
    run(state, 1 * S, &high);
    run(state, 3 * S, inputs);
}

#[test]
fn mode_2_closure_rate_is_limited_and_filtered() {
    let mut state = fresh(false, false);
    let inputs = Inputs::level(1_500_000, 310_000);
    closing(&mut state, &inputs);
    // The radio altitude may fall by 170 ft/s, which are 10 200 ft/min; the
    // closure rate may rise by 2900 ft/min per second; three quarters of it
    // pass the filter in three seconds.
    assert_eq!(state.mode_2_ra_rate_limiter.state, Some(1_990_000));
    assert_eq!(state.mode_2_closure_rate_derivative.rate, -170_000);
    assert_eq!(state.mode_2_closure_rate_rate_limiter.state, Some(8_700_000));
    assert_eq!(state.mode_2_ra_filter.output, 6_525_000);
    assert!(state.mode_2_pull_up_preface_active);
    assert!(!state.mode_2_pull_up_active);
    assert!(!state.mode_2_terrain_active);
    assert_eq!(state.aural_output, AuralWarning::Terrain);
    assert!(state.warning_lamp_activated);
}

#[test]
fn mode_2_a_upper_boundary_rises_with_the_airspeed() {
    // 1650 ft up to 220 kt, 8.9 ft more per knot, 2450 ft at most. At the
    // closure rate reached here the envelope goes up to 1805.995 ft.
    for (airspeed, radio_altitude, inside) in [
        (100_000, 1_649_999, true),
        (100_000, 1_650_000, false),
        (220_000, 1_649_999, true),
        (220_000, 1_650_000, false),
        (230_000, 1_738_999, true),
        (230_000, 1_739_000, false),
        (310_000, 1_805_995, true),
        (310_000, 1_805_996, false),
    ] {
        let mut state = fresh(false, false);
        closing(&mut state, &Inputs::level(radio_altitude, airspeed));
        assert_eq!(
            state.mode_2_pull_up_preface_active, inside,
            "{} {}",
            airspeed, radio_altitude
        );
    }
}

#[test]
fn mode_2_b_lowers_the_upper_boundary_to_789_ft() {
    let mut on_beam = Inputs::level(788_999, 310_000).glideslope(174_999);
    on_beam.ils.localizer_deviation = normal(-154_999);
    let mut state = fresh(false, false);
    closing(&mut state, &on_beam);
    assert!(state.mode_2_pull_up_preface_active);
    let mut state = fresh(false, false);
    closing(&mut state, &on_beam.radio_altitude(789_000));
    assert!(!state.mode_2_pull_up_preface_active);

    // Off the beam it is mode 2A again.
    let mut off_beam = on_beam.radio_altitude(789_000);
    off_beam.ils.localizer_deviation = normal(-155_000);
    let mut state = fresh(false, false);
    closing(&mut state, &off_beam);
    assert!(state.mode_2_pull_up_preface_active);
    let mut state = fresh(false, false);
    closing(&mut state, &on_beam.radio_altitude(789_000).glideslope(175_000));
    assert!(state.mode_2_pull_up_preface_active);

    // With landing flaps it is mode 2B.
    let mut flaps = Inputs::level(789_000, 310_000);
    flaps.discrete.landing_flaps = true;
    let mut state = fresh(false, false);
    closing(&mut state, &flaps);
    assert!(!state.mode_2_pull_up_preface_active);
    let mut state = fresh(false, false);
    closing(&mut state, &flaps.radio_altitude(788_999));
    assert!(state.mode_2_pull_up_preface_active);
}

#[test]
fn mode_2_b_is_active_for_a_minute_after_leaving_the_ground() {
    let mut state = fresh(false, false);
    state.on_ground = true;
    let high = Inputs::level(2_500_000, 310_000);
    run(&mut state, 1 * S, &high);
    assert!(state.on_ground);
    run(&mut state, 9 * S, &high);
    assert!(!state.on_ground);
    assert_eq!(state.mode_2_takeoff_latch_node.remaining, 60 * S);
    run(&mut state, 56 * S, &high);
    // Terrain comes up to 1500 ft: within the minute nothing is said.
    run(&mut state, 3 * S, &high.radio_altitude(1_500_000));
    assert_eq!(state.mode_2_ra_filter.output, 6_525_000);
    assert!(state.mode_2_takeoff_latch_node.remaining > 0);
    assert!(!state.mode_2_pull_up_preface_active);
    assert_eq!(state.aural_output, AuralWarning::Silent);
    // After the minute it is.
    run(&mut state, 1 * S, &high.radio_altitude(1_500_000));
    assert_eq!(state.mode_2_takeoff_latch_node.remaining, 0);
    assert!(state.mode_2_pull_up_preface_active);
    assert_eq!(state.aural_output, AuralWarning::Terrain);
}

#[test]
fn mode_2_lower_boundary_with_landing_flaps_follows_the_vertical_speed() {
    // 600 ft at 1000 ft/min of descent down to 200 ft at 400 ft/min: 400 ft
    // at 700 ft/min.
    let mut flaps = Inputs::level(400_001, 310_000).vertical_speed(-700_000);
    flaps.discrete.landing_flaps = true;
    let mut state = fresh(false, false);
    closing(&mut state, &flaps);
    assert!(state.mode_2_pull_up_preface_active);
    let mut state = fresh(false, false);
    closing(&mut state, &flaps.radio_altitude(400_000));
    assert!(!state.mode_2_pull_up_preface_active);
    // Without the flaps the lower boundary is 30 ft.
    let mut state = fresh(false, false);
    closing(&mut state, &Inputs::level(30_001, 310_000));
    assert!(state.mode_2_pull_up_preface_active);
    let mut state = fresh(false, false);
    closing(&mut state, &Inputs::level(30_000, 310_000));
    assert!(!state.mode_2_pull_up_preface_active);
}

#[test]
fn mode_2_says_terrain_only_with_flaps_and_gear_down() {
    let mut state = fresh(false, false);
    let inputs = Inputs::level(500_000, 140_000).landing();
    closing(&mut state, &inputs);
    assert!(state.mode_2_terrain_active);
    assert!(!state.mode_2_pull_up_preface_active);
    assert!(!state.mode_2_pull_up_active);
    assert_eq!(state.aural_output, AuralWarning::Terrain);
    run(&mut state, 2_400 * MS, &inputs);
    run(&mut state, 2_400 * MS, &inputs);
    assert_eq!(state.number_of_aural_warning_emissions, 2);
    run(&mut state, 100 * MS, &inputs);
    assert!(state.mode_2_terrain_active);
    assert!(!state.mode_2_pull_up_active);
    assert!(!state.mode_2_pull_up_preface_voice_emitted);
    assert_eq!(state.aural_output, AuralWarning::Terrain);
}

#[test]
fn mode_2_pull_up_follows_two_terrain_calls_one_tick_later() {
    let mut state = fresh(false, false);
    let inputs = Inputs::level(1_500_000, 310_000);
    closing(&mut state, &inputs);
    assert_eq!(state.aural_output, AuralWarning::Terrain);
    // Keep the terrain closing in, 100 ft in each second.
    let mut radio_altitude = 1_500_000;
    let mut elapsed = 0;
    while state.number_of_aural_warning_emissions < 2 {
        radio_altitude -= 10_000;
        run(&mut state, 100 * MS, &inputs.radio_altitude(radio_altitude));
        elapsed += 100;
        assert_eq!(state.aural_output, AuralWarning::Terrain);
        assert!(!state.mode_2_pull_up_preface_voice_emitted);
    }
    assert_eq!(elapsed, 4_800);
    radio_altitude -= 10_000;
    run(&mut state, 100 * MS, &inputs.radio_altitude(radio_altitude));
    assert!(state.mode_2_pull_up_preface_voice_emitted);
    assert!(state.mode_2_pull_up_active);
    assert!(!state.mode_2_pull_up_preface_active);
    assert_eq!(state.aural_output, AuralWarning::PullUp);
    assert_eq!(state.number_of_aural_warning_emissions, 0);
    // Outside of the envelope the preface is due again.
    run(&mut state, 60 * S, &inputs.radio_altitude(2_500_000));
    assert!(!state.mode_2_pull_up_preface_voice_emitted);
    assert!(!state.mode_2_pull_up_active);
    assert_eq!(state.aural_output, AuralWarning::Silent);
}

#[test]
fn mode_3_lamp_shows_an_altitude_loss_after_takeoff() {
    let mut state = fresh(false, false);
    // Climbing: the watch is off and no altitude is kept.
    run(
        &mut state,
        1 * S,
        &Inputs::level(500_000, 160_000).altitude(500_000).vertical_speed(1_000_000),
    );
    assert_eq!(state.mode_3_max_achieved_altitude, 0);
    assert!(!state.mode_3_lamp_active);
    // Descending below 1500 ft in the takeoff phase: the altitude is kept.
    run(
        &mut state,
        1 * S,
        &Inputs::level(500_000, 160_000).altitude(500_000).vertical_speed(-500_000),
    );
    assert_eq!(state.mode_3_max_achieved_altitude, 500_000);
    assert!(!state.mode_3_lamp_active);
    // 8 ft lost are not enough, a little more is: the boundary is at 30 ft
    // there, far below the aircraft.
    run(
        &mut state,
        1 * S,
        &Inputs::level(492_000, 160_000).altitude(492_000).vertical_speed(-500_000),
    );
    assert_eq!(state.mode_3_max_achieved_altitude, 500_000);
    assert!(!state.mode_3_lamp_active);
    run(
        &mut state,
        1 * S,
        &Inputs::level(491_999, 160_000).altitude(491_999).vertical_speed(-500_000),
    );
    assert!(state.mode_3_lamp_active);
    // The lamp of this mode lights neither of the two lamps and says nothing.
    assert!(!state.warning_lamp_activated);
    assert!(!state.alert_lamp_activated);
    assert!(!state.mode_3_dont_sink_voice_active);
    assert_eq!(state.aural_output, AuralWarning::Silent);
}

#[test]
fn mode_3_boundary_rises_with_the_altitude_lost() {
    // 143 ft lost: the boundary is at 1500 ft, and the aircraft has to be
    // above it.
    let mut state = fresh(false, false);
    state.mode_3_max_achieved_altitude = 2_000_000;
    run(
        &mut state,
        1 * S,
        &Inputs::level(1_500_001, 160_000).altitude(1_857_000),
    );
    assert!(state.mode_3_lamp_active);
    run(
        &mut state,
        1 * S,
        &Inputs::level(1_500_000, 160_000).altitude(1_857_000),
    );
    assert!(!state.mode_3_lamp_active);
    // 75.5 ft lost: half way, at 765 ft.
    run(
        &mut state,
        1 * S,
        &Inputs::level(765_001, 160_000).altitude(1_924_500),
    );
    assert!(state.mode_3_lamp_active);
    run(
        &mut state,
        1 * S,
        &Inputs::level(765_000, 160_000).altitude(1_924_500),
    );
    assert!(!state.mode_3_lamp_active);
    assert_eq!(state.mode_3_max_achieved_altitude, 2_000_000);
}

#[test]
fn mode_4_leaves_its_requests_alone() {
    let mut state = fresh(false, false);
    state.mode_4_too_low_gear_voice_active = true;
    state.update_mode_4_logic();
    assert!(state.mode_4_too_low_gear_voice_active);
    assert!(!state.mode_4_too_low_flaps_voice_active);
    assert!(!state.mode_4_too_low_terrain_voice_active);
    run(&mut state, 1 * S, &Inputs::level(1_000_000, 200_000));
    assert!(state.mode_4_too_low_gear_voice_active);
    assert_eq!(state.aural_output, AuralWarning::TooLowGear);
}

/// An approach with flaps and gear down, on the localizer, at the fly-up
/// deviation given.
fn approach(radio_altitude: i32, fly_up: i32) -> Inputs {
    Inputs::level(radio_altitude, 140_000)
        .landing()
        .glideslope(-fly_up)
}

#[test]
fn mode_5_is_armed_only_when_set_up_and_lined_up() {
    let armed = approach(200_000, 200_000);
    let lamp = |inputs: &Inputs, phase: FlightPhase| {
        let mut state = fresh(false, false);
        state.flight_phase = phase;
        state.radio_altitude = inputs.ra1.radio_altitude.value();
        state.chosen_vertical_speed = -500_000;
        state.update_mode_5_logic(1 * MS, &inputs.ils, &inputs.ir, &inputs.discrete);
        state.mode_5_glideslope_lamp_active
    };
    assert!(lamp(&armed, FlightPhase::Takeoff));

    let mut inputs = armed;
    inputs.ils.glideslope_deviation = no_data(-200_000);
    assert!(!lamp(&inputs, FlightPhase::Approach));

    let mut inputs = armed;
    inputs.discrete.glideslope_inhibit = true;
    assert!(!lamp(&inputs, FlightPhase::Approach));

    let mut inputs = armed;
    inputs.discrete.landing_flaps = false;
    assert!(!lamp(&inputs, FlightPhase::Takeoff));
    assert!(lamp(&inputs, FlightPhase::Approach));

    let mut inputs = armed;
    inputs.discrete.landing_gear_downlocked = false;
    assert!(!lamp(&inputs, FlightPhase::Approach));

    // Track against runway heading: within 50 degrees, across north too.
    let mut inputs = armed;
    inputs.ils.runway_heading = normal(340_000);
    inputs.ir.magnetic_track = normal(29_999);
    assert!(lamp(&inputs, FlightPhase::Approach));
    inputs.ir.magnetic_track = normal(30_000);
    assert!(!lamp(&inputs, FlightPhase::Approach));
    inputs.ir.magnetic_track = normal(290_001);
    assert!(lamp(&inputs, FlightPhase::Approach));
    inputs.ir.magnetic_track = normal(290_000);
    assert!(!lamp(&inputs, FlightPhase::Approach));
    inputs.ir.magnetic_track = no_data(290_000);
    assert!(lamp(&inputs, FlightPhase::Approach));

    // Localizer: within two dots, or below 500 ft.
    let mut inputs = approach(500_000, 130_000);
    inputs.ils.localizer_deviation = normal(154_999);
    assert!(lamp(&inputs, FlightPhase::Approach));
    inputs.ils.localizer_deviation = normal(155_000);
    assert!(!lamp(&inputs, FlightPhase::Approach));
    inputs = inputs.radio_altitude(499_999);
    assert!(lamp(&inputs, FlightPhase::Approach));
}

#[test]
fn mode_5_hard_boundary() {
    let hard = |radio_altitude: i32, fly_up: i32| {
        let inputs = approach(radio_altitude, fly_up);
        let mut state = fresh(false, false);
        state.radio_altitude = radio_altitude;
        state.update_mode_5_logic(1 * MS, &inputs.ils, &inputs.ir, &inputs.discrete);
        state.mode_5_glideslope_hard_voice_active
    };
    // Two dots are 175 000; the boundary falls from 150 ft there to 50 ft
    // at 3.4 dots and beyond.
    assert!(!hard(200_000, 175_000));
    assert!(hard(200_000, 175_001));
    assert!(hard(150_000, 175_001));
    assert!(!hard(149_999, 175_001));
    assert!(hard(299_999, 200_000));
    assert!(!hard(300_000, 200_000));
    assert!(hard(50_001, 297_500));
    assert!(!hard(50_000, 297_500));
    // Half way, at 2.7 dots: 100 ft.
    assert!(hard(100_001, 236_250));
    assert!(!hard(100_000, 236_250));
}

#[test]
fn mode_5_soft_boundary_ends_at_an_altitude_that_follows_the_vertical_speed() {
    let soft = |radio_altitude: i32, vertical_speed: i32| {
        let inputs = approach(radio_altitude, 120_000);
        let mut state = fresh(false, false);
        state.radio_altitude = radio_altitude;
        state.chosen_vertical_speed = vertical_speed;
        state.update_mode_5_logic(1 * MS, &inputs.ils, &inputs.ir, &inputs.discrete);
        state.mode_5_glideslope_soft_voice_active
    };
    // 500 ft in level flight and in a climb, 1000 ft from 500 ft/min of
    // descent on, 750 ft half way.
    assert!(soft(499_999, 0));
    assert!(!soft(500_000, 0));
    assert!(!soft(500_000, 1_000_000));
    assert!(soft(999_999, -500_000));
    assert!(!soft(1_000_000, -500_000));
    assert!(!soft(1_000_000, -5_000_000));
    assert!(soft(749_999, -250_000));
    assert!(!soft(750_000, -250_000));
    // 1.3 dots are 113 750.
    let inputs = approach(400_000, 113_750);
    let mut state = fresh(false, false);
    state.radio_altitude = 400_000;
    state.update_mode_5_logic(1 * MS, &inputs.ils, &inputs.ir, &inputs.discrete);
    assert!(!state.mode_5_glideslope_soft_voice_active);
    assert!(!state.mode_5_glideslope_lamp_active);
}

#[test]
fn mode_5_hard_call_pauses_for_three_seconds_with_the_audio_declutter() {
    let mut state = fresh(false, false);
    let inputs = approach(200_000, 200_000);
    run(&mut state, 100 * MS, &inputs);
    assert_eq!(state.aural_output, AuralWarning::GlideslopeHard);
    assert!(state.alert_lamp_activated);
    run(&mut state, 1_600 * MS, &inputs);
    assert_eq!(state.number_of_aural_warning_emissions, 1);
    assert_eq!(state.mode_5_time_to_next_aural, 0);
    // The call has been spoken once: the pause starts with the next tick,
    // and the voice goes with the tick after it.
    run(&mut state, 100 * MS, &inputs);
    assert_eq!(state.mode_5_time_to_next_aural, 3 * S);
    assert_eq!(state.aural_output, AuralWarning::GlideslopeHard);
    run(&mut state, 100 * MS, &inputs);
    assert_eq!(state.mode_5_time_to_next_aural, 2_900 * MS);
    assert_eq!(state.aural_output, AuralWarning::Silent);
    assert!(state.alert_lamp_activated);
    run(&mut state, 2_800 * MS, &inputs);
    assert_eq!(state.aural_output, AuralWarning::Silent);
    run(&mut state, 100 * MS, &inputs);
    assert_eq!(state.mode_5_time_to_next_aural, 0);
    assert_eq!(state.aural_output, AuralWarning::Silent);
    run(&mut state, 100 * MS, &inputs);
    assert_eq!(state.aural_output, AuralWarning::GlideslopeHard);
    // Outside of the boundary the pause is dropped.
    run(&mut state, 1_700 * MS, &inputs);
    run(&mut state, 100 * MS, &inputs);
    assert_eq!(state.mode_5_time_to_next_aural, 3 * S);
    run(&mut state, 100 * MS, &inputs.radio_altitude(400_000));
    assert_eq!(state.mode_5_time_to_next_aural, 0);
}

#[test]
fn mode_5_pause_follows_height_and_deviation_without_the_audio_declutter() {
    let mut state = fresh(true, false);
    // 200 ft at two and a bit dots.
    let inputs = approach(200_000, 175_001);
    run(&mut state, 100 * MS, &inputs);
    assert_eq!(state.aural_output, AuralWarning::GlideslopeHard);
    run(&mut state, 1_600 * MS, &inputs);
    assert_eq!(state.number_of_aural_warning_emissions, 1);
    run(&mut state, 100 * MS, &inputs);
    // 200 ft / 2.0000114 dots * 0.0067 s.
    assert_eq!(state.mode_5_time_to_next_aural, 669_996_171);
    assert_eq!(state.mode_5_declutter_threshold_steps, 0);
    run(&mut state, 100 * MS, &inputs);
    assert_eq!(state.mode_5_time_to_next_aural, 569_996_171);
    assert_eq!(state.aural_output, AuralWarning::Silent);
    run(&mut state, 600 * MS, &inputs);
    assert_eq!(state.mode_5_time_to_next_aural, 0);
    run(&mut state, 100 * MS, &inputs);
    assert_eq!(state.aural_output, AuralWarning::GlideslopeHard);

    // The soft call pauses in the same way: 400 ft at 1.5 dots.
    let mut state = fresh(true, false);
    let inputs = approach(400_000, 131_250);
    run(&mut state, 100 * MS, &inputs);
    assert_eq!(state.aural_output, AuralWarning::GlideslopeSoft);
    run(&mut state, 1_600 * MS, &inputs);
    run(&mut state, 100 * MS, &inputs);
    assert_eq!(state.mode_5_time_to_next_aural, 1_786_666_666);
    assert_eq!(state.mode_5_declutter_threshold_steps, 0);
}

#[test]
fn mode_5_soft_threshold_goes_up_by_a_fifth_with_each_call() {
    let mut state = fresh(false, false);
    // Four dots, above the hard boundary's altitudes: soft only.
    let inputs = approach(400_000, 350_000);
    run(&mut state, 100 * MS, &inputs);
    assert_eq!(state.aural_output, AuralWarning::GlideslopeSoft);
    run(&mut state, 1_600 * MS, &inputs);
    assert_eq!(state.mode_5_declutter_threshold_steps, 0);
    // From the first full call on the threshold goes up with each tick
    // until the deviation no longer passes it: four dots pass 1.3 dots
    // times 3.0, and not times 3.2.
    for steps in 1..=11 {
        run(&mut state, 100 * MS, &inputs);
        assert_eq!(state.mode_5_declutter_threshold_steps, steps);
        assert_eq!(state.aural_output, AuralWarning::GlideslopeSoft);
    }
    run(&mut state, 100 * MS, &inputs);
    assert_eq!(state.mode_5_declutter_threshold_steps, 11);
    assert_eq!(state.aural_output, AuralWarning::Silent);
    run(&mut state, 10 * S, &inputs);
    assert_eq!(state.mode_5_declutter_threshold_steps, 11);
    assert!(state.mode_5_glideslope_lamp_active);
    // Back on the beam the threshold is the plain one again.
    run(&mut state, 100 * MS, &approach(400_000, 0));
    assert_eq!(state.mode_5_declutter_threshold_steps, 0);
    assert!(!state.mode_5_glideslope_lamp_active);
}

#[test]
fn outputs_follow_the_state() {
    let mut runtime = EnhancedGroundProximityWarningComputerRuntime::new(
        0,
        false,
        FlightPhase::Takeoff,
    );
    let mut discrete_outputs = TerrainAwarenessWarningSystemDiscreteOutputs::new();
    let mut bus_outputs = TerrainAwarenessWarningSystemBusOutputs::new();
    let inputs = Inputs::level(1_500_000, 250_000).vertical_speed(-5_000_000);
    step(&mut runtime, 800 * MS, &inputs);
    runtime.set_outputs(&mut discrete_outputs, &mut bus_outputs);
    assert_eq!(runtime.get_aural_output(), AuralWarning::SinkRate);
    assert_eq!(runtime.get_aural_output().to_ordinal(), 6);
    assert!(discrete_outputs.audio_on);
    assert!(discrete_outputs.warning_lamp);
    assert!(!discrete_outputs.alert_lamp);
    assert!(!discrete_outputs.gpws_inop);
    assert!(!discrete_outputs.terrain_inop);
    assert!(!discrete_outputs.terrain_obstacle_caution);
    assert!(!discrete_outputs.terrain_obstacle_warning);
    assert!(!discrete_outputs.terrain_not_available);
    assert!(!discrete_outputs.raas_inop);
    assert!(!discrete_outputs.capt_terrain_display_active);
    assert!(!discrete_outputs.fo_terrain_display_active);
    assert!(!discrete_outputs.tcas_inhibit);

    step(&mut runtime, 800 * MS, &inputs.vertical_speed(0));
    runtime.set_outputs(&mut discrete_outputs, &mut bus_outputs);
    assert_eq!(runtime.get_aural_output(), AuralWarning::Silent);
    assert_eq!(runtime.get_aural_output().to_ordinal(), 0);
    assert!(!discrete_outputs.audio_on);
    assert!(!discrete_outputs.warning_lamp);
}

#[test]
fn bus_outputs_are_left_as_they_are() {
    let mut runtime = EnhancedGroundProximityWarningComputerRuntime::new(
        0,
        false,
        FlightPhase::Takeoff,
    );
    let mut discrete_outputs = TerrainAwarenessWarningSystemDiscreteOutputs::new();
    let mut bus_outputs = TerrainAwarenessWarningSystemBusOutputs { aural_warning: 99 };
    runtime.set_outputs(&mut discrete_outputs, &mut bus_outputs);
    assert_eq!(bus_outputs.aural_warning, 99);
    let inputs = Inputs::level(1_500_000, 250_000).vertical_speed(-5_000_000);
    step(&mut runtime, 800 * MS, &inputs);
    runtime.set_outputs(&mut discrete_outputs, &mut bus_outputs);
    assert_eq!(runtime.get_aural_output(), AuralWarning::SinkRate);
    assert!(discrete_outputs.audio_on);
    assert_eq!(bus_outputs.aural_warning, 99);
    // Every discrete is written, whatever it held before.
    let mut discrete_outputs = TerrainAwarenessWarningSystemDiscreteOutputs {
        alert_lamp: true,
        warning_lamp: false,
        audio_on: false,
        terrain_obstacle_caution: true,
        terrain_obstacle_warning: true,
        gpws_inop: true,
        terrain_inop: true,
        terrain_not_available: true,
        raas_inop: true,
        capt_terrain_display_active: true,
        fo_terrain_display_active: true,
        tcas_inhibit: true,
    };
    runtime.set_outputs(&mut discrete_outputs, &mut bus_outputs);
    assert!(!discrete_outputs.alert_lamp);
    assert!(discrete_outputs.warning_lamp);
    assert!(discrete_outputs.audio_on);
    assert!(!discrete_outputs.terrain_obstacle_caution);
    assert!(!discrete_outputs.terrain_obstacle_warning);
    assert!(!discrete_outputs.gpws_inop);
    assert!(!discrete_outputs.terrain_inop);
    assert!(!discrete_outputs.terrain_not_available);
    assert!(!discrete_outputs.raas_inop);
    assert!(!discrete_outputs.capt_terrain_display_active);
    assert!(!discrete_outputs.fo_terrain_display_active);
    assert!(!discrete_outputs.tcas_inhibit);
}

#[test]
fn audio_is_on_exactly_while_a_warning_is_selected() {
    let mut runtime = EnhancedGroundProximityWarningComputerRuntime::new(
        1 * S,
        false,
        FlightPhase::Takeoff,
    );
    let mut discrete_outputs = TerrainAwarenessWarningSystemDiscreteOutputs::new();
    let mut bus_outputs = TerrainAwarenessWarningSystemBusOutputs::new();
    let descent = Inputs::level(1_500_000, 250_000).vertical_speed(-5_000_000);
    let level = Inputs::level(1_500_000, 250_000);
    let mut last = AuralWarning::Silent;
    let mut selected = 0;
    for tick in 0..400 {
        let inputs = if tick % 100 < 60 { &descent } else { &level };
        step(&mut runtime, 50 * MS, inputs);
        runtime.set_outputs(&mut discrete_outputs, &mut bus_outputs);
        let aural = runtime.get_aural_output();
        assert_eq!(discrete_outputs.audio_on, aural != AuralWarning::Silent);
        assert_eq!(aural.to_ordinal(), aural as u8);
        if aural != last {
            assert_eq!(runtime.state().number_of_aural_warning_emissions, 0);
        }
        if aural != AuralWarning::Silent {
            selected += 1;
        }
        last = aural;
    }
    assert!(selected > 100);
}

#[test]
fn self_test_keeps_the_computer_inoperative_and_quiet() {
    let mut runtime = EnhancedGroundProximityWarningComputerRuntime::new(
        20 * S,
        true,
        FlightPhase::Approach,
    );
    let mut discrete_outputs = TerrainAwarenessWarningSystemDiscreteOutputs::new();
    let mut bus_outputs = TerrainAwarenessWarningSystemBusOutputs::new();
    assert!(runtime.get_on_ground());
    assert_eq!(runtime.get_flight_phase(), FlightPhase::Approach);
    runtime.set_outputs(&mut discrete_outputs, &mut bus_outputs);
    assert!(discrete_outputs.gpws_inop);
    assert!(discrete_outputs.terrain_inop);

    // A descent that would call for a pull up at once.
    let inputs = Inputs::level(1_500_000, 250_000).vertical_speed(-8_000_000);
    step(&mut runtime, 19_999 * MS, &inputs);
    runtime.set_outputs(&mut discrete_outputs, &mut bus_outputs);
    assert!(discrete_outputs.gpws_inop);
    assert!(discrete_outputs.terrain_inop);
    assert!(!discrete_outputs.warning_lamp);
    assert!(!discrete_outputs.alert_lamp);
    assert!(!discrete_outputs.audio_on);
    assert_eq!(runtime.get_aural_output(), AuralWarning::Silent);
    assert_eq!(runtime.state().remaining_startup, 1 * MS);
    // Nothing has been sampled during the self test.
    assert_eq!(runtime.state().radio_altitude, 0);
    assert!(runtime.get_on_ground());

    // The tick that ends the self test runs the logic, with its full length.
    step(&mut runtime, 2 * S, &inputs);
    runtime.set_outputs(&mut discrete_outputs, &mut bus_outputs);
    assert!(!discrete_outputs.gpws_inop);
    assert!(!discrete_outputs.terrain_inop);
    assert_eq!(runtime.state().remaining_startup, 0);
    assert_eq!(runtime.state().radio_altitude, 1_500_000);
    assert_eq!(runtime.get_aural_output(), AuralWarning::PullUp);
    assert!(discrete_outputs.warning_lamp);
}

#[test]
fn confirmed_gpws_inhibit_leaves_the_computer_inoperative_and_quiet() {
    let mut runtime = EnhancedGroundProximityWarningComputerRuntime::new_running(
        false,
        FlightPhase::Takeoff,
    );
    let mut discrete_outputs = TerrainAwarenessWarningSystemDiscreteOutputs::new();
    let mut bus_outputs = TerrainAwarenessWarningSystemBusOutputs::new();
    let mut inputs = Inputs::level(1_500_000, 250_000).vertical_speed(-8_000_000);
    step(&mut runtime, 2 * S, &inputs);
    assert_eq!(runtime.get_aural_output(), AuralWarning::PullUp);
    inputs.discrete.gpws_inhibit = true;
    step(&mut runtime, 5 * S, &inputs);
    runtime.set_outputs(&mut discrete_outputs, &mut bus_outputs);
    assert!(discrete_outputs.gpws_inop);
    assert!(!discrete_outputs.warning_lamp);
    assert!(!discrete_outputs.alert_lamp);
    assert!(!discrete_outputs.audio_on);
    // The modes have gone on underneath.
    assert!(runtime.state().mode_1_pull_up_active);
    inputs.discrete.gpws_inhibit = false;
    step(&mut runtime, 1 * MS, &inputs);
    runtime.set_outputs(&mut discrete_outputs, &mut bus_outputs);
    assert!(!discrete_outputs.gpws_inop);
    assert!(discrete_outputs.warning_lamp);
    assert_eq!(runtime.get_aural_output(), AuralWarning::PullUp);
}

#[test]
fn radio_altimeter_failure_leaves_a_lit_lamp_on_for_its_fall_time() {
    let mut runtime = EnhancedGroundProximityWarningComputerRuntime::new_running(
        false,
        FlightPhase::Takeoff,
    );
    let mut discrete_outputs = TerrainAwarenessWarningSystemDiscreteOutputs::new();
    let mut bus_outputs = TerrainAwarenessWarningSystemBusOutputs::new();
    let mut inputs = Inputs::level(1_500_000, 250_000).vertical_speed(-8_000_000);
    step(&mut runtime, 2 * S, &inputs);
    inputs.ra1.radio_altitude = failed(0);
    inputs.ra2.radio_altitude = failed(0);
    step(&mut runtime, 100 * MS, &inputs);
    runtime.set_outputs(&mut discrete_outputs, &mut bus_outputs);
    assert!(discrete_outputs.gpws_inop);
    assert!(discrete_outputs.warning_lamp);
    assert!(discrete_outputs.audio_on);
    step(&mut runtime, 100 * MS, &inputs);
    runtime.set_outputs(&mut discrete_outputs, &mut bus_outputs);
    assert!(discrete_outputs.gpws_inop);
    assert!(!discrete_outputs.warning_lamp);
    assert!(!discrete_outputs.audio_on);
}

#[test]
fn pin_programs_are_taken_at_creation() {
    let pins = EnhancedGroundProximityWarningComputerPinProgramming {
        audio_declutter_disable: true,
        alternate_lamp_format: true,
    };
    let mut runtime = EnhancedGroundProximityWarningComputerRuntime::new_with_pin_programs(
        pins,
        0,
        false,
        FlightPhase::Takeoff,
    );
    assert!(runtime.state().pin_programs.audio_declutter_disable);
    assert!(runtime.state().pin_programs.alternate_lamp_format);
    let mut discrete_outputs = TerrainAwarenessWarningSystemDiscreteOutputs::new();
    let mut bus_outputs = TerrainAwarenessWarningSystemBusOutputs::new();
    // A sink rate lamp is an alert in the alternate format.
    let inputs = Inputs::level(1_500_000, 250_000).vertical_speed(-4_000_000);
    step(&mut runtime, 800 * MS, &inputs);
    runtime.set_outputs(&mut discrete_outputs, &mut bus_outputs);
    assert!(discrete_outputs.alert_lamp);
    assert!(!discrete_outputs.warning_lamp);
    assert_eq!(runtime.get_aural_output(), AuralWarning::SinkRate);
}
