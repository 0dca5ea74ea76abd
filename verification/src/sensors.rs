//! The sensor buses as the computer samples them once per tick. Each holds
//! the words that the warning logic reads and nothing else.

use vstd::prelude::*;
use crate::arinc429::Arinc429Word;

verus! {

/// One radio altimeter channel.
#[derive(Clone, Copy, Debug)]
pub struct RadioAltimeter {
    /// Height above terrain, in thousandths of a foot.
    pub radio_altitude: Arinc429Word,
}

/// The air data reference.
#[derive(Clone, Copy, Debug)]
pub struct AirDataReferenceBus {
    /// Computed airspeed, in thousandths of a knot.
    pub computed_airspeed: Arinc429Word,
    /// Barometric vertical speed, in thousandths of a foot per minute.
    pub vertical_speed: Arinc429Word,
    /// Standard altitude, in thousandths of a foot.
    pub standard_altitude: Arinc429Word,
}

/// The inertial reference.
#[derive(Clone, Copy, Debug)]
pub struct InertialReferenceBus {
    /// Inertial altitude, in thousandths of a foot.
    pub inertial_altitude: Arinc429Word,
    /// Inertial vertical speed, in thousandths of a foot per minute.
    pub inertial_vertical_speed: Arinc429Word,
    /// Pitch angle, in thousandths of a degree.
    pub pitch_angle: Arinc429Word,
    /// Magnetic track, in thousandths of a degree.
    pub magnetic_track: Arinc429Word,
}

/// The instrument landing system receiver.
#[derive(Clone, Copy, Debug)]
pub struct InstrumentLandingSystemBus {
    /// Glideslope deviation, in millionths; positive above the beam.
    pub glideslope_deviation: Arinc429Word,
    /// Localizer deviation, in millionths.
    pub localizer_deviation: Arinc429Word,
    /// Runway heading, in thousandths of a degree.
    pub runway_heading: Arinc429Word,
}

} // verus!
