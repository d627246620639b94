//! Orbital phase.
//!
//! The phase says where the station is on its way between the lowest and the
//! highest point of its orbit. It follows from the last two altitude readings
//! and two thresholds: the trend between the readings gives the direction, and
//! an altitude beyond a threshold means that the turning point is reached.

use vstd::prelude::*;
use vstd::string::*;

use crate::units::Micros;
use crate::units::MICROS_PER_UNIT;

verus! {

/// Whole kilometres above which the apogee counts as reached.
pub const APOGEE_THRESHOLD_KM: i64 = 429;

/// Whole kilometres below which the perigee counts as reached.
pub const PERIGEE_THRESHOLD_KM: i64 = 372;

/// Where the station is between perigee and apogee.
#[derive(Clone, Copy, Debug, PartialEq, Eq, Structural)]
pub enum OrbitalPhase {
    /// The altitude did not fall since the previous reading.
    ApproachingApogee,
    /// The altitude fell since the previous reading.
    ApproachingPerigee,
    /// The altitude is above the apogee threshold.
    ApogeeReached,
    /// The altitude is below the perigee threshold.
    PerigeeReached,
}

/// The phase that follows from the previous and the current altitude, both in
/// millionths of a kilometre. The whole kilometres of the current altitude
/// are compared with the thresholds; between the thresholds the trend decides.
pub open spec fn phase_of(previous: Micros, current: Micros) -> OrbitalPhase {
    if current.floor() < PERIGEE_THRESHOLD_KM {
        OrbitalPhase::PerigeeReached
    } else if current.floor() > APOGEE_THRESHOLD_KM {
        OrbitalPhase::ApogeeReached
    } else if previous.value() > current.value() {
        OrbitalPhase::ApproachingPerigee
    } else {
        OrbitalPhase::ApproachingApogee
    }
}

/// The name of a phase as the dashboard shows it.
pub open spec fn phase_label(phase: OrbitalPhase) -> Seq<char> {
    match phase {
        OrbitalPhase::ApproachingApogee => "Approaching Apogee"@,
        OrbitalPhase::ApproachingPerigee => "Approaching Perigee"@,
        OrbitalPhase::ApogeeReached => "Apogee Reached"@,
        OrbitalPhase::PerigeeReached => "Perigee Reached"@,
    }
}

/// Derives the phase from the previous and the current altitude.
pub fn classify(previous: Micros, current: Micros) -> (phase: OrbitalPhase)
    ensures
        phase == phase_of(previous, current),
{
    let mut phase = if previous.raw > current.raw {
        OrbitalPhase::ApproachingPerigee
    } else {
        OrbitalPhase::ApproachingApogee
    };
    if current.raw >= (APOGEE_THRESHOLD_KM + 1) * MICROS_PER_UNIT {
        phase = OrbitalPhase::ApogeeReached;
    }
    if current.raw < PERIGEE_THRESHOLD_KM * MICROS_PER_UNIT {
        phase = OrbitalPhase::PerigeeReached;
    }
    phase
}

impl OrbitalPhase {
    /// The name of the phase as the dashboard shows it.
    pub fn label(self) -> (text: String)
        ensures
            text@ == phase_label(self),
    {
        match self {
            OrbitalPhase::ApproachingApogee => String::from_str("Approaching Apogee"),
            OrbitalPhase::ApproachingPerigee => String::from_str("Approaching Perigee"),
            OrbitalPhase::ApogeeReached => String::from_str("Apogee Reached"),
            OrbitalPhase::PerigeeReached => String::from_str("Perigee Reached"),
        }
    }
}

/// While the station descends between the thresholds, it approaches its
/// perigee: for altitudes whose whole kilometres lie from the perigee
/// threshold to the apogee threshold, a fall since the previous reading gives
/// `ApproachingPerigee`, and anything else `ApproachingApogee`.
pub proof fn trend_decides_between_thresholds(previous: Micros, current: Micros)
    requires
        PERIGEE_THRESHOLD_KM <= current.floor() <= APOGEE_THRESHOLD_KM,
    ensures
        previous.value() > current.value() ==> phase_of(previous, current)
            == OrbitalPhase::ApproachingPerigee,
        previous.value() <= current.value() ==> phase_of(previous, current)
            == OrbitalPhase::ApproachingApogee,
{
}

/// Above the apogee threshold the apogee is reached, whatever the trend.
pub proof fn apogee_reached_above_threshold(previous: Micros, current: Micros)
    requires
        current.floor() > APOGEE_THRESHOLD_KM,
    ensures
        phase_of(previous, current) == OrbitalPhase::ApogeeReached,
{
}

/// Below the perigee threshold the perigee is reached, whatever the trend.
pub proof fn perigee_reached_below_threshold(previous: Micros, current: Micros)
    requires
        current.floor() < PERIGEE_THRESHOLD_KM,
    ensures
        phase_of(previous, current) == OrbitalPhase::PerigeeReached,
{
}

/// The two thresholds leave a gap, so no altitude is beyond both.
pub proof fn thresholds_exclude_each_other(current: Micros)
    ensures
        !(current.floor() > APOGEE_THRESHOLD_KM && current.floor() < PERIGEE_THRESHOLD_KM),
{
}

} // verus!
