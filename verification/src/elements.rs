//! Keplerian orbital elements of the planets at the epoch J2000.0.

use crate::planet::Planet;
use crate::rational::Rational;
use vstd::prelude::*;

verus! {

/// Julian date of the epoch J2000.0, at which the elements are tabulated.
/// The epoch falls on a whole number of days.
pub const EPOCH_JULIAN_DAY: u32 = 2451545;

/// The classical elements of one closed, prograde orbit.
#[derive(Clone, Copy, Debug, PartialEq, Eq, Structural)]
pub struct OrbitalElements {
    /// Semi-major axis, in astronomical units.
    pub semi_major_axis: Rational,
    /// Eccentricity.
    pub eccentricity: Rational,
    /// Inclination to the ecliptic, in degrees.
    pub inclination: Rational,
    /// Longitude of the ascending node, in degrees.
    pub ascending_node_longitude: Rational,
    /// Argument of perihelion, in degrees.
    pub perihelion_argument: Rational,
    /// Mean anomaly at the epoch, in degrees.
    pub mean_anomaly_at_epoch: Rational,
    /// Mean motion, in degrees per day.
    pub mean_motion: Rational,
}

impl OrbitalElements {
    /// The elements describe an ellipse that is travelled forwards: the
    /// semi-major axis and the mean motion are positive, the eccentricity is
    /// at least zero and below one, and the four angles are numbers. Every
    /// element is exact in double precision.
    pub open spec fn wf(self) -> bool {
        &&& self.semi_major_axis.is_positive()
        &&& self.eccentricity.is_non_negative()
        &&& self.eccentricity.numerator < self.eccentricity.denominator
        &&& self.mean_motion.is_positive()
        &&& self.semi_major_axis.is_double_exact()
        &&& self.eccentricity.is_double_exact()
        &&& self.inclination.is_double_exact()
        &&& self.ascending_node_longitude.is_double_exact()
        &&& self.perihelion_argument.is_double_exact()
        &&& self.mean_anomaly_at_epoch.is_double_exact()
        &&& self.mean_motion.is_double_exact()
    }

    /// One row of the catalogue, each quantity written as the integer that
    /// its printed digits spell: axis and eccentricity in millionths, the
    /// four angles in thousandths of a degree, the mean motion in
    /// ten-thousandths of a degree per day.
    pub open spec fn spec_from_catalogue(
        axis: i64,
        eccentricity: i64,
        inclination: i64,
        node: i64,
        perihelion: i64,
        anomaly: i64,
        motion: i64,
    ) -> OrbitalElements {
        OrbitalElements {
            semi_major_axis: Rational { numerator: axis, denominator: 1_000_000 },
            eccentricity: Rational { numerator: eccentricity, denominator: 1_000_000 },
            inclination: Rational { numerator: inclination, denominator: 1_000 },
            ascending_node_longitude: Rational { numerator: node, denominator: 1_000 },
            perihelion_argument: Rational { numerator: perihelion, denominator: 1_000 },
            mean_anomaly_at_epoch: Rational { numerator: anomaly, denominator: 1_000 },
            mean_motion: Rational { numerator: motion, denominator: 10_000 },
        }
    }

    /// One row of the catalogue, from the integers that its digits spell.
    #[verifier::when_used_as_spec(spec_from_catalogue)]
    pub fn from_catalogue(
        axis: i64,
        eccentricity: i64,
        inclination: i64,
        node: i64,
        perihelion: i64,
        anomaly: i64,
        motion: i64,
    ) -> (elements: OrbitalElements)
        ensures
            elements == Self::spec_from_catalogue(
                axis,
                eccentricity,
                inclination,
                node,
                perihelion,
                anomaly,
                motion,
            ),
    {
        OrbitalElements {
            semi_major_axis: Rational { numerator: axis, denominator: 1_000_000 },
            eccentricity: Rational { numerator: eccentricity, denominator: 1_000_000 },
            inclination: Rational { numerator: inclination, denominator: 1_000 },
            ascending_node_longitude: Rational { numerator: node, denominator: 1_000 },
            perihelion_argument: Rational { numerator: perihelion, denominator: 1_000 },
            mean_anomaly_at_epoch: Rational { numerator: anomaly, denominator: 1_000 },
            mean_motion: Rational { numerator: motion, denominator: 10_000 },
        }
    }
}

/// The catalogue of orbital elements.
pub open spec fn spec_orbital_elements(planet: Planet) -> OrbitalElements {
    match planet {
        Planet::Mercury => OrbitalElements::from_catalogue(
            387098, 205635, 7004, 48331, 29124, 174796, 40923,
        ),
        Planet::Venus => OrbitalElements::from_catalogue(
            723332, 6773, 3394, 76678, 54884, 50115, 16021,
        ),
        Planet::Earth => OrbitalElements::from_catalogue(
            1000001, 16709, 0, 0, 102937, 100464, 9856,
        ),
        Planet::Mars => OrbitalElements::from_catalogue(
            1523679, 93941, 1849, 49558, 286502, 19373, 5240,
        ),
        Planet::Jupiter => OrbitalElements::from_catalogue(
            5204267, 48775, 1303, 100464, 273867, 20020, 831,
        ),
        Planet::Saturn => OrbitalElements::from_catalogue(
            9582017, 55723, 2484, 113665, 339392, 317020, 334,
        ),
        Planet::Uranus => OrbitalElements::from_catalogue(
            19229411, 47318, 772, 74006, 96998, 142238, 116,
        ),
        Planet::Neptune => OrbitalElements::from_catalogue(
            30103658, 8678, 1767, 131784, 272856, 256228, 60,
        ),
    }
}

/// The orbital elements of `planet` at the epoch.
#[verifier::when_used_as_spec(spec_orbital_elements)]
pub fn orbital_elements(planet: Planet) -> (elements: OrbitalElements)
    ensures
        elements == spec_orbital_elements(planet),
        elements.wf(),
{
    match planet {
        Planet::Mercury => OrbitalElements::from_catalogue(
            387098, 205635, 7004, 48331, 29124, 174796, 40923,
        ),
        Planet::Venus => OrbitalElements::from_catalogue(
            723332, 6773, 3394, 76678, 54884, 50115, 16021,
        ),
        Planet::Earth => OrbitalElements::from_catalogue(
            1000001, 16709, 0, 0, 102937, 100464, 9856,
        ),
        Planet::Mars => OrbitalElements::from_catalogue(
            1523679, 93941, 1849, 49558, 286502, 19373, 5240,
        ),
        Planet::Jupiter => OrbitalElements::from_catalogue(
            5204267, 48775, 1303, 100464, 273867, 20020, 831,
        ),
        Planet::Saturn => OrbitalElements::from_catalogue(
            9582017, 55723, 2484, 113665, 339392, 317020, 334,
        ),
        Planet::Uranus => OrbitalElements::from_catalogue(
            19229411, 47318, 772, 74006, 96998, 142238, 116,
        ),
        Planet::Neptune => OrbitalElements::from_catalogue(
            30103658, 8678, 1767, 131784, 272856, 256228, 60,
        ),
    }
}

/// Every row of the catalogue describes a closed, prograde orbit.
pub proof fn lemma_catalogue_orbits_are_closed(planet: Planet)
    ensures
        spec_orbital_elements(planet).wf(),
{
}

} // verus!
