//! Physical properties of the planets, and the orbit speed derived from them.

use crate::elements::orbital_elements;
use crate::planet::Planet;
use crate::rational::Rational;
use vstd::prelude::*;

verus! {

/// What is tabulated about the body of a planet. None of it is computed.
#[derive(Clone, Copy, Debug, PartialEq, Eq)]
pub struct PhysicalProperties {
    /// Radius, relative to the Earth's.
    pub radius: Rational,
    /// Display colour, as `#rrggbb`.
    pub color: &'static str,
    /// Radius of the drawn orbit, in display units.
    pub orbit_radius: Rational,
    /// Axial tilt, in degrees.
    pub axial_tilt: Rational,
    /// Length of the day, in hours.
    pub day_length: Rational,
    /// Length of the year, in days.
    pub year_length: Rational,
    /// Mean temperature, in kelvins.
    pub temperature: Rational,
    /// Number of known moons.
    pub moons: u32,
    /// Mass, relative to the Earth's.
    pub mass: Rational,
    /// Density, in grams per cubic centimetre.
    pub density: Rational,
}

impl PhysicalProperties {
    /// Every fraction of the row is exact in double precision, and the year
    /// has a positive length from which the orbit speed can be derived, again
    /// exact in double precision.
    pub open spec fn wf(self) -> bool {
        &&& self.radius.is_double_exact()
        &&& self.orbit_radius.is_double_exact()
        &&& self.axial_tilt.is_double_exact()
        &&& self.day_length.is_double_exact()
        &&& self.year_length.is_double_exact()
        &&& self.temperature.is_double_exact()
        &&& self.mass.is_double_exact()
        &&& self.density.is_double_exact()
        &&& orbit_speed_defined(self.year_length)
        &&& spec_orbit_speed(self.year_length).is_double_exact()
    }

    /// One row of the catalogue, each quantity written as the integer that
    /// its printed digits spell: radius, orbit radius, axial tilt, mass and
    /// density in thousandths, the day in tenths of an hour, the year in
    /// hundredths of a day, the temperature in whole kelvins.
    pub open spec fn spec_from_catalogue(
        radius: i64,
        color: &'static str,
        orbit_radius: i64,
        axial_tilt: i64,
        day_length: i64,
        year_length: i64,
        temperature: i64,
        moons: u32,
        mass: i64,
        density: i64,
    ) -> PhysicalProperties {
        PhysicalProperties {
            radius: Rational { numerator: radius, denominator: 1_000 },
            color,
            orbit_radius: Rational { numerator: orbit_radius, denominator: 1_000 },
            axial_tilt: Rational { numerator: axial_tilt, denominator: 1_000 },
            day_length: Rational { numerator: day_length, denominator: 10 },
            year_length: Rational { numerator: year_length, denominator: 100 },
            temperature: Rational { numerator: temperature, denominator: 1 },
            moons,
            mass: Rational { numerator: mass, denominator: 1_000 },
            density: Rational { numerator: density, denominator: 1_000 },
        }
    }

    /// One row of the catalogue, from the integers that its digits spell.
    #[verifier::when_used_as_spec(spec_from_catalogue)]
    pub fn from_catalogue(
        radius: i64,
        color: &'static str,
        orbit_radius: i64,
        axial_tilt: i64,
        day_length: i64,
        year_length: i64,
        temperature: i64,
        moons: u32,
        mass: i64,
        density: i64,
    ) -> (properties: PhysicalProperties)
        ensures
            properties == Self::spec_from_catalogue(
                radius,
                color,
                orbit_radius,
                axial_tilt,
                day_length,
                year_length,
                temperature,
                moons,
                mass,
                density,
            ),
    {
        PhysicalProperties {
            radius: Rational { numerator: radius, denominator: 1_000 },
            color,
            orbit_radius: Rational { numerator: orbit_radius, denominator: 1_000 },
            axial_tilt: Rational { numerator: axial_tilt, denominator: 1_000 },
            day_length: Rational { numerator: day_length, denominator: 10 },
            year_length: Rational { numerator: year_length, denominator: 100 },
            temperature: Rational { numerator: temperature, denominator: 1 },
            moons,
            mass: Rational { numerator: mass, denominator: 1_000 },
            density: Rational { numerator: density, denominator: 1_000 },
        }
    }
}

/// The catalogue of physical properties.
pub open spec fn spec_physical_properties(planet: Planet) -> PhysicalProperties {
    match planet {
        Planet::Mercury => PhysicalProperties::from_catalogue(
            383, "#8c7853", 387, 34, 14076, 8797, 340, 0, 55, 5427,
        ),
        Planet::Venus => PhysicalProperties::from_catalogue(
            949, "#ffc649", 723, 177400, 58325, 22470, 737, 0, 815, 5243,
        ),
        Planet::Earth => PhysicalProperties::from_catalogue(
            1000, "#6b93d6", 1000, 23400, 240, 36525, 288, 1, 1000, 5514,
        ),
        Planet::Mars => PhysicalProperties::from_catalogue(
            532, "#c1440e", 1524, 25200, 246, 68700, 210, 2, 107, 3933,
        ),
        Planet::Jupiter => PhysicalProperties::from_catalogue(
            11210, "#d8ca9d", 5204, 3100, 99, 433100, 165, 79, 317800, 1326,
        ),
        Planet::Saturn => PhysicalProperties::from_catalogue(
            9450, "#fad5a5", 9582, 26700, 107, 1074700, 134, 82, 95200, 687,
        ),
        Planet::Uranus => PhysicalProperties::from_catalogue(
            4010, "#4fd0e4", 19229, 97800, 172, 3058900, 76, 27, 14500, 1271,
        ),
        Planet::Neptune => PhysicalProperties::from_catalogue(
            3880, "#4b70dd", 30104, 28300, 161, 5980000, 72, 14, 17100, 1638,
        ),
    }
}

/// The physical properties of `planet`.
#[verifier::when_used_as_spec(spec_physical_properties)]
pub fn physical_properties(planet: Planet) -> (properties: PhysicalProperties)
    ensures
        properties == spec_physical_properties(planet),
        properties.wf(),
{
    match planet {
        Planet::Mercury => PhysicalProperties::from_catalogue(
            383, "#8c7853", 387, 34, 14076, 8797, 340, 0, 55, 5427,
        ),
        Planet::Venus => PhysicalProperties::from_catalogue(
            949, "#ffc649", 723, 177400, 58325, 22470, 737, 0, 815, 5243,
        ),
        Planet::Earth => PhysicalProperties::from_catalogue(
            1000, "#6b93d6", 1000, 23400, 240, 36525, 288, 1, 1000, 5514,
        ),
        Planet::Mars => PhysicalProperties::from_catalogue(
            532, "#c1440e", 1524, 25200, 246, 68700, 210, 2, 107, 3933,
        ),
        Planet::Jupiter => PhysicalProperties::from_catalogue(
            11210, "#d8ca9d", 5204, 3100, 99, 433100, 165, 79, 317800, 1326,
        ),
        Planet::Saturn => PhysicalProperties::from_catalogue(
            9450, "#fad5a5", 9582, 26700, 107, 1074700, 134, 82, 95200, 687,
        ),
        Planet::Uranus => PhysicalProperties::from_catalogue(
            4010, "#4fd0e4", 19229, 97800, 172, 3058900, 76, 27, 14500, 1271,
        ),
        Planet::Neptune => PhysicalProperties::from_catalogue(
            3880, "#4b70dd", 30104, 28300, 161, 5980000, 72, 14, 17100, 1638,
        ),
    }
}

/// Every row of the catalogue is well formed.
pub proof fn lemma_catalogue_properties_are_well_formed(planet: Planet)
    ensures
        spec_physical_properties(planet).wf(),
{
}

/// The two catalogues describe the same orbits: over one year of its own a
/// planet's mean anomaly, which grows by the mean motion each day, advances
/// by no more than a revolution and falls short of one by less than six
/// degrees. After a year a planet is back near its place.
pub proof fn lemma_year_spans_one_revolution(planet: Planet)
    ensures
        ({
            let motion = orbital_elements(planet).mean_motion;
            let year = physical_properties(planet).year_length;
            let advance = motion.numerator * year.numerator;
            let unit = motion.denominator * year.denominator;
            354 * unit < advance <= 360 * unit
        }),
{
}

/// Length of the Earth's year in days, 365.25, against which orbit speeds
/// are measured.
pub open spec fn reference_year() -> Rational {
    Rational { numerator: 36525, denominator: 100 }
}

/// The quotient `365.25 / year_length` can be formed and held: the year is
/// longer than nothing and both products fit their fields.
pub open spec fn orbit_speed_defined(year_length: Rational) -> bool {
    &&& year_length.denominator > 0
    &&& year_length.numerator > 0
    &&& 36525 * year_length.denominator <= i64::MAX
    &&& 100 * year_length.numerator <= u64::MAX
}

/// The quotient `365.25 / year_length`, left unreduced: with a year of
/// `n / d` days it is `(36525 * d) / (100 * n)`.
pub open spec fn spec_orbit_speed(year_length: Rational) -> Rational {
    Rational {
        numerator: (36525 * year_length.denominator) as i64,
        denominator: (100 * year_length.numerator) as u64,
    }
}

/// Angular rate of an orbit relative to the Earth's: `365.25 / year_length`,
/// or `None` where that quotient is not defined.
pub fn orbit_speed(year_length: Rational) -> (speed: Option<Rational>)
    ensures
        orbit_speed_defined(year_length) ==> speed == Some(spec_orbit_speed(year_length)),
        !orbit_speed_defined(year_length) ==> speed is None,
{
    if year_length.denominator == 0 || year_length.numerator <= 0 {
        return None;
    }
    if year_length.denominator > 252_522_163_911_150 {
        return None;
    }
    if year_length.numerator > 184_467_440_737_095_516 {
        return None;
    }
    let numerator: i64 = 36525 * (year_length.denominator as i64);
    let denominator: u64 = 100 * (year_length.numerator as u64);
    Some(Rational { numerator, denominator })
}

/// A defined orbit speed is a positive number whose product with the length
/// of the year is the reference year.
pub proof fn lemma_orbit_speed_times_year(year_length: Rational)
    requires
        orbit_speed_defined(year_length),
    ensures
        spec_orbit_speed(year_length).is_positive(),
        spec_orbit_speed(year_length).numerator * year_length.numerator * reference_year().denominator
            == reference_year().numerator * (spec_orbit_speed(year_length).denominator
            * year_length.denominator),
{
    let n = year_length.numerator as int;
    let d = year_length.denominator as int;
    assert((36525 * d) * n * 100 == 36525 * ((100 * n) * d)) by (nonlinear_arith);
}

/// A body whose year is as long as the reference year has orbit speed one.
pub proof fn lemma_orbit_speed_of_reference_year(year_length: Rational)
    requires
        orbit_speed_defined(year_length),
    ensures
        year_length.same_value(reference_year()) <==> spec_orbit_speed(year_length).numerator
            == spec_orbit_speed(year_length).denominator,
{
}

} // verus!
