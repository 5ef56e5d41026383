//! One record per planet: where it is and what it is like.

use crate::planet::{Planet, PLANET_COUNT};
use crate::properties::{
    lemma_orbit_speed_times_year, orbit_speed, physical_properties, reference_year,
    spec_orbit_speed,
};
use crate::rational::Rational;
use crate::vector::Vec3;
use vstd::prelude::*;

verus! {

/// The state of one planet: its name, its position in the display frame,
/// its physical properties, and its orbit speed relative to the Earth's.
/// Each record owns its text and shares nothing with the catalogue.
#[derive(Clone, Debug, PartialEq)]
pub struct PlanetData<S> {
    pub name: String,
    pub position: Vec3<S>,
    pub radius: Rational,
    pub color: String,
    pub orbit_radius: Rational,
    pub orbit_speed: Rational,
    pub axial_tilt: Rational,
    pub day_length: Rational,
    pub year_length: Rational,
    pub temperature: Rational,
    pub moons: u32,
    pub mass: Rational,
    pub density: Rational,
}

/// What a [`PlanetData`] says, with its text as sequences of characters.
pub struct PlanetRecord<S> {
    pub name: Seq<char>,
    pub position: Vec3<S>,
    pub radius: Rational,
    pub color: Seq<char>,
    pub orbit_radius: Rational,
    pub orbit_speed: Rational,
    pub axial_tilt: Rational,
    pub day_length: Rational,
    pub year_length: Rational,
    pub temperature: Rational,
    pub moons: u32,
    pub mass: Rational,
    pub density: Rational,
}

impl<S> PlanetRecord<S> {
    /// Every fraction of the record is exact in double precision, and the
    /// orbit speed is a positive number whose product with the length of
    /// the year is the reference year of 365.25 days.
    pub open spec fn wf(self) -> bool {
        &&& self.radius.is_double_exact()
        &&& self.orbit_radius.is_double_exact()
        &&& self.orbit_speed.is_double_exact()
        &&& self.axial_tilt.is_double_exact()
        &&& self.day_length.is_double_exact()
        &&& self.year_length.is_double_exact()
        &&& self.temperature.is_double_exact()
        &&& self.mass.is_double_exact()
        &&& self.density.is_double_exact()
        &&& self.orbit_speed.is_positive()
        &&& self.orbit_speed.numerator * self.year_length.numerator * reference_year().denominator
            == reference_year().numerator * (self.orbit_speed.denominator
            * self.year_length.denominator)
    }
}

impl<S> View for PlanetData<S> {
    type V = PlanetRecord<S>;

    open spec fn view(&self) -> PlanetRecord<S> {
        PlanetRecord {
            name: self.name@,
            position: self.position,
            radius: self.radius,
            color: self.color@,
            orbit_radius: self.orbit_radius,
            orbit_speed: self.orbit_speed,
            axial_tilt: self.axial_tilt,
            day_length: self.day_length,
            year_length: self.year_length,
            temperature: self.temperature,
            moons: self.moons,
            mass: self.mass,
            density: self.density,
        }
    }
}

/// The record of `planet` when it stands at `position`: the catalogue's row
/// under the planet's name, with the orbit speed `365.25 / year_length`.
pub open spec fn planet_record<S>(planet: Planet, position: Vec3<S>) -> PlanetRecord<S> {
    let properties = physical_properties(planet);
    PlanetRecord {
        name: planet.spec_name(),
        position,
        radius: properties.radius,
        color: properties.color@,
        orbit_radius: properties.orbit_radius,
        orbit_speed: spec_orbit_speed(properties.year_length),
        axial_tilt: properties.axial_tilt,
        day_length: properties.day_length,
        year_length: properties.year_length,
        temperature: properties.temperature,
        moons: properties.moons,
        mass: properties.mass,
        density: properties.density,
    }
}

/// The records of all planets in the fixed order, the planet at index `i`
/// standing at `positions[i]`.
pub open spec fn planet_records<S>(positions: Seq<Vec3<S>>) -> Seq<PlanetRecord<S>> {
    Seq::new(PLANET_COUNT as nat, |i: int| planet_record(Planet::spec_at(i), positions[i]))
}

/// What a sequence of [`PlanetData`] says, record by record.
pub open spec fn records_of<S>(planets: Seq<PlanetData<S>>) -> Seq<PlanetRecord<S>> {
    Seq::new(planets.len(), |i: int| planets[i]@)
}

impl<S: Copy> PlanetData<S> {
    /// The record of `planet` at `position`.
    pub fn new(planet: Planet, position: Vec3<S>) -> (data: PlanetData<S>)
        ensures
            data@ == planet_record(planet, position),
            data@.wf(),
    {
        let properties = physical_properties(planet);
        let speed = orbit_speed(properties.year_length).unwrap();
        proof {
            lemma_orbit_speed_times_year(properties.year_length);
        }
        PlanetData {
            name: planet.name().to_owned(),
            position,
            radius: properties.radius,
            color: properties.color.to_owned(),
            orbit_radius: properties.orbit_radius,
            orbit_speed: speed,
            axial_tilt: properties.axial_tilt,
            day_length: properties.day_length,
            year_length: properties.year_length,
            temperature: properties.temperature,
            moons: properties.moons,
            mass: properties.mass,
            density: properties.density,
        }
    }

    /// The planet's name.
    pub fn name(&self) -> (name: String)
        ensures
            name@ == self@.name,
    {
        self.name.clone()
    }

    /// Position in the display frame.
    pub fn position(&self) -> (position: Vec3<S>)
        ensures
            position == self@.position,
    {
        self.position
    }

    /// Radius, relative to the Earth's.
    pub fn radius(&self) -> (radius: Rational)
        ensures
            radius == self@.radius,
    {
        self.radius
    }

    /// Display colour, as `#rrggbb`.
    pub fn color(&self) -> (color: String)
        ensures
            color@ == self@.color,
    {
        self.color.clone()
    }

    /// Radius of the drawn orbit, in display units.
    pub fn orbit_radius(&self) -> (orbit_radius: Rational)
        ensures
            orbit_radius == self@.orbit_radius,
    {
        self.orbit_radius
    }

    /// Angular rate of the orbit, relative to the Earth's.
    pub fn orbit_speed(&self) -> (orbit_speed: Rational)
        ensures
            orbit_speed == self@.orbit_speed,
    {
        self.orbit_speed
    }

    /// Axial tilt, in degrees.
    pub fn axial_tilt(&self) -> (axial_tilt: Rational)
        ensures
            axial_tilt == self@.axial_tilt,
    {
        self.axial_tilt
    }

    /// Length of the day, in hours.
    pub fn day_length(&self) -> (day_length: Rational)
        ensures
            day_length == self@.day_length,
    {
        self.day_length
    }

    /// Length of the year, in days.
    pub fn year_length(&self) -> (year_length: Rational)
        ensures
            year_length == self@.year_length,
    {
        self.year_length
    }

    /// Mean temperature, in kelvins.
    pub fn temperature(&self) -> (temperature: Rational)
        ensures
            temperature == self@.temperature,
    {
        self.temperature
    }

    /// Number of known moons.
    pub fn moons(&self) -> (moons: u32)
        ensures
            moons == self@.moons,
    {
        self.moons
    }

    /// Mass, relative to the Earth's.
    pub fn mass(&self) -> (mass: Rational)
        ensures
            mass == self@.mass,
    {
        self.mass
    }

    /// Density, in grams per cubic centimetre.
    pub fn density(&self) -> (density: Rational)
        ensures
            density == self@.density,
    {
        self.density
    }
}

/// The state of every planet, in the fixed order, from the position of each:
/// `positions[i]` is where the planet at index `i` stands. The result has one
/// freshly built record per planet, and what it says depends on the
/// positions alone.
pub fn planet_positions<S: Copy>(positions: &[Vec3<S>; 8]) -> (planets: Vec<PlanetData<S>>)
    ensures
        planets@.len() == PLANET_COUNT,
        records_of(planets@) == planet_records(positions@),
{
    let order = Planet::all();
    let mut planets: Vec<PlanetData<S>> = Vec::new();
    let mut i: usize = 0;
    while i < PLANET_COUNT
        invariant
            i <= PLANET_COUNT,
            planets@.len() == i,
            forall|k: int| 0 <= k < PLANET_COUNT ==> order@[k] == Planet::spec_at(k),
            forall|k: int|
                0 <= k < i ==> (#[trigger] planets@[k])@ == planet_record(
                    Planet::spec_at(k),
                    positions@[k],
                ),
        decreases PLANET_COUNT - i,
    {
        planets.push(PlanetData::new(order[i], positions[i]));
        i += 1;
    }
    planets
}

/// The record of any planet at any position is well formed.
pub proof fn lemma_records_are_well_formed<S>(planet: Planet, position: Vec3<S>)
    ensures
        planet_record(planet, position).wf(),
{
    lemma_orbit_speed_times_year(physical_properties(planet).year_length);
}

/// The state of the planets is a function of their positions: two sequences
/// assembled from the same positions say the same, record by record.
pub proof fn lemma_assembly_is_determined<S>(
    positions: Seq<Vec3<S>>,
    first: Seq<PlanetData<S>>,
    second: Seq<PlanetData<S>>,
)
    requires
        records_of(first) == planet_records(positions),
        records_of(second) == planet_records(positions),
    ensures
        first.len() == second.len(),
        forall|i: int| 0 <= i < first.len() ==> (#[trigger] first[i])@ == second[i]@,
{
    assert(records_of(first).len() == first.len());
    assert(records_of(second).len() == second.len());
    assert forall|i: int| 0 <= i < first.len() implies (#[trigger] first[i])@ == second[i]@ by {
        assert(records_of(first)[i] == first[i]@);
        assert(records_of(second)[i] == second[i]@);
    }
}

/// Every assembly has one record per planet, and the record at index `i`
/// bears the name of the planet at index `i` of the fixed order, stands at
/// `positions[i]`, and repeats that planet's row of the catalogue.
pub proof fn lemma_assembly_follows_the_order<S>(
    positions: Seq<Vec3<S>>,
    planets: Seq<PlanetData<S>>,
    i: int,
)
    requires
        records_of(planets) == planet_records(positions),
        0 <= i < PLANET_COUNT,
    ensures
        planets.len() == PLANET_COUNT,
        planets[i]@ == planet_record(Planet::spec_at(i), positions[i]),
        planets[i]@.name == Planet::spec_at(i).spec_name(),
        planets[i]@.position == positions[i],
{
    assert(records_of(planets).len() == planets.len());
    assert(records_of(planets)[i] == planets[i]@);
}

} // verus!
