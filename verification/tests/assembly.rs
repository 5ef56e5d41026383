use solar_system::planet::Planet;
use solar_system::properties::{orbit_speed, physical_properties};
use solar_system::rational::Rational;
use solar_system::state::{planet_positions, PlanetData};
use solar_system::vector::{Vec3, DISPLAY_SCALE};

fn sample_positions() -> [Vec3<f64>; 8] {
    [
        Vec3::new(0.5, -0.25, 1.0),
        Vec3::new(1.5, 0.125, -2.0),
        Vec3::new(-2.0, 0.0, 0.75),
        Vec3::new(3.0, -0.0625, 3.5),
        Vec3::new(-10.0, 0.5, 4.0),
        Vec3::new(18.0, -1.0, -6.0),
        Vec3::new(-38.0, 2.0, 9.0),
        Vec3::new(60.0, -3.0, -12.0),
    ]
}

#[test]
fn new_keeps_the_components_in_order() {
    let v = Vec3::new(1.0, 2.0, 3.0);
    assert_eq!(v.x(), 1.0);
    assert_eq!(v.y(), 2.0);
    assert_eq!(v.z(), 3.0);
    assert_eq!(v, Vec3 { x: 1.0, y: 2.0, z: 3.0 });
}

#[test]
fn components_may_be_of_any_scalar_type() {
    let v = Vec3::new(-7i64, 8, 9);
    assert_eq!((v.x(), v.y(), v.z()), (-7, 8, 9));
}

#[test]
fn from_ecliptic_puts_the_pole_on_the_second_axis() {
    let v = Vec3::from_ecliptic(1.0, 2.0, 3.0);
    assert_eq!(v, Vec3 { x: 1.0, y: 3.0, z: 2.0 });
    assert_eq!(v.x(), 1.0);
    assert_eq!(v.y(), 3.0);
    assert_eq!(v.z(), 2.0);
}

#[test]
fn display_scale_is_two() {
    assert_eq!(DISPLAY_SCALE, 2);
    assert_eq!(DISPLAY_SCALE as f64, 2.0);
}

#[test]
fn there_is_one_record_per_planet_in_fixed_order() {
    let planets = planet_positions(&sample_positions());
    assert_eq!(planets.len(), 8);
    let names: Vec<String> = planets.iter().map(|planet| planet.name()).collect();
    assert_eq!(
        names,
        vec!["Mercury", "Venus", "Earth", "Mars", "Jupiter", "Saturn", "Uranus", "Neptune"]
    );
}

#[test]
fn each_record_stands_at_its_own_position() {
    let positions = sample_positions();
    let planets = planet_positions(&positions);
    for (planet, position) in planets.iter().zip(positions.iter()) {
        assert_eq!(planet.position(), *position);
    }
    assert_eq!(planets[3].position(), Vec3 { x: 3.0, y: -0.0625, z: 3.5 });
}

#[test]
fn each_record_repeats_its_row_of_the_catalogue() {
    let planets = planet_positions(&sample_positions());
    for (record, planet) in planets.iter().zip(Planet::all().iter()) {
        let row = physical_properties(*planet);
        assert_eq!(record.name(), planet.name());
        assert_eq!(record.radius(), row.radius);
        assert_eq!(record.color(), row.color);
        assert_eq!(record.orbit_radius(), row.orbit_radius);
        assert_eq!(record.orbit_speed(), orbit_speed(row.year_length).unwrap());
        assert_eq!(record.axial_tilt(), row.axial_tilt);
        assert_eq!(record.day_length(), row.day_length);
        assert_eq!(record.year_length(), row.year_length);
        assert_eq!(record.temperature(), row.temperature);
        assert_eq!(record.moons(), row.moons);
        assert_eq!(record.mass(), row.mass);
        assert_eq!(record.density(), row.density);
    }
}

#[test]
fn the_record_of_saturn_is_exact() {
    let planets = planet_positions(&sample_positions());
    let saturn = &planets[5];
    assert_eq!(saturn.name(), "Saturn");
    assert_eq!(saturn.position(), Vec3 { x: 18.0, y: -1.0, z: -6.0 });
    assert_eq!(saturn.radius(), Rational { numerator: 9450, denominator: 1_000 });
    assert_eq!(saturn.color(), "#fad5a5");
    assert_eq!(saturn.orbit_radius(), Rational { numerator: 9582, denominator: 1_000 });
    assert_eq!(saturn.orbit_speed(), Rational { numerator: 3_652_500, denominator: 107_470_000 });
    assert_eq!(saturn.axial_tilt(), Rational { numerator: 26700, denominator: 1_000 });
    assert_eq!(saturn.day_length(), Rational { numerator: 107, denominator: 10 });
    assert_eq!(saturn.year_length(), Rational { numerator: 1_074_700, denominator: 100 });
    assert_eq!(saturn.temperature(), Rational { numerator: 134, denominator: 1 });
    assert_eq!(saturn.moons(), 82);
    assert_eq!(saturn.mass(), Rational { numerator: 95200, denominator: 1_000 });
    assert_eq!(saturn.density(), Rational { numerator: 687, denominator: 1_000 });
}

#[test]
fn getters_return_the_fields() {
    let mars = PlanetData::new(Planet::Mars, Vec3::new(1u8, 2, 3));
    assert_eq!(mars.name(), mars.name);
    assert_eq!(mars.position(), mars.position);
    assert_eq!(mars.radius(), mars.radius);
    assert_eq!(mars.color(), mars.color);
    assert_eq!(mars.orbit_radius(), mars.orbit_radius);
    assert_eq!(mars.orbit_speed(), mars.orbit_speed);
    assert_eq!(mars.axial_tilt(), mars.axial_tilt);
    assert_eq!(mars.day_length(), mars.day_length);
    assert_eq!(mars.year_length(), mars.year_length);
    assert_eq!(mars.temperature(), mars.temperature);
    assert_eq!(mars.moons(), mars.moons);
    assert_eq!(mars.mass(), mars.mass);
    assert_eq!(mars.density(), mars.density);
    assert_eq!(mars.name, "Mars");
    assert_eq!(mars.moons, 2);
}

#[test]
fn orbit_speeds_are_relative_to_the_earth() {
    let planets = planet_positions(&sample_positions());
    let earth = planets[2].orbit_speed();
    assert_eq!(earth.numerator as u64, earth.denominator);
    assert_eq!(earth.numerator as f64 / earth.denominator as f64, 1.0);
    let mercury = planets[0].orbit_speed();
    assert_eq!(mercury, Rational { numerator: 3_652_500, denominator: 879_700 });
    assert!((mercury.numerator as f64 / mercury.denominator as f64 - 4.153).abs() < 2e-3);
    for pair in planets.windows(2) {
        let inner = pair[0].orbit_speed();
        let outer = pair[1].orbit_speed();
        assert!(
            (inner.numerator as i128) * (outer.denominator as i128)
                > (outer.numerator as i128) * (inner.denominator as i128)
        );
    }
}

#[test]
fn the_same_positions_give_the_same_records() {
    let positions = sample_positions();
    let first = planet_positions(&positions);
    let second = planet_positions(&positions);
    assert_eq!(first, second);
}

#[test]
fn records_own_their_text() {
    let positions = sample_positions();
    let mut first = planet_positions(&positions);
    first[0].name.push_str(" (changed)");
    first[0].color.clear();
    let second = planet_positions(&positions);
    assert_eq!(second[0].name(), "Mercury");
    assert_eq!(second[0].color(), "#8c7853");
    assert_eq!(Planet::Mercury.name(), "Mercury");
}

#[test]
fn positions_that_are_not_numbers_pass_through() {
    let mut positions = sample_positions();
    positions[4] = Vec3::new(f64::NAN, f64::INFINITY, f64::NEG_INFINITY);
    let planets = planet_positions(&positions);
    assert_eq!(planets.len(), 8);
    assert!(planets[4].position().x().is_nan());
    assert_eq!(planets[4].position().y(), f64::INFINITY);
    assert_eq!(planets[4].position().z(), f64::NEG_INFINITY);
    assert_eq!(planets[4].name(), "Jupiter");
    assert_eq!(planets[5].position(), Vec3 { x: 18.0, y: -1.0, z: -6.0 });
}
