//! Heliocentric positions of the eight major planets: the exact part.
//!
//! The crate holds everything about the planetary model that can be said
//! without rounding: the identity and order of the planets, their orbital
//! elements and physical properties as exact fractions, the policy that
//! bounds the refinement of Kepler's equation, the axis convention of the
//! display frame, and the assembly of one record per planet. Trigonometry
//! is left to the caller, who hands the computed coordinates back in a
//! scalar type of its own choosing.

pub mod elements;
pub mod kepler;
pub mod planet;
pub mod properties;
pub mod rational;
pub mod state;
pub mod vector;

pub use crate::elements::{orbital_elements, OrbitalElements, EPOCH_JULIAN_DAY};
pub use crate::kepler::{tolerance, Outcome, Refinement, Verdict, MAX_CORRECTIONS};
pub use crate::planet::{Planet, PLANET_COUNT};
pub use crate::properties::{orbit_speed, physical_properties, PhysicalProperties};
pub use crate::rational::Rational;
pub use crate::state::{planet_positions, PlanetData};
pub use crate::vector::{Vec3, DISPLAY_SCALE};
