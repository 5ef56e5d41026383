//! The eight planets and their fixed order.

use vstd::prelude::*;

verus! {

/// Number of planets in the model.
pub const PLANET_COUNT: usize = 8;

/// A major planet. The variants are listed by distance from the Sun, which
/// is also the order of every table and of every output sequence.
#[derive(Clone, Copy, Debug, PartialEq, Eq, Structural)]
pub enum Planet {
    Mercury,
    Venus,
    Earth,
    Mars,
    Jupiter,
    Saturn,
    Uranus,
    Neptune,
}

impl Planet {
    /// Position of the planet in the fixed order, counted from zero.
    pub open spec fn spec_index(self) -> int {
        match self {
            Planet::Mercury => 0,
            Planet::Venus => 1,
            Planet::Earth => 2,
            Planet::Mars => 3,
            Planet::Jupiter => 4,
            Planet::Saturn => 5,
            Planet::Uranus => 6,
            Planet::Neptune => 7,
        }
    }

    /// The planet at position `i` of the fixed order. Outside `0..8` the
    /// value carries no meaning.
    pub open spec fn spec_at(i: int) -> Planet {
        if i == 0 {
            Planet::Mercury
        } else if i == 1 {
            Planet::Venus
        } else if i == 2 {
            Planet::Earth
        } else if i == 3 {
            Planet::Mars
        } else if i == 4 {
            Planet::Jupiter
        } else if i == 5 {
            Planet::Saturn
        } else if i == 6 {
            Planet::Uranus
        } else {
            Planet::Neptune
        }
    }

    /// The planet's English name.
    pub open spec fn spec_name(self) -> Seq<char> {
        match self {
            Planet::Mercury => "Mercury"@,
            Planet::Venus => "Venus"@,
            Planet::Earth => "Earth"@,
            Planet::Mars => "Mars"@,
            Planet::Jupiter => "Jupiter"@,
            Planet::Saturn => "Saturn"@,
            Planet::Uranus => "Uranus"@,
            Planet::Neptune => "Neptune"@,
        }
    }

    /// Position of the planet in the fixed order, counted from zero.
    pub fn index(self) -> (i: usize)
        ensures
            i == self.spec_index(),
            i < PLANET_COUNT,
    {
        match self {
            Planet::Mercury => 0,
            Planet::Venus => 1,
            Planet::Earth => 2,
            Planet::Mars => 3,
            Planet::Jupiter => 4,
            Planet::Saturn => 5,
            Planet::Uranus => 6,
            Planet::Neptune => 7,
        }
    }

    /// The planet at position `i` of the fixed order, if there is one.
    pub fn from_index(i: usize) -> (planet: Option<Planet>)
        ensures
            i < PLANET_COUNT ==> planet == Some(Planet::spec_at(i as int)),
            i >= PLANET_COUNT ==> planet is None,
    {
        if i == 0 {
            Some(Planet::Mercury)
        } else if i == 1 {
            Some(Planet::Venus)
        } else if i == 2 {
            Some(Planet::Earth)
        } else if i == 3 {
            Some(Planet::Mars)
        } else if i == 4 {
            Some(Planet::Jupiter)
        } else if i == 5 {
            Some(Planet::Saturn)
        } else if i == 6 {
            Some(Planet::Uranus)
        } else if i == 7 {
            Some(Planet::Neptune)
        } else {
            None
        }
    }

    /// All planets, in the fixed order.
    pub fn all() -> (order: [Planet; 8])
        ensures
            forall|i: int| 0 <= i < PLANET_COUNT ==> order@[i] == Planet::spec_at(i),
    {
        [
            Planet::Mercury,
            Planet::Venus,
            Planet::Earth,
            Planet::Mars,
            Planet::Jupiter,
            Planet::Saturn,
            Planet::Uranus,
            Planet::Neptune,
        ]
    }

    /// The planet's English name.
    pub fn name(self) -> (name: &'static str)
        ensures
            name@ == self.spec_name(),
    {
        match self {
            Planet::Mercury => "Mercury",
            Planet::Venus => "Venus",
            Planet::Earth => "Earth",
            Planet::Mars => "Mars",
            Planet::Jupiter => "Jupiter",
            Planet::Saturn => "Saturn",
            Planet::Uranus => "Uranus",
            Planet::Neptune => "Neptune",
        }
    }
}

/// The fixed order numbers the planets one to one: every planet sits at its
/// own index, and every index below the count is the index of its planet.
pub proof fn lemma_order_is_a_bijection(planet: Planet, i: int)
    ensures
        0 <= planet.spec_index() < PLANET_COUNT,
        Planet::spec_at(planet.spec_index()) == planet,
        0 <= i < PLANET_COUNT ==> Planet::spec_at(i).spec_index() == i,
{
}

/// No two planets share a name: a name in a record tells which planet the
/// record is about.
pub proof fn lemma_names_are_distinct(a: Planet, b: Planet)
    requires
        a != b,
    ensures
        a.spec_name() != b.spec_name(),
{
    reveal_strlit("Mercury");
    reveal_strlit("Venus");
    reveal_strlit("Earth");
    reveal_strlit("Mars");
    reveal_strlit("Jupiter");
    reveal_strlit("Saturn");
    reveal_strlit("Uranus");
    reveal_strlit("Neptune");
    if a.spec_name().len() == b.spec_name().len() {
        assert(a.spec_name()[0] != b.spec_name()[0]);
    }
}

} // verus!
