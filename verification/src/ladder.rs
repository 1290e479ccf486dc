//! The ladder of each system: its units in a fixed order, and the
//! neighbours of a unit on it.
//!
//! The order is that of the tables below. In the metric and the imperial
//! system it is the order of size. The astronomic ladder starts with the
//! astronomical unit, although a lightsecond is shorter.

use vstd::prelude::*;

use crate::unit::{AstronomicUnit, ImperialUnit, MetricUnit, Unit, UnitSystem};

verus! {

/// The units of a system from the first rung of its ladder to the last.
pub open spec fn ladder(system: UnitSystem) -> Seq<Unit> {
    match system {
        UnitSystem::Astronomic => seq![
            Unit::Astronomic(AstronomicUnit::AstronomicalUnit),
            Unit::Astronomic(AstronomicUnit::Lightsecond),
            Unit::Astronomic(AstronomicUnit::Lightminute),
            Unit::Astronomic(AstronomicUnit::Lighthour),
            Unit::Astronomic(AstronomicUnit::Lightday),
            Unit::Astronomic(AstronomicUnit::Lightyear),
            Unit::Astronomic(AstronomicUnit::Parsec),
            Unit::Astronomic(AstronomicUnit::Kiloparsec),
            Unit::Astronomic(AstronomicUnit::Megaparsec),
        ],
        UnitSystem::Imperial => seq![
            Unit::Imperial(ImperialUnit::Inch),
            Unit::Imperial(ImperialUnit::Foot),
            Unit::Imperial(ImperialUnit::Yard),
            Unit::Imperial(ImperialUnit::Mile),
        ],
        UnitSystem::Metric => seq![
            Unit::Metric(MetricUnit::Yoctometer),
            Unit::Metric(MetricUnit::Zeptometer),
            Unit::Metric(MetricUnit::Attometer),
            Unit::Metric(MetricUnit::Femtometer),
            Unit::Metric(MetricUnit::Picometer),
            Unit::Metric(MetricUnit::Nanometer),
            Unit::Metric(MetricUnit::Micrometer),
            Unit::Metric(MetricUnit::Millimeter),
            Unit::Metric(MetricUnit::Centimeter),
            Unit::Metric(MetricUnit::Decimeter),
            Unit::Metric(MetricUnit::Meter),
            Unit::Metric(MetricUnit::Decameter),
            Unit::Metric(MetricUnit::Hectometer),
            Unit::Metric(MetricUnit::Kilometer),
            Unit::Metric(MetricUnit::Megameter),
            Unit::Metric(MetricUnit::Gigameter),
            Unit::Metric(MetricUnit::Terameter),
            Unit::Metric(MetricUnit::Petameter),
            Unit::Metric(MetricUnit::Exameter),
            Unit::Metric(MetricUnit::Zettameter),
            Unit::Metric(MetricUnit::Yottameter),
        ],
    }
}

impl Unit {
    /// The place of the unit on the ladder of its system, counted from 0.
    pub open spec fn rung(&self) -> int {
        let units = ladder(self.spec_system());
        choose|i: int| 0 <= i < units.len() && units[i] == *self
    }

    /// The unit one rung down, for use in contracts.
    pub open spec fn spec_smaller_unit(&self) -> Option<Unit> {
        if self.rung() == 0 {
            None
        } else {
            Some(ladder(self.spec_system())[self.rung() - 1])
        }
    }

    /// The unit one rung up, for use in contracts.
    pub open spec fn spec_greater_unit(&self) -> Option<Unit> {
        if self.rung() + 1 == ladder(self.spec_system()).len() {
            None
        } else {
            Some(ladder(self.spec_system())[self.rung() + 1])
        }
    }

    /// The neighbour one rung down on the ladder of the unit's own system,
    /// or nothing at the first rung.
    #[verifier::when_used_as_spec(spec_smaller_unit)]
    pub fn smaller_unit(&self) -> (r: Option<Unit>)
        ensures
            r == self.spec_smaller_unit(),
    {
        match self {
            Unit::Astronomic(unit) => unit.smaller_unit(),
            Unit::Imperial(unit) => unit.smaller_unit(),
            Unit::Metric(unit) => unit.smaller_unit(),
        }
    }

    /// The neighbour one rung up on the ladder of the unit's own system, or
    /// nothing at the last rung.
    #[verifier::when_used_as_spec(spec_greater_unit)]
    pub fn greater_unit(&self) -> (r: Option<Unit>)
        ensures
            r == self.spec_greater_unit(),
    {
        match self {
            Unit::Astronomic(unit) => unit.greater_unit(),
            Unit::Imperial(unit) => unit.greater_unit(),
            Unit::Metric(unit) => unit.greater_unit(),
        }
    }
}

impl AstronomicUnit {
    /// The neighbour one rung down, or nothing at the first rung.
    pub fn smaller_unit(&self) -> (r: Option<Unit>)
        ensures
            r == Unit::Astronomic(*self).spec_smaller_unit(),
    {
        proof {
            every_unit_stands_on_its_ladder(Unit::Astronomic(*self));
        }
        match self {
            AstronomicUnit::AstronomicalUnit => None,
            AstronomicUnit::Lightsecond => Some(Unit::Astronomic(AstronomicUnit::AstronomicalUnit)),
            AstronomicUnit::Lightminute => Some(Unit::Astronomic(AstronomicUnit::Lightsecond)),
            AstronomicUnit::Lighthour => Some(Unit::Astronomic(AstronomicUnit::Lightminute)),
            AstronomicUnit::Lightday => Some(Unit::Astronomic(AstronomicUnit::Lighthour)),
            AstronomicUnit::Lightyear => Some(Unit::Astronomic(AstronomicUnit::Lightday)),
            AstronomicUnit::Parsec => Some(Unit::Astronomic(AstronomicUnit::Lightyear)),
            AstronomicUnit::Kiloparsec => Some(Unit::Astronomic(AstronomicUnit::Parsec)),
            AstronomicUnit::Megaparsec => Some(Unit::Astronomic(AstronomicUnit::Kiloparsec)),
        }
    }

    /// The neighbour one rung up, or nothing at the last rung.
    pub fn greater_unit(&self) -> (r: Option<Unit>)
        ensures
            r == Unit::Astronomic(*self).spec_greater_unit(),
    {
        proof {
            every_unit_stands_on_its_ladder(Unit::Astronomic(*self));
        }
        match self {
            AstronomicUnit::AstronomicalUnit => Some(Unit::Astronomic(AstronomicUnit::Lightsecond)),
            AstronomicUnit::Lightsecond => Some(Unit::Astronomic(AstronomicUnit::Lightminute)),
            AstronomicUnit::Lightminute => Some(Unit::Astronomic(AstronomicUnit::Lighthour)),
            AstronomicUnit::Lighthour => Some(Unit::Astronomic(AstronomicUnit::Lightday)),
            AstronomicUnit::Lightday => Some(Unit::Astronomic(AstronomicUnit::Lightyear)),
            AstronomicUnit::Lightyear => Some(Unit::Astronomic(AstronomicUnit::Parsec)),
            AstronomicUnit::Parsec => Some(Unit::Astronomic(AstronomicUnit::Kiloparsec)),
            AstronomicUnit::Kiloparsec => Some(Unit::Astronomic(AstronomicUnit::Megaparsec)),
            AstronomicUnit::Megaparsec => None,
        }
    }
}

impl ImperialUnit {
    /// The neighbour one rung down, or nothing at the first rung.
    pub fn smaller_unit(&self) -> (r: Option<Unit>)
        ensures
            r == Unit::Imperial(*self).spec_smaller_unit(),
    {
        proof {
            every_unit_stands_on_its_ladder(Unit::Imperial(*self));
        }
        match self {
            ImperialUnit::Inch => None,
            ImperialUnit::Foot => Some(Unit::Imperial(ImperialUnit::Inch)),
            ImperialUnit::Yard => Some(Unit::Imperial(ImperialUnit::Foot)),
            ImperialUnit::Mile => Some(Unit::Imperial(ImperialUnit::Yard)),
        }
    }

    /// The neighbour one rung up, or nothing at the last rung.
    pub fn greater_unit(&self) -> (r: Option<Unit>)
        ensures
            r == Unit::Imperial(*self).spec_greater_unit(),
    {
        proof {
            every_unit_stands_on_its_ladder(Unit::Imperial(*self));
        }
        match self {
            ImperialUnit::Inch => Some(Unit::Imperial(ImperialUnit::Foot)),
            ImperialUnit::Foot => Some(Unit::Imperial(ImperialUnit::Yard)),
            ImperialUnit::Yard => Some(Unit::Imperial(ImperialUnit::Mile)),
            ImperialUnit::Mile => None,
        }
    }
}

impl MetricUnit {
    /// The neighbour one rung down, or nothing at the first rung.
    pub fn smaller_unit(&self) -> (r: Option<Unit>)
        ensures
            r == Unit::Metric(*self).spec_smaller_unit(),
    {
        proof {
            every_unit_stands_on_its_ladder(Unit::Metric(*self));
        }
        match self {
            MetricUnit::Yoctometer => None,
            MetricUnit::Zeptometer => Some(Unit::Metric(MetricUnit::Yoctometer)),
            MetricUnit::Attometer => Some(Unit::Metric(MetricUnit::Zeptometer)),
            MetricUnit::Femtometer => Some(Unit::Metric(MetricUnit::Attometer)),
            MetricUnit::Picometer => Some(Unit::Metric(MetricUnit::Femtometer)),
            MetricUnit::Nanometer => Some(Unit::Metric(MetricUnit::Picometer)),
            MetricUnit::Micrometer => Some(Unit::Metric(MetricUnit::Nanometer)),
            MetricUnit::Millimeter => Some(Unit::Metric(MetricUnit::Micrometer)),
            MetricUnit::Centimeter => Some(Unit::Metric(MetricUnit::Millimeter)),
            MetricUnit::Decimeter => Some(Unit::Metric(MetricUnit::Centimeter)),
            MetricUnit::Meter => Some(Unit::Metric(MetricUnit::Decimeter)),
            MetricUnit::Decameter => Some(Unit::Metric(MetricUnit::Meter)),
            MetricUnit::Hectometer => Some(Unit::Metric(MetricUnit::Decameter)),
            MetricUnit::Kilometer => Some(Unit::Metric(MetricUnit::Hectometer)),
            MetricUnit::Megameter => Some(Unit::Metric(MetricUnit::Kilometer)),
            MetricUnit::Gigameter => Some(Unit::Metric(MetricUnit::Megameter)),
            MetricUnit::Terameter => Some(Unit::Metric(MetricUnit::Gigameter)),
            MetricUnit::Petameter => Some(Unit::Metric(MetricUnit::Terameter)),
            MetricUnit::Exameter => Some(Unit::Metric(MetricUnit::Petameter)),
            MetricUnit::Zettameter => Some(Unit::Metric(MetricUnit::Exameter)),
            MetricUnit::Yottameter => Some(Unit::Metric(MetricUnit::Zettameter)),
        }
    }

    /// The neighbour one rung up, or nothing at the last rung.
    pub fn greater_unit(&self) -> (r: Option<Unit>)
        ensures
            r == Unit::Metric(*self).spec_greater_unit(),
    {
        proof {
            every_unit_stands_on_its_ladder(Unit::Metric(*self));
        }
        match self {
            MetricUnit::Yoctometer => Some(Unit::Metric(MetricUnit::Zeptometer)),
            MetricUnit::Zeptometer => Some(Unit::Metric(MetricUnit::Attometer)),
            MetricUnit::Attometer => Some(Unit::Metric(MetricUnit::Femtometer)),
            MetricUnit::Femtometer => Some(Unit::Metric(MetricUnit::Picometer)),
            MetricUnit::Picometer => Some(Unit::Metric(MetricUnit::Nanometer)),
            MetricUnit::Nanometer => Some(Unit::Metric(MetricUnit::Micrometer)),
            MetricUnit::Micrometer => Some(Unit::Metric(MetricUnit::Millimeter)),
            MetricUnit::Millimeter => Some(Unit::Metric(MetricUnit::Centimeter)),
            MetricUnit::Centimeter => Some(Unit::Metric(MetricUnit::Decimeter)),
            MetricUnit::Decimeter => Some(Unit::Metric(MetricUnit::Meter)),
            MetricUnit::Meter => Some(Unit::Metric(MetricUnit::Decameter)),
            MetricUnit::Decameter => Some(Unit::Metric(MetricUnit::Hectometer)),
            MetricUnit::Hectometer => Some(Unit::Metric(MetricUnit::Kilometer)),
            MetricUnit::Kilometer => Some(Unit::Metric(MetricUnit::Megameter)),
            MetricUnit::Megameter => Some(Unit::Metric(MetricUnit::Gigameter)),
            MetricUnit::Gigameter => Some(Unit::Metric(MetricUnit::Terameter)),
            MetricUnit::Terameter => Some(Unit::Metric(MetricUnit::Petameter)),
            MetricUnit::Petameter => Some(Unit::Metric(MetricUnit::Exameter)),
            MetricUnit::Exameter => Some(Unit::Metric(MetricUnit::Zettameter)),
            MetricUnit::Zettameter => Some(Unit::Metric(MetricUnit::Yottameter)),
            MetricUnit::Yottameter => None,
        }
    }
}

/// Every unit stands on the ladder of its system, at its rung and nowhere
/// else; the ladders have 9, 4 and 21 rungs.
pub proof fn every_unit_stands_on_its_ladder(unit: Unit)
    ensures
        0 <= unit.rung() < ladder(unit.spec_system()).len(),
        ladder(unit.spec_system())[unit.rung()] == unit,
        forall|i: int|
            0 <= i < ladder(unit.spec_system()).len() && #[trigger] ladder(unit.spec_system())[i]
                == unit ==> i == unit.rung(),
        ladder(UnitSystem::Astronomic).len() == 9,
        ladder(UnitSystem::Imperial).len() == 4,
        ladder(UnitSystem::Metric).len() == 21,
{
    let units = ladder(unit.spec_system());
    match unit {
        Unit::Astronomic(AstronomicUnit::AstronomicalUnit) => {
            assert(units[0] == unit);
        },
        Unit::Astronomic(AstronomicUnit::Lightsecond) => {
            assert(units[1] == unit);
        },
        Unit::Astronomic(AstronomicUnit::Lightminute) => {
            assert(units[2] == unit);
        },
        Unit::Astronomic(AstronomicUnit::Lighthour) => {
            assert(units[3] == unit);
        },
        Unit::Astronomic(AstronomicUnit::Lightday) => {
            assert(units[4] == unit);
        },
        Unit::Astronomic(AstronomicUnit::Lightyear) => {
            assert(units[5] == unit);
        },
        Unit::Astronomic(AstronomicUnit::Parsec) => {
            assert(units[6] == unit);
        },
        Unit::Astronomic(AstronomicUnit::Kiloparsec) => {
            assert(units[7] == unit);
        },
        Unit::Astronomic(AstronomicUnit::Megaparsec) => {
            assert(units[8] == unit);
        },
        Unit::Imperial(ImperialUnit::Inch) => {
            assert(units[0] == unit);
        },
        Unit::Imperial(ImperialUnit::Foot) => {
            assert(units[1] == unit);
        },
        Unit::Imperial(ImperialUnit::Yard) => {
            assert(units[2] == unit);
        },
        Unit::Imperial(ImperialUnit::Mile) => {
            assert(units[3] == unit);
        },
        Unit::Metric(MetricUnit::Yoctometer) => {
            assert(units[0] == unit);
        },
        Unit::Metric(MetricUnit::Zeptometer) => {
            assert(units[1] == unit);
        },
        Unit::Metric(MetricUnit::Attometer) => {
            assert(units[2] == unit);
        },
        Unit::Metric(MetricUnit::Femtometer) => {
            assert(units[3] == unit);
        },
        Unit::Metric(MetricUnit::Picometer) => {
            assert(units[4] == unit);
        },
        Unit::Metric(MetricUnit::Nanometer) => {
            assert(units[5] == unit);
        },
        Unit::Metric(MetricUnit::Micrometer) => {
            assert(units[6] == unit);
        },
        Unit::Metric(MetricUnit::Millimeter) => {
            assert(units[7] == unit);
        },
        Unit::Metric(MetricUnit::Centimeter) => {
            assert(units[8] == unit);
        },
        Unit::Metric(MetricUnit::Decimeter) => {
            assert(units[9] == unit);
        },
        Unit::Metric(MetricUnit::Meter) => {
            assert(units[10] == unit);
        },
        Unit::Metric(MetricUnit::Decameter) => {
            assert(units[11] == unit);
        },
        Unit::Metric(MetricUnit::Hectometer) => {
            assert(units[12] == unit);
        },
        Unit::Metric(MetricUnit::Kilometer) => {
            assert(units[13] == unit);
        },
        Unit::Metric(MetricUnit::Megameter) => {
            assert(units[14] == unit);
        },
        Unit::Metric(MetricUnit::Gigameter) => {
            assert(units[15] == unit);
        },
        Unit::Metric(MetricUnit::Terameter) => {
            assert(units[16] == unit);
        },
        Unit::Metric(MetricUnit::Petameter) => {
            assert(units[17] == unit);
        },
        Unit::Metric(MetricUnit::Exameter) => {
            assert(units[18] == unit);
        },
        Unit::Metric(MetricUnit::Zettameter) => {
            assert(units[19] == unit);
        },
        Unit::Metric(MetricUnit::Yottameter) => {
            assert(units[20] == unit);
        },
    }
}

/// A ladder holds units of its own system only.
pub proof fn ladder_stays_in_its_system(system: UnitSystem)
    ensures
        forall|i: int|
            0 <= i < ladder(system).len() ==> (#[trigger] ladder(system)[i]).spec_system()
                == system,
{
}

/// A neighbour belongs to the same system and stands one rung away.
pub proof fn neighbours_are_one_rung_apart(unit: Unit)
    ensures
        unit.spec_smaller_unit() matches Some(below) ==> below.spec_system() == unit.spec_system()
            && below.rung() + 1 == unit.rung(),
        unit.spec_greater_unit() matches Some(above) ==> above.spec_system() == unit.spec_system()
            && above.rung() == unit.rung() + 1,
{
    every_unit_stands_on_its_ladder(unit);
    ladder_stays_in_its_system(unit.spec_system());
    if let Some(below) = unit.spec_smaller_unit() {
        every_unit_stands_on_its_ladder(below);
    }
    if let Some(above) = unit.spec_greater_unit() {
        every_unit_stands_on_its_ladder(above);
    }
}

/// Only the first unit of a ladder has no smaller neighbour and only the
/// last has no greater one; no unit lacks both. The six ends are the
/// astronomical unit and the megaparsec, the inch and the mile, the
/// yoctometer and the yottameter.
pub proof fn ladder_ends(unit: Unit)
    ensures
        unit.spec_smaller_unit() is None <==> unit == ladder(unit.spec_system()).first(),
        unit.spec_greater_unit() is None <==> unit == ladder(unit.spec_system()).last(),
        !(unit.spec_smaller_unit() is None && unit.spec_greater_unit() is None),
        unit.spec_smaller_unit() is None <==> unit == Unit::Astronomic(
            AstronomicUnit::AstronomicalUnit,
        ) || unit == Unit::Imperial(ImperialUnit::Inch) || unit == Unit::Metric(
            MetricUnit::Yoctometer,
        ),
        unit.spec_greater_unit() is None <==> unit == Unit::Astronomic(AstronomicUnit::Megaparsec)
            || unit == Unit::Imperial(ImperialUnit::Mile) || unit == Unit::Metric(
            MetricUnit::Yottameter,
        ),
{
    every_unit_stands_on_its_ladder(unit);
}

/// Stepping to the smaller neighbour and then to the greater one, or the
/// other way round, leads back to the unit one started from.
pub proof fn neighbours_lead_back(unit: Unit)
    ensures
        unit.spec_smaller_unit() matches Some(below) ==> below.spec_greater_unit() == Some(unit),
        unit.spec_greater_unit() matches Some(above) ==> above.spec_smaller_unit() == Some(unit),
{
    every_unit_stands_on_its_ladder(unit);
    neighbours_are_one_rung_apart(unit);
}

} // verus!
