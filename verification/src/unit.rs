//! The units, and the measurement system each belongs to.

use vstd::prelude::*;

verus! {

/// One of the three measurement systems.
#[derive(Copy, Clone, Debug, PartialEq, Eq, Structural, Hash)]
pub enum UnitSystem {
    Astronomic,
    Imperial,
    Metric,
}

/// The astronomic units, in the order of their ladder.
#[derive(Copy, Clone, Debug, PartialEq, Eq, Structural, Hash)]
pub enum AstronomicUnit {
    AstronomicalUnit,
    Lightsecond,
    Lightminute,
    Lighthour,
    Lightday,
    Lightyear,
    Parsec,
    Kiloparsec,
    Megaparsec,
}

/// The imperial units, in the order of their ladder.
#[derive(Copy, Clone, Debug, PartialEq, Eq, Structural, Hash)]
pub enum ImperialUnit {
    Inch,
    Foot,
    Yard,
    Mile,
}

/// The metric units, in the order of their ladder.
#[derive(Copy, Clone, Debug, PartialEq, Eq, Structural, Hash)]
pub enum MetricUnit {
    Yoctometer,
    Zeptometer,
    Attometer,
    Femtometer,
    Picometer,
    Nanometer,
    Micrometer,
    Millimeter,
    Centimeter,
    Decimeter,
    Meter,
    Decameter,
    Hectometer,
    Kilometer,
    Megameter,
    Gigameter,
    Terameter,
    Petameter,
    Exameter,
    Zettameter,
    Yottameter,
}

/// A unit of length of any of the three systems.
#[derive(Copy, Clone, Debug, PartialEq, Eq, Structural, Hash)]
pub enum Unit {
    Astronomic(AstronomicUnit),
    Imperial(ImperialUnit),
    Metric(MetricUnit),
}

impl Unit {
    /// The system of a unit, for use in contracts.
    pub open spec fn spec_system(&self) -> UnitSystem {
        match *self {
            Unit::Astronomic(_) => UnitSystem::Astronomic,
            Unit::Imperial(_) => UnitSystem::Imperial,
            Unit::Metric(_) => UnitSystem::Metric,
        }
    }

    /// Whether the unit is an astronomic one.
    pub fn is_astronomic(&self) -> (r: bool)
        ensures
            r == (*self is Astronomic),
    {
        match self {
            Unit::Astronomic(_) => true,
            _ => false,
        }
    }

    /// Whether the unit is an imperial one.
    pub fn is_imperial(&self) -> (r: bool)
        ensures
            r == (*self is Imperial),
    {
        match self {
            Unit::Imperial(_) => true,
            _ => false,
        }
    }

    /// Whether the unit is a metric one.
    pub fn is_metric(&self) -> (r: bool)
        ensures
            r == (*self is Metric),
    {
        match self {
            Unit::Metric(_) => true,
            _ => false,
        }
    }

    /// The measurement system that the unit belongs to.
    #[verifier::when_used_as_spec(spec_system)]
    pub fn system(&self) -> (r: UnitSystem)
        ensures
            r == self.spec_system(),
    {
        match self {
            Unit::Astronomic(_) => UnitSystem::Astronomic,
            Unit::Imperial(_) => UnitSystem::Imperial,
            Unit::Metric(_) => UnitSystem::Metric,
        }
    }
}

/// An astronomic unit as a unit of any system.
impl From<AstronomicUnit> for Unit {
    fn from(item: AstronomicUnit) -> (unit: Unit) {
        Unit::Astronomic(item)
    }
}

impl vstd::std_specs::convert::FromSpecImpl<AstronomicUnit> for Unit {
    open spec fn obeys_from_spec() -> bool {
        true
    }

    open spec fn from_spec(item: AstronomicUnit) -> Unit {
        Unit::Astronomic(item)
    }
}

/// An imperial unit as a unit of any system.
impl From<ImperialUnit> for Unit {
    fn from(item: ImperialUnit) -> (unit: Unit) {
        Unit::Imperial(item)
    }
}

impl vstd::std_specs::convert::FromSpecImpl<ImperialUnit> for Unit {
    open spec fn obeys_from_spec() -> bool {
        true
    }

    open spec fn from_spec(item: ImperialUnit) -> Unit {
        Unit::Imperial(item)
    }
}

/// A metric unit as a unit of any system.
impl From<MetricUnit> for Unit {
    fn from(item: MetricUnit) -> (unit: Unit) {
        Unit::Metric(item)
    }
}

impl vstd::std_specs::convert::FromSpecImpl<MetricUnit> for Unit {
    open spec fn obeys_from_spec() -> bool {
        true
    }

    open spec fn from_spec(item: MetricUnit) -> Unit {
        Unit::Metric(item)
    }
}

} // verus!
