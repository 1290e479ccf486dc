//! Conversion in exact arithmetic.
//!
//! The factors of the units and the steps of a route are stated here over
//! the real numbers. This is what a conversion computes up to rounding: a
//! caller who carries a double-precision magnitude along a route performs
//! the same multiplications and divisions, each rounded to the nearest
//! double.
//!
//! A parsec is 648000/π astronomical units. The functions take the number
//! that stands for π as an argument, and what is proved of them holds for
//! every positive number in its place.

use vstd::prelude::*;

use crate::conversion::{
    carried, conversion_to_the_same_unit_is_the_identity, leads, route,
    route_leads_from_source_to_destination, route_scales_inside_systems,
    route_within_a_system_is_one_scaling, Step,
};
use crate::ladder::{every_unit_stands_on_its_ladder, ladder};
use crate::unit::{AstronomicUnit, ImperialUnit, MetricUnit, Unit, UnitSystem};

verus! {

/// The meters in a lightyear: the distance light covers in a Julian year
/// of 365.25 days.
pub open spec fn meters_in_a_lightyear() -> real {
    9_460_730_472_580_800real
}

/// The meters in a yard.
pub open spec fn meters_in_a_yard() -> real {
    9144real / 10000real
}

/// The meters in an astronomical unit.
pub open spec fn meters_in_an_astronomical_unit() -> real {
    149_597_870_700real
}

impl AstronomicUnit {
    /// The factor of an astronomic unit: its length in lightyears.
    pub open spec fn exact_factor(&self, pi: real) -> real {
        match *self {
            AstronomicUnit::AstronomicalUnit => meters_in_an_astronomical_unit()
                / meters_in_a_lightyear(),
            AstronomicUnit::Lightsecond => 1real / 31_557_600real,
            AstronomicUnit::Lightminute => 1real / 525_960real,
            AstronomicUnit::Lighthour => 1real / 8_766real,
            AstronomicUnit::Lightday => 100real / 36_525real,
            AstronomicUnit::Lightyear => 1real,
            AstronomicUnit::Parsec => meters_in_an_astronomical_unit() / meters_in_a_lightyear()
                * (648_000real / pi),
            AstronomicUnit::Kiloparsec => meters_in_an_astronomical_unit()
                / meters_in_a_lightyear() * (648_000real / pi) * 1_000real,
            AstronomicUnit::Megaparsec => meters_in_an_astronomical_unit()
                / meters_in_a_lightyear() * (648_000real / pi) * 1_000_000real,
        }
    }
}

impl ImperialUnit {
    /// The factor of an imperial unit: its length in inches.
    pub open spec fn exact_factor(&self) -> real {
        match *self {
            ImperialUnit::Inch => 1real,
            ImperialUnit::Foot => 12real,
            ImperialUnit::Yard => 36real,
            ImperialUnit::Mile => 63_360real,
        }
    }
}

impl MetricUnit {
    /// The factor of a metric unit: its length in meters.
    pub open spec fn exact_factor(&self) -> real {
        match *self {
            MetricUnit::Yoctometer => 1real / 1_000_000_000_000_000_000_000_000real,
            MetricUnit::Zeptometer => 1real / 1_000_000_000_000_000_000_000real,
            MetricUnit::Attometer => 1real / 1_000_000_000_000_000_000real,
            MetricUnit::Femtometer => 1real / 1_000_000_000_000_000real,
            MetricUnit::Picometer => 1real / 1_000_000_000_000real,
            MetricUnit::Nanometer => 1real / 1_000_000_000real,
            MetricUnit::Micrometer => 1real / 1_000_000real,
            MetricUnit::Millimeter => 1real / 1_000real,
            MetricUnit::Centimeter => 1real / 100real,
            MetricUnit::Decimeter => 1real / 10real,
            MetricUnit::Meter => 1real,
            MetricUnit::Decameter => 10real,
            MetricUnit::Hectometer => 100real,
            MetricUnit::Kilometer => 1_000real,
            MetricUnit::Megameter => 1_000_000real,
            MetricUnit::Gigameter => 1_000_000_000real,
            MetricUnit::Terameter => 1_000_000_000_000real,
            MetricUnit::Petameter => 1_000_000_000_000_000real,
            MetricUnit::Exameter => 1_000_000_000_000_000_000real,
            MetricUnit::Zettameter => 1_000_000_000_000_000_000_000real,
            MetricUnit::Yottameter => 1_000_000_000_000_000_000_000_000real,
        }
    }
}

impl UnitSystem {
    /// The meters in the reference unit of a system: the lightyear, the inch,
    /// the meter.
    pub open spec fn reference_in_meters(&self) -> real {
        match *self {
            UnitSystem::Astronomic => meters_in_a_lightyear(),
            UnitSystem::Imperial => meters_in_a_yard() / 36real,
            UnitSystem::Metric => 1real,
        }
    }
}

impl Unit {
    /// The factor of a unit relative to the reference unit of its system.
    pub open spec fn exact_factor(&self, pi: real) -> real {
        match *self {
            Unit::Astronomic(unit) => unit.exact_factor(pi),
            Unit::Imperial(unit) => unit.exact_factor(),
            Unit::Metric(unit) => unit.exact_factor(),
        }
    }

    /// The meters in a unit.
    pub open spec fn meters(&self, pi: real) -> real {
        self.exact_factor(pi) * self.spec_system().reference_in_meters()
    }
}

impl Step {
    /// What a step makes of the magnitude `value`, in exact arithmetic.
    pub open spec fn applied(self, value: real, pi: real) -> real {
        match self {
            Step::Scale { from, to } => value * (from.exact_factor(pi) * (1real
                / to.exact_factor(pi))),
            Step::MetersToLightyears => value / meters_in_a_lightyear(),
            Step::LightyearsToMeters => value * meters_in_a_lightyear(),
            Step::MetersToYards => value / meters_in_a_yard(),
            Step::YardsToMeters => value * meters_in_a_yard(),
        }
    }
}

/// The arithmetic of the steps over the real numbers.
pub open spec fn exact_arithmetic(pi: real) -> spec_fn(Step, real) -> real {
    |step: Step, value: real| step.applied(value, pi)
}

/// The magnitude that `value` becomes when it is converted from `source` to
/// `destination` in exact arithmetic: it is carried along the route.
pub open spec fn converted(source: Unit, destination: Unit, value: real, pi: real) -> real {
    carried(route(source, destination), value, exact_arithmetic(pi))
}

/// Every unit has a positive factor and a positive length.
pub proof fn factors_are_positive(unit: Unit, pi: real)
    requires
        pi > 0real,
    ensures
        unit.exact_factor(pi) > 0real,
        unit.meters(pi) > 0real,
{
    let astronomical_unit = meters_in_an_astronomical_unit() / meters_in_a_lightyear();
    let parsec = astronomical_unit * (648_000real / pi);
    assert(648_000real / pi > 0real) by (nonlinear_arith)
        requires
            pi > 0real,
    ;
    assert(parsec > 0real) by (nonlinear_arith)
        requires
            parsec == astronomical_unit * (648_000real / pi),
            astronomical_unit > 0real,
            648_000real / pi > 0real,
    ;
    let factor = unit.exact_factor(pi);
    let reference = unit.spec_system().reference_in_meters();
    assert(factor > 0real);
    assert(reference > 0real);
    assert(factor * reference > 0real) by (nonlinear_arith)
        requires
            factor > 0real,
            reference > 0real,
    ;
}

/// A step keeps the length: what it makes of a magnitude, in the unit it
/// leads to, is as long as the magnitude was in the unit it starts from.
pub proof fn step_keeps_the_length(step: Step, value: real, pi: real)
    requires
        pi > 0real,
        step matches Step::Scale { from, to } ==> from.spec_system() == to.spec_system(),
    ensures
        step.applied(value, pi) * step.target().meters(pi) == value * step.source().meters(pi),
{
    match step {
        Step::Scale { from, to } => {
            factors_are_positive(to, pi);
            let a = from.exact_factor(pi);
            let b = to.exact_factor(pi);
            let r = from.spec_system().reference_in_meters();
            assert((value * (a * (1real / b))) * (b * r) == value * (a * r)) by (nonlinear_arith)
                requires
                    b > 0real,
            ;
        },
        Step::MetersToLightyears => {
            let c = meters_in_a_lightyear();
            assert((value / c) * (1real * c) == value * (1real * 1real)) by (nonlinear_arith)
                requires
                    c > 0real,
            ;
        },
        Step::LightyearsToMeters => {
            let c = meters_in_a_lightyear();
            assert((value * c) * (1real * 1real) == value * (1real * c)) by (nonlinear_arith);
        },
        Step::MetersToYards => {
            let c = meters_in_a_yard();
            assert((value / c) * (36real * (c / 36real)) == value * (1real * 1real))
                by (nonlinear_arith)
                requires
                    c > 0real,
            ;
        },
        Step::YardsToMeters => {
            let c = meters_in_a_yard();
            assert((value * c) * (1real * 1real) == value * (36real * (c / 36real)))
                by (nonlinear_arith);
        },
    }
}

/// Steps that lead from one unit to another keep the length from the first
/// to the last.
proof fn chained_steps_keep_the_length(
    steps: Seq<Step>,
    from: Unit,
    to: Unit,
    value: real,
    pi: real,
)
    requires
        pi > 0real,
        leads(steps, from, to),
        forall|i: int|
            0 <= i < steps.len() ==> match #[trigger] steps[i] {
                Step::Scale { from, to } => from.spec_system() == to.spec_system(),
                _ => true,
            },
    ensures
        carried(steps, value, exact_arithmetic(pi)) * to.meters(pi) == value * from.meters(pi),
    decreases steps.len(),
{
    if steps.len() > 0 {
        let first = steps.first();
        let rest = steps.drop_first();
        step_keeps_the_length(first, value, pi);
        assert(leads(rest, first.target(), to)) by {
            if rest.len() == 0 {
                assert(steps.last() == first);
            } else {
                assert(rest.first() == steps[1]);
                assert(rest.last() == steps.last());
                assert forall|i: int| 0 <= i < rest.len() - 1 implies (#[trigger] rest[i]).target()
                    == rest[i + 1].source() by {
                    assert(rest[i] == steps[i + 1]);
                    assert(rest[i + 1] == steps[i + 2]);
                }
            }
        }
        assert forall|i: int| 0 <= i < rest.len() implies match #[trigger] rest[i] {
            Step::Scale { from, to } => from.spec_system() == to.spec_system(),
            _ => true,
        } by {
            assert(rest[i] == steps[i + 1]);
        }
        chained_steps_keep_the_length(rest, first.target(), to, first.applied(value, pi), pi);
    }
}

/// A conversion keeps the length: the converted magnitude, in the
/// destination unit, is as long as the magnitude was in the source unit.
pub proof fn conversion_keeps_the_length(source: Unit, destination: Unit, value: real, pi: real)
    requires
        pi > 0real,
    ensures
        converted(source, destination, value, pi) * destination.meters(pi) == value
            * source.meters(pi),
{
    route_leads_from_source_to_destination(source, destination);
    route_scales_inside_systems(source, destination);
    chained_steps_keep_the_length(route(source, destination), source, destination, value, pi);
}

/// Converting a magnitude and converting the result back gives the magnitude
/// again, between any two units, in exact arithmetic. In double precision the
/// same holds up to rounding.
pub proof fn there_and_back_is_the_identity(source: Unit, destination: Unit, value: real, pi: real)
    requires
        pi > 0real,
    ensures
        converted(destination, source, converted(source, destination, value, pi), pi) == value,
{
    let there = converted(source, destination, value, pi);
    let back = converted(destination, source, there, pi);
    conversion_keeps_the_length(source, destination, value, pi);
    conversion_keeps_the_length(destination, source, there, pi);
    factors_are_positive(source, pi);
    let s = source.meters(pi);
    let d = destination.meters(pi);
    assert(back == value) by (nonlinear_arith)
        requires
            there * d == value * s,
            back * s == there * d,
            s > 0real,
    ;
}

/// Inside one system a conversion multiplies by the factor of the source and
/// divides by the factor of the destination.
pub proof fn conversion_within_a_system_scales_by_the_factors(
    source: Unit,
    destination: Unit,
    value: real,
    pi: real,
)
    requires
        pi > 0real,
        source.spec_system() == destination.spec_system(),
    ensures
        converted(source, destination, value, pi) == value * source.exact_factor(pi)
            / destination.exact_factor(pi),
{
    factors_are_positive(destination, pi);
    let a = source.exact_factor(pi);
    let b = destination.exact_factor(pi);
    if source == destination {
        conversion_to_the_same_unit_is_the_identity(source, value, exact_arithmetic(pi));
        assert(value * a / a == value) by (nonlinear_arith)
            requires
                a > 0real,
        ;
    } else {
        route_within_a_system_is_one_scaling(source, destination, value, exact_arithmetic(pi));
        assert(value * (a * (1real / b)) == value * a / b) by (nonlinear_arith)
            requires
                b > 0real,
        ;
    }
}

/// The lengths of the astronomical unit, the lightyear, the inch and the
/// mile in meters.
pub proof fn lengths_in_meters(pi: real)
    ensures
        Unit::Astronomic(AstronomicUnit::AstronomicalUnit).meters(pi) == 149_597_870_700real,
        Unit::Astronomic(AstronomicUnit::Lightyear).meters(pi) == 9_460_730_472_580_800real,
        Unit::Imperial(ImperialUnit::Inch).meters(pi) == 254real / 10_000real,
        Unit::Imperial(ImperialUnit::Mile).meters(pi) == 1_609_344real / 1_000real,
{
    let a = meters_in_an_astronomical_unit();
    let l = meters_in_a_lightyear();
    let y = meters_in_a_yard();
    assert(a / l * l == a) by (nonlinear_arith)
        requires
            l > 0real,
    ;
    assert(1real * l == l) by (nonlinear_arith);
    assert(1real * (y / 36real) == 254real / 10_000real) by (nonlinear_arith)
        requires
            y == 9144real / 10000real,
    ;
    assert(63_360real * (y / 36real) == 1_609_344real / 1_000real) by (nonlinear_arith)
        requires
            y == 9144real / 10000real,
    ;
}

/// One astronomical unit is 149 597 870 700 meters, one lightyear
/// 9 460 730 472 580.8 kilometers, one mile 1.609344 kilometers and one inch
/// 2.54 centimeters, in exact arithmetic.
pub proof fn conversions_of_one(pi: real)
    requires
        pi > 0real,
    ensures
        converted(
            Unit::Astronomic(AstronomicUnit::AstronomicalUnit),
            Unit::Metric(MetricUnit::Meter),
            1real,
            pi,
        ) == 149_597_870_700real,
        converted(
            Unit::Astronomic(AstronomicUnit::Lightyear),
            Unit::Metric(MetricUnit::Kilometer),
            1real,
            pi,
        ) == 94_607_304_725_808real / 10real,
        converted(
            Unit::Imperial(ImperialUnit::Mile),
            Unit::Metric(MetricUnit::Kilometer),
            1real,
            pi,
        ) == 1_609_344real / 1_000_000real,
        converted(
            Unit::Imperial(ImperialUnit::Inch),
            Unit::Metric(MetricUnit::Centimeter),
            1real,
            pi,
        ) == 254real / 100real,
{
    let astronomical_unit = Unit::Astronomic(AstronomicUnit::AstronomicalUnit);
    let lightyear = Unit::Astronomic(AstronomicUnit::Lightyear);
    let mile = Unit::Imperial(ImperialUnit::Mile);
    let inch = Unit::Imperial(ImperialUnit::Inch);
    let meter = Unit::Metric(MetricUnit::Meter);
    let kilometer = Unit::Metric(MetricUnit::Kilometer);
    let centimeter = Unit::Metric(MetricUnit::Centimeter);
    lengths_in_meters(pi);
    assert(meter.meters(pi) == 1real) by (nonlinear_arith)
        requires
            meter.meters(pi) == 1real * 1real,
    ;
    assert(kilometer.meters(pi) == 1_000real) by (nonlinear_arith)
        requires
            kilometer.meters(pi) == 1_000real * 1real,
    ;
    assert(centimeter.meters(pi) == 1real / 100real) by (nonlinear_arith)
        requires
            centimeter.meters(pi) == 1real / 100real * 1real,
    ;
    conversion_keeps_the_length(astronomical_unit, meter, 1real, pi);
    conversion_keeps_the_length(lightyear, kilometer, 1real, pi);
    conversion_keeps_the_length(mile, kilometer, 1real, pi);
    conversion_keeps_the_length(inch, centimeter, 1real, pi);
    let a = converted(astronomical_unit, meter, 1real, pi);
    assert(a == 149_597_870_700real) by (nonlinear_arith)
        requires
            a * 1real == 1real * 149_597_870_700real,
    ;
    let b = converted(lightyear, kilometer, 1real, pi);
    assert(b == 94_607_304_725_808real / 10real) by (nonlinear_arith)
        requires
            b * 1_000real == 1real * 9_460_730_472_580_800real,
    ;
    let c = converted(mile, kilometer, 1real, pi);
    assert(c == 1_609_344real / 1_000_000real) by (nonlinear_arith)
        requires
            c * 1_000real == 1real * (1_609_344real / 1_000real),
    ;
    let d = converted(inch, centimeter, 1real, pi);
    assert(d == 254real / 100real) by (nonlinear_arith)
        requires
            d * (1real / 100real) == 1real * (254real / 10_000real),
    ;
}

/// On the metric and the imperial ladder the greater neighbour is the longer
/// unit, and so it is on the astronomic ladder from the lightsecond upward.
/// The astronomical unit, first on its ladder, is longer than the lightsecond
/// that follows it. This holds for every number between 3 and 4 in the place
/// of π.
pub proof fn greater_units_are_longer(unit: Unit, pi: real)
    requires
        3real < pi < 4real,
    ensures
        unit.spec_greater_unit() matches Some(greater) ==> (greater.meters(pi) > unit.meters(pi)
            <==> unit != Unit::Astronomic(AstronomicUnit::AstronomicalUnit)),
{
    every_unit_stands_on_its_ladder(unit);
    if let Some(greater) = unit.spec_greater_unit() {
        let a = unit.exact_factor(pi);
        let b = greater.exact_factor(pi);
        let r = unit.spec_system().reference_in_meters();
        assert(greater == ladder(unit.spec_system())[unit.rung() + 1]);
        assert(greater.spec_system() == unit.spec_system());
        assert(r > 0real);
        let au = meters_in_an_astronomical_unit() / meters_in_a_lightyear();
        let per_pi = 648_000real / pi;
        assert(162_000real < per_pi < 216_000real) by (nonlinear_arith)
            requires
                3real < pi < 4real,
                per_pi == 648_000real / pi,
        ;
        assert(au * 9_460_730_472_580_800real == 149_597_870_700real) by (nonlinear_arith)
            requires
                au == 149_597_870_700real / 9_460_730_472_580_800real,
        ;
        let pc = au * per_pi;
        assert(pc > 1real) by (nonlinear_arith)
            requires
                pc == au * per_pi,
                per_pi > 162_000real,
                au * 9_460_730_472_580_800real == 149_597_870_700real,
        ;
        assert(pc * 1_000real > pc && pc * 1_000_000real > pc * 1_000real) by (nonlinear_arith)
            requires
                pc > 1real,
        ;
        assert(au > 1real / 525_960real) by (nonlinear_arith)
            requires
                au * 9_460_730_472_580_800real == 149_597_870_700real,
        ;
        if unit == Unit::Astronomic(AstronomicUnit::AstronomicalUnit) {
            assert(b < a);
        } else {
            assert(a < b);
        }
        assert((b * r > a * r) <==> b > a) by (nonlinear_arith)
            requires
                r > 0real,
        ;
    }
}

} // verus!
