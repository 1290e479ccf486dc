//! The route that a value takes from one unit to another.
//!
//! A conversion inside one system is a single scaling by the two units'
//! factors. Between systems the value is staged through one fixed unit per
//! system, its pivot: the meter, the yard and the lightyear. The functions
//! here decide the steps; carrying them out on a magnitude is arithmetic on
//! double-precision numbers and is left to the caller.

use vstd::prelude::*;

use crate::unit::{AstronomicUnit, ImperialUnit, MetricUnit, Unit, UnitSystem};

verus! {

/// One step of a conversion, applied to a magnitude `v`. Each variant names
/// the operation on double-precision numbers; `Step::applied` states the same
/// over the real numbers.
#[derive(Copy, Clone, Debug, PartialEq, Eq, Structural)]
pub enum Step {
    /// Inside one system: `v * (factor(from) * (1 / factor(to)))`.
    Scale { from: Unit, to: Unit },
    /// From meters to lightyears: `v / 9_460_730_472_580_800`.
    MetersToLightyears,
    /// From lightyears to meters: `v * 9_460_730_472_580_800`.
    LightyearsToMeters,
    /// From meters to yards: `v / 0.9144`.
    MetersToYards,
    /// From yards to meters: `v * 0.9144`.
    YardsToMeters,
}

/// The meter, pivot of the metric system.
pub open spec fn meter() -> Unit {
    Unit::Metric(MetricUnit::Meter)
}

/// The yard, pivot of the imperial system.
pub open spec fn yard() -> Unit {
    Unit::Imperial(ImperialUnit::Yard)
}

/// The lightyear, pivot of the astronomic system.
pub open spec fn lightyear() -> Unit {
    Unit::Astronomic(AstronomicUnit::Lightyear)
}

impl UnitSystem {
    /// The pivot of a system, for use in contracts.
    pub open spec fn spec_pivot(&self) -> Unit {
        match *self {
            UnitSystem::Astronomic => lightyear(),
            UnitSystem::Imperial => yard(),
            UnitSystem::Metric => meter(),
        }
    }

    /// The unit through which every conversion into or out of this system is
    /// staged.
    #[verifier::when_used_as_spec(spec_pivot)]
    pub fn pivot(&self) -> (r: Unit)
        ensures
            r == self.spec_pivot(),
            r.spec_system() == *self,
    {
        match self {
            UnitSystem::Astronomic => Unit::Astronomic(AstronomicUnit::Lightyear),
            UnitSystem::Imperial => Unit::Imperial(ImperialUnit::Yard),
            UnitSystem::Metric => Unit::Metric(MetricUnit::Meter),
        }
    }
}

impl Step {
    /// The unit in which a magnitude is expressed before the step.
    pub open spec fn source(self) -> Unit {
        match self {
            Step::Scale { from, to } => from,
            Step::MetersToLightyears => meter(),
            Step::LightyearsToMeters => lightyear(),
            Step::MetersToYards => meter(),
            Step::YardsToMeters => yard(),
        }
    }

    /// The unit in which a magnitude is expressed after the step.
    pub open spec fn target(self) -> Unit {
        match self {
            Step::Scale { from, to } => to,
            Step::MetersToLightyears => lightyear(),
            Step::LightyearsToMeters => meter(),
            Step::MetersToYards => yard(),
            Step::YardsToMeters => meter(),
        }
    }

    /// Whether the step leaves the system it starts in.
    pub open spec fn crosses(self) -> bool {
        !(self is Scale)
    }
}

/// How many systems a conversion has to leave; the measure by which `route`
/// terminates.
pub open spec fn crossings(source: Unit, destination: Unit) -> nat {
    if source.spec_system() == destination.spec_system() {
        0
    } else if source is Imperial && destination is Astronomic {
        2
    } else {
        1
    }
}

/// The steps of converting a magnitude from `source` to `destination`.
///
/// Two equal units need no step, so the magnitude is left untouched. Two
/// units of one system need one scaling. Otherwise the magnitude is brought
/// to the pivot of the destination's system and scaled from there to the
/// destination, also where that scaling is from the pivot to itself. To the
/// lightyear every magnitude comes by way of the meter; to the meter an
/// imperial one comes by way of the yard and an astronomic one by way of the
/// lightyear; to the yard every magnitude comes by way of the meter, an
/// astronomic one by way of the lightyear before that. The way to a pivot of
/// another system is itself a conversion.
pub open spec fn route(source: Unit, destination: Unit) -> Seq<Step>
    decreases crossings(source, destination),
{
    if source == destination {
        Seq::empty()
    } else if source.spec_system() == destination.spec_system() {
        seq![Step::Scale { from: source, to: destination }]
    } else {
        let to_the_pivot = match destination {
            Unit::Astronomic(_) => route(source, meter()).push(Step::MetersToLightyears),
            Unit::Imperial(_) => if source is Astronomic {
                route(source, lightyear()).push(Step::LightyearsToMeters).push(
                    Step::MetersToYards,
                )
            } else {
                route(source, meter()).push(Step::MetersToYards)
            },
            Unit::Metric(_) => if source is Astronomic {
                route(source, lightyear()).push(Step::LightyearsToMeters)
            } else {
                route(source, yard()).push(Step::YardsToMeters)
            },
        };
        to_the_pivot.push(
            Step::Scale { from: destination.spec_system().spec_pivot(), to: destination },
        )
    }
}

/// Computes the steps of converting a magnitude from `source` to
/// `destination`, in the order in which they are applied.
pub fn find_route(source: Unit, destination: Unit) -> (steps: Vec<Step>)
    ensures
        steps@ == route(source, destination),
    decreases crossings(source, destination),
{
    let mut steps = Vec::new();
    if source == destination {
        return steps;
    }
    if source.system() == destination.system() {
        steps.push(Step::Scale { from: source, to: destination });
        return steps;
    }
    match destination.system() {
        UnitSystem::Astronomic => {
            steps = find_route(source, UnitSystem::Metric.pivot());
            steps.push(Step::MetersToLightyears);
        },
        UnitSystem::Imperial => {
            if source.is_astronomic() {
                steps = find_route(source, UnitSystem::Astronomic.pivot());
                steps.push(Step::LightyearsToMeters);
            } else {
                steps = find_route(source, UnitSystem::Metric.pivot());
            }
            steps.push(Step::MetersToYards);
        },
        UnitSystem::Metric => {
            if source.is_astronomic() {
                steps = find_route(source, UnitSystem::Astronomic.pivot());
                steps.push(Step::LightyearsToMeters);
            } else {
                steps = find_route(source, UnitSystem::Imperial.pivot());
                steps.push(Step::YardsToMeters);
            }
        },
    }
    steps.push(Step::Scale { from: destination.system().pivot(), to: destination });
    steps
}

/// Whether `steps` lead from the unit `from` to the unit `to`: the first
/// starts at `from`, each next one where the one before ended, and the last
/// ends at `to`. Without a step the two units are one.
pub open spec fn leads(steps: Seq<Step>, from: Unit, to: Unit) -> bool {
    if steps.len() == 0 {
        from == to
    } else {
        &&& steps.first().source() == from
        &&& steps.last().target() == to
        &&& forall|i: int|
            0 <= i < steps.len() - 1 ==> (#[trigger] steps[i]).target() == steps[i + 1].source()
    }
}

/// The magnitude that `value` becomes along `steps`, taken in order, where
/// `carry` says what one step makes of a magnitude.
pub open spec fn carried<V>(steps: Seq<Step>, value: V, carry: spec_fn(Step, V) -> V) -> V
    decreases steps.len(),
{
    if steps.len() == 0 {
        value
    } else {
        carried(steps.drop_first(), carry(steps.first(), value), carry)
    }
}

/// Converting a magnitude into the unit it is expressed in hands back the
/// very same magnitude: the route has no step, so no arithmetic touches it,
/// whatever the arithmetic of a step is.
pub proof fn conversion_to_the_same_unit_is_the_identity<V>(
    unit: Unit,
    value: V,
    carry: spec_fn(Step, V) -> V,
)
    ensures
        route(unit, unit) == Seq::<Step>::empty(),
        carried(route(unit, unit), value, carry) == value,
{
}

/// Only a conversion between equal units has no step.
pub proof fn only_equal_units_need_no_step(source: Unit, destination: Unit)
    ensures
        route(source, destination).len() == 0 <==> source == destination,
{
    reveal_with_fuel(route, 3);
}

/// Two different units of one system are one scaling apart, the way back is
/// the mirrored scaling, and the magnitude is carried through that one step.
pub proof fn route_within_a_system_is_one_scaling<V>(
    source: Unit,
    destination: Unit,
    value: V,
    carry: spec_fn(Step, V) -> V,
)
    requires
        source != destination,
        source.spec_system() == destination.spec_system(),
    ensures
        route(source, destination) == seq![Step::Scale { from: source, to: destination }],
        route(destination, source) == seq![Step::Scale { from: destination, to: source }],
        carried(route(source, destination), value, carry) == carry(
            Step::Scale { from: source, to: destination },
            value,
        ),
{
    reveal_with_fuel(carried, 2);
    let steps = route(source, destination);
    assert(steps.drop_first().len() == 0);
}

/// The steps of a route are chained from the source to the destination,
/// and there are at most five of them.
pub proof fn route_leads_from_source_to_destination(source: Unit, destination: Unit)
    ensures
        leads(route(source, destination), source, destination),
        route(source, destination).len() <= 5,
{
    reveal_with_fuel(route, 3);
}

/// Every scaling on a route stays inside one system, so systems are left
/// only by the four crossings between pivots.
pub proof fn route_scales_inside_systems(source: Unit, destination: Unit)
    ensures
        forall|i: int|
            0 <= i < route(source, destination).len() ==> match #[trigger] route(
                source,
                destination,
            )[i] {
                Step::Scale { from, to } => from.spec_system() == to.spec_system(),
                _ => true,
            },
{
    reveal_with_fuel(route, 3);
}

/// Between two systems the last step is the scaling from the pivot of the
/// destination's system to the destination, and the step before it is a
/// crossing that lands on that pivot.
pub proof fn route_between_systems_ends_at_the_pivot(source: Unit, destination: Unit)
    requires
        source.spec_system() != destination.spec_system(),
    ensures
        route(source, destination).len() >= 2,
        route(source, destination).last() == (Step::Scale {
            from: destination.spec_system().spec_pivot(),
            to: destination,
        }),
        route(source, destination)[route(source, destination).len() - 2].crosses(),
        route(source, destination)[route(source, destination).len() - 2].target()
            == destination.spec_system().spec_pivot(),
{
    reveal_with_fuel(route, 3);
}

} // verus!
