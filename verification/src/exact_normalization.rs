//! Normalization in exact arithmetic.
//!
//! A walk takes its readings from a magnitude. Here the magnitude is a real
//! number and every conversion is exact, which says what normalizing is
//! meant to yield: the same length in the same system, in a unit that the
//! magnitude fits, as far as ten rounds lead. A caller who works in double
//! precision follows the same walk with rounded magnitudes.

use vstd::prelude::*;

use crate::conversion::conversion_to_the_same_unit_is_the_identity;
use crate::exact_conversion::{
    conversion_keeps_the_length, conversion_within_a_system_scales_by_the_factors, converted,
    exact_arithmetic,
};
use crate::ladder::{every_unit_stands_on_its_ladder, neighbours_are_one_rung_apart};
use crate::normalize::{reading_moves_one_rung, readings_left, Walk, MAX_ROUNDS};
use crate::unit::{MetricUnit, Unit};

verus! {

/// The reading that a state of a walk asks for, taken in exact arithmetic
/// from the magnitude `value`, which is expressed in the unit of the state.
pub open spec fn exact_reading(walk: Walk, value: real, pi: real) -> bool {
    match walk {
        Walk::Measure { unit, rounds } => value < 1real,
        Walk::Probe { unit, candidate, rounds } => converted(unit, candidate, value, pi) >= 1real,
        Walk::Done { unit } => false,
    }
}

/// The unit in which a walk ends and the magnitude in that unit, when the
/// walk stands in the state `walk` with the magnitude `value` and every
/// reading and conversion is exact.
pub open spec fn walked(walk: Walk, value: real, pi: real) -> (Unit, real)
    decreases readings_left(walk),
{
    if walk is Done || !walk.reachable() {
        (walk.spec_unit(), value)
    } else {
        let next = walk.next(exact_reading(walk, value, pi));
        walked(next, converted(walk.spec_unit(), next.spec_unit(), value, pi), pi)
    }
}

/// The unit that normalizing picks for the magnitude `value` expressed in
/// `unit`, and the magnitude in that unit, in exact arithmetic.
pub open spec fn normalized(unit: Unit, value: real, pi: real) -> (Unit, real) {
    walked(Walk::spec_start(unit), value, pi)
}

/// The number of rungs that a walk moves before it ends, from the state
/// `walk` with the magnitude `value`, in exact arithmetic.
pub open spec fn rungs_moved(walk: Walk, value: real, pi: real) -> nat
    decreases readings_left(walk),
{
    if walk is Done || !walk.reachable() {
        0
    } else {
        let next = walk.next(exact_reading(walk, value, pi));
        let moved: nat = if next.spec_unit() == walk.spec_unit() {
            0
        } else {
            1
        };
        moved + rungs_moved(
            next,
            converted(walk.spec_unit(), next.spec_unit(), value, pi),
            pi,
        )
    }
}

/// Whether the magnitude `value` fits the unit `unit`, so that normalizing
/// has nothing to do: below one it stands on the first rung; otherwise it
/// stands on the last rung or would drop below one on the next.
pub open spec fn fits(unit: Unit, value: real, pi: real) -> bool {
    if value < 1real {
        unit.spec_smaller_unit() is None
    } else {
        match unit.spec_greater_unit() {
            Some(greater) => converted(unit, greater, value, pi) < 1real,
            None => true,
        }
    }
}

/// The rounds that are over in a state that is not yet the end.
spec fn rounds_over(walk: Walk) -> int {
    match walk {
        Walk::Measure { unit, rounds } => rounds as int,
        Walk::Probe { unit, candidate, rounds } => rounds as int,
        Walk::Done { unit } => 0,
    }
}

/// From any state that a walk can be in, the walk keeps the length and the
/// system, and it ends with a magnitude that fits its unit unless it has
/// used up its rounds.
proof fn walk_ends_fitting_or_out_of_rounds(walk: Walk, value: real, pi: real)
    requires
        pi > 0real,
        walk.reachable(),
        !(walk is Done),
        walk is Probe ==> value >= 1real,
    ensures
        walked(walk, value, pi).0.spec_system() == walk.spec_unit().spec_system(),
        walked(walk, value, pi).1 * walked(walk, value, pi).0.meters(pi) == value
            * walk.spec_unit().meters(pi),
        rungs_moved(walk, value, pi) <= MAX_ROUNDS - rounds_over(walk),
        fits(walked(walk, value, pi).0, walked(walk, value, pi).1, pi) || rungs_moved(
            walk,
            value,
            pi,
        ) == MAX_ROUNDS - rounds_over(walk),
    decreases readings_left(walk),
{
    let unit = walk.spec_unit();
    let reading = exact_reading(walk, value, pi);
    let next = walk.next(reading);
    let moved = converted(unit, next.spec_unit(), value, pi);
    reading_moves_one_rung(walk, reading);
    neighbours_are_one_rung_apart(unit);
    conversion_keeps_the_length(unit, next.spec_unit(), value, pi);
    conversion_to_the_same_unit_is_the_identity(unit, value, exact_arithmetic(pi));
    if next is Done {
        assert(walked(next, moved, pi) == (next.spec_unit(), moved));
        assert(rungs_moved(next, moved, pi) == 0);
    } else {
        walk_ends_fitting_or_out_of_rounds(next, moved, pi);
    }
}

/// Normalizing keeps the system and the length: the magnitude it hands
/// back, in the unit it picks, is as long as the magnitude it was given.
pub proof fn normalizing_keeps_the_length(unit: Unit, value: real, pi: real)
    requires
        pi > 0real,
    ensures
        normalized(unit, value, pi).0.spec_system() == unit.spec_system(),
        normalized(unit, value, pi).1 * normalized(unit, value, pi).0.meters(pi) == value
            * unit.meters(pi),
{
    walk_ends_fitting_or_out_of_rounds(Walk::spec_start(unit), value, pi);
}

/// Normalizing moves at most ten rungs, and it ends with a magnitude that
/// fits its unit unless it has moved all ten.
pub proof fn normalizing_ends_fitting_or_after_ten_rungs(unit: Unit, value: real, pi: real)
    requires
        pi > 0real,
    ensures
        rungs_moved(Walk::spec_start(unit), value, pi) <= MAX_ROUNDS,
        fits(normalized(unit, value, pi).0, normalized(unit, value, pi).1, pi) || rungs_moved(
            Walk::spec_start(unit),
            value,
            pi,
        ) == MAX_ROUNDS,
{
    walk_ends_fitting_or_out_of_rounds(Walk::spec_start(unit), value, pi);
}

/// Normalizing leaves a magnitude alone that fits its unit: one of at least
/// one that would drop below one in the greater unit, one on the last rung
/// that is at least one, and one on the first rung that is below one.
pub proof fn normalizing_leaves_a_fitting_magnitude_alone(unit: Unit, value: real, pi: real)
    requires
        pi > 0real,
        fits(unit, value, pi),
    ensures
        normalized(unit, value, pi) == (unit, value),
        rungs_moved(Walk::spec_start(unit), value, pi) == 0,
{
    reveal_with_fuel(walked, 3);
    reveal_with_fuel(rungs_moved, 3);
    conversion_to_the_same_unit_is_the_identity(unit, value, exact_arithmetic(pi));
    neighbours_are_one_rung_apart(unit);
}

/// Five thousand meters are normalized to five kilometers: the walk climbs
/// three rungs, and stops before the megameter.
pub proof fn five_thousand_meters_are_five_kilometers(pi: real)
    requires
        pi > 0real,
    ensures
        normalized(Unit::Metric(MetricUnit::Meter), 5_000real, pi) == (
            Unit::Metric(MetricUnit::Kilometer),
            5real,
        ),
{
    let meter = Unit::Metric(MetricUnit::Meter);
    let decameter = Unit::Metric(MetricUnit::Decameter);
    let hectometer = Unit::Metric(MetricUnit::Hectometer);
    let kilometer = Unit::Metric(MetricUnit::Kilometer);
    let megameter = Unit::Metric(MetricUnit::Megameter);
    every_unit_stands_on_its_ladder(meter);
    every_unit_stands_on_its_ladder(decameter);
    every_unit_stands_on_its_ladder(hectometer);
    every_unit_stands_on_its_ladder(kilometer);
    assert(meter.spec_greater_unit() == Some(decameter));
    assert(decameter.spec_greater_unit() == Some(hectometer));
    assert(hectometer.spec_greater_unit() == Some(kilometer));
    assert(kilometer.spec_greater_unit() == Some(megameter));
    conversion_within_a_system_scales_by_the_factors(meter, decameter, 5_000real, pi);
    conversion_within_a_system_scales_by_the_factors(decameter, hectometer, 500real, pi);
    conversion_within_a_system_scales_by_the_factors(hectometer, kilometer, 50real, pi);
    conversion_within_a_system_scales_by_the_factors(kilometer, megameter, 5real, pi);
    conversion_within_a_system_scales_by_the_factors(meter, meter, 5_000real, pi);
    conversion_within_a_system_scales_by_the_factors(decameter, decameter, 500real, pi);
    conversion_within_a_system_scales_by_the_factors(hectometer, hectometer, 50real, pi);
    conversion_within_a_system_scales_by_the_factors(kilometer, kilometer, 5real, pi);
    assert(converted(meter, decameter, 5_000real, pi) == 500real);
    assert(converted(decameter, hectometer, 500real, pi) == 50real);
    assert(converted(hectometer, kilometer, 50real, pi) == 5real);
    let too_small = converted(kilometer, megameter, 5real, pi);
    assert(too_small < 1real) by (nonlinear_arith)
        requires
            too_small == 5real * 1_000real / 1_000_000real,
    ;
    reveal_with_fuel(walked, 3);
    let at_the_kilometer = Walk::Measure { unit: kilometer, rounds: 3 };
    assert(walked(at_the_kilometer, 5real, pi) == (kilometer, 5real));
    let at_the_hectometer = Walk::Measure { unit: hectometer, rounds: 2 };
    assert(walked(at_the_hectometer, 50real, pi) == (kilometer, 5real));
    let at_the_decameter = Walk::Measure { unit: decameter, rounds: 1 };
    assert(walked(at_the_decameter, 500real, pi) == (kilometer, 5real));
}

} // verus!
