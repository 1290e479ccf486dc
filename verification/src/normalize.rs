//! Picking the most readable unit for a magnitude.
//!
//! Normalizing walks along the ladder of the unit's own system, one rung per
//! round and for at most ten rounds. A magnitude below one goes down a rung
//! whenever there is one. A magnitude that is not below one goes up a rung
//! only if it is at least one when expressed in the greater unit; otherwise
//! the walk ends where it stands. The two tests are not each other's
//! negation for a caller whose magnitude may be no number at all.
//!
//! The walk is a state machine. Its states say what the caller has to read
//! from the magnitude, its transitions take the reading. The caller converts
//! the magnitude whenever the unit of the walk has changed.

use vstd::prelude::*;

use crate::ladder::neighbours_are_one_rung_apart;
use crate::unit::Unit;

verus! {

/// The number of rounds after which a walk ends wherever it stands.
pub const MAX_ROUNDS: u8 = 10;

/// The state of a walk.
#[derive(Copy, Clone, Debug, PartialEq, Eq, Structural)]
pub enum Walk {
    /// A round begins: the magnitude is expressed in `unit`, and the reading
    /// asked for is whether it is below one. `rounds` rounds are over.
    Measure { unit: Unit, rounds: u8 },
    /// The magnitude is not below one in `unit`: the reading asked for is
    /// whether it is at least one when expressed in `candidate`.
    Probe { unit: Unit, candidate: Unit, rounds: u8 },
    /// The walk is over: the magnitude is to be expressed in `unit`.
    Done { unit: Unit },
}

/// The state after a round that led to `unit`, when `rounds` rounds were over
/// before it: the next round, or the end where that was the last one allowed.
pub open spec fn after_round(unit: Unit, rounds: u8) -> Walk {
    if rounds + 1 < MAX_ROUNDS {
        Walk::Measure { unit, rounds: (rounds + 1) as u8 }
    } else {
        Walk::Done { unit }
    }
}

impl Walk {
    /// The state in which the walk of a magnitude expressed in `unit` begins.
    pub open spec fn spec_start(unit: Unit) -> Walk {
        Walk::Measure { unit, rounds: 0 }
    }

    /// Begins the walk of a magnitude expressed in `unit`.
    #[verifier::when_used_as_spec(spec_start)]
    pub fn start(unit: Unit) -> (walk: Walk)
        ensures
            walk == Walk::spec_start(unit),
    {
        Walk::Measure { unit, rounds: 0 }
    }

    /// The unit in which the magnitude is expressed in a state, for use in
    /// contracts.
    pub open spec fn spec_unit(&self) -> Unit {
        match *self {
            Walk::Measure { unit, rounds } => unit,
            Walk::Probe { unit, candidate, rounds } => unit,
            Walk::Done { unit } => unit,
        }
    }

    /// The unit in which the magnitude is expressed in this state. While a
    /// candidate is probed that is still the unit below the candidate.
    #[verifier::when_used_as_spec(spec_unit)]
    pub fn unit(&self) -> (unit: Unit)
        ensures
            unit == self.spec_unit(),
    {
        match self {
            Walk::Measure { unit, rounds: _ } => *unit,
            Walk::Probe { unit, candidate: _, rounds: _ } => *unit,
            Walk::Done { unit } => *unit,
        }
    }

    /// Whether the walk is over.
    pub fn is_done(&self) -> (done: bool)
        ensures
            done == (*self is Done),
    {
        match self {
            Walk::Done { unit: _ } => true,
            _ => false,
        }
    }

    /// Whether a state can be reached from the start of a walk: fewer than
    /// ten rounds are over, and a candidate is the greater neighbour of the
    /// unit it is probed from.
    pub open spec fn reachable(&self) -> bool {
        match *self {
            Walk::Measure { unit, rounds } => rounds < MAX_ROUNDS,
            Walk::Probe { unit, candidate, rounds } => rounds < MAX_ROUNDS
                && unit.spec_greater_unit() == Some(candidate),
            Walk::Done { unit } => true,
        }
    }

    /// The state that follows on a reading.
    ///
    /// In `Measure` the reading is whether the magnitude is below one. If it
    /// is, the walk goes down a rung and the round is over, or it ends where
    /// there is no smaller unit. If it is not, the greater neighbour becomes
    /// the candidate, or the walk ends where there is none. In `Probe` the
    /// reading is whether the magnitude is at least one in the candidate. If it
    /// is, the walk goes up to the candidate and the round is over; if not, it
    /// ends in the unit it stands in. A walk that is over stays so.
    pub open spec fn next(self, reading: bool) -> Walk {
        match self {
            Walk::Measure { unit, rounds } => if reading {
                match unit.spec_smaller_unit() {
                    Some(smaller) => after_round(smaller, rounds),
                    None => Walk::Done { unit },
                }
            } else {
                match unit.spec_greater_unit() {
                    Some(greater) => Walk::Probe { unit, candidate: greater, rounds },
                    None => Walk::Done { unit },
                }
            },
            Walk::Probe { unit, candidate, rounds } => if reading {
                after_round(candidate, rounds)
            } else {
                Walk::Done { unit }
            },
            Walk::Done { unit } => Walk::Done { unit },
        }
    }

    /// Takes a reading and moves to the state that follows on it.
    pub fn advance(self, reading: bool) -> (walk: Walk)
        ensures
            walk == self.next(reading),
    {
        match self {
            Walk::Measure { unit, rounds } => {
                if reading {
                    match unit.smaller_unit() {
                        Some(smaller) => finish_round(smaller, rounds),
                        None => Walk::Done { unit },
                    }
                } else {
                    match unit.greater_unit() {
                        Some(greater) => Walk::Probe { unit, candidate: greater, rounds },
                        None => Walk::Done { unit },
                    }
                }
            },
            Walk::Probe { unit, candidate, rounds } => {
                if reading {
                    finish_round(candidate, rounds)
                } else {
                    Walk::Done { unit }
                }
            },
            Walk::Done { unit } => Walk::Done { unit },
        }
    }
}

/// Counts a round that led to `unit`.
fn finish_round(unit: Unit, rounds: u8) -> (walk: Walk)
    ensures
        walk == after_round(unit, rounds),
{
    if rounds < MAX_ROUNDS - 1 {
        Walk::Measure { unit, rounds: rounds + 1 }
    } else {
        Walk::Done { unit }
    }
}

/// The state in which a walk stands after a sequence of readings, taken in
/// order.
pub open spec fn run(walk: Walk, readings: Seq<bool>) -> Walk
    decreases readings.len(),
{
    if readings.len() == 0 {
        walk
    } else {
        run(walk.next(readings.first()), readings.drop_first())
    }
}

/// The number of readings after which a walk is over at the latest: two for
/// each round that is left, one less while a candidate is probed.
pub open spec fn readings_left(walk: Walk) -> nat {
    match walk {
        Walk::Measure { unit, rounds } => if rounds < MAX_ROUNDS {
            (2 * (MAX_ROUNDS - rounds)) as nat
        } else {
            0
        },
        Walk::Probe { unit, candidate, rounds } => if rounds < MAX_ROUNDS {
            (2 * (MAX_ROUNDS - rounds) - 1) as nat
        } else {
            0
        },
        Walk::Done { unit } => 0,
    }
}

/// A reading leads from a reachable state to a reachable state, keeps the
/// walk in the system it began in, moves it by at most one rung, and uses up
/// one of the readings that are left.
pub proof fn reading_moves_one_rung(walk: Walk, reading: bool)
    requires
        walk.reachable(),
    ensures
        walk.next(reading).reachable(),
        walk.next(reading).spec_unit().spec_system() == walk.spec_unit().spec_system(),
        walk.next(reading).spec_unit() == walk.spec_unit() || Some(walk.next(reading).spec_unit())
            == walk.spec_unit().spec_smaller_unit() || Some(walk.next(reading).spec_unit())
            == walk.spec_unit().spec_greater_unit(),
        !(walk is Done) ==> readings_left(walk.next(reading)) < readings_left(walk),
{
    neighbours_are_one_rung_apart(walk.spec_unit());
}

/// A walk is over after at most twenty readings, that is ten rounds,
/// whatever the readings are, and it ends in the system it began in.
pub proof fn walk_ends_within_ten_rounds(unit: Unit, readings: Seq<bool>)
    requires
        readings.len() >= 2 * MAX_ROUNDS,
    ensures
        run(Walk::spec_start(unit), readings) is Done,
        run(Walk::spec_start(unit), readings).spec_unit().spec_system() == unit.spec_system(),
{
    run_uses_up_readings(Walk::spec_start(unit), readings);
}

/// Running a reachable state on at least as many readings as are left ends
/// the walk, in the system it stands in.
proof fn run_uses_up_readings(walk: Walk, readings: Seq<bool>)
    requires
        walk.reachable(),
        readings.len() >= readings_left(walk),
    ensures
        run(walk, readings) is Done,
        run(walk, readings).spec_unit().spec_system() == walk.spec_unit().spec_system(),
    decreases readings.len(),
{
    if readings.len() > 0 {
        reading_moves_one_rung(walk, readings.first());
        run_uses_up_readings(walk.next(readings.first()), readings.drop_first());
    }
}

/// A magnitude that is not below one, and is not at least one in the greater
/// unit, keeps its unit: the walk is over after these two readings. So is it
/// at once where no greater unit exists.
pub proof fn fitting_magnitude_keeps_its_unit(unit: Unit)
    ensures
        run(Walk::spec_start(unit), seq![false, false]) == (Walk::Done { unit }),
        unit.spec_greater_unit() is None ==> Walk::spec_start(unit).next(false) == (Walk::Done {
            unit,
        }),
{
    reveal_with_fuel(run, 3);
    let readings = seq![false, false];
    assert(readings.drop_first() =~= seq![false]);
    assert(readings.drop_first().drop_first() =~= Seq::<bool>::empty());
}

/// A magnitude below one in the first unit of a ladder stays there: the walk
/// is over after the first reading.
pub proof fn small_magnitude_stops_at_the_first_rung(unit: Unit)
    requires
        unit.spec_smaller_unit() is None,
    ensures
        Walk::spec_start(unit).next(true) == (Walk::Done { unit }),
{
}

} // verus!
