use length::AstronomicUnit;
use length::ImperialUnit;
use length::MetricUnit;
use length::Unit;
use length::Walk;
use length::MAX_ROUNDS;

const METER: Unit = Unit::Metric(MetricUnit::Meter);
const DECIMETER: Unit = Unit::Metric(MetricUnit::Decimeter);
const DECAMETER: Unit = Unit::Metric(MetricUnit::Decameter);
const YOCTOMETER: Unit = Unit::Metric(MetricUnit::Yoctometer);
const YOTTAMETER: Unit = Unit::Metric(MetricUnit::Yottameter);

fn run(unit: Unit, readings: &[bool]) -> Walk {
    let mut walk = Walk::start(unit);
    for reading in readings {
        walk = walk.advance(*reading);
    }
    walk
}

#[test]
fn at_most_ten_rounds() {
    assert_eq!(MAX_ROUNDS, 10);
}

#[test]
fn a_walk_starts_by_measuring() {
    let walk = Walk::start(METER);
    assert_eq!(walk, Walk::Measure { unit: METER, rounds: 0 });
    assert_eq!(walk.unit(), METER);
    assert!(!walk.is_done());
}

#[test]
fn below_one_goes_down_a_rung() {
    let walk = Walk::start(METER).advance(true);
    assert_eq!(walk, Walk::Measure { unit: DECIMETER, rounds: 1 });
    assert_eq!(walk.unit(), DECIMETER);
}

#[test]
fn below_one_at_the_first_rung_ends_the_walk() {
    let walk = Walk::start(YOCTOMETER).advance(true);
    assert_eq!(walk, Walk::Done { unit: YOCTOMETER });
    assert!(walk.is_done());
    assert_eq!(
        Walk::start(Unit::Imperial(ImperialUnit::Inch)).advance(true),
        Walk::Done { unit: Unit::Imperial(ImperialUnit::Inch) }
    );
    assert_eq!(
        Walk::start(Unit::Astronomic(AstronomicUnit::AstronomicalUnit)).advance(true),
        Walk::Done { unit: Unit::Astronomic(AstronomicUnit::AstronomicalUnit) }
    );
}

#[test]
fn at_least_one_probes_the_greater_unit() {
    let walk = Walk::start(METER).advance(false);
    assert_eq!(walk, Walk::Probe { unit: METER, candidate: DECAMETER, rounds: 0 });
    assert_eq!(walk.unit(), METER);
    assert!(!walk.is_done());
}

#[test]
fn at_least_one_at_the_last_rung_ends_the_walk() {
    assert_eq!(Walk::start(YOTTAMETER).advance(false), Walk::Done { unit: YOTTAMETER });
    assert_eq!(
        Walk::start(Unit::Imperial(ImperialUnit::Mile)).advance(false),
        Walk::Done { unit: Unit::Imperial(ImperialUnit::Mile) }
    );
    assert_eq!(
        Walk::start(Unit::Astronomic(AstronomicUnit::Megaparsec)).advance(false),
        Walk::Done { unit: Unit::Astronomic(AstronomicUnit::Megaparsec) }
    );
}

#[test]
fn a_probe_that_holds_goes_up_a_rung() {
    let walk = run(METER, &[false, true]);
    assert_eq!(walk, Walk::Measure { unit: DECAMETER, rounds: 1 });
}

#[test]
fn a_probe_that_fails_ends_the_walk_where_it_stands() {
    let walk = run(METER, &[false, false]);
    assert_eq!(walk, Walk::Done { unit: METER });
}

#[test]
fn a_walk_that_is_over_stays_over() {
    let done = Walk::Done { unit: METER };
    assert_eq!(done.advance(true), done);
    assert_eq!(done.advance(false), done);
    assert_eq!(done.unit(), METER);
}

#[test]
fn five_thousand_meters_walk_up_to_the_kilometer() {
    // 5000 m, 500 dam, 50 hm, 5 km hold; 0.005 Mm does not.
    let walk = run(METER, &[false, true, false, true, false, true, false, false]);
    assert_eq!(walk, Walk::Done { unit: Unit::Metric(MetricUnit::Kilometer) });
}

#[test]
fn going_down_stops_after_ten_rounds() {
    let mut walk = Walk::start(Unit::Metric(MetricUnit::Yottameter));
    let mut readings = 0;
    while !walk.is_done() {
        walk = walk.advance(true);
        readings += 1;
    }
    assert_eq!(readings, 10);
    // Ten rungs below the yottameter.
    assert_eq!(walk, Walk::Done { unit: Unit::Metric(MetricUnit::Meter) });
}

#[test]
fn going_up_stops_after_ten_rounds() {
    let mut walk = Walk::start(YOCTOMETER);
    let mut readings = 0;
    while !walk.is_done() {
        let reading = matches!(walk, Walk::Probe { .. });
        walk = walk.advance(reading);
        readings += 1;
    }
    assert_eq!(readings, 20);
    assert_eq!(walk, Walk::Done { unit: METER });
}

#[test]
fn the_tenth_round_is_the_last() {
    let ninth = Walk::Measure { unit: METER, rounds: 9 };
    assert_eq!(ninth.advance(true), Walk::Done { unit: DECIMETER });
    let probing = Walk::Probe { unit: METER, candidate: DECAMETER, rounds: 9 };
    assert_eq!(probing.advance(true), Walk::Done { unit: DECAMETER });
    assert_eq!(probing.advance(false), Walk::Done { unit: METER });
    let eighth = Walk::Measure { unit: METER, rounds: 8 };
    assert_eq!(eighth.advance(true), Walk::Measure { unit: DECIMETER, rounds: 9 });
}

#[test]
fn every_walk_is_over_after_twenty_readings() {
    let starts = [
        METER,
        YOCTOMETER,
        YOTTAMETER,
        Unit::Imperial(ImperialUnit::Foot),
        Unit::Astronomic(AstronomicUnit::Lightday),
    ];
    for start in starts {
        for pattern in 0u32..1024 {
            let mut walk = Walk::start(start);
            for turn in 0..20 {
                let reading = (pattern >> (turn % 10)) & 1 == 1;
                walk = walk.advance(reading);
                assert!(walk.unit().system() == start.system());
            }
            assert!(walk.is_done());
        }
    }
}

#[test]
fn a_walk_moves_one_rung_at_a_time() {
    let mut walk = Walk::start(Unit::Astronomic(AstronomicUnit::Lightyear));
    for reading in [true, true, false, true, false, true, false, false] {
        let before = walk.unit();
        walk = walk.advance(reading);
        let after = walk.unit();
        assert!(
            after == before
                || Some(after) == before.smaller_unit()
                || Some(after) == before.greater_unit()
        );
    }
    assert!(walk.is_done());
}
