use length::AstronomicUnit;
use length::ImperialUnit;
use length::MetricUnit;
use length::Unit;

fn symbols() -> Vec<(Unit, &'static str)> {
    vec![
        (Unit::Astronomic(AstronomicUnit::AstronomicalUnit), "au"),
        (Unit::Astronomic(AstronomicUnit::Lightsecond), "ls"),
        (Unit::Astronomic(AstronomicUnit::Lightminute), "lm"),
        (Unit::Astronomic(AstronomicUnit::Lighthour), "lh"),
        (Unit::Astronomic(AstronomicUnit::Lightday), "ld"),
        (Unit::Astronomic(AstronomicUnit::Lightyear), "ly"),
        (Unit::Astronomic(AstronomicUnit::Parsec), "pc"),
        (Unit::Astronomic(AstronomicUnit::Kiloparsec), "kpc"),
        (Unit::Astronomic(AstronomicUnit::Megaparsec), "Mpc"),
        (Unit::Imperial(ImperialUnit::Inch), "in"),
        (Unit::Imperial(ImperialUnit::Foot), "ft"),
        (Unit::Imperial(ImperialUnit::Yard), "yd"),
        (Unit::Imperial(ImperialUnit::Mile), "mi"),
        (Unit::Metric(MetricUnit::Yoctometer), "ym"),
        (Unit::Metric(MetricUnit::Zeptometer), "zm"),
        (Unit::Metric(MetricUnit::Attometer), "am"),
        (Unit::Metric(MetricUnit::Femtometer), "fm"),
        (Unit::Metric(MetricUnit::Picometer), "pm"),
        (Unit::Metric(MetricUnit::Nanometer), "nm"),
        (Unit::Metric(MetricUnit::Micrometer), "\u{b5}m"),
        (Unit::Metric(MetricUnit::Millimeter), "mm"),
        (Unit::Metric(MetricUnit::Centimeter), "cm"),
        (Unit::Metric(MetricUnit::Decimeter), "dm"),
        (Unit::Metric(MetricUnit::Meter), "m"),
        (Unit::Metric(MetricUnit::Decameter), "dam"),
        (Unit::Metric(MetricUnit::Hectometer), "hm"),
        (Unit::Metric(MetricUnit::Kilometer), "km"),
        (Unit::Metric(MetricUnit::Megameter), "Mm"),
        (Unit::Metric(MetricUnit::Gigameter), "Gm"),
        (Unit::Metric(MetricUnit::Terameter), "Tm"),
        (Unit::Metric(MetricUnit::Petameter), "Pm"),
        (Unit::Metric(MetricUnit::Exameter), "Em"),
        (Unit::Metric(MetricUnit::Zettameter), "Zm"),
        (Unit::Metric(MetricUnit::Yottameter), "Ym"),
    ]
}

#[test]
fn every_unit_writes_its_symbol() {
    for (unit, symbol) in symbols() {
        assert_eq!(unit.to_string(), symbol);
    }
}

#[test]
fn every_symbol_reads_as_its_unit() {
    for (unit, symbol) in symbols() {
        assert_eq!(Unit::from_str(symbol), Ok(unit));
    }
}

#[test]
fn reading_the_written_symbol_gives_the_unit_back() {
    for (unit, _) in symbols() {
        let written = unit.to_string();
        assert_eq!(Unit::from_str(&written), Ok(unit));
    }
}

#[test]
fn no_symbol_is_used_twice() {
    let table = symbols();
    for (i, (_, left)) in table.iter().enumerate() {
        for (_, right) in table.iter().skip(i + 1) {
            assert_ne!(left, right);
        }
    }
}

#[test]
fn symbols_have_one_to_three_characters() {
    for (unit, _) in symbols() {
        let count = unit.to_string().chars().count();
        assert!(1 <= count && count <= 3);
    }
}

#[test]
fn the_micro_sign_stands_for_micro() {
    let written = Unit::Metric(MetricUnit::Micrometer).to_string();
    assert_eq!(written.chars().collect::<Vec<char>>(), vec!['\u{b5}', 'm']);
    assert_eq!(Unit::from_str("\u{b5}m"), Ok(Unit::Metric(MetricUnit::Micrometer)));
    // The Greek letter mu is another character.
    assert!(Unit::from_str("\u{3bc}m").is_err());
}

#[test]
fn symbols_of_single_systems_agree_with_those_of_units() {
    assert_eq!(AstronomicUnit::Kiloparsec.to_string(), "kpc");
    assert_eq!(AstronomicUnit::Megaparsec.to_string(), "Mpc");
    assert_eq!(ImperialUnit::Mile.to_string(), "mi");
    assert_eq!(ImperialUnit::Inch.to_string(), "in");
    assert_eq!(MetricUnit::Decameter.to_string(), "dam");
    assert_eq!(MetricUnit::Meter.to_string(), "m");
}

#[test]
fn case_tells_symbols_apart() {
    assert_eq!(Unit::from_str("mm"), Ok(Unit::Metric(MetricUnit::Millimeter)));
    assert_eq!(Unit::from_str("Mm"), Ok(Unit::Metric(MetricUnit::Megameter)));
    assert_eq!(Unit::from_str("pm"), Ok(Unit::Metric(MetricUnit::Picometer)));
    assert_eq!(Unit::from_str("Pm"), Ok(Unit::Metric(MetricUnit::Petameter)));
    assert_eq!(Unit::from_str("ym"), Ok(Unit::Metric(MetricUnit::Yoctometer)));
    assert_eq!(Unit::from_str("Ym"), Ok(Unit::Metric(MetricUnit::Yottameter)));
    assert_eq!(Unit::from_str("zm"), Ok(Unit::Metric(MetricUnit::Zeptometer)));
    assert_eq!(Unit::from_str("Zm"), Ok(Unit::Metric(MetricUnit::Zettameter)));
    assert_eq!(Unit::from_str("m"), Ok(Unit::Metric(MetricUnit::Meter)));
    assert_eq!(Unit::from_str("mi"), Ok(Unit::Imperial(ImperialUnit::Mile)));
    assert!(Unit::from_str("KM").is_err());
    assert!(Unit::from_str("M").is_err());
    assert!(Unit::from_str("MM").is_err());
}

#[test]
fn unknown_symbols_are_refused() {
    let texts =
        ["", " ", "xyz", "k", "kmm", "km ", " km", "meter", "mpc", "Kpc", "m\u{b5}", "\u{b5}"];
    for text in texts {
        assert_eq!(Unit::from_str(text), Err("unable to parse string to Unit-enum."));
    }
}

#[test]
fn a_unit_parses_from_text() {
    assert_eq!("ly".parse::<Unit>(), Ok(Unit::Astronomic(AstronomicUnit::Lightyear)));
    assert_eq!("dam".parse::<Unit>(), Ok(Unit::Metric(MetricUnit::Decameter)));
    assert_eq!("furlong".parse::<Unit>(), Err("unable to parse string to Unit-enum."));
}

#[test]
fn long_texts_are_refused() {
    assert!(Unit::from_str("kilometer").is_err());
    assert!(Unit::from_str("mmmm").is_err());
    assert!(Unit::from_str(&"m".repeat(100_000)).is_err());
    assert!(Unit::from_str("\u{b5}\u{b5}\u{b5}\u{b5}").is_err());
}
