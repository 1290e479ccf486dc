use length::AstronomicUnit;
use length::ImperialUnit;
use length::MetricUnit;
use length::Unit;
use length::UnitSystem;
use length::to_text;
use length::WrittenLength;
use length::LENGTH_PATTERN;

fn read(text: &str) -> Option<(String, Unit)> {
    WrittenLength::new_string(text).map(|length| (length.number, length.unit))
}

fn number_and_unit(number: &str, unit: Unit) -> Option<(String, Unit)> {
    Some((number.to_string(), unit))
}

#[test]
fn two_meters() {
    let length = WrittenLength::new_string("2m").unwrap();
    assert_eq!(length.number, "2");
    assert_eq!(length.number.parse::<f64>(), Ok(2.0));
    assert_eq!(length.unit, Unit::Metric(MetricUnit::Meter));
    assert_eq!(length.get_original_string(), "2m");
    assert_eq!(length.original_string, "2m");
}

#[test]
fn twenty_three_and_a_half_kilometers() {
    let length = WrittenLength::new_string("23.5 km").unwrap();
    assert_eq!(length.number, "23.5");
    assert_eq!(length.number.parse::<f64>(), Ok(23.5));
    assert_eq!(length.unit, Unit::Metric(MetricUnit::Kilometer));
    assert_eq!(length.get_original_string(), "23.5 km");
}

#[test]
fn lightyears_are_astronomic() {
    let length = WrittenLength::new_string("2.3 ly").unwrap();
    assert_eq!(length.number.parse::<f64>(), Ok(2.3));
    assert_eq!(length.unit, Unit::Astronomic(AstronomicUnit::Lightyear));
    assert!(length.unit.system() == UnitSystem::Astronomic);
}

#[test]
fn unknown_letters_give_nothing() {
    assert!(WrittenLength::new_string("5 xyz").is_none());
    assert!(WrittenLength::new_string("5 KM").is_none());
    assert!(WrittenLength::new_string("5 k").is_none());
    assert!(WrittenLength::new_string("5 mmm").is_none());
}

#[test]
fn every_symbol_is_read_after_a_number() {
    let mut units = Vec::new();
    for first in [
        Unit::Astronomic(AstronomicUnit::AstronomicalUnit),
        Unit::Imperial(ImperialUnit::Inch),
        Unit::Metric(MetricUnit::Yoctometer),
    ] {
        let mut next = Some(first);
        while let Some(unit) = next {
            units.push(unit);
            next = unit.greater_unit();
        }
    }
    assert_eq!(units.len(), 34);
    for unit in units {
        let text = format!("12.75 {}", unit.to_string());
        assert_eq!(read(&text), number_and_unit("12.75", unit));
        let close = format!("7{}", unit.to_string());
        assert_eq!(read(&close), number_and_unit("7", unit));
    }
}

#[test]
fn the_micro_sign_is_read_as_a_letter() {
    assert_eq!(
        read("5 \u{b5}m"),
        number_and_unit("5", Unit::Metric(MetricUnit::Micrometer))
    );
    assert!(WrittenLength::new_string("5 \u{b5}").is_none());
    // The Greek letter mu is no letter of a symbol.
    assert!(WrittenLength::new_string("5 \u{3bc}m").is_none());
}

#[test]
fn white_space_may_stand_before_between_and_after() {
    let mile = Unit::Imperial(ImperialUnit::Mile);
    assert_eq!(read("  3 mi"), number_and_unit("3", mile));
    assert_eq!(read("3   mi"), number_and_unit("3", mile));
    assert_eq!(read("3 mi  "), number_and_unit("3", mile));
    assert_eq!(read("\t3\tmi\n"), number_and_unit("3", mile));
    assert_eq!(read("\r\n 3.25 \u{b}\u{c}mi \r\n"), number_and_unit("3.25", mile));
    assert_eq!(read("\u{a0}3\u{2003}mi\u{3000}"), number_and_unit("3", mile));
    assert_eq!(read("\u{85}3\u{1680}mi\u{2028}\u{2029}"), number_and_unit("3", mile));
    assert_eq!(read("\u{202f}3\u{205f}mi\u{200a}"), number_and_unit("3", mile));
}

#[test]
fn characters_that_only_look_like_space_are_refused() {
    // The zero width space and the Mongolian vowel separator.
    assert!(WrittenLength::new_string("3\u{200b}mi").is_none());
    assert!(WrittenLength::new_string("3\u{180e}mi").is_none());
    assert!(WrittenLength::new_string("3\u{feff}mi").is_none());
}

#[test]
fn the_original_text_is_kept_with_its_white_space() {
    let length = WrittenLength::new_string("  42.0  km \n").unwrap();
    assert_eq!(length.number, "42.0");
    assert_eq!(length.unit, Unit::Metric(MetricUnit::Kilometer));
    assert_eq!(length.get_original_string(), "  42.0  km \n");
}

#[test]
fn the_number_is_unsigned_without_exponent() {
    let texts =
        ["-5m", "+5m", "5e3m", "5E3 m", "1e3", "0x10m", "1,5m", "1_000m", "NaN m", "inf m"];
    for text in texts {
        assert!(WrittenLength::new_string(text).is_none());
    }
}

#[test]
fn a_point_needs_digits_on_both_sides() {
    for text in ["5.m", ".5m", "5. m", ". m", "1.2.3m", "1..2m", ".m"] {
        assert!(WrittenLength::new_string(text).is_none());
    }
    assert_eq!(
        read("0.5m"),
        number_and_unit("0.5", Unit::Metric(MetricUnit::Meter))
    );
    assert_eq!(
        read("007.250m"),
        number_and_unit("007.250", Unit::Metric(MetricUnit::Meter))
    );
}

#[test]
fn number_and_letters_are_both_needed() {
    for text in ["", " ", "5", "5 ", "m", " km", "km 5", "5 5", "m5", "5 m 5", "5 m m", "5m5m"] {
        assert!(WrittenLength::new_string(text).is_none());
    }
}

#[test]
fn nothing_may_stand_between_the_two_parts_but_white_space() {
    for text in ["5-m", "5_m", "5/m", "5 (m)", "5 m.", "5 m,", "5\u{0}m", "1 2 m", "12 3.4m"] {
        assert!(WrittenLength::new_string(text).is_none());
    }
}

#[test]
fn more_than_three_letters_give_nothing() {
    assert!(WrittenLength::new_string("5 kmkm").is_none());
    assert!(WrittenLength::new_string("5 mmmm").is_none());
    assert!(WrittenLength::new_string("5 dama").is_none());
}

#[test]
fn digits_of_other_scripts_are_no_digits() {
    // Arabic-Indic and fullwidth digits.
    assert!(WrittenLength::new_string("\u{661}m").is_none());
    assert!(WrittenLength::new_string("\u{ff15} m").is_none());
}

#[test]
fn long_numbers_are_kept_digit_by_digit() {
    let digits = "123456789012345678901234567890.000000000000000000001";
    let text = format!("{} Gm", digits);
    let length = WrittenLength::new_string(&text).unwrap();
    assert_eq!(length.number, digits);
    assert_eq!(length.unit, Unit::Metric(MetricUnit::Gigameter));
}

#[test]
fn test_new_string() {
    let one_m = WrittenLength::new_string("1m").unwrap();
    assert_eq!(one_m.unit, Unit::Metric(MetricUnit::Meter));
    assert_eq!(one_m.number.parse::<f64>().unwrap(), 1.0);

    let km_test = WrittenLength::new_string("23.5 km").unwrap();
    assert_eq!(km_test.unit, Unit::Metric(MetricUnit::Kilometer));
    assert_eq!(km_test.number.parse::<f64>().unwrap(), 23.5);

    let ly_test = WrittenLength::new_string("2.3 ly").unwrap();
    assert_eq!(ly_test.unit, Unit::Astronomic(AstronomicUnit::Lightyear));
    assert_eq!(ly_test.number.parse::<f64>().unwrap(), 2.3);
}

#[test]
fn test_get_original_string() {
    let one_m = WrittenLength::new_string("1m").unwrap();
    assert_eq!(one_m.get_original_string(), "1m");

    let km_test = WrittenLength::new_string("23.5 km").unwrap();
    assert_eq!(km_test.get_original_string(), "23.5 km");

    let ly_test = WrittenLength::new_string("2.3 ly").unwrap();
    assert_eq!(ly_test.get_original_string(), "2.3 ly");
}

#[test]
fn a_copy_holds_the_same_parts() {
    let length = WrittenLength::new_string(" 0.75 mi ").unwrap();
    let copy = length.clone();
    assert_eq!(copy.number, "0.75");
    assert_eq!(copy.unit, Unit::Imperial(ImperialUnit::Mile));
    assert_eq!(copy.get_original_string(), " 0.75 mi ");
    assert_eq!(length.get_original_string(), " 0.75 mi ");
}

#[test]
fn the_pattern_compiles_and_is_anchored() {
    assert!(LENGTH_PATTERN.starts_with('^'));
    assert!(LENGTH_PATTERN.ends_with('$'));
    let pattern = regex::Regex::new(LENGTH_PATTERN).unwrap();
    assert_eq!(pattern.captures_len(), 4);
    assert!(pattern.is_match("7 km"));
    assert!(!pattern.is_match("about 7 km"));
    assert!(!pattern.is_match("7 km or so"));
}

#[test]
fn a_length_is_written_as_number_space_symbol() {
    assert_eq!(to_text("7", Unit::Metric(MetricUnit::Kilometer)), "7 km");
    assert_eq!(to_text("0.5", Unit::Astronomic(AstronomicUnit::Megaparsec)), "0.5 Mpc");
    assert_eq!(to_text("10", Unit::Metric(MetricUnit::Micrometer)), "10 \u{b5}m");
    assert_eq!(to_text("12", Unit::Imperial(ImperialUnit::Inch)), "12 in");
    assert_eq!(to_text("", Unit::Metric(MetricUnit::Meter)), " m");
    assert_eq!(to_text("-1.5", Unit::Metric(MetricUnit::Meter)), "-1.5 m");
}

#[test]
fn what_is_written_reads_back() {
    let mut units = Vec::new();
    for first in [
        Unit::Astronomic(AstronomicUnit::AstronomicalUnit),
        Unit::Imperial(ImperialUnit::Inch),
        Unit::Metric(MetricUnit::Yoctometer),
    ] {
        let mut next = Some(first);
        while let Some(unit) = next {
            units.push(unit);
            next = unit.greater_unit();
        }
    }
    for unit in units {
        for number in ["0", "7", "23.5", "1000000000000000000000", "0.000001"] {
            let text = to_text(number, unit);
            let length = WrittenLength::new_string(&text).unwrap();
            assert_eq!(length.number, number);
            assert_eq!(length.unit, unit);
            assert_eq!(length.get_original_string(), text);
        }
    }
}
