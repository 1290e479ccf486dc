//! The written symbol of each unit, and the unit that a symbol stands for.

use vstd::prelude::*;

use crate::unit::{AstronomicUnit, ImperialUnit, MetricUnit, Unit};

verus! {

impl AstronomicUnit {
    /// The symbol of an astronomic unit, as a sequence of characters.
    pub open spec fn symbol(&self) -> Seq<char> {
        match *self {
            AstronomicUnit::AstronomicalUnit => "au"@,
            AstronomicUnit::Lightsecond => "ls"@,
            AstronomicUnit::Lightminute => "lm"@,
            AstronomicUnit::Lighthour => "lh"@,
            AstronomicUnit::Lightday => "ld"@,
            AstronomicUnit::Lightyear => "ly"@,
            AstronomicUnit::Parsec => "pc"@,
            AstronomicUnit::Kiloparsec => "kpc"@,
            AstronomicUnit::Megaparsec => "Mpc"@,
        }
    }

    /// Writes the symbol of the unit.
    pub fn to_string(&self) -> (text: String)
        ensures
            text@ == self.symbol(),
    {
        match self {
            AstronomicUnit::AstronomicalUnit => String::from_str("au"),
            AstronomicUnit::Lightsecond => String::from_str("ls"),
            AstronomicUnit::Lightminute => String::from_str("lm"),
            AstronomicUnit::Lighthour => String::from_str("lh"),
            AstronomicUnit::Lightday => String::from_str("ld"),
            AstronomicUnit::Lightyear => String::from_str("ly"),
            AstronomicUnit::Parsec => String::from_str("pc"),
            AstronomicUnit::Kiloparsec => String::from_str("kpc"),
            AstronomicUnit::Megaparsec => String::from_str("Mpc"),
        }
    }
}

impl ImperialUnit {
    /// The symbol of an imperial unit, as a sequence of characters.
    pub open spec fn symbol(&self) -> Seq<char> {
        match *self {
            ImperialUnit::Inch => "in"@,
            ImperialUnit::Foot => "ft"@,
            ImperialUnit::Yard => "yd"@,
            ImperialUnit::Mile => "mi"@,
        }
    }

    /// Writes the symbol of the unit.
    pub fn to_string(&self) -> (text: String)
        ensures
            text@ == self.symbol(),
    {
        match self {
            ImperialUnit::Inch => String::from_str("in"),
            ImperialUnit::Foot => String::from_str("ft"),
            ImperialUnit::Yard => String::from_str("yd"),
            ImperialUnit::Mile => String::from_str("mi"),
        }
    }
}

impl MetricUnit {
    /// The symbol of a metric unit, as a sequence of characters.
    pub open spec fn symbol(&self) -> Seq<char> {
        match *self {
            MetricUnit::Yoctometer => "ym"@,
            MetricUnit::Zeptometer => "zm"@,
            MetricUnit::Attometer => "am"@,
            MetricUnit::Femtometer => "fm"@,
            MetricUnit::Picometer => "pm"@,
            MetricUnit::Nanometer => "nm"@,
            MetricUnit::Micrometer => "µm"@,
            MetricUnit::Millimeter => "mm"@,
            MetricUnit::Centimeter => "cm"@,
            MetricUnit::Decimeter => "dm"@,
            MetricUnit::Meter => "m"@,
            MetricUnit::Decameter => "dam"@,
            MetricUnit::Hectometer => "hm"@,
            MetricUnit::Kilometer => "km"@,
            MetricUnit::Megameter => "Mm"@,
            MetricUnit::Gigameter => "Gm"@,
            MetricUnit::Terameter => "Tm"@,
            MetricUnit::Petameter => "Pm"@,
            MetricUnit::Exameter => "Em"@,
            MetricUnit::Zettameter => "Zm"@,
            MetricUnit::Yottameter => "Ym"@,
        }
    }

    /// Writes the symbol of the unit.
    pub fn to_string(&self) -> (text: String)
        ensures
            text@ == self.symbol(),
    {
        match self {
            MetricUnit::Yoctometer => String::from_str("ym"),
            MetricUnit::Zeptometer => String::from_str("zm"),
            MetricUnit::Attometer => String::from_str("am"),
            MetricUnit::Femtometer => String::from_str("fm"),
            MetricUnit::Picometer => String::from_str("pm"),
            MetricUnit::Nanometer => String::from_str("nm"),
            MetricUnit::Micrometer => String::from_str("µm"),
            MetricUnit::Millimeter => String::from_str("mm"),
            MetricUnit::Centimeter => String::from_str("cm"),
            MetricUnit::Decimeter => String::from_str("dm"),
            MetricUnit::Meter => String::from_str("m"),
            MetricUnit::Decameter => String::from_str("dam"),
            MetricUnit::Hectometer => String::from_str("hm"),
            MetricUnit::Kilometer => String::from_str("km"),
            MetricUnit::Megameter => String::from_str("Mm"),
            MetricUnit::Gigameter => String::from_str("Gm"),
            MetricUnit::Terameter => String::from_str("Tm"),
            MetricUnit::Petameter => String::from_str("Pm"),
            MetricUnit::Exameter => String::from_str("Em"),
            MetricUnit::Zettameter => String::from_str("Zm"),
            MetricUnit::Yottameter => String::from_str("Ym"),
        }
    }
}

/// Whether two texts hold the same characters.
fn same_text(left: &str, right: &str) -> (same: bool)
    ensures
        same == (left@ == right@),
{
    let length = left.unicode_len();
    if right.unicode_len() != length {
        return false;
    }
    let mut at: usize = 0;
    while at < length
        invariant
            at <= length,
            length == left@.len(),
            length == right@.len(),
            forall|i: int| 0 <= i < at ==> left@[i] == right@[i],
        decreases length - at,
    {
        if left.get_char(at) != right.get_char(at) {
            return false;
        }
        at += 1;
    }
    assert(left@ =~= right@);
    true
}

/// The unit that `text` is the symbol of, if it is the symbol of any.
pub open spec fn unit_with_symbol(text: Seq<char>) -> Option<Unit> {
    if exists|unit: Unit| unit.symbol() == text {
        Some(choose|unit: Unit| unit.symbol() == text)
    } else {
        None
    }
}

/// What `Unit::from_str` answers to a text that is no symbol.
pub open spec fn unknown_symbol_message() -> Seq<char> {
    "unable to parse string to Unit-enum."@
}

impl Unit {
    /// The symbol of a unit, as a sequence of characters.
    pub open spec fn symbol(&self) -> Seq<char> {
        match *self {
            Unit::Astronomic(unit) => unit.symbol(),
            Unit::Imperial(unit) => unit.symbol(),
            Unit::Metric(unit) => unit.symbol(),
        }
    }

    /// Writes the symbol of the unit.
    pub fn to_string(&self) -> (text: String)
        ensures
            text@ == self.symbol(),
    {
        match self {
            Unit::Astronomic(unit) => unit.to_string(),
            Unit::Imperial(unit) => unit.to_string(),
            Unit::Metric(unit) => unit.to_string(),
        }
    }

    /// Reads a symbol: the unit whose symbol is exactly `s`, upper and lower
    /// case told apart, or an error where `s` is the symbol of no unit. A text
    /// of more than three characters is refused without being compared.
    pub fn from_str(s: &str) -> (r: Result<Unit, &'static str>)
        ensures
            match r {
                Ok(unit) => unit.symbol() == s@ && unit_with_symbol(s@) == Some(unit),
                Err(message) => unit_with_symbol(s@) is None && message@
                    == unknown_symbol_message(),
            },
    {
        proof {
            symbols_differ_between_units();
        }
        let length = s.unicode_len();
        if length == 0 || length > 3 {
            proof {
                symbols_spelled_out();
            }
            return Err("unable to parse string to Unit-enum.");
        }
        if same_text(s, "au") {
            Ok(Unit::Astronomic(AstronomicUnit::AstronomicalUnit))
        } else if same_text(s, "ls") {
            Ok(Unit::Astronomic(AstronomicUnit::Lightsecond))
        } else if same_text(s, "lm") {
            Ok(Unit::Astronomic(AstronomicUnit::Lightminute))
        } else if same_text(s, "lh") {
            Ok(Unit::Astronomic(AstronomicUnit::Lighthour))
        } else if same_text(s, "ld") {
            Ok(Unit::Astronomic(AstronomicUnit::Lightday))
        } else if same_text(s, "ly") {
            Ok(Unit::Astronomic(AstronomicUnit::Lightyear))
        } else if same_text(s, "pc") {
            Ok(Unit::Astronomic(AstronomicUnit::Parsec))
        } else if same_text(s, "kpc") {
            Ok(Unit::Astronomic(AstronomicUnit::Kiloparsec))
        } else if same_text(s, "Mpc") {
            Ok(Unit::Astronomic(AstronomicUnit::Megaparsec))
        } else if same_text(s, "in") {
            Ok(Unit::Imperial(ImperialUnit::Inch))
        } else if same_text(s, "ft") {
            Ok(Unit::Imperial(ImperialUnit::Foot))
        } else if same_text(s, "yd") {
            Ok(Unit::Imperial(ImperialUnit::Yard))
        } else if same_text(s, "mi") {
            Ok(Unit::Imperial(ImperialUnit::Mile))
        } else if same_text(s, "ym") {
            Ok(Unit::Metric(MetricUnit::Yoctometer))
        } else if same_text(s, "zm") {
            Ok(Unit::Metric(MetricUnit::Zeptometer))
        } else if same_text(s, "am") {
            Ok(Unit::Metric(MetricUnit::Attometer))
        } else if same_text(s, "fm") {
            Ok(Unit::Metric(MetricUnit::Femtometer))
        } else if same_text(s, "pm") {
            Ok(Unit::Metric(MetricUnit::Picometer))
        } else if same_text(s, "nm") {
            Ok(Unit::Metric(MetricUnit::Nanometer))
        } else if same_text(s, "µm") {
            Ok(Unit::Metric(MetricUnit::Micrometer))
        } else if same_text(s, "mm") {
            Ok(Unit::Metric(MetricUnit::Millimeter))
        } else if same_text(s, "cm") {
            Ok(Unit::Metric(MetricUnit::Centimeter))
        } else if same_text(s, "dm") {
            Ok(Unit::Metric(MetricUnit::Decimeter))
        } else if same_text(s, "m") {
            Ok(Unit::Metric(MetricUnit::Meter))
        } else if same_text(s, "dam") {
            Ok(Unit::Metric(MetricUnit::Decameter))
        } else if same_text(s, "hm") {
            Ok(Unit::Metric(MetricUnit::Hectometer))
        } else if same_text(s, "km") {
            Ok(Unit::Metric(MetricUnit::Kilometer))
        } else if same_text(s, "Mm") {
            Ok(Unit::Metric(MetricUnit::Megameter))
        } else if same_text(s, "Gm") {
            Ok(Unit::Metric(MetricUnit::Gigameter))
        } else if same_text(s, "Tm") {
            Ok(Unit::Metric(MetricUnit::Terameter))
        } else if same_text(s, "Pm") {
            Ok(Unit::Metric(MetricUnit::Petameter))
        } else if same_text(s, "Em") {
            Ok(Unit::Metric(MetricUnit::Exameter))
        } else if same_text(s, "Zm") {
            Ok(Unit::Metric(MetricUnit::Zettameter))
        } else if same_text(s, "Ym") {
            Ok(Unit::Metric(MetricUnit::Yottameter))
        } else {
            Err("unable to parse string to Unit-enum.")
        }
    }
}

/// Reading a unit from its symbol, as `Unit::from_str` does.
impl std::str::FromStr for Unit {
    type Err = &'static str;

    fn from_str(s: &str) -> (r: Result<Unit, &'static str>)
        ensures
            match r {
                Ok(unit) => unit.symbol() == s@ && unit_with_symbol(s@) == Some(unit),
                Err(message) => unit_with_symbol(s@) is None && message@
                    == unknown_symbol_message(),
            },
    {
        Unit::from_str(s)
    }
}

/// Spells each symbol out, character by character.
pub proof fn symbols_spelled_out()
    ensures
        "au"@ == seq!['a', 'u'],
        "ls"@ == seq!['l', 's'],
        "lm"@ == seq!['l', 'm'],
        "lh"@ == seq!['l', 'h'],
        "ld"@ == seq!['l', 'd'],
        "ly"@ == seq!['l', 'y'],
        "pc"@ == seq!['p', 'c'],
        "kpc"@ == seq!['k', 'p', 'c'],
        "Mpc"@ == seq!['M', 'p', 'c'],
        "in"@ == seq!['i', 'n'],
        "ft"@ == seq!['f', 't'],
        "yd"@ == seq!['y', 'd'],
        "mi"@ == seq!['m', 'i'],
        "ym"@ == seq!['y', 'm'],
        "zm"@ == seq!['z', 'm'],
        "am"@ == seq!['a', 'm'],
        "fm"@ == seq!['f', 'm'],
        "pm"@ == seq!['p', 'm'],
        "nm"@ == seq!['n', 'm'],
        "µm"@ == seq!['µ', 'm'],
        "mm"@ == seq!['m', 'm'],
        "cm"@ == seq!['c', 'm'],
        "dm"@ == seq!['d', 'm'],
        "m"@ == seq!['m'],
        "dam"@ == seq!['d', 'a', 'm'],
        "hm"@ == seq!['h', 'm'],
        "km"@ == seq!['k', 'm'],
        "Mm"@ == seq!['M', 'm'],
        "Gm"@ == seq!['G', 'm'],
        "Tm"@ == seq!['T', 'm'],
        "Pm"@ == seq!['P', 'm'],
        "Em"@ == seq!['E', 'm'],
        "Zm"@ == seq!['Z', 'm'],
        "Ym"@ == seq!['Y', 'm'],
{
    reveal_strlit("au");
    reveal_strlit("ls");
    reveal_strlit("lm");
    reveal_strlit("lh");
    reveal_strlit("ld");
    reveal_strlit("ly");
    reveal_strlit("pc");
    reveal_strlit("kpc");
    reveal_strlit("Mpc");
    reveal_strlit("in");
    reveal_strlit("ft");
    reveal_strlit("yd");
    reveal_strlit("mi");
    reveal_strlit("ym");
    reveal_strlit("zm");
    reveal_strlit("am");
    reveal_strlit("fm");
    reveal_strlit("pm");
    reveal_strlit("nm");
    reveal_strlit("µm");
    reveal_strlit("mm");
    reveal_strlit("cm");
    reveal_strlit("dm");
    reveal_strlit("m");
    reveal_strlit("dam");
    reveal_strlit("hm");
    reveal_strlit("km");
    reveal_strlit("Mm");
    reveal_strlit("Gm");
    reveal_strlit("Tm");
    reveal_strlit("Pm");
    reveal_strlit("Em");
    reveal_strlit("Zm");
    reveal_strlit("Ym");
    assert("au"@ =~= seq!['a', 'u']);
    assert("ls"@ =~= seq!['l', 's']);
    assert("lm"@ =~= seq!['l', 'm']);
    assert("lh"@ =~= seq!['l', 'h']);
    assert("ld"@ =~= seq!['l', 'd']);
    assert("ly"@ =~= seq!['l', 'y']);
    assert("pc"@ =~= seq!['p', 'c']);
    assert("kpc"@ =~= seq!['k', 'p', 'c']);
    assert("Mpc"@ =~= seq!['M', 'p', 'c']);
    assert("in"@ =~= seq!['i', 'n']);
    assert("ft"@ =~= seq!['f', 't']);
    assert("yd"@ =~= seq!['y', 'd']);
    assert("mi"@ =~= seq!['m', 'i']);
    assert("ym"@ =~= seq!['y', 'm']);
    assert("zm"@ =~= seq!['z', 'm']);
    assert("am"@ =~= seq!['a', 'm']);
    assert("fm"@ =~= seq!['f', 'm']);
    assert("pm"@ =~= seq!['p', 'm']);
    assert("nm"@ =~= seq!['n', 'm']);
    assert("µm"@ =~= seq!['µ', 'm']);
    assert("mm"@ =~= seq!['m', 'm']);
    assert("cm"@ =~= seq!['c', 'm']);
    assert("dm"@ =~= seq!['d', 'm']);
    assert("m"@ =~= seq!['m']);
    assert("dam"@ =~= seq!['d', 'a', 'm']);
    assert("hm"@ =~= seq!['h', 'm']);
    assert("km"@ =~= seq!['k', 'm']);
    assert("Mm"@ =~= seq!['M', 'm']);
    assert("Gm"@ =~= seq!['G', 'm']);
    assert("Tm"@ =~= seq!['T', 'm']);
    assert("Pm"@ =~= seq!['P', 'm']);
    assert("Em"@ =~= seq!['E', 'm']);
    assert("Zm"@ =~= seq!['Z', 'm']);
    assert("Ym"@ =~= seq!['Y', 'm']);
}

/// No two units share a symbol: the symbols of all three systems together
/// hold no duplicate, upper and lower case told apart.
pub proof fn symbols_differ_between_units()
    ensures
        forall|a: Unit, b: Unit| #[trigger] a.symbol() == #[trigger] b.symbol() ==> a == b,
{
    symbols_spelled_out();
    assert forall|a: Unit, b: Unit| #[trigger] a.symbol() == #[trigger] b.symbol() implies a
        == b by {
        let left = a.symbol();
        let right = b.symbol();
        if left == right {
            assert(left.len() == right.len());
            assert(left[0] == right[0]);
            if left.len() > 1 {
                assert(left[1] == right[1]);
            }
        }
    }
}

/// Reading the symbol of a unit gives that unit back, and every symbol has
/// one to three characters.
pub proof fn symbol_reads_back(unit: Unit)
    ensures
        unit_with_symbol(unit.symbol()) == Some(unit),
        1 <= unit.symbol().len() <= 3,
{
    symbols_differ_between_units();
    symbols_spelled_out();
}

} // verus!
