//! Written lengths: a number followed by the symbol of a unit.
//!
//! A written length is optional white space, an unsigned decimal number
//! without sign or exponent, optional white space, one to three letters, and
//! optional white space, with nothing before or after. The letters have to be
//! the symbol of a unit. The number is kept as it is written; turning it into
//! a double-precision magnitude is left to the caller.

use vstd::prelude::*;

use crate::symbol::symbols_spelled_out;
use crate::unit::Unit;

verus! {

/// Whether `c` is white space: a character with the Unicode property
/// `White_Space`.
pub open spec fn is_space(c: char) -> bool {
    ||| '\t' <= c <= '\r'
    ||| c == ' '
    ||| c == '\u{85}'
    ||| c == '\u{a0}'
    ||| c == '\u{1680}'
    ||| '\u{2000}' <= c <= '\u{200a}'
    ||| c == '\u{2028}'
    ||| c == '\u{2029}'
    ||| c == '\u{202f}'
    ||| c == '\u{205f}'
    ||| c == '\u{3000}'
}

/// Whether `c` is one of the digits `0` to `9`.
pub open spec fn is_digit(c: char) -> bool {
    '0' <= c <= '9'
}

/// Whether `c` may stand in a symbol: a letter `a` to `z` or `A` to `Z`, or
/// the micro sign.
pub open spec fn is_letter(c: char) -> bool {
    ||| 'a' <= c <= 'z'
    ||| 'A' <= c <= 'Z'
    ||| c == 'µ'
}

/// Whether `text` is white space throughout; it may be empty.
pub open spec fn is_blank(text: Seq<char>) -> bool {
    forall|i: int| 0 <= i < text.len() ==> is_space(#[trigger] text[i])
}

/// Whether `text` is one digit or more, and nothing else.
pub open spec fn is_digits(text: Seq<char>) -> bool {
    &&& text.len() > 0
    &&& forall|i: int| 0 <= i < text.len() ==> is_digit(#[trigger] text[i])
}

/// Whether `text` is an unsigned decimal number: digits, or digits, a point
/// and digits.
pub open spec fn is_number(text: Seq<char>) -> bool {
    ||| is_digits(text)
    ||| exists|point: int|
        0 < point < text.len() - 1 && #[trigger] text[point] == '.' && is_digits(
            text.subrange(0, point),
        ) && is_digits(text.subrange(point + 1, text.len() as int))
}

/// Whether `text` has the shape of a symbol: one to three letters.
pub open spec fn is_letters(text: Seq<char>) -> bool {
    &&& 1 <= text.len() <= 3
    &&& forall|i: int| 0 <= i < text.len() ==> is_letter(#[trigger] text[i])
}

/// Whether `text` is a written length whose number and letters stand at
/// `number_start..number_end` and `letters_start..letters_end`, with white
/// space alone before, between and after them.
pub open spec fn splits_at(
    text: Seq<char>,
    number_start: int,
    number_end: int,
    letters_start: int,
    letters_end: int,
) -> bool {
    &&& 0 <= number_start <= number_end <= letters_start <= letters_end <= text.len()
    &&& is_blank(text.subrange(0, number_start))
    &&& is_number(text.subrange(number_start, number_end))
    &&& is_blank(text.subrange(number_end, letters_start))
    &&& is_letters(text.subrange(letters_start, letters_end))
    &&& is_blank(text.subrange(letters_end, text.len() as int))
}

/// Whether `text` is a written length with the number `number` and the
/// letters `letters`.
pub open spec fn reads_as(text: Seq<char>, number: Seq<char>, letters: Seq<char>) -> bool {
    exists|a: int, b: int, c: int, d: int|
        #![trigger splits_at(text, a, b, c, d)]
        splits_at(text, a, b, c, d) && number == text.subrange(a, b) && letters == text.subrange(
            c,
            d,
        )
}

/// Whether `text` is a written length, whatever its letters are.
pub open spec fn is_written_length(text: Seq<char>) -> bool {
    exists|number: Seq<char>, letters: Seq<char>| reads_as(text, number, letters)
}

/// The pattern of a written length, in the syntax of the `regex` crate.
pub const LENGTH_PATTERN: &'static str = r"^\s*([0-9]+(\.[0-9]+)?)\s*([a-zA-Zµ]{1,3})\s*$";

/// Matches `text` against `pattern`, which has to be `LENGTH_PATTERN`, and
/// hands out the whole match, the number and the letters.
///
/// This is `regex::Regex::captures` on the compiled pattern, with the groups
/// 0, 1 and 3 of the match. The contract claims of it what the pattern says
/// in the syntax of that crate: there is a match exactly where `text` is a
/// written length; the match then spans all of `text`, since the pattern is
/// anchored at both ends; and the two groups are a number and letters at
/// which `text` splits. `\s` is the Unicode property `White_Space`, the two
/// bracketed classes are as written. The pattern compiles, so nothing fails
/// before the match.
#[verifier::external_body]
fn match_pattern(pattern: &str, text: &str) -> (groups: Option<(String, String, String)>)
    requires
        pattern@ == LENGTH_PATTERN@,
    ensures
        match groups {
            Some((whole, number, letters)) => whole@ == text@ && reads_as(
                text@,
                number@,
                letters@,
            ),
            None => !is_written_length(text@),
        },
{
    match regex::Regex::new(pattern).unwrap().captures(text) {
        Some(found) => Some((found[0].to_string(), found[1].to_string(), found[3].to_string())),
        None => None,
    }
}

/// A length as it was written: its number, still as text, and its unit.
#[derive(Debug)]
pub struct WrittenLength {
    /// The unit that the letters are the symbol of.
    pub unit: Unit,
    /// The number as written: digits, with a point and more digits or
    /// without.
    pub number: String,
    /// The text that the length was read from.
    pub original_string: String,
}

impl Clone for WrittenLength {
    fn clone(&self) -> (copy: WrittenLength)
        ensures
            copy.unit == self.unit,
            copy.number@ == self.number@,
            copy.original_string@ == self.original_string@,
    {
        WrittenLength {
            unit: self.unit,
            number: self.number.clone(),
            original_string: self.original_string.clone(),
        }
    }
}

impl WrittenLength {
    /// Reads a written length.
    ///
    /// The result holds the number and the unit of `string`, and `string`
    /// itself, where `string` is a written length whose letters are the symbol
    /// of a unit. It is nothing for every other text.
    pub fn new_string(string: &str) -> (r: Option<WrittenLength>)
        ensures
            match r {
                Some(length) => reads_as(string@, length.number@, length.unit.symbol())
                    && length.original_string@ == string@,
                None => forall|number: Seq<char>, unit: Unit|
                    !#[trigger] reads_as(string@, number, unit.symbol()),
            },
    {
        match match_pattern(LENGTH_PATTERN, string) {
            Some((whole, number, letters)) => {
                match Unit::from_str(letters.as_str()) {
                    Ok(unit) => Some(WrittenLength { unit, number, original_string: whole }),
                    Err(_) => {
                        assert forall|other: Seq<char>, unit: Unit|
                            !#[trigger] reads_as(string@, other, unit.symbol()) by {
                            if reads_as(string@, other, unit.symbol()) {
                                written_length_reads_one_way(
                                    string@,
                                    number@,
                                    letters@,
                                    other,
                                    unit.symbol(),
                                );
                            }
                        }
                        None
                    },
                }
            },
            None => None,
        }
    }

    /// Gets the text that the length was read from.
    pub fn get_original_string(&self) -> (text: String)
        ensures
            text@ == self.original_string@,
    {
        self.original_string.clone()
    }
}

/// The text of a length: the number, one space, and the symbol of the unit.
pub open spec fn text_of(number: Seq<char>, unit: Unit) -> Seq<char> {
    number + seq![' '] + unit.symbol()
}

/// Writes a length: `number`, which is the magnitude as the caller has
/// rendered it, then one space, then the symbol of `unit`, with no padding.
pub fn to_text(number: &str, unit: Unit) -> (text: String)
    ensures
        text@ == text_of(number@, unit),
{
    let mut text = String::from_str(number);
    proof {
        reveal_strlit(" ");
        assert(" "@ =~= seq![' ']);
    }
    text.append(" ");
    text.append(unit.to_string().as_str());
    text
}

/// What is written reads back: the text of an unsigned decimal number and a
/// unit is a written length with that number and the symbol of that unit.
pub proof fn text_reads_back(number: Seq<char>, unit: Unit)
    requires
        is_number(number),
    ensures
        reads_as(text_of(number, unit), number, unit.symbol()),
{
    let text = text_of(number, unit);
    let symbol = unit.symbol();
    let b = number.len() as int;
    let c = b + 1;
    let d = c + symbol.len();
    symbols_spelled_out();
    assert(text.subrange(0, b) =~= number);
    assert(text.subrange(c, d) =~= symbol);
    assert(text.subrange(b, c) =~= seq![' ']);
    assert(is_letters(symbol));
    assert(splits_at(text, 0, b, c, d));
}

/// What a number is made of: it starts with a digit, and holds digits and
/// points only.
proof fn number_holds_digits_and_points(text: Seq<char>)
    requires
        is_number(text),
    ensures
        text.len() > 0,
        is_digit(text[0]),
        forall|i: int| 0 <= i < text.len() ==> is_digit(#[trigger] text[i]) || text[i] == '.',
{
    if !is_digits(text) {
        let point = choose|point: int|
            0 < point < text.len() - 1 && #[trigger] text[point] == '.' && is_digits(
                text.subrange(0, point),
            ) && is_digits(text.subrange(point + 1, text.len() as int));
        let before = text.subrange(0, point);
        let after = text.subrange(point + 1, text.len() as int);
        assert(text[0] == before[0]);
        assert forall|i: int| 0 <= i < text.len() implies is_digit(#[trigger] text[i]) || text[i]
            == '.' by {
            if i < point {
                assert(text[i] == before[i]);
            } else if i > point {
                assert(text[i] == after[i - point - 1]);
            }
        }
    }
}

/// The places at which a text splits into number and letters are fixed by
/// the text.
proof fn splits_in_one_place(
    text: Seq<char>,
    a: int,
    b: int,
    c: int,
    d: int,
    a2: int,
    b2: int,
    c2: int,
    d2: int,
)
    requires
        splits_at(text, a, b, c, d),
        splits_at(text, a2, b2, c2, d2),
        a <= a2,
    ensures
        a == a2,
        b == b2,
        c == c2,
        d == d2,
{
    let end = text.len() as int;
    number_holds_digits_and_points(text.subrange(a, b));
    number_holds_digits_and_points(text.subrange(a2, b2));
    // What each character is, by the part of the first split it stands in.
    assert forall|i: int| 0 <= i < a implies is_space(text[i]) by {
        assert(text[i] == text.subrange(0, a)[i]);
    }
    assert forall|i: int| a <= i < b implies is_digit(text[i]) || text[i] == '.' by {
        assert(text[i] == text.subrange(a, b)[i - a]);
    }
    assert forall|i: int| b <= i < c implies is_space(text[i]) by {
        assert(text[i] == text.subrange(b, c)[i - b]);
    }
    assert forall|i: int| c <= i < d implies is_letter(text[i]) by {
        assert(text[i] == text.subrange(c, d)[i - c]);
    }
    assert forall|i: int| d <= i < end implies is_space(text[i]) by {
        assert(text[i] == text.subrange(d, end)[i - d]);
    }
    // The same for the second split.
    assert forall|i: int| 0 <= i < a2 implies is_space(text[i]) by {
        assert(text[i] == text.subrange(0, a2)[i]);
    }
    assert forall|i: int| a2 <= i < b2 implies is_digit(text[i]) || text[i] == '.' by {
        assert(text[i] == text.subrange(a2, b2)[i - a2]);
    }
    assert forall|i: int| b2 <= i < c2 implies is_space(text[i]) by {
        assert(text[i] == text.subrange(b2, c2)[i - b2]);
    }
    assert forall|i: int| c2 <= i < d2 implies is_letter(text[i]) by {
        assert(text[i] == text.subrange(c2, d2)[i - c2]);
    }
    assert forall|i: int| d2 <= i < end implies is_space(text[i]) by {
        assert(text[i] == text.subrange(d2, end)[i - d2]);
    }
    assert(is_digit(text[a])) by {
        assert(text[a] == text.subrange(a, b)[0]);
    }
    assert(is_digit(text[a2])) by {
        assert(text[a2] == text.subrange(a2, b2)[0]);
    }
    assert(a == a2) by {
        if a < a2 {
            assert(is_space(text[a]));
        }
    }
    assert(c < d && c2 < d2);
    assert(b == b2) by {
        if b < b2 {
            assert(is_digit(text[b]) || text[b] == '.');
            assert(is_space(text[b]) || is_letter(text[b]));
        }
        if b2 < b {
            assert(is_digit(text[b2]) || text[b2] == '.');
            assert(is_space(text[b2]) || is_letter(text[b2]));
        }
    }
    assert(c == c2) by {
        if c < c2 {
            assert(is_letter(text[c]));
            assert(is_space(text[c]));
        }
        if c2 < c {
            assert(is_letter(text[c2]));
            assert(is_space(text[c2]));
        }
    }
    assert(d == d2) by {
        if d < d2 {
            assert(is_letter(text[d]));
            assert(is_space(text[d]));
        }
        if d2 < d {
            assert(is_letter(text[d2]));
            assert(is_space(text[d2]));
        }
    }
}

/// A written length reads in one way only: its number and its letters are
/// fixed by the text.
pub proof fn written_length_reads_one_way(
    text: Seq<char>,
    number: Seq<char>,
    letters: Seq<char>,
    other_number: Seq<char>,
    other_letters: Seq<char>,
)
    requires
        reads_as(text, number, letters),
        reads_as(text, other_number, other_letters),
    ensures
        number == other_number,
        letters == other_letters,
{
    let (a, b, c, d) = choose|a: int, b: int, c: int, d: int|
        #![trigger splits_at(text, a, b, c, d)]
        splits_at(text, a, b, c, d) && number == text.subrange(a, b) && letters == text.subrange(
            c,
            d,
        );
    let (a2, b2, c2, d2) = choose|a: int, b: int, c: int, d: int|
        #![trigger splits_at(text, a, b, c, d)]
        splits_at(text, a, b, c, d) && other_number == text.subrange(a, b) && other_letters
            == text.subrange(c, d);
    if a <= a2 {
        splits_in_one_place(text, a, b, c, d, a2, b2, c2, d2);
    } else {
        splits_in_one_place(text, a2, b2, c2, d2, a, b, c, d);
    }
}

} // verus!
