//! What a range label says: a number, then the unit it is read in.
use crate::text::is_digit;
use vstd::prelude::*;

verus! {

/// A character of a written number: a digit or the decimal point.
pub open spec fn number_char(c: char) -> bool {
    is_digit(c) || c == '.'
}

/// Whether `s` is written with number characters only.
pub open spec fn all_number_chars(s: Seq<char>) -> bool
    decreases s.len(),
{
    if s.len() == 0 {
        true
    } else {
        number_char(s.last()) && all_number_chars(s.drop_last())
    }
}

/// Whether `s` ends with `suffix`.
pub open spec fn ends_with(s: Seq<char>, suffix: Seq<char>) -> bool
    decreases suffix.len(),
{
    if suffix.len() == 0 {
        true
    } else {
        s.len() > 0 && s.last() == suffix.last() && ends_with(s.drop_last(), suffix.drop_last())
    }
}

/// Whether `label` is a number followed by exactly `unit`: "22kHz" in kHz,
/// "2.2V" in V.
pub open spec fn number_then_unit(label: Seq<char>, unit: Seq<char>) -> bool {
    &&& label.len() > unit.len()
    &&& ends_with(label, unit)
    &&& all_number_chars(label.take(label.len() - unit.len()))
}

/// How many digits `label` starts with.
pub open spec fn leading_digits(label: Seq<char>) -> nat
    decreases label.len(),
{
    if label.len() > 0 && is_digit(label[0]) {
        1 + leading_digits(label.drop_first())
    } else {
        0
    }
}

/// Whether `s` starts with "DC".
pub open spec fn starts_dc(s: Seq<char>) -> bool {
    s.len() >= 2 && s[0] == 'D' && s[1] == 'C'
}

/// Whether `s` starts with "AC".
pub open spec fn starts_ac(s: Seq<char>) -> bool {
    s.len() >= 2 && s[0] == 'A' && s[1] == 'C'
}

} // verus!
