//! Turning digit nibbles into display text and a value.
use crate::measurement::{Decimal, Error};
use crate::text::{
    decimal_of, digit_char, digit_count, digit_to_char, is_digit, lemma_long_plain_text_is_no_number,
    parse_decimal, push_char, string_from_chars,
};
use vstd::prelude::*;

verus! {

/// A minus sign, or nothing.
pub open spec fn sign_text(negative: bool) -> Seq<char> {
    if negative {
        seq!['-']
    } else {
        Seq::<char>::empty()
    }
}

/// `s` without the points at its end.
pub open spec fn trim_dots(s: Seq<char>) -> Seq<char>
    decreases s.len(),
{
    if s.len() > 0 && s.last() == '.' {
        trim_dots(s.drop_last())
    } else {
        s
    }
}

/// The text of the first digits of a reading of `n` digits, and how many
/// drawn digits it holds: a digit nibble draws its digit, a blank (`0xA`)
/// nothing, and once the drawn digits number `dp + 1`, short of `n`, a point
/// follows each nibble read.
pub open spec fn assemble_prefix(digits: Seq<u8>, n: nat, dp: u8) -> (Seq<char>, nat)
    decreases digits.len(),
{
    if digits.len() == 0 {
        (Seq::<char>::empty(), 0)
    } else {
        let (s, c) = assemble_prefix(digits.drop_last(), n, dp);
        let d = digits.last();
        let s1 = if d <= 9 {
            s.push(digit_char(d))
        } else {
            s
        };
        let c1: nat = if d <= 9 {
            c + 1
        } else {
            c
        };
        if c1 == dp + 1 && c1 < n {
            (s1.push('.'), c1)
        } else {
            (s1, c1)
        }
    }
}

/// The display text of digit nibbles (MSD first, `0xA` blank) with the
/// point after drawn digit `dp + 1` and the sign in front, without a
/// trailing point.
pub open spec fn assembled_text(digits: Seq<u8>, dp: u8, negative: bool) -> Seq<char> {
    trim_dots(sign_text(negative) + assemble_prefix(digits, digits.len(), dp).0)
}

/// The first digit nibble past `0xA`, if any.
pub open spec fn bad_digit(digits: Seq<u8>) -> Option<u8>
    decreases digits.len(),
{
    if digits.len() == 0 {
        None
    } else if digits[0] > 0xA {
        Some(digits[0])
    } else {
        bad_digit(digits.drop_first())
    }
}

proof fn lemma_bad_first(s: Seq<u8>, i: int)
    requires
        0 <= i < s.len(),
        forall|j: int| 0 <= j < i ==> s[j] <= 0xA,
        s[i] > 0xA,
    ensures
        bad_digit(s) == Some(s[i]),
    decreases i,
{
    if i > 0 {
        let t = s.drop_first();
        assert forall|j: int| 0 <= j < i - 1 implies t[j] <= 0xA by {
            assert(t[j] == s[j + 1]);
        }
        lemma_bad_first(t, i - 1);
    }
}

proof fn lemma_no_bad(s: Seq<u8>)
    requires
        forall|j: int| 0 <= j < s.len() ==> s[j] <= 0xA,
    ensures
        bad_digit(s) is None,
    decreases s.len(),
{
    if s.len() > 0 {
        let t = s.drop_first();
        assert forall|j: int| 0 <= j < t.len() implies t[j] <= 0xA by {
            assert(t[j] == s[j + 1]);
        }
        lemma_no_bad(t);
    }
}

proof fn lemma_prefix_len(digits: Seq<u8>, n: nat, dp: u8)
    ensures
        assemble_prefix(digits, n, dp).0.len() <= 2 * digits.len(),
        assemble_prefix(digits, n, dp).1 <= digits.len(),
    decreases digits.len(),
{
    if digits.len() > 0 {
        lemma_prefix_len(digits.drop_last(), n, dp);
    }
}

proof fn lemma_trim_len(s: Seq<char>)
    ensures
        trim_dots(s).len() <= s.len(),
    decreases s.len(),
{
    if s.len() > 0 && s.last() == '.' {
        lemma_trim_len(s.drop_last());
    }
}

/// Build the display text and value from MSD-first digit nibbles and a
/// decimal position from the left (the point follows drawn digit
/// `dp_pos + 1`). Nibble `0xA` renders as a blank; one past it is an error,
/// as are digits that make no number.
pub fn assemble_value(digits: &[u8], dp_pos: u8, negative: bool) -> (r: Result<(String, Decimal), Error>)
    requires
        digits@.len() <= 18,
    ensures
        bad_digit(digits@) matches Some(b) ==> r == Err::<(String, Decimal), Error>(
            Error::InvalidDigitNibble(b),
        ),
        bad_digit(digits@) is None ==> match decimal_of(assembled_text(digits@, dp_pos, negative)) {
            Some(d) => r matches Ok((s, v)) && s@ == assembled_text(digits@, dp_pos, negative) && v
                == d,
            None => r matches Err(Error::UnparseableValue(s)) && s@ == assembled_text(
                digits@,
                dp_pos,
                negative,
            ),
        },
{
    let n = digits.len();
    let mut i: usize = 0;
    while i < n
        invariant
            n == digits@.len(),
            i <= n,
            forall|j: int| 0 <= j < i ==> digits@[j] <= 0xA,
        decreases n - i,
    {
        if digits[i] > 0xA {
            proof {
                lemma_bad_first(digits@, i as int);
            }
            return Err(Error::InvalidDigitNibble(digits[i]));
        }
        i = i + 1;
    }
    proof {
        lemma_no_bad(digits@);
    }
    let mut cs: Vec<char> = Vec::new();
    if negative {
        cs.push('-');
        assert(cs@.drop_last() =~= Seq::<char>::empty());
        assert(digit_count(cs@) == digit_count(Seq::<char>::empty()) + 0);
    }
    assert(digit_count(cs@) == 0);
    let mut count: usize = 0;
    let mut k: usize = 0;
    assert(digits@.take(0) =~= Seq::<u8>::empty());
    assert(cs@ =~= sign_text(negative) + assemble_prefix(digits@.take(0), n as nat, dp_pos).0);
    while k < n
        invariant
            n == digits@.len() <= 18,
            k <= n,
            forall|j: int| 0 <= j < n ==> digits@[j] <= 0xA,
            cs@ == sign_text(negative) + assemble_prefix(digits@.take(k as int), n as nat, dp_pos).0,
            count == assemble_prefix(digits@.take(k as int), n as nat, dp_pos).1,
            count <= k,
            cs@.len() <= 1 + 2 * k,
            digit_count(cs@) == count,
            forall|j: int|
                0 <= j < cs@.len() ==> is_digit(#[trigger] cs@[j]) || cs@[j] == '.' || (j == 0
                    && cs@[j] == '-'),
        decreases n - k,
    {
        let d = digits[k];
        proof {
            assert(digits@.take(k + 1).drop_last() =~= digits@.take(k as int));
            assert(digits@.take(k + 1).last() == d);
        }
        if d <= 9 {
            let ghost before = cs@;
            let c = digit_to_char(d);
            assert(is_digit(c));
            cs.push(c);
            assert(cs@.drop_last() =~= before);
            assert(cs@.last() == c);
            assert(digit_count(cs@) == digit_count(before) + 1);
            count = count + 1;
        }
        if count == dp_pos as usize + 1 && count < n {
            let ghost before = cs@;
            cs.push('.');
            assert(cs@.drop_last() =~= before);
            assert(cs@.last() == '.');
            assert(digit_count(cs@) == digit_count(before));
        }
        k = k + 1;
        assert(cs@ =~= sign_text(negative) + assemble_prefix(digits@.take(k as int), n as nat, dp_pos).0);
    }
    assert(digits@.take(n as int) =~= digits@);
    let ghost full = cs@;
    assert(full == sign_text(negative) + assemble_prefix(digits@, n as nat, dp_pos).0);
    while cs.len() > 0 && cs[cs.len() - 1] == '.'
        invariant
            trim_dots(cs@) == trim_dots(full),
            cs@.len() <= 37,
            digit_count(cs@) == count,
            count <= 18,
            forall|j: int|
                0 <= j < cs@.len() ==> is_digit(#[trigger] cs@[j]) || cs@[j] == '.' || (j == 0
                    && cs@[j] == '-'),
        decreases cs@.len(),
    {
        let ghost before = cs@;
        cs.pop();
        assert(cs@ =~= before.drop_last());
        assert(forall|j: int| 0 <= j < cs@.len() ==> cs@[j] == before[j]);
    }
    assert(trim_dots(cs@) == cs@);
    proof {
        lemma_trim_len(full);
    }
    let s = string_from_chars(&cs);
    if cs.len() > 20 {
        proof {
            lemma_long_plain_text_is_no_number(cs@);
        }
        return Err(Error::UnparseableValue(s));
    }
    match parse_decimal(&cs) {
        Some(d) => Ok((s, d)),
        None => Err(Error::UnparseableValue(s)),
    }
}

/// What the LCD draws for the first digits of a reading of `n` digits: a
/// digit nibble its digit, `0xA` nothing and `0xC` an `L`, with a point after
/// position `dp` (counted from 0, blanks included) unless that is the last.
/// `None` where a nibble is one the LCD has not been seen to draw.
pub open spec fn lcd_prefix(digits: Seq<u8>, n: nat, dp: u8) -> Option<Seq<char>>
    decreases digits.len(),
{
    if digits.len() == 0 {
        Some(Seq::<char>::empty())
    } else {
        match lcd_prefix(digits.drop_last(), n, dp) {
            None => None,
            Some(s) => {
                let i = digits.len() - 1;
                let d = digits.last();
                if d > 9 && d != 0xA && d != 0xC {
                    None
                } else {
                    let s1 = if d <= 9 {
                        s.push(digit_char(d))
                    } else if d == 0xC {
                        s.push('L')
                    } else {
                        s
                    };
                    Some(
                        if i == dp && i + 1 < n {
                            s1.push('.')
                        } else {
                            s1
                        },
                    )
                }
            },
        }
    }
}

/// The LCD's text for digit nibbles, sign in front; `None` where a nibble is
/// one it has not been seen to draw.
pub open spec fn lcd_text(digits: Seq<u8>, dp: u8, negative: bool) -> Option<Seq<char>> {
    match lcd_prefix(digits, digits.len(), dp) {
        Some(s) => Some(sign_text(negative) + s),
        None => None,
    }
}

proof fn lemma_lcd_none_extends(s: Seq<u8>, n: nat, dp: u8, k: int)
    requires
        0 <= k <= s.len(),
        lcd_prefix(s.take(k), n, dp) is None,
    ensures
        lcd_prefix(s, n, dp) is None,
    decreases s.len() - k,
{
    if k < s.len() {
        assert(s.take(k + 1).drop_last() =~= s.take(k));
        lemma_lcd_none_extends(s, n, dp, k + 1);
    } else {
        assert(s.take(k) =~= s);
    }
}

/// What a UT804's LCD shows for a packet whose digit 1 is blank (an
/// overload, or LO on the 4-20 mA % reading): the digit nibbles as drawn,
/// with the range's decimal point after digit `dp_pos + 1` and the sign in
/// front. `None` where a nibble is one the LCD has not been seen to draw.
pub fn ut804_lcd_text(digits: &[u8], dp_pos: u8, negative: bool) -> (r: Option<String>)
    ensures
        match lcd_text(digits@, dp_pos, negative) {
            Some(t) => r matches Some(s) && s@ == t,
            None => r is None,
        },
{
    let n = digits.len();
    let mut s = String::new();
    if negative {
        push_char(&mut s, '-');
    }
    let mut i: usize = 0;
    assert(digits@.take(0) =~= Seq::<u8>::empty());
    assert(s@ =~= sign_text(negative));
    while i < n
        invariant
            n == digits@.len(),
            i <= n,
            lcd_prefix(digits@.take(i as int), n as nat, dp_pos) matches Some(t) && s@ == sign_text(
                negative,
            ) + t,
        decreases n - i,
    {
        let d = digits[i];
        proof {
            assert(digits@.take(i + 1).drop_last() =~= digits@.take(i as int));
            assert(digits@.take(i + 1).last() == d);
        }
        if d <= 9 {
            push_char(&mut s, digit_to_char(d));
        } else if d == 0xA {
        } else if d == 0xC {
            push_char(&mut s, 'L');
        } else {
            proof {
                lemma_lcd_none_extends(digits@, n as nat, dp_pos, i + 1);
            }
            return None;
        }
        if i == dp_pos as usize && i + 1 < n {
            push_char(&mut s, '.');
        }
        i = i + 1;
        proof {
            let t = lcd_prefix(digits@.take(i as int), n as nat, dp_pos)->0;
            assert(s@ =~= sign_text(negative) + t);
        }
    }
    assert(digits@.take(n as int) =~= digits@);
    Some(s)
}

/// The vendor app's overload text, signed when the sign bit is set.
pub open spec fn overload_text(negative: bool) -> Seq<char> {
    if negative {
        "-0L"@
    } else {
        "0L"@
    }
}

/// The vendor app's overload text, signed when the sign bit is set.
pub fn overload_display(negative: bool) -> (r: Option<String>)
    ensures
        r matches Some(s) && s@ == overload_text(negative),
{
    Some(
        if negative {
            "-0L".to_owned()
        } else {
            "0L".to_owned()
        },
    )
}

} // verus!
