//! Text as the meters' displays and the parsers' messages hold it: building
//! strings a character at a time, trimming, and reading decimal numbers.
use vstd::prelude::*;

verus! {

/// Appends `c` to `s`: `String::push`, whose documentation says it appends
/// the character to the end of the string. Nothing else is claimed.
#[verifier::external_body]
pub(crate) fn push_char(s: &mut String, c: char)
    ensures
        final(s)@ == old(s)@.push(c),
{
    s.push(c);
}

/// What `String::from_utf8_lossy` makes of `bytes`.
pub uninterp spec fn utf8_lossy(bytes: Seq<u8>) -> Seq<char>;

/// Whether every byte is ASCII.
pub open spec fn all_ascii(bytes: Seq<u8>) -> bool {
    forall|i: int| 0 <= i < bytes.len() ==> bytes[i] < 0x80
}

/// ASCII bytes read as characters.
pub open spec fn ascii_chars(bytes: Seq<u8>) -> Seq<char> {
    bytes.map_values(|b: u8| b as char)
}

/// `String::from_utf8_lossy(bytes).into_owned()`. Its result is named
/// [`utf8_lossy`]; what is claimed besides: ASCII bytes, being valid UTF-8 of
/// one byte per character, decode to themselves, and no decoding yields more
/// characters than it was given bytes (each character, and each U+FFFD that
/// stands for an invalid sequence, takes at least one byte). Where invalid
/// sequences are cut is left to the name.
#[verifier::external_body]
pub(crate) fn lossy_string(bytes: &[u8]) -> (s: String)
    ensures
        s@ == utf8_lossy(bytes@),
        s@.len() <= bytes@.len(),
        all_ascii(bytes@) ==> s@ == ascii_chars(bytes@),
{
    String::from_utf8_lossy(bytes).into_owned()
}

/// A string made of `chars`.
pub fn string_from_chars(chars: &Vec<char>) -> (s: String)
    ensures
        s@ == chars@,
{
    let mut s = String::new();
    let mut i: usize = 0;
    while i < chars.len()
        invariant
            i <= chars.len(),
            s@ == chars@.take(i as int),
        decreases chars.len() - i,
    {
        push_char(&mut s, chars[i]);
        i = i + 1;
        assert(s@ =~= chars@.take(i as int));
    }
    assert(chars@.take(chars.len() as int) =~= chars@);
    s
}

/// Appends `t` to `s`.
pub fn push_str(s: &mut String, t: &str)
    ensures
        final(s)@ == old(s)@ + t@,
{
    let n = t.unicode_len();
    let mut i: usize = 0;
    while i < n
        invariant
            n == t@.len(),
            i <= n,
            s@ == old(s)@ + t@.take(i as int),
        decreases n - i,
    {
        let c = t.get_char(i);
        push_char(s, c);
        i = i + 1;
        assert(s@ =~= old(s)@ + t@.take(i as int));
    }
    assert(t@.take(n as int) =~= t@);
}

/// Whether two strings hold the same characters.
pub fn str_eq(a: &str, b: &str) -> (r: bool)
    ensures
        r == (a@ == b@),
{
    let n = a.unicode_len();
    if n != b.unicode_len() {
        return false;
    }
    let mut i: usize = 0;
    while i < n
        invariant
            n == a@.len(),
            n == b@.len(),
            i <= n,
            forall|j: int| 0 <= j < i ==> a@[j] == b@[j],
        decreases n - i,
    {
        if a.get_char(i) != b.get_char(i) {
            return false;
        }
        i = i + 1;
    }
    assert(a@ =~= b@);
    true
}

/// What `str::to_lowercase` makes of a string.
pub uninterp spec fn lowercase(s: Seq<char>) -> Seq<char>;

/// `str::to_lowercase`: the string with each character replaced by its
/// Unicode lowercase mapping. The result is named [`lowercase`]. Claimed
/// besides: on ASCII text the mapping takes each capital letter to its small
/// letter and leaves every other character as it is, as Unicode's mapping
/// does for ASCII. Nothing more of the mapping is claimed.
#[verifier::external_body]
pub(crate) fn to_lowercase(s: &str) -> (r: String)
    ensures
        r@ == lowercase(s@),
        (forall|i: int| 0 <= i < s@.len() ==> (#[trigger] s@[i] as int) < 0x80) ==> r@
            == s@.map_values(|c: char| lower_ascii(c)),
{
    s.to_lowercase()
}

/// The characters of `s`.
pub fn chars_of(s: &str) -> (v: Vec<char>)
    ensures
        v@ == s@,
{
    let n = s.unicode_len();
    let mut v: Vec<char> = Vec::new();
    let mut i: usize = 0;
    while i < n
        invariant
            n == s@.len(),
            i <= n,
            v@ == s@.take(i as int),
        decreases n - i,
    {
        v.push(s.get_char(i));
        i = i + 1;
        assert(v@ =~= s@.take(i as int));
    }
    assert(s@.take(n as int) =~= s@);
    v
}

/// Rust's `char::is_whitespace`: the Unicode White_Space property.
pub open spec fn is_ws(c: char) -> bool {
    let v = c as u32;
    (0x9 <= v <= 0xD) || v == 0x20 || v == 0x85 || v == 0xA0 || v == 0x1680 || (0x2000 <= v
        <= 0x200A) || v == 0x2028 || v == 0x2029 || v == 0x202F || v == 0x205F || v == 0x3000
}

/// Whether `c` is whitespace.
pub fn is_whitespace(c: char) -> (b: bool)
    ensures
        b == is_ws(c),
{
    let v = c as u32;
    (0x9 <= v && v <= 0xD) || v == 0x20 || v == 0x85 || v == 0xA0 || v == 0x1680 || (0x2000 <= v
        && v <= 0x200A) || v == 0x2028 || v == 0x2029 || v == 0x202F || v == 0x205F || v == 0x3000
}

/// `s` without its leading whitespace.
pub open spec fn trim_start_ws(s: Seq<char>) -> Seq<char>
    decreases s.len(),
{
    if s.len() > 0 && is_ws(s[0]) {
        trim_start_ws(s.drop_first())
    } else {
        s
    }
}

/// `s` without its trailing whitespace.
pub open spec fn trim_end_ws(s: Seq<char>) -> Seq<char>
    decreases s.len(),
{
    if s.len() > 0 && is_ws(s.last()) {
        trim_end_ws(s.drop_last())
    } else {
        s
    }
}

/// `str::trim`: `s` without leading and trailing whitespace.
pub open spec fn trim_ws(s: Seq<char>) -> Seq<char> {
    trim_end_ws(trim_start_ws(s))
}

/// `s` with every `c` taken out.
pub open spec fn without_char(s: Seq<char>, c: char) -> Seq<char>
    decreases s.len(),
{
    if s.len() == 0 {
        s
    } else {
        let rest = without_char(s.drop_last(), c);
        if s.last() == c {
            rest
        } else {
            rest.push(s.last())
        }
    }
}

/// A display's text trimmed and with its inner spaces taken out.
pub open spec fn compact(s: Seq<char>) -> Seq<char> {
    without_char(trim_ws(s), ' ')
}

proof fn lemma_without_char_len(s: Seq<char>, c: char)
    ensures
        without_char(s, c).len() <= s.len(),
    decreases s.len(),
{
    if s.len() > 0 {
        lemma_without_char_len(s.drop_last(), c);
    }
}

proof fn lemma_trim_len(s: Seq<char>)
    ensures
        trim_start_ws(s).len() <= s.len(),
        trim_end_ws(s).len() <= s.len(),
    decreases s.len(),
{
    if s.len() > 0 {
        lemma_trim_len(s.drop_first());
        lemma_trim_len(s.drop_last());
    }
}

/// The compact form of `s`: trimmed, then without spaces.
pub fn compact_chars(s: &Vec<char>) -> (out: Vec<char>)
    ensures
        out@ == compact(s@),
        out@.len() <= s@.len(),
{
    let n = s.len();
    let mut start: usize = 0;
    assert(s@.subrange(0, n as int) =~= s@);
    while start < n && is_whitespace(s[start])
        invariant
            n == s@.len(),
            start <= n,
            trim_start_ws(s@) == trim_start_ws(s@.subrange(start as int, n as int)),
        decreases n - start,
    {
        assert(s@.subrange(start as int, n as int).drop_first() =~= s@.subrange(
            start as int + 1,
            n as int,
        ));
        start = start + 1;
    }
    let ghost t = s@.subrange(start as int, n as int);
    assert(trim_start_ws(s@) == t);
    let mut end: usize = n;
    while end > start && is_whitespace(s[end - 1])
        invariant
            n == s@.len(),
            start <= end <= n,
            t == s@.subrange(start as int, n as int),
            trim_end_ws(t) == trim_end_ws(s@.subrange(start as int, end as int)),
        decreases end - start,
    {
        assert(s@.subrange(start as int, end as int).drop_last() =~= s@.subrange(
            start as int,
            end as int - 1,
        ));
        end = end - 1;
    }
    let ghost u = s@.subrange(start as int, end as int);
    assert(trim_ws(s@) == u);
    let mut out: Vec<char> = Vec::new();
    let mut k: usize = start;
    while k < end
        invariant
            start <= k <= end <= n,
            n == s@.len(),
            u == s@.subrange(start as int, end as int),
            out@ == without_char(s@.subrange(start as int, k as int), ' '),
        decreases end - k,
    {
        assert(s@.subrange(start as int, k as int + 1).drop_last() =~= s@.subrange(
            start as int,
            k as int,
        ));
        if s[k] != ' ' {
            out.push(s[k]);
        }
        k = k + 1;
    }
    proof {
        lemma_without_char_len(u, ' ');
    }
    out
}

/// The lower-case hex digit of a nibble.
pub open spec fn hex_digit(n: u8) -> char {
    if n < 10 {
        (48 + n) as char
    } else {
        (87 + n) as char
    }
}

/// The lower-case hex digit of a nibble.
pub fn hex_lower(n: u8) -> (c: char)
    requires
        n < 16,
    ensures
        c == hex_digit(n),
{
    if n < 10 {
        (48u8 + n) as char
    } else {
        (87u8 + n) as char
    }
}

/// The upper-case hex digit of a nibble.
pub open spec fn hex_digit_upper(n: u8) -> char {
    if n < 10 {
        (48 + n) as char
    } else {
        (55 + n) as char
    }
}

/// The upper-case hex digit of a nibble.
pub fn hex_upper(n: u8) -> (c: char)
    requires
        n < 16,
    ensures
        c == hex_digit_upper(n),
{
    if n < 10 {
        (48u8 + n) as char
    } else {
        (55u8 + n) as char
    }
}

/// The character of a decimal digit `0`-`9`.
pub open spec fn digit_char(d: u8) -> char {
    (48 + d) as char
}

/// The character of a decimal digit.
pub fn digit_to_char(d: u8) -> (c: char)
    requires
        d <= 9,
    ensures
        c == digit_char(d),
{
    (48u8 + d) as char
}

/// `n` in decimal, without leading zeros.
pub open spec fn decimal_text(n: nat) -> Seq<char>
    decreases n,
{
    if n < 10 {
        seq![digit_char(n as u8)]
    } else {
        decimal_text(n / 10).push(digit_char((n % 10) as u8))
    }
}

/// Appends `n` in decimal to `s`.
pub fn push_decimal(s: &mut String, n: usize)
    ensures
        final(s)@ == old(s)@ + decimal_text(n as nat),
    decreases n,
{
    if n >= 10 {
        push_decimal(s, n / 10);
    }
    push_char(s, digit_to_char((n % 10) as u8));
    assert(s@ =~= old(s)@ + decimal_text(n as nat));
}

/// Whether `c` is an ASCII digit.
pub open spec fn is_digit(c: char) -> bool {
    '0' <= c <= '9'
}

/// The value of an ASCII digit.
pub open spec fn digit_value(c: char) -> int {
    c as int - '0' as int
}

/// `10^n`.
pub open spec fn pow10(n: nat) -> int
    decreases n,
{
    if n == 0 {
        1
    } else {
        10 * pow10((n - 1) as nat)
    }
}

/// Reading digits and at most one decimal point, left to right: the value
/// of the digits, how many there are, how many follow the point, and whether
/// a point was seen. `None` on any other character, or a second point.
pub open spec fn scan_number(s: Seq<char>) -> Option<(int, nat, nat, bool)>
    decreases s.len(),
{
    if s.len() == 0 {
        Some((0, 0, 0, false))
    } else {
        match scan_number(s.drop_last()) {
            None => None,
            Some((v, n, f, p)) => {
                let c = s.last();
                if is_digit(c) {
                    Some((v * 10 + digit_value(c), n + 1, if p {
                        f + 1
                    } else {
                        f
                    }, p))
                } else if c == '.' && !p {
                    Some((v, n, f, true))
                } else {
                    None
                }
            },
        }
    }
}

/// `s` without its sign, and whether the sign was a minus.
pub open spec fn unsigned_part(s: Seq<char>) -> (bool, Seq<char>) {
    if s.len() > 0 && s[0] == '-' {
        (true, s.drop_first())
    } else if s.len() > 0 && s[0] == '+' {
        (false, s.drop_first())
    } else {
        (false, s)
    }
}

/// An ASCII capital letter as its small letter; any other character as it is.
pub open spec fn lower_ascii(c: char) -> char {
    if 'A' <= c <= 'Z' {
        (c as int + 32) as char
    } else {
        c
    }
}

/// Whether `b` spells the small-letter word `w`, in either case.
pub open spec fn spells(b: Seq<char>, w: Seq<char>) -> bool {
    b.len() == w.len() && forall|i: int| 0 <= i < b.len() ==> lower_ascii(#[trigger] b[i]) == w[i]
}

/// Whether `b` spells an infinity: `inf` or `infinity`, in either case.
pub open spec fn is_infinity_word(b: Seq<char>) -> bool {
    spells(b, seq!['i', 'n', 'f']) || spells(b, seq!['i', 'n', 'f', 'i', 'n', 'i', 't', 'y'])
}

/// Whether `b` spells not-a-number: `nan`, in either case.
pub open spec fn is_nan_word(b: Seq<char>) -> bool {
    spells(b, seq!['n', 'a', 'n'])
}

/// Whether `c` marks an exponent.
pub open spec fn is_exponent_mark(c: char) -> bool {
    c == 'e' || c == 'E'
}

/// Where the first exponent mark stands in `s`; its length where it has none.
pub open spec fn first_exponent_mark(s: Seq<char>) -> nat
    decreases s.len(),
{
    if s.len() == 0 {
        0
    } else if is_exponent_mark(s[0]) {
        0
    } else {
        1 + first_exponent_mark(s.drop_first())
    }
}

/// An exponent as written: an optional sign and at least one digit.
pub open spec fn exponent_of(x: Seq<char>) -> Option<int> {
    let neg = unsigned_part(x).0;
    match scan_number(unsigned_part(x).1) {
        Some((v, n, _, p)) => if n > 0 && !p {
            Some(if neg {
                -v
            } else {
                v
            })
        } else {
            None
        },
        None => None,
    }
}

/// A finite number as written: digits with at most one point among them and
/// at least one digit, then optionally an exponent mark and an exponent.
pub open spec fn finite_of(neg: bool, b: Seq<char>) -> Option<crate::measurement::Decimal> {
    let k = first_exponent_mark(b) as int;
    match scan_number(b.take(k)) {
        Some((v, n, f, _)) => if n == 0 {
            None
        } else if k == b.len() {
            Some(
                crate::measurement::Decimal {
                    negative: neg,
                    digits: v as u128,
                    scale: f as i64,
                    kind: crate::measurement::NumberKind::Finite,
                },
            )
        } else {
            match exponent_of(b.skip(k + 1)) {
                Some(e) => Some(
                    crate::measurement::Decimal {
                        negative: neg,
                        digits: v as u128,
                        scale: (f - e) as i64,
                        kind: crate::measurement::NumberKind::Finite,
                    },
                ),
                None => None,
            }
        },
        None => None,
    }
}

/// A number as a float's text writes it: an optional sign, then an
/// infinity, not-a-number, or a finite number, which may carry an
/// exponent. The words and the exponent mark may be in either case.
pub open spec fn decimal_of(s: Seq<char>) -> Option<crate::measurement::Decimal> {
    let neg = unsigned_part(s).0;
    let b = unsigned_part(s).1;
    if is_infinity_word(b) {
        Some(
            crate::measurement::Decimal {
                negative: neg,
                digits: 0,
                scale: 0,
                kind: crate::measurement::NumberKind::Infinite,
            },
        )
    } else if is_nan_word(b) {
        Some(
            crate::measurement::Decimal {
                negative: neg,
                digits: 0,
                scale: 0,
                kind: crate::measurement::NumberKind::NotANumber,
            },
        )
    } else {
        finite_of(neg, b)
    }
}

proof fn lemma_pow10_mono(a: nat, b: nat)
    requires
        a <= b,
    ensures
        1 <= pow10(a) <= pow10(b),
    decreases b,
{
    if a < b {
        lemma_pow10_mono(a, (b - 1) as nat);
    } else if a > 0 {
        lemma_pow10_mono((a - 1) as nat, (a - 1) as nat);
    }
}

/// Once a prefix fails to scan, every longer prefix does.
proof fn lemma_scan_none_extends(s: Seq<char>, k: int)
    requires
        0 <= k <= s.len(),
        scan_number(s.take(k)) is None,
    ensures
        scan_number(s.take(s.len() as int)) is None,
    decreases s.len() - k,
{
    if k < s.len() {
        assert(s.take(k + 1).drop_last() =~= s.take(k));
        lemma_scan_none_extends(s, k + 1);
    }
}

/// The first exponent mark stands at `k` when none stands before it and
/// one stands at `k`, or `k` is the end.
proof fn lemma_first_exponent_mark(s: Seq<char>, k: int)
    requires
        0 <= k <= s.len(),
        forall|j: int| 0 <= j < k ==> !is_exponent_mark(#[trigger] s[j]),
        k == s.len() || is_exponent_mark(s[k]),
    ensures
        first_exponent_mark(s) == k,
    decreases k,
{
    if k > 0 {
        assert(!is_exponent_mark(s[0]));
        let t = s.drop_first();
        assert forall|j: int| 0 <= j < k - 1 implies !is_exponent_mark(#[trigger] t[j]) by {
            assert(t[j] == s[j + 1]);
        }
        lemma_first_exponent_mark(t, k - 1);
    }
}

/// Scan `s[from..to]` as [`scan_number`] does.
fn scan_span(s: &Vec<char>, from: usize, to: usize) -> (r: Option<(u128, u8, u8, bool)>)
    requires
        from <= to <= s@.len(),
        to - from <= 20,
    ensures
        match r {
            Some((v, n, f, p)) => scan_number(s@.subrange(from as int, to as int)) == Some(
                (v as int, n as nat, f as nat, p),
            ),
            None => scan_number(s@.subrange(from as int, to as int)) is None,
        },
{
    let ghost body = s@.subrange(from as int, to as int);
    let mut i: usize = from;
    let mut v: u128 = 0;
    let mut count: u8 = 0;
    let mut frac: u8 = 0;
    let mut point = false;
    proof {
        assert(body.take(0) =~= Seq::<char>::empty());
        reveal_with_fuel(pow10, 21);
    }
    while i < to
        invariant
            from <= i <= to <= s@.len(),
            to - from <= 20,
            body == s@.subrange(from as int, to as int),
            scan_number(body.take(i - from)) == Some((v as int, count as nat, frac as nat, point)),
            v < pow10(count as nat),
            count <= i - from,
            frac <= count,
            pow10(20) == 100_000_000_000_000_000_000,
        decreases to - i,
    {
        let c = s[i];
        let ghost pre = body.take(i - from);
        let ghost next = body.take(i - from + 1);
        assert(next.drop_last() =~= pre);
        assert(next.last() == c);
        if '0' <= c && c <= '9' {
            proof {
                lemma_pow10_mono((count + 1) as nat, 20);
            }
            v = v * 10 + (c as u128 - '0' as u128);
            count = count + 1;
            if point {
                frac = frac + 1;
            }
        } else if c == '.' && !point {
            point = true;
        } else {
            proof {
                assert(scan_number(next) is None);
                lemma_scan_none_extends(body, i - from + 1);
                assert(body.take(body.len() as int) =~= body);
            }
            return None;
        }
        i = i + 1;
    }
    assert(body.take(to - from) =~= body);
    Some((v, count, frac, point))
}

/// The ASCII small letter of `c`, as [`lower_ascii`] says.
fn lower_char(c: char) -> (r: char)
    ensures
        r == lower_ascii(c),
{
    if 'A' <= c && c <= 'Z' {
        ((c as u8) + 32) as char
    } else {
        c
    }
}

/// Whether `s[from..]` spells the small-letter word `w`, in either case.
fn spells_from(s: &Vec<char>, from: usize, w: &Vec<char>) -> (b: bool)
    requires
        from <= s@.len(),
    ensures
        b == spells(s@.skip(from as int), w@),
{
    let ghost t = s@.skip(from as int);
    let n = s.len();
    if n - from != w.len() {
        return false;
    }
    let mut i: usize = 0;
    while i < w.len()
        invariant
            t == s@.skip(from as int),
            t.len() == w@.len(),
            from + w@.len() == s@.len() == n,
            i <= w@.len(),
            forall|j: int| 0 <= j < i ==> lower_ascii(#[trigger] t[j]) == w@[j],
        decreases w.len() - i,
    {
        let at: usize = from + i;
        assert(t[i as int] == s@[at as int]);
        if lower_char(s[at]) != w[i] {
            return false;
        }
        i = i + 1;
    }
    true
}

/// Read an exponent from `s[from..]`, as [`exponent_of`] describes it.
fn parse_exponent(s: &Vec<char>, from: usize) -> (r: Option<i64>)
    requires
        from <= s@.len(),
        s@.len() - from <= 18,
    ensures
        match r {
            Some(e) => exponent_of(s@.skip(from as int)) == Some(e as int) && -1_000_000_000_000_000_000
                < e < 1_000_000_000_000_000_000,
            None => exponent_of(s@.skip(from as int)) is None,
        },
{
    let n = s.len();
    let ghost x = s@.skip(from as int);
    let mut estart: usize = from;
    let mut eneg = false;
    if estart < n && s[estart] == '-' {
        eneg = true;
        estart = estart + 1;
    } else if estart < n && s[estart] == '+' {
        estart = estart + 1;
    }
    assert(unsigned_part(x).1 =~= s@.subrange(estart as int, n as int));
    assert(eneg == unsigned_part(x).0);
    match scan_span(s, estart, n) {
        Some((ev, ecount, _, epoint)) => {
            if ecount > 0 && !epoint {
                proof {
                    lemma_scan_bounds(s@.subrange(estart as int, n as int));
                    lemma_pow10_mono(ecount as nat, 18);
                    reveal_with_fuel(pow10, 19);
                }
                let e: i64 = ev as i64;
                if eneg {
                    Some(-e)
                } else {
                    Some(e)
                }
            } else {
                None
            }
        },
        None => None,
    }
}

/// Read a finite number from `s[start..]`, as [`finite_of`] describes it.
fn parse_finite(s: &Vec<char>, start: usize, neg: bool) -> (r: Option<crate::measurement::Decimal>)
    requires
        start <= s@.len() <= 20,
    ensures
        r == finite_of(neg, s@.skip(start as int)),
{
    let n = s.len();
    let ghost b = s@.skip(start as int);
    let mut k: usize = start;
    while k < n && s[k] != 'e' && s[k] != 'E'
        invariant
            start <= k <= n == s@.len(),
            forall|j: int| start <= j < k ==> !is_exponent_mark(#[trigger] s@[j]),
        decreases n - k,
    {
        k = k + 1;
    }
    proof {
        assert forall|j: int| 0 <= j < k - start implies !is_exponent_mark(#[trigger] b[j]) by {
            assert(b[j] == s@[start + j]);
        }
        if k < n {
            assert(b[k - start] == s@[k as int]);
        }
        lemma_first_exponent_mark(b, k - start);
        assert(b.take(k - start) =~= s@.subrange(start as int, k as int));
    }
    match scan_span(s, start, k) {
        None => None,
        Some((v, count, frac, _)) => {
            if count == 0 {
                None
            } else if k == n {
                Some(
                    crate::measurement::Decimal {
                        negative: neg,
                        digits: v,
                        scale: frac as i64,
                        kind: crate::measurement::NumberKind::Finite,
                    },
                )
            } else {
                proof {
                    lemma_scan_bounds(s@.subrange(start as int, k as int));
                }
                assert(b.skip(k - start + 1) =~= s@.skip(k + 1));
                match parse_exponent(s, k + 1) {
                    Some(e) => Some(
                        crate::measurement::Decimal {
                            negative: neg,
                            digits: v,
                            scale: frac as i64 - e,
                            kind: crate::measurement::NumberKind::Finite,
                        },
                    ),
                    None => None,
                }
            }
        },
    }
}

/// Read a number, as [`decimal_of`] describes it.
pub fn parse_decimal(s: &Vec<char>) -> (r: Option<crate::measurement::Decimal>)
    requires
        s@.len() <= 20,
    ensures
        r == decimal_of(s@),
{
    let n = s.len();
    let mut start: usize = 0;
    let mut neg = false;
    if n > 0 && s[0] == '-' {
        neg = true;
        start = 1;
    } else if n > 0 && s[0] == '+' {
        start = 1;
    }
    assert(unsigned_part(s@).1 =~= s@.skip(start as int));
    assert(neg == unsigned_part(s@).0);
    if spells_from(s, start, &vec!['i', 'n', 'f']) || spells_from(
        s,
        start,
        &vec!['i', 'n', 'f', 'i', 'n', 'i', 't', 'y'],
    ) {
        return Some(
            crate::measurement::Decimal {
                negative: neg,
                digits: 0,
                scale: 0,
                kind: crate::measurement::NumberKind::Infinite,
            },
        );
    }
    if spells_from(s, start, &vec!['n', 'a', 'n']) {
        return Some(
            crate::measurement::Decimal {
                negative: neg,
                digits: 0,
                scale: 0,
                kind: crate::measurement::NumberKind::NotANumber,
            },
        );
    }
    parse_finite(s, start, neg)
}

proof fn lemma_scan_bounds(s: Seq<char>)
    ensures
        scan_number(s) matches Some((v, n, f, p)) ==> 0 <= v < pow10(n) && n <= s.len() && f
            <= n,
    decreases s.len(),
{
    if s.len() > 0 {
        lemma_scan_bounds(s.drop_last());
    }
}

/// How many ASCII digits `s` holds.
pub open spec fn digit_count(s: Seq<char>) -> nat
    decreases s.len(),
{
    if s.len() == 0 {
        0
    } else {
        digit_count(s.drop_last()) + if is_digit(s.last()) {
            1nat
        } else {
            0nat
        }
    }
}

proof fn lemma_digit_count_first(s: Seq<char>)
    requires
        s.len() > 0,
    ensures
        digit_count(s) == digit_count(s.drop_first()) + if is_digit(s[0]) {
            1nat
        } else {
            0nat
        },
    decreases s.len(),
{
    if s.len() > 1 {
        lemma_digit_count_first(s.drop_last());
        assert(s.drop_last().drop_first() =~= s.drop_first().drop_last());
    } else {
        assert(s.drop_last() =~= Seq::<char>::empty());
        assert(s.drop_first() =~= Seq::<char>::empty());
    }
}

/// What scans as a number is its digits and at most one point.
proof fn lemma_scan_shape(s: Seq<char>)
    ensures
        scan_number(s) matches Some((v, n, f, p)) ==> s.len() == n + (if p {
            1int
        } else {
            0int
        }) && n == digit_count(s),
    decreases s.len(),
{
    if s.len() > 0 {
        lemma_scan_shape(s.drop_last());
    }
}

/// A text of digits and points, with perhaps a minus in front, that holds at
/// most 18 digits and is longer than 20 characters writes no number: it
/// holds a second point.
pub(crate) proof fn lemma_long_plain_text_is_no_number(s: Seq<char>)
    requires
        forall|j: int| 0 <= j < s.len() ==> is_digit(#[trigger] s[j]) || s[j] == '.' || (j == 0 && s[j] == '-'),
        digit_count(s) <= 18,
        s.len() > 20,
    ensures
        decimal_of(s) is None,
{
    let b = unsigned_part(s).1;
    if s[0] == '-' {
        lemma_digit_count_first(s);
        assert(b =~= s.drop_first());
    } else {
        assert(b == s);
    }
    assert forall|j: int| 0 <= j < b.len() implies is_digit(#[trigger] b[j]) || b[j] == '.' by {
        if s[0] == '-' {
            assert(b[j] == s[j + 1]);
        }
    }
    assert(!is_infinity_word(b));
    assert(!is_nan_word(b));
    assert forall|j: int| 0 <= j < b.len() implies !is_exponent_mark(#[trigger] b[j]) by {
        assert(is_digit(b[j]) || b[j] == '.');
    }
    lemma_first_exponent_mark(b, b.len() as int);
    assert(b.take(b.len() as int) =~= b);
    lemma_scan_shape(b);
}

} // verus!
