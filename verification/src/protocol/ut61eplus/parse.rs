//! Decoding the UT61+ family's 14-byte measurement payload.
use super::mode::{Mode, mode_byte, mode_label, mode_of_byte};
use super::tables::{DeviceTable, RangeInfo, lookup_range};
use super::tables::ut61e_plus::Ut61ePlusTable;
use crate::measurement::{Error, MeasuredValue, Measurement, StatusFlags, no_flags};
use crate::text::{
    chars_of, compact, compact_chars, decimal_of, is_digit, lossy_string, parse_decimal,
    string_from_chars, utf8_lossy, without_char,
};
use vstd::prelude::*;

verus! {

/// The length of a measurement payload.
pub const UT61EPLUS_MEASUREMENT_PAYLOAD_LEN: usize = 14;

/// Whether `mode` is one of the AC+DC modes, whose frames alternate between
/// their AC and DC components.
pub open spec fn is_ac_dc_mode(mode: Mode) -> bool {
    mode == Mode::AcDcV || mode == Mode::AcDcMv || mode == Mode::ClampAcDcA
}

/// The flags three flag nibbles carry:
/// - `flag1`: bit0 REL, bit1 HOLD, bit2 MIN, bit3 MAX
/// - `flag2`: bit0 HV warning, bit1 low battery, bit2 manual range (so
///   AUTO is its inverse); bit3 APO is not carried
/// - `flag3`: bit1 Peak MIN, bit2 Peak MAX, bit3 AC; `dc` marks the DC
///   component of an AC+DC reading, and stays clear in every other mode.
pub open spec fn ut61_flags(mode: Mode, flag1: u8, flag2: u8, flag3: u8) -> StatusFlags {
    StatusFlags {
        rel: flag1 & 0x01 != 0,
        hold: flag1 & 0x02 != 0,
        min: flag1 & 0x04 != 0,
        max: flag1 & 0x08 != 0,
        hv_warning: flag2 & 0x01 != 0,
        low_battery: flag2 & 0x02 != 0,
        auto_range: flag2 & 0x04 == 0,
        dc: is_ac_dc_mode(mode) && flag3 & 0x08 == 0,
        peak_max: flag3 & 0x04 != 0,
        peak_min: flag3 & 0x02 != 0,
        ..no_flags()
    }
}

/// Decode the three flag nibbles (already masked with `& 0x0F`).
pub fn parse_flags(mode: Mode, flag1: u8, flag2: u8, flag3: u8) -> (f: StatusFlags)
    ensures
        f == ut61_flags(mode, flag1, flag2, flag3),
{
    let ac_dc = match mode {
        Mode::AcDcV | Mode::AcDcMv | Mode::ClampAcDcA => true,
        _ => false,
    };
    StatusFlags {
        rel: flag1 & 0x01 != 0,
        hold: flag1 & 0x02 != 0,
        min: flag1 & 0x04 != 0,
        max: flag1 & 0x08 != 0,
        hv_warning: flag2 & 0x01 != 0,
        low_battery: flag2 & 0x02 != 0,
        auto_range: flag2 & 0x04 == 0,
        dc: ac_dc && flag3 & 0x08 == 0,
        peak_max: flag3 & 0x04 != 0,
        peak_min: flag3 & 0x02 != 0,
        ..StatusFlags::none()
    }
}

/// How many times `c` occurs in `s`.
pub open spec fn count_char(s: Seq<char>, c: char) -> nat
    decreases s.len(),
{
    if s.len() == 0 {
        0
    } else {
        count_char(s.drop_last(), c) + if s.last() == c {
            1nat
        } else {
            0nat
        }
    }
}

/// `u8::from_str`: an optional `+`, then at least one ASCII digit, worth at
/// most 255.
pub open spec fn u8_of(s: Seq<char>) -> Option<u8> {
    if plus_stripped(s).len() > 0 && all_digits(plus_stripped(s)) && digits_value(
        plus_stripped(s),
    ) <= 255 {
        Some(digits_value(plus_stripped(s)) as u8)
    } else {
        None
    }
}

/// `s` without a leading `+`.
pub open spec fn plus_stripped(s: Seq<char>) -> Seq<char> {
    if s.len() > 0 && s[0] == '+' {
        s.drop_first()
    } else {
        s
    }
}

/// Whether every character of `s` is an ASCII digit.
pub open spec fn all_digits(s: Seq<char>) -> bool {
    forall|i: int| 0 <= i < s.len() ==> is_digit(#[trigger] s[i])
}

/// The value of a run of ASCII digits.
pub open spec fn digits_value(s: Seq<char>) -> int
    decreases s.len(),
{
    if s.len() == 0 {
        0
    } else {
        digits_value(s.drop_last()) * 10 + (s.last() as int - '0' as int)
    }
}

/// The NCV level a display shows: one level per `-` segment (counted as a
/// `u8`, so modulo 256), `EF` for no field, or a number some firmware might
/// send instead.
pub open spec fn ncv_level_of(s: Seq<char>) -> Option<u8> {
    let dashes = (count_char(s, '-') % 256) as u8;
    if dashes > 0 {
        Some(dashes)
    } else if s == seq!['E', 'F'] {
        Some(0)
    } else {
        u8_of(s)
    }
}

proof fn lemma_digits_value_grows(s: Seq<char>, k: int)
    requires
        0 <= k <= s.len(),
        forall|i: int| 0 <= i < s.len() ==> is_digit(#[trigger] s[i]),
    ensures
        digits_value(s.take(k)) <= digits_value(s),
    decreases s.len() - k,
{
    if k < s.len() {
        assert(s.take(k + 1).drop_last() =~= s.take(k));
        assert(s.take(k + 1).last() == s[k]);
        assert(is_digit(s[k]));
        lemma_digits_nonneg(s.take(k));
        lemma_digits_value_grows(s, k + 1);
    } else {
        assert(s.take(k) =~= s);
    }
}

proof fn lemma_digits_nonneg(s: Seq<char>)
    requires
        forall|i: int| 0 <= i < s.len() ==> is_digit(#[trigger] s[i]),
    ensures
        digits_value(s) >= 0,
    decreases s.len(),
{
    if s.len() > 0 {
        assert(is_digit(s.last()));
        lemma_digits_nonneg(s.drop_last());
    }
}

/// The NCV level on the display, `None` for text that is none of its forms.
pub fn ncv_level(display_compact: &str) -> (r: Option<u8>)
    ensures
        r == ncv_level_of(display_compact@),
{
    let s = chars_of(display_compact);
    let n = s.len();
    let mut dashes: usize = 0;
    let mut i: usize = 0;
    while i < n
        invariant
            n == s@.len(),
            i <= n,
            dashes == count_char(s@.take(i as int), '-'),
            dashes <= i,
        decreases n - i,
    {
        assert(s@.take(i + 1).drop_last() =~= s@.take(i as int));
        if s[i] == '-' {
            dashes = dashes + 1;
        }
        i = i + 1;
    }
    assert(s@.take(n as int) =~= s@);
    let d = (dashes % 256) as u8;
    if d > 0 {
        return Some(d);
    }
    if n == 2 && s[0] == 'E' && s[1] == 'F' {
        assert(s@ =~= seq!['E', 'F']);
        return Some(0);
    }
    assert(s@ != seq!['E', 'F']);
    let ghost body = plus_stripped(s@);
    let start: usize = if n > 0 && s[0] == '+' {
        1
    } else {
        0
    };
    assert(body =~= s@.subrange(start as int, n as int));
    assert(ncv_level_of(s@) == u8_of(s@));
    if start == n {
        return None;
    }
    let mut v: u32 = 0;
    let mut k: usize = start;
    while k < n
        invariant
            start <= k <= n,
            n == s@.len(),
            s@ == display_compact@,
            ncv_level_of(s@) == u8_of(s@),
            body == plus_stripped(s@),
            body.len() > 0,
            body == s@.subrange(start as int, n as int),
            forall|j: int| 0 <= j < k - start ==> is_digit(#[trigger] body[j]),
            v == digits_value(body.take(k - start)),
            v <= 255,
        decreases n - k,
    {
        let c = s[k];
        assert(body[k - start] == c);
        if !('0' <= c && c <= '9') {
            assert(!is_digit(body[k - start]));
            assert(!all_digits(body));
            assert(u8_of(s@) is None);
            return None;
        }
        assert(body.take(k - start + 1).drop_last() =~= body.take(k - start));
        assert(body.take(k - start + 1).last() == c);
        let nv = v * 10 + (c as u32 - '0' as u32);
        if nv > 255 {
            proof {
                if all_digits(body) {
                    lemma_digits_value_grows(body, k - start + 1);
                }
                assert(u8_of(s@) is None);
            }
            return None;
        }
        v = nv;
        k = k + 1;
    }
    assert(body.take(n - start) =~= body);
    Some(v as u8)
}

/// `s` has an `O` directly followed by an `L`.
pub open spec fn has_ol(s: Seq<char>) -> bool {
    exists|i: int| 0 <= i && i + 1 < s.len() && #[trigger] s[i] == 'O' && s[i + 1] == 'L'
}

/// Whether the display spells overload: `OL` once its decimal point is
/// dropped, wherever the point landed among the letters (`.OL`, `O.L`,
/// `OL.`).
pub open spec fn shows_overload(s: Seq<char>) -> bool {
    has_ol(without_char(s, '.'))
}

/// `s` without `c`, built.
fn remove_char(s: &Vec<char>, c: char) -> (out: Vec<char>)
    ensures
        out@ == without_char(s@, c),
{
    let mut out: Vec<char> = Vec::new();
    let mut k: usize = 0;
    while k < s.len()
        invariant
            k <= s.len(),
            out@ == without_char(s@.take(k as int), c),
        decreases s.len() - k,
    {
        assert(s@.take(k + 1).drop_last() =~= s@.take(k as int));
        if s[k] != c {
            out.push(s[k]);
        }
        k = k + 1;
    }
    assert(s@.take(s.len() as int) =~= s@);
    out
}

/// Whether the display spells overload.
pub fn is_overload(display_compact: &str) -> (b: bool)
    ensures
        b == shows_overload(display_compact@),
{
    let s = chars_of(display_compact);
    let t = remove_char(&s, '.');
    let mut i: usize = 0;
    while i < t.len() && i + 1 < t.len()
        invariant
            t@ == without_char(display_compact@, '.'),
            forall|j: int| 0 <= j < i ==> !(#[trigger] t@[j] == 'O' && t@[j + 1] == 'L'),
        decreases t.len() - i,
    {
        if t[i] == 'O' && t[i + 1] == 'L' {
            assert(t@[i as int] == 'O' && t@[i + 1] == 'L');
            return true;
        }
        i = i + 1;
    }
    false
}

/// What the display text of a reading in `mode` reads as: an NCV level in
/// NCV (level 0 for text that is none of its forms), an overload where it
/// spells `OL`, and otherwise the number it writes, or an overload where it
/// writes none.
pub open spec fn display_value(mode: Mode, c: Seq<char>) -> MeasuredValue {
    if mode == Mode::Ncv {
        MeasuredValue::NcvLevel(
            match ncv_level_of(c) {
                Some(l) => l,
                None => 0,
            },
        )
    } else if shows_overload(c) {
        MeasuredValue::Overload
    } else {
        match decimal_of(c) {
            Some(d) => MeasuredValue::Normal(d),
            None => MeasuredValue::Overload,
        }
    }
}

/// The rung of `ranges` a range nibble picks, as (unit, label); empty
/// strings where it picks none.
pub open spec fn rung_unit(ranges: Seq<RangeInfo>, range: u8) -> &'static str {
    match lookup_range(ranges, range) {
        Some(x) => x.unit,
        None => "",
    }
}

/// The label of the rung of `ranges` a range nibble picks; empty where it
/// picks none.
pub open spec fn rung_label(ranges: Seq<RangeInfo>, range: u8) -> &'static str {
    match lookup_range(ranges, range) {
        Some(x) => x.label,
        None => "",
    }
}

/// The display text of a payload: bytes 2-8.
pub open spec fn display_text(p: Seq<u8>) -> Seq<char> {
    utf8_lossy(p.subrange(2, 9))
}

/// What a measurement payload `p` in `mode` reads as, with `ranges` the
/// model's range table for the mode.
pub open spec fn ut61_reading(m: Measurement, p: Seq<u8>, mode: Mode, ranges: Seq<RangeInfo>) -> bool {
    &&& m.mode@ == mode_label(mode)@
    &&& m.mode_raw == p[0] as u16
    &&& m.range_raw == p[1] & 0x0F
    &&& m.value == display_value(mode, compact(display_text(p)))
    &&& m.unit == rung_unit(ranges, p[1] & 0x0F)
    &&& m.range_label == rung_label(ranges, p[1] & 0x0F)
    &&& m.progress == Some((p[9] * 10 + p[10]) as u16)
    &&& m.display_raw matches Some(d) && d@ == display_text(p)
    &&& m.flags == ut61_flags(mode, p[11] & 0x0F, p[12] & 0x0F, p[13] & 0x0F)
    &&& m.raw_payload@ == p.take(14)
}

/// What the parser makes of payload `p` with `table`: too short a payload
/// and an unknown mode byte are refused; anything else reads as
/// [`ut61_reading`] says.
pub open spec fn ut61_parsed<T: DeviceTable>(p: Seq<u8>, table: T, r: Result<Measurement, Error>) -> bool {
    if p.len() < 14 {
        r == Err::<Measurement, Error>(
            Error::PayloadTooShort { family: "ut61eplus", len: p.len() as usize, expected: 14 },
        )
    } else {
        match mode_of_byte(p[0]) {
            None => r == Err::<Measurement, Error>(Error::UnknownMode(p[0])),
            Some(mode) => r matches Ok(m) && ut61_reading(m, p, mode, table.spec_ranges(mode)),
        }
    }
}

/// The first `n` bytes of `payload`, copied.
pub fn prefix_vec(payload: &[u8], n: usize) -> (v: Vec<u8>)
    requires
        n <= payload@.len(),
    ensures
        v@ == payload@.take(n as int),
{
    let mut v: Vec<u8> = Vec::new();
    let mut i: usize = 0;
    while i < n
        invariant
            i <= n <= payload@.len(),
            v@ == payload@.take(i as int),
        decreases n - i,
    {
        v.push(payload[i]);
        i = i + 1;
        assert(v@ =~= payload@.take(i as int));
    }
    v
}

/// Parse a UT61E+/UT61B+/UT61D+/UT161 measurement payload with the model's
/// range `table`.
///
/// Layout: byte 0 mode (raw); byte 1 range (low nibble); bytes 2-8 the
/// display, 7 ASCII characters; bytes 9-10 the bar graph as two decimal
/// digits (tens, ones); bytes 11-13 the flag nibbles. Bytes past 14 are
/// ignored.
pub fn parse_measurement<T: DeviceTable>(payload: &[u8], table: &T) -> (r: Result<Measurement, Error>)
    ensures
        ut61_parsed(payload@, *table, r),
{
    if payload.len() < 14 {
        return Err(Error::PayloadTooShort { family: "ut61eplus", len: payload.len(), expected: 14 });
    }
    let mode_byte = payload[0];
    let range_byte = payload[1] & 0x0F;
    let mode = match Mode::from_byte(mode_byte) {
        Ok(m) => m,
        Err(e) => {
            return Err(e);
        },
    };
    let display_bytes = vstd::slice::slice_subrange(payload, 2, 9);
    let display_raw = lossy_string(display_bytes);
    let chars = chars_of(display_raw.as_str());
    let compacted = compact_chars(&chars);
    let display_compact = string_from_chars(&compacted);
    let value = match mode {
        Mode::Ncv => {
            let level = match ncv_level(display_compact.as_str()) {
                Some(l) => l,
                None => 0,
            };
            MeasuredValue::NcvLevel(level)
        },
        _ => {
            if is_overload(display_compact.as_str()) {
                MeasuredValue::Overload
            } else {
                match parse_decimal(&compacted) {
                    Some(d) => MeasuredValue::Normal(d),
                    None => MeasuredValue::Overload,
                }
            }
        },
    };
    let progress: u16 = payload[9] as u16 * 10 + payload[10] as u16;
    let flags = parse_flags(mode, payload[11] & 0x0F, payload[12] & 0x0F, payload[13] & 0x0F);
    let info = table.range_info(mode, range_byte);
    let (unit, range_label) = match info {
        Some(x) => (x.unit, x.label),
        None => ("", ""),
    };
    Ok(
        Measurement {
            mode: mode.as_static_str().to_owned(),
            mode_raw: mode_byte as u16,
            range_raw: range_byte,
            value,
            unit,
            range_label,
            progress: Some(progress),
            display_raw: Some(display_raw),
            flags,
            raw_payload: prefix_vec(payload, 14),
        },
    )
}

/// The 14-byte payload made of parts: the mode byte, the range nibble with
/// its `0x30` prefix, the 7 display bytes, the bar graph's (tens, ones)
/// digits and the three flag nibbles with their `0x30` prefix.
pub open spec fn built_payload(mode: u8, range: u8, display: Seq<u8>, progress: (u8, u8), flags: (u8, u8, u8)) -> Seq<u8> {
    seq![
        mode,
        range | 0x30,
        display[0],
        display[1],
        display[2],
        display[3],
        display[4],
        display[5],
        display[6],
        progress.0,
        progress.1,
        flags.0 | 0x30,
        flags.1 | 0x30,
        flags.2 | 0x30,
    ]
}

/// A nibble behind the `0x30` prefix reads back as itself.
proof fn lemma_prefixed_nibble(x: u8)
    requires
        x < 16,
    ensures
        (x | 0x30) & 0x0F == x,
{
    assert((x | 0x30) & 0x0F == x) by (bit_vector)
        requires
            x < 16,
    ;
}

/// A payload built from parts reads back as those parts: the mode byte, the
/// range nibble, the bar graph, the flags of the three nibbles, and the
/// display bytes as text. Every mode byte up to `0x1E` is accepted.
pub proof fn built_payload_reads_back<T: DeviceTable>(
    mode: u8,
    range: u8,
    display: Seq<u8>,
    progress: (u8, u8),
    flags: (u8, u8, u8),
    table: T,
    r: Result<Measurement, Error>,
)
    requires
        mode <= 0x1E,
        range < 16,
        flags.0 < 16,
        flags.1 < 16,
        flags.2 < 16,
        display.len() == 7,
        ut61_parsed(built_payload(mode, range, display, progress, flags), table, r),
    ensures
        r is Ok,
        r->Ok_0.mode_raw == mode,
        r->Ok_0.range_raw == range,
        r->Ok_0.progress == Some((progress.0 * 10 + progress.1) as u16),
        r->Ok_0.flags == ut61_flags(mode_of_byte(mode)->0, flags.0, flags.1, flags.2),
        r->Ok_0.display_raw matches Some(d) && d@ == utf8_lossy(display),
        r->Ok_0.raw_payload@ == built_payload(mode, range, display, progress, flags),
{
    let p = built_payload(mode, range, display, progress, flags);
    super::mode::lemma_mode_byte_onto(mode);
    let m = choose|m: Mode| mode_byte(m) == mode;
    super::mode::lemma_mode_byte_round_trip(m);
    lemma_prefixed_nibble(range);
    lemma_prefixed_nibble(flags.0);
    lemma_prefixed_nibble(flags.1);
    lemma_prefixed_nibble(flags.2);
    assert(p.subrange(2, 9) =~= display);
    assert(p.take(14) =~= p);
}

/// Build a 14-byte payload from parts: the mode byte, the range nibble
/// (`0x30` prefix added), the 7 display bytes, the bar graph's (tens, ones)
/// digits and the three flag nibbles (`0x30` prefix added).
pub fn make_payload(
    mode: u8,
    range: u8,
    display: &[u8; 7],
    progress: (u8, u8),
    flags: (u8, u8, u8),
) -> (v: Vec<u8>)
    ensures
        v@ == built_payload(mode, range, display@, progress, flags),
{
    vec![
        mode,
        range | 0x30,
        display[0],
        display[1],
        display[2],
        display[3],
        display[4],
        display[5],
        display[6],
        progress.0,
        progress.1,
        flags.0 | 0x30,
        flags.1 | 0x30,
        flags.2 | 0x30,
    ]
}

/// A measurement the parser makes of a payload built by [`make_payload`],
/// read with the UT61E+ table: exactly the `Ok` reading
/// [`parse_measurement`] gives of that payload, which always parses.
pub fn make_test_measurement(
    mode: u8,
    range: u8,
    display: &[u8; 7],
    progress: (u8, u8),
    flags: (u8, u8, u8),
) -> (m: Measurement)
    requires
        mode <= 0x1E,
    ensures
        ut61_parsed(
            built_payload(mode, range, display@, progress, flags),
            Ut61ePlusTable,
            Ok::<Measurement, Error>(m),
        ),
        match mode_of_byte(mode) {
            Some(md) => ut61_reading(
                m,
                built_payload(mode, range, display@, progress, flags),
                md,
                Ut61ePlusTable.spec_ranges(md),
            ),
            None => false,
        },
{
    let table = Ut61ePlusTable::new();
    let payload = make_payload(mode, range, display, progress, flags);
    proof {
        super::mode::lemma_mode_byte_onto(mode);
    }
    match parse_measurement(payload.as_slice(), &table) {
        Ok(m) => m,
        Err(_) => {
            assert(false);
            unreached()
        },
    }
}

} // verus!
