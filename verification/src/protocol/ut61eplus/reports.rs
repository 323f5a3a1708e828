//! What a measurement payload carries outside the documented layout and the
//! captures on record. The reading is parsed the same either way.
use super::family::{is_ack, is_name_reply, name_from_reply};
use super::mode::{Mode, mode_label, mode_of_byte};
use super::parse::{display_text, is_overload, ncv_level, ncv_level_of, parse_measurement, shows_overload, ut61_parsed};
use super::tables::{DeviceTable, lookup_range};
use crate::measurement::{Error, Measurement, hex_byte_text, push_hex_byte};
use crate::text::{
    chars_of, compact, compact_chars, decimal_of, decimal_text, hex_digit_upper, hex_upper,
    lossy_string, parse_decimal, push_char, push_decimal, push_str, string_from_chars,
};
use vstd::prelude::*;

verus! {

/// What `{:?}` makes of a string: its Rust debug form, quoted and escaped.
pub uninterp spec fn debug_text(s: Seq<char>) -> Seq<char>;

/// Whether `c` is printable ASCII that the debug form leaves as it is:
/// space to `~`, but for the quote and the backslash.
pub open spec fn debug_plain(c: char) -> bool {
    ' ' <= c <= '~' && c != '"' && c != '\\'
}

/// A string's debug form, `format!("{:?}", s)`: quoted, with quotes,
/// backslashes and unprintable characters escaped. Its result is named
/// [`debug_text`]. Claimed besides: a string of printable ASCII with no
/// quote or backslash comes back between quotes, unchanged. How the other
/// characters are escaped is left to the name.
#[verifier::external_body]
fn debug_string(s: &str) -> (r: String)
    ensures
        r@ == debug_text(s@),
        (forall|i: int| 0 <= i < s@.len() ==> debug_plain(#[trigger] s@[i])) ==> r@ == seq!['"']
            + s@ + seq!['"'],
{
    format!("{:?}", s)
}

/// How a report shows text `s`: between quotes, unchanged, where it is
/// printable ASCII with no quote or backslash; its debug form otherwise.
pub open spec fn debug_shown(s: Seq<char>) -> Seq<char> {
    if forall|i: int| 0 <= i < s.len() ==> debug_plain(#[trigger] s[i]) {
        seq!['"'] + s + seq!['"']
    } else {
        debug_text(s)
    }
}

/// A byte as two upper-case hex digits.
pub open spec fn hex2(b: u8) -> Seq<char> {
    seq![hex_digit_upper(b / 16), hex_digit_upper(b % 16)]
}

/// The items of a byte list as `{:02X?}` writes them, without brackets.
pub open spec fn hex_items(bs: Seq<u8>) -> Seq<char>
    decreases bs.len(),
{
    if bs.len() == 0 {
        Seq::<char>::empty()
    } else if bs.len() == 1 {
        hex2(bs[0])
    } else {
        hex_items(bs.drop_last()) + ", "@ + hex2(bs.last())
    }
}

/// A byte list as `{:02X?}` writes it: `[AB, 0C]`.
pub open spec fn hex_list(bs: Seq<u8>) -> Seq<char> {
    seq!['['] + hex_items(bs) + seq![']']
}

/// One report: `ut61eplus: unrecognised <what>: <detail>`.
pub open spec fn report_line(what: Seq<char>, detail: Seq<char>) -> Seq<char> {
    "ut61eplus: unrecognised "@ + what + ": "@ + detail
}

/// The report of a byte whose high nibble is not the `0x30` prefix.
#[verifier::opaque]
pub open spec fn prefix_report(p: Seq<u8>, i: int) -> Seq<Seq<char>> {
    if p[i] & 0xF0 != 0x30 {
        seq![report_line("byte prefix"@, "payload["@ + decimal_text(i as nat) + "] = "@ + hex_byte_text(p[i]))]
    } else {
        seq![]
    }
}

/// The display text of payload `p` with its whitespace removed.
pub open spec fn display_compact(p: Seq<u8>) -> Seq<char> {
    compact(display_text(p))
}

/// What a measurement payload raises with `table`, in order: bytes past
/// the 14 of a reading; a mode byte no mode has (and nothing more, as the
/// payload is refused); a mode the model's dial does not reach, where its
/// dial is described, or else a range byte with no rung in a mode other
/// than NCV;
/// Peak flag bits on a model without Peak; a range or flag byte without its
/// `0x30` prefix; a bar graph that is not two decimal digits of at most 46
/// segments; and display text that is none of the NCV forms in NCV, or
/// neither an overload nor a number elsewhere. A payload too short to read
/// raises nothing.
pub open spec fn ut61_reports<T: DeviceTable>(p: Seq<u8>, table: T) -> Seq<Seq<char>> {
    if p.len() < 14 {
        seq![]
    } else {
        let r1: Seq<Seq<char>> = if p.len() > 14 {
            seq![report_line("frame"@, decimal_text(p.len()) + " bytes: "@ + hex_list(p))]
        } else {
            seq![]
        };
        match mode_of_byte(p[0]) {
            None => r1 + seq![report_line("mode byte"@, hex_byte_text(p[0]))],
            Some(mode) => r1 + field_reports(p, table, mode) + value_reports(p, mode),
        }
    }
}

/// The report of a mode the model's dial does not reach, where its dial is
/// described, or else of a range byte with no rung in a mode other than
/// NCV.
#[verifier::opaque]
pub open spec fn range_report<T: DeviceTable>(p: Seq<u8>, table: T, mode: Mode) -> Seq<Seq<char>> {
    let range = p[1] & 0x0F;
    let dial = table.spec_dial_modes();
    if dial.len() > 0 && !dial.contains(mode) {
        seq![report_line("mode byte"@, hex_byte_text(p[0]) + " ("@ + mode_label(mode)@ + "), not on the "@
            + table.spec_model_name()@ + " dial"@)]
    } else if lookup_range(table.spec_ranges(mode), range) is None && mode != Mode::Ncv {
        seq![report_line("range byte"@, "mode "@ + hex_byte_text(p[0]) + " range "@ + decimal_text(range as nat))]
    } else {
        seq![]
    }
}

/// The report of Peak flag bits on a model without Peak.
#[verifier::opaque]
pub open spec fn peak_report<T: DeviceTable>(p: Seq<u8>, table: T) -> Seq<Seq<char>> {
    if p[13] & 0x06 != 0 && table.spec_peak_modes().len() == 0 {
        seq![report_line("flag bits"@, hex_list(p.subrange(11, 14)) + ", Peak on a model without it"@)]
    } else {
        seq![]
    }
}

/// The report of a bar graph that is not two decimal digits of at most 46
/// segments.
#[verifier::opaque]
pub open spec fn bar_report(p: Seq<u8>) -> Seq<Seq<char>> {
    if p[10] > 9 || p[9] * 10 + p[10] > 46 {
        seq![report_line("bar graph"@, hex_list(p.subrange(9, 11)))]
    } else {
        seq![]
    }
}

/// What the range, flag and bar graph bytes of a reading in `mode` raise.
pub open spec fn field_reports<T: DeviceTable>(p: Seq<u8>, table: T, mode: Mode) -> Seq<Seq<char>> {
    range_report(p, table, mode) + peak_report(p, table) + prefix_report(p, 1) + prefix_report(p, 11)
        + prefix_report(p, 12) + prefix_report(p, 13) + bar_report(p)
}

/// What the display text of a reading in `mode` raises.
pub open spec fn value_reports(p: Seq<u8>, mode: Mode) -> Seq<Seq<char>> {
    let c = display_compact(p);
    if mode == Mode::Ncv {
        if ncv_level_of(c) is None {
            seq![report_line("NCV display text"@, debug_shown(c) + ", shown as level 0"@)]
        } else {
            seq![]
        }
    } else if !shows_overload(c) && decimal_of(c) is None {
        seq![report_line("display text"@, debug_shown(c) + ", shown as OL"@)]
    } else {
        seq![]
    }
}

/// Whether the strings `r` read as `texts`.
pub open spec fn texts_are(r: Seq<String>, texts: Seq<Seq<char>>) -> bool {
    &&& r.len() == texts.len()
    &&& forall|i: int| 0 <= i < r.len() ==> (#[trigger] r[i])@ == texts[i]
}

/// Appends `bs` as `{:02X?}` writes it.
fn push_hex_list(s: &mut String, bs: &[u8])
    ensures
        final(s)@ == old(s)@ + hex_list(bs@),
{
    push_char(s, '[');
    let ghost head = s@;
    let mut i: usize = 0;
    while i < bs.len()
        invariant
            i <= bs@.len(),
            s@ == head + hex_items(bs@.take(i as int)),
        decreases bs@.len() - i,
    {
        let ghost before = s@;
        if i > 0 {
            push_str(s, ", ");
        }
        push_char(s, hex_upper(bs[i] / 16));
        push_char(s, hex_upper(bs[i] % 16));
        proof {
            let t = bs@.take(i + 1);
            assert(t.drop_last() =~= bs@.take(i as int));
            assert(t.last() == bs@[i as int]);
            if i == 0 {
                assert(t.len() == 1);
                assert(hex_items(bs@.take(0)) =~= Seq::<char>::empty());
            }
        }
        i = i + 1;
        assert(s@ =~= head + hex_items(bs@.take(i as int)));
    }
    assert(bs@.take(bs@.len() as int) =~= bs@);
    push_char(s, ']');
    assert(s@ =~= old(s)@ + hex_list(bs@));
}

/// `ut61eplus: unrecognised <what>: `.
fn report_head(what: &str) -> (s: String)
    ensures
        s@ == "ut61eplus: unrecognised "@ + what@ + ": "@,
{
    let mut s = String::new();
    push_str(&mut s, "ut61eplus: unrecognised ");
    push_str(&mut s, what);
    push_str(&mut s, ": ");
    assert(s@ =~= "ut61eplus: unrecognised "@ + what@ + ": "@);
    s
}

/// Whether `line` is the one-line report list `lines`, or `None` the empty one.
pub open spec fn line_is(line: Option<String>, lines: Seq<Seq<char>>) -> bool {
    match line {
        Some(x) => lines == seq![x@],
        None => lines.len() == 0,
    }
}

/// The report of byte `i` where it lacks its prefix.
fn prefix_line(p: &[u8], i: usize) -> (r: Option<String>)
    requires
        i < p@.len(),
    ensures
        line_is(r, prefix_report(p@, i as int)),
{
    reveal(prefix_report);
    if p[i] & 0xF0 != 0x30 {
        let mut s = report_head("byte prefix");
        push_str(&mut s, "payload[");
        push_decimal(&mut s, i);
        push_str(&mut s, "] = ");
        push_hex_byte(&mut s, p[i]);
        assert(s@ =~= report_line(
            "byte prefix"@,
            "payload["@ + decimal_text(i as nat) + "] = "@ + hex_byte_text(p@[i as int]),
        ));
        Some(s)
    } else {
        None
    }
}

/// Appends the report `line`, if any, to `out`, which reads as `texts`.
fn push_line(out: &mut Vec<String>, line: Option<String>, Ghost(texts): Ghost<Seq<Seq<char>>>, Ghost(lines): Ghost<Seq<Seq<char>>>)
    requires
        texts_are(old(out)@, texts),
        line_is(line, lines),
    ensures
        texts_are(final(out)@, texts + lines),
{
    match line {
        Some(x) => {
            out.push(x);
        },
        None => {},
    }
    assert(texts + lines =~= match line {
        Some(x) => texts.push(x@),
        None => texts,
    });
}

/// The report of a range byte with no rung.
fn range_line<T: DeviceTable>(payload: &[u8], table: &T, mode: Mode) -> (r: Option<String>)
    requires
        payload@.len() >= 14,
    ensures
        line_is(r, range_report(payload@, *table, mode)),
{
    reveal(range_report);
    let ghost p = payload@;
    let range = payload[1] & 0x0F;
    let dial = table.dial_modes();
    if dial.len() > 0 && !contains_mode(&dial, mode) {
        let mut s = report_head("mode byte");
        push_hex_byte(&mut s, payload[0]);
        push_str(&mut s, " (");
        push_str(&mut s, mode.as_static_str());
        push_str(&mut s, "), not on the ");
        push_str(&mut s, table.model_name());
        push_str(&mut s, " dial");
        assert(s@ =~= report_line("mode byte"@, hex_byte_text(p[0]) + " ("@ + mode_label(mode)@ + "), not on the "@
            + table.spec_model_name()@ + " dial"@));
        return Some(s);
    }
    let info = table.range_info(mode, range);
    if info.is_none() && mode != Mode::Ncv {
        let mut s = report_head("range byte");
        push_str(&mut s, "mode ");
        push_hex_byte(&mut s, payload[0]);
        push_str(&mut s, " range ");
        push_decimal(&mut s, range as usize);
        assert(s@ =~= report_line("range byte"@, "mode "@ + hex_byte_text(p[0]) + " range "@ + decimal_text(range as nat)));
        Some(s)
    } else {
        None
    }
}

/// Whether `modes` holds `mode`.
fn contains_mode(modes: &Vec<Mode>, mode: Mode) -> (b: bool)
    ensures
        b == modes@.contains(mode),
{
    let mut i: usize = 0;
    while i < modes.len()
        invariant
            i <= modes@.len(),
            forall|j: int| 0 <= j < i ==> modes@[j] != mode,
        decreases modes.len() - i,
    {
        if modes[i] == mode {
            return true;
        }
        i = i + 1;
    }
    false
}

/// The report of Peak flag bits on a model without Peak.
fn peak_line<T: DeviceTable>(payload: &[u8], table: &T) -> (r: Option<String>)
    requires
        payload@.len() >= 14,
    ensures
        line_is(r, peak_report(payload@, *table)),
{
    reveal(peak_report);
    let ghost p = payload@;
    let peaks = table.peak_modes();
    if payload[13] & 0x06 != 0 && peaks.len() == 0 {
        let mut s = report_head("flag bits");
        push_hex_list(&mut s, vstd::slice::slice_subrange(payload, 11, 14));
        push_str(&mut s, ", Peak on a model without it");
        assert(s@ =~= report_line("flag bits"@, hex_list(p.subrange(11, 14)) + ", Peak on a model without it"@));
        Some(s)
    } else {
        None
    }
}

/// The report of a bar graph out of its range.
fn bar_line(payload: &[u8]) -> (r: Option<String>)
    requires
        payload@.len() >= 14,
    ensures
        line_is(r, bar_report(payload@)),
{
    reveal(bar_report);
    let ghost p = payload@;
    let tens = payload[9];
    let ones = payload[10];
    if ones > 9 || tens as u16 * 10 + ones as u16 > 46 {
        let mut s = report_head("bar graph");
        push_hex_list(&mut s, vstd::slice::slice_subrange(payload, 9, 11));
        assert(s@ =~= report_line("bar graph"@, hex_list(p.subrange(9, 11))));
        Some(s)
    } else {
        None
    }
}

/// Appends what the range, flag and bar graph bytes raise.
fn push_field_reports<T: DeviceTable>(out: &mut Vec<String>, payload: &[u8], table: &T, mode: Mode, Ghost(texts): Ghost<Seq<Seq<char>>>)
    requires
        payload@.len() >= 14,
        texts_are(old(out)@, texts),
    ensures
        texts_are(final(out)@, texts + field_reports(payload@, *table, mode)),
{
    let ghost p = payload@;
    let ghost mut acc = texts;
    let l = range_line(payload, table, mode);
    push_line(out, l, Ghost(acc), Ghost(range_report(p, *table, mode)));
    proof {
        acc = acc + range_report(p, *table, mode);
    }
    let l = peak_line(payload, table);
    push_line(out, l, Ghost(acc), Ghost(peak_report(p, *table)));
    proof {
        acc = acc + peak_report(p, *table);
    }
    let l = prefix_line(payload, 1);
    push_line(out, l, Ghost(acc), Ghost(prefix_report(p, 1)));
    proof {
        acc = acc + prefix_report(p, 1);
    }
    let l = prefix_line(payload, 11);
    push_line(out, l, Ghost(acc), Ghost(prefix_report(p, 11)));
    proof {
        acc = acc + prefix_report(p, 11);
    }
    let l = prefix_line(payload, 12);
    push_line(out, l, Ghost(acc), Ghost(prefix_report(p, 12)));
    proof {
        acc = acc + prefix_report(p, 12);
    }
    let l = prefix_line(payload, 13);
    push_line(out, l, Ghost(acc), Ghost(prefix_report(p, 13)));
    proof {
        acc = acc + prefix_report(p, 13);
    }
    let l = bar_line(payload);
    push_line(out, l, Ghost(acc), Ghost(bar_report(p)));
    proof {
        acc = acc + bar_report(p);
        assert(acc =~= texts + field_reports(p, *table, mode));
    }
}

/// What the display text of a reading in `mode` raises.
fn value_report_line(payload: &[u8], mode: Mode) -> (r: Option<String>)
    requires
        payload@.len() >= 14,
    ensures
        line_is(r, value_reports(payload@, mode)),
{
    let ghost p = payload@;
    let display_bytes = vstd::slice::slice_subrange(payload, 2, 9);
    let display_raw = lossy_string(display_bytes);
    let chars = chars_of(display_raw.as_str());
    let compacted = compact_chars(&chars);
    let c = string_from_chars(&compacted);
    let ghost cv = display_compact(p);
    assert(c@ == cv);
    match mode {
        Mode::Ncv => {
            if ncv_level(c.as_str()).is_none() {
                let mut s = report_head("NCV display text");
                let d = debug_string(c.as_str());
                push_str(&mut s, d.as_str());
                push_str(&mut s, ", shown as level 0");
                assert(s@ =~= report_line("NCV display text"@, debug_shown(cv) + ", shown as level 0"@));
                Some(s)
            } else {
                None
            }
        },
        _ => {
            if !is_overload(c.as_str()) && parse_decimal(&compacted).is_none() {
                let mut s = report_head("display text");
                let d = debug_string(c.as_str());
                push_str(&mut s, d.as_str());
                push_str(&mut s, ", shown as OL");
                assert(s@ =~= report_line("display text"@, debug_shown(cv) + ", shown as OL"@));
                Some(s)
            } else {
                None
            }
        },
    }
}

/// What a measurement payload raises with `table`.
pub fn measurement_reports<T: DeviceTable>(payload: &[u8], table: &T) -> (r: Vec<String>)
    ensures
        texts_are(r@, ut61_reports(payload@, *table)),
{
    let mut out: Vec<String> = Vec::new();
    let ghost p = payload@;
    if payload.len() < 14 {
        return out;
    }
    let ghost mut texts: Seq<Seq<char>> = seq![];
    if payload.len() > 14 {
        let mut s = report_head("frame");
        push_decimal(&mut s, payload.len());
        push_str(&mut s, " bytes: ");
        push_hex_list(&mut s, payload);
        assert(s@ =~= report_line("frame"@, decimal_text(p.len()) + " bytes: "@ + hex_list(p)));
        let ghost line = seq![s@];
        push_line(&mut out, Some(s), Ghost(texts), Ghost(line));
        proof {
            texts = texts + line;
        }
    }
    let mode = match Mode::from_byte(payload[0]) {
        Ok(m) => m,
        Err(_) => {
            let mut s = report_head("mode byte");
            push_hex_byte(&mut s, payload[0]);
            assert(s@ =~= report_line("mode byte"@, hex_byte_text(p[0])));
            let ghost line = seq![s@];
            push_line(&mut out, Some(s), Ghost(texts), Ghost(line));
            assert(texts + line =~= ut61_reports(p, *table));
            return out;
        },
    };
    push_field_reports(&mut out, payload, table, mode, Ghost(texts));
    proof {
        texts = texts + field_reports(p, *table, mode);
    }
    let l = value_report_line(payload, mode);
    push_line(&mut out, l, Ghost(texts), Ghost(value_reports(p, mode)));
    proof {
        assert(texts + value_reports(p, mode) =~= ut61_reports(p, *table));
    }
    out
}

/// The report of a frame that is none of the three the family sends: a
/// 14-byte reading, the `FF 00` ack, or a Get Name reply.
pub open spec fn unknown_frame_reports(p: Seq<u8>) -> Seq<Seq<char>> {
    if p.len() != 14 && p != seq![0xFFu8, 0x00u8] && !is_name_reply(p) {
        seq![report_line("frame"@, decimal_text(p.len()) + " bytes: "@ + hex_list(p))]
    } else {
        seq![]
    }
}

/// What a frame that is none of the three the family sends raises; a
/// reading-sized frame is never reported here, as the reading path parses
/// it instead.
pub fn report_unknown_frame(payload: &[u8]) -> (r: Option<String>)
    ensures
        line_is(r, unknown_frame_reports(payload@)),
{
    if payload.len() != 14 && !is_ack(payload) && name_from_reply(payload).is_none() {
        let mut s = report_head("frame");
        push_decimal(&mut s, payload.len());
        push_str(&mut s, " bytes: ");
        push_hex_list(&mut s, payload);
        assert(s@ =~= report_line("frame"@, decimal_text(payload@.len()) + " bytes: "@ + hex_list(payload@)));
        Some(s)
    } else {
        None
    }
}

/// Parse a measurement payload with `table`, with what it raises.
pub fn parse_measurement_reporting<T: DeviceTable>(payload: &[u8], table: &T) -> (r: (Result<Measurement, Error>, Vec<String>))
    ensures
        ut61_parsed(payload@, *table, r.0),
        texts_are(r.1@, ut61_reports(payload@, *table)),
{
    (parse_measurement(payload, table), measurement_reports(payload, table))
}

} // verus!
