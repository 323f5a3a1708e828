//! What a packet carries that no documented pattern covers. The reading is
//! parsed the same either way; each report names the model by its registry
//! id, what was not recognised, and the low nibbles of data bytes 1-9.
use super::digits::{assemble_value, assembled_text, bad_digit};
use super::fields::{Ut803Fields, Ut804Fields, ut803_coupling, ut803_positions};
use super::model::{Model, model_id, ut803_info, ut803_mode_info, ut804_dc_by_default, ut804_info, ut804_mode_info};
use super::packet::{Coupling, nibbles_of, whole_packet};
use super::parse::{
    info_or_unknown, parse_measurement_ut803, parse_ut804_layout, ut803_fields, ut803_parsed,
    ut804_format, ut804_parsed, ut804_positions,
};
use crate::measurement::{Error, Measurement};
use crate::text::{decimal_of, hex_digit_upper, hex_upper, push_char, push_str};
use vstd::prelude::*;

verus! {

/// The text of one report: `<id>: unrecognised <what>: nibbles <hex>`, one
/// upper-case hex digit per nibble.
pub open spec fn report_text(id: &'static str, what: &'static str, nibbles: Seq<u8>) -> Seq<char> {
    id@ + ": unrecognised "@ + what@ + ": nibbles "@ + nibbles.map_values(|n: u8| hex_digit_upper(n))
}

/// Whether digit `i` is one no documented pattern has: past `0xA`, or a
/// blank anywhere but at `blank`.
pub open spec fn odd_digit(digits: Seq<u8>, blank: int, i: int) -> bool {
    digits[i] > 0xA || (digits[i] == 0xA && i != blank)
}

/// The reports the digits of a reading raise: an undocumented digit nibble,
/// then, where the digits still make text, text that makes no number.
pub open spec fn digit_reports(digits: Seq<u8>, blank: int, dp: u8, negative: bool) -> Seq<&'static str> {
    let r1: Seq<&'static str> = if exists|i: int| 0 <= i < digits.len() && odd_digit(digits, blank, i) {
        seq!["digit nibble"]
    } else {
        seq![]
    };
    if bad_digit(digits) is None && decimal_of(assembled_text(digits, dp, negative)) is None {
        r1 + seq!["value"]
    } else {
        r1
    }
}

/// What a whole UT804-layout packet raises, in order: undefined status bits
/// (bit 3, or MAN and AUTO together), a coupling past 3 or on a mode
/// without one, a (mode, range) pair outside the table, and then either an
/// overload pattern other than blank followed by blank, `C` or `F`, or what
/// the digits raise (digit 5 being the documented blank). The idle frame
/// raises nothing of its digits.
pub open spec fn ut804_report_kinds(p: Seq<u8>) -> Seq<&'static str> {
    let n = nibbles_of(p);
    let (range, mode, acdc, status) = ut804_positions(p);
    let (negative, dp, _) = ut804_format(p);
    let s1: Seq<&'static str> = if status & 0x8 != 0 || status & 0x3 == 0x3 {
        seq!["status bits"]
    } else {
        seq![]
    };
    let s2: Seq<&'static str> = if acdc > 3 || (acdc != 0 && !ut804_dc_by_default(mode)) {
        seq!["ac/dc nibble"]
    } else {
        seq![]
    };
    let s3: Seq<&'static str> = if ut804_info(mode, range) is None {
        seq!["mode/range pair"]
    } else {
        seq![]
    };
    let s4: Seq<&'static str> = if n[0] == 0xA {
        if n[1] != 0xA && n[1] != 0xC && n[1] != 0xF {
            seq!["overload pattern"]
        } else {
            seq![]
        }
    } else if n[3] == 0xB {
        seq![]
    } else {
        digit_reports(n.take(5), 4, dp, negative)
    };
    s1 + s2 + s3 + s4
}

/// What a whole UT803 packet raises, in order: undefined status bits
/// (position 8 bit 1, position 9 bit 0, or the alt bit outside frequency
/// and temperature), a (mode, range) pair outside the table, volts with
/// both or neither coupling bit, and, short of an overload, what the digits
/// raise (the UT803 documents no blank).
pub open spec fn ut803_report_kinds(p: Seq<u8>) -> Seq<&'static str> {
    let n = ut803_positions(p);
    let (range, mode, nib8, nib9, nib10) = ut803_fields(p);
    let alt = nib8 & 0x8 != 0;
    let info = ut803_info(mode, range, alt);
    let (_, _, dp) = info_or_unknown(info);
    let s1: Seq<&'static str> = if nib8 & 0x2 != 0 || nib9 & 0x1 != 0 || (alt && mode != 0x2
        && mode != 0x4) {
        seq!["status bits"]
    } else {
        seq![]
    };
    let s2: Seq<&'static str> = if info is None {
        seq!["mode/range pair"]
    } else {
        seq![]
    };
    let c = ut803_coupling(nib10);
    let s3: Seq<&'static str> = if info is Some && mode == 0xB && c != Some(Coupling::Dc) && c
        != Some(Coupling::Ac) {
        seq!["ac/dc bits"]
    } else {
        seq![]
    };
    let s4: Seq<&'static str> = if nib8 & 0x1 != 0 {
        seq![]
    } else {
        digit_reports(n.subrange(2, 6), -1, dp, nib8 & 0x4 != 0)
    };
    s1 + s2 + s3 + s4
}

/// Whether `r` holds the reports `kinds` for the model with registry id
/// `id`, with `nibbles` the nibbles they show.
pub open spec fn reports_are(r: Seq<String>, id: &'static str, kinds: Seq<&'static str>, nibbles: Seq<u8>) -> bool {
    &&& r.len() == kinds.len()
    &&& forall|i: int| 0 <= i < r.len() ==> (#[trigger] r[i])@ == report_text(id, kinds[i], nibbles)
}

/// One report.
fn report(id: &'static str, what: &'static str, nibbles: &[u8]) -> (s: String)
    requires
        forall|i: int| 0 <= i < nibbles@.len() ==> nibbles@[i] < 16,
    ensures
        s@ == report_text(id, what, nibbles@),
{
    let mut s = String::new();
    push_str(&mut s, id);
    push_str(&mut s, ": unrecognised ");
    push_str(&mut s, what);
    push_str(&mut s, ": nibbles ");
    let ghost head = s@;
    let mut i: usize = 0;
    while i < nibbles.len()
        invariant
            i <= nibbles@.len(),
            forall|j: int| 0 <= j < nibbles@.len() ==> nibbles@[j] < 16,
            s@ == head + nibbles@.take(i as int).map_values(|n: u8| hex_digit_upper(n)),
        decreases nibbles@.len() - i,
    {
        push_char(&mut s, hex_upper(nibbles[i]));
        i = i + 1;
        assert(s@ =~= head + nibbles@.take(i as int).map_values(|n: u8| hex_digit_upper(n)));
    }
    assert(nibbles@.take(nibbles@.len() as int) =~= nibbles@);
    s
}

/// The reports `kinds` as text.
fn render(id: &'static str, kinds: &Vec<&'static str>, nibbles: &[u8]) -> (r: Vec<String>)
    requires
        forall|i: int| 0 <= i < nibbles@.len() ==> nibbles@[i] < 16,
    ensures
        reports_are(r@, id, kinds@, nibbles@),
{
    let mut r: Vec<String> = Vec::new();
    let mut i: usize = 0;
    while i < kinds.len()
        invariant
            i <= kinds@.len(),
            forall|j: int| 0 <= j < nibbles@.len() ==> nibbles@[j] < 16,
            r@.len() == i,
            forall|j: int| 0 <= j < i ==> (#[trigger] r@[j])@ == report_text(id, kinds@[j], nibbles@),
        decreases kinds@.len() - i,
    {
        r.push(report(id, kinds[i], nibbles));
        i = i + 1;
    }
    r
}

/// What the digits of a reading raise.
fn digit_report_kinds(digits: &[u8], blank: i8, dp: u8, negative: bool) -> (k: Vec<&'static str>)
    requires
        digits@.len() <= 8,
    ensures
        k@ == digit_reports(digits@, blank as int, dp, negative),
{
    let mut odd = false;
    let mut i: usize = 0;
    while i < digits.len()
        invariant
            i <= digits@.len() <= 8,
            odd <==> exists|j: int| 0 <= j < i && odd_digit(digits@, blank as int, j),
        decreases digits@.len() - i,
    {
        let d = digits[i];
        if d > 0xA || (d == 0xA && (i as i8) != blank) {
            odd = true;
        }
        proof {
            if odd_digit(digits@, blank as int, i as int) {
                assert(odd);
            }
            if odd && !(exists|j: int| 0 <= j < i && odd_digit(digits@, blank as int, j)) {
                assert(odd_digit(digits@, blank as int, i as int));
            }
        }
        i = i + 1;
    }
    let mut k: Vec<&'static str> = Vec::new();
    if odd {
        k.push("digit nibble");
    }
    match assemble_value(digits, dp, negative) {
        Err(Error::UnparseableValue(_)) => {
            k.push("value");
        },
        _ => {},
    }
    proof {
        let r1: Seq<&'static str> = if odd {
            seq!["digit nibble"]
        } else {
            seq![]
        };
        assert(r1 + seq!["value"] =~= r1.push("value"));
    }
    k
}

/// What a whole UT804-layout packet raises.
fn ut804_kinds(f: &Ut804Fields, Ghost(p): Ghost<Seq<u8>>) -> (k: Vec<&'static str>)
    requires
        whole_packet(p),
        f.of_packet(p),
    ensures
        k@ == ut804_report_kinds(p),
{
    let mut k: Vec<&'static str> = Vec::new();
    if f.status & 0x8 != 0 || f.status & 0x3 == 0x3 {
        k.push("status bits");
    }
    if f.acdc > 3 || (f.acdc != 0 && !super::model::ut804_default_dc(f.mode)) {
        k.push("ac/dc nibble");
    }
    let info = ut804_mode_info(f.mode, f.range);
    if info.is_none() {
        k.push("mode/range pair");
    }
    let ghost head = k@;
    let duty = f.duty();
    let negative = !duty && f.sign_bit();
    let dp: u8 = if duty {
        2
    } else {
        match info {
            Some(i) => i.2,
            None => 3,
        }
    };
    assert((negative, dp) == (ut804_format(p).0, ut804_format(p).1));
    let n = &f.nibbles;
    if n[0] == 0xA {
        if n[1] != 0xA && n[1] != 0xC && n[1] != 0xF {
            k.push("overload pattern");
        }
    } else if n[3] == 0xB {
    } else {
        let digits = vstd::slice::slice_subrange(n.as_slice(), 0, 5);
        assert(digits@ == nibbles_of(p).take(5));
        let d = digit_report_kinds(digits, 4, dp, negative);
        let mut j: usize = 0;
        while j < d.len()
            invariant
                j <= d@.len(),
                k@ == head + d@.take(j as int),
            decreases d@.len() - j,
        {
            k.push(d[j]);
            j = j + 1;
            assert(k@ =~= head + d@.take(j as int));
        }
        assert(d@.take(d@.len() as int) =~= d@);
    }
    assert(k@ =~= ut804_report_kinds(p));
    k
}

/// What a whole UT803 packet raises.
fn ut803_kinds(f: &Ut803Fields, Ghost(p): Ghost<Seq<u8>>) -> (k: Vec<&'static str>)
    requires
        whole_packet(p),
        f.of_packet(p),
    ensures
        k@ == ut803_report_kinds(p),
{
    let alt = f.alt();
    let mut k: Vec<&'static str> = Vec::new();
    if f.nib8 & 0x2 != 0 || f.nib9 & 0x1 != 0 || (alt && f.mode != 0x2 && f.mode != 0x4) {
        k.push("status bits");
    }
    let info = ut803_mode_info(f.mode, f.range, alt);
    if info.is_none() {
        k.push("mode/range pair");
    }
    let c = f.coupling();
    if info.is_some() && f.mode == 0xB {
        match c {
            Some(Coupling::Dc) | Some(Coupling::Ac) => {},
            _ => {
                k.push("ac/dc bits");
            },
        }
    }
    let ghost head = k@;
    let dp: u8 = match info {
        Some(i) => i.2,
        None => 3,
    };
    if f.nib8 & 0x1 == 0 {
        let digits = vstd::slice::slice_subrange(f.nibbles.as_slice(), 2, 6);
        assert(digits@ == ut803_positions(p).subrange(2, 6));
        let d = digit_report_kinds(digits, -1, dp, f.nib8 & 0x4 != 0);
        let mut j: usize = 0;
        while j < d.len()
            invariant
                j <= d@.len(),
                k@ == head + d@.take(j as int),
            decreases d@.len() - j,
        {
            k.push(d[j]);
            j = j + 1;
            assert(k@ =~= head + d@.take(j as int));
        }
        assert(d@.take(d@.len() as int) =~= d@);
    }
    assert(k@ =~= ut803_report_kinds(p));
    k
}

/// Parse a packet in the UT804's layout for `model`, with what it raises.
/// Nothing is reported of bytes that are not one whole packet.
pub fn parse_ut804_layout_reporting(model: Model, packet: &[u8]) -> (r: (
    Result<Measurement, Error>,
    Vec<String>,
))
    ensures
        !whole_packet(packet@) ==> r.0 == Err::<Measurement, Error>(Error::NotAPacket) && r.1@.len()
            == 0,
        whole_packet(packet@) ==> ut804_parsed(model, packet@, r.0) && reports_are(
            r.1@,
            model_id(model),
            ut804_report_kinds(packet@),
            nibbles_of(packet@).take(9),
        ),
{
    let parsed = parse_ut804_layout(model, packet);
    let f = match Ut804Fields::decode(packet) {
        Ok(f) => f,
        Err(_) => {
            return (parsed, Vec::new());
        },
    };
    let kinds = ut804_kinds(&f, Ghost(packet@));
    let nine = vstd::slice::slice_subrange(f.nibbles.as_slice(), 0, 9);
    assert(nine@ == nibbles_of(packet@).take(9));
    assert forall|i: int| 0 <= i < nine@.len() implies nine@[i] < 16 by {
        let b = packet@[i];
        assert(b & 0x0F < 16) by (bit_vector);
    }
    (parsed, render(model.report_id(), &kinds, nine))
}

/// Parse a UT804 packet, with what it raises.
pub fn parse_measurement_ut804_reporting(packet: &[u8]) -> (r: (Result<Measurement, Error>, Vec<String>))
    ensures
        !whole_packet(packet@) ==> r.0 == Err::<Measurement, Error>(Error::NotAPacket) && r.1@.len()
            == 0,
        whole_packet(packet@) ==> ut804_parsed(Model::Ut804, packet@, r.0) && reports_are(
            r.1@,
            "ut804",
            ut804_report_kinds(packet@),
            nibbles_of(packet@).take(9),
        ),
{
    parse_ut804_layout_reporting(Model::Ut804, packet)
}

/// Parse a UT803 packet, with what it raises.
pub fn parse_measurement_ut803_reporting(packet: &[u8]) -> (r: (Result<Measurement, Error>, Vec<String>))
    ensures
        !whole_packet(packet@) ==> r.0 == Err::<Measurement, Error>(Error::NotAPacket) && r.1@.len()
            == 0,
        whole_packet(packet@) ==> ut803_parsed(packet@, r.0) && reports_are(
            r.1@,
            "ut803",
            ut803_report_kinds(packet@),
            nibbles_of(packet@).take(9),
        ),
{
    let parsed = parse_measurement_ut803(packet);
    let f = match Ut803Fields::decode(packet) {
        Ok(f) => f,
        Err(_) => {
            return (parsed, Vec::new());
        },
    };
    let kinds = ut803_kinds(&f, Ghost(packet@));
    let nine = vstd::slice::slice_subrange(f.nibbles.as_slice(), 1, 10);
    assert(nine@ =~= nibbles_of(packet@).take(9));
    assert forall|i: int| 0 <= i < nine@.len() implies nine@[i] < 16 by {
        let b = packet@[i];
        assert(b & 0x0F < 16) by (bit_vector);
    }
    (parsed, render("ut803", &kinds, nine))
}

} // verus!
