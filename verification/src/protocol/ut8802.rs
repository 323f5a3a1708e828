//! The UT8802/UT8802N bench meter: 8-byte frames `AC [position] [d1d2]
//! [d3d4] [d5xx] [dp+flags] [status] [sign]`, a BCD display and combined
//! function + range position codes. The parser takes the 7 bytes after the
//! header.
use crate::measurement::{
    Decimal, Error, MeasuredValue, Measurement, StatusFlags, no_flags, outcomes_alike, reading_is,
};
use crate::protocol::steps::{basic, basic_step};
use crate::protocol::{CaptureStep, DeviceProfile, Stability, unknown_mode, unknown_mode_text};
use crate::text::{decimal_of, digit_char, digit_to_char, parse_decimal, string_from_chars, without_char};
use crate::labels::{all_number_chars, ends_with, number_then_unit, starts_ac, starts_dc};
use vstd::prelude::*;

verus! {

/// The position code table: (mode name, unit, range label) per code. The
/// five display digits are range-relative, so the unit carries the
/// position's SI prefix; the capacitance and frequency positions are named
/// by their decade alone and have no range label.
pub open spec fn position_entry(code: u8) -> Option<(&'static str, &'static str, &'static str)> {
    match code {
        0x01 => Some(("DC V", "mV", "200mV")),
        0x03 => Some(("DC V", "V", "2V")),
        0x04 => Some(("DC V", "V", "20V")),
        0x05 => Some(("DC V", "V", "200V")),
        0x06 => Some(("DC V", "V", "1000V")),
        0x09 => Some(("AC V", "V", "2V")),
        0x0A => Some(("AC V", "V", "20V")),
        0x0B => Some(("AC V", "V", "200V")),
        0x0C => Some(("AC V", "V", "750V")),
        0x0D => Some(("DC µA", "µA", "200µA")),
        0x0E => Some(("DC mA", "mA", "2mA")),
        0x10 => Some(("AC mA", "mA", "2mA")),
        0x11 => Some(("DC mA", "mA", "20mA")),
        0x12 => Some(("DC mA", "mA", "200mA")),
        0x13 => Some(("AC mA", "mA", "20mA")),
        0x14 => Some(("AC mA", "mA", "200mA")),
        0x16 => Some(("DC A", "A", "2A")),
        0x18 => Some(("AC A", "A", "20A")),
        0x19 => Some(("Ω", "Ω", "200Ω")),
        0x1A => Some(("Ω", "kΩ", "2kΩ")),
        0x1B => Some(("Ω", "kΩ", "20kΩ")),
        0x1C => Some(("Ω", "kΩ", "200kΩ")),
        0x1D => Some(("Ω", "MΩ", "2MΩ")),
        0x1F => Some(("Ω", "MΩ", "200MΩ")),
        0x22 => Some(("Duty %", "%", "")),
        0x23 => Some(("Diode", "V", "")),
        0x24 => Some(("Continuity", "Ω", "")),
        0x25 => Some(("hFE", "", "")),
        0x27 => Some(("Capacitance", "nF", "")),
        0x28 => Some(("Capacitance", "µF", "")),
        0x29 => Some(("Capacitance", "mF", "")),
        0x2A => Some(("SCR", "V", "")),
        0x2B => Some(("Hz", "Hz", "")),
        0x2C => Some(("Hz", "kHz", "")),
        0x2D => Some(("Hz", "MHz", "")),
        _ => None,
    }
}

/// Every position's entry fits its code: the DC positions, and only they,
/// have a mode name starting with "DC", every range label is a number
/// read in the position's own unit ("200mA" in mA), and an AC or DC
/// position's unit is a multiple of the quantity its name gives ("DC V"
/// in mV or V, "DC mA" in mA).
pub proof fn positions_fit_their_coupling_and_unit(code: u8)
    ensures
        dc_position(code) ==> position_entry(code) is Some,
        position_entry(code) matches Some((mode, unit, label)) ==> {
            &&& (dc_position(code) <==> starts_dc(mode@))
            &&& (label@.len() > 0 ==> number_then_unit(label@, unit@))
            &&& (starts_dc(mode@) || starts_ac(mode@) ==> ends_with(unit@, mode@.skip(3)))
        },
{
    reveal_strlit("");
    reveal_strlit("%");
    reveal_strlit("A");
    reveal_strlit("V");
    reveal_strlit("Ω");
    reveal_strlit("2A");
    reveal_strlit("2V");
    reveal_strlit("Hz");
    reveal_strlit("MΩ");
    reveal_strlit("kΩ");
    reveal_strlit("mA");
    reveal_strlit("mF");
    reveal_strlit("mV");
    reveal_strlit("nF");
    reveal_strlit("µA");
    reveal_strlit("µF");
    reveal_strlit("20A");
    reveal_strlit("20V");
    reveal_strlit("2MΩ");
    reveal_strlit("2kΩ");
    reveal_strlit("2mA");
    reveal_strlit("MHz");
    reveal_strlit("SCR");
    reveal_strlit("hFE");
    reveal_strlit("kHz");
    reveal_strlit("200V");
    reveal_strlit("200Ω");
    reveal_strlit("20kΩ");
    reveal_strlit("20mA");
    reveal_strlit("750V");
    reveal_strlit("AC A");
    reveal_strlit("AC V");
    reveal_strlit("DC A");
    reveal_strlit("DC V");
    reveal_strlit("1000V");
    reveal_strlit("200MΩ");
    reveal_strlit("200kΩ");
    reveal_strlit("200mA");
    reveal_strlit("200mV");
    reveal_strlit("200µA");
    reveal_strlit("AC mA");
    reveal_strlit("DC mA");
    reveal_strlit("DC µA");
    reveal_strlit("Diode");
    reveal_strlit("Duty %");
    reveal_strlit("Continuity");
    reveal_strlit("Capacitance");
    reveal_with_fuel(ends_with, 4);
    reveal_with_fuel(all_number_chars, 5);
}

/// Look up a position code in the table: (mode, unit, range label).
pub fn lookup_position(code: u8) -> (r: Option<(&'static str, &'static str, &'static str)>)
    ensures
        r == position_entry(code),
{
    match code {
        0x01 => Some(("DC V", "mV", "200mV")),
        0x03 => Some(("DC V", "V", "2V")),
        0x04 => Some(("DC V", "V", "20V")),
        0x05 => Some(("DC V", "V", "200V")),
        0x06 => Some(("DC V", "V", "1000V")),
        0x09 => Some(("AC V", "V", "2V")),
        0x0A => Some(("AC V", "V", "20V")),
        0x0B => Some(("AC V", "V", "200V")),
        0x0C => Some(("AC V", "V", "750V")),
        0x0D => Some(("DC µA", "µA", "200µA")),
        0x0E => Some(("DC mA", "mA", "2mA")),
        0x10 => Some(("AC mA", "mA", "2mA")),
        0x11 => Some(("DC mA", "mA", "20mA")),
        0x12 => Some(("DC mA", "mA", "200mA")),
        0x13 => Some(("AC mA", "mA", "20mA")),
        0x14 => Some(("AC mA", "mA", "200mA")),
        0x16 => Some(("DC A", "A", "2A")),
        0x18 => Some(("AC A", "A", "20A")),
        0x19 => Some(("Ω", "Ω", "200Ω")),
        0x1A => Some(("Ω", "kΩ", "2kΩ")),
        0x1B => Some(("Ω", "kΩ", "20kΩ")),
        0x1C => Some(("Ω", "kΩ", "200kΩ")),
        0x1D => Some(("Ω", "MΩ", "2MΩ")),
        0x1F => Some(("Ω", "MΩ", "200MΩ")),
        0x22 => Some(("Duty %", "%", "")),
        0x23 => Some(("Diode", "V", "")),
        0x24 => Some(("Continuity", "Ω", "")),
        0x25 => Some(("hFE", "", "")),
        0x27 => Some(("Capacitance", "nF", "")),
        0x28 => Some(("Capacitance", "µF", "")),
        0x29 => Some(("Capacitance", "mF", "")),
        0x2A => Some(("SCR", "V", "")),
        0x2B => Some(("Hz", "Hz", "")),
        0x2C => Some(("Hz", "kHz", "")),
        0x2D => Some(("Hz", "MHz", "")),
        _ => None,
    }
}

/// The positions that measure a DC quantity: DC V, DC µA, DC mA and DC A.
/// The meter's AC/DC indication follows from the position code alone.
pub open spec fn dc_position(position: u8) -> bool {
    position == 0x01 || (0x03 <= position <= 0x06) || position == 0x0D || position == 0x0E
        || position == 0x11 || position == 0x12 || position == 0x16
}

/// Whether a position code measures a DC quantity.
pub fn position_is_dc(position: u8) -> (b: bool)
    ensures
        b == dc_position(position),
{
    match position {
        0x01 | 0x03..=0x06 | 0x0D | 0x0E | 0x11 | 0x12 | 0x16 => true,
        _ => false,
    }
}

/// The display character of a BCD nibble: the digit, `0` for `0xA`, `L`
/// (overload) for `0xC`, and `?` for the rest.
pub open spec fn bcd_char(nibble: u8) -> char {
    if nibble <= 9 {
        digit_char(nibble)
    } else if nibble == 0xA {
        '0'
    } else if nibble == 0xC {
        'L'
    } else {
        '?'
    }
}

/// Convert a BCD nibble to its display character.
pub fn bcd_to_char(nibble: u8) -> (c: char)
    ensures
        c == bcd_char(nibble),
{
    match nibble {
        0x00..=0x09 => digit_to_char(nibble),
        0x0A => '0',
        0x0C => 'L',
        _ => '?',
    }
}

/// The five display nibbles of a payload, most significant first: byte 3's
/// low nibble, byte 2's high and low, byte 1's high and low.
pub open spec fn display_nibbles(p: Seq<u8>) -> Seq<u8> {
    seq![p[3] & 0x0F, p[2] >> 4, p[2] & 0x0F, p[1] >> 4, p[1] & 0x0F]
}

/// How many of the first `keep` characters from `i` on are zeros in a row.
pub open spec fn leading_zeros(cs: Seq<char>, i: int, keep: int) -> int
    decreases keep - i,
{
    if i < keep && 0 <= i < cs.len() && cs[i] == '0' {
        1 + leading_zeros(cs, i + 1, keep)
    } else {
        0
    }
}

/// The digit characters with their leading zeros blanked, up to `keep`.
pub open spec fn blanked(cs: Seq<char>, keep: int) -> Seq<char> {
    let z = leading_zeros(cs, 0, keep);
    Seq::new(cs.len(), |j: int| if j < z { ' ' } else { cs[j] })
}

/// The display text of payload `p` with decimal point position `dp` (0-4):
/// the five digit characters, leading zeros blanked short of the digit left
/// of the point (or the last digit), and the point inserted `dp` places from
/// the right unless the reading is an overload.
pub open spec fn ut8802_display(p: Seq<u8>, dp: u8, overload: bool) -> Seq<char> {
    let cs = display_nibbles(p).map_values(|n: u8| bcd_char(n));
    let keep: int = if dp > 0 {
        4 - dp
    } else {
        4
    };
    let b = blanked(cs, keep);
    if dp > 0 && !overload {
        b.take(5 - dp) + seq!['.'] + b.skip(5 - dp)
    } else {
        b
    }
}

/// Whether payload `p` is an overload: sign byte bit 6, or an `L` digit.
pub open spec fn ut8802_overload(p: Seq<u8>) -> bool {
    p[6] & 0x40 != 0 || display_nibbles(p).contains(0x0Cu8)
}

/// The value payload `p` reads as: an overload, the displayed number with
/// the sign byte's bit 7 as its sign, or an overload where the display
/// makes no number.
pub open spec fn ut8802_value(p: Seq<u8>) -> MeasuredValue {
    let dp = p[4] & 0x0F;
    if ut8802_overload(p) {
        MeasuredValue::Overload
    } else {
        match decimal_of(without_char(ut8802_display(p, dp, false), ' ')) {
            Some(d) => MeasuredValue::Normal(Decimal { negative: p[6] & 0x80 != 0, ..d }),
            None => MeasuredValue::Overload,
        }
    }
}

/// The flags the sign byte carries: MIN bit 0, MAX bit 1, AUTO when bit 2
/// is clear, REL bit 3, HOLD bit 4; DC from the position code.
pub open spec fn ut8802_flags(p: Seq<u8>) -> StatusFlags {
    let s = p[6];
    StatusFlags {
        hold: s & 0x10 != 0,
        rel: s & 0x08 != 0,
        min: s & 0x01 != 0,
        max: s & 0x02 != 0,
        auto_range: s & 0x04 == 0,
        dc: dc_position(p[0]),
        ..no_flags()
    }
}

/// What the parser makes of payload `p`.
pub open spec fn ut8802_parsed(p: Seq<u8>, r: Result<Measurement, Error>) -> bool {
    if p.len() < 7 {
        r == Err::<Measurement, Error>(
            Error::PayloadTooShort { family: "ut8802", len: p.len() as usize, expected: 7 },
        )
    } else if p[4] & 0x0F > 4 {
        r == Err::<Measurement, Error>(Error::InvalidDecimalPoint(p[4] & 0x0F))
    } else {
        let position = p[0];
        let (mode, unit, label) = match position_entry(position) {
            Some((m, u, l)) => (m@, u, l),
            None => (unknown_mode_text(position), "", ""),
        };
        r matches Ok(m) && reading_is(
            m,
            mode,
            position as u16,
            position,
            ut8802_value(p),
            unit,
            label,
            None,
            Some(ut8802_display(p, p[4] & 0x0F, ut8802_overload(p))),
            ut8802_flags(p),
            p,
        )
    }
}

/// The digit characters with leading zeros blanked before `keep`.
fn blank_leading_zeros(cs: &mut Vec<char>, keep: usize)
    requires
        keep <= old(cs)@.len(),
    ensures
        final(cs)@ == blanked(old(cs)@, keep as int),
{
    let ghost orig = cs@;
    let mut i: usize = 0;
    while i < keep && cs[i] == '0'
        invariant
            keep <= orig.len(),
            cs@.len() == orig.len(),
            i <= keep,
            leading_zeros(orig, 0, keep as int) == i + leading_zeros(orig, i as int, keep as int),
            forall|j: int| 0 <= j < i ==> cs@[j] == ' ',
            forall|j: int| i <= j < orig.len() ==> cs@[j] == orig[j],
        decreases keep - i,
    {
        cs.set(i, ' ');
        i = i + 1;
    }
    assert(leading_zeros(orig, i as int, keep as int) == 0);
    assert(cs@ =~= blanked(orig, keep as int));
}

/// `cs` without its spaces.
fn remove_spaces(cs: &Vec<char>) -> (out: Vec<char>)
    ensures
        out@ == without_char(cs@, ' '),
        out@.len() <= cs@.len(),
{
    let mut out: Vec<char> = Vec::new();
    let mut i: usize = 0;
    while i < cs.len()
        invariant
            i <= cs@.len(),
            out@ == without_char(cs@.take(i as int), ' '),
            out@.len() <= i,
        decreases cs@.len() - i,
    {
        proof {
            assert(cs@.take(i + 1).drop_last() =~= cs@.take(i as int));
        }
        if cs[i] != ' ' {
            out.push(cs[i]);
        }
        i = i + 1;
    }
    assert(cs@.take(cs@.len() as int) =~= cs@);
    out
}

/// A copy of `payload`.
fn copy_payload(payload: &[u8]) -> (v: Vec<u8>)
    ensures
        v@ == payload@,
{
    let mut v: Vec<u8> = Vec::new();
    let mut i: usize = 0;
    while i < payload.len()
        invariant
            i <= payload@.len(),
            v@ == payload@.take(i as int),
        decreases payload@.len() - i,
    {
        v.push(payload[i]);
        i = i + 1;
        assert(v@ =~= payload@.take(i as int));
    }
    assert(v@ =~= payload@);
    v
}

/// Parse a UT8802 measurement payload (the 7 bytes after the header):
/// byte 0 the position code; bytes 1-3 the five display nibbles; byte 4 the
/// decimal point position (low nibble, 0-4); byte 5 status; byte 6 the sign
/// (bit 7), overload (bit 6) and flags (bits 0-4). Bytes past 7 are kept in
/// the raw payload only.
pub fn parse_measurement(payload: &[u8]) -> (r: Result<Measurement, Error>)
    ensures
        ut8802_parsed(payload@, r),
{
    if payload.len() < 7 {
        return Err(Error::PayloadTooShort { family: "ut8802", len: payload.len(), expected: 7 });
    }
    let position = payload[0];
    let dp_pos = payload[4] & 0x0F;
    if dp_pos > 4 {
        return Err(Error::InvalidDecimalPoint(dp_pos));
    }
    let sign_byte = payload[6];
    let (mode, unit, range_label): (String, &'static str, &'static str) = match lookup_position(
        position,
    ) {
        Some((m, u, r)) => (m.to_owned(), u, r),
        None => (unknown_mode(position), "", ""),
    };
    let nibbles: [u8; 5] = [
        payload[3] & 0x0F,
        payload[2] >> 4,
        payload[2] & 0x0F,
        payload[1] >> 4,
        payload[1] & 0x0F,
    ];
    let ghost p = payload@;
    assert(nibbles@ =~= display_nibbles(p));
    let mut overload = sign_byte & 0x40 != 0;
    let mut chars: Vec<char> = Vec::new();
    let mut i: usize = 0;
    while i < 5
        invariant
            i <= 5,
            nibbles@ == display_nibbles(p),
            p.len() >= 7,
            chars@ == display_nibbles(p).take(i as int).map_values(|n: u8| bcd_char(n)),
            overload == (p[6] & 0x40 != 0 || display_nibbles(p).take(i as int).contains(0x0Cu8)),
        decreases 5 - i,
    {
        let ch = bcd_to_char(nibbles[i]);
        proof {
            let t = display_nibbles(p).take(i + 1);
            assert(t =~= display_nibbles(p).take(i as int).push(nibbles@[i as int]));
            if nibbles@[i as int] == 0x0C {
                assert(t[i as int] == 0x0Cu8);
            }
            if display_nibbles(p).take(i as int).contains(0x0Cu8) {
                let k = choose|k: int|
                    0 <= k < i && display_nibbles(p).take(i as int)[k] == 0x0Cu8;
                assert(t[k] == 0x0Cu8);
            }
            if t.contains(0x0Cu8) && nibbles@[i as int] != 0x0C {
                let k = choose|k: int| 0 <= k < i + 1 && t[k] == 0x0Cu8;
                assert(display_nibbles(p).take(i as int)[k] == 0x0Cu8);
            }
        }
        if ch == 'L' {
            overload = true;
        }
        chars.push(ch);
        i = i + 1;
        assert(chars@ =~= display_nibbles(p).take(i as int).map_values(|n: u8| bcd_char(n)));
    }
    assert(display_nibbles(p).take(5) =~= display_nibbles(p));
    assert(overload == ut8802_overload(p));
    let keep: usize = if dp_pos > 0 {
        4 - dp_pos as usize
    } else {
        4
    };
    blank_leading_zeros(&mut chars, keep);
    if dp_pos > 0 && !overload {
        let at: usize = 5 - dp_pos as usize;
        let ghost before = chars@;
        chars.insert(at, '.');
        assert(chars@ =~= before.take(at as int) + seq!['.'] + before.skip(at as int));
    }
    assert(chars@ == ut8802_display(p, dp_pos, overload));
    let display_str = string_from_chars(&chars);
    let value = if overload {
        MeasuredValue::Overload
    } else {
        let trimmed = remove_spaces(&chars);
        match parse_decimal(&trimmed) {
            Some(d) => MeasuredValue::Normal(
                Decimal { negative: sign_byte & 0x80 != 0, digits: d.digits, scale: d.scale, kind: d.kind },
            ),
            None => MeasuredValue::Overload,
        }
    };
    let flags = StatusFlags {
        hold: sign_byte & 0x10 != 0,
        rel: sign_byte & 0x08 != 0,
        min: sign_byte & 0x01 != 0,
        max: sign_byte & 0x02 != 0,
        auto_range: sign_byte & 0x04 == 0,
        dc: position_is_dc(position),
        ..StatusFlags::none()
    };
    Ok(
        Measurement {
            mode,
            mode_raw: position as u16,
            range_raw: position,
            value,
            unit,
            range_label,
            progress: None,
            display_raw: Some(display_str),
            flags,
            raw_payload: copy_payload(payload),
        },
    )
}

/// The steps a capture of the meter walks, in order: one dial position
/// each, five samples apiece, no command sent.
pub open spec fn ut8802_capture_steps() -> Seq<CaptureStep> {
    seq![
        basic_step("dcv", "Set meter to DC V"),
        basic_step("acv", "Set meter to AC V"),
        basic_step("dcua", "Set meter to DC µA"),
        basic_step("dcma", "Set meter to DC mA"),
        basic_step("dca", "Set meter to DC A"),
        basic_step("acma", "Set meter to AC mA"),
        basic_step("aca", "Set meter to AC A"),
        basic_step("ohm", "Set meter to Resistance (Ω)"),
        basic_step("cont", "Set meter to Continuity"),
        basic_step("diode", "Set meter to Diode"),
        basic_step("cap", "Set meter to Capacitance"),
        basic_step("hz", "Set meter to Frequency (Hz)"),
        basic_step("duty", "Set meter to Duty Cycle (%)"),
        basic_step("hfe", "Set meter to hFE (transistor test)"),
        basic_step("scr", "Set meter to SCR (thyristor test)"),
    ]
}

/// The UT8802's protocol: it streams frames unprompted and takes no
/// commands.
pub struct Ut8802Protocol {
    profile: DeviceProfile,
}

impl Ut8802Protocol {
    /// The profile it was made with.
    pub closed spec fn spec_profile(&self) -> DeviceProfile {
        self.profile
    }

    /// The UT8802, unconfirmed on hardware.
    pub fn new() -> (p: Self)
        ensures
            p.spec_profile().family_name == "UT8802",
            p.spec_profile().model_name == "UNI-T UT8802",
            p.spec_profile().stability == Stability::Experimental,
            p.spec_profile().supported_commands@.len() == 0,
            p.spec_profile().max_aux_values == 0,
            p.spec_profile().verification_issue == Some(12u16),
    {
        Self {
            profile: DeviceProfile {
                family_name: "UT8802",
                model_name: "UNI-T UT8802",
                stability: Stability::Experimental,
                supported_commands: Vec::new(),
                max_aux_values: 0,
                verification_issue: Some(12),
            },
        }
    }

    /// The profile of the meter.
    pub fn profile(&self) -> (p: &DeviceProfile)
        ensures
            *p == self.spec_profile(),
    {
        &self.profile
    }

    /// Parse one payload.
    pub fn parse_payload(&self, payload: &[u8]) -> (r: Result<Measurement, Error>)
        ensures
            ut8802_parsed(payload@, r),
    {
        parse_measurement(payload)
    }

    /// The steps a capture of the meter walks.
    pub fn capture_steps(&self) -> (v: Vec<CaptureStep>)
        ensures
            v@ == ut8802_capture_steps(),
    {
        vec![
            basic("dcv", "Set meter to DC V"),
            basic("acv", "Set meter to AC V"),
            basic("dcua", "Set meter to DC µA"),
            basic("dcma", "Set meter to DC mA"),
            basic("dca", "Set meter to DC A"),
            basic("acma", "Set meter to AC mA"),
            basic("aca", "Set meter to AC A"),
            basic("ohm", "Set meter to Resistance (Ω)"),
            basic("cont", "Set meter to Continuity"),
            basic("diode", "Set meter to Diode"),
            basic("cap", "Set meter to Capacitance"),
            basic("hz", "Set meter to Frequency (Hz)"),
            basic("duty", "Set meter to Duty Cycle (%)"),
            basic("hfe", "Set meter to hFE (transistor test)"),
            basic("scr", "Set meter to SCR (thyristor test)"),
        ]
    }

    /// The meter takes no commands: every name is refused.
    pub fn send_command(&self, command: &str) -> (r: Result<(), Error>)
        ensures
            r matches Err(Error::UnsupportedCommand(m)) && m@ == command@,
    {
        Err(Error::UnsupportedCommand(command.to_owned()))
    }
}

/// Byte 4's high nibble (the diode/SCR probe direction) changes nothing of
/// a reading: the AC/DC flag, in particular, follows the position code alone.
pub proof fn probe_bits_change_nothing(p: Seq<u8>, q: Seq<u8>, rp: Result<Measurement, Error>, rq: Result<Measurement, Error>)
    requires
        p.len() == q.len(),
        forall|i: int| 0 <= i < p.len() && i != 4 ==> p[i] == q[i],
        p.len() > 4 ==> p[4] & 0x0F == q[4] & 0x0F,
        ut8802_parsed(p, rp),
        ut8802_parsed(q, rq),
    ensures
        outcomes_alike(rp, rq),
        rp is Ok && rq is Ok ==> rp->Ok_0.range_label == rq->Ok_0.range_label,
{
    if p.len() >= 7 {
        assert(display_nibbles(p) =~= display_nibbles(q));
    }
}

/// An overload reading, by the sign byte's bit 6 or an `L` digit, carries
/// no decimal point in its display text.
pub proof fn overload_display_has_no_point(p: Seq<u8>, r: Result<Measurement, Error>)
    requires
        ut8802_parsed(p, r),
        p.len() >= 7,
        p[4] & 0x0F <= 4,
        ut8802_overload(p),
    ensures
        r is Ok,
        r->Ok_0.value == MeasuredValue::Overload,
        r->Ok_0.display_raw is Some,
        !r->Ok_0.display_raw->0@.contains('.'),
{
    let dp = p[4] & 0x0F;
    let cs = display_nibbles(p).map_values(|n: u8| bcd_char(n));
    let keep: int = if dp > 0 {
        4 - dp
    } else {
        4
    };
    let d = ut8802_display(p, dp, true);
    assert(d == blanked(cs, keep));
    assert forall|j: int| 0 <= j < d.len() implies d[j] != '.' by {
        assert(cs[j] == bcd_char(display_nibbles(p)[j]));
    }
}

impl Default for Ut8802Protocol {
    fn default() -> (p: Self)
        ensures
            p.spec_profile().model_name == "UNI-T UT8802",
    {
        Self::new()
    }
}

} // verus!
