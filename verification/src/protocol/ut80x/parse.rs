//! Reading a packet of either layout.
use super::digits::{
    assemble_value, assembled_text, bad_digit, lcd_text, overload_display, overload_text,
    ut804_lcd_text,
};
use super::fields::{Ut803Fields, Ut804Fields, ut803_positions, ut804_coupling};
use super::model::{
    Model, model_range_label, ut803_info, ut803_mode_info, ut804_dc_by_default, ut804_info,
    ut804_mode_info,
};
use super::packet::{Coupling, nibbles_of, whole_packet};
use crate::measurement::{
    Decimal, Error, NumberKind, MeasuredValue, Measurement, StatusFlags, no_flags, reading_is,
};
use crate::protocol::{unknown_mode, unknown_mode_text};
use crate::text::decimal_of;
use vstd::prelude::*;

verus! {

/// Zero, as the vendor reads the LO and idle frames.
pub open spec fn zero() -> Decimal {
    Decimal { negative: false, digits: 0, scale: 0, kind: NumberKind::Finite }
}

/// The mode name, unit and decimal position of a (mode, range) pair, or an
/// unnamed mode with no unit and an integer display where the table has no
/// entry for it.
pub open spec fn info_or_unknown(info: Option<(&'static str, &'static str, u8)>) -> (
    &'static str,
    &'static str,
    u8,
) {
    match info {
        Some(i) => i,
        None => ("?", "", 3),
    }
}

/// Mode name, unit and decimal point position, falling back to an unnamed
/// mode when the (mode, range) pair is absent from the per-model table.
pub fn mode_info_or_unknown(info: Option<(&'static str, &'static str, u8)>) -> (r: (
    &'static str,
    &'static str,
    u8,
))
    ensures
        r == info_or_unknown(info),
{
    match info {
        Some(i) => i,
        None => ("?", "", 3),
    }
}

/// A UT804 V, mV, µA, mA or A mode named with its coupling: modes 1 and 2
/// are volts, 3 millivolts, 7 microamps, 8 milliamps and 9 amps.
pub open spec fn ut804_coupled_name(mode: u8, c: Coupling) -> &'static str {
    match c {
        Coupling::Ac => if mode == 0x1 || mode == 0x2 {
            "AC V"
        } else if mode == 0x3 {
            "AC mV"
        } else if mode == 0x7 {
            "AC µA"
        } else if mode == 0x8 {
            "AC mA"
        } else {
            "AC A"
        },
        Coupling::Dc => if mode == 0x1 || mode == 0x2 {
            "DC V"
        } else if mode == 0x3 {
            "DC mV"
        } else if mode == 0x7 {
            "DC µA"
        } else if mode == 0x8 {
            "DC mA"
        } else {
            "DC A"
        },
        Coupling::AcDc => if mode == 0x1 || mode == 0x2 {
            "AC+DC V"
        } else if mode == 0x3 {
            "AC+DC mV"
        } else if mode == 0x7 {
            "AC+DC µA"
        } else if mode == 0x8 {
            "AC+DC mA"
        } else {
            "AC+DC A"
        },
    }
}

/// The name of a UT804 reading in a known (mode, range) pair: the coupled
/// name on the V, mV and current modes when position 8 names a coupling,
/// the table's plain name otherwise.
pub open spec fn ut804_name(mode: u8, name: &'static str, c: Option<Coupling>) -> &'static str {
    if ut804_dc_by_default(mode) && c is Some {
        ut804_coupled_name(mode, c->0)
    } else {
        name
    }
}

/// The name of a UT804 reading in a known (mode, range) pair.
fn coupled_name(mode: u8, name: &'static str, c: Option<Coupling>) -> (s: &'static str)
    ensures
        s == ut804_name(mode, name, c),
{
    match c {
        Some(Coupling::Ac) => match mode {
            0x1 | 0x2 => "AC V",
            0x3 => "AC mV",
            0x7 => "AC µA",
            0x8 => "AC mA",
            0x9 => "AC A",
            _ => name,
        },
        Some(Coupling::Dc) => match mode {
            0x1 | 0x2 => "DC V",
            0x3 => "DC mV",
            0x7 => "DC µA",
            0x8 => "DC mA",
            0x9 => "DC A",
            _ => name,
        },
        Some(Coupling::AcDc) => match mode {
            0x1 | 0x2 => "AC+DC V",
            0x3 => "AC+DC mV",
            0x7 => "AC+DC µA",
            0x8 => "AC+DC mA",
            0x9 => "AC+DC A",
            _ => name,
        },
        None => name,
    }
}

/// The UT804 positions of packet `p`: (range, mode, AC/DC, status).
pub open spec fn ut804_positions(p: Seq<u8>) -> (u8, u8, u8, u8) {
    (p[5] & 0x0F, p[6] & 0x0F, p[7] & 0x0F, p[8] & 0x0F)
}

/// Whether a UT804-layout packet reads as the duty-cycle display: the sign
/// bit in frequency mode.
pub open spec fn ut804_duty(p: Seq<u8>) -> bool {
    let (_, mode, _, status) = ut804_positions(p);
    mode == 0xC && status & 0x4 != 0
}

/// The mode label of a UT804-layout packet.
pub open spec fn ut804_label(p: Seq<u8>) -> Seq<char> {
    let (range, mode, acdc, _) = ut804_positions(p);
    if ut804_duty(p) {
        "Duty %"@
    } else {
        match ut804_info(mode, range) {
            None => unknown_mode_text(mode),
            Some(i) => ut804_name(mode, i.0, ut804_coupling(mode, acdc))@,
        }
    }
}

/// The (negative, decimal position, unit) a UT804-layout packet is read
/// with: the duty display is positive, on `dp` 2, in `%`; an unknown pair
/// takes an integer display and no unit.
pub open spec fn ut804_format(p: Seq<u8>) -> (bool, u8, &'static str) {
    let (range, mode, _, status) = ut804_positions(p);
    if ut804_duty(p) {
        (false, 2, "%")
    } else {
        let (_, unit, dp) = info_or_unknown(
            match ut804_info(mode, range) {
                Some(i) => Some((i.0, i.1, i.2)),
                None => None,
            },
        );
        (status & 0x4 != 0, dp, unit)
    }
}

/// The range label `model` gives a UT804-layout packet: none on the duty
/// display or an unknown pair.
pub open spec fn ut804_range_label(model: Model, p: Seq<u8>) -> &'static str {
    let (range, mode, _, _) = ut804_positions(p);
    match ut804_info(mode, range) {
        Some(i) => if ut804_duty(p) {
            ""
        } else {
            model_range_label(model, mode, range, i.3)
        },
        None => "",
    }
}

/// The flags a UT804-layout packet carries: AUTO when status bits 1-0 are
/// 1, and DC where the coupling is DC or AC+DC.
pub open spec fn ut804_flags(p: Seq<u8>) -> StatusFlags {
    let (_, mode, acdc, status) = ut804_positions(p);
    let c = ut804_coupling(mode, acdc);
    StatusFlags {
        auto_range: status & 0x3 == 0x1,
        dc: c == Some(Coupling::Dc) || c == Some(Coupling::AcDc),
        ..no_flags()
    }
}

/// The value and text of a UT804-layout packet whose digits are not read as
/// a number: digit 1 blank is LO (zero) when digit 2 is `0xC` and an
/// overload otherwise, the LCD's own text where it is known and the
/// vendor's fixed text where not; digit 4 `0xB` is the idle frame, zero.
/// `None` for a packet whose digits are read.
pub open spec fn ut804_fixed_value(p: Seq<u8>) -> Option<(MeasuredValue, Seq<char>)> {
    let n = nibbles_of(p);
    let (negative, dp, _) = ut804_format(p);
    if n[0] == 0xA {
        let lcd = if n[1] == 0xA || n[1] == 0xC {
            lcd_text(n.take(5), dp, negative)
        } else {
            None
        };
        if n[1] == 0xC {
            Some(
                (
                    MeasuredValue::Normal(zero()),
                    match lcd {
                        Some(t) => t,
                        None => "L0"@,
                    },
                ),
            )
        } else {
            Some(
                (
                    MeasuredValue::Overload,
                    match lcd {
                        Some(t) => t,
                        None => overload_text(negative),
                    },
                ),
            )
        }
    } else if n[3] == 0xB {
        Some((MeasuredValue::Normal(zero()), "0"@))
    } else {
        None
    }
}

/// Whether `m` is what `model` reads from UT804-layout packet `p`, with
/// `value` and `display` the value and text it shows.
pub open spec fn ut804_reading(
    model: Model,
    p: Seq<u8>,
    m: Measurement,
    value: MeasuredValue,
    display: Seq<char>,
) -> bool {
    let (range, mode, _, _) = ut804_positions(p);
    reading_is(
        m,
        ut804_label(p),
        mode as u16,
        range,
        value,
        ut804_format(p).2,
        ut804_range_label(model, p),
        None,
        Some(display),
        ut804_flags(p),
        p,
    )
}

/// What `model` makes of a whole UT804-layout packet `p`.
pub open spec fn ut804_parsed(model: Model, p: Seq<u8>, r: Result<Measurement, Error>) -> bool {
    let digits = nibbles_of(p).take(5);
    let (negative, dp, _) = ut804_format(p);
    let text = assembled_text(digits, dp, negative);
    match ut804_fixed_value(p) {
        Some((v, d)) => r matches Ok(m) && ut804_reading(model, p, m, v, d),
        None => match bad_digit(digits) {
            Some(b) => r == Err::<Measurement, Error>(Error::InvalidDigitNibble(b)),
            None => match decimal_of(text) {
                Some(d) => r matches Ok(m) && ut804_reading(
                    model,
                    p,
                    m,
                    MeasuredValue::Normal(d),
                    text,
                ),
                None => r matches Err(Error::UnparseableValue(s)) && s@ == text,
            },
        },
    }
}

/// The zero a LO or idle frame reads as.
fn zero_value() -> (v: MeasuredValue)
    ensures
        v == MeasuredValue::Normal(zero()),
{
    MeasuredValue::Normal(Decimal { negative: false, digits: 0, scale: 0, kind: NumberKind::Finite })
}

/// A copy of `payload`.
fn copy_bytes(payload: &[u8]) -> (v: Vec<u8>)
    ensures
        v@ == payload@,
{
    let mut v: Vec<u8> = Vec::new();
    let mut i: usize = 0;
    while i < payload.len()
        invariant
            i <= payload@.len(),
            v@ == payload@.take(i as int),
        decreases payload@.len() - i,
    {
        v.push(payload[i]);
        i = i + 1;
        assert(v@ =~= payload@.take(i as int));
    }
    assert(v@ =~= payload@);
    v
}

/// Parse a packet in the UT804's layout for `model`. The UT71 and VC9x0
/// send the UT804's packets; only the range labels differ.
pub fn parse_ut804_layout(model: Model, packet: &[u8]) -> (r: Result<Measurement, Error>)
    ensures
        !whole_packet(packet@) ==> r == Err::<Measurement, Error>(Error::NotAPacket),
        whole_packet(packet@) ==> ut804_parsed(model, packet@, r),
{
    let f = match Ut804Fields::decode(packet) {
        Ok(f) => f,
        Err(e) => {
            return Err(e);
        },
    };
    let ghost p = packet@;
    let ghost n = nibbles_of(p);
    assert(f.nibbles@ == n);
    let sign_bit = f.sign_bit();
    let auto_range = f.status & 0x3 == 0x1;
    let coupling = f.coupling();
    let info = ut804_mode_info(f.mode, f.range);
    let (mode_name, unit, dp_pos) = mode_info_or_unknown(
        match info {
            Some(i) => Some((i.0, i.1, i.2)),
            None => None,
        },
    );
    let duty = f.duty();
    let (mode, negative, dp_pos, unit): (String, bool, u8, &'static str) = if duty {
        ("Duty %".to_owned(), false, 2, "%")
    } else if info.is_none() {
        (unknown_mode(f.mode), sign_bit, dp_pos, unit)
    } else {
        (coupled_name(f.mode, mode_name, coupling).to_owned(), sign_bit, dp_pos, unit)
    };
    assert(mode@ == ut804_label(p));
    assert((negative, dp_pos, unit) == ut804_format(p));
    let range_label = match info {
        Some(i) => if duty {
            ""
        } else {
            model.range_label(f.mode, f.range, i.3)
        },
        None => "",
    };
    let dc = match coupling {
        Some(Coupling::Dc) | Some(Coupling::AcDc) => true,
        _ => false,
    };
    let flags = StatusFlags { auto_range, dc, ..StatusFlags::none() };
    assert(flags == ut804_flags(p));
    let nibbles = f.nibbles.as_slice();
    let digits = vstd::slice::slice_subrange(nibbles, 0, 5);
    assert(digits@ == n.take(5));
    let (value, display_raw) = if f.nibbles[0] == 0xA {
        let lcd = if f.nibbles[1] == 0xA || f.nibbles[1] == 0xC {
            ut804_lcd_text(digits, dp_pos, negative)
        } else {
            None
        };
        if f.nibbles[1] == 0xC {
            (
                zero_value(),
                match lcd {
                    Some(t) => Some(t),
                    None => Some("L0".to_owned()),
                },
            )
        } else {
            (
                MeasuredValue::Overload,
                match lcd {
                    Some(t) => Some(t),
                    None => overload_display(negative),
                },
            )
        }
    } else if f.nibbles[3] == 0xB {
        (zero_value(), Some("0".to_owned()))
    } else {
        match assemble_value(digits, dp_pos, negative) {
            Ok((display, v)) => (MeasuredValue::Normal(v), Some(display)),
            Err(e) => {
                return Err(e);
            },
        }
    };
    Ok(
        Measurement {
            mode,
            mode_raw: f.mode as u16,
            range_raw: f.range,
            value,
            unit,
            range_label,
            progress: None,
            display_raw,
            flags,
            raw_payload: copy_bytes(packet),
        },
    )
}

/// Parse a UT804 packet. Position k is byte k.
pub fn parse_measurement_ut804(packet: &[u8]) -> (r: Result<Measurement, Error>)
    ensures
        !whole_packet(packet@) ==> r == Err::<Measurement, Error>(Error::NotAPacket),
        whole_packet(packet@) ==> ut804_parsed(Model::Ut804, packet@, r),
{
    parse_ut804_layout(Model::Ut804, packet)
}

/// The UT803 positions of packet `p`: (range, mode, position 8, position 9,
/// position 10).
pub open spec fn ut803_fields(p: Seq<u8>) -> (u8, u8, u8, u8, u8) {
    let n = ut803_positions(p);
    (n[1], n[6], n[7], n[8], n[9])
}

/// The mode label of a UT803 packet: V and mV are DC or AC by position 10
/// bit 3; unknown pairs are named by their mode byte.
pub open spec fn ut803_label(p: Seq<u8>) -> Seq<char> {
    let (range, mode, nib8, _, nib10) = ut803_fields(p);
    let dc = nib10 & 0x8 != 0;
    match ut803_info(mode, range, nib8 & 0x8 != 0) {
        None => unknown_mode_text(mode),
        Some(i) => if mode == 0xB {
            if range == 4 {
                if dc {
                    "DC mV"@
                } else {
                    "AC mV"@
                }
            } else if dc {
                "DC V"@
            } else {
                "AC V"@
            }
        } else {
            i.0@
        },
    }
}

/// The flags a UT803 packet carries: HOLD from position 9 bit 3, DC and
/// AUTO from position 10 bits 3 and 1.
pub open spec fn ut803_flags(p: Seq<u8>) -> StatusFlags {
    let (_, _, _, nib9, nib10) = ut803_fields(p);
    StatusFlags {
        hold: nib9 & 0x8 != 0,
        auto_range: nib10 & 0x2 != 0,
        dc: nib10 & 0x8 != 0,
        ..no_flags()
    }
}

/// Whether `m` is the UT803 reading of packet `p`, with `value` and
/// `display` the value and text it shows.
pub open spec fn ut803_reading(p: Seq<u8>, m: Measurement, value: MeasuredValue, display: Seq<
    char,
>) -> bool {
    let (range, mode, nib8, _, _) = ut803_fields(p);
    let (_, unit, _) = info_or_unknown(ut803_info(mode, range, nib8 & 0x8 != 0));
    reading_is(
        m,
        ut803_label(p),
        mode as u16,
        range,
        value,
        unit,
        "",
        None,
        Some(display),
        ut803_flags(p),
        p,
    )
}

/// What the UT803 parser makes of a whole packet `p`: position 8 bit 0 is an
/// overload, whose digits are not read; otherwise digits 3-6 are.
pub open spec fn ut803_parsed(p: Seq<u8>, r: Result<Measurement, Error>) -> bool {
    let n = ut803_positions(p);
    let (range, mode, nib8, _, _) = ut803_fields(p);
    let negative = nib8 & 0x4 != 0;
    let (_, _, dp) = info_or_unknown(ut803_info(mode, range, nib8 & 0x8 != 0));
    let digits = n.subrange(2, 6);
    let text = assembled_text(digits, dp, negative);
    if nib8 & 0x1 != 0 {
        r matches Ok(m) && ut803_reading(p, m, MeasuredValue::Overload, overload_text(negative))
    } else {
        match bad_digit(digits) {
            Some(b) => r == Err::<Measurement, Error>(Error::InvalidDigitNibble(b)),
            None => match decimal_of(text) {
                Some(d) => r matches Ok(m) && ut803_reading(p, m, MeasuredValue::Normal(d), text),
                None => r matches Err(Error::UnparseableValue(s)) && s@ == text,
            },
        }
    }
}

/// Parse a UT803 packet, by the vendor parser's positions.
pub fn parse_measurement_ut803(packet: &[u8]) -> (r: Result<Measurement, Error>)
    ensures
        !whole_packet(packet@) ==> r == Err::<Measurement, Error>(Error::NotAPacket),
        whole_packet(packet@) ==> ut803_parsed(packet@, r),
{
    let f = match Ut803Fields::decode(packet) {
        Ok(f) => f,
        Err(e) => {
            return Err(e);
        },
    };
    let ghost p = packet@;
    let alt = f.alt();
    let negative = f.nib8 & 0x4 != 0;
    let overload = f.nib8 & 0x1 != 0;
    let hold = f.nib9 & 0x8 != 0;
    let dc = f.nib10 & 0x8 != 0;
    let auto_range = f.nib10 & 0x2 != 0;
    let info = ut803_mode_info(f.mode, f.range, alt);
    let (mode_name, unit, dp_pos) = mode_info_or_unknown(info);
    let mode: String = if info.is_none() {
        unknown_mode(f.mode)
    } else if f.mode == 0xB {
        if f.range == 4 {
            if dc {
                "DC mV".to_owned()
            } else {
                "AC mV".to_owned()
            }
        } else if dc {
            "DC V".to_owned()
        } else {
            "AC V".to_owned()
        }
    } else {
        mode_name.to_owned()
    };
    assert(mode@ == ut803_label(p));
    let flags = StatusFlags { hold, auto_range, dc, ..StatusFlags::none() };
    assert(flags == ut803_flags(p));
    let (value, display_raw) = if overload {
        (MeasuredValue::Overload, overload_display(negative))
    } else {
        let nibbles = f.nibbles.as_slice();
        let digits = vstd::slice::slice_subrange(nibbles, 2, 6);
        match assemble_value(digits, dp_pos, negative) {
            Ok((display, v)) => (MeasuredValue::Normal(v), Some(display)),
            Err(e) => {
                return Err(e);
            },
        }
    };
    Ok(
        Measurement {
            mode,
            mode_raw: f.mode as u16,
            range_raw: f.range,
            value,
            unit,
            range_label: "",
            progress: None,
            display_raw,
            flags,
            raw_payload: copy_bytes(packet),
        },
    )
}

} // verus!
