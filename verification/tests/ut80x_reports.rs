use dmm_lib::measurement::{Decimal, NumberKind, Error, MeasuredValue, Measurement};
use dmm_lib::protocol::ut80x::Ut80xProtocol;
use dmm_lib::protocol::ut80x::fields::Ut804Fields;
use dmm_lib::protocol::ut80x::model::Model;
use dmm_lib::protocol::ut80x::parse::parse_ut804_layout;
use dmm_lib::protocol::ut80x::reports::{
    parse_measurement_ut803_reporting, parse_measurement_ut804_reporting,
    parse_ut804_layout_reporting,
};

/// Parse `packet` with `parse` and return what was reported with it.
fn parse_reported(
    parse: fn(&[u8]) -> (Result<Measurement, Error>, Vec<String>),
    packet: &[u8],
) -> (Result<Measurement, Error>, Vec<String>) {
    parse(packet)
}

/// A decimal reading as a float, for comparing against the expected values.
fn as_f64(d: Decimal) -> f64 {
    let v: f64 = match d.kind {
        NumberKind::Finite => format!("{}e{}", d.digits, -d.scale).parse().unwrap(),
        NumberKind::Infinite => f64::INFINITY,
        NumberKind::NotANumber => f64::NAN,
    };
    if d.negative { -v } else { v }
}

/// The reading's fields, one per line, as the snapshots were written.
fn snapshot(m: &Measurement) -> String {
    let value = match m.value {
        MeasuredValue::Normal(d) => format!("Normal({:?})", as_f64(d)),
        MeasuredValue::Overload => "Overload".to_string(),
        MeasuredValue::NcvLevel(l) => format!("NcvLevel({l})"),
    };
    let f = &m.flags;
    let names = [
        (f.hold, "hold"),
        (f.rel, "rel"),
        (f.min, "min"),
        (f.max, "max"),
        (f.avg, "avg"),
        (f.low_battery, "low_battery"),
        (f.hv_warning, "hv_warning"),
        (f.peak_max, "peak_max"),
        (f.peak_min, "peak_min"),
        (f.lead_error, "lead_error"),
        (f.comp, "comp"),
        (f.record, "record"),
        (f.loz, "loz"),
        (f.void, "void"),
        (f.auto_range, "auto_range"),
        (f.dc, "dc"),
    ];
    let flags: Vec<&str> = names.iter().filter(|(on, _)| *on).map(|(_, n)| *n).collect();
    let mut s = format!(
        "mode={}\nmode_raw={:#04x}\nrange_raw={:#04x}\nvalue={}\nunit={}\nrange_label={}\n",
        m.mode, m.mode_raw, m.range_raw, value, m.unit, m.range_label
    );
    if let Some(p) = m.progress {
        s.push_str(&format!("progress={p}\n"));
    }
    s.push_str(&format!(
        "display_raw={:?}\nflags={}\naux=0\nraw_payload={}",
        m.display_raw,
        flags.join(","),
        m.raw_payload.len()
    ));
    s
}

// Real packets from a UT804 on its bundled CH9325 cable at 2400 baud
// (issue #16), all on DC V range 1 with AUTO on.

/// Open leads: digits 00000, range 1, mode 1, coupling 0, status 1.
const ISSUE16_OPEN_LEADS: [u8; 11] = [
    0xB0, 0xB0, 0xB0, 0xB0, 0xB0, 0x31, 0x31, 0xB0, 0x31, 0x0D, 0x8A,
];

/// Digits 00013 with status 5 (sign and AUTO).
const ISSUE16_MINUS_0_0013: [u8; 11] = [
    0xB0, 0xB0, 0xB0, 0x31, 0xB3, 0x31, 0x31, 0xB0, 0xB5, 0x0D, 0x8A,
];

/// Digits 00000 with the sign bit set.
const ISSUE16_SIGNED_ZERO: [u8; 11] = [
    0xB0, 0xB0, 0xB0, 0xB0, 0xB0, 0x31, 0x31, 0xB0, 0xB5, 0x0D, 0x8A,
];

/// Digits 00008 with status 5.
const ISSUE16_MINUS_0_0008: [u8; 11] = [
    0xB0, 0xB0, 0xB0, 0xB0, 0x38, 0x31, 0x31, 0xB0, 0xB5, 0x0D, 0x8A,
];

/// A packet as the UT804 sends it: each data nibble as `0x30 | n`, bit 7
/// set for odd parity, then CR LF as `0D 8A`.
fn wire(data: [u8; 9]) -> Vec<u8> {
    let mut packet: Vec<u8> = data
        .iter()
        .map(|&n| {
            let byte = 0x30 | n;
            if byte.count_ones() % 2 == 0 {
                byte | 0x80
            } else {
                byte
            }
        })
        .collect();
    packet.extend_from_slice(&[0x0D, 0x8A]);
    packet
}

/// Build a UT804 packet.
/// digits = MSD-first positions 1-5; then range, mode, acdc, status at
/// positions 6-9.
fn ut804_payload(digits: &[u8; 5], range: u8, mode: u8, acdc: u8, status: u8) -> Vec<u8> {
    wire([
        digits[0], digits[1], digits[2], digits[3], digits[4], range, mode, acdc, status,
    ])
}

/// Build a UT803 packet.
/// Position k is byte k-1: range at position 2 (byte 1), digits =
/// MSD-first positions 3-6 (bytes 2-5), mode at 7 (byte 6), nib8/nib9/
/// nib10 at positions 8/9/10 (bytes 7-9).
fn ut803_payload(
    digits: &[u8; 4],
    range: u8,
    mode: u8,
    nib8: u8,
    nib9: u8,
    nib10: u8,
) -> Vec<u8> {
    wire([
        range, digits[0], digits[1], digits[2], digits[3], mode, nib8, nib9, nib10,
    ])
}

// --- UT71 and VC9x0 --------------------------------------------------

/// The UT804-layout models that are not the UT804.
const HANDHELDS: [Model; 3] = [Model::Ut71Ab, Model::Ut71Cde, Model::Vc920];

/// Every mode, range, coupling, sign and AUTO bit the parser accepts
/// without a report, as a packet and its reading.
fn ut804_accepted_readings() -> Vec<(Vec<u8>, Measurement)> {
    ut804_layout_accepted_readings(Model::Ut804)
}

/// As [`ut804_accepted_readings`], read as `model`.
fn ut804_layout_accepted_readings(model: Model) -> Vec<(Vec<u8>, Measurement)> {
    let mut readings = Vec::new();
    for mode in 0..=0xF {
        for range in 0..=0xF {
            for acdc in 0..=0x4 {
                for status in [0x0, 0x1, 0x4, 0x5] {
                    let p = ut804_payload(&[1, 2, 3, 4, 0xA], range, mode, acdc, status);
                    if let (Ok(m), reports) = parse_ut804_layout_reporting(model, &p) {
                        if reports.is_empty() {
                            readings.push((p, m));
                        }
                    }
                }
            }
        }
    }
    readings
}

/// `label` as a value in its base unit, and that unit: "6kHz" is
/// (6000.0, "Hz"). `None` for a label that is not a number, an SI
/// prefix and a unit.
fn si_quantity(label: &str) -> Option<(f64, &str)> {
    let digits = label
        .find(|c: char| !c.is_ascii_digit() && c != '.')
        .unwrap_or(label.len());
    let value: f64 = label[..digits].parse().ok()?;
    let unit = &label[digits..];
    let base = ["Hz", "Ω", "V", "A", "F"]
        .into_iter()
        .find(|base| unit.ends_with(base))?;
    let factor = match &unit[..unit.len() - base.len()] {
        "" => 1.0,
        "n" => 1e-9,
        "µ" => 1e-6,
        "m" => 1e-3,
        "k" => 1e3,
        "M" => 1e6,
        _ => return None,
    };
    Some((value * factor, base))
}

/// The handhelds send the UT804's packets, which their vendor apps read
/// with the UT804 app's parser: every reading the
/// UT804 accepts reads the same on them, range label aside. The UT71C/D/E
/// keeps the UT804's labels and the VC9x0 all but AC V's top one; the
/// UT71A/B's have a test of their own.
#[test]
fn the_handhelds_read_every_ut804_reading_the_same() {
    for (p, ut804) in ut804_accepted_readings() {
        let f = Ut804Fields::decode(&p).unwrap();
        for model in HANDHELDS {
            let (m, reports) =
                parse_ut804_layout_reporting(model, &p);
            let m = m.unwrap();
            assert!(reports.is_empty(), "{model:?} {p:02X?}: {reports:?}");
            assert_eq!(m.raw_payload, ut804.raw_payload);
            let label = match model {
                Model::Vc920 if (f.mode, f.range) == (0x2, 4) => Some("750V"),
                Model::Ut71Cde | Model::Vc920 => Some(ut804.range_label),
                Model::Ut71Ab | Model::Ut803 | Model::Ut804 => None,
            };
            if let Some(label) = label {
                assert_eq!(m.range_label, label, "{model:?} {p:02X?}");
            }
            let relabelled = Measurement {
                range_label: ut804.range_label.clone(),
                ..m
            };
            assert_eq!(
                snapshot(&relabelled),
                snapshot(&ut804),
                "{model:?} {p:02X?}"
            );
        }
    }
}

/// The UT71A/B counts to 20000 on the UT804's codes and decimal points
///: each label is half the UT804's full scale, apart
/// from the 1000V and 10A tops, and continuity and diode, which neither
/// the A/B vendor app nor the UT71 manual gives a range.
#[test]
fn ut71ab_range_labels_are_half_the_ut804s() {
    for (p, ut804) in ut804_accepted_readings() {
        let f = Ut804Fields::decode(&p).unwrap();
        let ab = parse_ut804_layout(Model::Ut71Ab, &p).unwrap();
        let label = ab.range_label;
        let context = format!(
            "{} {p:02X?}: {label:?} for {:?}",
            ut804.mode, ut804.range_label
        );
        match (f.mode, f.range) {
            _ if ut804.range_label.is_empty() => assert_eq!(label, "", "{context}"),
            (0xA | 0xB, _) => assert_eq!(label, "", "{context}"),
            (0x1 | 0x2, 4) | (0x9, _) => assert_eq!(label, ut804.range_label, "{context}"),
            _ => {
                let (full, unit) = si_quantity(&ut804.range_label).unwrap();
                let (half, ab_unit) = si_quantity(label).expect(&context);
                assert_eq!(ab_unit, unit, "{context}");
                assert!((half - full / 2.0).abs() <= 1e-9 * full, "{context}");
            }
        }
    }
    // As the A/B app's chart and the manual's A/B tables give them.
    for (mode, range, acdc, label) in [
        (0x1, 1, 2, "2V"),
        (0x2, 4, 1, "1000V"),
        (0x3, 0, 0, "200mV"),
        (0x4, 1, 0, "200Ω"),
        (0x4, 6, 0, "20MΩ"),
        (0x5, 1, 0, "20nF"),
        (0x5, 7, 0, "20mF"),
        (0x7, 1, 0, "2000µA"),
        (0x8, 0, 1, "20mA"),
        (0x9, 0, 0, "10A"),
        (0xC, 0, 0, "20Hz"),
        (0xC, 7, 0, "200MHz"),
        (0xA, 0, 0, ""),
        (0xB, 0, 0, ""),
        (0x6, 0, 0, ""),
        (0xE, 0, 0, ""),
        (0xF, 0, 0, ""),
    ] {
        let p = ut804_payload(&[0, 1, 2, 3, 0xA], range, mode, acdc, 0x0);
        let m = parse_ut804_layout(Model::Ut71Ab, &p).unwrap();
        assert_eq!(m.range_label, label, "mode {mode:#x} range {range}");
    }
}

/// Function code E is the UT71E's and VC940's power position, in watts
/// with the point after digit 4, and reads without a
/// report on every UT804-layout model. Function 0 has no position in any
/// of their manuals, so it is still reported, under each
/// model's own id.
#[test]
fn code_e_is_power_and_code_0_is_still_reported() {
    let power = ut804_payload(&[0, 1, 2, 3, 4], 0, 0xE, 0, 0x0);
    let code_0 = ut804_payload(&[1, 2, 3, 4, 0xA], 0, 0x0, 0, 0x0);
    for proto in [
        Ut80xProtocol::new_ut804(),
        Ut80xProtocol::new_ut71ab(),
        Ut80xProtocol::new_ut71cde(),
        Ut80xProtocol::new_vc920(),
    ] {
        let id = proto.model().report_id();
        let (m, reports) = proto.parse_payload_reporting(&power);
        let m = m.unwrap();
        assert_eq!(
            (m.mode.as_str(), m.unit, m.display_raw.as_deref()),
            ("Power", "W", Some("0123.4")),
            "{id}"
        );
        assert!(matches!(m.value, MeasuredValue::Normal(d) if { let v = as_f64(d); (v - 123.4).abs() < 1e-9 }));
        assert!(reports.is_empty(), "{id}: {reports:?}");

        let (m, reports) = proto.parse_payload_reporting(&code_0);
        assert_eq!(m.unwrap().mode, "Unknown(0x00)", "{id}");
        assert_eq!(
            reports,
            [format!(
                "{id}: unrecognised mode/range pair: nibbles 1234A0000"
            )]
        );
    }
}

/// The packets the tests above take from issue #16 or build from the
/// documented layout, and the documented overload patterns, report nothing:
/// a report there would warn every user of the meter.
#[test]
fn documented_packets_report_nothing() {
    let mut ut804 = vec![
        ISSUE16_OPEN_LEADS.to_vec(),
        ISSUE16_MINUS_0_0013.to_vec(),
        ISSUE16_SIGNED_ZERO.to_vec(),
        ISSUE16_MINUS_0_0008.to_vec(),
        ut804_payload(&[3, 9, 9, 9, 0xA], 1, 0x1, 2, 0x0),
        ut804_payload(&[1, 2, 3, 4, 0xA], 2, 0x1, 2, 0x4),
        ut804_payload(&[1, 0, 0, 0, 0xA], 1, 0x1, 2, 0x1),
        ut804_payload(&[1, 0, 0, 0, 0xA], 1, 0x1, 2, 0x5),
        ut804_payload(&[3, 9, 9, 9, 0xA], 2, 0x4, 0, 0x0),
        ut804_payload(&[1, 2, 3, 4, 0xA], 2, 0xC, 0, 0x0),
        ut804_payload(&[5, 0, 0, 0, 0xA], 2, 0xC, 0, 0x4),
        ut804_payload(&[0, 0, 2, 5, 0xA], 0, 0x6, 0, 0x0),
        ut804_payload(&[0, 0, 7, 7, 0xA], 0, 0xD, 0, 0x0),
        ut804_payload(&[2, 3, 0, 0, 0xA], 3, 0x2, 1, 0x0),
        ut804_payload(&[2, 3, 0, 0, 0xA], 3, 0x2, 3, 0x0),
        ut804_payload(&[3, 9, 9, 9, 0xA], 0, 0x7, 0, 0x0),
        ut804_payload(&[1, 0, 0, 0, 0xA], 0, 0x9, 0, 0x0),
        ut804_payload(&[0, 0, 0, 0xB, 0], 1, 0x1, 2, 0x0),
        ut804_payload(&[1, 2, 3, 4, 5], 2, 0x1, 2, 0x0),
        ut804_payload(&[0xA, 0xC, 2, 3, 4], 1, 0x1, 2, 0x0),
        // Overload, "L0" and "HI".
        ut804_payload(&[0xA, 0xA, 0, 0xC, 0xA], 3, 0x4, 0, 0x1),
        ut804_payload(&[0xA, 0xC, 0, 0xA, 0xA], 0, 0xF, 0, 0x0),
        ut804_payload(&[0xA, 0xF, 1, 0xA, 0xA], 0, 0xF, 0, 0x0),
    ];
    for acdc in 0..=3 {
        ut804.push(ut804_payload(&[2, 3, 0, 0, 0xA], 3, 0x1, acdc, 0x0));
    }
    let ut803 = [
        wire([0x1, 5, 6, 7, 8, 0xB, 0x4, 0x8, 0xA]),
        ut803_payload(&[5, 9, 9, 9], 0, 0xB, 0x0, 0x0, 0x8),
        ut803_payload(&[1, 2, 3, 4], 1, 0xB, 0x4, 0x0, 0x8),
        ut803_payload(&[0, 0, 0, 0], 0, 0x3, 0x1, 0x0, 0x0),
        ut803_payload(&[0, 0, 0, 0], 0, 0x3, 0x5, 0x0, 0x0),
        ut803_payload(&[1, 0, 0, 0], 0, 0xB, 0x0, 0x8, 0x8),
        ut803_payload(&[2, 3, 0, 0], 1, 0xB, 0x0, 0x0, 0x6),
        ut803_payload(&[5, 9, 9, 9], 4, 0xB, 0x0, 0x0, 0x8),
        ut803_payload(&[5, 9, 9, 9], 4, 0x3, 0x0, 0x0, 0x0),
        ut803_payload(&[0, 0, 2, 5], 0, 0x4, 0x8, 0x0, 0x0),
        ut803_payload(&[0, 0, 7, 7], 0, 0x4, 0x0, 0x0, 0x0),
        ut803_payload(&[1, 2, 3, 4], 1, 0x2, 0x8, 0x0, 0x0),
        ut803_payload(&[1, 2, 3, 4], 1, 0x2, 0x0, 0x0, 0x0),
        ut803_payload(&[1, 2, 3, 4], 1, 0xB, 0x0, 0x8, 0xA),
    ];
    let cases = ut804
        .iter()
        .map(|p| (parse_measurement_ut804_reporting as fn(&[u8]) -> _, p))
        .chain(
            ut803
                .iter()
                .map(|p| (parse_measurement_ut803_reporting as fn(&[u8]) -> _, p)),
        );
    for (parse, packet) in cases {
        let (m, reports) = parse_reported(parse, packet);
        assert!(m.is_ok(), "{packet:02X?}: {m:?}");
        assert!(reports.is_empty(), "{packet:02X?}: {reports:?}");
    }
    // The handhelds send the UT804's packets.
    for model in HANDHELDS {
        for packet in &ut804 {
            let (m, reports) =
                parse_ut804_layout_reporting(model, packet);
            assert!(m.is_ok(), "{model:?} {packet:02X?}: {m:?}");
            assert!(reports.is_empty(), "{model:?} {packet:02X?}: {reports:?}");
        }
    }
}

/// A pair outside the model's table still reads as an unknown mode.
#[test]
fn a_mode_range_pair_outside_the_table_is_reported() {
    let p = ut804_payload(&[1, 2, 3, 4, 0xA], 0, 0x0, 0, 0x0);
    let (m, reports) = parse_reported(parse_measurement_ut804_reporting, &p);
    assert_eq!(m.unwrap().mode, "Unknown(0x00)");
    assert_eq!(
        reports,
        ["ut804: unrecognised mode/range pair: nibbles 1234A0000"]
    );

    let p = ut804_payload(&[1, 2, 3, 4, 0xA], 9, 0x1, 2, 0x0);
    let (_, reports) = parse_reported(parse_measurement_ut804_reporting, &p);
    assert_eq!(
        reports,
        ["ut804: unrecognised mode/range pair: nibbles 1234A9120"]
    );

    let p = ut803_payload(&[1, 0, 0, 0], 0, 0x7, 0x0, 0x0, 0x0);
    let (m, reports) = parse_reported(parse_measurement_ut803_reporting, &p);
    assert_eq!(m.unwrap().mode, "Unknown(0x07)");
    assert_eq!(
        reports,
        ["ut803: unrecognised mode/range pair: nibbles 010007000"]
    );
}

/// A digit nibble past 0xA, or digits that make no number, still fail
/// the parse, and are reported first.
#[test]
fn a_bad_digit_or_value_is_reported_with_its_error() {
    let p = ut804_payload(&[1, 0xF, 0, 0, 0xA], 1, 0x1, 2, 0x0);
    let (m, reports) = parse_reported(parse_measurement_ut804_reporting, &p);
    assert!(m.is_err());
    assert_eq!(
        reports,
        ["ut804: unrecognised digit nibble: nibbles 1F00A1120"]
    );

    let p = ut803_payload(&[1, 0xF, 0, 0], 0, 0xB, 0x0, 0x0, 0x8);
    let (m, reports) = parse_reported(parse_measurement_ut803_reporting, &p);
    assert!(m.is_err());
    assert_eq!(
        reports,
        ["ut803: unrecognised digit nibble: nibbles 01F00B008"]
    );

    // Four blanks leave no number: only the UT803 can get there, as a
    // UT804 packet with digit 1 blank is an overload.
    let p = ut803_payload(&[0xA; 4], 0, 0xB, 0x0, 0x0, 0x8);
    let (m, reports) = parse_reported(parse_measurement_ut803_reporting, &p);
    assert_eq!(
        m.unwrap_err().message(),
        "invalid response: ut80x unparseable value \"\""
    );
    assert_eq!(
        reports,
        [
            "ut803: unrecognised digit nibble: nibbles 0AAAAB008",
            "ut803: unrecognised value: nibbles 0AAAAB008",
        ]
    );
}

#[test]
fn ut804_coupling_outside_its_modes_or_values_is_reported() {
    // Value 4 on V: no label, as before.
    let p = ut804_payload(&[2, 3, 0, 0, 0xA], 3, 0x1, 4, 0x0);
    let (m, reports) = parse_reported(parse_measurement_ut804_reporting, &p);
    let m = m.unwrap();
    assert_eq!(m.mode, "V");
    assert!(!m.flags.dc);
    assert_eq!(
        reports,
        ["ut804: unrecognised ac/dc nibble: nibbles 2300A3140"]
    );

    // AC on resistance: the label stays plain.
    let p = ut804_payload(&[3, 9, 9, 9, 0xA], 2, 0x4, 1, 0x0);
    let (m, reports) = parse_reported(parse_measurement_ut804_reporting, &p);
    assert_eq!(m.unwrap().mode, "Ω");
    assert_eq!(
        reports,
        ["ut804: unrecognised ac/dc nibble: nibbles 3999A2410"]
    );

    // AC+DC on the current modes is known.
    for mode in [0x7, 0x8, 0x9] {
        let p = ut804_payload(&[1, 0, 0, 0, 0xA], 1, mode, 3, 0x0);
        let (_, reports) = parse_reported(parse_measurement_ut804_reporting, &p);
        assert!(reports.is_empty(), "mode {mode:#x}: {reports:?}");
    }
}

#[test]
fn ut804_undefined_status_bits_are_reported() {
    for status in [0x8, 0x3, 0x7, 0x9] {
        let p = ut804_payload(&[1, 2, 3, 4, 0xA], 2, 0x1, 2, status);
        let (m, reports) = parse_reported(parse_measurement_ut804_reporting, &p);
        assert!(m.is_ok());
        assert_eq!(
            reports,
            [format!(
                "ut804: unrecognised status bits: nibbles 1234A212{status:X}"
            )]
        );
    }
    // Bit 1 alone is MAN, with or without the sign.
    for status in [0x2, 0x6] {
        let p = ut804_payload(&[1, 2, 3, 4, 0xA], 2, 0x1, 2, status);
        let (_, reports) = parse_reported(parse_measurement_ut804_reporting, &p);
        assert!(reports.is_empty(), "status {status:#x}: {reports:?}");
    }
}

/// Digit 1 blank with digit 2 other than A, C or F still reads as an
/// overload.
#[test]
fn ut804_undocumented_overload_pattern_is_reported() {
    let p = ut804_payload(&[0xA, 0x1, 0, 0, 0], 1, 0x4, 0, 0x0);
    let (m, reports) = parse_reported(parse_measurement_ut804_reporting, &p);
    let m = m.unwrap();
    assert!(matches!(m.value, MeasuredValue::Overload));
    assert_eq!(m.display_raw.as_deref(), Some("0L"));
    assert_eq!(
        reports,
        ["ut804: unrecognised overload pattern: nibbles A10001400"]
    );
}

/// A blank inside a UT804 reading still renders as a gap; digit 5 blank
/// is the 4000-count display and the idle frame is known.
///
/// Range 4 puts the decimal point after digit 4, past the blanks: a
/// blank just after the point's digit repeats the point ("12..45"), and
/// the value fails to parse.
#[test]
fn ut804_blank_inside_a_reading_is_reported() {
    for (digits, nibbles, display) in [
        ([1, 0xA, 3, 4, 5], "1A3454120", "1345"),
        ([1, 2, 0xA, 4, 5], "12A454120", "1245"),
        ([1, 2, 3, 0xA, 5], "123A54120", "1235"),
    ] {
        let p = ut804_payload(&digits, 4, 0x1, 2, 0x0);
        let (m, reports) = parse_reported(parse_measurement_ut804_reporting, &p);
        assert_eq!(m.unwrap().display_raw.as_deref(), Some(display));
        assert_eq!(
            reports,
            [format!(
                "ut804: unrecognised digit nibble: nibbles {nibbles}"
            )]
        );
    }

    for digits in [[1, 2, 3, 4, 0xA], [0, 0, 0, 0xB, 0xA]] {
        let p = ut804_payload(&digits, 2, 0x1, 2, 0x0);
        let (_, reports) = parse_reported(parse_measurement_ut804_reporting, &p);
        assert!(reports.is_empty(), "{digits:X?}: {reports:?}");
    }
}

#[test]
fn ut803_blank_digit_is_reported() {
    for (digits, nibbles) in [([0xA, 2, 3, 4], "1A234B008"), ([1, 2, 3, 0xA], "1123AB008")] {
        let p = ut803_payload(&digits, 1, 0xB, 0x0, 0x0, 0x8);
        let (m, reports) = parse_reported(parse_measurement_ut803_reporting, &p);
        assert!(m.is_ok());
        assert_eq!(
            reports,
            [format!(
                "ut803: unrecognised digit nibble: nibbles {nibbles}"
            )]
        );
    }
    // An overload's digits are not read.
    let p = ut803_payload(&[0xA; 4], 0, 0x3, 0x1, 0x0, 0x0);
    let (_, reports) = parse_reported(parse_measurement_ut803_reporting, &p);
    assert!(reports.is_empty(), "{reports:?}");
}

#[test]
fn ut803_undefined_status_bits_are_reported() {
    // Nibble 8 bit 1, nibble 9 bit 0, and the alt bit on volts.
    for (nib8, nib9, nibbles) in [
        (0x2, 0x0, "11234B208"),
        (0x0, 0x1, "11234B018"),
        (0x8, 0x0, "11234B808"),
    ] {
        let p = ut803_payload(&[1, 2, 3, 4], 1, 0xB, nib8, nib9, 0x8);
        let (m, reports) = parse_reported(parse_measurement_ut803_reporting, &p);
        assert_eq!(m.unwrap().mode, "DC V");
        assert_eq!(
            reports,
            [format!(
                "ut803: unrecognised status bits: nibbles {nibbles}"
            )]
        );
    }
}

/// Nibble 9 bits 2-1 light indicators of their own, so the
/// meter sets them in ordinary use and they are no cause to ask for a
/// report.
#[test]
fn ut803_indicator_bits_stay_silent() {
    for nib9 in [0x2, 0x4, 0x6] {
        let p = ut803_payload(&[1, 2, 3, 4], 1, 0xB, 0x0, nib9, 0x8);
        let (m, reports) = parse_reported(parse_measurement_ut803_reporting, &p);
        assert_eq!(m.unwrap().mode, "DC V");
        assert!(reports.is_empty(), "nibble 9 = {nib9:#x}: {reports:?}");
    }
}

#[test]
fn ut803_volts_with_both_or_neither_coupling_bit_are_reported() {
    for (nib10, mode, nibbles) in [
        (0xC, "DC V", "11234B00C"),
        (0x0, "AC V", "11234B000"),
        (0x2, "AC V", "11234B002"),
    ] {
        let p = ut803_payload(&[1, 2, 3, 4], 1, 0xB, 0x0, 0x0, nib10);
        let (m, reports) = parse_reported(parse_measurement_ut803_reporting, &p);
        assert_eq!(m.unwrap().mode, mode);
        assert_eq!(
            reports,
            [format!("ut803: unrecognised ac/dc bits: nibbles {nibbles}")]
        );
    }
    // Neither bit on resistance is not about coupling.
    let p = ut803_payload(&[1, 2, 3, 4], 1, 0x3, 0x0, 0x0, 0x0);
    let (_, reports) = parse_reported(parse_measurement_ut803_reporting, &p);
    assert!(reports.is_empty(), "{reports:?}");
}

/// A report's hint reruns `--device <id>`, so each model reports under its
/// own registry id: a VC920 owner is not sent to the UT804's parser.
#[test]
fn each_model_reports_under_its_registry_id() {
    // A digit nibble past 0xA among either layout's digits, on a UT804 mode
    // that is not a UT803 overload.
    let p = wire([1, 0xF, 0xF, 0, 0xA, 1, 8, 2, 0]);
    let protos = [
        Ut80xProtocol::new_ut803(),
        Ut80xProtocol::new_ut804(),
        Ut80xProtocol::new_ut71ab(),
        Ut80xProtocol::new_ut71cde(),
        Ut80xProtocol::new_vc920(),
    ];
    let ids = ["ut803", "ut804", "ut71ab", "ut71cde", "vc920"];
    for (proto, id) in protos.iter().zip(ids) {
        let (_, reports) = proto.parse_payload_reporting(&p);
        let prefix = format!("{}: ", id);
        assert!(
            !reports.is_empty() && reports.iter().all(|r| r.starts_with(&prefix)),
            "{id}: {reports:?}"
        );
    }
    let (_, reports) = Ut80xProtocol::new_vc920().parse_payload_reporting(&p);
    assert_eq!(reports, ["vc920: unrecognised digit nibble: nibbles 1FF0A1820"]);
}
