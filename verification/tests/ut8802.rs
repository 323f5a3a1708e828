use dmm_lib::measurement::{Decimal, NumberKind, MeasuredValue};
use dmm_lib::protocol::ut8802::parse_measurement;

/// A decimal reading as a float, for comparing against the expected values.
fn as_f64(d: Decimal) -> f64 {
    let v: f64 = match d.kind {
        NumberKind::Finite => format!("{}e{}", d.digits, -d.scale).parse().unwrap(),
        NumberKind::Infinite => f64::INFINITY,
        NumberKind::NotANumber => f64::NAN,
    };
    if d.negative { -v } else { v }
}

/// Build a 7-byte UT8802 payload from components.
fn make_payload(
    position: u8,
    digits: [u8; 5],
    dp_pos: u8,
    acdc_bits: u8,
    status: u8,
    sign_flags: u8,
) -> Vec<u8> {
    // digits[] is MSD-first; wire order is d1=b3 lo, d2=b2 hi,
    // d3=b2 lo, d4=b1 hi, d5=b1 lo (payload bytes 1-3).
    vec![
        position,
        (digits[3] << 4) | digits[4],
        (digits[1] << 4) | digits[2],
        digits[0],
        (acdc_bits << 4) | dp_pos,
        status,
        sign_flags,
    ]
}

#[test]
fn parse_dcv() {
    // DC V 200V, display "1234.5" (dp_pos=1)
    let payload = make_payload(0x05, [1, 2, 3, 4, 5], 1, 0x02, 0x00, 0x00);
    let m = parse_measurement(&payload).unwrap();
    assert_eq!(m.mode, "DC V");
    assert_eq!(m.unit, "V");
    assert_eq!(m.range_label, "200V");
    assert!(matches!(m.value, MeasuredValue::Normal(d) if { let v = as_f64(d); (v - 1234.5).abs() < 1e-6 }));
}

#[test]
fn parse_acv() {
    // AC V 20V, display "12.34" (dp_pos=2)
    let payload = make_payload(0x0A, [0, 1, 2, 3, 4], 2, 0x01, 0x00, 0x00);
    let m = parse_measurement(&payload).unwrap();
    assert_eq!(m.mode, "AC V");
    assert_eq!(m.unit, "V");
    assert_eq!(m.range_label, "20V");
}

#[test]
fn parse_resistance() {
    // Resistance 2kΩ, display "1.234" (dp_pos=3). The digits are
    // range-relative, so this is 1.234 kΩ — the unit carries the prefix.
    let payload = make_payload(0x1A, [0, 1, 2, 3, 4], 3, 0x00, 0x00, 0x00);
    let m = parse_measurement(&payload).unwrap();
    assert_eq!(m.mode, "Ω");
    assert_eq!(m.unit, "kΩ");
    assert_eq!(m.range_label, "2kΩ");
    assert!(matches!(m.value, MeasuredValue::Normal(d) if { let v = as_f64(d); (v - 1.234).abs() < 1e-6 }));
}

/// The five display digits are range-relative: 10 nF is sent as "10.00"
/// on the nF position, and reporting that in farads would be off by 10^9.
/// Prefixes come from `FUN_1001cd30` (uci.dll).
#[test]
fn capacitance_units_carry_the_range_decade() {
    for (position, expected) in [(0x27, "nF"), (0x28, "µF"), (0x29, "mF")] {
        let payload = make_payload(position, [0, 1, 0, 0, 0], 2, 0x00, 0x00, 0x00);
        let m = parse_measurement(&payload).unwrap();
        assert_eq!(m.mode, "Capacitance");
        assert_eq!(m.unit, expected, "position {position:#04x}");
        assert!(matches!(m.value, MeasuredValue::Normal(d) if { let v = as_f64(d); (v - 10.0).abs() < 1e-6 }));
    }
}

#[test]
fn frequency_units_carry_the_range_decade() {
    for (position, expected) in [(0x2B, "Hz"), (0x2C, "kHz"), (0x2D, "MHz")] {
        let payload = make_payload(position, [0, 1, 5, 0, 0], 3, 0x00, 0x00, 0x00);
        let m = parse_measurement(&payload).unwrap();
        assert_eq!(m.mode, "Hz");
        assert_eq!(m.unit, expected, "position {position:#04x}");
        assert!(matches!(m.value, MeasuredValue::Normal(d) if { let v = as_f64(d); (v - 1.5).abs() < 1e-6 }));
    }
}

/// The 200 mV position reports millivolts, not volts — `FUN_1001cd30`
/// returns the `m` prefix for position 0x01.
#[test]
fn millivolt_range_reports_millivolts() {
    let payload = make_payload(0x01, [0, 1, 2, 3, 4], 2, 0x00, 0x00, 0x00);
    let m = parse_measurement(&payload).unwrap();
    assert_eq!(m.mode, "DC V");
    assert_eq!(m.unit, "mV");
    assert_eq!(m.range_label, "200mV");
}

/// Positions whose base unit needs no prefix must stay unprefixed.
#[test]
fn unprefixed_positions_keep_the_base_unit() {
    for (position, expected) in [
        (0x04, "V"),  // DC V 20V
        (0x16, "A"),  // DC A 2A
        (0x19, "Ω"),  // 200Ω
        (0x22, "%"),  // duty
        (0x23, "V"),  // diode
        (0x24, "Ω"),  // continuity
        (0x25, ""),   // hFE
        (0x2B, "Hz"), // Hz
    ] {
        let payload = make_payload(position, [0, 0, 1, 0, 0], 1, 0x00, 0x00, 0x00);
        let m = parse_measurement(&payload).unwrap();
        assert_eq!(m.unit, expected, "position {position:#04x}");
    }
}

#[test]
fn ut8802_parse_overload() {
    // Digit with 0x0C nibble → overload
    let payload = make_payload(0x01, [0, 0, 0x0C, 0, 0], 0, 0x00, 0x00, 0x00);
    let m = parse_measurement(&payload).unwrap();
    assert!(matches!(m.value, MeasuredValue::Overload));
}

#[test]
fn out_of_range_dp_pos_errors_instead_of_panicking() {
    // dp_pos 5-15 would underflow the decimal-insertion index math;
    // normally rejected by the framing extractor, but parse_measurement
    // must also refuse it rather than panic.
    for dp_pos in 5..=15u8 {
        let payload = make_payload(0x05, [1, 2, 3, 4, 5], dp_pos, 0x02, 0x00, 0x00);
        assert!(parse_measurement(&payload).is_err(), "dp_pos={dp_pos}");
    }
}

#[test]
fn parse_negative() {
    // Bit 7 of sign byte = negative
    let payload = make_payload(0x05, [1, 2, 3, 4, 5], 1, 0x02, 0x00, 0x80);
    let m = parse_measurement(&payload).unwrap();
    assert!(matches!(m.value, MeasuredValue::Normal(d) if { let v = as_f64(d); (v - (-1234.5)).abs() < 1e-6 }));
}

#[test]
fn digit_order_matches_vendor_wire_layout() {
    // Raw bytes, not via make_payload: digits 1,2,3,4,5 (MSD→LSD) are
    // d1=byte3 lo, d2=byte2 hi, d3=byte2 lo, d4=byte1 hi, d5=byte1 lo.
    // dp_pos=1 → "1234.5".
    let payload = [0x05, 0x45, 0x23, 0x01, 0x01, 0x00, 0x00];
    let m = parse_measurement(&payload).unwrap();
    assert!(matches!(m.value, MeasuredValue::Normal(d) if { let v = as_f64(d); (v - 1234.5).abs() < 1e-6 }));
}

#[test]
fn overload_from_status_bit() {
    // Vendor overload = byte 6 bit 6, with ordinary digits on the wire.
    let payload = make_payload(0x05, [1, 2, 3, 4, 5], 1, 0x00, 0x00, 0x40);
    let m = parse_measurement(&payload).unwrap();
    assert!(matches!(m.value, MeasuredValue::Overload));
}

#[test]
fn dc_flag_from_position_code() {
    // AC position (0x09 = AC V per FUN_1001ca30) must not set dc even
    // though byte 4 bits 4-5 (diode/SCR direction) read as "2".
    let payload = make_payload(0x09, [1, 2, 3, 4, 5], 1, 0x02, 0x00, 0x00);
    let m = parse_measurement(&payload).unwrap();
    assert!(!m.flags.dc);

    // DC position (0x05 = DC V) sets dc regardless of byte 4 bits.
    let payload = make_payload(0x05, [1, 2, 3, 4, 5], 1, 0x01, 0x00, 0x00);
    let m = parse_measurement(&payload).unwrap();
    assert!(m.flags.dc);
}

#[test]
fn parse_auto_range() {
    // Bit 2 clear = auto ON (inverted logic)
    let payload = make_payload(0x05, [1, 2, 3, 4, 5], 1, 0x02, 0x00, 0x00);
    let m = parse_measurement(&payload).unwrap();
    assert!(m.flags.auto_range);

    // Bit 2 set = auto OFF
    let payload = make_payload(0x05, [1, 2, 3, 4, 5], 1, 0x02, 0x00, 0x04);
    let m = parse_measurement(&payload).unwrap();
    assert!(!m.flags.auto_range);
}

#[test]
fn parse_hold_flag() {
    // HOLD = byte 7 bit 4 (status-word D31)
    let payload = make_payload(0x01, [1, 2, 3, 4, 5], 0, 0x00, 0x00, 0x10);
    let m = parse_measurement(&payload).unwrap();
    assert!(m.flags.hold);
}

#[test]
fn parse_rel_flag() {
    // REL = byte 7 bit 3 (D30)
    let payload = make_payload(0x01, [1, 2, 3, 4, 5], 0, 0x00, 0x00, 0x08);
    let m = parse_measurement(&payload).unwrap();
    assert!(m.flags.rel);
}

#[test]
fn parse_max_min_flags() {
    // MAX = byte 7 bit 1 (D28), MIN = byte 7 bit 0 (D29)
    let payload = make_payload(0x01, [1, 2, 3, 4, 5], 0, 0x00, 0x00, 0x02);
    let m = parse_measurement(&payload).unwrap();
    assert!(m.flags.max);
    assert!(!m.flags.min);

    let payload = make_payload(0x01, [1, 2, 3, 4, 5], 0, 0x00, 0x00, 0x01);
    let m = parse_measurement(&payload).unwrap();
    assert!(!m.flags.max);
    assert!(m.flags.min);
}

/// Byte 4 bits 4-5 do **not** encode AC/DC coupling.
///
/// They were read that way once ("0=OFF, 1=AC, 2=DC, 3=AC+DC"), and this
/// test was written to that reading — but it only ever passed because
/// each case's position code happened to agree with the coupling bits it
/// asserted on. `position_is_dc` documents the corrected reading: the
/// vendor derives AC/DC from the position code alone (`FUN_1001ca30`),
/// and these bits are diode/SCR probe-direction indicators.
///
/// So sweep all four bit values against a fixed position and assert the
/// flag doesn't move. That fails if anyone reintroduces the old reading.
#[test]
fn acdc_bits_do_not_affect_the_dc_flag() {
    for acdc_bits in 0..=3u8 {
        // 0x05 = DC V: dc must stay set whatever the bits say.
        let payload = make_payload(0x05, [1, 2, 3, 4, 5], 1, acdc_bits, 0x00, 0x00);
        let m = parse_measurement(&payload).unwrap();
        assert!(m.flags.dc, "DC position with acdc_bits={acdc_bits}");

        // 0x0A = AC V: dc must stay clear whatever the bits say.
        let payload = make_payload(0x0A, [0, 1, 2, 3, 4], 2, acdc_bits, 0x00, 0x00);
        let m = parse_measurement(&payload).unwrap();
        assert!(!m.flags.dc, "AC position with acdc_bits={acdc_bits}");
    }
}

#[test]
fn parse_unknown_position() {
    // Position 0x02 is a gap — frame extractor would reject this,
    // but the parser should handle it gracefully
    let payload = make_payload(0x02, [1, 2, 3, 4, 5], 0, 0x00, 0x00, 0x00);
    let m = parse_measurement(&payload).unwrap();
    assert!(m.mode.starts_with("Unknown"));
}

#[test]
fn ut8802_parse_payload_too_short() {
    let payload = vec![0x01, 0x12, 0x34];
    assert!(parse_measurement(&payload).is_err());
}

#[test]
fn display_raw_preserved() {
    // Display "12345" with dp_pos=0 (no decimal)
    let payload = make_payload(0x01, [1, 2, 3, 4, 5], 0, 0x00, 0x00, 0x00);
    let m = parse_measurement(&payload).unwrap();
    assert_eq!(m.display_raw.as_deref(), Some("12345"));
}

#[test]
fn decimal_point_positions() {
    // dp_pos=0 → "12345"
    let payload = make_payload(0x01, [1, 2, 3, 4, 5], 0, 0x00, 0x00, 0x00);
    let m = parse_measurement(&payload).unwrap();
    assert_eq!(m.display_raw.as_deref(), Some("12345"));

    // dp_pos=1 → "1234.5"
    let payload = make_payload(0x01, [1, 2, 3, 4, 5], 1, 0x00, 0x00, 0x00);
    let m = parse_measurement(&payload).unwrap();
    assert_eq!(m.display_raw.as_deref(), Some("1234.5"));

    // dp_pos=2 → "123.45"
    let payload = make_payload(0x01, [1, 2, 3, 4, 5], 2, 0x00, 0x00, 0x00);
    let m = parse_measurement(&payload).unwrap();
    assert_eq!(m.display_raw.as_deref(), Some("123.45"));

    // dp_pos=3 → "12.345"
    let payload = make_payload(0x01, [1, 2, 3, 4, 5], 3, 0x00, 0x00, 0x00);
    let m = parse_measurement(&payload).unwrap();
    assert_eq!(m.display_raw.as_deref(), Some("12.345"));

    // dp_pos=4 → "1.2345"
    let payload = make_payload(0x01, [1, 2, 3, 4, 5], 4, 0x00, 0x00, 0x00);
    let m = parse_measurement(&payload).unwrap();
    assert_eq!(m.display_raw.as_deref(), Some("1.2345"));
}

#[test]
fn leading_zeros_replaced_with_spaces() {
    // digits [0, 0, 1, 2, 3] → "  123"
    let payload = make_payload(0x01, [0, 0, 1, 2, 3], 0, 0x00, 0x00, 0x00);
    let m = parse_measurement(&payload).unwrap();
    assert_eq!(m.display_raw.as_deref(), Some("  123"));
}

#[test]
fn zero_reading_integer() {
    // All-zero digits, dp_pos=0 → "    0" → value 0.0
    let payload = make_payload(0x01, [0, 0, 0, 0, 0], 0, 0x00, 0x00, 0x00);
    let m = parse_measurement(&payload).unwrap();
    assert_eq!(m.display_raw.as_deref(), Some("    0"));
    assert!(matches!(m.value, MeasuredValue::Normal(d) if { let v = as_f64(d); v == 0.0 }));
}

#[test]
fn zero_reading_with_decimal() {
    // All-zero digits, dp_pos=4 (200mV range) → "0.0000" → value 0.0
    let payload = make_payload(0x01, [0, 0, 0, 0, 0], 4, 0x00, 0x00, 0x00);
    let m = parse_measurement(&payload).unwrap();
    assert_eq!(m.display_raw.as_deref(), Some("0.0000"));
    assert!(matches!(m.value, MeasuredValue::Normal(d) if { let v = as_f64(d); v == 0.0 }));
}

#[test]
fn zero_reading_dp3() {
    // All-zero digits, dp_pos=3 → " 0.000" → value 0.0
    let payload = make_payload(0x1A, [0, 0, 0, 0, 0], 3, 0x00, 0x00, 0x00);
    let m = parse_measurement(&payload).unwrap();
    assert_eq!(m.display_raw.as_deref(), Some(" 0.000"));
    assert!(matches!(m.value, MeasuredValue::Normal(d) if { let v = as_f64(d); v == 0.0 }));
}

#[test]
fn nibble_0a_treated_as_zero() {
    // 0x0A → '0', and it's a leading zero so replaced with space
    let payload = make_payload(0x01, [0x0A, 0, 1, 2, 3], 0, 0x00, 0x00, 0x00);
    let m = parse_measurement(&payload).unwrap();
    assert_eq!(m.display_raw.as_deref(), Some("  123"));
}

#[test]
fn mode_raw_preserved() {
    let payload = make_payload(0x2B, [0, 5, 0, 0, 0], 1, 0x00, 0x00, 0x00);
    let m = parse_measurement(&payload).unwrap();
    assert_eq!(m.mode_raw, 0x2B);
    assert_eq!(m.mode, "Hz");
}
