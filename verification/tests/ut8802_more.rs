use dmm_lib::measurement::{Error, MeasuredValue};
use dmm_lib::protocol::Stability;
use dmm_lib::protocol::ut8802::{Ut8802Protocol, bcd_to_char, lookup_position, parse_measurement, position_is_dc};

#[test]
fn the_profile_is_an_experimental_ut8802() {
    let p = Ut8802Protocol::new();
    assert_eq!(p.profile().model_name, "UNI-T UT8802");
    assert_eq!(p.profile().family_name, "UT8802");
    assert_eq!(p.profile().stability, Stability::Experimental);
    assert_eq!(p.profile().verification_issue, Some(12));
    assert!(p.profile().supported_commands.is_empty());
}

#[test]
fn every_command_is_refused() {
    let p = Ut8802Protocol::default();
    assert_eq!(
        p.send_command("hold"),
        Err(Error::UnsupportedCommand("hold".to_string()))
    );
}

#[test]
fn capture_walks_fifteen_dial_positions() {
    let steps = Ut8802Protocol::new().capture_steps();
    let ids: Vec<&str> = steps.iter().map(|s| s.id).collect();
    assert_eq!(
        ids,
        [
            "dcv", "acv", "dcua", "dcma", "dca", "acma", "aca", "ohm", "cont", "diode", "cap",
            "hz", "duty", "hfe", "scr"
        ]
    );
    assert!(steps.iter().all(|s| s.samples == 5 && s.command.is_none()));
    assert_eq!(steps[7].instruction, "Set meter to Resistance (Ω)");
}

#[test]
fn positions_name_mode_unit_and_range() {
    assert_eq!(lookup_position(0x1F), Some(("Ω", "MΩ", "200MΩ")));
    assert_eq!(lookup_position(0x2A), Some(("SCR", "V", "")));
    assert_eq!(lookup_position(0x02), None);
    assert_eq!(lookup_position(0x2E), None);
    assert!(position_is_dc(0x16));
    assert!(!position_is_dc(0x18));
    assert!(!position_is_dc(0x02));
}

#[test]
fn bcd_nibbles_draw_digits_zero_and_l() {
    assert_eq!(bcd_to_char(7), '7');
    assert_eq!(bcd_to_char(0x0A), '0');
    assert_eq!(bcd_to_char(0x0C), 'L');
    assert_eq!(bcd_to_char(0x0B), '?');
}

/// Byte 4's high nibble changes nothing but the raw payload.
#[test]
fn probe_direction_bits_change_nothing() {
    let a = parse_measurement(&[0x23, 0x45, 0x23, 0x01, 0x03, 0x00, 0x00]).unwrap();
    let b = parse_measurement(&[0x23, 0x45, 0x23, 0x01, 0x33, 0x00, 0x00]).unwrap();
    assert_eq!(a.display_raw, b.display_raw);
    assert_eq!(a.value, b.value);
    assert_eq!(a.flags, b.flags);
    assert_eq!(a.mode, b.mode);
    assert_ne!(a.raw_payload, b.raw_payload);
}

/// An overload by the status bit shows its digits without a point.
#[test]
fn an_overload_display_has_no_point() {
    let m = parse_measurement(&[0x05, 0x45, 0x23, 0x01, 0x02, 0x00, 0x40]).unwrap();
    assert_eq!(m.value, MeasuredValue::Overload);
    assert_eq!(m.display_raw.as_deref(), Some("12345"));
}

/// A `?` digit makes no number, which reads as an overload.
#[test]
fn an_undrawable_digit_reads_as_overload() {
    let m = parse_measurement(&[0x05, 0x4B, 0x23, 0x01, 0x01, 0x00, 0x00]).unwrap();
    assert_eq!(m.value, MeasuredValue::Overload);
    assert_eq!(m.display_raw.as_deref(), Some("1234.?"));
}

#[test]
fn short_payloads_and_bad_points_are_refused_with_their_messages() {
    let e = parse_measurement(&[0x05, 0x45, 0x23]).unwrap_err();
    assert_eq!(e, Error::PayloadTooShort { family: "ut8802", len: 3, expected: 7 });
    assert_eq!(e.message(), "invalid response: ut8802 payload too short: 3 bytes, expected 7");
    let e = parse_measurement(&[0x05, 0x45, 0x23, 0x01, 0x05, 0x00, 0x00]).unwrap_err();
    assert_eq!(e, Error::InvalidDecimalPoint(5));
    assert_eq!(e.message(), "invalid response: ut8802 invalid decimal point position 5");
}

#[test]
fn the_sign_bit_negates_even_zero() {
    let m = parse_measurement(&[0x05, 0x00, 0x00, 0x00, 0x01, 0x00, 0x80]).unwrap();
    assert_eq!(m.display_raw.as_deref(), Some("   0.0"));
    match m.value {
        MeasuredValue::Normal(d) => {
            assert!(d.negative);
            assert_eq!(d.digits, 0);
            assert_eq!(d.scale, 1);
        }
        other => panic!("{other:?}"),
    }
}
