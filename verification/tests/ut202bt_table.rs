use dmm_lib::protocol::ut61eplus::mode::Mode;
use dmm_lib::protocol::ut61eplus::tables::DeviceTable;
use dmm_lib::protocol::ut61eplus::tables::ut202bt::Ut202btTable;

fn table() -> Ut202btTable {
    Ut202btTable::new()
}

fn label(mode: Mode, range: u8) -> Option<&'static str> {
    table().range_info(mode, range).map(|r| r.label)
}

#[test]
fn ut202bt_model_name() {
    assert_eq!(table().model_name(), "UNI-T UT202BT");
}

#[test]
fn volts_and_amps_top_out_at_600() {
    for mode in [Mode::DcV, Mode::AcV] {
        assert_eq!(label(mode, 0), Some("9.999V"), "{mode:?}");
        assert_eq!(label(mode, 2), Some("600.0V"), "{mode:?}");
        assert_eq!(label(mode, 3), None, "{mode:?}");
    }
    for mode in [Mode::AcA, Mode::ClampAcA, Mode::Inrush] {
        assert_eq!(label(mode, 0), Some("9.999A"), "{mode:?}");
        assert_eq!(label(mode, 2), Some("600.0A"), "{mode:?}");
    }
}

#[test]
fn ohm_starts_at_99_99_ohms() {
    assert_eq!(label(Mode::Ohm, 0), Some("99.99Ω"));
    assert_eq!(label(Mode::Ohm, 6), Some("99.99MΩ"));
    assert_eq!(label(Mode::Ohm, 7), None);
    assert_eq!(label(Mode::Capacitance, 6), Some("99.9mF"));
}

/// Peak capture is AC V and AC A only (manual P8/13), so a frame with
/// P-MAX or P-MIN set there is expected, not unrecognised.
#[test]
fn peak_is_ac_volts_and_amps_only() {
    let t = table();
    for mode in [Mode::AcV, Mode::AcA, Mode::ClampAcA] {
        assert!(DeviceTable::peak_modes(&t).contains(&mode), "{mode:?}");
    }
    for mode in [Mode::DcV, Mode::LpfV, Mode::ClampLpfA, Mode::Inrush] {
        assert!(!DeviceTable::peak_modes(&t).contains(&mode), "{mode:?}");
    }
}

#[test]
fn ut202bt_no_range_table_modes() {
    for mode in [
        Mode::Ncv,
        Mode::DcMv,
        Mode::Diode,
        Mode::DutyCycle,
        Mode::DcMa,
        Mode::DcA,
        Mode::LpfA,
    ] {
        assert_eq!(label(mode, 0), None, "{mode:?}");
    }
}
