use dmm_lib::protocol::ut61eplus::mode::Mode;
use dmm_lib::protocol::ut61eplus::tables::DeviceTable;
use dmm_lib::protocol::ut61eplus::tables::ut61b_plus::Ut61bPlusTable;

fn table() -> Ut61bPlusTable {
    Ut61bPlusTable::new()
}

#[test]
fn ut61b_plus_model_name() {
    assert_eq!(table().model_name(), "UNI-T UT61B+");
}

// --- DC Voltage ---
#[test]
fn ut61b_plus_dcv_ranges() {
    let t = table();
    // 4 ranges: 6V, 60V, 600V, 1000V
    assert_eq!(t.range_info(Mode::DcV, 0).unwrap().label, "6V");
    assert_eq!(t.range_info(Mode::DcV, 0).unwrap().unit, "V");

    assert_eq!(t.range_info(Mode::DcV, 1).unwrap().label, "60V");
    assert_eq!(t.range_info(Mode::DcV, 2).unwrap().label, "600V");

    let last = t.range_info(Mode::DcV, 3).unwrap();
    assert_eq!(last.label, "1000V");
    assert_eq!(last.unit, "V");

    // Out of range
    assert!(t.range_info(Mode::DcV, 4).is_none());
}

// --- AC Voltage ---
#[test]
fn ut61b_plus_acv_ranges() {
    let t = table();
    assert_eq!(t.range_info(Mode::AcV, 0).unwrap().label, "6V");
    assert_eq!(t.range_info(Mode::AcV, 3).unwrap().label, "750V");
    assert!(t.range_info(Mode::AcV, 4).is_none());
}

/// Range byte 0 in V⎓/V~ is 6V, not 60mV: a UT61B+ sent `  0.000` and
/// `  0.037` there while its screen showed volts (capture 2026-09-09).
/// Reading those rungs as mV labelled every voltage a thousandth low.
#[test]
fn voltage_range_0_is_volts_not_millivolts() {
    let t = table();
    for mode in [Mode::DcV, Mode::AcV] {
        let r0 = t.range_info(mode, 0).unwrap();
        assert_eq!(r0.label, "6V", "{mode:?} range 0");
        assert_eq!(r0.unit, "V", "{mode:?} range 0");
    }
    // The mV ranges are reached through the mV modes instead.
    assert_eq!(t.range_info(Mode::DcMv, 0).unwrap().label, "60mV");
    assert_eq!(t.range_info(Mode::AcMv, 0).unwrap().label, "60mV");
}

// --- Resistance ---
#[test]
fn ut61b_plus_ohm_ranges() {
    let t = table();
    let cases = [
        (0, "600Ω", "Ω"),
        (1, "6kΩ", "kΩ"),
        (2, "60kΩ", "kΩ"),
        (3, "600kΩ", "kΩ"),
        (4, "6MΩ", "MΩ"),
        (5, "60MΩ", "MΩ"),
    ];
    for (range, label, unit) in cases {
        let r = t.range_info(Mode::Ohm, range).unwrap();
        assert_eq!(r.label, label, "Ohm range {range}");
        assert_eq!(r.unit, unit, "Ohm range {range}");
    }
    assert!(t.range_info(Mode::Ohm, 6).is_none());
}

// --- Capacitance ---
#[test]
fn ut61b_plus_capacitance_ranges() {
    let t = table();
    let cases = [
        (0, "60nF", "nF"),
        (1, "600nF", "nF"),
        (2, "6µF", "µF"),
        (3, "60µF", "µF"),
        (4, "600µF", "µF"),
        (5, "6mF", "mF"),
        (6, "60mF", "mF"),
    ];
    for (range, label, unit) in cases {
        let r = t.range_info(Mode::Capacitance, range).unwrap();
        assert_eq!(r.label, label, "Capacitance range {range}");
        assert_eq!(r.unit, unit, "Capacitance range {range}");
    }
    assert!(t.range_info(Mode::Capacitance, 7).is_none());
}

// --- Current ---
#[test]
fn ut61b_plus_microamp_ranges() {
    let t = table();
    for mode in [Mode::DcUa, Mode::AcUa] {
        assert_eq!(t.range_info(mode, 0).unwrap().label, "600µA");
        assert_eq!(t.range_info(mode, 1).unwrap().label, "6000µA");
        assert!(t.range_info(mode, 2).is_none());
    }
}

#[test]
fn ut61b_plus_milliamp_ranges() {
    let t = table();
    for mode in [Mode::DcMa, Mode::AcMa] {
        assert_eq!(t.range_info(mode, 0).unwrap().label, "60mA");
        assert_eq!(t.range_info(mode, 1).unwrap().label, "600mA");
        assert!(t.range_info(mode, 2).is_none());
    }
}

#[test]
fn ut61b_plus_amp_ranges() {
    let t = table();
    for mode in [Mode::DcA, Mode::AcA] {
        assert_eq!(t.range_info(mode, 0).unwrap().label, "6A");
        assert_eq!(t.range_info(mode, 1).unwrap().label, "10A");
        assert!(t.range_info(mode, 2).is_none());
    }
}

// --- Modes without range tables ---
#[test]
fn ut61b_plus_no_range_table_modes() {
    let t = table();
    // UT61B+ lacks temperature, hFE, LoZ, LPF, AC+DC, Inrush
    for mode in [
        Mode::TempC,
        Mode::TempF,
        Mode::Hfe,
        Mode::Live,
        Mode::Ncv,
        Mode::LozV,
        Mode::LozV2,
        Mode::Lpf,
        Mode::LpfV,
        Mode::AcDcV,
        Mode::LpfMv,
        Mode::AcDcMv,
        Mode::LpfA,
        Mode::AcDcA2,
        Mode::Inrush,
    ] {
        assert!(
            t.range_info(mode, 0).is_none(),
            "{mode:?} should have no range table on UT61B+"
        );
    }
}

#[test]
fn ut61b_plus_out_of_range_bytes_return_none() {
    let t = table();
    assert!(t.range_info(Mode::DcV, 0xFF).is_none());
    assert!(t.range_info(Mode::Ohm, 0x10).is_none());
    assert!(t.range_info(Mode::Capacitance, 0x20).is_none());
}

#[test]
fn ut61b_plus_default_matches_new() {
    let t1 = Ut61bPlusTable::new();
    let t2 = Ut61bPlusTable::default();
    assert_eq!(
        t1.range_info(Mode::DcV, 0).unwrap().label,
        t2.range_info(Mode::DcV, 0).unwrap().label,
    );
}
