use dmm_lib::protocol::ut61eplus::mode::Mode;
use dmm_lib::protocol::ut61eplus::tables::DeviceTable;
use dmm_lib::protocol::ut61eplus::tables::ut61d_plus::Ut61dPlusTable;

fn table() -> Ut61dPlusTable {
    Ut61dPlusTable::new()
}

#[test]
fn ut61d_plus_model_name() {
    assert_eq!(table().model_name(), "UNI-T UT61D+");
}

// --- DC Voltage ---
#[test]
fn ut61d_plus_dcv_ranges() {
    let t = table();
    // 6 ranges: 60mV, 600mV, 6V, 60V, 600V, 1000V
    assert_eq!(t.range_info(Mode::DcV, 0).unwrap().label, "60mV");
    assert_eq!(t.range_info(Mode::DcV, 0).unwrap().unit, "mV");

    assert_eq!(t.range_info(Mode::DcV, 1).unwrap().label, "600mV");
    assert_eq!(t.range_info(Mode::DcV, 2).unwrap().label, "6V");
    assert_eq!(t.range_info(Mode::DcV, 3).unwrap().label, "60V");
    assert_eq!(t.range_info(Mode::DcV, 4).unwrap().label, "600V");

    let last = t.range_info(Mode::DcV, 5).unwrap();
    assert_eq!(last.label, "1000V");
    assert_eq!(last.unit, "V");

    assert!(t.range_info(Mode::DcV, 6).is_none());
}

// --- AC Voltage ---
#[test]
fn ut61d_plus_acv_ranges() {
    let t = table();
    assert_eq!(t.range_info(Mode::AcV, 0).unwrap().label, "60mV");
    assert_eq!(t.range_info(Mode::AcV, 5).unwrap().label, "750V");
    assert!(t.range_info(Mode::AcV, 6).is_none());
}

// --- Resistance ---
#[test]
fn ut61d_plus_ohm_ranges() {
    let t = table();
    let cases = [
        (0, "600Ω", "Ω"),
        (1, "6kΩ", "kΩ"),
        (2, "60kΩ", "kΩ"),
        (3, "600kΩ", "kΩ"),
        (4, "6MΩ", "MΩ"),
        (5, "60MΩ", "MΩ"),
    ];
    for (range, label, unit) in cases {
        let r = t.range_info(Mode::Ohm, range).unwrap();
        assert_eq!(r.label, label, "Ohm range {range}");
        assert_eq!(r.unit, unit, "Ohm range {range}");
    }
    assert!(t.range_info(Mode::Ohm, 6).is_none());
}

// --- Capacitance ---
#[test]
fn ut61d_plus_capacitance_ranges() {
    let t = table();
    let cases = [
        (0, "60nF", "nF"),
        (1, "600nF", "nF"),
        (2, "6µF", "µF"),
        (3, "60µF", "µF"),
        (4, "600µF", "µF"),
        (5, "6mF", "mF"),
        (6, "60mF", "mF"),
    ];
    for (range, label, unit) in cases {
        let r = t.range_info(Mode::Capacitance, range).unwrap();
        assert_eq!(r.label, label, "Capacitance range {range}");
        assert_eq!(r.unit, unit, "Capacitance range {range}");
    }
    assert!(t.range_info(Mode::Capacitance, 7).is_none());
}

// --- Temperature (UT61D+ has it!) ---
#[test]
fn ut61d_plus_temp_ranges() {
    let t = table();
    let tc = t.range_info(Mode::TempC, 0).unwrap();
    assert_eq!(tc.unit, "°C");

    let tf = t.range_info(Mode::TempF, 0).unwrap();
    assert_eq!(tf.unit, "°F");

    assert!(t.range_info(Mode::TempC, 1).is_none());
    assert!(t.range_info(Mode::TempF, 1).is_none());
}

// --- LoZ V (UT61D+ has it!) ---
#[test]
fn loz_v_ranges() {
    let t = table();
    let r0 = t.range_info(Mode::LozV, 0).unwrap();
    assert_eq!(r0.label, "600V");
    assert_eq!(r0.unit, "V");

    let r1 = t.range_info(Mode::LozV, 1).unwrap();
    assert_eq!(r1.label, "1000V");

    // LozV2 also maps to loz_v table
    assert_eq!(t.range_info(Mode::LozV2, 0).unwrap().label, "600V");

    assert!(t.range_info(Mode::LozV, 2).is_none());
}

// --- Current ---
#[test]
fn ut61d_plus_microamp_ranges() {
    let t = table();
    for mode in [Mode::DcUa, Mode::AcUa] {
        assert_eq!(t.range_info(mode, 0).unwrap().label, "600µA");
        assert_eq!(t.range_info(mode, 1).unwrap().label, "6000µA");
        assert!(t.range_info(mode, 2).is_none());
    }
}

#[test]
fn ut61d_plus_milliamp_ranges() {
    let t = table();
    for mode in [Mode::DcMa, Mode::AcMa] {
        assert_eq!(t.range_info(mode, 0).unwrap().label, "60mA");
        assert_eq!(t.range_info(mode, 1).unwrap().label, "600mA");
        assert!(t.range_info(mode, 2).is_none());
    }
}

#[test]
fn ut61d_plus_amp_ranges() {
    let t = table();
    for mode in [Mode::DcA, Mode::AcA] {
        assert_eq!(t.range_info(mode, 0).unwrap().label, "20A");
        assert_eq!(t.range_info(mode, 1).unwrap().label, "20A");
        assert!(t.range_info(mode, 2).is_none());
    }
}

// --- Modes without range tables ---
#[test]
fn ut61d_plus_no_range_table_modes() {
    let t = table();
    // UT61D+ lacks hFE, LPF, AC+DC, Inrush
    for mode in [
        Mode::Hfe,
        Mode::Live,
        Mode::Ncv,
        Mode::Lpf,
        Mode::LpfV,
        Mode::AcDcV,
        Mode::LpfMv,
        Mode::AcDcMv,
        Mode::LpfA,
        Mode::AcDcA2,
        Mode::Inrush,
    ] {
        assert!(
            t.range_info(mode, 0).is_none(),
            "{mode:?} should have no range table on UT61D+"
        );
    }
}

#[test]
fn ut61d_plus_out_of_range_bytes_return_none() {
    let t = table();
    assert!(t.range_info(Mode::DcV, 0xFF).is_none());
    assert!(t.range_info(Mode::Ohm, 0x10).is_none());
    assert!(t.range_info(Mode::Capacitance, 0x20).is_none());
}

#[test]
fn ut61d_plus_default_matches_new() {
    let t1 = Ut61dPlusTable::new();
    let t2 = Ut61dPlusTable::default();
    assert_eq!(
        t1.range_info(Mode::DcV, 0).unwrap().label,
        t2.range_info(Mode::DcV, 0).unwrap().label,
    );
}
