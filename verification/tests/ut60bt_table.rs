use dmm_lib::protocol::ut61eplus::mode::Mode;
use dmm_lib::protocol::ut61eplus::tables::DeviceTable;
use dmm_lib::protocol::ut61eplus::tables::ut60bt::Ut60btTable;

fn table() -> Ut60btTable {
    Ut60btTable::new()
}

fn labels(mode: Mode) -> Vec<&'static str> {
    table().ranges(mode).iter().map(|r| r.label).collect()
}

#[test]
fn ut60bt_model_name() {
    assert_eq!(table().model_name(), "UNI-T UT60BT");
}

/// Range byte 0 on the V position is millivolts, as the asset says.
#[test]
fn volts_start_at_999_9_millivolts() {
    let t = table();
    for mode in [Mode::DcV, Mode::AcV] {
        let r0 = t.range_info(mode, 0).unwrap();
        assert_eq!((r0.label, r0.unit), ("999.9mV", "mV"), "{mode:?}");
        assert_eq!(t.range_info(mode, 3).unwrap().label, "999.9V");
        assert!(t.range_info(mode, 4).is_none());
    }
    assert_eq!(labels(Mode::DcMv), ["9.999mV", "99.99mV"]);
}

#[test]
fn ohm_and_capacitance_ladders() {
    assert_eq!(
        labels(Mode::Ohm),
        [
            "999.9Ω", "9.999kΩ", "99.99kΩ", "999.9kΩ", "9.999MΩ", "99.99MΩ"
        ]
    );
    assert_eq!(labels(Mode::Capacitance).len(), 8);
    assert_eq!(labels(Mode::Capacitance)[7], "99.99mF");
}

#[test]
fn hz_labels_spell_megahertz() {
    let t = table();
    let r6 = t.range_info(Mode::Hz, 6).unwrap();
    assert_eq!((r6.label, r6.unit), ("9.999MHz", "MHz"));
    assert!(t.range_info(Mode::Hz, 8).is_none());
}

/// The A rung is range byte 1 of the mA modes.
#[test]
fn milliamp_modes_reach_the_amp_rung() {
    let t = table();
    for mode in [Mode::DcMa, Mode::AcMa] {
        assert_eq!(t.range_info(mode, 0).unwrap().unit, "mA");
        let r1 = t.range_info(mode, 1).unwrap();
        assert_eq!((r1.label, r1.unit), ("9.999A", "A"), "{mode:?}");
    }
    assert_eq!(labels(Mode::DcUa), ["999.9µA"]);
}

#[test]
fn ut60bt_no_range_table_modes() {
    let t = table();
    for mode in [
        Mode::Ncv,
        Mode::DcA,
        Mode::AcA,
        Mode::Hfe,
        Mode::LozV,
        Mode::LpfV,
        Mode::AcDcV,
        Mode::Inrush,
    ] {
        assert!(t.range_info(mode, 0).is_none(), "{mode:?}");
    }
}
