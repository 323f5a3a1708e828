use dmm_lib::protocol::CaptureStep;
use dmm_lib::protocol::ut61eplus::family::Ut61PlusProtocol;
use dmm_lib::protocol::ut61eplus::mode::Mode;
use dmm_lib::protocol::ut61eplus::tables::DeviceTable;
use dmm_lib::protocol::ut61eplus::tables::ut202bt::Ut202btTable;
use dmm_lib::protocol::ut61eplus::tables::ut60bt::Ut60btTable;
use dmm_lib::protocol::ut61eplus::tables::ut61b_plus::Ut61bPlusTable;
use dmm_lib::protocol::ut61eplus::tables::ut61d_plus::Ut61dPlusTable;
use dmm_lib::protocol::ut61eplus::tables::ut61e_plus::Ut61ePlusTable;
use dmm_lib::protocol::ut80x::Ut80xProtocol;
use dmm_lib::protocol::ut80x::reports::parse_ut804_layout_reporting;
use dmm_lib::protocol::ut80x::model::Model;

fn ids(steps: &[CaptureStep]) -> Vec<&'static str> {
    steps.iter().map(|s| s.id).collect()
}

fn expected(steps: &[CaptureStep], id: &str) -> Option<&'static str> {
    steps.iter().find(|s| s.id == id).expect("the step list has the step").expect.and_then(|e| e.mode)
}

/// Each model is asked only for the modes its dial reaches: the E+ has
/// no temperature or LoZ position, the D+ has both.
#[test]
fn capture_steps_follow_the_model_s_dial() {
    let ids_of = |model: &str| -> Vec<&'static str> {
        ids(&Ut61PlusProtocol::for_model(model).expect("known model").capture_steps())
    };
    let e_plus = ids_of("ut61e+");
    assert!(e_plus.contains(&"acua"));
    for id in ["temp", "tempf", "loz"] {
        assert!(!e_plus.contains(&id), "{id} asked for on the E+");
    }
    let d_plus = ids_of("ut61d+");
    for id in ["temp", "tempf", "loz"] {
        assert!(d_plus.contains(&id), "{id} missing on the D+");
    }
}

/// Both verified models have run every step they declare.
#[test]
fn verified_models_are_asked_for_nothing() {
    let unverified = |model: &str| -> Vec<&'static str> {
        Ut61PlusProtocol::for_model(model)
            .expect("known model")
            .capture_steps()
            .into_iter()
            .filter(|s| !s.verified)
            .map(|s| s.id)
            .collect()
    };
    assert!(unverified("ut61e+").is_empty(), "{:?}", unverified("ut61e+"));
    assert!(unverified("ut61b+").is_empty(), "{:?}", unverified("ut61b+"));
    // The D+ is unverified: nothing of its list is.
    let d = Ut61PlusProtocol::for_model("ut61d+").unwrap().capture_steps();
    assert!(d.iter().all(|s| !s.verified));
}

/// The family list opens with the six gate steps, and every step takes
/// three samples.
#[test]
fn the_family_list_opens_with_the_gate() {
    let steps = Ut61PlusProtocol::new().capture_steps();
    assert_eq!(
        ids(&steps)[..6],
        ["dcv", "dcv_short", "dcv_negative", "ohm", "ohm_body", "ohm_short"]
    );
    assert!(steps.iter().all(|s| s.samples == 3));
    let hold = steps.iter().find(|s| s.id == "hold").unwrap();
    assert_eq!(hold.command, Some("hold"));
    assert_eq!(hold.expect.unwrap().flags.hold, Some(true));
    assert_eq!(expected(&steps, "continuity"), Some("Continuity"));
    assert!(steps.iter().find(|s| s.id == "ncv").unwrap().needs.live_wire);
}

/// A table must not offer a mode the model does not have.
#[test]
fn dial_tables_list_no_mode_the_model_lacks() {
    let b_plus = Ut61bPlusTable::new().dial_modes();
    for absent in [Mode::Hfe, Mode::TempC, Mode::TempF, Mode::LozV] {
        assert!(!b_plus.contains(&absent), "UT61B+ has no {absent:?}");
    }
    let e_plus = Ut61ePlusTable::new().dial_modes();
    for absent in [Mode::LozV, Mode::ClampAcA, Mode::ClampDcA] {
        assert!(!e_plus.contains(&absent), "UT61E+ cannot reach {absent:?}");
    }
    let d_plus = Ut61dPlusTable::new().dial_modes();
    for present in [Mode::TempC, Mode::TempF, Mode::LozV, Mode::AcV, Mode::DcV] {
        assert!(d_plus.contains(&present), "UT61D+ reaches {present:?}");
    }
}

/// A table without a dial lists exactly the modes it has ranges for, and
/// NCV; a table with one lists none.
#[test]
fn dial_less_tables_list_exactly_their_modes() {
    fn check<T: DeviceTable>(table: &T) {
        assert!(table.dial_modes().is_empty());
        for mode in Mode::all() {
            let listed = table.modes().contains(&mode);
            let has = mode == Mode::Ncv || !table.ranges(mode).is_empty();
            assert_eq!(listed, has, "{}: {mode:?}", table.model_name());
        }
    }
    check(&Ut60btTable::new());
    check(&Ut202btTable::new());
    assert!(Ut61ePlusTable::new().modes().is_empty());
    assert!(Ut61bPlusTable::new().modes().is_empty());
    assert!(Ut61dPlusTable::new().modes().is_empty());
}

/// The UT202BT walks a list of its own: HOLD and RANGE only of the
/// commands, and nothing verified.
#[test]
fn the_ut202bt_walks_its_own_list() {
    let steps = Ut202btTable::new().capture_steps();
    assert_eq!(
        ids(&steps),
        [
            "dcv", "dcv_short", "dcv_negative", "ohm", "ohm_body", "ohm_short", "ohm_ranges",
            "continuity", "capacitance", "temp", "dcv_ranges", "hold", "hold_off", "range", "acv",
            "peak", "peak_off", "lpfv", "aca", "lpfa", "inrush", "ncv",
        ]
    );
    assert!(steps.iter().all(|s| !s.verified && s.samples == 3));
    assert_eq!(expected(&steps, "aca"), None);
    assert_eq!(expected(&steps, "lpfa"), Some("Clamp LPF A"));
}

/// A step may only ask for a label its own model's parser can report: the
/// UT803 names its current modes by unit alone.
#[test]
fn each_model_is_asked_for_the_labels_its_parser_reports() {
    let ut803 = Ut80xProtocol::new_ut803().capture_steps();
    assert_eq!(expected(&ut803, "dcua"), Some("µA"));
    assert_eq!(expected(&ut803, "acma"), Some("mA"));
    assert_eq!(expected(&ut803, "dca"), Some("A"));
    assert_eq!(expected(&ut803, "rpm"), Some("Tachometer"));
    for id in ["duty", "ma_percent", "acdcv"] {
        assert_eq!(expected(&ut803, id), None, "{id} asserted on the UT803");
    }
    let ut804 = Ut80xProtocol::new_ut804().capture_steps();
    assert_eq!(expected(&ut804, "dcua"), Some("DC µA"));
    assert_eq!(expected(&ut804, "duty"), Some("Duty %"));
    assert_eq!(expected(&ut804, "acdcv"), Some("AC+DC V"));
}

/// The UT804 has no tachometer, AC mV or ADP position; its list asks for
/// none of them, and adds RANGE, MAX MIN and REL before HOLD.
#[test]
fn each_model_is_asked_only_for_what_it_has() {
    let ut804 = ids(&Ut80xProtocol::new_ut804().capture_steps());
    for id in ["rpm", "acmv", "adp"] {
        assert!(!ut804.contains(&id), "the UT804 is asked for {id}");
    }
    let hold = ut804.iter().position(|&id| id == "hold");
    for id in ["manual_range", "max_min", "rel"] {
        let at = ut804.iter().position(|&s| s == id);
        assert!(at.is_some() && at < hold, "{id} before hold: {ut804:?}");
    }
    let waits = |steps: Vec<CaptureStep>| -> Vec<&'static str> {
        steps.iter().filter(|s| s.wait_for_enter).map(|s| s.id).collect()
    };
    assert_eq!(waits(Ut80xProtocol::new_ut804().capture_steps()), ["manual_range", "max_min", "rel", "hold"]);
    assert!(waits(Ut80xProtocol::new_ut803().capture_steps()).is_empty());
    let unverified = |steps: Vec<CaptureStep>| -> Vec<&'static str> {
        steps.iter().filter(|s| !s.verified).map(|s| s.id).collect()
    };
    assert!(unverified(Ut80xProtocol::new_ut804().capture_steps()).is_empty());
    assert_eq!(
        unverified(Ut80xProtocol::new_ut803().capture_steps()),
        ids(&Ut80xProtocol::new_ut803().capture_steps())
    );
    assert_eq!(
        ids(&Ut80xProtocol::new_ut803().capture_steps()),
        [
            "dcv", "dcv_short", "dcv_negative", "acv", "acdcv", "dcmv", "acmv", "ohm", "ohm_ol",
            "ohm_body", "ohm_short", "cap", "hz", "duty", "rpm", "diode", "cont", "temp", "dcua",
            "acua", "dcma", "acma", "dca", "aca", "adp", "ma_percent", "hold",
        ]
    );
}

/// The UT71 and VC9x0 walk their own dials; nobody has run one.
#[test]
fn the_handhelds_walk_their_own_list() {
    let expected_ids = [
        "dcv", "dcv_short", "dcv_negative", "acv", "acdcv", "dcmv", "hz", "duty", "ohm", "ohm_ol",
        "ohm_body", "ohm_short", "cont", "diode", "power", "cap", "temp", "temp_f", "dcua", "acua",
        "dcma", "acma", "ma_percent", "dca", "aca", "manual_range", "max_min", "auto_range", "rel",
        "hold", "fast_mode",
    ];
    for proto in [Ut80xProtocol::new_ut71ab(), Ut80xProtocol::new_ut71cde(), Ut80xProtocol::new_vc920()] {
        let name = proto.profile().model_name;
        let steps = proto.capture_steps();
        assert_eq!(ids(&steps), expected_ids, "{name}");
        assert!(steps.iter().all(|s| !s.verified), "{name}");
        let waits: Vec<&str> = steps.iter().filter(|s| s.wait_for_enter).map(|s| s.id).collect();
        assert_eq!(waits, ["manual_range", "max_min", "auto_range", "rel", "hold", "fast_mode"], "{name}");
        for step in steps.iter().filter(|s| s.instruction.contains("EXIT")) {
            assert!(step.instruction.contains("turn SEND on again"), "{name} {}: {:?}", step.id, step.instruction);
        }
    }
}

/// Every mode a handheld step asserts is one its parser reports.
#[test]
fn the_handhelds_are_asked_for_labels_their_parser_reports() {
    fn wire(data: [u8; 9]) -> Vec<u8> {
        let mut packet: Vec<u8> = data.iter().map(|&n| 0x30 | n).collect();
        packet.extend_from_slice(&[0x0D, 0x0A]);
        packet
    }
    for (model, proto) in [
        (Model::Ut71Ab, Ut80xProtocol::new_ut71ab()),
        (Model::Ut71Cde, Ut80xProtocol::new_ut71cde()),
        (Model::Vc920, Ut80xProtocol::new_vc920()),
    ] {
        let mut modes = std::collections::HashSet::new();
        for mode in 0..=0xF {
            for range in 0..=0xF {
                for acdc in 0..=0x4 {
                    for status in [0x0, 0x1, 0x4, 0x5] {
                        let p = wire([1, 2, 3, 4, 0xA, range, mode, acdc, status]);
                        if let (Ok(m), reports) = parse_ut804_layout_reporting(model, &p) {
                            if reports.is_empty() {
                                modes.insert(m.mode);
                            }
                        }
                    }
                }
            }
        }
        for step in proto.capture_steps() {
            if let Some(mode) = step.expect.and_then(|e| e.mode) {
                assert!(modes.contains(mode), "{model:?} {}: {mode}", step.id);
            }
        }
    }
}
