use dmm_lib::measurement::Error;
use dmm_lib::protocol::Stability;
use dmm_lib::protocol::ut61eplus::command::Command;
use dmm_lib::protocol::ut61eplus::family::{
    CycleButton, FamilyTable, FlagSetting, Ut61PlusProtocol, ack_wait_step, is_ack,
    name_from_reply,
};
use dmm_lib::protocol::ut61eplus::parse::make_payload;
use dmm_lib::protocol::ut61eplus::reports::report_unknown_frame;
use dmm_lib::protocol::ut61eplus::tables::DeviceTable;

#[test]
fn a_new_protocol_is_a_verified_ut61e_plus() {
    let p = Ut61PlusProtocol::new();
    assert_eq!(p.profile().model_name, "UNI-T UT61E+");
    assert_eq!(p.profile().family_name, "UT61+/UT161");
    assert_eq!(p.profile().stability, Stability::Verified);
    assert_eq!(p.profile().verification_issue, None);
    assert_eq!(p.profile().supported_commands.len(), 11);
    assert!(matches!(p.table(), FamilyTable::Ut61ePlus(_)));
}

#[test]
fn model_strings_match_whatever_their_case() {
    let p = Ut61PlusProtocol::for_model("UT61E+").unwrap();
    assert_eq!(p.profile().model_name, "UNI-T UT61E+");
    let p = Ut61PlusProtocol::for_model("Ut61b+").unwrap();
    assert_eq!(p.profile().model_name, "UNI-T UT61B+");
    assert_eq!(p.profile().stability, Stability::Verified);
    assert_eq!(p.profile().verification_issue, Some(7));
    assert!(Ut61PlusProtocol::for_model("ut60bt").is_none());
    assert!(Ut61PlusProtocol::for_model("").is_none());
}

/// The UT161 meters read with their UT61x+ counterparts' tables, under
/// names of their own, unverified.
#[test]
fn ut161_models_share_tables_but_not_names() {
    for (model, name, table) in [
        ("ut161e", "UNI-T UT161E", "UNI-T UT61E+"),
        ("UT161B", "UNI-T UT161B", "UNI-T UT61B+"),
        ("ut161d", "UNI-T UT161D", "UNI-T UT61D+"),
        ("UT61D+", "UNI-T UT61D+", "UNI-T UT61D+"),
    ] {
        let p = Ut61PlusProtocol::for_model(model).unwrap();
        assert_eq!(p.profile().model_name, name);
        assert_eq!(p.profile().stability, Stability::Experimental);
        assert_eq!(p.table().model_name(), table);
    }
}

#[test]
fn command_names_map_to_their_commands() {
    assert_eq!(Ut61PlusProtocol::command_from_name("hold").unwrap(), Command::Hold);
    assert_eq!(Ut61PlusProtocol::command_from_name("peak").unwrap(), Command::PeakMinMax);
    assert_eq!(Ut61PlusProtocol::command_from_name("exit_peak").unwrap(), Command::ExitPeak);
    assert_eq!(Ut61PlusProtocol::command_from_name("select2").unwrap(), Command::Select2);
    assert_eq!(
        Ut61PlusProtocol::command_from_name("Hold").unwrap_err(),
        Error::UnsupportedCommand("Hold".to_string())
    );
    assert_eq!(
        Ut61PlusProtocol::command_from_name("bogus").unwrap_err().message(),
        "unsupported command: bogus"
    );
}

#[test]
fn dead_flag_commands_offer_no_states() {
    let p = Ut61PlusProtocol::new();
    assert_eq!(p.flag_states(FlagSetting::Hold, 0x14), Vec::<u16>::new());
    assert_eq!(p.flag_states(FlagSetting::Hold, 0x02), vec![0, 1]);
    assert_eq!(p.flag_states(FlagSetting::Rel, 0x19), Vec::<u16>::new());
    assert_eq!(p.flag_states(FlagSetting::Rel, 0x02), vec![0, 1]);
    assert_eq!(p.flag_states(FlagSetting::MinMax, 0x09), Vec::<u16>::new());
    assert_eq!(p.flag_states(FlagSetting::MinMax, 0x19), vec![0, 1, 2]);
    assert_eq!(p.flag_states(FlagSetting::Peak, 0x00), vec![0, 1, 2]);
    assert_eq!(p.flag_states(FlagSetting::Peak, 0x02), Vec::<u16>::new());
    assert_eq!(p.flag_states(FlagSetting::Hold, 0x1FF), vec![0, 1]);
    let b = Ut61PlusProtocol::for_model("ut61b+").unwrap();
    assert_eq!(b.flag_states(FlagSetting::Peak, 0x00), Vec::<u16>::new());
}

#[test]
fn the_ack_and_name_replies_are_told_apart() {
    assert!(is_ack(&[0xFF, 0x00]));
    assert!(!is_ack(&[0xFF, 0x01]));
    assert!(!is_ack(&[0xFF, 0x00, 0x00]));
    assert_eq!(name_from_reply(b"UT61E+").as_deref(), Some("UT61E+"));
    assert_eq!(name_from_reply(&[0xFF, 0x00]), None);
    assert_eq!(name_from_reply(b"UT 61"), None);
    assert_eq!(name_from_reply(b"AB"), None);
    assert_eq!(name_from_reply(&[0x41; 21]), None);
    assert_eq!(name_from_reply(&[0x41; 20]).as_deref(), Some("AAAAAAAAAAAAAAAAAAAA"));
}

#[test]
fn only_frames_of_no_known_shape_are_reported() {
    assert_eq!(report_unknown_frame(&[0xFF, 0x00]), None);
    assert_eq!(report_unknown_frame(b"UT61B+"), None);
    let reading = make_payload(0x02, 0x01, b" 12.345", (0, 0), (0, 0, 0));
    assert_eq!(report_unknown_frame(&reading), None);
    assert_eq!(
        report_unknown_frame(&[0xFF, 0x01]).as_deref(),
        Some("ut61eplus: unrecognised frame: 2 bytes: [FF, 01]")
    );
    assert_eq!(
        report_unknown_frame(&[0x01, 0x02, 0x03]).as_deref(),
        Some("ut61eplus: unrecognised frame: 3 bytes: [01, 02, 03]")
    );
}

#[test]
fn parse_payload_reads_with_the_model_s_table() {
    let payload = make_payload(0x02, 0x00, b"  0.000", (0, 0), (0, 0, 0));
    let e = Ut61PlusProtocol::new().parse_payload(&payload).unwrap();
    assert_eq!(e.range_label, "2.2V");
    let b = Ut61PlusProtocol::for_model("ut61b+").unwrap().parse_payload(&payload).unwrap();
    assert_eq!(b.range_label, "6V");
    let short = [0x02u8; 13];
    assert_eq!(
        Ut61PlusProtocol::new().parse_payload(&short).unwrap_err().message(),
        "invalid response: ut61eplus payload too short: 13 bytes, expected 14"
    );
}

#[test]
fn a_bluetooth_session_starts_the_stream_and_waits_longer() {
    let mut p = Ut61PlusProtocol::new();
    assert!(!p.is_streaming());
    assert_eq!(p.press_ack_timeout_ms(), 1000);
    assert_eq!(p.init(false), None);
    assert!(!p.is_streaming());
    assert_eq!(p.init(true), Some(Command::StartStream.encode()));
    assert_eq!(Command::StartStream.encode(), [0xAB, 0xCD, 0x03, 0x5D, 0x01, 0xD8]);
    assert!(p.is_streaming());
    assert_eq!(p.press_ack_timeout_ms(), 2500);
}

/// A payload built from parts reads back as those parts.
#[test]
fn a_built_payload_reads_back() {
    let m = dmm_lib::protocol::ut61eplus::parse::make_test_measurement(
        0x19,
        0x02,
        b" 0.0652",
        (2, 3),
        (0x04, 0x04, 0x08),
    );
    assert_eq!(m.mode, "AC+DC V");
    assert_eq!(m.mode_raw, 0x19);
    assert_eq!(m.range_raw, 2);
    assert_eq!(m.progress, Some(23));
    assert!(m.flags.min && !m.flags.auto_range && !m.flags.dc);
    assert_eq!(m.display_raw.as_deref(), Some(" 0.0652"));
    assert_eq!(m.raw_payload.len(), 14);
}

/// An ack split across two reads ends the wait; the tail kept between reads
/// is the last six bytes, where an ack could still start.
#[test]
fn an_ack_split_across_reads_is_found() {
    let (found, tail) = ack_wait_step(&Vec::new(), &[0x00, 0x11, 0xAB, 0xCD, 0x04]);
    assert!(!found);
    assert_eq!(tail, vec![0x00, 0x11, 0xAB, 0xCD, 0x04]);
    let (found, tail) = ack_wait_step(&tail, &[0xFF, 0x00, 0x02, 0x7B]);
    assert!(found);
    assert_eq!(tail, vec![0xCD, 0x04, 0xFF, 0x00, 0x02, 0x7B]);
    let (found, _) = ack_wait_step(&Vec::new(), &[0xAB, 0xCD, 0x04, 0xFF, 0x00, 0x02, 0x7C]);
    assert!(!found);
}

#[test]
fn a_stream_gets_a_wider_name_budget() {
    let mut p = Ut61PlusProtocol::new();
    assert_eq!(p.name_read_budget(), 3);
    p.init(true);
    assert_eq!(p.name_read_budget(), 10);
}

#[test]
fn buttons_and_exits_send_their_commands() {
    assert_eq!(CycleButton::Select.command().encode(), [0xAB, 0xCD, 0x03, 0x4C, 0x01, 0xC7]);
    assert_eq!(CycleButton::Hz.command().encode(), [0xAB, 0xCD, 0x03, 0x49, 0x01, 0xC4]);
    assert_eq!(CycleButton::Peak.command(), Command::PeakMinMax);
    assert_eq!(FlagSetting::MinMax.exit_command(), Some(Command::ExitMinMax));
    assert_eq!(FlagSetting::Peak.exit_command(), Some(Command::ExitPeak));
    assert_eq!(FlagSetting::Hold.exit_command(), None);
    assert_eq!(FlagSetting::Rel.exit_command(), None);
}

#[test]
fn a_press_settles_for_150_ms_and_three_readings() {
    assert_eq!(Ut61PlusProtocol::new().settle(), (150, 3));
}
