use dmm_lib::measurement::Error;
use dmm_lib::protocol::Evidence;
use dmm_lib::protocol::ut61eplus::command::Command;
use dmm_lib::protocol::ut61eplus::family::{CycleButton, Ut61PlusProtocol, ack_wait_step, is_ack};
use dmm_lib::protocol::ut61eplus::reports::report_unknown_frame;
use dmm_lib::protocol::ut61eplus::parse::make_payload;
use dmm_lib::protocol::ut61eplus::reads::{
    name_from_replies, newest_reading, reading_from_frames, recognise_frames, with_registry_entry,
};
use dmm_lib::protocol::ut61eplus::tables::ut61e_plus::Ut61ePlusTable;

fn reading(mode: u8, display: &[u8; 7]) -> Vec<u8> {
    make_payload(mode, 0, display, (0, 0), (0, 0, 0))
}

const ACK: [u8; 2] = [0xFF, 0x00];

#[test]
fn a_request_is_answered_by_the_first_reading_frame() {
    let t = Ut61ePlusTable::new();
    let frames = vec![ACK.to_vec(), b"UT61E+".to_vec(), reading(2, b" 0.0004"), reading(1, b"   4.99")];
    let m = reading_from_frames(&frames, &t).unwrap().unwrap();
    assert_eq!(m.mode_raw, 2);
    assert_eq!(m.display_raw.as_deref(), Some(" 0.0004"));
}

#[test]
fn a_request_reads_five_frames_at_most() {
    let t = Ut61ePlusTable::new();
    let mut frames = vec![ACK.to_vec(); 5];
    frames.push(reading(2, b" 0.0004"));
    assert!(reading_from_frames(&frames, &t).is_none());
    frames.remove(0);
    assert!(reading_from_frames(&frames, &t).is_some());
    assert!(reading_from_frames(&Vec::new(), &t).is_none());
}

#[test]
fn a_reading_frame_with_an_unknown_mode_answers_with_the_error() {
    let t = Ut61ePlusTable::new();
    let frames = vec![reading(0x7F, b" 0.0004")];
    assert!(matches!(reading_from_frames(&frames, &t), Some(Err(Error::UnknownMode(0x7F)))));
}

#[test]
fn a_slow_reader_gets_the_newest_queued_reading() {
    let t = Ut61ePlusTable::new();
    let first = reading_from_frames(&vec![reading(2, b" 0.0001")], &t).unwrap();
    let queued = vec![reading(2, b" 0.0002"), reading(2, b" 0.0003"), ACK.to_vec()];
    let m = newest_reading(first, &queued, &t).unwrap();
    assert_eq!(m.display_raw.as_deref(), Some(" 0.0003"));
}

#[test]
fn with_nothing_queued_the_first_reading_stands() {
    let t = Ut61ePlusTable::new();
    let first = reading_from_frames(&vec![reading(2, b" 0.0001")], &t).unwrap();
    let m = newest_reading(first, &vec![ACK.to_vec(), b"UT61E+".to_vec()], &t).unwrap();
    assert_eq!(m.display_raw.as_deref(), Some(" 0.0001"));
}

#[test]
fn the_newest_frame_decides_even_when_it_fails_to_parse() {
    let t = Ut61ePlusTable::new();
    let first = reading_from_frames(&vec![reading(2, b" 0.0001")], &t).unwrap();
    let queued = vec![reading(0x7F, b" 0.0002")];
    assert!(matches!(newest_reading(first, &queued, &t), Err(Error::UnknownMode(0x7F))));
    let queued = vec![reading(0x7F, b" 0.0002"), reading(2, b" 0.0003")];
    let first = Err(Error::UnknownMode(0x7E));
    assert!(newest_reading(first, &queued, &t).is_ok());
}

#[test]
fn the_first_name_reply_names_the_meter() {
    let replies = vec![reading(2, b" 0.0001"), ACK.to_vec(), b"UT61B+".to_vec(), b"UT61E+".to_vec()];
    assert_eq!(name_from_replies(&replies, 3), Some("UT61B+".to_string()));
    assert_eq!(name_from_replies(&replies, 2), None);
    assert_eq!(name_from_replies(&vec![ACK.to_vec()], 10), None);
}

#[test]
fn a_silent_stream_is_started_again_and_polled() {
    let mut p = Ut61PlusProtocol::new();
    let poll = Command::GetMeasurement.encode();
    assert_eq!(p.request_frames(false), vec![poll]);
    assert_eq!(p.request_frames(true), vec![poll]);
    p.init(true);
    assert_eq!(p.request_frames(false), Vec::<[u8; 6]>::new());
    assert_eq!(p.request_frames(true), vec![Command::StartStream.encode(), poll]);
}

#[test]
fn a_name_frame_pins_the_model_and_a_reading_the_family() {
    let named = recognise_frames(&vec![reading(2, b" 0.0004"), ACK.to_vec(), b"UT61E+".to_vec()]);
    assert_eq!(
        named,
        Some(Evidence::Model { id: "ut61eplus", reported_name: Some("UT61E+".to_string()) })
    );
    assert_eq!(
        recognise_frames(&vec![reading(2, b" 0.0004")]),
        Some(Evidence::FamilyOnly { fallback: "ut61eplus" })
    );
    assert_eq!(recognise_frames(&vec![ACK.to_vec()]), None);
    assert_eq!(recognise_frames(&Vec::new()), None);
}

#[test]
fn a_known_name_moves_to_its_registry_entry() {
    let named = recognise_frames(&vec![b"UT61B+".to_vec()]).unwrap();
    assert_eq!(
        with_registry_entry(named.clone(), Some("ut61b+")),
        Evidence::Model { id: "ut61b+", reported_name: Some("UT61B+".to_string()) }
    );
    assert_eq!(with_registry_entry(named.clone(), None), named);
    let family = Evidence::FamilyOnly { fallback: "ut61eplus" };
    assert_eq!(with_registry_entry(family.clone(), Some("ut61b+")), family);
}

/// A payload carrying a DC-V-shaped reading in `mode`.
fn payload_in(mode: u8) -> Vec<u8> {
    make_payload(mode, 0x01, b" 12.345", (0x00, 0x00), (0x00, 0x00, 0x00))
}

/// `payload` as the meter frames it: header, length, payload and a
/// big-endian sum of everything before it.
fn framed(payload: &[u8]) -> Vec<u8> {
    let mut f = vec![0xAB, 0xCD, (payload.len() + 2) as u8];
    f.extend_from_slice(payload);
    let sum: u16 = f.iter().map(|&b| b as u16).sum();
    f.push((sum >> 8) as u8);
    f.push(sum as u8);
    f
}

const ACK_FRAME: [u8; 7] = [0xAB, 0xCD, 0x04, 0xFF, 0x00, 0x02, 0x7B];

/// Reads of a press's wait, one step each, until the ack is whole.
fn ack_after(reads: &[Vec<u8>]) -> Option<usize> {
    let mut seen = Vec::new();
    for (i, r) in reads.iter().enumerate() {
        let (found, tail) = ack_wait_step(&seen, r);
        if found {
            return Some(i);
        }
        seen = tail;
    }
    None
}

#[test]
fn over_bluetooth_readings_are_streamed_not_polled() {
    let t = Ut61ePlusTable::new();
    let mut p = Ut61PlusProtocol::new();
    assert_eq!(p.init(true), Some(Command::StartStream.encode()));
    assert!(p.request_frames(false).is_empty(), "no poll goes out");
    assert!(reading_from_frames(&vec![payload_in(0x02)], &t).unwrap().is_ok());
    assert!(p.request_frames(false).is_empty(), "no poll goes out");
    assert!(reading_from_frames(&vec![payload_in(0x02)], &t).unwrap().is_ok());
}

#[test]
fn a_slow_reader_gets_the_newest_streamed_reading() {
    let t = Ut61ePlusTable::new();
    let mut p = Ut61PlusProtocol::new();
    p.init(true);
    let first = reading_from_frames(&vec![payload_in(0x02)], &t).unwrap();
    let m = newest_reading(first, &vec![payload_in(0x04), payload_in(0x05)], &t).unwrap();
    assert_eq!(m.mode, "Duty %");
    let next = reading_from_frames(&vec![payload_in(0x02)], &t).unwrap();
    assert_eq!(newest_reading(next, &Vec::new(), &t).unwrap().mode, "DC V");
    assert!(p.request_frames(false).is_empty(), "no poll went out");
}

#[test]
fn over_a_cable_every_reading_is_polled() {
    let t = Ut61ePlusTable::new();
    let mut p = Ut61PlusProtocol::new();
    assert_eq!(p.init(false), None);
    assert_eq!(p.request_frames(false), vec![Command::GetMeasurement.encode()]);
    assert!(reading_from_frames(&vec![payload_in(0x02)], &t).unwrap().is_ok());
}

#[test]
fn a_silent_stream_is_polled() {
    let t = Ut61ePlusTable::new();
    let mut p = Ut61PlusProtocol::new();
    let mut written = vec![p.init(true).unwrap()];
    written.extend(p.request_frames(false));
    assert!(reading_from_frames(&Vec::new(), &t).is_none(), "the stream is silent");
    written.extend(p.request_frames(true));
    assert!(reading_from_frames(&Vec::new(), &t).is_none(), "the poll times out too");
    assert_eq!(
        written,
        vec![
            Command::StartStream.encode(),
            Command::StartStream.encode(),
            Command::GetMeasurement.encode()
        ]
    );
}

#[test]
fn press_writes_the_select_and_hz_frames() {
    // 0x4C + 379 = 0x01C7, 0x49 + 379 = 0x01C4.
    assert_eq!(CycleButton::Select.command().encode(), [0xAB, 0xCD, 0x03, 0x4C, 0x01, 0xC7]);
    assert_eq!(CycleButton::Hz.command().encode(), [0xAB, 0xCD, 0x03, 0x49, 0x01, 0xC4]);
}

#[test]
fn a_press_waits_for_the_ack_and_leaves_what_follows() {
    let t = Ut61ePlusTable::new();
    let reads = vec![vec![], framed(&payload_in(0x02)), vec![], ACK_FRAME.to_vec()];
    assert_eq!(ack_after(&reads), Some(3));
    let m = reading_from_frames(&vec![payload_in(0x19)], &t).unwrap().unwrap();
    assert_eq!(m.mode, "AC+DC V");
}

#[test]
fn an_ack_split_across_reads_ends_the_wait() {
    let t = Ut61ePlusTable::new();
    let (head, tail) = ACK_FRAME.split_at(3);
    assert_eq!(ack_after(&[head.to_vec(), vec![], tail.to_vec()]), Some(2));
    let m = reading_from_frames(&vec![payload_in(0x05)], &t).unwrap().unwrap();
    assert_eq!(m.mode, "Duty %");
}

#[test]
fn a_press_without_an_ack_gives_up_and_the_poll_still_reads() {
    let t = Ut61ePlusTable::new();
    assert_eq!(ack_after(&[vec![], vec![]]), None);
    let m = reading_from_frames(&vec![payload_in(0x04)], &t).unwrap().unwrap();
    assert_eq!(m.mode, "Hz");
}

#[test]
fn a_name_frame_picks_the_registry_entry() {
    for (name, id) in [("UT61E+", "ut61eplus"), ("UT61B+", "ut61b+")] {
        let heard = recognise_frames(&vec![name.as_bytes().to_vec()]).unwrap();
        assert_eq!(
            with_registry_entry(heard, Some(id)),
            Evidence::Model { id, reported_name: Some(name.to_string()) }
        );
    }
}

#[test]
fn an_unknown_name_falls_back_to_the_ut61eplus_tables() {
    let heard = recognise_frames(&vec![b"UT60BT".to_vec()]).unwrap();
    assert_eq!(
        with_registry_entry(heard, None),
        Evidence::Model { id: "ut61eplus", reported_name: Some("UT60BT".to_string()) }
    );
}

#[test]
fn a_measurement_frame_settles_the_family_only() {
    let reading = vec![0x02, 0x30, 0x20, 0x30, 0x2E, 0x30, 0x30, 0x30, 0x34, 0x00, 0x02, 0x30, 0x30, 0x30];
    assert_eq!(
        recognise_frames(&vec![reading]),
        Some(Evidence::FamilyOnly { fallback: "ut61eplus" })
    );
}

#[test]
fn the_ack_identifies_nothing() {
    assert!(is_ack(&[0xFF, 0x00]));
    assert_eq!(recognise_frames(&vec![vec![0xFF, 0x00]]), None);
}

#[test]
fn get_name_returns_only_a_real_reply() {
    let p = Ut61PlusProtocol::new();
    let budget = p.name_read_budget();
    let reports = |frames: &Vec<Vec<u8>>| -> Vec<String> {
        frames.iter().filter_map(|f| report_unknown_frame(f)).collect()
    };

    let frames = vec![ACK.to_vec(), b"UT61E+".to_vec()];
    assert_eq!(name_from_replies(&frames, budget).as_deref(), Some("UT61E+"));
    assert!(reports(&frames).is_empty());

    let frames = vec![payload_in(0x02), ACK.to_vec(), b"UT61E+".to_vec()];
    assert_eq!(name_from_replies(&frames, budget).as_deref(), Some("UT61E+"));
    assert!(reports(&frames).is_empty());

    let frames = vec![vec![0x01, 0x02, 0x03], ACK.to_vec(), ACK.to_vec()];
    assert_eq!(name_from_replies(&frames, budget), None);
    assert_eq!(reports(&frames), ["ut61eplus: unrecognised frame: 3 bytes: [01, 02, 03]"]);
}

#[test]
fn an_unknown_frame_before_a_reading_is_reported() {
    let t = Ut61ePlusTable::new();
    let frames = vec![ACK.to_vec(), b"UT61E+".to_vec(), vec![0xFF, 0x01], payload_in(0x02)];
    let m = reading_from_frames(&frames, &t).unwrap().unwrap();
    assert_eq!(m.mode, "DC V");
    let reports: Vec<String> = frames.iter().filter_map(|f| report_unknown_frame(f)).collect();
    assert_eq!(reports, ["ut61eplus: unrecognised frame: 2 bytes: [FF, 01]"]);
}
