use dmm_lib::measurement::Measurement;
use dmm_lib::protocol::ut80x::Ut80xProtocol;
use dmm_lib::protocol::ut80x::fields::{Ut803Fields, Ut804Fields};
use dmm_lib::protocol::ut80x::packet::{Coupling, PACKET_LEN};
use dmm_lib::protocol::ut80x::parse::{parse_measurement_ut803, parse_measurement_ut804};
use dmm_lib::protocol::ut80x::reports::{parse_measurement_ut803_reporting, parse_measurement_ut804_reporting};
use dmm_lib::protocol::ut80x::sheets::{Ut803Sheet, Ut804Sheet};
use dmm_lib::protocol::ut80x::spec_tables::{SpecSheet, ut803_spec_table, ut804_has_rows, ut804_spec_table};
use dmm_lib::specs::RangeSpec;

/// A packet as the meters send it: each data nibble as `0x30 | n`, bit 7
/// set for odd parity, then CR LF as `0D 8A`.
fn wire(data: [u8; 9]) -> Vec<u8> {
    let mut packet: Vec<u8> = data
        .iter()
        .map(|&n| {
            let byte = 0x30 | n;
            if byte.count_ones() % 2 == 0 { byte | 0x80 } else { byte }
        })
        .collect();
    packet.extend_from_slice(&[0x0D, 0x8A]);
    packet
}

fn ut804_payload(digits: &[u8; 5], range: u8, mode: u8, acdc: u8, status: u8) -> Vec<u8> {
    wire([digits[0], digits[1], digits[2], digits[3], digits[4], range, mode, acdc, status])
}

fn ut803_payload(digits: &[u8; 4], range: u8, mode: u8, nib8: u8, nib9: u8, nib10: u8) -> Vec<u8> {
    wire([range, digits[0], digits[1], digits[2], digits[3], mode, nib8, nib9, nib10])
}

fn ut804_table_name(p: &[u8]) -> Option<&'static str> {
    let m = parse_measurement_ut804(p).unwrap();
    let (table, _) = Ut80xProtocol::new_ut804().spec_table(&m)?;
    Some(table.name())
}

/// The resolution and first accuracy figure of a reading's row.
fn ut804_spec(p: &[u8]) -> Option<(&'static str, &'static str)> {
    let m = parse_measurement_ut804(p).unwrap();
    let (row, bands) = Ut80xProtocol::new_ut804().spec_info(&m)?;
    Some((row.resolution, bands.first().map_or("", |b| b.accuracy)))
}

fn ut803_table_name(p: &[u8]) -> Option<&'static str> {
    let m = parse_measurement_ut803(p).unwrap();
    let (table, _) = Ut80xProtocol::new_ut803().spec_table(&m)?;
    Some(table.name())
}

fn ut803_spec(p: &[u8]) -> Option<(&'static str, &'static str)> {
    let m = parse_measurement_ut803(p).unwrap();
    let (row, bands) = Ut80xProtocol::new_ut803().spec_info(&m)?;
    Some((row.resolution, bands.first().map_or("", |b| b.accuracy)))
}

/// DC and AC current share their mode codes; the coupling bits pick the
/// table.
#[test]
fn ut803_ac_and_dc_ma_pick_their_own_tables() {
    let dc = ut803_payload(&[1, 2, 3, 4], 0, 0xF, 0x0, 0x0, 0x8);
    let ac = ut803_payload(&[1, 2, 3, 4], 0, 0xF, 0x0, 0x0, 0x4);
    assert_eq!(ut803_table_name(&dc), Some("C. DC Current"));
    assert_eq!(ut803_table_name(&ac), Some("D. AC Current"));
    assert_eq!(ut803_spec(&dc).unwrap().1, "0.5%+3");
    assert_eq!(ut803_spec(&ac).unwrap().1, "1.0%+5");
}

#[test]
fn ut803_rpm_has_no_spec_and_hz_has() {
    let hz = ut803_payload(&[1, 2, 3, 4], 1, 0x2, 0x0, 0x0, 0x0);
    let rpm = ut803_payload(&[1, 2, 3, 4], 1, 0x2, 0x8, 0x0, 0x0);
    assert_eq!(ut803_spec(&hz).unwrap().0, "0.01kHz");
    assert_eq!(ut803_table_name(&rpm), None);
}

#[test]
fn ut803_alt_bit_picks_the_temperature_row() {
    let c = ut803_payload(&[0, 0, 2, 5], 0, 0x4, 0x8, 0x0, 0x0);
    let f = ut803_payload(&[0, 0, 7, 7], 0, 0x4, 0x0, 0x0, 0x0);
    assert_eq!(ut803_spec(&c).unwrap().0, "1°C");
    assert_eq!(ut803_spec(&f).unwrap().0, "1°F");
}

/// The 600mV range is range 4 of the volts mode, with an input impedance
/// of its own.
#[test]
fn ut803_600mv_has_its_own_input_impedance() {
    let proto = Ut80xProtocol::new_ut803();
    let impedance = |range| {
        let p = ut803_payload(&[1, 2, 3, 4], range, 0xB, 0x0, 0x0, 0x8);
        let m = parse_measurement_ut803(&p).unwrap();
        proto.mode_spec_info(&m).unwrap().input_impedance
    };
    assert_eq!(impedance(4), Some("Around > 3000MΩ"));
    assert_eq!(impedance(0), Some("Around 10MΩ"));
}

#[test]
fn ut803_malformed_payload_has_no_spec() {
    let proto = Ut80xProtocol::new_ut803();
    let p = ut803_payload(&[1, 2, 3, 4], 0, 0xB, 0x0, 0x0, 0x8);
    let mut m = parse_measurement_ut803(&p).unwrap();
    assert!(proto.spec_info(&m).is_some());
    for payload in [vec![], p[..10].to_vec(), vec![0xFF; PACKET_LEN]] {
        m.raw_payload = payload;
        assert!(proto.spec_info(&m).is_none());
        assert!(proto.mode_spec_info(&m).is_none());
    }
}

/// DC V and AC V share range 4, 1000V, in their own tables. AC+DC takes
/// the AC table's mode data, whose remarks give its adder, but no row.
#[test]
fn ut804_coupling_picks_the_volts_table() {
    let volts = |acdc| ut804_payload(&[0, 2, 3, 0, 0], 4, 0x2, acdc, 0x0);
    assert_eq!(ut804_table_name(&volts(2)), Some("A. DC Voltage"));
    assert_eq!(ut804_spec(&volts(2)).unwrap().1, "0.1%+8");
    let ac = "B. AC Voltage (AC+DC measurement is available)";
    assert_eq!(ut804_table_name(&volts(1)), Some(ac));
    assert_eq!(ut804_spec(&volts(1)).unwrap().1, "1%+30");

    let acdc = parse_measurement_ut804(&volts(3)).unwrap();
    let proto = Ut80xProtocol::new_ut804();
    assert_eq!(ut804_table_name(&volts(3)), Some(ac));
    assert!(proto.spec_info(&acdc).is_none());
    let (table, row) = proto.spec_table(&acdc).unwrap();
    assert_eq!(row, None);
    let notes = table.notes();
    assert!(notes.iter().any(|n| n.contains("AC+DC")), "{notes:?}");
    assert!(proto.mode_spec_info(&acdc).is_some());
}

#[test]
fn ut804_sign_bit_picks_duty_over_frequency() {
    let hz = ut804_payload(&[1, 2, 3, 4, 0xA], 2, 0xC, 0, 0x0);
    let duty = ut804_payload(&[1, 2, 3, 4, 0xA], 2, 0xC, 0, 0x4);
    assert_eq!(ut804_spec(&hz).unwrap().0, "0.0001kHz");
    assert_eq!(ut804_table_name(&duty), Some("J. Duty Cycle"));
}

/// DC mV is A's 400mV row, with its own input impedance; AC mV has no
/// row to take.
#[test]
fn ut804_millivolts_take_the_400mv_row_on_dc_only() {
    let proto = Ut80xProtocol::new_ut804();
    let dc = parse_measurement_ut804(&ut804_payload(&[1, 1, 1, 3, 7], 0, 0x3, 0, 0x0)).unwrap();
    assert_eq!(proto.spec_info(&dc).unwrap().0.resolution, "0.01mV");
    assert_eq!(proto.mode_spec_info(&dc).unwrap().input_impedance, Some("Around 2.5GΩ"));
    let ac = ut804_payload(&[1, 1, 1, 3, 7], 0, 0x3, 1, 0x0);
    assert_eq!(ut804_table_name(&ac), None);
}

#[test]
fn ut804_malformed_payload_has_no_spec() {
    let proto = Ut80xProtocol::new_ut804();
    let p = ut804_payload(&[1, 2, 3, 4, 0xA], 1, 0x1, 2, 0x0);
    let mut m = parse_measurement_ut804(&p).unwrap();
    assert!(proto.spec_info(&m).is_some());
    for payload in [vec![], p[..10].to_vec(), vec![0xFF; PACKET_LEN]] {
        m.raw_payload = payload;
        assert!(proto.spec_info(&m).is_none());
        assert!(proto.mode_spec_info(&m).is_none());
    }
}

/// The handhelds' manuals are not transcribed: no reading of theirs has a
/// table.
#[test]
fn handheld_readings_have_no_table() {
    let p = ut804_payload(&[1, 2, 3, 4, 0xA], 1, 0x1, 2, 0x0);
    let m = parse_measurement_ut804(&p).unwrap();
    for proto in [Ut80xProtocol::new_ut71ab(), Ut80xProtocol::new_ut71cde(), Ut80xProtocol::new_vc920()] {
        assert!(proto.spec_table(&m).is_none());
    }
}

/// Every UT804 reading the parser accepts without a report, as a packet
/// and its reading.
fn ut804_accepted_readings() -> Vec<(Vec<u8>, Measurement)> {
    let mut readings = Vec::new();
    for mode in 0..=0xF {
        for range in 0..=0xF {
            for acdc in 0..=0x4 {
                for status in [0x0, 0x1, 0x4, 0x5] {
                    let p = ut804_payload(&[1, 2, 3, 4, 0xA], range, mode, acdc, status);
                    if let (Ok(m), reports) = parse_measurement_ut804_reporting(&p) {
                        if reports.is_empty() {
                            readings.push((p, m));
                        }
                    }
                }
            }
        }
    }
    readings
}

/// Every UT803 reading the parser accepts without a report.
fn ut803_accepted_readings() -> Vec<(Vec<u8>, Measurement)> {
    let mut readings = Vec::new();
    for mode in 0..=0xF {
        for range in 0..=0xF {
            for nib10 in [0x0, 0x4, 0x8, 0xC] {
                for nib8 in [0x0, 0x8] {
                    let p = ut803_payload(&[1, 2, 3, 4], range, mode, nib8, 0x0, nib10);
                    if let (Ok(m), reports) = parse_measurement_ut803_reporting(&p) {
                        if reports.is_empty() {
                            readings.push((p, m));
                        }
                    }
                }
            }
        }
    }
    readings
}

fn same_row(a: &RangeSpec, b: &RangeSpec) -> bool {
    a.range == b.range && a.label == b.label && a.resolution == b.resolution
}

/// Each UT804 reading resolves a row, takes its table's mode data only
/// (AC+DC), or has none (power, AC mV); every row of every table is some
/// reading's.
#[test]
fn ut804_every_reading_has_a_spec_or_is_listed() {
    let proto = Ut80xProtocol::new_ut804();
    let mut reached: Vec<(Ut804Sheet, usize)> = Vec::new();
    for (p, m) in ut804_accepted_readings() {
        let f = Ut804Fields::decode(&p).unwrap();
        let mode_only = matches!(f.mode, 0x1 | 0x2 | 0x7 | 0x8 | 0x9) && f.coupling() == Some(Coupling::AcDc);
        let none = f.mode == 0xE || (f.mode == 0x3 && matches!(f.coupling(), Some(Coupling::Ac | Coupling::AcDc)));
        match proto.spec_row(&m) {
            Some((SpecSheet::Ut804(t), i)) => {
                assert!(!mode_only && !none, "{} {p:02X?}", m.mode);
                assert!(proto.mode_spec_info(&m).is_some());
                if !reached.contains(&(t, i)) {
                    reached.push((t, i));
                }
            }
            Some(_) => panic!("a UT803 table for a UT804 reading"),
            None => {
                assert!(mode_only ^ none, "{} {p:02X?}: no spec, and not listed once", m.mode);
                assert_eq!(proto.mode_spec_info(&m).is_some(), mode_only);
            }
        }
    }
    for t in Ut804Sheet::all() {
        for i in 0..t.rows().len() {
            assert!(reached.contains(&(t, i)), "{} / {} is no reading's", t.name(), t.rows()[i].label);
        }
    }
}

/// Each UT803 reading resolves a row or is one of those with none; every
/// row but the transistor table's is some reading's.
#[test]
fn ut803_every_reading_has_a_spec_or_is_listed() {
    let proto = Ut80xProtocol::new_ut803();
    let mut reached: Vec<(Ut803Sheet, usize)> = Vec::new();
    for (p, m) in ut803_accepted_readings() {
        let f = Ut803Fields::decode(&p).unwrap();
        let listed = (f.mode == 0x2 && f.alt())
            || (f.mode == 0x2 && !f.alt() && f.range == 5)
            || (f.mode == 0x6 && f.range == 7)
            || f.mode == 0xE
            || (matches!(f.mode, 0x9 | 0xD | 0xF) && !matches!(f.coupling(), Some(Coupling::Dc | Coupling::Ac)));
        match proto.spec_row(&m) {
            Some((SpecSheet::Ut803(t), i)) => {
                assert!(!listed, "{} {p:02X?}: has a spec, yet is listed", m.mode);
                if !reached.contains(&(t, i)) {
                    reached.push((t, i));
                }
            }
            Some(_) => panic!("a UT804 table for a UT803 reading"),
            None => assert!(listed, "{} {p:02X?}: no spec, and not listed", m.mode),
        }
    }
    for t in Ut803Sheet::all() {
        for i in 0..t.rows().len() {
            assert_eq!(reached.contains(&(t, i)), t != Ut803Sheet::Transistor, "{} / {}", t.name(), t.rows()[i].label);
        }
    }
}

/// A row carries the range label the parser gives the reading; the
/// continuity and diode rows are labelled by a symbol.
#[test]
fn ut804_rows_carry_the_readings_range_label() {
    let proto = Ut80xProtocol::new_ut804();
    for (p, m) in ut804_accepted_readings() {
        let Some((t, i)) = proto.spec_row(&m) else { continue };
        let row = t.rows()[i];
        if m.range_label.is_empty() || row.label.ends_with("symbol)") {
            continue;
        }
        assert_eq!(row.label, m.range_label, "{} {p:02X?}", m.mode);
        assert!(same_row(&row, &proto.spec_info(&m).unwrap().0));
    }
}

/// A DC table answers only DC readings, and an AC table AC and AC+DC ones;
/// the other tables answer readings with no coupling.
#[test]
fn ut804_tables_match_the_readings_coupling() {
    let proto = Ut80xProtocol::new_ut804();
    for (p, m) in ut804_accepted_readings() {
        let Some((table, _)) = proto.spec_table(&m) else { continue };
        let coupling = Ut804Fields::decode(&p).unwrap().coupling();
        let fits = match table.name() {
            "A. DC Voltage" | "C. DC Current" => coupling == Some(Coupling::Dc),
            "B. AC Voltage (AC+DC measurement is available)"
            | "D. AC Current (AC+DC measurement is available)" => {
                matches!(coupling, Some(Coupling::Ac | Coupling::AcDc))
            }
            _ => coupling.is_none(),
        };
        assert!(fits, "{} {p:02X?}: {} for {coupling:?}", m.mode, table.name());
    }
}

/// The selection functions on their own.
#[test]
fn table_selection_by_fields() {
    assert_eq!(ut804_spec_table(0xC, None, true), Some(Ut804Sheet::Duty));
    assert_eq!(ut804_spec_table(0xC, None, false), Some(Ut804Sheet::Frequency));
    assert_eq!(ut804_spec_table(0x3, Some(Coupling::Ac), false), None);
    assert_eq!(ut804_spec_table(0xE, None, false), None);
    assert!(ut804_has_rows(Some(Coupling::Dc)));
    assert!(!ut804_has_rows(Some(Coupling::AcDc)));
    assert_eq!(ut803_spec_table(0xB, 4, false, Some(Coupling::Ac)), Some(Ut803Sheet::AcMv));
    assert_eq!(ut803_spec_table(0xB, 3, false, Some(Coupling::Ac)), Some(Ut803Sheet::AcV));
    assert_eq!(ut803_spec_table(0x4, 0, true, None), Some(Ut803Sheet::TempC));
    assert_eq!(ut803_spec_table(0x2, 0, true, None), None);
    assert_eq!(Ut804Sheet::Resistance.page(), 63);
}
