use dmm_lib::measurement::Measurement;
use dmm_lib::protocol::ut61eplus::mode::Mode;
use dmm_lib::protocol::ut61eplus::parse::make_payload;
use dmm_lib::protocol::ut61eplus::reports::parse_measurement_reporting;
use dmm_lib::protocol::ut61eplus::sheets::Ut61ePlusSheet;
use dmm_lib::protocol::ut61eplus::spec_model::{SpecModel, ut61e_plus_table};
use dmm_lib::protocol::ut61eplus::tables::ut61e_plus::Ut61ePlusTable;

/// A UT61E+ reading of `mode` at range byte `range`, and whether the
/// parser reported anything in it.
fn parse(mode: u8, range: u8) -> (Option<Measurement>, bool) {
    let payload = make_payload(mode, range, b"      3", (0, 0), (0, 0, 0));
    let (m, reports) = parse_measurement_reporting(&payload, &Ut61ePlusTable::new());
    (m.ok(), !reports.is_empty())
}

fn reading(mode: Mode, range: u8) -> Measurement {
    parse(mode.byte(), range).0.unwrap()
}

/// Every mode and range byte the parser accepts without a report.
fn accepted_readings() -> Vec<Measurement> {
    let mut out = Vec::new();
    for mode in 0..=0x1Eu8 {
        for range in 0..=0xFu8 {
            if let (Some(m), false) = parse(mode, range) {
                out.push(m);
            }
        }
    }
    out
}

/// Each reading in a mode with a table resolves a row, unless it is mV
/// range 1 or the volts' 220mV range 4; NCV has no table; every row of every
/// table is some reading's.
#[test]
fn every_reading_has_a_spec_or_is_listed() {
    let model = SpecModel::Ut61ePlus;
    let mut reached: Vec<(Ut61ePlusSheet, usize)> = Vec::new();
    for m in accepted_readings() {
        let mode = Mode::from_byte(m.mode_raw as u8).unwrap();
        let range = m.range_raw;
        let mode_only = (matches!(mode, Mode::DcMv | Mode::AcMv) && range == 1)
            || (matches!(mode, Mode::DcV | Mode::AcV | Mode::LpfV | Mode::AcDcV) && range == 4);
        match (model.table(&m), model.row(&m)) {
            (Some(t), Some((t2, i))) => {
                assert_eq!(t, t2);
                assert!(!mode_only, "{mode:?} {range}: has a row, yet is listed");
                if !reached.contains(&(t, i)) {
                    reached.push((t, i));
                }
            }
            (Some(_), None) => assert!(mode_only, "{mode:?} {range}: no row, and not listed"),
            (None, row) => assert!(row.is_none() && ut61e_plus_table(mode).is_none()),
        }
    }
    assert!(model.table(&reading(Mode::Ncv, 0)).is_none());
    for t in model.tables() {
        for i in 0..t.rows().len() {
            assert!(reached.contains(&(t, i)), "{} / {} is no reading's", t.name(), t.rows()[i].label);
        }
    }
}

#[test]
fn mv_rows_carry_the_mv_impedance() {
    let model = SpecModel::Ut61ePlus;
    let impedance = |mode| model.table(&reading(mode, 0)).unwrap().mode_info().input_impedance;
    assert_eq!(impedance(Mode::DcMv), Some("About 1GΩ"));
    assert_eq!(impedance(Mode::DcV), Some("About 10MΩ"));
    assert_eq!(impedance(Mode::AcMv), Some("About 10MΩ"));
}

/// An LPF V reading shows the LPF band alone, on the AC V row of its range.
#[test]
fn lpf_v_has_only_the_lpf_band() {
    let model = SpecModel::Ut61ePlus;
    for range in 0..=3 {
        let (lt, li) = model.row(&reading(Mode::LpfV, range)).unwrap();
        let (at, ai) = model.row(&reading(Mode::AcV, range)).unwrap();
        assert_eq!(lt.rows()[li].label, at.rows()[ai].label, "range {range}");
        let bands: Vec<_> = lt.bands(li).iter().map(|b| b.freq_range).collect();
        assert_eq!(bands, [Some("40Hz~100Hz (LPF)")], "range {range}");
    }
}

/// AC V and AC mV readings show the frequency bands, not the LPF one.
#[test]
fn ac_v_has_no_lpf_band() {
    let model = SpecModel::Ut61ePlus;
    for m in accepted_readings() {
        let mode = Mode::from_byte(m.mode_raw as u8).unwrap();
        if !matches!(mode, Mode::AcV | Mode::AcMv) {
            continue;
        }
        let Some((t, i)) = model.row(&m) else { continue };
        assert!(t.bands(i).iter().all(|b| !b.freq_range.is_some_and(|f| f.contains("LPF"))));
    }
}

/// The manual prints frequency as one row, whichever range byte the
/// reading carries.
#[test]
fn hz_is_one_row() {
    let model = SpecModel::Ut61ePlus;
    let rows: Vec<(Ut61ePlusSheet, usize)> = accepted_readings()
        .iter()
        .filter(|m| m.mode_raw == Mode::Hz.byte() as u16)
        .map(|m| model.row(m).unwrap())
        .collect();
    assert!(rows.len() > 1);
    assert!(rows.iter().all(|r| *r == rows[0]));
    assert_eq!(rows[0].0.rows()[rows[0].1].range, None);
}
