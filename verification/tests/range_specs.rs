use dmm_lib::protocol::ut61eplus::mode::Mode;
use dmm_lib::protocol::ut61eplus::range_specs::{
    Ut61bRangeSpecs, Ut61dRangeSpecs, Ut61eRangeSpecs, ut61b_range_specs_for, ut61d_range_specs_for,
    ut61e_range_specs_for,
};

#[test]
fn dc_v_has_5_ranges() {
    assert_eq!(Ut61eRangeSpecs::DcV.resolutions().len(), 5);
}

#[test]
fn ac_v_has_5_ranges_with_2_bands_each() {
    let t = Ut61eRangeSpecs::AcV;
    assert_eq!(t.resolutions().len(), 5);
    for i in 0..5 {
        assert_eq!(t.bands(i).len(), 2);
    }
}

#[test]
fn lpf_v_has_4_ranges() {
    assert_eq!(Ut61eRangeSpecs::LpfV.resolutions().len(), 4);
}

#[test]
fn ohm_has_7_ranges() {
    assert_eq!(Ut61eRangeSpecs::Ohm.resolutions().len(), 7);
}

#[test]
fn cap_has_8_ranges() {
    assert_eq!(Ut61eRangeSpecs::Cap.resolutions().len(), 8);
}

#[test]
fn hz_has_5_ranges() {
    assert_eq!(Ut61eRangeSpecs::Hz.resolutions().len(), 5);
}

#[test]
fn dc_v_resolution_matches_manual() {
    let r = Ut61eRangeSpecs::DcV.resolutions();
    assert_eq!(r[0], "0.1mV");
    assert_eq!(r[4], "0.01mV");
}

#[test]
fn acdc_v_has_4_ranges() {
    assert_eq!(Ut61eRangeSpecs::AcdcV.resolutions().len(), 4);
}

#[test]
fn dc_v_has_6_ranges() {
    assert_eq!(Ut61bRangeSpecs::DcV.resolutions().len(), 6);
}

#[test]
fn ac_v_has_6_ranges_single_band() {
    let t = Ut61bRangeSpecs::AcV;
    assert_eq!(t.resolutions().len(), 6);
    for i in 0..6 {
        assert_eq!(t.bands(i).len(), 1, "UT61B+ has single freq band");
    }
}

#[test]
fn ohm_has_6_ranges() {
    assert_eq!(Ut61bRangeSpecs::Ohm.resolutions().len(), 6);
}

#[test]
fn cap_has_7_ranges() {
    assert_eq!(Ut61bRangeSpecs::Cap.resolutions().len(), 7);
}

#[test]
fn temp_c_has_1_range() {
    assert_eq!(Ut61dRangeSpecs::TempC.resolutions().len(), 1);
}

#[test]
fn loz_v_has_2_ranges() {
    assert_eq!(Ut61dRangeSpecs::LozV.resolutions().len(), 2);
}

#[test]
fn shared_specs_accessible() {
    assert_eq!(Ut61dRangeSpecs::DcV.resolutions().len(), 6);
    assert_eq!(Ut61dRangeSpecs::Ohm.resolutions().len(), 6);
}

#[test]
fn ac_v_mode_freq_response_is_1khz() {
    assert!(Ut61dRangeSpecs::AcV.notes().iter().any(|n| n.contains("1kHz")));
}

#[test]
fn ac_a_accuracy_is_2_percent() {
    assert_eq!(Ut61dRangeSpecs::AcA.bands(0)[0].accuracy, "2.0%+5");
}

/// Each model's modes take their own tables: temperature and LoZ on the
/// D+ only, hFE and the derived volt modes on the E+ only.
#[test]
fn modes_take_their_model_s_tables() {
    assert_eq!(ut61e_range_specs_for(Mode::Hfe), Some(Ut61eRangeSpecs::Hfe));
    assert_eq!(ut61e_range_specs_for(Mode::TempF), Some(Ut61eRangeSpecs::TempF));
    assert_eq!(ut61e_range_specs_for(Mode::Ncv), None);
    assert_eq!(ut61b_range_specs_for(Mode::TempC), None);
    assert_eq!(ut61b_range_specs_for(Mode::AcA), Some(Ut61bRangeSpecs::AcA));
    assert_eq!(ut61d_range_specs_for(Mode::LozV), Some(Ut61dRangeSpecs::LozV));
    assert_eq!(ut61d_range_specs_for(Mode::Hfe), None);
    // D+ DC currents are the B+'s figures; its AC ones carry 1kHz.
    assert_eq!(Ut61dRangeSpecs::DcUa.resolutions(), Ut61bRangeSpecs::DcUa.resolutions());
    assert!(Ut61dRangeSpecs::AcUa.notes().iter().any(|n| n.contains("1kHz")));
}
