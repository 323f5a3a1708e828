use dmm_lib::measurement::Error;
use dmm_lib::protocol::ut61eplus::mode::Mode;

/// Every mode reads back from its own byte, and no two share one.
#[test]
fn every_mode_round_trips_through_its_byte() {
    let all = Mode::all();
    assert_eq!(all.len(), 31);
    for (i, &m) in all.iter().enumerate() {
        assert_eq!(m.byte() as usize, i);
        assert_eq!(Mode::from_byte(m.byte()), Ok(m));
    }
    assert_eq!(Mode::from_byte(0x1F), Err(Error::UnknownMode(0x1F)));
    assert_eq!(Mode::from_byte(0xFF), Err(Error::UnknownMode(0xFF)));
    assert_eq!(Error::UnknownMode(0x1F).message(), "unknown mode byte 0x1f");
}

#[test]
fn modes_are_labelled_as_the_meter_names_them() {
    assert_eq!(Mode::DcV.as_static_str(), "DC V");
    assert_eq!(Mode::AcDcV.as_static_str(), "AC+DC V");
    assert_eq!(Mode::Ncv.as_static_str(), "NCV");
    assert_eq!(Mode::LozV2, Mode::ClampAcA);
}
