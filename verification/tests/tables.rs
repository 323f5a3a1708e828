use dmm_lib::protocol::ut61eplus::mode::Mode;
use dmm_lib::protocol::ut61eplus::tables::DeviceTable;
use dmm_lib::protocol::ut61eplus::tables::ut61b_plus::Ut61bPlusTable;

/// UT161B has no table of its own — `Ut61PlusProtocol::for_model` hands it
/// the UT61B+'s, so these are the ranges a UT161B reports.
#[test]
fn ut161b_uses_the_ut61b_plus_table() {
    let t = Ut61bPlusTable::new();
    assert_eq!(t.model_name(), "UNI-T UT61B+");
    assert_eq!(t.range_info(Mode::DcV, 0).map(|r| r.label), Some("6V"));
}
