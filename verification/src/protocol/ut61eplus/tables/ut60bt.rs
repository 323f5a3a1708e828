use super::{DeviceTable, RangeInfo, r, ri};
use super::{family_fixed_range, is_family_fixed_range};
use crate::protocol::ut61eplus::mode::Mode;
use super::rungs::rung_reads_in_its_unit;
use crate::labels::{all_number_chars, ends_with};
use vstd::prelude::*;

verus! {

/// Device table for the UNI-T UT60BT, a 9,999-count handheld with Bluetooth built in. Its dial is not described, so it lists its modes.
#[derive(Debug, Clone, Copy)]
pub struct Ut60btTable;

/// The UNI-T UT60BT's range table for each mode, in range-byte order.
pub open spec fn ut60bt_ranges(mode: Mode) -> Seq<RangeInfo> {
    match mode {
        Mode::DcV | Mode::AcV => seq![ri("999.9mV", "mV"), ri("9.999V", "V"), ri("99.99V", "V"), ri("999.9V", "V")],
        Mode::DcMv | Mode::AcMv => seq![ri("9.999mV", "mV"), ri("99.99mV", "mV")],
        Mode::Ohm => seq![ri("999.9\u{03A9}", "\u{03A9}"), ri("9.999k\u{03A9}", "k\u{03A9}"), ri("99.99k\u{03A9}", "k\u{03A9}"), ri("999.9k\u{03A9}", "k\u{03A9}"), ri("9.999M\u{03A9}", "M\u{03A9}"), ri("99.99M\u{03A9}", "M\u{03A9}")],
        Mode::Capacitance => seq![ri("9.999nF", "nF"), ri("99.99nF", "nF"), ri("999.9nF", "nF"), ri("9.999\u{00B5}F", "\u{00B5}F"), ri("99.99\u{00B5}F", "\u{00B5}F"), ri("999.9\u{00B5}F", "\u{00B5}F"), ri("9.999mF", "mF"), ri("99.99mF", "mF")],
        Mode::Hz => seq![ri("9.999Hz", "Hz"), ri("99.99Hz", "Hz"), ri("999.9Hz", "Hz"), ri("9.999kHz", "kHz"), ri("99.99kHz", "kHz"), ri("999.9kHz", "kHz"), ri("9.999MHz", "MHz"), ri("99.99MHz", "MHz")],
        Mode::DutyCycle => seq![ri("Duty", "%")],
        Mode::TempC => seq![ri("-40~1000\u{00B0}C", "\u{00B0}C")],
        Mode::TempF => seq![ri("-40~1832\u{00B0}F", "\u{00B0}F")],
        Mode::Diode => seq![ri("Diode", "V")],
        Mode::Continuity => seq![ri("Cont", "\u{03A9}")],
        Mode::DcUa | Mode::AcUa => seq![ri("999.9\u{00B5}A", "\u{00B5}A")],
        Mode::DcMa | Mode::AcMa => seq![ri("999.9mA", "mA"), ri("9.999A", "A")],
        Mode::DcA | Mode::AcA | Mode::Hfe | Mode::Live | Mode::Ncv | Mode::LozV | Mode::ClampAcA | Mode::ClampDcA | Mode::LpfV | Mode::AcDcV | Mode::LpfMv | Mode::AcDcMv | Mode::ClampLpfA | Mode::ClampAcDcA | Mode::Inrush => seq![],
    }
}

impl Ut60btTable {
    /// The table.
    pub fn new() -> (t: Self)
        ensures
            t == Ut60btTable,
    {
        Ut60btTable
    }
}

impl Default for Ut60btTable {
    fn default() -> (t: Self)
        ensures
            t == Ut60btTable,
    {
        Ut60btTable
    }
}

impl DeviceTable for Ut60btTable {
    open spec fn spec_ranges(&self, mode: Mode) -> Seq<RangeInfo> {
        ut60bt_ranges(mode)
    }

    open spec fn spec_model_name(&self) -> &'static str {
        "UNI-T UT60BT"
    }

    open spec fn spec_modes(&self) -> Seq<Mode> {
        seq![Mode::AcV, Mode::AcMv, Mode::DcV, Mode::DcMv, Mode::Hz, Mode::DutyCycle, Mode::Ohm, Mode::Continuity, Mode::Diode, Mode::Capacitance, Mode::TempC, Mode::TempF, Mode::DcUa, Mode::AcUa, Mode::DcMa, Mode::AcMa, Mode::Ncv]
    }

    open spec fn spec_peak_modes(&self) -> Seq<Mode> {
        seq![]
    }

    open spec fn spec_dial_modes(&self) -> Seq<Mode> {
        seq![]
    }

    open spec fn spec_range_is_fixed(&self, mode: Mode) -> bool {
        family_fixed_range(mode)
    }

    open spec fn spec_commands(&self) -> Seq<&'static str> {
        seq!["hold", "range", "auto", "rel", "select"]
    }

    fn ranges(&self, mode: Mode) -> (v: Vec<RangeInfo>) {
        match mode {
            Mode::DcV | Mode::AcV => vec![r("999.9mV", "mV"), r("9.999V", "V"), r("99.99V", "V"), r("999.9V", "V")],
            Mode::DcMv | Mode::AcMv => vec![r("9.999mV", "mV"), r("99.99mV", "mV")],
            Mode::Ohm => vec![r("999.9\u{03A9}", "\u{03A9}"), r("9.999k\u{03A9}", "k\u{03A9}"), r("99.99k\u{03A9}", "k\u{03A9}"), r("999.9k\u{03A9}", "k\u{03A9}"), r("9.999M\u{03A9}", "M\u{03A9}"), r("99.99M\u{03A9}", "M\u{03A9}")],
            Mode::Capacitance => vec![r("9.999nF", "nF"), r("99.99nF", "nF"), r("999.9nF", "nF"), r("9.999\u{00B5}F", "\u{00B5}F"), r("99.99\u{00B5}F", "\u{00B5}F"), r("999.9\u{00B5}F", "\u{00B5}F"), r("9.999mF", "mF"), r("99.99mF", "mF")],
            Mode::Hz => vec![r("9.999Hz", "Hz"), r("99.99Hz", "Hz"), r("999.9Hz", "Hz"), r("9.999kHz", "kHz"), r("99.99kHz", "kHz"), r("999.9kHz", "kHz"), r("9.999MHz", "MHz"), r("99.99MHz", "MHz")],
            Mode::DutyCycle => vec![r("Duty", "%")],
            Mode::TempC => vec![r("-40~1000\u{00B0}C", "\u{00B0}C")],
            Mode::TempF => vec![r("-40~1832\u{00B0}F", "\u{00B0}F")],
            Mode::Diode => vec![r("Diode", "V")],
            Mode::Continuity => vec![r("Cont", "\u{03A9}")],
            Mode::DcUa | Mode::AcUa => vec![r("999.9\u{00B5}A", "\u{00B5}A")],
            Mode::DcMa | Mode::AcMa => vec![r("999.9mA", "mA"), r("9.999A", "A")],
            Mode::DcA | Mode::AcA | Mode::Hfe | Mode::Live | Mode::Ncv | Mode::LozV | Mode::ClampAcA | Mode::ClampDcA | Mode::LpfV | Mode::AcDcV | Mode::LpfMv | Mode::AcDcMv | Mode::ClampLpfA | Mode::ClampAcDcA | Mode::Inrush => vec![],
        }
    }

    fn model_name(&self) -> (s: &'static str) {
        "UNI-T UT60BT"
    }

    fn modes(&self) -> (v: Vec<Mode>) {
        vec![Mode::AcV, Mode::AcMv, Mode::DcV, Mode::DcMv, Mode::Hz, Mode::DutyCycle, Mode::Ohm, Mode::Continuity, Mode::Diode, Mode::Capacitance, Mode::TempC, Mode::TempF, Mode::DcUa, Mode::AcUa, Mode::DcMa, Mode::AcMa, Mode::Ncv]
    }

    fn peak_modes(&self) -> (v: Vec<Mode>) {
        vec![]
    }

    fn dial_modes(&self) -> (v: Vec<Mode>) {
        vec![]
    }

    fn range_is_fixed(&self, mode: Mode) -> (b: bool) {
        is_family_fixed_range(mode)
    }

    fn commands(&self) -> (v: Vec<&'static str>) {
        vec!["hold", "range", "auto", "rel", "select"]
    }
}

/// Every numbered rung of this table is read in its own unit, but for
/// those [`super::rungs::rungs_read_in_their_unit`] sets apart.
pub proof fn lemma_ut60bt_rungs(mode: Mode, i: int)
    ensures
        0 <= i < ut60bt_ranges(mode).len() ==> rung_reads_in_its_unit(ut60bt_ranges(mode)[i]),
{
    reveal_strlit("");
    reveal_strlit("%");
    reveal_strlit("A");
    reveal_strlit("V");
    reveal_strlit("Hz");
    reveal_strlit("mA");
    reveal_strlit("mF");
    reveal_strlit("mV");
    reveal_strlit("nF");
    reveal_strlit("MHz");
    reveal_strlit("kHz");
    reveal_strlit("Cont");
    reveal_strlit("Duty");
    reveal_strlit("Diode");
    reveal_strlit("9.999A");
    reveal_strlit("9.999V");
    reveal_strlit("99.99V");
    reveal_strlit("999.9V");
    reveal_strlit("9.999Hz");
    reveal_strlit("9.999mF");
    reveal_strlit("9.999mV");
    reveal_strlit("9.999nF");
    reveal_strlit("99.99Hz");
    reveal_strlit("99.99mF");
    reveal_strlit("99.99mV");
    reveal_strlit("99.99nF");
    reveal_strlit("999.9Hz");
    reveal_strlit("999.9mA");
    reveal_strlit("999.9mV");
    reveal_strlit("999.9nF");
    reveal_strlit("9.999MHz");
    reveal_strlit("9.999kHz");
    reveal_strlit("99.99MHz");
    reveal_strlit("99.99kHz");
    reveal_strlit("999.9kHz");
    reveal_strlit("\u{03A9}");
    reveal_strlit("M\u{03A9}");
    reveal_strlit("\u{00B0}C");
    reveal_strlit("\u{00B0}F");
    reveal_strlit("\u{00B5}A");
    reveal_strlit("\u{00B5}F");
    reveal_strlit("k\u{03A9}");
    reveal_strlit("999.9\u{03A9}");
    reveal_strlit("9.999M\u{03A9}");
    reveal_strlit("9.999\u{00B5}F");
    reveal_strlit("9.999k\u{03A9}");
    reveal_strlit("99.99M\u{03A9}");
    reveal_strlit("99.99\u{00B5}F");
    reveal_strlit("99.99k\u{03A9}");
    reveal_strlit("999.9\u{00B5}A");
    reveal_strlit("999.9\u{00B5}F");
    reveal_strlit("999.9k\u{03A9}");
    reveal_strlit("-40~1000\u{00B0}C");
    reveal_strlit("-40~1832\u{00B0}F");
    reveal_with_fuel(ends_with, 4);
    reveal_with_fuel(all_number_chars, 7);
}

} // verus!
