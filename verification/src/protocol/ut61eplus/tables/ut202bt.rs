use super::{DeviceTable, RangeInfo, r, ri};
use super::{family_fixed_range, is_family_fixed_range};
use crate::protocol::ut61eplus::mode::Mode;
use crate::protocol::CaptureStep;
use crate::protocol::ut61eplus::capture::{ut202bt_capture_steps, ut202bt_steps};
use super::rungs::rung_reads_in_its_unit;
use crate::labels::{all_number_chars, ends_with};
use vstd::prelude::*;

verus! {

/// Device table for the UNI-T UT202BT, a 9,999-count clamp meter with Bluetooth built in and no dial. AC A is listed under both 0x11 and 0x16; the LPF and \u{00B0}C rows start above range byte 0, and the bytes below are gaps.
#[derive(Debug, Clone, Copy)]
pub struct Ut202btTable;

/// The UNI-T UT202BT's range table for each mode, in range-byte order.
pub open spec fn ut202bt_ranges(mode: Mode) -> Seq<RangeInfo> {
    match mode {
        Mode::DcV | Mode::AcV => seq![ri("9.999V", "V"), ri("99.99V", "V"), ri("600.0V", "V")],
        Mode::LpfV => seq![ri("", ""), ri("", ""), ri("600.0V", "V")],
        Mode::AcA | Mode::ClampAcA => seq![ri("9.999A", "A"), ri("99.99A", "A"), ri("600.0A", "A")],
        Mode::ClampLpfA => seq![ri("", ""), ri("", ""), ri("600.0A", "A")],
        Mode::Inrush => seq![ri("9.999A", "A"), ri("99.99A", "A"), ri("600.0A", "A")],
        Mode::Ohm => seq![ri("99.99\u{03A9}", "\u{03A9}"), ri("999.9\u{03A9}", "\u{03A9}"), ri("9.999k\u{03A9}", "k\u{03A9}"), ri("99.99k\u{03A9}", "k\u{03A9}"), ri("999.9k\u{03A9}", "k\u{03A9}"), ri("9.999M\u{03A9}", "M\u{03A9}"), ri("99.99M\u{03A9}", "M\u{03A9}")],
        Mode::Capacitance => seq![ri("99.99nF", "nF"), ri("999.9nF", "nF"), ri("9.999\u{00B5}F", "\u{00B5}F"), ri("99.99\u{00B5}F", "\u{00B5}F"), ri("999.9\u{00B5}F", "\u{00B5}F"), ri("9.999mF", "mF"), ri("99.9mF", "mF")],
        Mode::Hz => seq![ri("99.99Hz", "Hz"), ri("999.9Hz", "Hz"), ri("9.999kHz", "kHz"), ri("99.99kHz", "kHz"), ri("999.9kHz", "kHz"), ri("9.999MHz", "MHz")],
        Mode::Continuity => seq![ri("999.9\u{03A9}", "\u{03A9}"), ri("999.9\u{03A9}", "\u{03A9}")],
        Mode::TempC => seq![ri("", ""), ri("-40~1000\u{00B0}C", "\u{00B0}C")],
        Mode::TempF => seq![ri("-40~1832\u{00B0}F", "\u{00B0}F")],
        Mode::AcMv | Mode::DcMv | Mode::DutyCycle | Mode::Diode | Mode::DcUa | Mode::AcUa | Mode::DcMa | Mode::AcMa | Mode::DcA | Mode::Hfe | Mode::Live | Mode::Ncv | Mode::LozV | Mode::ClampDcA | Mode::AcDcV | Mode::LpfMv | Mode::AcDcMv | Mode::ClampAcDcA => seq![],
    }
}

impl Ut202btTable {
    /// The steps a guided capture walks on the meter: a list of its own, as
    /// it has no dial and colour-coded buttons.
    pub fn capture_steps(&self) -> (v: Vec<CaptureStep>)
        ensures
            v@ == ut202bt_steps(),
    {
        ut202bt_capture_steps()
    }

    /// The table.
    pub fn new() -> (t: Self)
        ensures
            t == Ut202btTable,
    {
        Ut202btTable
    }
}

impl Default for Ut202btTable {
    fn default() -> (t: Self)
        ensures
            t == Ut202btTable,
    {
        Ut202btTable
    }
}

impl DeviceTable for Ut202btTable {
    open spec fn spec_ranges(&self, mode: Mode) -> Seq<RangeInfo> {
        ut202bt_ranges(mode)
    }

    open spec fn spec_model_name(&self) -> &'static str {
        "UNI-T UT202BT"
    }

    open spec fn spec_modes(&self) -> Seq<Mode> {
        seq![Mode::AcV, Mode::DcV, Mode::Hz, Mode::Ohm, Mode::Continuity, Mode::Capacitance, Mode::TempC, Mode::TempF, Mode::AcA, Mode::Ncv, Mode::ClampAcA, Mode::LpfV, Mode::ClampLpfA, Mode::Inrush]
    }

    open spec fn spec_peak_modes(&self) -> Seq<Mode> {
        seq![Mode::AcV, Mode::AcA, Mode::ClampAcA]
    }

    open spec fn spec_dial_modes(&self) -> Seq<Mode> {
        seq![]
    }

    open spec fn spec_range_is_fixed(&self, mode: Mode) -> bool {
        family_fixed_range(mode)
    }

    open spec fn spec_commands(&self) -> Seq<&'static str> {
        seq!["hold", "range"]
    }

    fn ranges(&self, mode: Mode) -> (v: Vec<RangeInfo>) {
        match mode {
            Mode::DcV | Mode::AcV => vec![r("9.999V", "V"), r("99.99V", "V"), r("600.0V", "V")],
            Mode::LpfV => vec![r("", ""), r("", ""), r("600.0V", "V")],
            Mode::AcA | Mode::ClampAcA => vec![r("9.999A", "A"), r("99.99A", "A"), r("600.0A", "A")],
            Mode::ClampLpfA => vec![r("", ""), r("", ""), r("600.0A", "A")],
            Mode::Inrush => vec![r("9.999A", "A"), r("99.99A", "A"), r("600.0A", "A")],
            Mode::Ohm => vec![r("99.99\u{03A9}", "\u{03A9}"), r("999.9\u{03A9}", "\u{03A9}"), r("9.999k\u{03A9}", "k\u{03A9}"), r("99.99k\u{03A9}", "k\u{03A9}"), r("999.9k\u{03A9}", "k\u{03A9}"), r("9.999M\u{03A9}", "M\u{03A9}"), r("99.99M\u{03A9}", "M\u{03A9}")],
            Mode::Capacitance => vec![r("99.99nF", "nF"), r("999.9nF", "nF"), r("9.999\u{00B5}F", "\u{00B5}F"), r("99.99\u{00B5}F", "\u{00B5}F"), r("999.9\u{00B5}F", "\u{00B5}F"), r("9.999mF", "mF"), r("99.9mF", "mF")],
            Mode::Hz => vec![r("99.99Hz", "Hz"), r("999.9Hz", "Hz"), r("9.999kHz", "kHz"), r("99.99kHz", "kHz"), r("999.9kHz", "kHz"), r("9.999MHz", "MHz")],
            Mode::Continuity => vec![r("999.9\u{03A9}", "\u{03A9}"), r("999.9\u{03A9}", "\u{03A9}")],
            Mode::TempC => vec![r("", ""), r("-40~1000\u{00B0}C", "\u{00B0}C")],
            Mode::TempF => vec![r("-40~1832\u{00B0}F", "\u{00B0}F")],
            Mode::AcMv | Mode::DcMv | Mode::DutyCycle | Mode::Diode | Mode::DcUa | Mode::AcUa | Mode::DcMa | Mode::AcMa | Mode::DcA | Mode::Hfe | Mode::Live | Mode::Ncv | Mode::LozV | Mode::ClampDcA | Mode::AcDcV | Mode::LpfMv | Mode::AcDcMv | Mode::ClampAcDcA => vec![],
        }
    }

    fn model_name(&self) -> (s: &'static str) {
        "UNI-T UT202BT"
    }

    fn modes(&self) -> (v: Vec<Mode>) {
        vec![Mode::AcV, Mode::DcV, Mode::Hz, Mode::Ohm, Mode::Continuity, Mode::Capacitance, Mode::TempC, Mode::TempF, Mode::AcA, Mode::Ncv, Mode::ClampAcA, Mode::LpfV, Mode::ClampLpfA, Mode::Inrush]
    }

    fn peak_modes(&self) -> (v: Vec<Mode>) {
        vec![Mode::AcV, Mode::AcA, Mode::ClampAcA]
    }

    fn dial_modes(&self) -> (v: Vec<Mode>) {
        vec![]
    }

    fn range_is_fixed(&self, mode: Mode) -> (b: bool) {
        is_family_fixed_range(mode)
    }

    fn commands(&self) -> (v: Vec<&'static str>) {
        vec!["hold", "range"]
    }
}

/// Every numbered rung of this table is read in its own unit, but for
/// those [`super::rungs::rungs_read_in_their_unit`] sets apart.
pub proof fn lemma_ut202bt_rungs(mode: Mode, i: int)
    ensures
        0 <= i < ut202bt_ranges(mode).len() ==> rung_reads_in_its_unit(ut202bt_ranges(mode)[i]),
{
    reveal_strlit("");
    reveal_strlit("A");
    reveal_strlit("V");
    reveal_strlit("Hz");
    reveal_strlit("mF");
    reveal_strlit("nF");
    reveal_strlit("MHz");
    reveal_strlit("kHz");
    reveal_strlit("600.0A");
    reveal_strlit("600.0V");
    reveal_strlit("9.999A");
    reveal_strlit("9.999V");
    reveal_strlit("99.99A");
    reveal_strlit("99.99V");
    reveal_strlit("99.9mF");
    reveal_strlit("9.999mF");
    reveal_strlit("99.99Hz");
    reveal_strlit("99.99nF");
    reveal_strlit("999.9Hz");
    reveal_strlit("999.9nF");
    reveal_strlit("9.999MHz");
    reveal_strlit("9.999kHz");
    reveal_strlit("99.99kHz");
    reveal_strlit("999.9kHz");
    reveal_strlit("\u{03A9}");
    reveal_strlit("M\u{03A9}");
    reveal_strlit("\u{00B0}C");
    reveal_strlit("\u{00B0}F");
    reveal_strlit("\u{00B5}F");
    reveal_strlit("k\u{03A9}");
    reveal_strlit("99.99\u{03A9}");
    reveal_strlit("999.9\u{03A9}");
    reveal_strlit("9.999M\u{03A9}");
    reveal_strlit("9.999\u{00B5}F");
    reveal_strlit("9.999k\u{03A9}");
    reveal_strlit("99.99M\u{03A9}");
    reveal_strlit("99.99\u{00B5}F");
    reveal_strlit("99.99k\u{03A9}");
    reveal_strlit("999.9\u{00B5}F");
    reveal_strlit("999.9k\u{03A9}");
    reveal_strlit("-40~1000\u{00B0}C");
    reveal_strlit("-40~1832\u{00B0}F");
    reveal_with_fuel(ends_with, 4);
    reveal_with_fuel(all_number_chars, 7);
}

} // verus!
