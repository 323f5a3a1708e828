use super::{DeviceTable, RangeInfo, r, ri};
use super::{ac_peak_mode_list, ac_peak_modes, family_command_list, family_commands};
use super::{family_fixed_range, is_family_fixed_range};
use crate::protocol::ut61eplus::mode::Mode;
use super::rungs::rung_reads_in_its_unit;
use crate::labels::{all_number_chars, ends_with};
use vstd::prelude::*;

verus! {

/// Device table for the UNI-T UT61D+ (and UT161D), a 6,000-count model with temperature, LoZ V and Peak.
#[derive(Debug, Clone, Copy)]
pub struct Ut61dPlusTable;

/// The UNI-T UT61D+'s range table for each mode, in range-byte order.
pub open spec fn ut61d_plus_ranges(mode: Mode) -> Seq<RangeInfo> {
    match mode {
        Mode::DcV => seq![ri("60mV", "mV"), ri("600mV", "mV"), ri("6V", "V"), ri("60V", "V"), ri("600V", "V"), ri("1000V", "V")],
        Mode::AcV => seq![ri("60mV", "mV"), ri("600mV", "mV"), ri("6V", "V"), ri("60V", "V"), ri("600V", "V"), ri("750V", "V")],
        Mode::DcMv | Mode::AcMv => seq![ri("60mV", "mV"), ri("600mV", "mV")],
        Mode::Ohm => seq![ri("600\u{03A9}", "\u{03A9}"), ri("6k\u{03A9}", "k\u{03A9}"), ri("60k\u{03A9}", "k\u{03A9}"), ri("600k\u{03A9}", "k\u{03A9}"), ri("6M\u{03A9}", "M\u{03A9}"), ri("60M\u{03A9}", "M\u{03A9}")],
        Mode::Capacitance => seq![ri("60nF", "nF"), ri("600nF", "nF"), ri("6\u{00B5}F", "\u{00B5}F"), ri("60\u{00B5}F", "\u{00B5}F"), ri("600\u{00B5}F", "\u{00B5}F"), ri("6mF", "mF"), ri("60mF", "mF")],
        Mode::Hz => seq![ri("60Hz", "Hz"), ri("600Hz", "Hz"), ri("6kHz", "kHz"), ri("60kHz", "kHz"), ri("600kHz", "kHz")],
        Mode::DutyCycle => seq![ri("Duty", "%")],
        Mode::TempC => seq![ri("Temp", "\u{00B0}C")],
        Mode::TempF => seq![ri("Temp", "\u{00B0}F")],
        Mode::Diode => seq![ri("Diode", "V")],
        Mode::Continuity => seq![ri("Cont", "\u{03A9}")],
        Mode::DcUa | Mode::AcUa => seq![ri("600\u{00B5}A", "\u{00B5}A"), ri("6000\u{00B5}A", "\u{00B5}A")],
        Mode::DcMa | Mode::AcMa => seq![ri("60mA", "mA"), ri("600mA", "mA")],
        Mode::DcA | Mode::AcA => seq![ri("20A", "A"), ri("20A", "A")],
        Mode::LozV | Mode::ClampAcA => seq![ri("600V", "V"), ri("1000V", "V")],
        Mode::Hfe | Mode::Live | Mode::Ncv | Mode::ClampDcA | Mode::LpfV | Mode::AcDcV | Mode::LpfMv | Mode::AcDcMv | Mode::ClampLpfA | Mode::ClampAcDcA | Mode::Inrush => seq![],
    }
}

impl Ut61dPlusTable {
    /// The table.
    pub fn new() -> (t: Self)
        ensures
            t == Ut61dPlusTable,
    {
        Ut61dPlusTable
    }
}

impl Default for Ut61dPlusTable {
    fn default() -> (t: Self)
        ensures
            t == Ut61dPlusTable,
    {
        Ut61dPlusTable
    }
}

impl DeviceTable for Ut61dPlusTable {
    open spec fn spec_ranges(&self, mode: Mode) -> Seq<RangeInfo> {
        ut61d_plus_ranges(mode)
    }

    open spec fn spec_model_name(&self) -> &'static str {
        "UNI-T UT61D+"
    }

    open spec fn spec_modes(&self) -> Seq<Mode> {
        seq![]
    }

    open spec fn spec_peak_modes(&self) -> Seq<Mode> {
        ac_peak_modes()
    }

    /// The UT61D+ dial: AC and DC volts on one position, SELECT swapping
    /// them, with the Hz ring; mV DC and AC; \u{03A9} with continuity and diode;
    /// capacitance; temperature, SELECT swapping \u{00B0}C and \u{00B0}F; the three
    /// current positions DC and AC; Hz/%; LoZ, which reports either of its
    /// two mode bytes; and NCV. It has no hFE position.
    open spec fn spec_dial_modes(&self) -> Seq<Mode> {
        seq![Mode::Hz, Mode::DutyCycle, Mode::AcV, Mode::DcV, Mode::DcMv, Mode::AcMv, Mode::Ohm, Mode::Continuity, Mode::Diode, Mode::Capacitance, Mode::TempC, Mode::TempF, Mode::DcUa, Mode::AcUa, Mode::DcMa, Mode::AcMa, Mode::DcA, Mode::AcA, Mode::LozV, Mode::ClampAcA, Mode::Ncv]
    }

    open spec fn spec_range_is_fixed(&self, mode: Mode) -> bool {
        family_fixed_range(mode)
    }

    open spec fn spec_commands(&self) -> Seq<&'static str> {
        family_commands()
    }

    fn ranges(&self, mode: Mode) -> (v: Vec<RangeInfo>) {
        match mode {
            Mode::DcV => vec![r("60mV", "mV"), r("600mV", "mV"), r("6V", "V"), r("60V", "V"), r("600V", "V"), r("1000V", "V")],
            Mode::AcV => vec![r("60mV", "mV"), r("600mV", "mV"), r("6V", "V"), r("60V", "V"), r("600V", "V"), r("750V", "V")],
            Mode::DcMv | Mode::AcMv => vec![r("60mV", "mV"), r("600mV", "mV")],
            Mode::Ohm => vec![r("600\u{03A9}", "\u{03A9}"), r("6k\u{03A9}", "k\u{03A9}"), r("60k\u{03A9}", "k\u{03A9}"), r("600k\u{03A9}", "k\u{03A9}"), r("6M\u{03A9}", "M\u{03A9}"), r("60M\u{03A9}", "M\u{03A9}")],
            Mode::Capacitance => vec![r("60nF", "nF"), r("600nF", "nF"), r("6\u{00B5}F", "\u{00B5}F"), r("60\u{00B5}F", "\u{00B5}F"), r("600\u{00B5}F", "\u{00B5}F"), r("6mF", "mF"), r("60mF", "mF")],
            Mode::Hz => vec![r("60Hz", "Hz"), r("600Hz", "Hz"), r("6kHz", "kHz"), r("60kHz", "kHz"), r("600kHz", "kHz")],
            Mode::DutyCycle => vec![r("Duty", "%")],
            Mode::TempC => vec![r("Temp", "\u{00B0}C")],
            Mode::TempF => vec![r("Temp", "\u{00B0}F")],
            Mode::Diode => vec![r("Diode", "V")],
            Mode::Continuity => vec![r("Cont", "\u{03A9}")],
            Mode::DcUa | Mode::AcUa => vec![r("600\u{00B5}A", "\u{00B5}A"), r("6000\u{00B5}A", "\u{00B5}A")],
            Mode::DcMa | Mode::AcMa => vec![r("60mA", "mA"), r("600mA", "mA")],
            Mode::DcA | Mode::AcA => vec![r("20A", "A"), r("20A", "A")],
            Mode::LozV | Mode::ClampAcA => vec![r("600V", "V"), r("1000V", "V")],
            Mode::Hfe | Mode::Live | Mode::Ncv | Mode::ClampDcA | Mode::LpfV | Mode::AcDcV | Mode::LpfMv | Mode::AcDcMv | Mode::ClampLpfA | Mode::ClampAcDcA | Mode::Inrush => vec![],
        }
    }

    fn model_name(&self) -> (s: &'static str) {
        "UNI-T UT61D+"
    }

    fn modes(&self) -> (v: Vec<Mode>) {
        vec![]
    }

    fn peak_modes(&self) -> (v: Vec<Mode>) {
        ac_peak_mode_list()
    }

    fn dial_modes(&self) -> (v: Vec<Mode>) {
        vec![Mode::Hz, Mode::DutyCycle, Mode::AcV, Mode::DcV, Mode::DcMv, Mode::AcMv, Mode::Ohm, Mode::Continuity, Mode::Diode, Mode::Capacitance, Mode::TempC, Mode::TempF, Mode::DcUa, Mode::AcUa, Mode::DcMa, Mode::AcMa, Mode::DcA, Mode::AcA, Mode::LozV, Mode::ClampAcA, Mode::Ncv]
    }

    fn range_is_fixed(&self, mode: Mode) -> (b: bool) {
        is_family_fixed_range(mode)
    }

    fn commands(&self) -> (v: Vec<&'static str>) {
        family_command_list()
    }
}

/// Every numbered rung of this table is read in its own unit, but for
/// those [`super::rungs::rungs_read_in_their_unit`] sets apart.
pub proof fn lemma_ut61d_plus_rungs(mode: Mode, i: int)
    ensures
        0 <= i < ut61d_plus_ranges(mode).len() ==> rung_reads_in_its_unit(ut61d_plus_ranges(mode)[i]),
{
    reveal_strlit("");
    reveal_strlit("%");
    reveal_strlit("A");
    reveal_strlit("V");
    reveal_strlit("6V");
    reveal_strlit("Hz");
    reveal_strlit("mA");
    reveal_strlit("mF");
    reveal_strlit("mV");
    reveal_strlit("nF");
    reveal_strlit("20A");
    reveal_strlit("60V");
    reveal_strlit("6mF");
    reveal_strlit("kHz");
    reveal_strlit("600V");
    reveal_strlit("60Hz");
    reveal_strlit("60mA");
    reveal_strlit("60mF");
    reveal_strlit("60mV");
    reveal_strlit("60nF");
    reveal_strlit("6kHz");
    reveal_strlit("750V");
    reveal_strlit("Cont");
    reveal_strlit("Duty");
    reveal_strlit("Temp");
    reveal_strlit("1000V");
    reveal_strlit("600Hz");
    reveal_strlit("600mA");
    reveal_strlit("600mV");
    reveal_strlit("600nF");
    reveal_strlit("60kHz");
    reveal_strlit("Diode");
    reveal_strlit("600kHz");
    reveal_strlit("\u{03A9}");
    reveal_strlit("M\u{03A9}");
    reveal_strlit("\u{00B0}C");
    reveal_strlit("\u{00B0}F");
    reveal_strlit("\u{00B5}A");
    reveal_strlit("\u{00B5}F");
    reveal_strlit("k\u{03A9}");
    reveal_strlit("6M\u{03A9}");
    reveal_strlit("6\u{00B5}F");
    reveal_strlit("6k\u{03A9}");
    reveal_strlit("600\u{03A9}");
    reveal_strlit("60M\u{03A9}");
    reveal_strlit("60\u{00B5}F");
    reveal_strlit("60k\u{03A9}");
    reveal_strlit("600\u{00B5}A");
    reveal_strlit("600\u{00B5}F");
    reveal_strlit("600k\u{03A9}");
    reveal_strlit("6000\u{00B5}A");
    reveal_with_fuel(ends_with, 4);
    reveal_with_fuel(all_number_chars, 7);
}

} // verus!
