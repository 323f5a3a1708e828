use super::{DeviceTable, RangeInfo, r, ri};
use super::{ac_peak_mode_list, ac_peak_modes, family_command_list, family_commands};
use super::{family_fixed_range, is_family_fixed_range};
use crate::protocol::ut61eplus::mode::Mode;
use super::rungs::rung_reads_in_its_unit;
use crate::labels::{all_number_chars, ends_with};
use super::rungs::ut61e_plus_unsent_mv_rung;
use vstd::prelude::*;

verus! {

/// Device table for the UNI-T UT61E+ (22,000 counts).
#[derive(Debug, Clone, Copy)]
pub struct Ut61ePlusTable;

pub open spec fn e_dc_v() -> Seq<RangeInfo> {
    seq![ri("2.2V", "V"), ri("22V", "V"), ri("220V", "V"), ri("1000V", "V"), ri("220mV", "mV")]
}

pub open spec fn e_ac_v() -> Seq<RangeInfo> {
    seq![ri("2.2V", "V"), ri("22V", "V"), ri("220V", "V"), ri("750V", "V"), ri("220mV", "mV")]
}

pub open spec fn e_mv() -> Seq<RangeInfo> {
    seq![ri("220mV", "mV"), ri("2.2V", "mV")]
}

pub open spec fn e_ohm() -> Seq<RangeInfo> {
    seq![
        ri("220\u{03A9}", "\u{03A9}"),
        ri("2.2k\u{03A9}", "k\u{03A9}"),
        ri("22k\u{03A9}", "k\u{03A9}"),
        ri("220k\u{03A9}", "k\u{03A9}"),
        ri("2.2M\u{03A9}", "M\u{03A9}"),
        ri("22M\u{03A9}", "M\u{03A9}"),
        ri("220M\u{03A9}", "M\u{03A9}"),
    ]
}

pub open spec fn e_capacitance() -> Seq<RangeInfo> {
    seq![
        ri("22nF", "nF"),
        ri("220nF", "nF"),
        ri("2.2\u{00B5}F", "\u{00B5}F"),
        ri("22\u{00B5}F", "\u{00B5}F"),
        ri("220\u{00B5}F", "\u{00B5}F"),
        ri("2.2mF", "mF"),
        ri("22mF", "mF"),
        ri("220mF", "mF"),
    ]
}

pub open spec fn e_hz() -> Seq<RangeInfo> {
    seq![
        ri("22Hz", "Hz"),
        ri("220Hz", "Hz"),
        ri("2.2kHz", "kHz"),
        ri("22kHz", "kHz"),
        ri("220kHz", "kHz"),
    ]
}

pub open spec fn e_ua() -> Seq<RangeInfo> {
    seq![ri("220\u{00B5}A", "\u{00B5}A"), ri("2200\u{00B5}A", "\u{00B5}A")]
}

pub open spec fn e_ma() -> Seq<RangeInfo> {
    seq![ri("22mA", "mA"), ri("220mA", "mA")]
}

pub open spec fn e_a() -> Seq<RangeInfo> {
    seq![ri("20A", "A"), ri("20A", "A")]
}

/// The UT61E+'s range table for each mode. Derived modes share their base
/// mode's table.
pub open spec fn ut61e_plus_ranges(mode: Mode) -> Seq<RangeInfo> {
    match mode {
        Mode::DcV | Mode::AcDcV | Mode::LpfV | Mode::LozV => e_dc_v(),
        Mode::AcV => e_ac_v(),
        Mode::DcMv | Mode::AcMv | Mode::LpfMv | Mode::AcDcMv => e_mv(),
        Mode::Ohm => e_ohm(),
        Mode::Capacitance => e_capacitance(),
        Mode::Hz => e_hz(),
        Mode::DutyCycle => seq![ri("Duty", "%")],
        Mode::TempC => seq![ri("Temp", "\u{00B0}C")],
        Mode::TempF => seq![ri("Temp", "\u{00B0}F")],
        Mode::Diode => seq![ri("Diode", "V")],
        Mode::Continuity => seq![ri("Cont", "\u{03A9}")],
        Mode::DcUa | Mode::AcUa => e_ua(),
        Mode::DcMa | Mode::AcMa => e_ma(),
        Mode::DcA | Mode::AcA | Mode::ClampAcA | Mode::ClampDcA | Mode::ClampLpfA
        | Mode::ClampAcDcA => e_a(),
        Mode::Hfe => seq![ri("1000\u{03B2}", "\u{03B2}")],
        Mode::Ncv | Mode::Live | Mode::Inrush => seq![],
    }
}

impl Ut61ePlusTable {
    /// The table.
    pub fn new() -> (t: Self)
        ensures
            t == Ut61ePlusTable,
    {
        Ut61ePlusTable
    }
}

impl Default for Ut61ePlusTable {
    fn default() -> (t: Self)
        ensures
            t == Ut61ePlusTable,
    {
        Ut61ePlusTable
    }
}

impl DeviceTable for Ut61ePlusTable {
    open spec fn spec_ranges(&self, mode: Mode) -> Seq<RangeInfo> {
        ut61e_plus_ranges(mode)
    }

    open spec fn spec_model_name(&self) -> &'static str {
        "UNI-T UT61E+"
    }

    open spec fn spec_modes(&self) -> Seq<Mode> {
        seq![]
    }

    open spec fn spec_peak_modes(&self) -> Seq<Mode> {
        ac_peak_modes()
    }

    /// The UT61E+ dial: V~ with its SELECT ring to LPF V and its Hz ring,
    /// V\u{23CF} with AC+DC V, mV DC and AC, \u{03A9} with continuity and diode,
    /// capacitance, hFE, the three current positions DC and AC, Hz/%, and NCV.
    /// It has no temperature, LoZ or clamp position, nor the LPF and AC+DC
    /// variants of mV and A.
    open spec fn spec_dial_modes(&self) -> Seq<Mode> {
        seq![Mode::Hz, Mode::DutyCycle, Mode::AcV, Mode::LpfV, Mode::DcV, Mode::AcDcV, Mode::DcMv, Mode::AcMv, Mode::Ohm, Mode::Continuity, Mode::Diode, Mode::Capacitance, Mode::Hfe, Mode::DcUa, Mode::AcUa, Mode::DcMa, Mode::AcMa, Mode::DcA, Mode::AcA, Mode::Ncv]
    }

    open spec fn spec_range_is_fixed(&self, mode: Mode) -> bool {
        family_fixed_range(mode)
    }

    open spec fn spec_commands(&self) -> Seq<&'static str> {
        family_commands()
    }

    fn ranges(&self, mode: Mode) -> (v: Vec<RangeInfo>) {
        match mode {
            Mode::DcV | Mode::AcDcV | Mode::LpfV | Mode::LozV => vec![
                r("2.2V", "V"),
                r("22V", "V"),
                r("220V", "V"),
                r("1000V", "V"),
                r("220mV", "mV"),
            ],
            Mode::AcV => vec![
                r("2.2V", "V"),
                r("22V", "V"),
                r("220V", "V"),
                r("750V", "V"),
                r("220mV", "mV"),
            ],
            Mode::DcMv | Mode::AcMv | Mode::LpfMv | Mode::AcDcMv => vec![
                r("220mV", "mV"),
                r("2.2V", "mV"),
            ],
            Mode::Ohm => vec![
                r("220\u{03A9}", "\u{03A9}"),
                r("2.2k\u{03A9}", "k\u{03A9}"),
                r("22k\u{03A9}", "k\u{03A9}"),
                r("220k\u{03A9}", "k\u{03A9}"),
                r("2.2M\u{03A9}", "M\u{03A9}"),
                r("22M\u{03A9}", "M\u{03A9}"),
                r("220M\u{03A9}", "M\u{03A9}"),
            ],
            Mode::Capacitance => vec![
                r("22nF", "nF"),
                r("220nF", "nF"),
                r("2.2\u{00B5}F", "\u{00B5}F"),
                r("22\u{00B5}F", "\u{00B5}F"),
                r("220\u{00B5}F", "\u{00B5}F"),
                r("2.2mF", "mF"),
                r("22mF", "mF"),
                r("220mF", "mF"),
            ],
            Mode::Hz => vec![
                r("22Hz", "Hz"),
                r("220Hz", "Hz"),
                r("2.2kHz", "kHz"),
                r("22kHz", "kHz"),
                r("220kHz", "kHz"),
            ],
            Mode::DutyCycle => vec![r("Duty", "%")],
            Mode::TempC => vec![r("Temp", "\u{00B0}C")],
            Mode::TempF => vec![r("Temp", "\u{00B0}F")],
            Mode::Diode => vec![r("Diode", "V")],
            Mode::Continuity => vec![r("Cont", "\u{03A9}")],
            Mode::DcUa | Mode::AcUa => vec![
                r("220\u{00B5}A", "\u{00B5}A"),
                r("2200\u{00B5}A", "\u{00B5}A"),
            ],
            Mode::DcMa | Mode::AcMa => vec![r("22mA", "mA"), r("220mA", "mA")],
            // Range 0x00 of DC A is a placeholder; 0x01 is the verified 20A.
            Mode::DcA | Mode::AcA | Mode::ClampAcA | Mode::ClampDcA | Mode::ClampLpfA
            | Mode::ClampAcDcA => vec![r("20A", "A"), r("20A", "A")],
            Mode::Hfe => vec![r("1000\u{03B2}", "\u{03B2}")],
            Mode::Ncv | Mode::Live | Mode::Inrush => vec![],
        }
    }

    fn model_name(&self) -> (s: &'static str) {
        "UNI-T UT61E+"
    }

    fn modes(&self) -> (v: Vec<Mode>) {
        vec![]
    }

    fn peak_modes(&self) -> (v: Vec<Mode>) {
        ac_peak_mode_list()
    }

    fn dial_modes(&self) -> (v: Vec<Mode>) {
        vec![Mode::Hz, Mode::DutyCycle, Mode::AcV, Mode::LpfV, Mode::DcV, Mode::AcDcV, Mode::DcMv, Mode::AcMv, Mode::Ohm, Mode::Continuity, Mode::Diode, Mode::Capacitance, Mode::Hfe, Mode::DcUa, Mode::AcUa, Mode::DcMa, Mode::AcMa, Mode::DcA, Mode::AcA, Mode::Ncv]
    }

    fn range_is_fixed(&self, mode: Mode) -> (b: bool) {
        is_family_fixed_range(mode)
    }

    fn commands(&self) -> (v: Vec<&'static str>) {
        family_command_list()
    }
}

/// Every numbered rung of this table is read in its own unit, but for
/// those [`super::rungs::rungs_read_in_their_unit`] sets apart.
pub proof fn lemma_ut61e_plus_rungs(mode: Mode, i: int)
    ensures
        0 <= i < ut61e_plus_ranges(mode).len() && !ut61e_plus_unsent_mv_rung(mode, i) ==> rung_reads_in_its_unit(ut61e_plus_ranges(mode)[i]),
{
    reveal_strlit("");
    reveal_strlit("%");
    reveal_strlit("A");
    reveal_strlit("V");
    reveal_strlit("Hz");
    reveal_strlit("mA");
    reveal_strlit("mF");
    reveal_strlit("mV");
    reveal_strlit("nF");
    reveal_strlit("20A");
    reveal_strlit("22V");
    reveal_strlit("kHz");
    reveal_strlit("2.2V");
    reveal_strlit("220V");
    reveal_strlit("22Hz");
    reveal_strlit("22mA");
    reveal_strlit("22mF");
    reveal_strlit("22nF");
    reveal_strlit("750V");
    reveal_strlit("Cont");
    reveal_strlit("Duty");
    reveal_strlit("Temp");
    reveal_strlit("1000V");
    reveal_strlit("2.2mF");
    reveal_strlit("220Hz");
    reveal_strlit("220mA");
    reveal_strlit("220mF");
    reveal_strlit("220mV");
    reveal_strlit("220nF");
    reveal_strlit("22kHz");
    reveal_strlit("Diode");
    reveal_strlit("2.2kHz");
    reveal_strlit("220kHz");
    reveal_strlit("\u{03A9}");
    reveal_strlit("\u{03B2}");
    reveal_strlit("M\u{03A9}");
    reveal_strlit("\u{00B0}C");
    reveal_strlit("\u{00B0}F");
    reveal_strlit("\u{00B5}A");
    reveal_strlit("\u{00B5}F");
    reveal_strlit("k\u{03A9}");
    reveal_strlit("220\u{03A9}");
    reveal_strlit("22M\u{03A9}");
    reveal_strlit("22\u{00B5}F");
    reveal_strlit("22k\u{03A9}");
    reveal_strlit("1000\u{03B2}");
    reveal_strlit("2.2M\u{03A9}");
    reveal_strlit("2.2\u{00B5}F");
    reveal_strlit("2.2k\u{03A9}");
    reveal_strlit("220M\u{03A9}");
    reveal_strlit("220\u{00B5}A");
    reveal_strlit("220\u{00B5}F");
    reveal_strlit("220k\u{03A9}");
    reveal_strlit("2200\u{00B5}A");
    reveal_with_fuel(ends_with, 4);
    reveal_with_fuel(all_number_chars, 7);
}

} // verus!
