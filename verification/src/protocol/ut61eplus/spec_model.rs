//! Which manual table, and which of its rows, a UT61E+ reading takes its
//! specifications from.
use super::mode::{Mode, mode_of_byte};
use super::sheets::Ut61ePlusSheet;
use crate::measurement::Measurement;
use super::tables::{DeviceTable, lookup_range};
use super::tables::ut61e_plus::Ut61ePlusTable;
use super::tables::ut61e_plus::ut61e_plus_ranges;
use crate::specs::{find_row, row_from, row_of};
use super::mode::mode_label;
use crate::labels::{ends_with, starts_ac, starts_dc};
use vstd::prelude::*;

verus! {

/// The UT61E+ table for a reading in `mode`. The manual has none for NCV
/// and temperature, nor for the modes off the UT61E+ dial (LoZ, and the LPF
/// and AC+DC variants of mV and A). Hz and Duty % send the same mode byte
/// from every dial position, so they take the Hz/% position's table.
pub open spec fn ut61e_plus_sheet_of(mode: Mode) -> Option<Ut61ePlusSheet> {
    match mode {
        Mode::DcMv => Some(Ut61ePlusSheet::DcMv),
        Mode::DcV => Some(Ut61ePlusSheet::DcV),
        Mode::AcMv => Some(Ut61ePlusSheet::AcMv),
        Mode::AcV => Some(Ut61ePlusSheet::AcV),
        Mode::LpfV => Some(Ut61ePlusSheet::LpfV),
        Mode::AcDcV => Some(Ut61ePlusSheet::AcdcV),
        Mode::Ohm => Some(Ut61ePlusSheet::Resistance),
        Mode::Continuity => Some(Ut61ePlusSheet::Continuity),
        Mode::Diode => Some(Ut61ePlusSheet::Diode),
        Mode::Hfe => Some(Ut61ePlusSheet::Transistor),
        Mode::Capacitance => Some(Ut61ePlusSheet::Capacitance),
        Mode::DcUa => Some(Ut61ePlusSheet::DcUa),
        Mode::DcMa => Some(Ut61ePlusSheet::DcMa),
        Mode::DcA => Some(Ut61ePlusSheet::DcA),
        Mode::AcUa => Some(Ut61ePlusSheet::AcUa),
        Mode::AcMa => Some(Ut61ePlusSheet::AcMa),
        Mode::AcA => Some(Ut61ePlusSheet::AcA),
        Mode::Hz => Some(Ut61ePlusSheet::Frequency),
        Mode::DutyCycle => Some(Ut61ePlusSheet::Duty),
        _ => None,
    }
}

/// The UT61E+ table for a reading in `mode`, as [`ut61e_plus_sheet_of`]
/// says.
pub fn ut61e_plus_table(mode: Mode) -> (r: Option<Ut61ePlusSheet>)
    ensures
        r == ut61e_plus_sheet_of(mode),
{
    match mode {
        Mode::DcMv => Some(Ut61ePlusSheet::DcMv),
        Mode::DcV => Some(Ut61ePlusSheet::DcV),
        Mode::AcMv => Some(Ut61ePlusSheet::AcMv),
        Mode::AcV => Some(Ut61ePlusSheet::AcV),
        Mode::LpfV => Some(Ut61ePlusSheet::LpfV),
        Mode::AcDcV => Some(Ut61ePlusSheet::AcdcV),
        Mode::Ohm => Some(Ut61ePlusSheet::Resistance),
        Mode::Continuity => Some(Ut61ePlusSheet::Continuity),
        Mode::Diode => Some(Ut61ePlusSheet::Diode),
        Mode::Hfe => Some(Ut61ePlusSheet::Transistor),
        Mode::Capacitance => Some(Ut61ePlusSheet::Capacitance),
        Mode::DcUa => Some(Ut61ePlusSheet::DcUa),
        Mode::DcMa => Some(Ut61ePlusSheet::DcMa),
        Mode::DcA => Some(Ut61ePlusSheet::DcA),
        Mode::AcUa => Some(Ut61ePlusSheet::AcUa),
        Mode::AcMa => Some(Ut61ePlusSheet::AcMa),
        Mode::AcA => Some(Ut61ePlusSheet::AcA),
        Mode::Hz => Some(Ut61ePlusSheet::Frequency),
        Mode::DutyCycle => Some(Ut61ePlusSheet::Duty),
        _ => None,
    }
}

/// Every UT61E+ reading takes the manual table of its own quantity and
/// coupling: an AC mode's table is an AC one and a DC mode's a DC one (AC
/// µA takes "AC Current", DC µA "DC Current"), and each row the table has
/// for a range byte is written in the unit the meter's range table gives
/// that byte ("220µA" on a µA rung, never on a mA one); a row for no
/// particular range byte is written in the unit of the mode's first rung, or
/// is the mode itself ("Continuity"). Every mode on the dial but NCV has
/// a table.
pub proof fn ut61e_plus_readings_take_their_own_table(mode: Mode)
    ensures
        Ut61ePlusTable.spec_dial_modes().contains(mode) && mode != Mode::Ncv ==> ut61e_plus_sheet_of(
            mode,
        ) is Some,
        ut61e_plus_sheet_of(mode) matches Some(t) ==> {
            &&& (starts_ac(mode_label(mode)@) ==> starts_ac(t.spec_name()@))
            &&& (starts_dc(mode_label(mode)@) ==> starts_dc(t.spec_name()@))
            &&& forall|i: int|
                0 <= i < t.spec_rows().len() ==> ((#[trigger] t.spec_rows()[i]).range matches Some(r) ==> (r
                    < ut61e_plus_ranges(mode).len() ==> ends_with(
                    t.spec_rows()[i].label@,
                    ut61e_plus_ranges(mode)[r as int].unit@,
                )))
            &&& forall|i: int|
                0 <= i < t.spec_rows().len() && (#[trigger] t.spec_rows()[i]).range is None
                    && ut61e_plus_ranges(mode).len() > 0 ==> ends_with(
                    t.spec_rows()[i].label@,
                    ut61e_plus_ranges(mode)[0].unit@,
                ) || t.spec_rows()[i].label@ =~= mode_label(mode)@
        },
{
    reveal_strlit("");
    reveal_strlit("%");
    reveal_strlit("A");
    reveal_strlit("V");
    reveal_strlit("Hz");
    reveal_strlit("mA");
    reveal_strlit("mF");
    reveal_strlit("mV");
    reveal_strlit("nF");
    reveal_strlit("20A");
    reveal_strlit("NCV");
    reveal_strlit("hFE");
    reveal_strlit("kHz");
    reveal_strlit("22mA");
    reveal_strlit("AC A");
    reveal_strlit("AC V");
    reveal_strlit("DC A");
    reveal_strlit("DC V");
    reveal_strlit("Live");
    reveal_strlit("1000β");
    reveal_strlit("220mA");
    reveal_strlit("220µA");
    reveal_strlit("AC mA");
    reveal_strlit("AC mV");
    reveal_strlit("DC mA");
    reveal_strlit("DC mV");
    reveal_strlit("Diode");
    reveal_strlit("LPF V");
    reveal_strlit("LoZ V");
    reveal_strlit("2200µA");
    reveal_strlit("Duty %");
    reveal_strlit("Inrush");
    reveal_strlit("LPF mV");
    reveal_strlit("1000.0V");
    reveal_strlit("2.2000V");
    reveal_strlit("20.000A");
    reveal_strlit("22.000V");
    reveal_strlit("220.00V");
    reveal_strlit("220.00Ω");
    reveal_strlit("AC+DC V");
    reveal_strlit("2.2000MΩ");
    reveal_strlit("2.2000kΩ");
    reveal_strlit("2.2000mF");
    reveal_strlit("2.2000µF");
    reveal_strlit("22.000MΩ");
    reveal_strlit("22.000kΩ");
    reveal_strlit("22.000mA");
    reveal_strlit("22.000mF");
    reveal_strlit("22.000nF");
    reveal_strlit("22.000µF");
    reveal_strlit("220.00MΩ");
    reveal_strlit("220.00kΩ");
    reveal_strlit("220.00mA");
    reveal_strlit("220.00mF");
    reveal_strlit("220.00mV");
    reveal_strlit("220.00nF");
    reveal_strlit("220.00µA");
    reveal_strlit("220.00µF");
    reveal_strlit("2200.0µA");
    reveal_strlit("AC+DC mV");
    reveal_strlit("\u{03A9}");
    reveal_strlit("\u{03B2}");
    reveal_strlit("M\u{03A9}");
    reveal_strlit("\u{00B0}C");
    reveal_strlit("\u{00B0}F");
    reveal_strlit("\u{00B5}A");
    reveal_strlit("\u{00B5}F");
    reveal_strlit("k\u{03A9}");
    reveal_strlit("0.1%~99.9%");
    reveal_strlit("AC Current");
    reveal_strlit("AC Voltage");
    reveal_strlit("Clamp AC A");
    reveal_strlit("Clamp DC A");
    reveal_strlit("Continuity");
    reveal_strlit("DC Current");
    reveal_strlit("DC Voltage");
    reveal_strlit("Resistance");
    reveal_strlit("10Hz~220MHz");
    reveal_strlit("Capacitance");
    reveal_strlit("Clamp LPF A");
    reveal_strlit("AC \u{00B5}A");
    reveal_strlit("DC \u{00B5}A");
    reveal_strlit("AC+DC Voltage");
    reveal_strlit("Clamp AC+DC A");
    reveal_strlit("Continuity and Diode");
    reveal_strlit("Frequency/Duty Ratio");
    reveal_strlit("Transistor Magnification");
    reveal_with_fuel(ends_with, 4);
}

/// Which model's column of the manual a reading takes its specs from.
#[derive(Debug, Clone, Copy, PartialEq, Eq, Structural)]
pub enum SpecModel {
    Ut61ePlus,
}

impl SpecModel {
    /// The table for a reading whose mode byte was `mode_raw`: the one its
    /// mode takes, and none for a byte that names no mode.
    pub open spec fn spec_table_of(self, mode_raw: u16) -> Option<Ut61ePlusSheet> {
        if mode_raw < 256 {
            match mode_of_byte(mode_raw as u8) {
                Some(mode) => ut61e_plus_sheet_of(mode),
                None => None,
            }
        } else {
            None
        }
    }

    /// The row a reading with these mode and range bytes takes: its table
    /// and the row's index there.
    pub open spec fn spec_row_of(self, mode_raw: u16, range_raw: u8) -> Option<(Ut61ePlusSheet, int)> {
        match self.spec_table_of(mode_raw) {
            Some(t) => match row_of(t.spec_rows(), range_raw) {
                Some(i) => Some((t, i)),
                None => None,
            },
            None => None,
        }
    }

    /// Every table of the model, in manual order.
    pub fn tables(self) -> (r: Vec<Ut61ePlusSheet>)
        ensures
            r@ == seq![
                Ut61ePlusSheet::DcMv,
                Ut61ePlusSheet::DcV,
                Ut61ePlusSheet::AcMv,
                Ut61ePlusSheet::AcV,
                Ut61ePlusSheet::LpfV,
                Ut61ePlusSheet::AcdcV,
                Ut61ePlusSheet::Resistance,
                Ut61ePlusSheet::Continuity,
                Ut61ePlusSheet::Diode,
                Ut61ePlusSheet::Transistor,
                Ut61ePlusSheet::Capacitance,
                Ut61ePlusSheet::DcUa,
                Ut61ePlusSheet::DcMa,
                Ut61ePlusSheet::DcA,
                Ut61ePlusSheet::AcUa,
                Ut61ePlusSheet::AcMa,
                Ut61ePlusSheet::AcA,
                Ut61ePlusSheet::Frequency,
                Ut61ePlusSheet::Duty,
            ],
    {
        Ut61ePlusSheet::all()
    }

    /// The manual table for reading `m`, which its mode byte picks.
    pub fn table(self, m: &Measurement) -> (r: Option<Ut61ePlusSheet>)
        ensures
            r == self.spec_table_of(m.mode_raw),
    {
        if m.mode_raw >= 256 {
            return None;
        }
        match Mode::from_byte(m.mode_raw as u8) {
            Ok(mode) => ut61e_plus_table(mode),
            Err(_) => None,
        }
    }

    /// The manual row reading `m` takes, which its range byte picks in its
    /// table, as the table and the row's index there.
    pub fn row(self, m: &Measurement) -> (r: Option<(Ut61ePlusSheet, usize)>)
        ensures
            match self.spec_row_of(m.mode_raw, m.range_raw) {
                Some((t, i)) => r == Some((t, i as usize)),
                None => r is None,
            },
    {
        match self.table(m) {
            Some(t) => {
                let rows = t.rows();
                match find_row(&rows, m.range_raw) {
                    Some(i) => Some((t, i)),
                    None => None,
                }
            },
            None => None,
        }
    }
}

/// The UT61E+ readings whose range byte the meter's range table knows but
/// whose table has no row for it: range byte 1 of DC and AC mV, which the
/// meter never sends (its mV position is fixed at 220mV), and range byte 4
/// of the volt modes, 220mV, which the manual prints under mV only.
pub open spec fn ut61e_plus_mode_spec_only(mode: Mode, range: u8) -> bool {
    ||| (mode == Mode::DcMv || mode == Mode::AcMv) && range == 1
    ||| (mode == Mode::DcV || mode == Mode::AcV || mode == Mode::LpfV || mode == Mode::AcDcV)
        && range == 4
}

/// Every UT61E+ reading in a mode the manual gives a table, on a range
/// byte the meter's range table knows, takes a row of it, but for those
/// [`ut61e_plus_mode_spec_only`] lists, which take the table's mode data
/// only. NCV has no table.
pub proof fn ut61e_plus_readings_have_a_spec_or_are_listed(mode: Mode, range: u8)
    requires
        lookup_range(ut61e_plus_ranges(mode), range) is Some,
        ut61e_plus_sheet_of(mode) is Some,
    ensures
        ut61e_plus_mode_spec_only(mode, range) <==> row_of(
            ut61e_plus_sheet_of(mode)->0.spec_rows(),
            range,
        ) is None,
        ut61e_plus_sheet_of(Mode::Ncv) is None,
{
    reveal_with_fuel(row_from, 9);
    assert(range < 16);
    match mode {
        Mode::DcMv => {},
        Mode::DcV => {},
        Mode::AcMv => {},
        Mode::AcV => {},
        Mode::LpfV => {},
        Mode::AcDcV => {},
        Mode::Ohm => {},
        Mode::Continuity => {},
        Mode::Diode => {},
        Mode::Hfe => {},
        Mode::Capacitance => {},
        Mode::DcUa => {},
        Mode::DcMa => {},
        Mode::DcA => {},
        Mode::AcUa => {},
        Mode::AcMa => {},
        Mode::AcA => {},
        Mode::Hz => {},
        Mode::DutyCycle => {},
        _ => {},
    }
}

} // verus!
