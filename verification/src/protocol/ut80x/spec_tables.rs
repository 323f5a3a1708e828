//! Which manual table, and which of its rows, a UT803 or UT804 reading
//! takes its specifications from.
use super::fields::{Ut803Fields, Ut804Fields, ut803_coupling, ut804_coupling};
use super::model::{Model, ut803_info, ut803_mode_info, ut804_dc_by_default, ut804_info, ut804_mode_info};
use super::packet::{Coupling, whole_packet};
use super::sheets::{Ut803Sheet, Ut804Sheet};
use crate::specs::{AccuracyBand, ModeSpecInfo, RangeSpec, row_from, row_of};
use crate::labels::{all_number_chars, ends_with, leading_digits, number_then_unit};
use crate::text::is_digit;
use vstd::prelude::*;

verus! {

/// A table of either model's manual.
#[derive(Debug, Clone, Copy, PartialEq, Eq, Structural)]
pub enum SpecSheet {
    Ut803(Ut803Sheet),
    Ut804(Ut804Sheet),
}

impl SpecSheet {
    /// The table's heading.
    pub open spec fn spec_name(self) -> &'static str {
        match self {
            SpecSheet::Ut803(t) => t.spec_name(),
            SpecSheet::Ut804(t) => t.spec_name(),
        }
    }

    /// Its rows, in manual order.
    pub open spec fn spec_rows(self) -> Seq<RangeSpec> {
        match self {
            SpecSheet::Ut803(t) => t.spec_rows(),
            SpecSheet::Ut804(t) => t.spec_rows(),
        }
    }

    /// The accuracy figures of row `row`.
    pub open spec fn spec_bands(self, row: int) -> Seq<AccuracyBand> {
        match self {
            SpecSheet::Ut803(t) => t.spec_bands(row),
            SpecSheet::Ut804(t) => t.spec_bands(row),
        }
    }

    /// What it says of the whole mode.
    pub open spec fn spec_mode(self) -> ModeSpecInfo {
        match self {
            SpecSheet::Ut803(t) => t.spec_mode(),
            SpecSheet::Ut804(t) => t.spec_mode(),
        }
    }

    /// Its remarks.
    pub open spec fn spec_notes(self) -> Seq<&'static str> {
        match self {
            SpecSheet::Ut803(t) => t.spec_notes(),
            SpecSheet::Ut804(t) => t.spec_notes(),
        }
    }

    /// The table's heading.
    pub fn name(&self) -> (r: &'static str)
        ensures
            r == self.spec_name(),
    {
        match self {
            SpecSheet::Ut803(t) => t.name(),
            SpecSheet::Ut804(t) => t.name(),
        }
    }

    /// Its rows, in manual order.
    pub fn rows(&self) -> (r: Vec<RangeSpec>)
        ensures
            r@ == self.spec_rows(),
    {
        match self {
            SpecSheet::Ut803(t) => t.rows(),
            SpecSheet::Ut804(t) => t.rows(),
        }
    }

    /// The accuracy figures of row `row`.
    pub fn bands(&self, row: usize) -> (r: Vec<AccuracyBand>)
        ensures
            r@ == self.spec_bands(row as int),
    {
        match self {
            SpecSheet::Ut803(t) => t.bands(row),
            SpecSheet::Ut804(t) => t.bands(row),
        }
    }

    /// What it says of the whole mode.
    pub fn mode_info(&self) -> (r: ModeSpecInfo)
        ensures
            r == self.spec_mode(),
    {
        match self {
            SpecSheet::Ut803(t) => t.mode_info(),
            SpecSheet::Ut804(t) => t.mode_info(),
        }
    }

    /// Its remarks.
    pub fn notes(&self) -> (r: Vec<&'static str>)
        ensures
            r@ == self.spec_notes(),
    {
        match self {
            SpecSheet::Ut803(t) => t.notes(),
            SpecSheet::Ut804(t) => t.notes(),
        }
    }
}

/// Whether a coupling is AC or AC+DC.
pub open spec fn ac_side(c: Option<Coupling>) -> bool {
    c == Some(Coupling::Ac) || c == Some(Coupling::AcDc)
}

/// The UT804 table for a reading with mode code `mode`, coupling
/// `coupling` and, in frequency mode, the duty-cycle display `duty`. The
/// manual has none for power (mode 0xE) or for AC or AC+DC millivolts.
pub open spec fn ut804_sheet_of(mode: u8, coupling: Option<Coupling>, duty: bool) -> Option<Ut804Sheet> {
    let dc = coupling == Some(Coupling::Dc);
    let ac = ac_side(coupling);
    if mode == 0xC && duty {
        Some(Ut804Sheet::Duty)
    } else if (mode == 0x1 || mode == 0x2) && dc {
        Some(Ut804Sheet::DcV)
    } else if (mode == 0x1 || mode == 0x2) && ac {
        Some(Ut804Sheet::AcV)
    } else if mode == 0x3 && dc {
        Some(Ut804Sheet::DcMv)
    } else if mode == 0x7 && dc {
        Some(Ut804Sheet::DcUa)
    } else if mode == 0x8 && dc {
        Some(Ut804Sheet::DcMa)
    } else if mode == 0x9 && dc {
        Some(Ut804Sheet::DcA)
    } else if mode == 0x7 && ac {
        Some(Ut804Sheet::AcUa)
    } else if mode == 0x8 && ac {
        Some(Ut804Sheet::AcMa)
    } else if mode == 0x9 && ac {
        Some(Ut804Sheet::AcA)
    } else if mode == 0x4 {
        Some(Ut804Sheet::Resistance)
    } else if mode == 0xA {
        Some(Ut804Sheet::Continuity)
    } else if mode == 0xB {
        Some(Ut804Sheet::Diode)
    } else if mode == 0x5 {
        Some(Ut804Sheet::Capacitance)
    } else if mode == 0xC {
        Some(Ut804Sheet::Frequency)
    } else if mode == 0x6 {
        Some(Ut804Sheet::TempC)
    } else if mode == 0xD {
        Some(Ut804Sheet::TempF)
    } else if mode == 0xF {
        Some(Ut804Sheet::LoopCurrent)
    } else {
        None
    }
}

/// Whether a coupling is DC, and whether it is AC or AC+DC.
fn coupling_sides(c: Option<Coupling>) -> (r: (bool, bool))
    ensures
        r == (c == Some(Coupling::Dc), ac_side(c)),
{
    match c {
        Some(Coupling::Dc) => (true, false),
        Some(Coupling::Ac) | Some(Coupling::AcDc) => (false, true),
        None => (false, false),
    }
}

/// The UT804 table for a reading, as [`ut804_sheet_of`] says.
pub fn ut804_spec_table(mode: u8, coupling: Option<Coupling>, duty: bool) -> (r: Option<Ut804Sheet>)
    ensures
        r == ut804_sheet_of(mode, coupling, duty),
{
    let (dc, ac) = coupling_sides(coupling);
    if mode == 0xC && duty {
        Some(Ut804Sheet::Duty)
    } else if (mode == 0x1 || mode == 0x2) && dc {
        Some(Ut804Sheet::DcV)
    } else if (mode == 0x1 || mode == 0x2) && ac {
        Some(Ut804Sheet::AcV)
    } else if mode == 0x3 && dc {
        Some(Ut804Sheet::DcMv)
    } else if mode == 0x7 && dc {
        Some(Ut804Sheet::DcUa)
    } else if mode == 0x8 && dc {
        Some(Ut804Sheet::DcMa)
    } else if mode == 0x9 && dc {
        Some(Ut804Sheet::DcA)
    } else if mode == 0x7 && ac {
        Some(Ut804Sheet::AcUa)
    } else if mode == 0x8 && ac {
        Some(Ut804Sheet::AcMa)
    } else if mode == 0x9 && ac {
        Some(Ut804Sheet::AcA)
    } else if mode == 0x4 {
        Some(Ut804Sheet::Resistance)
    } else if mode == 0xA {
        Some(Ut804Sheet::Continuity)
    } else if mode == 0xB {
        Some(Ut804Sheet::Diode)
    } else if mode == 0x5 {
        Some(Ut804Sheet::Capacitance)
    } else if mode == 0xC {
        Some(Ut804Sheet::Frequency)
    } else if mode == 0x6 {
        Some(Ut804Sheet::TempC)
    } else if mode == 0xD {
        Some(Ut804Sheet::TempF)
    } else if mode == 0xF {
        Some(Ut804Sheet::LoopCurrent)
    } else {
        None
    }
}

/// Whether a UT804 reading with this coupling takes its row's accuracy. An
/// AC+DC reading takes its AC table's mode data only: the remarks add a
/// figure to the row's accuracy whose sum the manual does not print.
pub fn ut804_has_rows(coupling: Option<Coupling>) -> (b: bool)
    ensures
        b == (coupling != Some(Coupling::AcDc)),
{
    match coupling {
        Some(Coupling::AcDc) => false,
        _ => true,
    }
}

/// The UT803 table for a reading with mode code `mode`, range byte `range`,
/// alt bit `alt` and coupling `coupling`. Range 4 of the volts is their
/// millivolt row; the alt bit makes frequency the tachometer, which has no
/// table, and temperature °C.
pub open spec fn ut803_sheet_of(mode: u8, range: u8, alt: bool, coupling: Option<Coupling>) -> Option<Ut803Sheet> {
    let dc = coupling == Some(Coupling::Dc);
    let ac = coupling == Some(Coupling::Ac);
    if mode == 0xB && dc && range == 4 {
        Some(Ut803Sheet::DcMv)
    } else if mode == 0xB && dc {
        Some(Ut803Sheet::DcV)
    } else if mode == 0xB && ac && range == 4 {
        Some(Ut803Sheet::AcMv)
    } else if mode == 0xB && ac {
        Some(Ut803Sheet::AcV)
    } else if mode == 0xD && dc {
        Some(Ut803Sheet::DcUa)
    } else if mode == 0xF && dc {
        Some(Ut803Sheet::DcMa)
    } else if mode == 0x9 && dc {
        Some(Ut803Sheet::DcA)
    } else if mode == 0xD && ac {
        Some(Ut803Sheet::AcUa)
    } else if mode == 0xF && ac {
        Some(Ut803Sheet::AcMa)
    } else if mode == 0x9 && ac {
        Some(Ut803Sheet::AcA)
    } else if mode == 0x3 {
        Some(Ut803Sheet::Resistance)
    } else if mode == 0x5 {
        Some(Ut803Sheet::Continuity)
    } else if mode == 0x1 {
        Some(Ut803Sheet::Diode)
    } else if mode == 0x6 {
        Some(Ut803Sheet::Capacitance)
    } else if mode == 0x2 && !alt {
        Some(Ut803Sheet::Frequency)
    } else if mode == 0x4 && alt {
        Some(Ut803Sheet::TempC)
    } else if mode == 0x4 {
        Some(Ut803Sheet::TempF)
    } else {
        None
    }
}

/// Every UT803 display entry's decimal point fits the manual row its
/// reading takes: the row's label is a number in the entry's unit with as
/// many digits in front of the point as the display has (the "60mA" row
/// on a display that reads up to 59.99 mA). The one row
/// written otherwise is frequency's lowest range, which the manual gives in
/// kHz where the display shows Hz.
pub proof fn ut803_points_fit_their_rows(mode: u8, range: u8, alt: bool, coupling: Option<Coupling>)
    requires
        !(mode == 0x2 && range == 0),
    ensures
        ut803_info(mode, range, alt) matches Some((name, unit, dp)) ==> (ut803_sheet_of(
            mode,
            range,
            alt,
            coupling,
        ) matches Some(t) ==> (row_of(t.spec_rows(), range) matches Some(i) ==> (t.spec_rows()[i].label@.len()
            > 0 && is_digit(t.spec_rows()[i].label@[0]) ==> number_then_unit(t.spec_rows()[i].label@, unit@)
            && leading_digits(t.spec_rows()[i].label@) == dp + 1))),
{
    reveal_strlit("");
    reveal_strlit("A");
    reveal_strlit("V");
    reveal_strlit("Ω");
    reveal_strlit("6V");
    reveal_strlit("Hz");
    reveal_strlit("MΩ");
    reveal_strlit("kΩ");
    reveal_strlit("mA");
    reveal_strlit("mF");
    reveal_strlit("mV");
    reveal_strlit("nF");
    reveal_strlit("°C");
    reveal_strlit("°F");
    reveal_strlit("µA");
    reveal_strlit("µF");
    reveal_strlit("10A");
    reveal_strlit("60V");
    reveal_strlit("6MΩ");
    reveal_strlit("6kΩ");
    reveal_strlit("6mF");
    reveal_strlit("6nF");
    reveal_strlit("6µF");
    reveal_strlit("ADP");
    reveal_strlit("MHz");
    reveal_strlit("RPM");
    reveal_strlit("hFE");
    reveal_strlit("kHz");
    reveal_strlit("600V");
    reveal_strlit("600Ω");
    reveal_strlit("60MΩ");
    reveal_strlit("60kΩ");
    reveal_strlit("60mA");
    reveal_strlit("60nF");
    reveal_strlit("60µF");
    reveal_strlit("6MHz");
    reveal_strlit("6kHz");
    reveal_strlit("MRPM");
    reveal_strlit("kRPM");
    reveal_strlit("1000V");
    reveal_strlit("600kΩ");
    reveal_strlit("600mA");
    reveal_strlit("600mV");
    reveal_strlit("600nF");
    reveal_strlit("600µA");
    reveal_strlit("600µF");
    reveal_strlit("60MHz");
    reveal_strlit("60kHz");
    reveal_strlit("Diode");
    reveal_strlit("6000µA");
    reveal_strlit("600kHz");
    reveal_strlit("Frequency");
    reveal_strlit("Continuity");
    reveal_strlit("Tachometer");
    reveal_strlit("Capacitance");
    reveal_strlit("Temperature");
    reveal_strlit("(diode symbol)");
    reveal_strlit("(continuity symbol)");
    reveal_with_fuel(ends_with, 4);
    reveal_with_fuel(all_number_chars, 5);
    reveal_with_fuel(leading_digits, 6);
    reveal_with_fuel(row_from, 9);
}

/// The UT803 table for a reading, as [`ut803_sheet_of`] says.
pub fn ut803_spec_table(mode: u8, range: u8, alt: bool, coupling: Option<Coupling>) -> (r: Option<Ut803Sheet>)
    ensures
        r == ut803_sheet_of(mode, range, alt, coupling),
{
    let (dc, _) = coupling_sides(coupling);
    let ac = match coupling {
        Some(Coupling::Ac) => true,
        _ => false,
    };
    if mode == 0xB && dc && range == 4 {
        Some(Ut803Sheet::DcMv)
    } else if mode == 0xB && dc {
        Some(Ut803Sheet::DcV)
    } else if mode == 0xB && ac && range == 4 {
        Some(Ut803Sheet::AcMv)
    } else if mode == 0xB && ac {
        Some(Ut803Sheet::AcV)
    } else if mode == 0xD && dc {
        Some(Ut803Sheet::DcUa)
    } else if mode == 0xF && dc {
        Some(Ut803Sheet::DcMa)
    } else if mode == 0x9 && dc {
        Some(Ut803Sheet::DcA)
    } else if mode == 0xD && ac {
        Some(Ut803Sheet::AcUa)
    } else if mode == 0xF && ac {
        Some(Ut803Sheet::AcMa)
    } else if mode == 0x9 && ac {
        Some(Ut803Sheet::AcA)
    } else if mode == 0x3 {
        Some(Ut803Sheet::Resistance)
    } else if mode == 0x5 {
        Some(Ut803Sheet::Continuity)
    } else if mode == 0x1 {
        Some(Ut803Sheet::Diode)
    } else if mode == 0x6 {
        Some(Ut803Sheet::Capacitance)
    } else if mode == 0x2 && !alt {
        Some(Ut803Sheet::Frequency)
    } else if mode == 0x4 && alt {
        Some(Ut803Sheet::TempC)
    } else if mode == 0x4 {
        Some(Ut803Sheet::TempF)
    } else {
        None
    }
}

/// The table a reading from `model` takes, decoded again from its payload
/// `p`, and the range byte whose row it takes (`None`: the table's mode
/// data only). `None` for a payload that is not a packet, a (mode, range)
/// pair the parser does not know, a reading the manual has no table for,
/// and the UT71 and VC9x0 handhelds, whose tables are not transcribed.
pub open spec fn ut80x_spec_of(model: Model, p: Seq<u8>) -> Option<(SpecSheet, Option<u8>)> {
    if !whole_packet(p) {
        None
    } else if model == Model::Ut803 {
        let range = p[0] & 0x0F;
        let mode = p[5] & 0x0F;
        let alt = (p[6] & 0x0F) & 0x8 != 0;
        let coupling = ut803_coupling(p[8] & 0x0F);
        if ut803_info(mode, range, alt) is None {
            None
        } else {
            match ut803_sheet_of(mode, range, alt, coupling) {
                Some(t) => Some((SpecSheet::Ut803(t), Some(range))),
                None => None,
            }
        }
    } else if model == Model::Ut804 {
        let range = p[5] & 0x0F;
        let mode = p[6] & 0x0F;
        let coupling = ut804_coupling(mode, p[7] & 0x0F);
        let duty = mode == 0xC && (p[8] & 0x0F) & 0x4 != 0;
        if ut804_info(mode, range) is None {
            None
        } else {
            match ut804_sheet_of(mode, coupling, duty) {
                Some(t) => Some(
                    (
                        SpecSheet::Ut804(t),
                        if coupling != Some(Coupling::AcDc) {
                            Some(range)
                        } else {
                            None
                        },
                    ),
                ),
                None => None,
            }
        }
    } else {
        None
    }
}

/// The row a reading from `model` with payload `p` takes: its table and the
/// row's index there. `None` where it takes no table, takes the table's
/// mode data only, or its table has no row for its range byte.
pub open spec fn ut80x_row_of(model: Model, p: Seq<u8>) -> Option<(SpecSheet, int)> {
    match ut80x_spec_of(model, p) {
        Some((t, Some(range))) => match row_of(t.spec_rows(), range) {
            Some(i) => Some((t, i)),
            None => None,
        },
        _ => None,
    }
}

/// The UT804 readings the parser accepts that take their AC table's mode
/// data only: AC+DC volts and currents.
pub open spec fn ut804_mode_spec_only(mode: u8, coupling: Option<Coupling>) -> bool {
    (mode == 0x1 || mode == 0x2 || mode == 0x7 || mode == 0x8 || mode == 0x9) && coupling == Some(
        Coupling::AcDc,
    )
}

/// The UT804 readings the parser accepts that the manual gives no table:
/// power, and AC or AC+DC millivolts.
pub open spec fn ut804_no_spec(mode: u8, coupling: Option<Coupling>) -> bool {
    mode == 0xE || (mode == 0x3 && ac_side(coupling))
}

/// Whether the UT804 parser takes positions range, mode, AC/DC and status
/// without a report on any of them.
pub open spec fn ut804_accepts(mode: u8, range: u8, acdc: u8, status: u8) -> bool {
    &&& status & 0x8 == 0
    &&& status & 0x3 != 0x3
    &&& acdc <= 3
    &&& (acdc == 0 || ut804_dc_by_default(mode))
    &&& ut804_info(mode, range) is Some
}

/// The UT803 readings the parser accepts that have no row: the tachometer,
/// frequency range 5 and capacitance range 7 (past the manual's tables),
/// ADP, and currents with both or neither coupling bit.
pub open spec fn ut803_no_spec(mode: u8, range: u8, alt: bool, coupling: Option<Coupling>) -> bool {
    ||| mode == 0x2 && alt
    ||| mode == 0x2 && !alt && range == 5
    ||| mode == 0x6 && range == 7
    ||| mode == 0xE
    ||| (mode == 0x9 || mode == 0xD || mode == 0xF) && coupling != Some(Coupling::Dc) && coupling
        != Some(Coupling::Ac)
}

/// Whether the UT803 parser takes positions range, mode, alt/sign and
/// HOLD nibbles and the coupling without a report on any of them.
pub open spec fn ut803_accepts(mode: u8, range: u8, nib8: u8, nib9: u8, coupling: Option<Coupling>) -> bool {
    let alt = nib8 & 0x8 != 0;
    &&& nib8 & 0x2 == 0
    &&& nib9 & 0x1 == 0
    &&& !(alt && mode != 0x2 && mode != 0x4)
    &&& ut803_info(mode, range, alt) is Some
    &&& !(mode == 0xB && coupling != Some(Coupling::Dc) && coupling != Some(Coupling::Ac))
}

/// Every UT804 reading the parser accepts without a report takes a row
/// of a manual table, unless it is an AC+DC volt or current reading, which
/// takes its AC table's mode data only, or power or an AC or AC+DC
/// millivolt reading, which take no table.
pub proof fn ut804_readings_have_a_spec_or_are_listed(p: Seq<u8>)
    requires
        whole_packet(p),
        ut804_accepts(p[6] & 0x0F, p[5] & 0x0F, p[7] & 0x0F, p[8] & 0x0F),
    ensures
        ut804_no_spec(p[6] & 0x0F, ut804_coupling(p[6] & 0x0F, p[7] & 0x0F)) ==> ut80x_spec_of(
            Model::Ut804,
            p,
        ) is None,
        ut804_mode_spec_only(p[6] & 0x0F, ut804_coupling(p[6] & 0x0F, p[7] & 0x0F)) ==> ut80x_spec_of(
            Model::Ut804,
            p,
        ) matches Some((_, None)),
        !ut804_no_spec(p[6] & 0x0F, ut804_coupling(p[6] & 0x0F, p[7] & 0x0F))
            && !ut804_mode_spec_only(p[6] & 0x0F, ut804_coupling(p[6] & 0x0F, p[7] & 0x0F))
            ==> ut80x_row_of(Model::Ut804, p) is Some,
{
    let range = p[5] & 0x0F;
    let mode = p[6] & 0x0F;
    let acdc = p[7] & 0x0F;
    let status = p[8] & 0x0F;
    lemma_low_nibble(p[5]);
    lemma_low_nibble(p[6]);
    let duty = mode == 0xC && status & 0x4 != 0;
    lemma_ut804_row(mode, range, ut804_coupling(mode, acdc), duty);
}

proof fn lemma_low_nibble(b: u8)
    ensures
        b & 0x0F < 16,
{
    assert(b & 0x0F < 16) by (bit_vector);
}

proof fn lemma_ut804_row(mode: u8, range: u8, coupling: Option<Coupling>, duty: bool)
    requires
        mode < 16,
        range < 16,
        ut804_info(mode, range) is Some,
        ut804_dc_by_default(mode) ==> coupling is Some,
        !ut804_dc_by_default(mode) ==> coupling is None,
        duty ==> mode == 0xC,
    ensures
        ut804_no_spec(mode, coupling) <==> ut804_sheet_of(mode, coupling, duty) is None,
        !ut804_no_spec(mode, coupling) && coupling != Some(Coupling::AcDc) ==> (ut804_sheet_of(
            mode,
            coupling,
            duty,
        ) matches Some(t) && row_of(t.spec_rows(), range) is Some),
{
    reveal_with_fuel(row_from, 9);
    match coupling {
        Some(Coupling::Dc) => {},
        Some(Coupling::Ac) => {},
        Some(Coupling::AcDc) => {},
        None => {},
    }
}

/// Every UT803 reading the parser accepts without a report takes a row of
/// a manual table, unless it is one of those [`ut803_no_spec`] lists.
pub proof fn ut803_readings_have_a_spec_or_are_listed(p: Seq<u8>)
    requires
        whole_packet(p),
        ut803_accepts(
            p[5] & 0x0F,
            p[0] & 0x0F,
            p[6] & 0x0F,
            p[7] & 0x0F,
            ut803_coupling(p[8] & 0x0F),
        ),
    ensures
        ut803_no_spec(
            p[5] & 0x0F,
            p[0] & 0x0F,
            (p[6] & 0x0F) & 0x8 != 0,
            ut803_coupling(p[8] & 0x0F),
        ) <==> ut80x_row_of(Model::Ut803, p) is None,
{
    let range = p[0] & 0x0F;
    let mode = p[5] & 0x0F;
    lemma_low_nibble(p[0]);
    lemma_low_nibble(p[5]);
    lemma_ut803_row(mode, range, (p[6] & 0x0F) & 0x8 != 0, ut803_coupling(p[8] & 0x0F));
}

proof fn lemma_ut803_row(mode: u8, range: u8, alt: bool, coupling: Option<Coupling>)
    requires
        mode < 16,
        range < 16,
        ut803_info(mode, range, alt) is Some,
        !(alt && mode != 0x2 && mode != 0x4),
        !(mode == 0xB && coupling != Some(Coupling::Dc) && coupling != Some(Coupling::Ac)),
    ensures
        ut803_no_spec(mode, range, alt, coupling) <==> !(ut803_sheet_of(mode, range, alt, coupling) matches Some(
            t,
        ) && row_of(t.spec_rows(), range) is Some),
{
    reveal_with_fuel(row_from, 9);
    if mode == 0 {
    } else if mode == 1 {
    } else if mode == 2 {
    } else if mode == 3 {
    } else if mode == 4 {
    } else if mode == 5 {
    } else if mode == 6 {
    } else if mode == 7 {
    } else if mode == 8 {
    } else if mode == 9 {
    } else if mode == 10 {
    } else if mode == 11 {
    } else if mode == 12 {
    } else if mode == 13 {
    } else if mode == 14 {
    } else {
    }
}

} // verus!
