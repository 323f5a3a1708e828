//! The UT61E+, UT61B+ and UT61D+ specifications per range byte: for each
//! mode the meter's range table covers, a resolution and accuracy for each
//! of its rows, and what holds for the whole mode.
use super::mode::Mode;
use crate::specs::{AccuracyBand, ModeSpecInfo};
use vstd::prelude::*;

verus! {

/// The UT61E+ (22,000 counts) specification tables, one per mode, a row per range byte.
#[derive(Debug, Clone, Copy, PartialEq, Eq, Structural)]
pub enum Ut61eRangeSpecs {
    DcV,
    AcV,
    DcMv,
    AcMv,
    Ohm,
    Cap,
    Hz,
    Duty,
    TempC,
    TempF,
    Diode,
    Continuity,
    DcUa,
    AcUa,
    DcMa,
    AcMa,
    DcA,
    AcA,
    Hfe,
    AcdcV,
    LpfV,
    LpfMv,
}

impl Ut61eRangeSpecs {
    /// The resolution of each row, in range-byte order.
    pub open spec fn spec_resolutions(self) -> Seq<&'static str> {
        match self {
            Ut61eRangeSpecs::DcV => seq!["0.1mV", "1mV", "10mV", "0.1V", "0.01mV"],
            Ut61eRangeSpecs::AcV => seq!["0.1mV", "1mV", "10mV", "0.1V", "0.01mV"],
            Ut61eRangeSpecs::DcMv => seq!["0.01mV", "0.1mV"],
            Ut61eRangeSpecs::AcMv => seq!["0.01mV", "0.1mV"],
            Ut61eRangeSpecs::Ohm => seq!["0.01\u{2126}", "0.1\u{2126}", "1\u{2126}", "10\u{2126}", "100\u{2126}", "1k\u{2126}", "10k\u{2126}"],
            Ut61eRangeSpecs::Cap => seq!["1pF", "10pF", "100pF", "1nF", "10nF", "100nF", "1\u{00B5}F", "10\u{00B5}F"],
            Ut61eRangeSpecs::Hz => seq!["0.001Hz", "0.01Hz", "0.1Hz", "1Hz", "10Hz"],
            Ut61eRangeSpecs::Duty => seq!["0.1%"],
            Ut61eRangeSpecs::TempC => seq!["0.1\u{00B0}C"],
            Ut61eRangeSpecs::TempF => seq!["0.2\u{00B0}F"],
            Ut61eRangeSpecs::Diode => seq!["0.001V"],
            Ut61eRangeSpecs::Continuity => seq!["0.1\u{2126}"],
            Ut61eRangeSpecs::DcUa => seq!["0.01\u{00B5}A", "0.1\u{00B5}A"],
            Ut61eRangeSpecs::AcUa => seq!["0.01\u{00B5}A", "0.1\u{00B5}A"],
            Ut61eRangeSpecs::DcMa => seq!["1\u{00B5}A", "10\u{00B5}A"],
            Ut61eRangeSpecs::AcMa => seq!["1\u{00B5}A", "10\u{00B5}A"],
            Ut61eRangeSpecs::DcA => seq!["1mA", "1mA"],
            Ut61eRangeSpecs::AcA => seq!["1mA", "1mA"],
            Ut61eRangeSpecs::Hfe => seq!["1\u{03B2}"],
            Ut61eRangeSpecs::AcdcV => seq!["0.1mV", "1mV", "10mV", "0.1V"],
            Ut61eRangeSpecs::LpfV => seq!["0.1mV", "1mV", "10mV", "0.1V"],
            Ut61eRangeSpecs::LpfMv => seq!["0.01mV", "0.1mV"],
        }
    }

    /// The resolution of each row, in range-byte order.
    pub fn resolutions(&self) -> (r: Vec<&'static str>)
        ensures
            r@ == self.spec_resolutions(),
    {
        match self {
            Ut61eRangeSpecs::DcV => vec!["0.1mV", "1mV", "10mV", "0.1V", "0.01mV"],
            Ut61eRangeSpecs::AcV => vec!["0.1mV", "1mV", "10mV", "0.1V", "0.01mV"],
            Ut61eRangeSpecs::DcMv => vec!["0.01mV", "0.1mV"],
            Ut61eRangeSpecs::AcMv => vec!["0.01mV", "0.1mV"],
            Ut61eRangeSpecs::Ohm => vec!["0.01\u{2126}", "0.1\u{2126}", "1\u{2126}", "10\u{2126}", "100\u{2126}", "1k\u{2126}", "10k\u{2126}"],
            Ut61eRangeSpecs::Cap => vec!["1pF", "10pF", "100pF", "1nF", "10nF", "100nF", "1\u{00B5}F", "10\u{00B5}F"],
            Ut61eRangeSpecs::Hz => vec!["0.001Hz", "0.01Hz", "0.1Hz", "1Hz", "10Hz"],
            Ut61eRangeSpecs::Duty => vec!["0.1%"],
            Ut61eRangeSpecs::TempC => vec!["0.1\u{00B0}C"],
            Ut61eRangeSpecs::TempF => vec!["0.2\u{00B0}F"],
            Ut61eRangeSpecs::Diode => vec!["0.001V"],
            Ut61eRangeSpecs::Continuity => vec!["0.1\u{2126}"],
            Ut61eRangeSpecs::DcUa => vec!["0.01\u{00B5}A", "0.1\u{00B5}A"],
            Ut61eRangeSpecs::AcUa => vec!["0.01\u{00B5}A", "0.1\u{00B5}A"],
            Ut61eRangeSpecs::DcMa => vec!["1\u{00B5}A", "10\u{00B5}A"],
            Ut61eRangeSpecs::AcMa => vec!["1\u{00B5}A", "10\u{00B5}A"],
            Ut61eRangeSpecs::DcA => vec!["1mA", "1mA"],
            Ut61eRangeSpecs::AcA => vec!["1mA", "1mA"],
            Ut61eRangeSpecs::Hfe => vec!["1\u{03B2}"],
            Ut61eRangeSpecs::AcdcV => vec!["0.1mV", "1mV", "10mV", "0.1V"],
            Ut61eRangeSpecs::LpfV => vec!["0.1mV", "1mV", "10mV", "0.1V"],
            Ut61eRangeSpecs::LpfMv => vec!["0.01mV", "0.1mV"],
        }
    }

    /// The accuracy figures of row `row`.
    pub open spec fn spec_bands(self, row: int) -> Seq<AccuracyBand> {
        match self {
            Ut61eRangeSpecs::DcV => { if row == 0 { seq![AccuracyBand { freq_range: None, accuracy: "0.05%+5" }] } else if row == 1 { seq![AccuracyBand { freq_range: None, accuracy: "0.05%+5" }] } else if row == 2 { seq![AccuracyBand { freq_range: None, accuracy: "0.05%+5" }] } else if row == 3 { seq![AccuracyBand { freq_range: None, accuracy: "0.1%+5" }] } else if row == 4 { seq![AccuracyBand { freq_range: None, accuracy: "0.1%+5" }] } else { seq![] } },
            Ut61eRangeSpecs::AcV => { if row == 0 { seq![AccuracyBand { freq_range: Some("40Hz\u{2013}1kHz"), accuracy: "0.8%+10" }, AccuracyBand { freq_range: Some("1kHz\u{2013}10kHz"), accuracy: "1.2%+50" }] } else if row == 1 { seq![AccuracyBand { freq_range: Some("40Hz\u{2013}1kHz"), accuracy: "0.8%+10" }, AccuracyBand { freq_range: Some("1kHz\u{2013}10kHz"), accuracy: "1.2%+50" }] } else if row == 2 { seq![AccuracyBand { freq_range: Some("40Hz\u{2013}1kHz"), accuracy: "0.8%+10" }, AccuracyBand { freq_range: Some("1kHz\u{2013}10kHz"), accuracy: "2.0%+50" }] } else if row == 3 { seq![AccuracyBand { freq_range: Some("40Hz\u{2013}1kHz"), accuracy: "1.2%+10" }, AccuracyBand { freq_range: Some("1kHz\u{2013}10kHz"), accuracy: "3.0%+50" }] } else if row == 4 { seq![AccuracyBand { freq_range: Some("40Hz\u{2013}1kHz"), accuracy: "1.0%+10" }, AccuracyBand { freq_range: Some("1kHz\u{2013}10kHz"), accuracy: "1.5%+30" }] } else { seq![] } },
            Ut61eRangeSpecs::DcMv => { if row == 0 { seq![AccuracyBand { freq_range: None, accuracy: "0.1%+5" }] } else if row == 1 { seq![AccuracyBand { freq_range: None, accuracy: "0.05%+5" }] } else { seq![] } },
            Ut61eRangeSpecs::AcMv => { if row == 0 { seq![AccuracyBand { freq_range: Some("40Hz\u{2013}1kHz"), accuracy: "1.0%+10" }, AccuracyBand { freq_range: Some("1kHz\u{2013}10kHz"), accuracy: "1.5%+30" }] } else if row == 1 { seq![AccuracyBand { freq_range: Some("40Hz\u{2013}1kHz"), accuracy: "0.8%+10" }, AccuracyBand { freq_range: Some("1kHz\u{2013}10kHz"), accuracy: "1.2%+50" }] } else { seq![] } },
            Ut61eRangeSpecs::Ohm => { if row == 0 { seq![AccuracyBand { freq_range: None, accuracy: "0.5%+10" }] } else if row == 1 { seq![AccuracyBand { freq_range: None, accuracy: "0.5%+10" }] } else if row == 2 { seq![AccuracyBand { freq_range: None, accuracy: "0.5%+10" }] } else if row == 3 { seq![AccuracyBand { freq_range: None, accuracy: "0.5%+10" }] } else if row == 4 { seq![AccuracyBand { freq_range: None, accuracy: "0.8%+10" }] } else if row == 5 { seq![AccuracyBand { freq_range: None, accuracy: "1.5%+10" }] } else if row == 6 { seq![AccuracyBand { freq_range: None, accuracy: "3.0%+50" }] } else { seq![] } },
            Ut61eRangeSpecs::Cap => { if row == 0 { seq![AccuracyBand { freq_range: None, accuracy: "3.0%+5" }] } else if row == 1 { seq![AccuracyBand { freq_range: None, accuracy: "3.0%+5" }] } else if row == 2 { seq![AccuracyBand { freq_range: None, accuracy: "3.0%+5" }] } else if row == 3 { seq![AccuracyBand { freq_range: None, accuracy: "3.0%+5" }] } else if row == 4 { seq![AccuracyBand { freq_range: None, accuracy: "4.0%+5" }] } else if row == 5 { seq![AccuracyBand { freq_range: None, accuracy: "4.0%+5" }] } else if row == 6 { seq![AccuracyBand { freq_range: None, accuracy: "10%+5" }] } else if row == 7 { seq![AccuracyBand { freq_range: None, accuracy: "20%+5" }] } else { seq![] } },
            Ut61eRangeSpecs::Hz => { if row == 0 { seq![AccuracyBand { freq_range: None, accuracy: "0.01%+5" }] } else if row == 1 { seq![AccuracyBand { freq_range: None, accuracy: "0.01%+5" }] } else if row == 2 { seq![AccuracyBand { freq_range: None, accuracy: "0.01%+5" }] } else if row == 3 { seq![AccuracyBand { freq_range: None, accuracy: "0.01%+5" }] } else if row == 4 { seq![AccuracyBand { freq_range: None, accuracy: "0.01%+5" }] } else { seq![] } },
            Ut61eRangeSpecs::Duty => { if row == 0 { seq![AccuracyBand { freq_range: None, accuracy: "2%+5" }] } else { seq![] } },
            Ut61eRangeSpecs::TempC => { if row == 0 { seq![AccuracyBand { freq_range: Some("-40\u{00B0}C\u{2013}0\u{00B0}C"), accuracy: "1.0%+3\u{00B0}C" }, AccuracyBand { freq_range: Some("0\u{00B0}C\u{2013}300\u{00B0}C"), accuracy: "1.0%+2\u{00B0}C" }, AccuracyBand { freq_range: Some("300\u{00B0}C\u{2013}1000\u{00B0}C"), accuracy: "1.0%+3\u{00B0}C" }] } else { seq![] } },
            Ut61eRangeSpecs::TempF => { if row == 0 { seq![AccuracyBand { freq_range: Some("-40\u{00B0}F\u{2013}32\u{00B0}F"), accuracy: "1.0%+6\u{00B0}F" }, AccuracyBand { freq_range: Some("32\u{00B0}F\u{2013}572\u{00B0}F"), accuracy: "1.0%+4\u{00B0}F" }, AccuracyBand { freq_range: Some("572\u{00B0}F\u{2013}1832\u{00B0}F"), accuracy: "1.0%+6\u{00B0}F" }] } else { seq![] } },
            Ut61eRangeSpecs::Diode => { if row == 0 { seq![] } else { seq![] } },
            Ut61eRangeSpecs::Continuity => { if row == 0 { seq![] } else { seq![] } },
            Ut61eRangeSpecs::DcUa => { if row == 0 { seq![AccuracyBand { freq_range: None, accuracy: "0.5%+10" }] } else if row == 1 { seq![AccuracyBand { freq_range: None, accuracy: "0.5%+10" }] } else { seq![] } },
            Ut61eRangeSpecs::AcUa => { if row == 0 { seq![AccuracyBand { freq_range: Some("40Hz\u{2013}1kHz"), accuracy: "0.8%+10" }, AccuracyBand { freq_range: Some("1kHz\u{2013}10kHz"), accuracy: "3%+50" }] } else if row == 1 { seq![AccuracyBand { freq_range: Some("40Hz\u{2013}1kHz"), accuracy: "0.8%+10" }, AccuracyBand { freq_range: Some("1kHz\u{2013}10kHz"), accuracy: "3%+50" }] } else { seq![] } },
            Ut61eRangeSpecs::DcMa => { if row == 0 { seq![AccuracyBand { freq_range: None, accuracy: "0.5%+10" }] } else if row == 1 { seq![AccuracyBand { freq_range: None, accuracy: "0.5%+10" }] } else { seq![] } },
            Ut61eRangeSpecs::AcMa => { if row == 0 { seq![AccuracyBand { freq_range: Some("40Hz\u{2013}1kHz"), accuracy: "1.2%+10" }, AccuracyBand { freq_range: Some("1kHz\u{2013}10kHz"), accuracy: "3%+50" }] } else if row == 1 { seq![AccuracyBand { freq_range: Some("40Hz\u{2013}1kHz"), accuracy: "1.2%+10" }, AccuracyBand { freq_range: Some("1kHz\u{2013}10kHz"), accuracy: "3%+50" }] } else { seq![] } },
            Ut61eRangeSpecs::DcA => { if row == 0 { seq![AccuracyBand { freq_range: None, accuracy: "1.2%+50" }] } else if row == 1 { seq![AccuracyBand { freq_range: None, accuracy: "1.2%+50" }] } else { seq![] } },
            Ut61eRangeSpecs::AcA => { if row == 0 { seq![AccuracyBand { freq_range: Some("40Hz\u{2013}1kHz"), accuracy: "1.2%+10" }, AccuracyBand { freq_range: Some("1kHz\u{2013}10kHz"), accuracy: "3%+50" }] } else if row == 1 { seq![AccuracyBand { freq_range: Some("40Hz\u{2013}1kHz"), accuracy: "1.2%+10" }, AccuracyBand { freq_range: Some("1kHz\u{2013}10kHz"), accuracy: "3%+50" }] } else { seq![] } },
            Ut61eRangeSpecs::Hfe => { if row == 0 { seq![AccuracyBand { freq_range: None, accuracy: "reference only" }] } else { seq![] } },
            Ut61eRangeSpecs::AcdcV => { if row == 0 { seq![AccuracyBand { freq_range: Some("40Hz\u{2013}500Hz"), accuracy: "1.8%+70" }] } else if row == 1 { seq![AccuracyBand { freq_range: Some("40Hz\u{2013}500Hz"), accuracy: "1.8%+70" }] } else if row == 2 { seq![AccuracyBand { freq_range: Some("40Hz\u{2013}500Hz"), accuracy: "1.8%+70" }] } else if row == 3 { seq![AccuracyBand { freq_range: Some("40Hz\u{2013}500Hz"), accuracy: "4.0%+70" }] } else { seq![] } },
            Ut61eRangeSpecs::LpfV => { if row == 0 { seq![AccuracyBand { freq_range: Some("40Hz\u{2013}100Hz"), accuracy: "1.2%+50" }] } else if row == 1 { seq![AccuracyBand { freq_range: Some("40Hz\u{2013}100Hz"), accuracy: "1.8%+50" }] } else if row == 2 { seq![AccuracyBand { freq_range: Some("40Hz\u{2013}100Hz"), accuracy: "2.0%+50" }] } else if row == 3 { seq![AccuracyBand { freq_range: Some("40Hz\u{2013}100Hz"), accuracy: "3.0%+50" }] } else { seq![] } },
            Ut61eRangeSpecs::LpfMv => { if row == 0 { seq![] } else if row == 1 { seq![AccuracyBand { freq_range: Some("40Hz\u{2013}100Hz"), accuracy: "1.2%+50" }] } else { seq![] } },
        }
    }

    /// The accuracy figures of row `row`.
    pub fn bands(&self, row: usize) -> (r: Vec<AccuracyBand>)
        ensures
            r@ == self.spec_bands(row as int),
    {
        match self {
            Ut61eRangeSpecs::DcV => { if row == 0 { vec![AccuracyBand { freq_range: None, accuracy: "0.05%+5" }] } else if row == 1 { vec![AccuracyBand { freq_range: None, accuracy: "0.05%+5" }] } else if row == 2 { vec![AccuracyBand { freq_range: None, accuracy: "0.05%+5" }] } else if row == 3 { vec![AccuracyBand { freq_range: None, accuracy: "0.1%+5" }] } else if row == 4 { vec![AccuracyBand { freq_range: None, accuracy: "0.1%+5" }] } else { vec![] } },
            Ut61eRangeSpecs::AcV => { if row == 0 { vec![AccuracyBand { freq_range: Some("40Hz\u{2013}1kHz"), accuracy: "0.8%+10" }, AccuracyBand { freq_range: Some("1kHz\u{2013}10kHz"), accuracy: "1.2%+50" }] } else if row == 1 { vec![AccuracyBand { freq_range: Some("40Hz\u{2013}1kHz"), accuracy: "0.8%+10" }, AccuracyBand { freq_range: Some("1kHz\u{2013}10kHz"), accuracy: "1.2%+50" }] } else if row == 2 { vec![AccuracyBand { freq_range: Some("40Hz\u{2013}1kHz"), accuracy: "0.8%+10" }, AccuracyBand { freq_range: Some("1kHz\u{2013}10kHz"), accuracy: "2.0%+50" }] } else if row == 3 { vec![AccuracyBand { freq_range: Some("40Hz\u{2013}1kHz"), accuracy: "1.2%+10" }, AccuracyBand { freq_range: Some("1kHz\u{2013}10kHz"), accuracy: "3.0%+50" }] } else if row == 4 { vec![AccuracyBand { freq_range: Some("40Hz\u{2013}1kHz"), accuracy: "1.0%+10" }, AccuracyBand { freq_range: Some("1kHz\u{2013}10kHz"), accuracy: "1.5%+30" }] } else { vec![] } },
            Ut61eRangeSpecs::DcMv => { if row == 0 { vec![AccuracyBand { freq_range: None, accuracy: "0.1%+5" }] } else if row == 1 { vec![AccuracyBand { freq_range: None, accuracy: "0.05%+5" }] } else { vec![] } },
            Ut61eRangeSpecs::AcMv => { if row == 0 { vec![AccuracyBand { freq_range: Some("40Hz\u{2013}1kHz"), accuracy: "1.0%+10" }, AccuracyBand { freq_range: Some("1kHz\u{2013}10kHz"), accuracy: "1.5%+30" }] } else if row == 1 { vec![AccuracyBand { freq_range: Some("40Hz\u{2013}1kHz"), accuracy: "0.8%+10" }, AccuracyBand { freq_range: Some("1kHz\u{2013}10kHz"), accuracy: "1.2%+50" }] } else { vec![] } },
            Ut61eRangeSpecs::Ohm => { if row == 0 { vec![AccuracyBand { freq_range: None, accuracy: "0.5%+10" }] } else if row == 1 { vec![AccuracyBand { freq_range: None, accuracy: "0.5%+10" }] } else if row == 2 { vec![AccuracyBand { freq_range: None, accuracy: "0.5%+10" }] } else if row == 3 { vec![AccuracyBand { freq_range: None, accuracy: "0.5%+10" }] } else if row == 4 { vec![AccuracyBand { freq_range: None, accuracy: "0.8%+10" }] } else if row == 5 { vec![AccuracyBand { freq_range: None, accuracy: "1.5%+10" }] } else if row == 6 { vec![AccuracyBand { freq_range: None, accuracy: "3.0%+50" }] } else { vec![] } },
            Ut61eRangeSpecs::Cap => { if row == 0 { vec![AccuracyBand { freq_range: None, accuracy: "3.0%+5" }] } else if row == 1 { vec![AccuracyBand { freq_range: None, accuracy: "3.0%+5" }] } else if row == 2 { vec![AccuracyBand { freq_range: None, accuracy: "3.0%+5" }] } else if row == 3 { vec![AccuracyBand { freq_range: None, accuracy: "3.0%+5" }] } else if row == 4 { vec![AccuracyBand { freq_range: None, accuracy: "4.0%+5" }] } else if row == 5 { vec![AccuracyBand { freq_range: None, accuracy: "4.0%+5" }] } else if row == 6 { vec![AccuracyBand { freq_range: None, accuracy: "10%+5" }] } else if row == 7 { vec![AccuracyBand { freq_range: None, accuracy: "20%+5" }] } else { vec![] } },
            Ut61eRangeSpecs::Hz => { if row == 0 { vec![AccuracyBand { freq_range: None, accuracy: "0.01%+5" }] } else if row == 1 { vec![AccuracyBand { freq_range: None, accuracy: "0.01%+5" }] } else if row == 2 { vec![AccuracyBand { freq_range: None, accuracy: "0.01%+5" }] } else if row == 3 { vec![AccuracyBand { freq_range: None, accuracy: "0.01%+5" }] } else if row == 4 { vec![AccuracyBand { freq_range: None, accuracy: "0.01%+5" }] } else { vec![] } },
            Ut61eRangeSpecs::Duty => { if row == 0 { vec![AccuracyBand { freq_range: None, accuracy: "2%+5" }] } else { vec![] } },
            Ut61eRangeSpecs::TempC => { if row == 0 { vec![AccuracyBand { freq_range: Some("-40\u{00B0}C\u{2013}0\u{00B0}C"), accuracy: "1.0%+3\u{00B0}C" }, AccuracyBand { freq_range: Some("0\u{00B0}C\u{2013}300\u{00B0}C"), accuracy: "1.0%+2\u{00B0}C" }, AccuracyBand { freq_range: Some("300\u{00B0}C\u{2013}1000\u{00B0}C"), accuracy: "1.0%+3\u{00B0}C" }] } else { vec![] } },
            Ut61eRangeSpecs::TempF => { if row == 0 { vec![AccuracyBand { freq_range: Some("-40\u{00B0}F\u{2013}32\u{00B0}F"), accuracy: "1.0%+6\u{00B0}F" }, AccuracyBand { freq_range: Some("32\u{00B0}F\u{2013}572\u{00B0}F"), accuracy: "1.0%+4\u{00B0}F" }, AccuracyBand { freq_range: Some("572\u{00B0}F\u{2013}1832\u{00B0}F"), accuracy: "1.0%+6\u{00B0}F" }] } else { vec![] } },
            Ut61eRangeSpecs::Diode => { if row == 0 { vec![] } else { vec![] } },
            Ut61eRangeSpecs::Continuity => { if row == 0 { vec![] } else { vec![] } },
            Ut61eRangeSpecs::DcUa => { if row == 0 { vec![AccuracyBand { freq_range: None, accuracy: "0.5%+10" }] } else if row == 1 { vec![AccuracyBand { freq_range: None, accuracy: "0.5%+10" }] } else { vec![] } },
            Ut61eRangeSpecs::AcUa => { if row == 0 { vec![AccuracyBand { freq_range: Some("40Hz\u{2013}1kHz"), accuracy: "0.8%+10" }, AccuracyBand { freq_range: Some("1kHz\u{2013}10kHz"), accuracy: "3%+50" }] } else if row == 1 { vec![AccuracyBand { freq_range: Some("40Hz\u{2013}1kHz"), accuracy: "0.8%+10" }, AccuracyBand { freq_range: Some("1kHz\u{2013}10kHz"), accuracy: "3%+50" }] } else { vec![] } },
            Ut61eRangeSpecs::DcMa => { if row == 0 { vec![AccuracyBand { freq_range: None, accuracy: "0.5%+10" }] } else if row == 1 { vec![AccuracyBand { freq_range: None, accuracy: "0.5%+10" }] } else { vec![] } },
            Ut61eRangeSpecs::AcMa => { if row == 0 { vec![AccuracyBand { freq_range: Some("40Hz\u{2013}1kHz"), accuracy: "1.2%+10" }, AccuracyBand { freq_range: Some("1kHz\u{2013}10kHz"), accuracy: "3%+50" }] } else if row == 1 { vec![AccuracyBand { freq_range: Some("40Hz\u{2013}1kHz"), accuracy: "1.2%+10" }, AccuracyBand { freq_range: Some("1kHz\u{2013}10kHz"), accuracy: "3%+50" }] } else { vec![] } },
            Ut61eRangeSpecs::DcA => { if row == 0 { vec![AccuracyBand { freq_range: None, accuracy: "1.2%+50" }] } else if row == 1 { vec![AccuracyBand { freq_range: None, accuracy: "1.2%+50" }] } else { vec![] } },
            Ut61eRangeSpecs::AcA => { if row == 0 { vec![AccuracyBand { freq_range: Some("40Hz\u{2013}1kHz"), accuracy: "1.2%+10" }, AccuracyBand { freq_range: Some("1kHz\u{2013}10kHz"), accuracy: "3%+50" }] } else if row == 1 { vec![AccuracyBand { freq_range: Some("40Hz\u{2013}1kHz"), accuracy: "1.2%+10" }, AccuracyBand { freq_range: Some("1kHz\u{2013}10kHz"), accuracy: "3%+50" }] } else { vec![] } },
            Ut61eRangeSpecs::Hfe => { if row == 0 { vec![AccuracyBand { freq_range: None, accuracy: "reference only" }] } else { vec![] } },
            Ut61eRangeSpecs::AcdcV => { if row == 0 { vec![AccuracyBand { freq_range: Some("40Hz\u{2013}500Hz"), accuracy: "1.8%+70" }] } else if row == 1 { vec![AccuracyBand { freq_range: Some("40Hz\u{2013}500Hz"), accuracy: "1.8%+70" }] } else if row == 2 { vec![AccuracyBand { freq_range: Some("40Hz\u{2013}500Hz"), accuracy: "1.8%+70" }] } else if row == 3 { vec![AccuracyBand { freq_range: Some("40Hz\u{2013}500Hz"), accuracy: "4.0%+70" }] } else { vec![] } },
            Ut61eRangeSpecs::LpfV => { if row == 0 { vec![AccuracyBand { freq_range: Some("40Hz\u{2013}100Hz"), accuracy: "1.2%+50" }] } else if row == 1 { vec![AccuracyBand { freq_range: Some("40Hz\u{2013}100Hz"), accuracy: "1.8%+50" }] } else if row == 2 { vec![AccuracyBand { freq_range: Some("40Hz\u{2013}100Hz"), accuracy: "2.0%+50" }] } else if row == 3 { vec![AccuracyBand { freq_range: Some("40Hz\u{2013}100Hz"), accuracy: "3.0%+50" }] } else { vec![] } },
            Ut61eRangeSpecs::LpfMv => { if row == 0 { vec![] } else if row == 1 { vec![AccuracyBand { freq_range: Some("40Hz\u{2013}100Hz"), accuracy: "1.2%+50" }] } else { vec![] } },
        }
    }

    /// What holds for the whole mode.
    pub open spec fn spec_mode(self) -> ModeSpecInfo {
        match self {
            Ut61eRangeSpecs::DcV => ModeSpecInfo { input_impedance: Some("~10 M\u{2126}"), overload_protection: Some("1000V") },
            Ut61eRangeSpecs::AcV => ModeSpecInfo { input_impedance: Some("~10 M\u{2126}"), overload_protection: Some("1000V") },
            Ut61eRangeSpecs::DcMv => ModeSpecInfo { input_impedance: Some("~1 G\u{2126}"), overload_protection: Some("1000V") },
            Ut61eRangeSpecs::AcMv => ModeSpecInfo { input_impedance: Some("~10 M\u{2126}"), overload_protection: Some("1000V") },
            Ut61eRangeSpecs::Ohm => ModeSpecInfo { input_impedance: None, overload_protection: Some("1000V") },
            Ut61eRangeSpecs::Cap => ModeSpecInfo { input_impedance: None, overload_protection: Some("1000V") },
            Ut61eRangeSpecs::Hz => ModeSpecInfo { input_impedance: None, overload_protection: Some("1000V") },
            Ut61eRangeSpecs::Duty => ModeSpecInfo { input_impedance: None, overload_protection: Some("1000V") },
            Ut61eRangeSpecs::TempC => ModeSpecInfo { input_impedance: None, overload_protection: None },
            Ut61eRangeSpecs::TempF => ModeSpecInfo { input_impedance: None, overload_protection: None },
            Ut61eRangeSpecs::Diode => ModeSpecInfo { input_impedance: None, overload_protection: Some("1000V") },
            Ut61eRangeSpecs::Continuity => ModeSpecInfo { input_impedance: None, overload_protection: Some("1000V") },
            Ut61eRangeSpecs::DcUa => ModeSpecInfo { input_impedance: None, overload_protection: Some("F1 1A 240V") },
            Ut61eRangeSpecs::AcUa => ModeSpecInfo { input_impedance: None, overload_protection: Some("F1 1A 240V") },
            Ut61eRangeSpecs::DcMa => ModeSpecInfo { input_impedance: None, overload_protection: Some("F1 1A 240V") },
            Ut61eRangeSpecs::AcMa => ModeSpecInfo { input_impedance: None, overload_protection: Some("F1 1A 240V") },
            Ut61eRangeSpecs::DcA => ModeSpecInfo { input_impedance: None, overload_protection: Some("F2 10A 240V") },
            Ut61eRangeSpecs::AcA => ModeSpecInfo { input_impedance: None, overload_protection: Some("F2 10A 240V") },
            Ut61eRangeSpecs::Hfe => ModeSpecInfo { input_impedance: None, overload_protection: None },
            Ut61eRangeSpecs::AcdcV => ModeSpecInfo { input_impedance: Some("~10 M\u{2126}"), overload_protection: Some("1000V") },
            Ut61eRangeSpecs::LpfV => ModeSpecInfo { input_impedance: Some("~10 M\u{2126}"), overload_protection: Some("1000V") },
            Ut61eRangeSpecs::LpfMv => ModeSpecInfo { input_impedance: Some("~10 M\u{2126}"), overload_protection: Some("1000V") },
        }
    }

    /// What holds for the whole mode.
    pub fn mode_info(&self) -> (r: ModeSpecInfo)
        ensures
            r == self.spec_mode(),
    {
        match self {
            Ut61eRangeSpecs::DcV => ModeSpecInfo { input_impedance: Some("~10 M\u{2126}"), overload_protection: Some("1000V") },
            Ut61eRangeSpecs::AcV => ModeSpecInfo { input_impedance: Some("~10 M\u{2126}"), overload_protection: Some("1000V") },
            Ut61eRangeSpecs::DcMv => ModeSpecInfo { input_impedance: Some("~1 G\u{2126}"), overload_protection: Some("1000V") },
            Ut61eRangeSpecs::AcMv => ModeSpecInfo { input_impedance: Some("~10 M\u{2126}"), overload_protection: Some("1000V") },
            Ut61eRangeSpecs::Ohm => ModeSpecInfo { input_impedance: None, overload_protection: Some("1000V") },
            Ut61eRangeSpecs::Cap => ModeSpecInfo { input_impedance: None, overload_protection: Some("1000V") },
            Ut61eRangeSpecs::Hz => ModeSpecInfo { input_impedance: None, overload_protection: Some("1000V") },
            Ut61eRangeSpecs::Duty => ModeSpecInfo { input_impedance: None, overload_protection: Some("1000V") },
            Ut61eRangeSpecs::TempC => ModeSpecInfo { input_impedance: None, overload_protection: None },
            Ut61eRangeSpecs::TempF => ModeSpecInfo { input_impedance: None, overload_protection: None },
            Ut61eRangeSpecs::Diode => ModeSpecInfo { input_impedance: None, overload_protection: Some("1000V") },
            Ut61eRangeSpecs::Continuity => ModeSpecInfo { input_impedance: None, overload_protection: Some("1000V") },
            Ut61eRangeSpecs::DcUa => ModeSpecInfo { input_impedance: None, overload_protection: Some("F1 1A 240V") },
            Ut61eRangeSpecs::AcUa => ModeSpecInfo { input_impedance: None, overload_protection: Some("F1 1A 240V") },
            Ut61eRangeSpecs::DcMa => ModeSpecInfo { input_impedance: None, overload_protection: Some("F1 1A 240V") },
            Ut61eRangeSpecs::AcMa => ModeSpecInfo { input_impedance: None, overload_protection: Some("F1 1A 240V") },
            Ut61eRangeSpecs::DcA => ModeSpecInfo { input_impedance: None, overload_protection: Some("F2 10A 240V") },
            Ut61eRangeSpecs::AcA => ModeSpecInfo { input_impedance: None, overload_protection: Some("F2 10A 240V") },
            Ut61eRangeSpecs::Hfe => ModeSpecInfo { input_impedance: None, overload_protection: None },
            Ut61eRangeSpecs::AcdcV => ModeSpecInfo { input_impedance: Some("~10 M\u{2126}"), overload_protection: Some("1000V") },
            Ut61eRangeSpecs::LpfV => ModeSpecInfo { input_impedance: Some("~10 M\u{2126}"), overload_protection: Some("1000V") },
            Ut61eRangeSpecs::LpfMv => ModeSpecInfo { input_impedance: Some("~10 M\u{2126}"), overload_protection: Some("1000V") },
        }
    }

    /// The remarks on the mode.
    pub open spec fn spec_notes(self) -> Seq<&'static str> {
        match self {
            Ut61eRangeSpecs::DcV => seq![],
            Ut61eRangeSpecs::AcV => seq!["True RMS", "40Hz\u{2013}10kHz"],
            Ut61eRangeSpecs::DcMv => seq![],
            Ut61eRangeSpecs::AcMv => seq!["True RMS", "40Hz\u{2013}10kHz"],
            Ut61eRangeSpecs::Ohm => seq!["Open circuit ~3V"],
            Ut61eRangeSpecs::Cap => seq!["Use REL for small values"],
            Ut61eRangeSpecs::Hz => seq!["10Hz\u{2013}220MHz"],
            Ut61eRangeSpecs::Duty => seq!["Square waves only"],
            Ut61eRangeSpecs::TempC => seq!["K-type thermocouple", "Max 1000\u{00B0}C / 1832\u{00B0}F"],
            Ut61eRangeSpecs::TempF => seq!["K-type thermocouple", "Max 1000\u{00B0}C / 1832\u{00B0}F"],
            Ut61eRangeSpecs::Diode => seq!["Forward 0.12V\u{2013}2V"],
            Ut61eRangeSpecs::Continuity => seq!["Beep <50\u{2126}"],
            Ut61eRangeSpecs::DcUa => seq![],
            Ut61eRangeSpecs::AcUa => seq!["True RMS", "40Hz\u{2013}10kHz"],
            Ut61eRangeSpecs::DcMa => seq![],
            Ut61eRangeSpecs::AcMa => seq!["True RMS", "40Hz\u{2013}10kHz"],
            Ut61eRangeSpecs::DcA => seq![">5A: max 10s, rest 15min"],
            Ut61eRangeSpecs::AcA => seq!["True RMS", "40Hz\u{2013}10kHz", ">5A: max 10s, rest 15min"],
            Ut61eRangeSpecs::Hfe => seq!["Ib0 \u{2248}1.8\u{00B5}A", "Vce \u{2248}2.5V"],
            Ut61eRangeSpecs::AcdcV => seq!["True RMS", "40Hz\u{2013}500Hz"],
            Ut61eRangeSpecs::LpfV => seq!["True RMS", "LPF 40Hz\u{2013}100Hz"],
            Ut61eRangeSpecs::LpfMv => seq!["True RMS", "LPF 40Hz\u{2013}100Hz"],
        }
    }

    /// The remarks on the mode.
    pub fn notes(&self) -> (r: Vec<&'static str>)
        ensures
            r@ == self.spec_notes(),
    {
        match self {
            Ut61eRangeSpecs::DcV => vec![],
            Ut61eRangeSpecs::AcV => vec!["True RMS", "40Hz\u{2013}10kHz"],
            Ut61eRangeSpecs::DcMv => vec![],
            Ut61eRangeSpecs::AcMv => vec!["True RMS", "40Hz\u{2013}10kHz"],
            Ut61eRangeSpecs::Ohm => vec!["Open circuit ~3V"],
            Ut61eRangeSpecs::Cap => vec!["Use REL for small values"],
            Ut61eRangeSpecs::Hz => vec!["10Hz\u{2013}220MHz"],
            Ut61eRangeSpecs::Duty => vec!["Square waves only"],
            Ut61eRangeSpecs::TempC => vec!["K-type thermocouple", "Max 1000\u{00B0}C / 1832\u{00B0}F"],
            Ut61eRangeSpecs::TempF => vec!["K-type thermocouple", "Max 1000\u{00B0}C / 1832\u{00B0}F"],
            Ut61eRangeSpecs::Diode => vec!["Forward 0.12V\u{2013}2V"],
            Ut61eRangeSpecs::Continuity => vec!["Beep <50\u{2126}"],
            Ut61eRangeSpecs::DcUa => vec![],
            Ut61eRangeSpecs::AcUa => vec!["True RMS", "40Hz\u{2013}10kHz"],
            Ut61eRangeSpecs::DcMa => vec![],
            Ut61eRangeSpecs::AcMa => vec!["True RMS", "40Hz\u{2013}10kHz"],
            Ut61eRangeSpecs::DcA => vec![">5A: max 10s, rest 15min"],
            Ut61eRangeSpecs::AcA => vec!["True RMS", "40Hz\u{2013}10kHz", ">5A: max 10s, rest 15min"],
            Ut61eRangeSpecs::Hfe => vec!["Ib0 \u{2248}1.8\u{00B5}A", "Vce \u{2248}2.5V"],
            Ut61eRangeSpecs::AcdcV => vec!["True RMS", "40Hz\u{2013}500Hz"],
            Ut61eRangeSpecs::LpfV => vec!["True RMS", "LPF 40Hz\u{2013}100Hz"],
            Ut61eRangeSpecs::LpfMv => vec!["True RMS", "LPF 40Hz\u{2013}100Hz"],
        }
    }

}

/// The table a reading in `mode` takes; `None` for a mode the manual gives
/// no specifications.
pub open spec fn ut61e_range_specs_of(mode: Mode) -> Option<Ut61eRangeSpecs> {
    match mode {
        Mode::DcV => Some(Ut61eRangeSpecs::DcV),
        Mode::AcV => Some(Ut61eRangeSpecs::AcV),
        Mode::DcMv => Some(Ut61eRangeSpecs::DcMv),
        Mode::AcMv => Some(Ut61eRangeSpecs::AcMv),
        Mode::Ohm => Some(Ut61eRangeSpecs::Ohm),
        Mode::Capacitance => Some(Ut61eRangeSpecs::Cap),
        Mode::Hz => Some(Ut61eRangeSpecs::Hz),
        Mode::DutyCycle => Some(Ut61eRangeSpecs::Duty),
        Mode::TempC => Some(Ut61eRangeSpecs::TempC),
        Mode::TempF => Some(Ut61eRangeSpecs::TempF),
        Mode::Diode => Some(Ut61eRangeSpecs::Diode),
        Mode::Continuity => Some(Ut61eRangeSpecs::Continuity),
        Mode::DcUa => Some(Ut61eRangeSpecs::DcUa),
        Mode::AcUa => Some(Ut61eRangeSpecs::AcUa),
        Mode::DcMa => Some(Ut61eRangeSpecs::DcMa),
        Mode::AcMa => Some(Ut61eRangeSpecs::AcMa),
        Mode::DcA => Some(Ut61eRangeSpecs::DcA),
        Mode::AcA => Some(Ut61eRangeSpecs::AcA),
        Mode::Hfe => Some(Ut61eRangeSpecs::Hfe),
        Mode::AcDcV => Some(Ut61eRangeSpecs::AcdcV),
        Mode::LpfV => Some(Ut61eRangeSpecs::LpfV),
        Mode::LpfMv => Some(Ut61eRangeSpecs::LpfMv),
        _ => None,
    }
}

/// The table a reading in `mode` takes, as [`ut61e_range_specs_of`] says.
pub fn ut61e_range_specs_for(mode: Mode) -> (r: Option<Ut61eRangeSpecs>)
    ensures
        r == ut61e_range_specs_of(mode),
{
    match mode {
        Mode::DcV => Some(Ut61eRangeSpecs::DcV),
        Mode::AcV => Some(Ut61eRangeSpecs::AcV),
        Mode::DcMv => Some(Ut61eRangeSpecs::DcMv),
        Mode::AcMv => Some(Ut61eRangeSpecs::AcMv),
        Mode::Ohm => Some(Ut61eRangeSpecs::Ohm),
        Mode::Capacitance => Some(Ut61eRangeSpecs::Cap),
        Mode::Hz => Some(Ut61eRangeSpecs::Hz),
        Mode::DutyCycle => Some(Ut61eRangeSpecs::Duty),
        Mode::TempC => Some(Ut61eRangeSpecs::TempC),
        Mode::TempF => Some(Ut61eRangeSpecs::TempF),
        Mode::Diode => Some(Ut61eRangeSpecs::Diode),
        Mode::Continuity => Some(Ut61eRangeSpecs::Continuity),
        Mode::DcUa => Some(Ut61eRangeSpecs::DcUa),
        Mode::AcUa => Some(Ut61eRangeSpecs::AcUa),
        Mode::DcMa => Some(Ut61eRangeSpecs::DcMa),
        Mode::AcMa => Some(Ut61eRangeSpecs::AcMa),
        Mode::DcA => Some(Ut61eRangeSpecs::DcA),
        Mode::AcA => Some(Ut61eRangeSpecs::AcA),
        Mode::Hfe => Some(Ut61eRangeSpecs::Hfe),
        Mode::AcDcV => Some(Ut61eRangeSpecs::AcdcV),
        Mode::LpfV => Some(Ut61eRangeSpecs::LpfV),
        Mode::LpfMv => Some(Ut61eRangeSpecs::LpfMv),
        _ => None,
    }
}

/// The UT61B+ (6,000 counts) specification tables, one per mode, a row per range byte.
#[derive(Debug, Clone, Copy, PartialEq, Eq, Structural)]
pub enum Ut61bRangeSpecs {
    DcV,
    AcV,
    DcMv,
    AcMv,
    Ohm,
    Cap,
    Hz,
    Duty,
    Diode,
    Continuity,
    DcUa,
    AcUa,
    DcMa,
    AcMa,
    DcA,
    AcA,
}

impl Ut61bRangeSpecs {
    /// The resolution of each row, in range-byte order.
    pub open spec fn spec_resolutions(self) -> Seq<&'static str> {
        match self {
            Ut61bRangeSpecs::DcV => seq!["0.01mV", "0.1mV", "0.001V", "0.01V", "0.1V", "1V"],
            Ut61bRangeSpecs::AcV => seq!["0.01mV", "0.1mV", "0.001V", "0.01V", "0.1V", "1V"],
            Ut61bRangeSpecs::DcMv => seq!["0.01mV", "0.1mV"],
            Ut61bRangeSpecs::AcMv => seq!["0.01mV", "0.1mV"],
            Ut61bRangeSpecs::Ohm => seq!["0.1\u{2126}", "1\u{2126}", "10\u{2126}", "100\u{2126}", "1k\u{2126}", "10k\u{2126}"],
            Ut61bRangeSpecs::Cap => seq!["10pF", "100pF", "1nF", "10nF", "100nF", "1\u{00B5}F", "10\u{00B5}F"],
            Ut61bRangeSpecs::Hz => seq!["0.01Hz", "0.1Hz", "1Hz", "10Hz", "100Hz"],
            Ut61bRangeSpecs::Duty => seq!["0.1%"],
            Ut61bRangeSpecs::Diode => seq!["0.001V"],
            Ut61bRangeSpecs::Continuity => seq!["0.1\u{2126}"],
            Ut61bRangeSpecs::DcUa => seq!["0.1\u{00B5}A", "1\u{00B5}A"],
            Ut61bRangeSpecs::AcUa => seq!["0.1\u{00B5}A", "1\u{00B5}A"],
            Ut61bRangeSpecs::DcMa => seq!["10\u{00B5}A", "0.1mA"],
            Ut61bRangeSpecs::AcMa => seq!["10\u{00B5}A", "0.1mA"],
            Ut61bRangeSpecs::DcA => seq!["1mA", "10mA"],
            Ut61bRangeSpecs::AcA => seq!["1mA", "10mA"],
        }
    }

    /// The resolution of each row, in range-byte order.
    pub fn resolutions(&self) -> (r: Vec<&'static str>)
        ensures
            r@ == self.spec_resolutions(),
    {
        match self {
            Ut61bRangeSpecs::DcV => vec!["0.01mV", "0.1mV", "0.001V", "0.01V", "0.1V", "1V"],
            Ut61bRangeSpecs::AcV => vec!["0.01mV", "0.1mV", "0.001V", "0.01V", "0.1V", "1V"],
            Ut61bRangeSpecs::DcMv => vec!["0.01mV", "0.1mV"],
            Ut61bRangeSpecs::AcMv => vec!["0.01mV", "0.1mV"],
            Ut61bRangeSpecs::Ohm => vec!["0.1\u{2126}", "1\u{2126}", "10\u{2126}", "100\u{2126}", "1k\u{2126}", "10k\u{2126}"],
            Ut61bRangeSpecs::Cap => vec!["10pF", "100pF", "1nF", "10nF", "100nF", "1\u{00B5}F", "10\u{00B5}F"],
            Ut61bRangeSpecs::Hz => vec!["0.01Hz", "0.1Hz", "1Hz", "10Hz", "100Hz"],
            Ut61bRangeSpecs::Duty => vec!["0.1%"],
            Ut61bRangeSpecs::Diode => vec!["0.001V"],
            Ut61bRangeSpecs::Continuity => vec!["0.1\u{2126}"],
            Ut61bRangeSpecs::DcUa => vec!["0.1\u{00B5}A", "1\u{00B5}A"],
            Ut61bRangeSpecs::AcUa => vec!["0.1\u{00B5}A", "1\u{00B5}A"],
            Ut61bRangeSpecs::DcMa => vec!["10\u{00B5}A", "0.1mA"],
            Ut61bRangeSpecs::AcMa => vec!["10\u{00B5}A", "0.1mA"],
            Ut61bRangeSpecs::DcA => vec!["1mA", "10mA"],
            Ut61bRangeSpecs::AcA => vec!["1mA", "10mA"],
        }
    }

    /// The accuracy figures of row `row`.
    pub open spec fn spec_bands(self, row: int) -> Seq<AccuracyBand> {
        match self {
            Ut61bRangeSpecs::DcV => { if row == 0 { seq![AccuracyBand { freq_range: None, accuracy: "0.8%+5" }] } else if row == 1 { seq![AccuracyBand { freq_range: None, accuracy: "0.8%+5" }] } else if row == 2 { seq![AccuracyBand { freq_range: None, accuracy: "0.5%+3" }] } else if row == 3 { seq![AccuracyBand { freq_range: None, accuracy: "0.5%+3" }] } else if row == 4 { seq![AccuracyBand { freq_range: None, accuracy: "0.5%+3" }] } else if row == 5 { seq![AccuracyBand { freq_range: None, accuracy: "1.0%+3" }] } else { seq![] } },
            Ut61bRangeSpecs::AcV => { if row == 0 { seq![AccuracyBand { freq_range: Some("40Hz\u{2013}500Hz"), accuracy: "1.2%+5" }] } else if row == 1 { seq![AccuracyBand { freq_range: Some("40Hz\u{2013}500Hz"), accuracy: "1.2%+5" }] } else if row == 2 { seq![AccuracyBand { freq_range: Some("40Hz\u{2013}500Hz"), accuracy: "1.0%+3" }] } else if row == 3 { seq![AccuracyBand { freq_range: Some("40Hz\u{2013}500Hz"), accuracy: "1.0%+3" }] } else if row == 4 { seq![AccuracyBand { freq_range: Some("40Hz\u{2013}500Hz"), accuracy: "1.0%+3" }] } else if row == 5 { seq![AccuracyBand { freq_range: Some("40Hz\u{2013}500Hz"), accuracy: "1.2%+5" }] } else { seq![] } },
            Ut61bRangeSpecs::DcMv => { if row == 0 { seq![AccuracyBand { freq_range: None, accuracy: "0.8%+5" }] } else if row == 1 { seq![AccuracyBand { freq_range: None, accuracy: "0.8%+5" }] } else { seq![] } },
            Ut61bRangeSpecs::AcMv => { if row == 0 { seq![AccuracyBand { freq_range: Some("40Hz\u{2013}500Hz"), accuracy: "1.2%+5" }] } else if row == 1 { seq![AccuracyBand { freq_range: Some("40Hz\u{2013}500Hz"), accuracy: "1.2%+5" }] } else { seq![] } },
            Ut61bRangeSpecs::Ohm => { if row == 0 { seq![AccuracyBand { freq_range: None, accuracy: "1.2%+2" }] } else if row == 1 { seq![AccuracyBand { freq_range: None, accuracy: "1.0%+2" }] } else if row == 2 { seq![AccuracyBand { freq_range: None, accuracy: "1.0%+2" }] } else if row == 3 { seq![AccuracyBand { freq_range: None, accuracy: "1.0%+2" }] } else if row == 4 { seq![AccuracyBand { freq_range: None, accuracy: "1.2%+2" }] } else if row == 5 { seq![AccuracyBand { freq_range: None, accuracy: "2.0%+5" }] } else { seq![] } },
            Ut61bRangeSpecs::Cap => { if row == 0 { seq![AccuracyBand { freq_range: None, accuracy: "3%+5" }] } else if row == 1 { seq![AccuracyBand { freq_range: None, accuracy: "3%+5" }] } else if row == 2 { seq![AccuracyBand { freq_range: None, accuracy: "3%+5" }] } else if row == 3 { seq![AccuracyBand { freq_range: None, accuracy: "3%+5" }] } else if row == 4 { seq![AccuracyBand { freq_range: None, accuracy: "3%+5" }] } else if row == 5 { seq![AccuracyBand { freq_range: None, accuracy: "10%+5" }] } else if row == 6 { seq![AccuracyBand { freq_range: None, accuracy: "10%+5" }] } else { seq![] } },
            Ut61bRangeSpecs::Hz => { if row == 0 { seq![AccuracyBand { freq_range: None, accuracy: "0.1%+4" }] } else if row == 1 { seq![AccuracyBand { freq_range: None, accuracy: "0.1%+4" }] } else if row == 2 { seq![AccuracyBand { freq_range: None, accuracy: "0.1%+4" }] } else if row == 3 { seq![AccuracyBand { freq_range: None, accuracy: "0.1%+4" }] } else if row == 4 { seq![AccuracyBand { freq_range: None, accuracy: "0.1%+4" }] } else { seq![] } },
            Ut61bRangeSpecs::Duty => { if row == 0 { seq![AccuracyBand { freq_range: None, accuracy: "2.0%+5" }] } else { seq![] } },
            Ut61bRangeSpecs::Diode => { if row == 0 { seq![] } else { seq![] } },
            Ut61bRangeSpecs::Continuity => { if row == 0 { seq![] } else { seq![] } },
            Ut61bRangeSpecs::DcUa => { if row == 0 { seq![AccuracyBand { freq_range: None, accuracy: "1.0%+2" }] } else if row == 1 { seq![AccuracyBand { freq_range: None, accuracy: "1.0%+2" }] } else { seq![] } },
            Ut61bRangeSpecs::AcUa => { if row == 0 { seq![AccuracyBand { freq_range: Some("40Hz\u{2013}500Hz"), accuracy: "1.2%+5" }] } else if row == 1 { seq![AccuracyBand { freq_range: Some("40Hz\u{2013}500Hz"), accuracy: "1.2%+5" }] } else { seq![] } },
            Ut61bRangeSpecs::DcMa => { if row == 0 { seq![AccuracyBand { freq_range: None, accuracy: "1.0%+3" }] } else if row == 1 { seq![AccuracyBand { freq_range: None, accuracy: "1.0%+3" }] } else { seq![] } },
            Ut61bRangeSpecs::AcMa => { if row == 0 { seq![AccuracyBand { freq_range: Some("40Hz\u{2013}500Hz"), accuracy: "1.5%+5" }] } else if row == 1 { seq![AccuracyBand { freq_range: Some("40Hz\u{2013}500Hz"), accuracy: "1.5%+5" }] } else { seq![] } },
            Ut61bRangeSpecs::DcA => { if row == 0 { seq![AccuracyBand { freq_range: None, accuracy: "1.2%+5" }] } else if row == 1 { seq![AccuracyBand { freq_range: None, accuracy: "1.2%+5" }] } else { seq![] } },
            Ut61bRangeSpecs::AcA => { if row == 0 { seq![AccuracyBand { freq_range: Some("40Hz\u{2013}500Hz"), accuracy: "2.0%+5" }] } else if row == 1 { seq![AccuracyBand { freq_range: Some("40Hz\u{2013}500Hz"), accuracy: "2.0%+5" }] } else { seq![] } },
        }
    }

    /// The accuracy figures of row `row`.
    pub fn bands(&self, row: usize) -> (r: Vec<AccuracyBand>)
        ensures
            r@ == self.spec_bands(row as int),
    {
        match self {
            Ut61bRangeSpecs::DcV => { if row == 0 { vec![AccuracyBand { freq_range: None, accuracy: "0.8%+5" }] } else if row == 1 { vec![AccuracyBand { freq_range: None, accuracy: "0.8%+5" }] } else if row == 2 { vec![AccuracyBand { freq_range: None, accuracy: "0.5%+3" }] } else if row == 3 { vec![AccuracyBand { freq_range: None, accuracy: "0.5%+3" }] } else if row == 4 { vec![AccuracyBand { freq_range: None, accuracy: "0.5%+3" }] } else if row == 5 { vec![AccuracyBand { freq_range: None, accuracy: "1.0%+3" }] } else { vec![] } },
            Ut61bRangeSpecs::AcV => { if row == 0 { vec![AccuracyBand { freq_range: Some("40Hz\u{2013}500Hz"), accuracy: "1.2%+5" }] } else if row == 1 { vec![AccuracyBand { freq_range: Some("40Hz\u{2013}500Hz"), accuracy: "1.2%+5" }] } else if row == 2 { vec![AccuracyBand { freq_range: Some("40Hz\u{2013}500Hz"), accuracy: "1.0%+3" }] } else if row == 3 { vec![AccuracyBand { freq_range: Some("40Hz\u{2013}500Hz"), accuracy: "1.0%+3" }] } else if row == 4 { vec![AccuracyBand { freq_range: Some("40Hz\u{2013}500Hz"), accuracy: "1.0%+3" }] } else if row == 5 { vec![AccuracyBand { freq_range: Some("40Hz\u{2013}500Hz"), accuracy: "1.2%+5" }] } else { vec![] } },
            Ut61bRangeSpecs::DcMv => { if row == 0 { vec![AccuracyBand { freq_range: None, accuracy: "0.8%+5" }] } else if row == 1 { vec![AccuracyBand { freq_range: None, accuracy: "0.8%+5" }] } else { vec![] } },
            Ut61bRangeSpecs::AcMv => { if row == 0 { vec![AccuracyBand { freq_range: Some("40Hz\u{2013}500Hz"), accuracy: "1.2%+5" }] } else if row == 1 { vec![AccuracyBand { freq_range: Some("40Hz\u{2013}500Hz"), accuracy: "1.2%+5" }] } else { vec![] } },
            Ut61bRangeSpecs::Ohm => { if row == 0 { vec![AccuracyBand { freq_range: None, accuracy: "1.2%+2" }] } else if row == 1 { vec![AccuracyBand { freq_range: None, accuracy: "1.0%+2" }] } else if row == 2 { vec![AccuracyBand { freq_range: None, accuracy: "1.0%+2" }] } else if row == 3 { vec![AccuracyBand { freq_range: None, accuracy: "1.0%+2" }] } else if row == 4 { vec![AccuracyBand { freq_range: None, accuracy: "1.2%+2" }] } else if row == 5 { vec![AccuracyBand { freq_range: None, accuracy: "2.0%+5" }] } else { vec![] } },
            Ut61bRangeSpecs::Cap => { if row == 0 { vec![AccuracyBand { freq_range: None, accuracy: "3%+5" }] } else if row == 1 { vec![AccuracyBand { freq_range: None, accuracy: "3%+5" }] } else if row == 2 { vec![AccuracyBand { freq_range: None, accuracy: "3%+5" }] } else if row == 3 { vec![AccuracyBand { freq_range: None, accuracy: "3%+5" }] } else if row == 4 { vec![AccuracyBand { freq_range: None, accuracy: "3%+5" }] } else if row == 5 { vec![AccuracyBand { freq_range: None, accuracy: "10%+5" }] } else if row == 6 { vec![AccuracyBand { freq_range: None, accuracy: "10%+5" }] } else { vec![] } },
            Ut61bRangeSpecs::Hz => { if row == 0 { vec![AccuracyBand { freq_range: None, accuracy: "0.1%+4" }] } else if row == 1 { vec![AccuracyBand { freq_range: None, accuracy: "0.1%+4" }] } else if row == 2 { vec![AccuracyBand { freq_range: None, accuracy: "0.1%+4" }] } else if row == 3 { vec![AccuracyBand { freq_range: None, accuracy: "0.1%+4" }] } else if row == 4 { vec![AccuracyBand { freq_range: None, accuracy: "0.1%+4" }] } else { vec![] } },
            Ut61bRangeSpecs::Duty => { if row == 0 { vec![AccuracyBand { freq_range: None, accuracy: "2.0%+5" }] } else { vec![] } },
            Ut61bRangeSpecs::Diode => { if row == 0 { vec![] } else { vec![] } },
            Ut61bRangeSpecs::Continuity => { if row == 0 { vec![] } else { vec![] } },
            Ut61bRangeSpecs::DcUa => { if row == 0 { vec![AccuracyBand { freq_range: None, accuracy: "1.0%+2" }] } else if row == 1 { vec![AccuracyBand { freq_range: None, accuracy: "1.0%+2" }] } else { vec![] } },
            Ut61bRangeSpecs::AcUa => { if row == 0 { vec![AccuracyBand { freq_range: Some("40Hz\u{2013}500Hz"), accuracy: "1.2%+5" }] } else if row == 1 { vec![AccuracyBand { freq_range: Some("40Hz\u{2013}500Hz"), accuracy: "1.2%+5" }] } else { vec![] } },
            Ut61bRangeSpecs::DcMa => { if row == 0 { vec![AccuracyBand { freq_range: None, accuracy: "1.0%+3" }] } else if row == 1 { vec![AccuracyBand { freq_range: None, accuracy: "1.0%+3" }] } else { vec![] } },
            Ut61bRangeSpecs::AcMa => { if row == 0 { vec![AccuracyBand { freq_range: Some("40Hz\u{2013}500Hz"), accuracy: "1.5%+5" }] } else if row == 1 { vec![AccuracyBand { freq_range: Some("40Hz\u{2013}500Hz"), accuracy: "1.5%+5" }] } else { vec![] } },
            Ut61bRangeSpecs::DcA => { if row == 0 { vec![AccuracyBand { freq_range: None, accuracy: "1.2%+5" }] } else if row == 1 { vec![AccuracyBand { freq_range: None, accuracy: "1.2%+5" }] } else { vec![] } },
            Ut61bRangeSpecs::AcA => { if row == 0 { vec![AccuracyBand { freq_range: Some("40Hz\u{2013}500Hz"), accuracy: "2.0%+5" }] } else if row == 1 { vec![AccuracyBand { freq_range: Some("40Hz\u{2013}500Hz"), accuracy: "2.0%+5" }] } else { vec![] } },
        }
    }

    /// What holds for the whole mode.
    pub open spec fn spec_mode(self) -> ModeSpecInfo {
        match self {
            Ut61bRangeSpecs::DcV => ModeSpecInfo { input_impedance: Some("~10 M\u{2126}"), overload_protection: Some("1000V") },
            Ut61bRangeSpecs::AcV => ModeSpecInfo { input_impedance: Some("~10 M\u{2126}"), overload_protection: Some("1000V") },
            Ut61bRangeSpecs::DcMv => ModeSpecInfo { input_impedance: Some("~1 G\u{2126}"), overload_protection: Some("1000V") },
            Ut61bRangeSpecs::AcMv => ModeSpecInfo { input_impedance: Some("~10 M\u{2126}"), overload_protection: Some("1000V") },
            Ut61bRangeSpecs::Ohm => ModeSpecInfo { input_impedance: None, overload_protection: Some("1000V") },
            Ut61bRangeSpecs::Cap => ModeSpecInfo { input_impedance: None, overload_protection: Some("1000V") },
            Ut61bRangeSpecs::Hz => ModeSpecInfo { input_impedance: None, overload_protection: Some("1000V") },
            Ut61bRangeSpecs::Duty => ModeSpecInfo { input_impedance: None, overload_protection: Some("1000V") },
            Ut61bRangeSpecs::Diode => ModeSpecInfo { input_impedance: None, overload_protection: Some("1000V") },
            Ut61bRangeSpecs::Continuity => ModeSpecInfo { input_impedance: None, overload_protection: Some("1000V") },
            Ut61bRangeSpecs::DcUa => ModeSpecInfo { input_impedance: None, overload_protection: Some("F1 1A 240V") },
            Ut61bRangeSpecs::AcUa => ModeSpecInfo { input_impedance: None, overload_protection: Some("F1 1A 240V") },
            Ut61bRangeSpecs::DcMa => ModeSpecInfo { input_impedance: None, overload_protection: Some("F1 1A 240V") },
            Ut61bRangeSpecs::AcMa => ModeSpecInfo { input_impedance: None, overload_protection: Some("F1 1A 240V") },
            Ut61bRangeSpecs::DcA => ModeSpecInfo { input_impedance: None, overload_protection: Some("F2 10A 240V") },
            Ut61bRangeSpecs::AcA => ModeSpecInfo { input_impedance: None, overload_protection: Some("F2 10A 240V") },
        }
    }

    /// What holds for the whole mode.
    pub fn mode_info(&self) -> (r: ModeSpecInfo)
        ensures
            r == self.spec_mode(),
    {
        match self {
            Ut61bRangeSpecs::DcV => ModeSpecInfo { input_impedance: Some("~10 M\u{2126}"), overload_protection: Some("1000V") },
            Ut61bRangeSpecs::AcV => ModeSpecInfo { input_impedance: Some("~10 M\u{2126}"), overload_protection: Some("1000V") },
            Ut61bRangeSpecs::DcMv => ModeSpecInfo { input_impedance: Some("~1 G\u{2126}"), overload_protection: Some("1000V") },
            Ut61bRangeSpecs::AcMv => ModeSpecInfo { input_impedance: Some("~10 M\u{2126}"), overload_protection: Some("1000V") },
            Ut61bRangeSpecs::Ohm => ModeSpecInfo { input_impedance: None, overload_protection: Some("1000V") },
            Ut61bRangeSpecs::Cap => ModeSpecInfo { input_impedance: None, overload_protection: Some("1000V") },
            Ut61bRangeSpecs::Hz => ModeSpecInfo { input_impedance: None, overload_protection: Some("1000V") },
            Ut61bRangeSpecs::Duty => ModeSpecInfo { input_impedance: None, overload_protection: Some("1000V") },
            Ut61bRangeSpecs::Diode => ModeSpecInfo { input_impedance: None, overload_protection: Some("1000V") },
            Ut61bRangeSpecs::Continuity => ModeSpecInfo { input_impedance: None, overload_protection: Some("1000V") },
            Ut61bRangeSpecs::DcUa => ModeSpecInfo { input_impedance: None, overload_protection: Some("F1 1A 240V") },
            Ut61bRangeSpecs::AcUa => ModeSpecInfo { input_impedance: None, overload_protection: Some("F1 1A 240V") },
            Ut61bRangeSpecs::DcMa => ModeSpecInfo { input_impedance: None, overload_protection: Some("F1 1A 240V") },
            Ut61bRangeSpecs::AcMa => ModeSpecInfo { input_impedance: None, overload_protection: Some("F1 1A 240V") },
            Ut61bRangeSpecs::DcA => ModeSpecInfo { input_impedance: None, overload_protection: Some("F2 10A 240V") },
            Ut61bRangeSpecs::AcA => ModeSpecInfo { input_impedance: None, overload_protection: Some("F2 10A 240V") },
        }
    }

    /// The remarks on the mode.
    pub open spec fn spec_notes(self) -> Seq<&'static str> {
        match self {
            Ut61bRangeSpecs::DcV => seq![],
            Ut61bRangeSpecs::AcV => seq!["True RMS", "40Hz\u{2013}500Hz"],
            Ut61bRangeSpecs::DcMv => seq![],
            Ut61bRangeSpecs::AcMv => seq!["True RMS", "40Hz\u{2013}500Hz"],
            Ut61bRangeSpecs::Ohm => seq!["Open circuit ~1V"],
            Ut61bRangeSpecs::Cap => seq!["Use REL for \u{2264}1\u{00B5}F"],
            Ut61bRangeSpecs::Hz => seq!["10Hz\u{2013}10MHz"],
            Ut61bRangeSpecs::Duty => seq!["Square waves only"],
            Ut61bRangeSpecs::Diode => seq!["Forward 0.12V\u{2013}2V"],
            Ut61bRangeSpecs::Continuity => seq!["Beep <50\u{2126}"],
            Ut61bRangeSpecs::DcUa => seq![],
            Ut61bRangeSpecs::AcUa => seq!["True RMS", "40Hz\u{2013}500Hz"],
            Ut61bRangeSpecs::DcMa => seq![],
            Ut61bRangeSpecs::AcMa => seq!["True RMS", "40Hz\u{2013}500Hz"],
            Ut61bRangeSpecs::DcA => seq![">5A: max 10s, rest 15min"],
            Ut61bRangeSpecs::AcA => seq!["True RMS", "40Hz\u{2013}500Hz", ">5A: max 10s, rest 15min"],
        }
    }

    /// The remarks on the mode.
    pub fn notes(&self) -> (r: Vec<&'static str>)
        ensures
            r@ == self.spec_notes(),
    {
        match self {
            Ut61bRangeSpecs::DcV => vec![],
            Ut61bRangeSpecs::AcV => vec!["True RMS", "40Hz\u{2013}500Hz"],
            Ut61bRangeSpecs::DcMv => vec![],
            Ut61bRangeSpecs::AcMv => vec!["True RMS", "40Hz\u{2013}500Hz"],
            Ut61bRangeSpecs::Ohm => vec!["Open circuit ~1V"],
            Ut61bRangeSpecs::Cap => vec!["Use REL for \u{2264}1\u{00B5}F"],
            Ut61bRangeSpecs::Hz => vec!["10Hz\u{2013}10MHz"],
            Ut61bRangeSpecs::Duty => vec!["Square waves only"],
            Ut61bRangeSpecs::Diode => vec!["Forward 0.12V\u{2013}2V"],
            Ut61bRangeSpecs::Continuity => vec!["Beep <50\u{2126}"],
            Ut61bRangeSpecs::DcUa => vec![],
            Ut61bRangeSpecs::AcUa => vec!["True RMS", "40Hz\u{2013}500Hz"],
            Ut61bRangeSpecs::DcMa => vec![],
            Ut61bRangeSpecs::AcMa => vec!["True RMS", "40Hz\u{2013}500Hz"],
            Ut61bRangeSpecs::DcA => vec![">5A: max 10s, rest 15min"],
            Ut61bRangeSpecs::AcA => vec!["True RMS", "40Hz\u{2013}500Hz", ">5A: max 10s, rest 15min"],
        }
    }

}

/// The table a reading in `mode` takes; `None` for a mode the manual gives
/// no specifications.
pub open spec fn ut61b_range_specs_of(mode: Mode) -> Option<Ut61bRangeSpecs> {
    match mode {
        Mode::DcV => Some(Ut61bRangeSpecs::DcV),
        Mode::AcV => Some(Ut61bRangeSpecs::AcV),
        Mode::DcMv => Some(Ut61bRangeSpecs::DcMv),
        Mode::AcMv => Some(Ut61bRangeSpecs::AcMv),
        Mode::Ohm => Some(Ut61bRangeSpecs::Ohm),
        Mode::Capacitance => Some(Ut61bRangeSpecs::Cap),
        Mode::Hz => Some(Ut61bRangeSpecs::Hz),
        Mode::DutyCycle => Some(Ut61bRangeSpecs::Duty),
        Mode::Diode => Some(Ut61bRangeSpecs::Diode),
        Mode::Continuity => Some(Ut61bRangeSpecs::Continuity),
        Mode::DcUa => Some(Ut61bRangeSpecs::DcUa),
        Mode::AcUa => Some(Ut61bRangeSpecs::AcUa),
        Mode::DcMa => Some(Ut61bRangeSpecs::DcMa),
        Mode::AcMa => Some(Ut61bRangeSpecs::AcMa),
        Mode::DcA => Some(Ut61bRangeSpecs::DcA),
        Mode::AcA => Some(Ut61bRangeSpecs::AcA),
        _ => None,
    }
}

/// The table a reading in `mode` takes, as [`ut61b_range_specs_of`] says.
pub fn ut61b_range_specs_for(mode: Mode) -> (r: Option<Ut61bRangeSpecs>)
    ensures
        r == ut61b_range_specs_of(mode),
{
    match mode {
        Mode::DcV => Some(Ut61bRangeSpecs::DcV),
        Mode::AcV => Some(Ut61bRangeSpecs::AcV),
        Mode::DcMv => Some(Ut61bRangeSpecs::DcMv),
        Mode::AcMv => Some(Ut61bRangeSpecs::AcMv),
        Mode::Ohm => Some(Ut61bRangeSpecs::Ohm),
        Mode::Capacitance => Some(Ut61bRangeSpecs::Cap),
        Mode::Hz => Some(Ut61bRangeSpecs::Hz),
        Mode::DutyCycle => Some(Ut61bRangeSpecs::Duty),
        Mode::Diode => Some(Ut61bRangeSpecs::Diode),
        Mode::Continuity => Some(Ut61bRangeSpecs::Continuity),
        Mode::DcUa => Some(Ut61bRangeSpecs::DcUa),
        Mode::AcUa => Some(Ut61bRangeSpecs::AcUa),
        Mode::DcMa => Some(Ut61bRangeSpecs::DcMa),
        Mode::AcMa => Some(Ut61bRangeSpecs::AcMa),
        Mode::DcA => Some(Ut61bRangeSpecs::DcA),
        Mode::AcA => Some(Ut61bRangeSpecs::AcA),
        _ => None,
    }
}

/// The UT61D+ (6,000 counts): the UT61B+'s for the DC modes, its own for the AC ones (40Hz to 1kHz), temperature and LoZ V specification tables, one per mode, a row per range byte.
#[derive(Debug, Clone, Copy, PartialEq, Eq, Structural)]
pub enum Ut61dRangeSpecs {
    DcV,
    AcV,
    DcMv,
    AcMv,
    Ohm,
    Cap,
    Hz,
    Duty,
    TempC,
    TempF,
    Diode,
    Continuity,
    DcUa,
    AcUa,
    DcMa,
    AcMa,
    DcA,
    AcA,
    LozV,
}

impl Ut61dRangeSpecs {
    /// The resolution of each row, in range-byte order.
    pub open spec fn spec_resolutions(self) -> Seq<&'static str> {
        match self {
            Ut61dRangeSpecs::DcV => seq!["0.01mV", "0.1mV", "0.001V", "0.01V", "0.1V", "1V"],
            Ut61dRangeSpecs::AcV => seq!["0.01mV", "0.1mV", "0.001V", "0.01V", "0.1V", "1V"],
            Ut61dRangeSpecs::DcMv => seq!["0.01mV", "0.1mV"],
            Ut61dRangeSpecs::AcMv => seq!["0.01mV", "0.1mV"],
            Ut61dRangeSpecs::Ohm => seq!["0.1\u{2126}", "1\u{2126}", "10\u{2126}", "100\u{2126}", "1k\u{2126}", "10k\u{2126}"],
            Ut61dRangeSpecs::Cap => seq!["10pF", "100pF", "1nF", "10nF", "100nF", "1\u{00B5}F", "10\u{00B5}F"],
            Ut61dRangeSpecs::Hz => seq!["0.01Hz", "0.1Hz", "1Hz", "10Hz", "100Hz"],
            Ut61dRangeSpecs::Duty => seq!["0.1%"],
            Ut61dRangeSpecs::TempC => seq!["0.1\u{00B0}C"],
            Ut61dRangeSpecs::TempF => seq!["0.2\u{00B0}F"],
            Ut61dRangeSpecs::Diode => seq!["0.001V"],
            Ut61dRangeSpecs::Continuity => seq!["0.1\u{2126}"],
            Ut61dRangeSpecs::DcUa => seq!["0.1\u{00B5}A", "1\u{00B5}A"],
            Ut61dRangeSpecs::AcUa => seq!["0.1\u{00B5}A", "1\u{00B5}A"],
            Ut61dRangeSpecs::DcMa => seq!["10\u{00B5}A", "0.1mA"],
            Ut61dRangeSpecs::AcMa => seq!["10\u{00B5}A", "0.1mA"],
            Ut61dRangeSpecs::DcA => seq!["10mA", "10mA"],
            Ut61dRangeSpecs::AcA => seq!["10mA", "10mA"],
            Ut61dRangeSpecs::LozV => seq!["0.1V", "1V"],
        }
    }

    /// The resolution of each row, in range-byte order.
    pub fn resolutions(&self) -> (r: Vec<&'static str>)
        ensures
            r@ == self.spec_resolutions(),
    {
        match self {
            Ut61dRangeSpecs::DcV => vec!["0.01mV", "0.1mV", "0.001V", "0.01V", "0.1V", "1V"],
            Ut61dRangeSpecs::AcV => vec!["0.01mV", "0.1mV", "0.001V", "0.01V", "0.1V", "1V"],
            Ut61dRangeSpecs::DcMv => vec!["0.01mV", "0.1mV"],
            Ut61dRangeSpecs::AcMv => vec!["0.01mV", "0.1mV"],
            Ut61dRangeSpecs::Ohm => vec!["0.1\u{2126}", "1\u{2126}", "10\u{2126}", "100\u{2126}", "1k\u{2126}", "10k\u{2126}"],
            Ut61dRangeSpecs::Cap => vec!["10pF", "100pF", "1nF", "10nF", "100nF", "1\u{00B5}F", "10\u{00B5}F"],
            Ut61dRangeSpecs::Hz => vec!["0.01Hz", "0.1Hz", "1Hz", "10Hz", "100Hz"],
            Ut61dRangeSpecs::Duty => vec!["0.1%"],
            Ut61dRangeSpecs::TempC => vec!["0.1\u{00B0}C"],
            Ut61dRangeSpecs::TempF => vec!["0.2\u{00B0}F"],
            Ut61dRangeSpecs::Diode => vec!["0.001V"],
            Ut61dRangeSpecs::Continuity => vec!["0.1\u{2126}"],
            Ut61dRangeSpecs::DcUa => vec!["0.1\u{00B5}A", "1\u{00B5}A"],
            Ut61dRangeSpecs::AcUa => vec!["0.1\u{00B5}A", "1\u{00B5}A"],
            Ut61dRangeSpecs::DcMa => vec!["10\u{00B5}A", "0.1mA"],
            Ut61dRangeSpecs::AcMa => vec!["10\u{00B5}A", "0.1mA"],
            Ut61dRangeSpecs::DcA => vec!["10mA", "10mA"],
            Ut61dRangeSpecs::AcA => vec!["10mA", "10mA"],
            Ut61dRangeSpecs::LozV => vec!["0.1V", "1V"],
        }
    }

    /// The accuracy figures of row `row`.
    pub open spec fn spec_bands(self, row: int) -> Seq<AccuracyBand> {
        match self {
            Ut61dRangeSpecs::DcV => { if row == 0 { seq![AccuracyBand { freq_range: None, accuracy: "0.8%+5" }] } else if row == 1 { seq![AccuracyBand { freq_range: None, accuracy: "0.8%+5" }] } else if row == 2 { seq![AccuracyBand { freq_range: None, accuracy: "0.5%+3" }] } else if row == 3 { seq![AccuracyBand { freq_range: None, accuracy: "0.5%+3" }] } else if row == 4 { seq![AccuracyBand { freq_range: None, accuracy: "0.5%+3" }] } else if row == 5 { seq![AccuracyBand { freq_range: None, accuracy: "1.0%+3" }] } else { seq![] } },
            Ut61dRangeSpecs::AcV => { if row == 0 { seq![AccuracyBand { freq_range: Some("40Hz\u{2013}1kHz"), accuracy: "1.2%+5" }] } else if row == 1 { seq![AccuracyBand { freq_range: Some("40Hz\u{2013}1kHz"), accuracy: "1.2%+5" }] } else if row == 2 { seq![AccuracyBand { freq_range: Some("40Hz\u{2013}1kHz"), accuracy: "1.0%+3" }] } else if row == 3 { seq![AccuracyBand { freq_range: Some("40Hz\u{2013}1kHz"), accuracy: "1.0%+3" }] } else if row == 4 { seq![AccuracyBand { freq_range: Some("40Hz\u{2013}1kHz"), accuracy: "1.0%+3" }] } else if row == 5 { seq![AccuracyBand { freq_range: Some("40Hz\u{2013}1kHz"), accuracy: "1.2%+5" }] } else { seq![] } },
            Ut61dRangeSpecs::DcMv => { if row == 0 { seq![AccuracyBand { freq_range: None, accuracy: "0.8%+5" }] } else if row == 1 { seq![AccuracyBand { freq_range: None, accuracy: "0.8%+5" }] } else { seq![] } },
            Ut61dRangeSpecs::AcMv => { if row == 0 { seq![AccuracyBand { freq_range: Some("40Hz\u{2013}1kHz"), accuracy: "1.2%+5" }] } else if row == 1 { seq![AccuracyBand { freq_range: Some("40Hz\u{2013}1kHz"), accuracy: "1.2%+5" }] } else { seq![] } },
            Ut61dRangeSpecs::Ohm => { if row == 0 { seq![AccuracyBand { freq_range: None, accuracy: "1.2%+2" }] } else if row == 1 { seq![AccuracyBand { freq_range: None, accuracy: "1.0%+2" }] } else if row == 2 { seq![AccuracyBand { freq_range: None, accuracy: "1.0%+2" }] } else if row == 3 { seq![AccuracyBand { freq_range: None, accuracy: "1.0%+2" }] } else if row == 4 { seq![AccuracyBand { freq_range: None, accuracy: "1.2%+2" }] } else if row == 5 { seq![AccuracyBand { freq_range: None, accuracy: "2.0%+5" }] } else { seq![] } },
            Ut61dRangeSpecs::Cap => { if row == 0 { seq![AccuracyBand { freq_range: None, accuracy: "3%+5" }] } else if row == 1 { seq![AccuracyBand { freq_range: None, accuracy: "3%+5" }] } else if row == 2 { seq![AccuracyBand { freq_range: None, accuracy: "3%+5" }] } else if row == 3 { seq![AccuracyBand { freq_range: None, accuracy: "3%+5" }] } else if row == 4 { seq![AccuracyBand { freq_range: None, accuracy: "3%+5" }] } else if row == 5 { seq![AccuracyBand { freq_range: None, accuracy: "10%+5" }] } else if row == 6 { seq![AccuracyBand { freq_range: None, accuracy: "10%+5" }] } else { seq![] } },
            Ut61dRangeSpecs::Hz => { if row == 0 { seq![AccuracyBand { freq_range: None, accuracy: "0.1%+4" }] } else if row == 1 { seq![AccuracyBand { freq_range: None, accuracy: "0.1%+4" }] } else if row == 2 { seq![AccuracyBand { freq_range: None, accuracy: "0.1%+4" }] } else if row == 3 { seq![AccuracyBand { freq_range: None, accuracy: "0.1%+4" }] } else if row == 4 { seq![AccuracyBand { freq_range: None, accuracy: "0.1%+4" }] } else { seq![] } },
            Ut61dRangeSpecs::Duty => { if row == 0 { seq![AccuracyBand { freq_range: None, accuracy: "2.0%+5" }] } else { seq![] } },
            Ut61dRangeSpecs::TempC => { if row == 0 { seq![AccuracyBand { freq_range: Some("-40\u{00B0}C\u{2013}0\u{00B0}C"), accuracy: "1.0%+3\u{00B0}C" }, AccuracyBand { freq_range: Some("0\u{00B0}C\u{2013}230\u{00B0}C"), accuracy: "1.0%+2\u{00B0}C" }] } else { seq![] } },
            Ut61dRangeSpecs::TempF => { if row == 0 { seq![AccuracyBand { freq_range: Some("-40\u{00B0}F\u{2013}32\u{00B0}F"), accuracy: "1.0%+6\u{00B0}F" }, AccuracyBand { freq_range: Some("32\u{00B0}F\u{2013}446\u{00B0}F"), accuracy: "1.0%+4\u{00B0}F" }] } else { seq![] } },
            Ut61dRangeSpecs::Diode => { if row == 0 { seq![] } else { seq![] } },
            Ut61dRangeSpecs::Continuity => { if row == 0 { seq![] } else { seq![] } },
            Ut61dRangeSpecs::DcUa => { if row == 0 { seq![AccuracyBand { freq_range: None, accuracy: "1.0%+2" }] } else if row == 1 { seq![AccuracyBand { freq_range: None, accuracy: "1.0%+2" }] } else { seq![] } },
            Ut61dRangeSpecs::AcUa => { if row == 0 { seq![AccuracyBand { freq_range: Some("40Hz\u{2013}1kHz"), accuracy: "1.2%+5" }] } else if row == 1 { seq![AccuracyBand { freq_range: Some("40Hz\u{2013}1kHz"), accuracy: "1.2%+5" }] } else { seq![] } },
            Ut61dRangeSpecs::DcMa => { if row == 0 { seq![AccuracyBand { freq_range: None, accuracy: "1.0%+3" }] } else if row == 1 { seq![AccuracyBand { freq_range: None, accuracy: "1.0%+3" }] } else { seq![] } },
            Ut61dRangeSpecs::AcMa => { if row == 0 { seq![AccuracyBand { freq_range: Some("40Hz\u{2013}1kHz"), accuracy: "1.5%+5" }] } else if row == 1 { seq![AccuracyBand { freq_range: Some("40Hz\u{2013}1kHz"), accuracy: "1.5%+5" }] } else { seq![] } },
            Ut61dRangeSpecs::DcA => { if row == 0 { seq![AccuracyBand { freq_range: None, accuracy: "1.2%+5" }] } else if row == 1 { seq![AccuracyBand { freq_range: None, accuracy: "1.2%+5" }] } else { seq![] } },
            Ut61dRangeSpecs::AcA => { if row == 0 { seq![AccuracyBand { freq_range: Some("40Hz\u{2013}1kHz"), accuracy: "2.0%+5" }] } else if row == 1 { seq![AccuracyBand { freq_range: Some("40Hz\u{2013}1kHz"), accuracy: "2.0%+5" }] } else { seq![] } },
            Ut61dRangeSpecs::LozV => { if row == 0 { seq![AccuracyBand { freq_range: Some("40Hz\u{2013}1kHz"), accuracy: "2.0%+5" }] } else if row == 1 { seq![AccuracyBand { freq_range: Some("40Hz\u{2013}1kHz"), accuracy: "2.0%+5" }] } else { seq![] } },
        }
    }

    /// The accuracy figures of row `row`.
    pub fn bands(&self, row: usize) -> (r: Vec<AccuracyBand>)
        ensures
            r@ == self.spec_bands(row as int),
    {
        match self {
            Ut61dRangeSpecs::DcV => { if row == 0 { vec![AccuracyBand { freq_range: None, accuracy: "0.8%+5" }] } else if row == 1 { vec![AccuracyBand { freq_range: None, accuracy: "0.8%+5" }] } else if row == 2 { vec![AccuracyBand { freq_range: None, accuracy: "0.5%+3" }] } else if row == 3 { vec![AccuracyBand { freq_range: None, accuracy: "0.5%+3" }] } else if row == 4 { vec![AccuracyBand { freq_range: None, accuracy: "0.5%+3" }] } else if row == 5 { vec![AccuracyBand { freq_range: None, accuracy: "1.0%+3" }] } else { vec![] } },
            Ut61dRangeSpecs::AcV => { if row == 0 { vec![AccuracyBand { freq_range: Some("40Hz\u{2013}1kHz"), accuracy: "1.2%+5" }] } else if row == 1 { vec![AccuracyBand { freq_range: Some("40Hz\u{2013}1kHz"), accuracy: "1.2%+5" }] } else if row == 2 { vec![AccuracyBand { freq_range: Some("40Hz\u{2013}1kHz"), accuracy: "1.0%+3" }] } else if row == 3 { vec![AccuracyBand { freq_range: Some("40Hz\u{2013}1kHz"), accuracy: "1.0%+3" }] } else if row == 4 { vec![AccuracyBand { freq_range: Some("40Hz\u{2013}1kHz"), accuracy: "1.0%+3" }] } else if row == 5 { vec![AccuracyBand { freq_range: Some("40Hz\u{2013}1kHz"), accuracy: "1.2%+5" }] } else { vec![] } },
            Ut61dRangeSpecs::DcMv => { if row == 0 { vec![AccuracyBand { freq_range: None, accuracy: "0.8%+5" }] } else if row == 1 { vec![AccuracyBand { freq_range: None, accuracy: "0.8%+5" }] } else { vec![] } },
            Ut61dRangeSpecs::AcMv => { if row == 0 { vec![AccuracyBand { freq_range: Some("40Hz\u{2013}1kHz"), accuracy: "1.2%+5" }] } else if row == 1 { vec![AccuracyBand { freq_range: Some("40Hz\u{2013}1kHz"), accuracy: "1.2%+5" }] } else { vec![] } },
            Ut61dRangeSpecs::Ohm => { if row == 0 { vec![AccuracyBand { freq_range: None, accuracy: "1.2%+2" }] } else if row == 1 { vec![AccuracyBand { freq_range: None, accuracy: "1.0%+2" }] } else if row == 2 { vec![AccuracyBand { freq_range: None, accuracy: "1.0%+2" }] } else if row == 3 { vec![AccuracyBand { freq_range: None, accuracy: "1.0%+2" }] } else if row == 4 { vec![AccuracyBand { freq_range: None, accuracy: "1.2%+2" }] } else if row == 5 { vec![AccuracyBand { freq_range: None, accuracy: "2.0%+5" }] } else { vec![] } },
            Ut61dRangeSpecs::Cap => { if row == 0 { vec![AccuracyBand { freq_range: None, accuracy: "3%+5" }] } else if row == 1 { vec![AccuracyBand { freq_range: None, accuracy: "3%+5" }] } else if row == 2 { vec![AccuracyBand { freq_range: None, accuracy: "3%+5" }] } else if row == 3 { vec![AccuracyBand { freq_range: None, accuracy: "3%+5" }] } else if row == 4 { vec![AccuracyBand { freq_range: None, accuracy: "3%+5" }] } else if row == 5 { vec![AccuracyBand { freq_range: None, accuracy: "10%+5" }] } else if row == 6 { vec![AccuracyBand { freq_range: None, accuracy: "10%+5" }] } else { vec![] } },
            Ut61dRangeSpecs::Hz => { if row == 0 { vec![AccuracyBand { freq_range: None, accuracy: "0.1%+4" }] } else if row == 1 { vec![AccuracyBand { freq_range: None, accuracy: "0.1%+4" }] } else if row == 2 { vec![AccuracyBand { freq_range: None, accuracy: "0.1%+4" }] } else if row == 3 { vec![AccuracyBand { freq_range: None, accuracy: "0.1%+4" }] } else if row == 4 { vec![AccuracyBand { freq_range: None, accuracy: "0.1%+4" }] } else { vec![] } },
            Ut61dRangeSpecs::Duty => { if row == 0 { vec![AccuracyBand { freq_range: None, accuracy: "2.0%+5" }] } else { vec![] } },
            Ut61dRangeSpecs::TempC => { if row == 0 { vec![AccuracyBand { freq_range: Some("-40\u{00B0}C\u{2013}0\u{00B0}C"), accuracy: "1.0%+3\u{00B0}C" }, AccuracyBand { freq_range: Some("0\u{00B0}C\u{2013}230\u{00B0}C"), accuracy: "1.0%+2\u{00B0}C" }] } else { vec![] } },
            Ut61dRangeSpecs::TempF => { if row == 0 { vec![AccuracyBand { freq_range: Some("-40\u{00B0}F\u{2013}32\u{00B0}F"), accuracy: "1.0%+6\u{00B0}F" }, AccuracyBand { freq_range: Some("32\u{00B0}F\u{2013}446\u{00B0}F"), accuracy: "1.0%+4\u{00B0}F" }] } else { vec![] } },
            Ut61dRangeSpecs::Diode => { if row == 0 { vec![] } else { vec![] } },
            Ut61dRangeSpecs::Continuity => { if row == 0 { vec![] } else { vec![] } },
            Ut61dRangeSpecs::DcUa => { if row == 0 { vec![AccuracyBand { freq_range: None, accuracy: "1.0%+2" }] } else if row == 1 { vec![AccuracyBand { freq_range: None, accuracy: "1.0%+2" }] } else { vec![] } },
            Ut61dRangeSpecs::AcUa => { if row == 0 { vec![AccuracyBand { freq_range: Some("40Hz\u{2013}1kHz"), accuracy: "1.2%+5" }] } else if row == 1 { vec![AccuracyBand { freq_range: Some("40Hz\u{2013}1kHz"), accuracy: "1.2%+5" }] } else { vec![] } },
            Ut61dRangeSpecs::DcMa => { if row == 0 { vec![AccuracyBand { freq_range: None, accuracy: "1.0%+3" }] } else if row == 1 { vec![AccuracyBand { freq_range: None, accuracy: "1.0%+3" }] } else { vec![] } },
            Ut61dRangeSpecs::AcMa => { if row == 0 { vec![AccuracyBand { freq_range: Some("40Hz\u{2013}1kHz"), accuracy: "1.5%+5" }] } else if row == 1 { vec![AccuracyBand { freq_range: Some("40Hz\u{2013}1kHz"), accuracy: "1.5%+5" }] } else { vec![] } },
            Ut61dRangeSpecs::DcA => { if row == 0 { vec![AccuracyBand { freq_range: None, accuracy: "1.2%+5" }] } else if row == 1 { vec![AccuracyBand { freq_range: None, accuracy: "1.2%+5" }] } else { vec![] } },
            Ut61dRangeSpecs::AcA => { if row == 0 { vec![AccuracyBand { freq_range: Some("40Hz\u{2013}1kHz"), accuracy: "2.0%+5" }] } else if row == 1 { vec![AccuracyBand { freq_range: Some("40Hz\u{2013}1kHz"), accuracy: "2.0%+5" }] } else { vec![] } },
            Ut61dRangeSpecs::LozV => { if row == 0 { vec![AccuracyBand { freq_range: Some("40Hz\u{2013}1kHz"), accuracy: "2.0%+5" }] } else if row == 1 { vec![AccuracyBand { freq_range: Some("40Hz\u{2013}1kHz"), accuracy: "2.0%+5" }] } else { vec![] } },
        }
    }

    /// What holds for the whole mode.
    pub open spec fn spec_mode(self) -> ModeSpecInfo {
        match self {
            Ut61dRangeSpecs::DcV => ModeSpecInfo { input_impedance: Some("~10 M\u{2126}"), overload_protection: Some("1000V") },
            Ut61dRangeSpecs::AcV => ModeSpecInfo { input_impedance: Some("~10 M\u{2126}"), overload_protection: Some("1000V") },
            Ut61dRangeSpecs::DcMv => ModeSpecInfo { input_impedance: Some("~1 G\u{2126}"), overload_protection: Some("1000V") },
            Ut61dRangeSpecs::AcMv => ModeSpecInfo { input_impedance: Some("~10 M\u{2126}"), overload_protection: Some("1000V") },
            Ut61dRangeSpecs::Ohm => ModeSpecInfo { input_impedance: None, overload_protection: Some("1000V") },
            Ut61dRangeSpecs::Cap => ModeSpecInfo { input_impedance: None, overload_protection: Some("1000V") },
            Ut61dRangeSpecs::Hz => ModeSpecInfo { input_impedance: None, overload_protection: Some("1000V") },
            Ut61dRangeSpecs::Duty => ModeSpecInfo { input_impedance: None, overload_protection: Some("1000V") },
            Ut61dRangeSpecs::TempC => ModeSpecInfo { input_impedance: None, overload_protection: None },
            Ut61dRangeSpecs::TempF => ModeSpecInfo { input_impedance: None, overload_protection: None },
            Ut61dRangeSpecs::Diode => ModeSpecInfo { input_impedance: None, overload_protection: Some("1000V") },
            Ut61dRangeSpecs::Continuity => ModeSpecInfo { input_impedance: None, overload_protection: Some("1000V") },
            Ut61dRangeSpecs::DcUa => ModeSpecInfo { input_impedance: None, overload_protection: Some("F1 1A 240V") },
            Ut61dRangeSpecs::AcUa => ModeSpecInfo { input_impedance: None, overload_protection: Some("F1 1A 240V") },
            Ut61dRangeSpecs::DcMa => ModeSpecInfo { input_impedance: None, overload_protection: Some("F1 1A 240V") },
            Ut61dRangeSpecs::AcMa => ModeSpecInfo { input_impedance: None, overload_protection: Some("F1 1A 240V") },
            Ut61dRangeSpecs::DcA => ModeSpecInfo { input_impedance: None, overload_protection: Some("F2 10A 240V") },
            Ut61dRangeSpecs::AcA => ModeSpecInfo { input_impedance: None, overload_protection: Some("F2 10A 240V") },
            Ut61dRangeSpecs::LozV => ModeSpecInfo { input_impedance: Some("Low Z"), overload_protection: Some("1000V") },
        }
    }

    /// What holds for the whole mode.
    pub fn mode_info(&self) -> (r: ModeSpecInfo)
        ensures
            r == self.spec_mode(),
    {
        match self {
            Ut61dRangeSpecs::DcV => ModeSpecInfo { input_impedance: Some("~10 M\u{2126}"), overload_protection: Some("1000V") },
            Ut61dRangeSpecs::AcV => ModeSpecInfo { input_impedance: Some("~10 M\u{2126}"), overload_protection: Some("1000V") },
            Ut61dRangeSpecs::DcMv => ModeSpecInfo { input_impedance: Some("~1 G\u{2126}"), overload_protection: Some("1000V") },
            Ut61dRangeSpecs::AcMv => ModeSpecInfo { input_impedance: Some("~10 M\u{2126}"), overload_protection: Some("1000V") },
            Ut61dRangeSpecs::Ohm => ModeSpecInfo { input_impedance: None, overload_protection: Some("1000V") },
            Ut61dRangeSpecs::Cap => ModeSpecInfo { input_impedance: None, overload_protection: Some("1000V") },
            Ut61dRangeSpecs::Hz => ModeSpecInfo { input_impedance: None, overload_protection: Some("1000V") },
            Ut61dRangeSpecs::Duty => ModeSpecInfo { input_impedance: None, overload_protection: Some("1000V") },
            Ut61dRangeSpecs::TempC => ModeSpecInfo { input_impedance: None, overload_protection: None },
            Ut61dRangeSpecs::TempF => ModeSpecInfo { input_impedance: None, overload_protection: None },
            Ut61dRangeSpecs::Diode => ModeSpecInfo { input_impedance: None, overload_protection: Some("1000V") },
            Ut61dRangeSpecs::Continuity => ModeSpecInfo { input_impedance: None, overload_protection: Some("1000V") },
            Ut61dRangeSpecs::DcUa => ModeSpecInfo { input_impedance: None, overload_protection: Some("F1 1A 240V") },
            Ut61dRangeSpecs::AcUa => ModeSpecInfo { input_impedance: None, overload_protection: Some("F1 1A 240V") },
            Ut61dRangeSpecs::DcMa => ModeSpecInfo { input_impedance: None, overload_protection: Some("F1 1A 240V") },
            Ut61dRangeSpecs::AcMa => ModeSpecInfo { input_impedance: None, overload_protection: Some("F1 1A 240V") },
            Ut61dRangeSpecs::DcA => ModeSpecInfo { input_impedance: None, overload_protection: Some("F2 10A 240V") },
            Ut61dRangeSpecs::AcA => ModeSpecInfo { input_impedance: None, overload_protection: Some("F2 10A 240V") },
            Ut61dRangeSpecs::LozV => ModeSpecInfo { input_impedance: Some("Low Z"), overload_protection: Some("1000V") },
        }
    }

    /// The remarks on the mode.
    pub open spec fn spec_notes(self) -> Seq<&'static str> {
        match self {
            Ut61dRangeSpecs::DcV => seq![],
            Ut61dRangeSpecs::AcV => seq!["True RMS", "40Hz\u{2013}1kHz"],
            Ut61dRangeSpecs::DcMv => seq![],
            Ut61dRangeSpecs::AcMv => seq!["True RMS", "40Hz\u{2013}1kHz"],
            Ut61dRangeSpecs::Ohm => seq!["Open circuit ~1V"],
            Ut61dRangeSpecs::Cap => seq!["Use REL for \u{2264}1\u{00B5}F"],
            Ut61dRangeSpecs::Hz => seq!["10Hz\u{2013}10MHz"],
            Ut61dRangeSpecs::Duty => seq!["Square waves only"],
            Ut61dRangeSpecs::TempC => seq!["K-type thermocouple", "Max 230\u{00B0}C / 446\u{00B0}F"],
            Ut61dRangeSpecs::TempF => seq!["K-type thermocouple", "Max 230\u{00B0}C / 446\u{00B0}F"],
            Ut61dRangeSpecs::Diode => seq!["Forward 0.12V\u{2013}2V"],
            Ut61dRangeSpecs::Continuity => seq!["Beep <50\u{2126}"],
            Ut61dRangeSpecs::DcUa => seq![],
            Ut61dRangeSpecs::AcUa => seq!["True RMS", "40Hz\u{2013}1kHz"],
            Ut61dRangeSpecs::DcMa => seq![],
            Ut61dRangeSpecs::AcMa => seq!["True RMS", "40Hz\u{2013}1kHz"],
            Ut61dRangeSpecs::DcA => seq![">5A: max 10s, rest 15min"],
            Ut61dRangeSpecs::AcA => seq!["True RMS", "40Hz\u{2013}1kHz", ">5A: max 10s, rest 15min"],
            Ut61dRangeSpecs::LozV => seq!["True RMS", "40Hz\u{2013}1kHz"],
        }
    }

    /// The remarks on the mode.
    pub fn notes(&self) -> (r: Vec<&'static str>)
        ensures
            r@ == self.spec_notes(),
    {
        match self {
            Ut61dRangeSpecs::DcV => vec![],
            Ut61dRangeSpecs::AcV => vec!["True RMS", "40Hz\u{2013}1kHz"],
            Ut61dRangeSpecs::DcMv => vec![],
            Ut61dRangeSpecs::AcMv => vec!["True RMS", "40Hz\u{2013}1kHz"],
            Ut61dRangeSpecs::Ohm => vec!["Open circuit ~1V"],
            Ut61dRangeSpecs::Cap => vec!["Use REL for \u{2264}1\u{00B5}F"],
            Ut61dRangeSpecs::Hz => vec!["10Hz\u{2013}10MHz"],
            Ut61dRangeSpecs::Duty => vec!["Square waves only"],
            Ut61dRangeSpecs::TempC => vec!["K-type thermocouple", "Max 230\u{00B0}C / 446\u{00B0}F"],
            Ut61dRangeSpecs::TempF => vec!["K-type thermocouple", "Max 230\u{00B0}C / 446\u{00B0}F"],
            Ut61dRangeSpecs::Diode => vec!["Forward 0.12V\u{2013}2V"],
            Ut61dRangeSpecs::Continuity => vec!["Beep <50\u{2126}"],
            Ut61dRangeSpecs::DcUa => vec![],
            Ut61dRangeSpecs::AcUa => vec!["True RMS", "40Hz\u{2013}1kHz"],
            Ut61dRangeSpecs::DcMa => vec![],
            Ut61dRangeSpecs::AcMa => vec!["True RMS", "40Hz\u{2013}1kHz"],
            Ut61dRangeSpecs::DcA => vec![">5A: max 10s, rest 15min"],
            Ut61dRangeSpecs::AcA => vec!["True RMS", "40Hz\u{2013}1kHz", ">5A: max 10s, rest 15min"],
            Ut61dRangeSpecs::LozV => vec!["True RMS", "40Hz\u{2013}1kHz"],
        }
    }

}

/// The table a reading in `mode` takes; `None` for a mode the manual gives
/// no specifications.
pub open spec fn ut61d_range_specs_of(mode: Mode) -> Option<Ut61dRangeSpecs> {
    match mode {
        Mode::DcV => Some(Ut61dRangeSpecs::DcV),
        Mode::AcV => Some(Ut61dRangeSpecs::AcV),
        Mode::DcMv => Some(Ut61dRangeSpecs::DcMv),
        Mode::AcMv => Some(Ut61dRangeSpecs::AcMv),
        Mode::Ohm => Some(Ut61dRangeSpecs::Ohm),
        Mode::Capacitance => Some(Ut61dRangeSpecs::Cap),
        Mode::Hz => Some(Ut61dRangeSpecs::Hz),
        Mode::DutyCycle => Some(Ut61dRangeSpecs::Duty),
        Mode::TempC => Some(Ut61dRangeSpecs::TempC),
        Mode::TempF => Some(Ut61dRangeSpecs::TempF),
        Mode::Diode => Some(Ut61dRangeSpecs::Diode),
        Mode::Continuity => Some(Ut61dRangeSpecs::Continuity),
        Mode::DcUa => Some(Ut61dRangeSpecs::DcUa),
        Mode::AcUa => Some(Ut61dRangeSpecs::AcUa),
        Mode::DcMa => Some(Ut61dRangeSpecs::DcMa),
        Mode::AcMa => Some(Ut61dRangeSpecs::AcMa),
        Mode::DcA => Some(Ut61dRangeSpecs::DcA),
        Mode::AcA => Some(Ut61dRangeSpecs::AcA),
        Mode::LozV => Some(Ut61dRangeSpecs::LozV),
        _ => None,
    }
}

/// The table a reading in `mode` takes, as [`ut61d_range_specs_of`] says.
pub fn ut61d_range_specs_for(mode: Mode) -> (r: Option<Ut61dRangeSpecs>)
    ensures
        r == ut61d_range_specs_of(mode),
{
    match mode {
        Mode::DcV => Some(Ut61dRangeSpecs::DcV),
        Mode::AcV => Some(Ut61dRangeSpecs::AcV),
        Mode::DcMv => Some(Ut61dRangeSpecs::DcMv),
        Mode::AcMv => Some(Ut61dRangeSpecs::AcMv),
        Mode::Ohm => Some(Ut61dRangeSpecs::Ohm),
        Mode::Capacitance => Some(Ut61dRangeSpecs::Cap),
        Mode::Hz => Some(Ut61dRangeSpecs::Hz),
        Mode::DutyCycle => Some(Ut61dRangeSpecs::Duty),
        Mode::TempC => Some(Ut61dRangeSpecs::TempC),
        Mode::TempF => Some(Ut61dRangeSpecs::TempF),
        Mode::Diode => Some(Ut61dRangeSpecs::Diode),
        Mode::Continuity => Some(Ut61dRangeSpecs::Continuity),
        Mode::DcUa => Some(Ut61dRangeSpecs::DcUa),
        Mode::AcUa => Some(Ut61dRangeSpecs::AcUa),
        Mode::DcMa => Some(Ut61dRangeSpecs::DcMa),
        Mode::AcMa => Some(Ut61dRangeSpecs::AcMa),
        Mode::DcA => Some(Ut61dRangeSpecs::DcA),
        Mode::AcA => Some(Ut61dRangeSpecs::AcA),
        Mode::LozV => Some(Ut61dRangeSpecs::LozV),
        _ => None,
    }
}

} // verus!
