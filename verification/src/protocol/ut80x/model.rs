//! The models on the 11-byte packet stream, and their per-(mode, range)
//! display tables.
use crate::labels::{all_number_chars, ends_with, leading_digits, number_then_unit};
use vstd::prelude::*;

verus! {

/// Which meter model the packets come from. All share the framing; the
/// UT803 has a payload layout of its own, and the rest send the UT804's.
#[derive(Clone, Copy, PartialEq, Eq, Debug, Structural)]
pub enum Model {
    Ut803,
    Ut804,
    /// UT71A/B: the UT804's packets, on a 20000-count display.
    Ut71Ab,
    /// UT71C/D/E: the UT804's packets and range labels.
    Ut71Cde,
    /// Voltcraft VC920/VC940/VC960: the UT71C/D/E's packets, with a 750V
    /// top AC V range.
    Vc920,
}

/// Whether the model sends the UT804's payload layout: every model but the
/// UT803.
pub open spec fn sends_ut804_layout(m: Model) -> bool {
    m != Model::Ut803
}

/// The registry id reports name the model by.
pub open spec fn model_id(m: Model) -> &'static str {
    match m {
        Model::Ut803 => "ut803",
        Model::Ut804 => "ut804",
        Model::Ut71Ab => "ut71ab",
        Model::Ut71Cde => "ut71cde",
        Model::Vc920 => "vc920",
    }
}

/// UT804 per-(mode, range) display info: mode name, unit, decimal point
/// position from the left (the point follows digit `pos + 1`; a position
/// past the last digit means an integer display), and range label.
/// Temperature, power and the 4-20 mA % have no label.
pub open spec fn ut804_info(mode: u8, range: u8) -> Option<(&'static str, &'static str, u8, &'static str)> {
    match mode {
        0x1 => match range {
            1 => Some(("V", "V", 0, "4V")),
            2 => Some(("V", "V", 1, "40V")),
            3 => Some(("V", "V", 2, "400V")),
            4 => Some(("V", "V", 3, "1000V")),
            _ => None,
        },
        0x2 => match range {
            1 => Some(("V", "V", 0, "4V")),
            2 => Some(("V", "V", 1, "40V")),
            3 => Some(("V", "V", 2, "400V")),
            4 => Some(("V", "V", 3, "1000V")),
            _ => None,
        },
        0x3 => Some(("mV", "mV", 2, "400mV")),
        0x4 => match range {
            1 => Some(("Ω", "Ω", 2, "400Ω")),
            2 => Some(("Ω", "kΩ", 0, "4kΩ")),
            3 => Some(("Ω", "kΩ", 1, "40kΩ")),
            4 => Some(("Ω", "kΩ", 2, "400kΩ")),
            5 => Some(("Ω", "MΩ", 0, "4MΩ")),
            6 => Some(("Ω", "MΩ", 1, "40MΩ")),
            _ => None,
        },
        0x5 => match range {
            1 => Some(("Capacitance", "nF", 1, "40nF")),
            2 => Some(("Capacitance", "nF", 2, "400nF")),
            3 => Some(("Capacitance", "µF", 0, "4µF")),
            4 => Some(("Capacitance", "µF", 1, "40µF")),
            5 => Some(("Capacitance", "µF", 2, "400µF")),
            6 => Some(("Capacitance", "mF", 0, "4mF")),
            7 => Some(("Capacitance", "mF", 1, "40mF")),
            _ => None,
        },
        0x6 => Some(("Temperature", "°C", 3, "")),
        0x7 => match range {
            0 => Some(("µA", "µA", 2, "400µA")),
            1 => Some(("µA", "µA", 3, "4000µA")),
            _ => None,
        },
        0x8 => match range {
            0 => Some(("mA", "mA", 1, "40mA")),
            1 => Some(("mA", "mA", 2, "400mA")),
            _ => None,
        },
        0x9 => Some(("A", "A", 1, "10A")),
        0xA => Some(("Continuity", "Ω", 2, "400Ω")),
        0xB => Some(("Diode", "V", 0, "4V")),
        0xC => match range {
            0 => Some(("Frequency", "Hz", 1, "40Hz")),
            1 => Some(("Frequency", "Hz", 2, "400Hz")),
            2 => Some(("Frequency", "kHz", 0, "4kHz")),
            3 => Some(("Frequency", "kHz", 1, "40kHz")),
            4 => Some(("Frequency", "kHz", 2, "400kHz")),
            5 => Some(("Frequency", "MHz", 0, "4MHz")),
            6 => Some(("Frequency", "MHz", 1, "40MHz")),
            7 => Some(("Frequency", "MHz", 2, "400MHz")),
            _ => None,
        },
        0xD => Some(("Temperature", "°F", 3, "")),
        0xE => Some(("Power", "W", 3, "")),
        0xF => Some(("mA%", "%", 2, "")),
        _ => None,
    }
}

/// Every UT804 display entry's decimal point fits its range label: the
/// label is a number in the entry's unit, and the digits in front of the
/// point are as many as the label's, so a full-scale reading stays just
/// under the label ("400mA" reads up to 399.99). The UT71A/B's labels,
/// on the same points, have as many digits too.
pub proof fn ut804_points_fit_their_labels(mode: u8, range: u8)
    ensures
        ut804_info(mode, range) matches Some((name, unit, dp, label)) ==> (label@.len() > 0
            ==> number_then_unit(label@, unit@) && leading_digits(label@) == dp + 1),
        ut804_info(mode, range) matches Some((name, unit, dp, label)) ==> (ut71ab_label(mode, range)@.len()
            > 0 ==> number_then_unit(ut71ab_label(mode, range)@, unit@) && leading_digits(
            ut71ab_label(mode, range)@,
        ) == dp + 1),
{
    reveal_strlit("");
    reveal_strlit("%");
    reveal_strlit("A");
    reveal_strlit("V");
    reveal_strlit("W");
    reveal_strlit("Ω");
    reveal_strlit("2V");
    reveal_strlit("4V");
    reveal_strlit("Hz");
    reveal_strlit("MΩ");
    reveal_strlit("kΩ");
    reveal_strlit("mA");
    reveal_strlit("mF");
    reveal_strlit("mV");
    reveal_strlit("nF");
    reveal_strlit("°C");
    reveal_strlit("°F");
    reveal_strlit("µA");
    reveal_strlit("µF");
    reveal_strlit("10A");
    reveal_strlit("20V");
    reveal_strlit("2MΩ");
    reveal_strlit("2kΩ");
    reveal_strlit("2mF");
    reveal_strlit("2µF");
    reveal_strlit("40V");
    reveal_strlit("4MΩ");
    reveal_strlit("4kΩ");
    reveal_strlit("4mF");
    reveal_strlit("4µF");
    reveal_strlit("MHz");
    reveal_strlit("kHz");
    reveal_strlit("mA%");
    reveal_strlit("200V");
    reveal_strlit("200Ω");
    reveal_strlit("20Hz");
    reveal_strlit("20MΩ");
    reveal_strlit("20kΩ");
    reveal_strlit("20mA");
    reveal_strlit("20mF");
    reveal_strlit("20nF");
    reveal_strlit("20µF");
    reveal_strlit("2MHz");
    reveal_strlit("2kHz");
    reveal_strlit("400V");
    reveal_strlit("400Ω");
    reveal_strlit("40Hz");
    reveal_strlit("40MΩ");
    reveal_strlit("40kΩ");
    reveal_strlit("40mA");
    reveal_strlit("40mF");
    reveal_strlit("40nF");
    reveal_strlit("40µF");
    reveal_strlit("4MHz");
    reveal_strlit("4kHz");
    reveal_strlit("1000V");
    reveal_strlit("200Hz");
    reveal_strlit("200kΩ");
    reveal_strlit("200mA");
    reveal_strlit("200mV");
    reveal_strlit("200nF");
    reveal_strlit("200µA");
    reveal_strlit("200µF");
    reveal_strlit("20MHz");
    reveal_strlit("20kHz");
    reveal_strlit("400Hz");
    reveal_strlit("400kΩ");
    reveal_strlit("400mA");
    reveal_strlit("400mV");
    reveal_strlit("400nF");
    reveal_strlit("400µA");
    reveal_strlit("400µF");
    reveal_strlit("40MHz");
    reveal_strlit("40kHz");
    reveal_strlit("Diode");
    reveal_strlit("Power");
    reveal_strlit("2000µA");
    reveal_strlit("200MHz");
    reveal_strlit("200kHz");
    reveal_strlit("4000µA");
    reveal_strlit("400MHz");
    reveal_strlit("400kHz");
    reveal_strlit("Frequency");
    reveal_strlit("Continuity");
    reveal_strlit("Capacitance");
    reveal_strlit("Temperature");
    reveal_with_fuel(ends_with, 4);
    reveal_with_fuel(all_number_chars, 5);
    reveal_with_fuel(leading_digits, 6);
}

/// UT804 modes whose AC/DC nibble value 0 defaults to a DC label: V, mV,
/// µA, mA and A.
pub open spec fn ut804_dc_by_default(mode: u8) -> bool {
    mode == 0x1 || mode == 0x2 || mode == 0x3 || mode == 0x7 || mode == 0x8 || mode == 0x9
}

/// UT71A/B range labels: the UT804's codes and decimal points on a
/// 20000-count display, so half its full scales, with 1000V and 10A still
/// on top; continuity, diode, temperature, power and the 4-20 mA % have
/// none.
pub open spec fn ut71ab_label(mode: u8, range: u8) -> &'static str {
    match (mode, range) {
        (0x1 | 0x2, 1) => "2V",
        (0x1 | 0x2, 2) => "20V",
        (0x1 | 0x2, 3) => "200V",
        (0x1 | 0x2, 4) => "1000V",
        (0x3, _) => "200mV",
        (0x4, 1) => "200Ω",
        (0x4, 2) => "2kΩ",
        (0x4, 3) => "20kΩ",
        (0x4, 4) => "200kΩ",
        (0x4, 5) => "2MΩ",
        (0x4, 6) => "20MΩ",
        (0x5, 1) => "20nF",
        (0x5, 2) => "200nF",
        (0x5, 3) => "2µF",
        (0x5, 4) => "20µF",
        (0x5, 5) => "200µF",
        (0x5, 6) => "2mF",
        (0x5, 7) => "20mF",
        (0x7, 0) => "200µA",
        (0x7, 1) => "2000µA",
        (0x8, 0) => "20mA",
        (0x8, 1) => "200mA",
        (0x9, _) => "10A",
        (0xC, 0) => "20Hz",
        (0xC, 1) => "200Hz",
        (0xC, 2) => "2kHz",
        (0xC, 3) => "20kHz",
        (0xC, 4) => "200kHz",
        (0xC, 5) => "2MHz",
        (0xC, 6) => "20MHz",
        (0xC, 7) => "200MHz",
        _ => "",
    }
}

/// The range label `m` shows for a (mode, range) pair whose UT804 label is
/// `ut804`: the UT804's own on the UT803, UT804 and UT71C/D/E, the UT71A/B's
/// table on the UT71A/B, and the UT804's on the VC9x0 but for AC V's top
/// range, which stops at 750V there.
pub open spec fn model_range_label(m: Model, mode: u8, range: u8, ut804: &'static str) -> &'static str {
    match m {
        Model::Ut71Ab => ut71ab_label(mode, range),
        Model::Vc920 => if mode == 0x2 && range == 4 {
            "750V"
        } else {
            ut804
        },
        _ => ut804,
    }
}

/// UT803 per-(mode, range) display info, as [`ut804_info`] but with 4 digits,
/// the UT803's own mode codes and no labels. `alt` selects RPM for
/// frequency and °C (over °F) for temperature.
pub open spec fn ut803_info(mode: u8, range: u8, alt: bool) -> Option<(&'static str, &'static str, u8)> {
    match mode {
        0xB => match range {
            0 => Some(("V", "V", 0)),
            1 => Some(("V", "V", 1)),
            2 => Some(("V", "V", 2)),
            3 => Some(("V", "V", 3)),
            4 => Some(("mV", "mV", 2)),
            _ => None,
        },
        0xD => match range {
            0 => Some(("µA", "µA", 2)),
            1 => Some(("µA", "µA", 3)),
            _ => None,
        },
        0xF => match range {
            0 => Some(("mA", "mA", 1)),
            1 => Some(("mA", "mA", 2)),
            _ => None,
        },
        0x9 => Some(("A", "A", 1)),
        0x3 => match range {
            0 => Some(("Ω", "Ω", 2)),
            1 => Some(("Ω", "kΩ", 0)),
            2 => Some(("Ω", "kΩ", 1)),
            3 => Some(("Ω", "kΩ", 2)),
            4 => Some(("Ω", "MΩ", 0)),
            5 => Some(("Ω", "MΩ", 1)),
            _ => None,
        },
        0x2 => if alt {
            match range {
                0 => Some(("Tachometer", "RPM", 3)),
                1 => Some(("Tachometer", "kRPM", 1)),
                2 => Some(("Tachometer", "kRPM", 2)),
                3 => Some(("Tachometer", "MRPM", 0)),
                4 => Some(("Tachometer", "MRPM", 1)),
                5 => Some(("Tachometer", "MRPM", 2)),
                _ => None,
            }
        } else {
            match range {
                0 => Some(("Frequency", "Hz", 3)),
                1 => Some(("Frequency", "kHz", 1)),
                2 => Some(("Frequency", "kHz", 2)),
                3 => Some(("Frequency", "MHz", 0)),
                4 => Some(("Frequency", "MHz", 1)),
                5 => Some(("Frequency", "MHz", 2)),
                _ => None,
            }
        },
        0x4 => if alt {
            Some(("Temperature", "°C", 3))
        } else {
            Some(("Temperature", "°F", 3))
        },
        0x5 => Some(("Continuity", "Ω", 3)),
        0x1 => Some(("Diode", "V", 0)),
        0x6 => match range {
            0 => Some(("Capacitance", "nF", 0)),
            1 => Some(("Capacitance", "nF", 1)),
            2 => Some(("Capacitance", "nF", 2)),
            3 => Some(("Capacitance", "µF", 0)),
            4 => Some(("Capacitance", "µF", 1)),
            5 => Some(("Capacitance", "µF", 2)),
            6 => Some(("Capacitance", "mF", 0)),
            7 => Some(("Capacitance", "mF", 1)),
            _ => None,
        },
        0xE => Some(("ADP", "", 3)),
        _ => None,
    }
}

impl Model {
    /// Whether the model sends the UT804's payload layout.
    pub fn ut804_layout(self) -> (b: bool)
        ensures
            b == sends_ut804_layout(self),
    {
        match self {
            Model::Ut803 => false,
            Model::Ut804 | Model::Ut71Ab | Model::Ut71Cde | Model::Vc920 => true,
        }
    }

    /// The registry id reports name the model by.
    pub fn report_id(self) -> (s: &'static str)
        ensures
            s == model_id(self),
    {
        match self {
            Model::Ut803 => "ut803",
            Model::Ut804 => "ut804",
            Model::Ut71Ab => "ut71ab",
            Model::Ut71Cde => "ut71cde",
            Model::Vc920 => "vc920",
        }
    }

    /// The range label this model shows for a (mode, range) pair whose UT804
    /// label is `ut804`.
    pub fn range_label(self, mode: u8, range: u8, ut804: &'static str) -> (s: &'static str)
        ensures
            s == model_range_label(self, mode, range, ut804),
    {
        match self {
            Model::Ut803 | Model::Ut804 | Model::Ut71Cde => ut804,
            Model::Ut71Ab => ut71ab_range_label(mode, range),
            Model::Vc920 => if mode == 0x2 && range == 4 {
                "750V"
            } else {
                ut804
            },
        }
    }
}

/// UT804 per-(mode, range) display info.
pub fn ut804_mode_info(mode: u8, range: u8) -> (r: Option<(&'static str, &'static str, u8, &'static str)>)
    ensures
        r == ut804_info(mode, range),
{
    match mode {
        0x1 => match range {
            1 => Some(("V", "V", 0, "4V")),
            2 => Some(("V", "V", 1, "40V")),
            3 => Some(("V", "V", 2, "400V")),
            4 => Some(("V", "V", 3, "1000V")),
            _ => None,
        },
        0x2 => match range {
            1 => Some(("V", "V", 0, "4V")),
            2 => Some(("V", "V", 1, "40V")),
            3 => Some(("V", "V", 2, "400V")),
            4 => Some(("V", "V", 3, "1000V")),
            _ => None,
        },
        0x3 => Some(("mV", "mV", 2, "400mV")),
        0x4 => match range {
            1 => Some(("Ω", "Ω", 2, "400Ω")),
            2 => Some(("Ω", "kΩ", 0, "4kΩ")),
            3 => Some(("Ω", "kΩ", 1, "40kΩ")),
            4 => Some(("Ω", "kΩ", 2, "400kΩ")),
            5 => Some(("Ω", "MΩ", 0, "4MΩ")),
            6 => Some(("Ω", "MΩ", 1, "40MΩ")),
            _ => None,
        },
        0x5 => match range {
            1 => Some(("Capacitance", "nF", 1, "40nF")),
            2 => Some(("Capacitance", "nF", 2, "400nF")),
            3 => Some(("Capacitance", "µF", 0, "4µF")),
            4 => Some(("Capacitance", "µF", 1, "40µF")),
            5 => Some(("Capacitance", "µF", 2, "400µF")),
            6 => Some(("Capacitance", "mF", 0, "4mF")),
            7 => Some(("Capacitance", "mF", 1, "40mF")),
            _ => None,
        },
        0x6 => Some(("Temperature", "°C", 3, "")),
        0x7 => match range {
            0 => Some(("µA", "µA", 2, "400µA")),
            1 => Some(("µA", "µA", 3, "4000µA")),
            _ => None,
        },
        0x8 => match range {
            0 => Some(("mA", "mA", 1, "40mA")),
            1 => Some(("mA", "mA", 2, "400mA")),
            _ => None,
        },
        0x9 => Some(("A", "A", 1, "10A")),
        0xA => Some(("Continuity", "Ω", 2, "400Ω")),
        0xB => Some(("Diode", "V", 0, "4V")),
        0xC => match range {
            0 => Some(("Frequency", "Hz", 1, "40Hz")),
            1 => Some(("Frequency", "Hz", 2, "400Hz")),
            2 => Some(("Frequency", "kHz", 0, "4kHz")),
            3 => Some(("Frequency", "kHz", 1, "40kHz")),
            4 => Some(("Frequency", "kHz", 2, "400kHz")),
            5 => Some(("Frequency", "MHz", 0, "4MHz")),
            6 => Some(("Frequency", "MHz", 1, "40MHz")),
            7 => Some(("Frequency", "MHz", 2, "400MHz")),
            _ => None,
        },
        0xD => Some(("Temperature", "°F", 3, "")),
        0xE => Some(("Power", "W", 3, "")),
        0xF => Some(("mA%", "%", 2, "")),
        _ => None,
    }
}

/// Whether the UT804 mode's AC/DC nibble value 0 means DC.
pub fn ut804_default_dc(mode: u8) -> (b: bool)
    ensures
        b == ut804_dc_by_default(mode),
{
    match mode {
        0x1 | 0x2 | 0x3 | 0x7 | 0x8 | 0x9 => true,
        _ => false,
    }
}

/// The UT71A/B's range label for a (mode, range) pair.
pub fn ut71ab_range_label(mode: u8, range: u8) -> (s: &'static str)
    ensures
        s == ut71ab_label(mode, range),
{
    match (mode, range) {
        (0x1 | 0x2, 1) => "2V",
        (0x1 | 0x2, 2) => "20V",
        (0x1 | 0x2, 3) => "200V",
        (0x1 | 0x2, 4) => "1000V",
        (0x3, _) => "200mV",
        (0x4, 1) => "200Ω",
        (0x4, 2) => "2kΩ",
        (0x4, 3) => "20kΩ",
        (0x4, 4) => "200kΩ",
        (0x4, 5) => "2MΩ",
        (0x4, 6) => "20MΩ",
        (0x5, 1) => "20nF",
        (0x5, 2) => "200nF",
        (0x5, 3) => "2µF",
        (0x5, 4) => "20µF",
        (0x5, 5) => "200µF",
        (0x5, 6) => "2mF",
        (0x5, 7) => "20mF",
        (0x7, 0) => "200µA",
        (0x7, 1) => "2000µA",
        (0x8, 0) => "20mA",
        (0x8, 1) => "200mA",
        (0x9, _) => "10A",
        (0xC, 0) => "20Hz",
        (0xC, 1) => "200Hz",
        (0xC, 2) => "2kHz",
        (0xC, 3) => "20kHz",
        (0xC, 4) => "200kHz",
        (0xC, 5) => "2MHz",
        (0xC, 6) => "20MHz",
        (0xC, 7) => "200MHz",
        _ => "",
    }
}

/// UT803 per-(mode, range) display info.
pub fn ut803_mode_info(mode: u8, range: u8, alt: bool) -> (r: Option<(&'static str, &'static str, u8)>)
    ensures
        r == ut803_info(mode, range, alt),
{
    match mode {
        0xB => match range {
            0 => Some(("V", "V", 0)),
            1 => Some(("V", "V", 1)),
            2 => Some(("V", "V", 2)),
            3 => Some(("V", "V", 3)),
            4 => Some(("mV", "mV", 2)),
            _ => None,
        },
        0xD => match range {
            0 => Some(("µA", "µA", 2)),
            1 => Some(("µA", "µA", 3)),
            _ => None,
        },
        0xF => match range {
            0 => Some(("mA", "mA", 1)),
            1 => Some(("mA", "mA", 2)),
            _ => None,
        },
        0x9 => Some(("A", "A", 1)),
        0x3 => match range {
            0 => Some(("Ω", "Ω", 2)),
            1 => Some(("Ω", "kΩ", 0)),
            2 => Some(("Ω", "kΩ", 1)),
            3 => Some(("Ω", "kΩ", 2)),
            4 => Some(("Ω", "MΩ", 0)),
            5 => Some(("Ω", "MΩ", 1)),
            _ => None,
        },
        0x2 => if alt {
            match range {
                0 => Some(("Tachometer", "RPM", 3)),
                1 => Some(("Tachometer", "kRPM", 1)),
                2 => Some(("Tachometer", "kRPM", 2)),
                3 => Some(("Tachometer", "MRPM", 0)),
                4 => Some(("Tachometer", "MRPM", 1)),
                5 => Some(("Tachometer", "MRPM", 2)),
                _ => None,
            }
        } else {
            match range {
                0 => Some(("Frequency", "Hz", 3)),
                1 => Some(("Frequency", "kHz", 1)),
                2 => Some(("Frequency", "kHz", 2)),
                3 => Some(("Frequency", "MHz", 0)),
                4 => Some(("Frequency", "MHz", 1)),
                5 => Some(("Frequency", "MHz", 2)),
                _ => None,
            }
        },
        0x4 => if alt {
            Some(("Temperature", "°C", 3))
        } else {
            Some(("Temperature", "°F", 3))
        },
        0x5 => Some(("Continuity", "Ω", 3)),
        0x1 => Some(("Diode", "V", 0)),
        0x6 => match range {
            0 => Some(("Capacitance", "nF", 0)),
            1 => Some(("Capacitance", "nF", 1)),
            2 => Some(("Capacitance", "nF", 2)),
            3 => Some(("Capacitance", "µF", 0)),
            4 => Some(("Capacitance", "µF", 1)),
            5 => Some(("Capacitance", "µF", 2)),
            6 => Some(("Capacitance", "mF", 0)),
            7 => Some(("Capacitance", "mF", 1)),
            _ => None,
        },
        0xE => Some(("ADP", "", 3)),
        _ => None,
    }
}

} // verus!
