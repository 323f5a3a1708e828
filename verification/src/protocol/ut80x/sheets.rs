//! The UT803's and UT804's manual specification tables, as data.
use crate::specs::{AccuracyBand, ModeSpecInfo, RangeSpec};
use vstd::prelude::*;

verus! {

/// The tables of the UT804 manual's detailed accuracy specifications.
#[derive(Debug, Clone, Copy, PartialEq, Eq, Structural)]
pub enum Ut804Sheet {
    DcMv,
    DcV,
    AcV,
    DcUa,
    DcMa,
    DcA,
    AcUa,
    AcMa,
    AcA,
    Resistance,
    Continuity,
    Diode,
    Capacitance,
    Frequency,
    Duty,
    TempC,
    TempF,
    LoopCurrent,
}

impl Ut804Sheet {
    /// The table's heading.
    pub open spec fn spec_name(self) -> &'static str {
        match self {
            Ut804Sheet::DcMv => "A. DC Voltage",
            Ut804Sheet::DcV => "A. DC Voltage",
            Ut804Sheet::AcV => "B. AC Voltage (AC+DC measurement is available)",
            Ut804Sheet::DcUa => "C. DC Current",
            Ut804Sheet::DcMa => "C. DC Current",
            Ut804Sheet::DcA => "C. DC Current",
            Ut804Sheet::AcUa => "D. AC Current (AC+DC measurement is available)",
            Ut804Sheet::AcMa => "D. AC Current (AC+DC measurement is available)",
            Ut804Sheet::AcA => "D. AC Current (AC+DC measurement is available)",
            Ut804Sheet::Resistance => "E. Resistance",
            Ut804Sheet::Continuity => "F. Continuity Test",
            Ut804Sheet::Diode => "G. Diode Test",
            Ut804Sheet::Capacitance => "H. Capacitance",
            Ut804Sheet::Frequency => "I. Frequency",
            Ut804Sheet::Duty => "J. Duty Cycle",
            Ut804Sheet::TempC => "K. Temperature 1-1. Degrees Celsius",
            Ut804Sheet::TempF => "K. Temperature 1-2. Fahrenheit",
            Ut804Sheet::LoopCurrent => "L. 4~20 mA loop current",
        }
    }

    /// The manual page it stands on.
    pub open spec fn spec_page(self) -> u16 {
        match self {
            Ut804Sheet::DcMv => 59u16,
            Ut804Sheet::DcV => 59u16,
            Ut804Sheet::AcV => 60u16,
            Ut804Sheet::DcUa => 61u16,
            Ut804Sheet::DcMa => 61u16,
            Ut804Sheet::DcA => 61u16,
            Ut804Sheet::AcUa => 62u16,
            Ut804Sheet::AcMa => 62u16,
            Ut804Sheet::AcA => 62u16,
            Ut804Sheet::Resistance => 63u16,
            Ut804Sheet::Continuity => 63u16,
            Ut804Sheet::Diode => 64u16,
            Ut804Sheet::Capacitance => 64u16,
            Ut804Sheet::Frequency => 65u16,
            Ut804Sheet::Duty => 66u16,
            Ut804Sheet::TempC => 66u16,
            Ut804Sheet::TempF => 67u16,
            Ut804Sheet::LoopCurrent => 67u16,
        }
    }

    /// Its rows, in manual order.
    pub open spec fn spec_rows(self) -> Seq<RangeSpec> {
        match self {
            Ut804Sheet::DcMv => seq![RangeSpec { range: None, label: "400mV", resolution: "0.01mV" }],
            Ut804Sheet::DcV => seq![RangeSpec { range: Some(1u8), label: "4V", resolution: "0.0001V" }, RangeSpec { range: Some(2u8), label: "40V", resolution: "0.001V" }, RangeSpec { range: Some(3u8), label: "400V", resolution: "0.01V" }, RangeSpec { range: Some(4u8), label: "1000V", resolution: "0.1V" }],
            Ut804Sheet::AcV => seq![RangeSpec { range: Some(1u8), label: "4V", resolution: "0.0001V" }, RangeSpec { range: Some(2u8), label: "40V", resolution: "0.001V" }, RangeSpec { range: Some(3u8), label: "400V", resolution: "0.01V" }, RangeSpec { range: Some(4u8), label: "1000V", resolution: "0.1V" }],
            Ut804Sheet::DcUa => seq![RangeSpec { range: Some(0u8), label: "400µA", resolution: "0.01µA" }, RangeSpec { range: Some(1u8), label: "4000µA", resolution: "0.1µA" }],
            Ut804Sheet::DcMa => seq![RangeSpec { range: Some(0u8), label: "40mA", resolution: "0.001mA" }, RangeSpec { range: Some(1u8), label: "400mA", resolution: "0.01mA" }],
            Ut804Sheet::DcA => seq![RangeSpec { range: None, label: "10A", resolution: "0.001A" }],
            Ut804Sheet::AcUa => seq![RangeSpec { range: Some(0u8), label: "400µA", resolution: "0.01µA" }, RangeSpec { range: Some(1u8), label: "4000µA", resolution: "0.1µA" }],
            Ut804Sheet::AcMa => seq![RangeSpec { range: Some(0u8), label: "40mA", resolution: "0.001mA" }, RangeSpec { range: Some(1u8), label: "400mA", resolution: "0.01mA" }],
            Ut804Sheet::AcA => seq![RangeSpec { range: None, label: "10A", resolution: "0.001A" }],
            Ut804Sheet::Resistance => seq![RangeSpec { range: Some(1u8), label: "400Ω", resolution: "0.01Ω" }, RangeSpec { range: Some(2u8), label: "4kΩ", resolution: "0.0001kΩ" }, RangeSpec { range: Some(3u8), label: "40kΩ", resolution: "0.001kΩ" }, RangeSpec { range: Some(4u8), label: "400kΩ", resolution: "0.01kΩ" }, RangeSpec { range: Some(5u8), label: "4MΩ", resolution: "0.0001MΩ" }, RangeSpec { range: Some(6u8), label: "40MΩ", resolution: "0.001MΩ" }],
            Ut804Sheet::Continuity => seq![RangeSpec { range: None, label: "(continuity symbol)", resolution: "0.01Ω" }],
            Ut804Sheet::Diode => seq![RangeSpec { range: None, label: "(diode symbol)", resolution: "0.0001V" }],
            Ut804Sheet::Capacitance => seq![RangeSpec { range: Some(1u8), label: "40nF", resolution: "0.001nF" }, RangeSpec { range: Some(2u8), label: "400nF", resolution: "0.01nF" }, RangeSpec { range: Some(3u8), label: "4µF", resolution: "0.0001µF" }, RangeSpec { range: Some(4u8), label: "40µF", resolution: "0.001µF" }, RangeSpec { range: Some(5u8), label: "400µF", resolution: "0.01µF" }, RangeSpec { range: Some(6u8), label: "4mF", resolution: "0.0001mF" }, RangeSpec { range: Some(7u8), label: "40mF", resolution: "0.001mF" }],
            Ut804Sheet::Frequency => seq![RangeSpec { range: Some(0u8), label: "40Hz", resolution: "0.001Hz" }, RangeSpec { range: Some(1u8), label: "400Hz", resolution: "0.01Hz" }, RangeSpec { range: Some(2u8), label: "4kHz", resolution: "0.0001kHz" }, RangeSpec { range: Some(3u8), label: "40kHz", resolution: "0.001kHz" }, RangeSpec { range: Some(4u8), label: "400kHz", resolution: "0.01kHz" }, RangeSpec { range: Some(5u8), label: "4MHz", resolution: "0.0001MHz" }, RangeSpec { range: Some(6u8), label: "40MHz", resolution: "0.001MHz" }, RangeSpec { range: Some(7u8), label: "400MHz", resolution: "0.01MHz" }],
            Ut804Sheet::Duty => seq![RangeSpec { range: None, label: "100%", resolution: "0.01%" }],
            Ut804Sheet::TempC => seq![RangeSpec { range: None, label: "-40°C~1000°C", resolution: "0.1°C" }],
            Ut804Sheet::TempF => seq![RangeSpec { range: None, label: "-40°F~1832°F", resolution: "0.1°F" }],
            Ut804Sheet::LoopCurrent => seq![RangeSpec { range: None, label: "(4~20mA)%", resolution: "0.01%" }],
        }
    }

    /// The accuracy figures of row `row`.
    pub open spec fn spec_bands(self, row: int) -> Seq<AccuracyBand> {
        match self {
            Ut804Sheet::DcMv => { if row == 0 { seq![AccuracyBand { freq_range: Some("under REL mode"), accuracy: "0.025%+5" }] } else { seq![] } },
            Ut804Sheet::DcV => { if row == 0 { seq![AccuracyBand { freq_range: None, accuracy: "0.05%+5" }] } else if row == 1 { seq![AccuracyBand { freq_range: None, accuracy: "0.05%+5" }] } else if row == 2 { seq![AccuracyBand { freq_range: None, accuracy: "0.05%+5" }] } else if row == 3 { seq![AccuracyBand { freq_range: None, accuracy: "0.1%+8" }] } else { seq![] } },
            Ut804Sheet::AcV => { if row == 0 { seq![AccuracyBand { freq_range: Some("45Hz~1kHz"), accuracy: "0.4%+30" }, AccuracyBand { freq_range: Some(">1kHz~10kHz"), accuracy: "3%+30" }, AccuracyBand { freq_range: Some(">10kHz~100kHz"), accuracy: "6%+30" }] } else if row == 1 { seq![AccuracyBand { freq_range: Some("45Hz~1kHz"), accuracy: "0.4%+30" }, AccuracyBand { freq_range: Some(">1kHz~10kHz"), accuracy: "3%+30" }, AccuracyBand { freq_range: Some(">10kHz~100kHz"), accuracy: "6%+30" }] } else if row == 2 { seq![AccuracyBand { freq_range: Some("45Hz~1kHz"), accuracy: "0.4%+30" }, AccuracyBand { freq_range: Some(">1kHz~10kHz"), accuracy: "5%+30" }, AccuracyBand { freq_range: Some(">10kHz~100kHz"), accuracy: "Not Specified" }] } else if row == 3 { seq![AccuracyBand { freq_range: Some("45Hz~1kHz"), accuracy: "1%+30" }, AccuracyBand { freq_range: Some(">1kHz~5kHz"), accuracy: "5%+30" }, AccuracyBand { freq_range: Some(">5kHz~10kHz"), accuracy: "10%+30" }] } else { seq![] } },
            Ut804Sheet::DcUa => { if row == 0 { seq![AccuracyBand { freq_range: None, accuracy: "0.1%+15" }] } else if row == 1 { seq![AccuracyBand { freq_range: None, accuracy: "0.1%+15" }] } else { seq![] } },
            Ut804Sheet::DcMa => { if row == 0 { seq![AccuracyBand { freq_range: None, accuracy: "0.15%+15" }] } else if row == 1 { seq![AccuracyBand { freq_range: None, accuracy: "0.15%+15" }] } else { seq![] } },
            Ut804Sheet::DcA => { if row == 0 { seq![AccuracyBand { freq_range: None, accuracy: "0.5%+30" }] } else { seq![] } },
            Ut804Sheet::AcUa => { if row == 0 { seq![AccuracyBand { freq_range: Some("45Hz~1kHz"), accuracy: "0.7%+15" }, AccuracyBand { freq_range: Some(">1kHz~5kHz"), accuracy: "1%+30" }, AccuracyBand { freq_range: Some(">5kHz~10kHz"), accuracy: "2%+40" }] } else if row == 1 { seq![AccuracyBand { freq_range: Some("45Hz~1kHz"), accuracy: "0.7%+15" }, AccuracyBand { freq_range: Some(">1kHz~5kHz"), accuracy: "1%+30" }, AccuracyBand { freq_range: Some(">5kHz~10kHz"), accuracy: "2%+40" }] } else { seq![] } },
            Ut804Sheet::AcMa => { if row == 0 { seq![AccuracyBand { freq_range: Some("45Hz~1kHz"), accuracy: "0.7%+15" }, AccuracyBand { freq_range: Some(">1kHz~5kHz"), accuracy: "1%+30" }, AccuracyBand { freq_range: Some(">5kHz~10kHz"), accuracy: "2%+40" }] } else if row == 1 { seq![AccuracyBand { freq_range: Some("45Hz~1kHz"), accuracy: "0.7%+15" }, AccuracyBand { freq_range: Some(">1kHz~5kHz"), accuracy: "1%+30" }, AccuracyBand { freq_range: Some(">5kHz~10kHz"), accuracy: "2%+40" }] } else { seq![] } },
            Ut804Sheet::AcA => { if row == 0 { seq![AccuracyBand { freq_range: Some("45Hz~1kHz"), accuracy: "1.5%+40" }, AccuracyBand { freq_range: Some(">1kHz~5kHz"), accuracy: "2.5%+40" }, AccuracyBand { freq_range: Some(">5kHz~10kHz"), accuracy: "5%+40" }] } else { seq![] } },
            Ut804Sheet::Resistance => { if row == 0 { seq![AccuracyBand { freq_range: None, accuracy: "0.3%+40" }] } else if row == 1 { seq![AccuracyBand { freq_range: None, accuracy: "0.3%+40" }] } else if row == 2 { seq![AccuracyBand { freq_range: None, accuracy: "0.3%+40" }] } else if row == 3 { seq![AccuracyBand { freq_range: None, accuracy: "0.5%+40" }] } else if row == 4 { seq![AccuracyBand { freq_range: None, accuracy: "1%+40" }] } else if row == 5 { seq![AccuracyBand { freq_range: None, accuracy: "1.5%+40" }] } else { seq![] } },
            Ut804Sheet::Continuity => { if row == 0 { seq![] } else { seq![] } },
            Ut804Sheet::Diode => { if row == 0 { seq![] } else { seq![] } },
            Ut804Sheet::Capacitance => { if row == 0 { seq![AccuracyBand { freq_range: None, accuracy: "1%+20" }] } else if row == 1 { seq![AccuracyBand { freq_range: None, accuracy: "1%+20" }] } else if row == 2 { seq![AccuracyBand { freq_range: None, accuracy: "1%+20" }] } else if row == 3 { seq![AccuracyBand { freq_range: None, accuracy: "1%+20" }] } else if row == 4 { seq![AccuracyBand { freq_range: None, accuracy: "1.2%+20" }] } else if row == 5 { seq![AccuracyBand { freq_range: None, accuracy: "5%+20" }] } else if row == 6 { seq![AccuracyBand { freq_range: None, accuracy: "Not specified" }] } else { seq![] } },
            Ut804Sheet::Frequency => { if row == 0 { seq![AccuracyBand { freq_range: None, accuracy: "0.01%+8" }] } else if row == 1 { seq![AccuracyBand { freq_range: None, accuracy: "0.01%+8" }] } else if row == 2 { seq![AccuracyBand { freq_range: None, accuracy: "0.01%+8" }] } else if row == 3 { seq![AccuracyBand { freq_range: None, accuracy: "0.01%+8" }] } else if row == 4 { seq![AccuracyBand { freq_range: None, accuracy: "0.01%+8" }] } else if row == 5 { seq![AccuracyBand { freq_range: None, accuracy: "0.01%+8" }] } else if row == 6 { seq![AccuracyBand { freq_range: None, accuracy: "0.01%+8" }] } else if row == 7 { seq![AccuracyBand { freq_range: None, accuracy: "Not Specified" }] } else { seq![] } },
            Ut804Sheet::Duty => { if row == 0 { seq![AccuracyBand { freq_range: None, accuracy: "1.0%+40" }] } else { seq![] } },
            Ut804Sheet::TempC => { if row == 0 { seq![AccuracyBand { freq_range: Some("-40°C~40°C"), accuracy: "3%+30" }, AccuracyBand { freq_range: Some("40°C~400°C"), accuracy: "1%+30" }, AccuracyBand { freq_range: Some("400°C~1000°C"), accuracy: "2.5%" }] } else { seq![] } },
            Ut804Sheet::TempF => { if row == 0 { seq![AccuracyBand { freq_range: Some("-40°F~32°F"), accuracy: "4%+50" }, AccuracyBand { freq_range: Some("32°F~752°F"), accuracy: "1.5%+50" }, AccuracyBand { freq_range: Some("752°F~1832°F"), accuracy: "3%" }] } else { seq![] } },
            Ut804Sheet::LoopCurrent => { if row == 0 { seq![AccuracyBand { freq_range: None, accuracy: "1%+50" }] } else { seq![] } },
        }
    }

    /// What it says of the whole mode.
    pub open spec fn spec_mode(self) -> ModeSpecInfo {
        match self {
            Ut804Sheet::DcMv => ModeSpecInfo { input_impedance: Some("Around 2.5GΩ"), overload_protection: Some("1000V") },
            Ut804Sheet::DcV => ModeSpecInfo { input_impedance: Some("Around 10MΩ"), overload_protection: Some("1000V") },
            Ut804Sheet::AcV => ModeSpecInfo { input_impedance: Some("Approx 10MΩ"), overload_protection: Some("1000V") },
            Ut804Sheet::DcUa => ModeSpecInfo { input_impedance: None, overload_protection: Some("Fuse 0.5A 250V") },
            Ut804Sheet::DcMa => ModeSpecInfo { input_impedance: None, overload_protection: Some("Fuse 0.5A 250V") },
            Ut804Sheet::DcA => ModeSpecInfo { input_impedance: None, overload_protection: Some("Fuse 10A 250V") },
            Ut804Sheet::AcUa => ModeSpecInfo { input_impedance: None, overload_protection: Some("Fuse 0.5A 250V") },
            Ut804Sheet::AcMa => ModeSpecInfo { input_impedance: None, overload_protection: Some("Fuse 0.5A 250V") },
            Ut804Sheet::AcA => ModeSpecInfo { input_impedance: None, overload_protection: Some("Fuse 10A 250V") },
            Ut804Sheet::Resistance => ModeSpecInfo { input_impedance: None, overload_protection: Some("1000V") },
            Ut804Sheet::Continuity => ModeSpecInfo { input_impedance: None, overload_protection: Some("1000V") },
            Ut804Sheet::Diode => ModeSpecInfo { input_impedance: None, overload_protection: Some("1000V") },
            Ut804Sheet::Capacitance => ModeSpecInfo { input_impedance: None, overload_protection: Some("1000V") },
            Ut804Sheet::Frequency => ModeSpecInfo { input_impedance: None, overload_protection: Some("1000V") },
            Ut804Sheet::Duty => ModeSpecInfo { input_impedance: None, overload_protection: Some("1000V") },
            Ut804Sheet::TempC => ModeSpecInfo { input_impedance: None, overload_protection: Some("1000V") },
            Ut804Sheet::TempF => ModeSpecInfo { input_impedance: None, overload_protection: Some("1000V") },
            Ut804Sheet::LoopCurrent => ModeSpecInfo { input_impedance: None, overload_protection: Some("Fuse 0.5A 250V") },
        }
    }

    /// Its remarks, condensed.
    pub open spec fn spec_notes(self) -> Seq<&'static str> {
        match self {
            Ut804Sheet::DcMv => seq![],
            Ut804Sheet::DcV => seq![],
            Ut804Sheet::AcV => seq!["True RMS and accuracy valid 10%–100% of range", "Crest factor up to 3.0 (1000V: 1.5)", "Shorted leads: 80-digit residual, accuracy unaffected", "AC+DC: add 1%+35 digits to accuracy"],
            Ut804Sheet::DcUa => seq!["10A: ≤5A continuous; >5A–10A ≤10s at a time, >15min apart"],
            Ut804Sheet::DcMa => seq!["10A: ≤5A continuous; >5A–10A ≤10s at a time, >15min apart"],
            Ut804Sheet::DcA => seq!["10A: ≤5A continuous; >5A–10A ≤10s at a time, >15min apart"],
            Ut804Sheet::AcUa => seq!["True RMS and accuracy valid 10%–100% of range; crest factor up to 3.0", "Shorted leads: 80-digit residual, accuracy unaffected", "AC+DC: add 1%+35 digits to accuracy", "10A: ≤5A continuous; >5A–10A ≤10s at a time, >15min apart"],
            Ut804Sheet::AcMa => seq!["True RMS and accuracy valid 10%–100% of range; crest factor up to 3.0", "Shorted leads: 80-digit residual, accuracy unaffected", "AC+DC: add 1%+35 digits to accuracy", "10A: ≤5A continuous; >5A–10A ≤10s at a time, >15min apart"],
            Ut804Sheet::AcA => seq!["True RMS and accuracy valid 10%–100% of range; crest factor up to 3.0", "Shorted leads: 80-digit residual, accuracy unaffected", "AC+DC: add 1%+35 digits to accuracy", "10A: ≤5A continuous; >5A–10A ≤10s at a time, >15min apart"],
            Ut804Sheet::Resistance => seq!["400Ω: accuracy + test-lead open-circuit value"],
            Ut804Sheet::Continuity => seq!["Open circuit ≈1.2V", "Beeps continuously ≤10Ω; silent >50Ω"],
            Ut804Sheet::Diode => seq!["Open circuit ≈2.8V", "Good silicon junction: 0.5V–0.8V"],
            Ut804Sheet::Capacitance => seq!["40nF: accuracy + open-circuit test-lead capacitance"],
            Ut804Sheet::Frequency => seq!["Input 10Hz–40MHz: 200mV–30V rms", "Input at zero DC level; >40MHz not specified"],
            Ut804Sheet::Duty => seq!["Valid 10%–90% of range, 5Hz–2kHz only", "Input 10Hz–40MHz: 200mV–30V rms", "Input at zero DC level; >40MHz not specified"],
            Ut804Sheet::TempC => seq!["Included K-type point-contact probe: below 230°C only", "Above 230°C: use the rod contact probe"],
            Ut804Sheet::TempF => seq!["Included K-type point-contact probe: below 230°C only", "Above 230°C: use the rod contact probe"],
            Ut804Sheet::LoopCurrent => seq!["4mA shows 0%, 20mA shows 100%", "<4mA shows LO, >20mA shows HI"],
        }
    }

    /// The table's heading.
    pub fn name(&self) -> (r: &'static str)
        ensures
            r == self.spec_name(),
    {
        match self {
            Ut804Sheet::DcMv => "A. DC Voltage",
            Ut804Sheet::DcV => "A. DC Voltage",
            Ut804Sheet::AcV => "B. AC Voltage (AC+DC measurement is available)",
            Ut804Sheet::DcUa => "C. DC Current",
            Ut804Sheet::DcMa => "C. DC Current",
            Ut804Sheet::DcA => "C. DC Current",
            Ut804Sheet::AcUa => "D. AC Current (AC+DC measurement is available)",
            Ut804Sheet::AcMa => "D. AC Current (AC+DC measurement is available)",
            Ut804Sheet::AcA => "D. AC Current (AC+DC measurement is available)",
            Ut804Sheet::Resistance => "E. Resistance",
            Ut804Sheet::Continuity => "F. Continuity Test",
            Ut804Sheet::Diode => "G. Diode Test",
            Ut804Sheet::Capacitance => "H. Capacitance",
            Ut804Sheet::Frequency => "I. Frequency",
            Ut804Sheet::Duty => "J. Duty Cycle",
            Ut804Sheet::TempC => "K. Temperature 1-1. Degrees Celsius",
            Ut804Sheet::TempF => "K. Temperature 1-2. Fahrenheit",
            Ut804Sheet::LoopCurrent => "L. 4~20 mA loop current",
        }
    }

    /// The manual page it stands on.
    pub fn page(&self) -> (r: u16)
        ensures
            r == self.spec_page(),
    {
        match self {
            Ut804Sheet::DcMv => 59,
            Ut804Sheet::DcV => 59,
            Ut804Sheet::AcV => 60,
            Ut804Sheet::DcUa => 61,
            Ut804Sheet::DcMa => 61,
            Ut804Sheet::DcA => 61,
            Ut804Sheet::AcUa => 62,
            Ut804Sheet::AcMa => 62,
            Ut804Sheet::AcA => 62,
            Ut804Sheet::Resistance => 63,
            Ut804Sheet::Continuity => 63,
            Ut804Sheet::Diode => 64,
            Ut804Sheet::Capacitance => 64,
            Ut804Sheet::Frequency => 65,
            Ut804Sheet::Duty => 66,
            Ut804Sheet::TempC => 66,
            Ut804Sheet::TempF => 67,
            Ut804Sheet::LoopCurrent => 67,
        }
    }

    /// Its rows, in manual order.
    pub fn rows(&self) -> (r: Vec<RangeSpec>)
        ensures
            r@ == self.spec_rows(),
    {
        match self {
            Ut804Sheet::DcMv => vec![RangeSpec { range: None, label: "400mV", resolution: "0.01mV" }],
            Ut804Sheet::DcV => vec![RangeSpec { range: Some(1u8), label: "4V", resolution: "0.0001V" }, RangeSpec { range: Some(2u8), label: "40V", resolution: "0.001V" }, RangeSpec { range: Some(3u8), label: "400V", resolution: "0.01V" }, RangeSpec { range: Some(4u8), label: "1000V", resolution: "0.1V" }],
            Ut804Sheet::AcV => vec![RangeSpec { range: Some(1u8), label: "4V", resolution: "0.0001V" }, RangeSpec { range: Some(2u8), label: "40V", resolution: "0.001V" }, RangeSpec { range: Some(3u8), label: "400V", resolution: "0.01V" }, RangeSpec { range: Some(4u8), label: "1000V", resolution: "0.1V" }],
            Ut804Sheet::DcUa => vec![RangeSpec { range: Some(0u8), label: "400µA", resolution: "0.01µA" }, RangeSpec { range: Some(1u8), label: "4000µA", resolution: "0.1µA" }],
            Ut804Sheet::DcMa => vec![RangeSpec { range: Some(0u8), label: "40mA", resolution: "0.001mA" }, RangeSpec { range: Some(1u8), label: "400mA", resolution: "0.01mA" }],
            Ut804Sheet::DcA => vec![RangeSpec { range: None, label: "10A", resolution: "0.001A" }],
            Ut804Sheet::AcUa => vec![RangeSpec { range: Some(0u8), label: "400µA", resolution: "0.01µA" }, RangeSpec { range: Some(1u8), label: "4000µA", resolution: "0.1µA" }],
            Ut804Sheet::AcMa => vec![RangeSpec { range: Some(0u8), label: "40mA", resolution: "0.001mA" }, RangeSpec { range: Some(1u8), label: "400mA", resolution: "0.01mA" }],
            Ut804Sheet::AcA => vec![RangeSpec { range: None, label: "10A", resolution: "0.001A" }],
            Ut804Sheet::Resistance => vec![RangeSpec { range: Some(1u8), label: "400Ω", resolution: "0.01Ω" }, RangeSpec { range: Some(2u8), label: "4kΩ", resolution: "0.0001kΩ" }, RangeSpec { range: Some(3u8), label: "40kΩ", resolution: "0.001kΩ" }, RangeSpec { range: Some(4u8), label: "400kΩ", resolution: "0.01kΩ" }, RangeSpec { range: Some(5u8), label: "4MΩ", resolution: "0.0001MΩ" }, RangeSpec { range: Some(6u8), label: "40MΩ", resolution: "0.001MΩ" }],
            Ut804Sheet::Continuity => vec![RangeSpec { range: None, label: "(continuity symbol)", resolution: "0.01Ω" }],
            Ut804Sheet::Diode => vec![RangeSpec { range: None, label: "(diode symbol)", resolution: "0.0001V" }],
            Ut804Sheet::Capacitance => vec![RangeSpec { range: Some(1u8), label: "40nF", resolution: "0.001nF" }, RangeSpec { range: Some(2u8), label: "400nF", resolution: "0.01nF" }, RangeSpec { range: Some(3u8), label: "4µF", resolution: "0.0001µF" }, RangeSpec { range: Some(4u8), label: "40µF", resolution: "0.001µF" }, RangeSpec { range: Some(5u8), label: "400µF", resolution: "0.01µF" }, RangeSpec { range: Some(6u8), label: "4mF", resolution: "0.0001mF" }, RangeSpec { range: Some(7u8), label: "40mF", resolution: "0.001mF" }],
            Ut804Sheet::Frequency => vec![RangeSpec { range: Some(0u8), label: "40Hz", resolution: "0.001Hz" }, RangeSpec { range: Some(1u8), label: "400Hz", resolution: "0.01Hz" }, RangeSpec { range: Some(2u8), label: "4kHz", resolution: "0.0001kHz" }, RangeSpec { range: Some(3u8), label: "40kHz", resolution: "0.001kHz" }, RangeSpec { range: Some(4u8), label: "400kHz", resolution: "0.01kHz" }, RangeSpec { range: Some(5u8), label: "4MHz", resolution: "0.0001MHz" }, RangeSpec { range: Some(6u8), label: "40MHz", resolution: "0.001MHz" }, RangeSpec { range: Some(7u8), label: "400MHz", resolution: "0.01MHz" }],
            Ut804Sheet::Duty => vec![RangeSpec { range: None, label: "100%", resolution: "0.01%" }],
            Ut804Sheet::TempC => vec![RangeSpec { range: None, label: "-40°C~1000°C", resolution: "0.1°C" }],
            Ut804Sheet::TempF => vec![RangeSpec { range: None, label: "-40°F~1832°F", resolution: "0.1°F" }],
            Ut804Sheet::LoopCurrent => vec![RangeSpec { range: None, label: "(4~20mA)%", resolution: "0.01%" }],
        }
    }

    /// The accuracy figures of row `row`.
    pub fn bands(&self, row: usize) -> (r: Vec<AccuracyBand>)
        ensures
            r@ == self.spec_bands(row as int),
    {
        match self {
            Ut804Sheet::DcMv => { if row == 0 { vec![AccuracyBand { freq_range: Some("under REL mode"), accuracy: "0.025%+5" }] } else { vec![] } },
            Ut804Sheet::DcV => { if row == 0 { vec![AccuracyBand { freq_range: None, accuracy: "0.05%+5" }] } else if row == 1 { vec![AccuracyBand { freq_range: None, accuracy: "0.05%+5" }] } else if row == 2 { vec![AccuracyBand { freq_range: None, accuracy: "0.05%+5" }] } else if row == 3 { vec![AccuracyBand { freq_range: None, accuracy: "0.1%+8" }] } else { vec![] } },
            Ut804Sheet::AcV => { if row == 0 { vec![AccuracyBand { freq_range: Some("45Hz~1kHz"), accuracy: "0.4%+30" }, AccuracyBand { freq_range: Some(">1kHz~10kHz"), accuracy: "3%+30" }, AccuracyBand { freq_range: Some(">10kHz~100kHz"), accuracy: "6%+30" }] } else if row == 1 { vec![AccuracyBand { freq_range: Some("45Hz~1kHz"), accuracy: "0.4%+30" }, AccuracyBand { freq_range: Some(">1kHz~10kHz"), accuracy: "3%+30" }, AccuracyBand { freq_range: Some(">10kHz~100kHz"), accuracy: "6%+30" }] } else if row == 2 { vec![AccuracyBand { freq_range: Some("45Hz~1kHz"), accuracy: "0.4%+30" }, AccuracyBand { freq_range: Some(">1kHz~10kHz"), accuracy: "5%+30" }, AccuracyBand { freq_range: Some(">10kHz~100kHz"), accuracy: "Not Specified" }] } else if row == 3 { vec![AccuracyBand { freq_range: Some("45Hz~1kHz"), accuracy: "1%+30" }, AccuracyBand { freq_range: Some(">1kHz~5kHz"), accuracy: "5%+30" }, AccuracyBand { freq_range: Some(">5kHz~10kHz"), accuracy: "10%+30" }] } else { vec![] } },
            Ut804Sheet::DcUa => { if row == 0 { vec![AccuracyBand { freq_range: None, accuracy: "0.1%+15" }] } else if row == 1 { vec![AccuracyBand { freq_range: None, accuracy: "0.1%+15" }] } else { vec![] } },
            Ut804Sheet::DcMa => { if row == 0 { vec![AccuracyBand { freq_range: None, accuracy: "0.15%+15" }] } else if row == 1 { vec![AccuracyBand { freq_range: None, accuracy: "0.15%+15" }] } else { vec![] } },
            Ut804Sheet::DcA => { if row == 0 { vec![AccuracyBand { freq_range: None, accuracy: "0.5%+30" }] } else { vec![] } },
            Ut804Sheet::AcUa => { if row == 0 { vec![AccuracyBand { freq_range: Some("45Hz~1kHz"), accuracy: "0.7%+15" }, AccuracyBand { freq_range: Some(">1kHz~5kHz"), accuracy: "1%+30" }, AccuracyBand { freq_range: Some(">5kHz~10kHz"), accuracy: "2%+40" }] } else if row == 1 { vec![AccuracyBand { freq_range: Some("45Hz~1kHz"), accuracy: "0.7%+15" }, AccuracyBand { freq_range: Some(">1kHz~5kHz"), accuracy: "1%+30" }, AccuracyBand { freq_range: Some(">5kHz~10kHz"), accuracy: "2%+40" }] } else { vec![] } },
            Ut804Sheet::AcMa => { if row == 0 { vec![AccuracyBand { freq_range: Some("45Hz~1kHz"), accuracy: "0.7%+15" }, AccuracyBand { freq_range: Some(">1kHz~5kHz"), accuracy: "1%+30" }, AccuracyBand { freq_range: Some(">5kHz~10kHz"), accuracy: "2%+40" }] } else if row == 1 { vec![AccuracyBand { freq_range: Some("45Hz~1kHz"), accuracy: "0.7%+15" }, AccuracyBand { freq_range: Some(">1kHz~5kHz"), accuracy: "1%+30" }, AccuracyBand { freq_range: Some(">5kHz~10kHz"), accuracy: "2%+40" }] } else { vec![] } },
            Ut804Sheet::AcA => { if row == 0 { vec![AccuracyBand { freq_range: Some("45Hz~1kHz"), accuracy: "1.5%+40" }, AccuracyBand { freq_range: Some(">1kHz~5kHz"), accuracy: "2.5%+40" }, AccuracyBand { freq_range: Some(">5kHz~10kHz"), accuracy: "5%+40" }] } else { vec![] } },
            Ut804Sheet::Resistance => { if row == 0 { vec![AccuracyBand { freq_range: None, accuracy: "0.3%+40" }] } else if row == 1 { vec![AccuracyBand { freq_range: None, accuracy: "0.3%+40" }] } else if row == 2 { vec![AccuracyBand { freq_range: None, accuracy: "0.3%+40" }] } else if row == 3 { vec![AccuracyBand { freq_range: None, accuracy: "0.5%+40" }] } else if row == 4 { vec![AccuracyBand { freq_range: None, accuracy: "1%+40" }] } else if row == 5 { vec![AccuracyBand { freq_range: None, accuracy: "1.5%+40" }] } else { vec![] } },
            Ut804Sheet::Continuity => { if row == 0 { vec![] } else { vec![] } },
            Ut804Sheet::Diode => { if row == 0 { vec![] } else { vec![] } },
            Ut804Sheet::Capacitance => { if row == 0 { vec![AccuracyBand { freq_range: None, accuracy: "1%+20" }] } else if row == 1 { vec![AccuracyBand { freq_range: None, accuracy: "1%+20" }] } else if row == 2 { vec![AccuracyBand { freq_range: None, accuracy: "1%+20" }] } else if row == 3 { vec![AccuracyBand { freq_range: None, accuracy: "1%+20" }] } else if row == 4 { vec![AccuracyBand { freq_range: None, accuracy: "1.2%+20" }] } else if row == 5 { vec![AccuracyBand { freq_range: None, accuracy: "5%+20" }] } else if row == 6 { vec![AccuracyBand { freq_range: None, accuracy: "Not specified" }] } else { vec![] } },
            Ut804Sheet::Frequency => { if row == 0 { vec![AccuracyBand { freq_range: None, accuracy: "0.01%+8" }] } else if row == 1 { vec![AccuracyBand { freq_range: None, accuracy: "0.01%+8" }] } else if row == 2 { vec![AccuracyBand { freq_range: None, accuracy: "0.01%+8" }] } else if row == 3 { vec![AccuracyBand { freq_range: None, accuracy: "0.01%+8" }] } else if row == 4 { vec![AccuracyBand { freq_range: None, accuracy: "0.01%+8" }] } else if row == 5 { vec![AccuracyBand { freq_range: None, accuracy: "0.01%+8" }] } else if row == 6 { vec![AccuracyBand { freq_range: None, accuracy: "0.01%+8" }] } else if row == 7 { vec![AccuracyBand { freq_range: None, accuracy: "Not Specified" }] } else { vec![] } },
            Ut804Sheet::Duty => { if row == 0 { vec![AccuracyBand { freq_range: None, accuracy: "1.0%+40" }] } else { vec![] } },
            Ut804Sheet::TempC => { if row == 0 { vec![AccuracyBand { freq_range: Some("-40°C~40°C"), accuracy: "3%+30" }, AccuracyBand { freq_range: Some("40°C~400°C"), accuracy: "1%+30" }, AccuracyBand { freq_range: Some("400°C~1000°C"), accuracy: "2.5%" }] } else { vec![] } },
            Ut804Sheet::TempF => { if row == 0 { vec![AccuracyBand { freq_range: Some("-40°F~32°F"), accuracy: "4%+50" }, AccuracyBand { freq_range: Some("32°F~752°F"), accuracy: "1.5%+50" }, AccuracyBand { freq_range: Some("752°F~1832°F"), accuracy: "3%" }] } else { vec![] } },
            Ut804Sheet::LoopCurrent => { if row == 0 { vec![AccuracyBand { freq_range: None, accuracy: "1%+50" }] } else { vec![] } },
        }
    }

    /// What it says of the whole mode.
    pub fn mode_info(&self) -> (r: ModeSpecInfo)
        ensures
            r == self.spec_mode(),
    {
        match self {
            Ut804Sheet::DcMv => ModeSpecInfo { input_impedance: Some("Around 2.5GΩ"), overload_protection: Some("1000V") },
            Ut804Sheet::DcV => ModeSpecInfo { input_impedance: Some("Around 10MΩ"), overload_protection: Some("1000V") },
            Ut804Sheet::AcV => ModeSpecInfo { input_impedance: Some("Approx 10MΩ"), overload_protection: Some("1000V") },
            Ut804Sheet::DcUa => ModeSpecInfo { input_impedance: None, overload_protection: Some("Fuse 0.5A 250V") },
            Ut804Sheet::DcMa => ModeSpecInfo { input_impedance: None, overload_protection: Some("Fuse 0.5A 250V") },
            Ut804Sheet::DcA => ModeSpecInfo { input_impedance: None, overload_protection: Some("Fuse 10A 250V") },
            Ut804Sheet::AcUa => ModeSpecInfo { input_impedance: None, overload_protection: Some("Fuse 0.5A 250V") },
            Ut804Sheet::AcMa => ModeSpecInfo { input_impedance: None, overload_protection: Some("Fuse 0.5A 250V") },
            Ut804Sheet::AcA => ModeSpecInfo { input_impedance: None, overload_protection: Some("Fuse 10A 250V") },
            Ut804Sheet::Resistance => ModeSpecInfo { input_impedance: None, overload_protection: Some("1000V") },
            Ut804Sheet::Continuity => ModeSpecInfo { input_impedance: None, overload_protection: Some("1000V") },
            Ut804Sheet::Diode => ModeSpecInfo { input_impedance: None, overload_protection: Some("1000V") },
            Ut804Sheet::Capacitance => ModeSpecInfo { input_impedance: None, overload_protection: Some("1000V") },
            Ut804Sheet::Frequency => ModeSpecInfo { input_impedance: None, overload_protection: Some("1000V") },
            Ut804Sheet::Duty => ModeSpecInfo { input_impedance: None, overload_protection: Some("1000V") },
            Ut804Sheet::TempC => ModeSpecInfo { input_impedance: None, overload_protection: Some("1000V") },
            Ut804Sheet::TempF => ModeSpecInfo { input_impedance: None, overload_protection: Some("1000V") },
            Ut804Sheet::LoopCurrent => ModeSpecInfo { input_impedance: None, overload_protection: Some("Fuse 0.5A 250V") },
        }
    }

    /// Its remarks, condensed.
    pub fn notes(&self) -> (r: Vec<&'static str>)
        ensures
            r@ == self.spec_notes(),
    {
        match self {
            Ut804Sheet::DcMv => vec![],
            Ut804Sheet::DcV => vec![],
            Ut804Sheet::AcV => vec!["True RMS and accuracy valid 10%–100% of range", "Crest factor up to 3.0 (1000V: 1.5)", "Shorted leads: 80-digit residual, accuracy unaffected", "AC+DC: add 1%+35 digits to accuracy"],
            Ut804Sheet::DcUa => vec!["10A: ≤5A continuous; >5A–10A ≤10s at a time, >15min apart"],
            Ut804Sheet::DcMa => vec!["10A: ≤5A continuous; >5A–10A ≤10s at a time, >15min apart"],
            Ut804Sheet::DcA => vec!["10A: ≤5A continuous; >5A–10A ≤10s at a time, >15min apart"],
            Ut804Sheet::AcUa => vec!["True RMS and accuracy valid 10%–100% of range; crest factor up to 3.0", "Shorted leads: 80-digit residual, accuracy unaffected", "AC+DC: add 1%+35 digits to accuracy", "10A: ≤5A continuous; >5A–10A ≤10s at a time, >15min apart"],
            Ut804Sheet::AcMa => vec!["True RMS and accuracy valid 10%–100% of range; crest factor up to 3.0", "Shorted leads: 80-digit residual, accuracy unaffected", "AC+DC: add 1%+35 digits to accuracy", "10A: ≤5A continuous; >5A–10A ≤10s at a time, >15min apart"],
            Ut804Sheet::AcA => vec!["True RMS and accuracy valid 10%–100% of range; crest factor up to 3.0", "Shorted leads: 80-digit residual, accuracy unaffected", "AC+DC: add 1%+35 digits to accuracy", "10A: ≤5A continuous; >5A–10A ≤10s at a time, >15min apart"],
            Ut804Sheet::Resistance => vec!["400Ω: accuracy + test-lead open-circuit value"],
            Ut804Sheet::Continuity => vec!["Open circuit ≈1.2V", "Beeps continuously ≤10Ω; silent >50Ω"],
            Ut804Sheet::Diode => vec!["Open circuit ≈2.8V", "Good silicon junction: 0.5V–0.8V"],
            Ut804Sheet::Capacitance => vec!["40nF: accuracy + open-circuit test-lead capacitance"],
            Ut804Sheet::Frequency => vec!["Input 10Hz–40MHz: 200mV–30V rms", "Input at zero DC level; >40MHz not specified"],
            Ut804Sheet::Duty => vec!["Valid 10%–90% of range, 5Hz–2kHz only", "Input 10Hz–40MHz: 200mV–30V rms", "Input at zero DC level; >40MHz not specified"],
            Ut804Sheet::TempC => vec!["Included K-type point-contact probe: below 230°C only", "Above 230°C: use the rod contact probe"],
            Ut804Sheet::TempF => vec!["Included K-type point-contact probe: below 230°C only", "Above 230°C: use the rod contact probe"],
            Ut804Sheet::LoopCurrent => vec!["4mA shows 0%, 20mA shows 100%", "<4mA shows LO, >20mA shows HI"],
        }
    }

    /// Every table, in manual order.
    pub fn all() -> (r: Vec<Ut804Sheet>)
        ensures
            r@ == seq![Ut804Sheet::DcMv, Ut804Sheet::DcV, Ut804Sheet::AcV, Ut804Sheet::DcUa, Ut804Sheet::DcMa, Ut804Sheet::DcA, Ut804Sheet::AcUa, Ut804Sheet::AcMa, Ut804Sheet::AcA, Ut804Sheet::Resistance, Ut804Sheet::Continuity, Ut804Sheet::Diode, Ut804Sheet::Capacitance, Ut804Sheet::Frequency, Ut804Sheet::Duty, Ut804Sheet::TempC, Ut804Sheet::TempF, Ut804Sheet::LoopCurrent],
    {
        vec![Ut804Sheet::DcMv, Ut804Sheet::DcV, Ut804Sheet::AcV, Ut804Sheet::DcUa, Ut804Sheet::DcMa, Ut804Sheet::DcA, Ut804Sheet::AcUa, Ut804Sheet::AcMa, Ut804Sheet::AcA, Ut804Sheet::Resistance, Ut804Sheet::Continuity, Ut804Sheet::Diode, Ut804Sheet::Capacitance, Ut804Sheet::Frequency, Ut804Sheet::Duty, Ut804Sheet::TempC, Ut804Sheet::TempF, Ut804Sheet::LoopCurrent]
    }
}

/// The tables of the UT803 manual's detailed accuracy specifications.
#[derive(Debug, Clone, Copy, PartialEq, Eq, Structural)]
pub enum Ut803Sheet {
    DcMv,
    DcV,
    AcMv,
    AcV,
    DcUa,
    DcMa,
    DcA,
    AcUa,
    AcMa,
    AcA,
    Resistance,
    Continuity,
    Diode,
    Capacitance,
    Frequency,
    TempC,
    TempF,
    Transistor,
}

impl Ut803Sheet {
    /// The table's heading.
    pub open spec fn spec_name(self) -> &'static str {
        match self {
            Ut803Sheet::DcMv => "A. DC Voltage",
            Ut803Sheet::DcV => "A. DC Voltage",
            Ut803Sheet::AcMv => "B. AC Voltage",
            Ut803Sheet::AcV => "B. AC Voltage",
            Ut803Sheet::DcUa => "C. DC Current",
            Ut803Sheet::DcMa => "C. DC Current",
            Ut803Sheet::DcA => "C. DC Current",
            Ut803Sheet::AcUa => "D. AC Current",
            Ut803Sheet::AcMa => "D. AC Current",
            Ut803Sheet::AcA => "D. AC Current",
            Ut803Sheet::Resistance => "E. Resistance",
            Ut803Sheet::Continuity => "F. Continuity Test",
            Ut803Sheet::Diode => "G. Diode Testst",
            Ut803Sheet::Capacitance => "H. Capacitance",
            Ut803Sheet::Frequency => "I. Frequency",
            Ut803Sheet::TempC => "J. Temperature",
            Ut803Sheet::TempF => "J. Temperature",
            Ut803Sheet::Transistor => "K. Transistor",
        }
    }

    /// The manual page it stands on.
    pub open spec fn spec_page(self) -> u16 {
        match self {
            Ut803Sheet::DcMv => 39u16,
            Ut803Sheet::DcV => 39u16,
            Ut803Sheet::AcMv => 40u16,
            Ut803Sheet::AcV => 40u16,
            Ut803Sheet::DcUa => 42u16,
            Ut803Sheet::DcMa => 42u16,
            Ut803Sheet::DcA => 42u16,
            Ut803Sheet::AcUa => 43u16,
            Ut803Sheet::AcMa => 43u16,
            Ut803Sheet::AcA => 43u16,
            Ut803Sheet::Resistance => 44u16,
            Ut803Sheet::Continuity => 45u16,
            Ut803Sheet::Diode => 45u16,
            Ut803Sheet::Capacitance => 46u16,
            Ut803Sheet::Frequency => 47u16,
            Ut803Sheet::TempC => 48u16,
            Ut803Sheet::TempF => 48u16,
            Ut803Sheet::Transistor => 48u16,
        }
    }

    /// Its rows, in manual order.
    pub open spec fn spec_rows(self) -> Seq<RangeSpec> {
        match self {
            Ut803Sheet::DcMv => seq![RangeSpec { range: Some(4u8), label: "600mV", resolution: "0.1mV" }],
            Ut803Sheet::DcV => seq![RangeSpec { range: Some(0u8), label: "6V", resolution: "0.001V" }, RangeSpec { range: Some(1u8), label: "60V", resolution: "0.01V" }, RangeSpec { range: Some(2u8), label: "600V", resolution: "0.1V" }, RangeSpec { range: Some(3u8), label: "1000V", resolution: "1V" }],
            Ut803Sheet::AcMv => seq![RangeSpec { range: Some(4u8), label: "600mV", resolution: "0.1mV" }],
            Ut803Sheet::AcV => seq![RangeSpec { range: Some(0u8), label: "6V", resolution: "0.001V" }, RangeSpec { range: Some(1u8), label: "60V", resolution: "0.01V" }, RangeSpec { range: Some(2u8), label: "600V", resolution: "0.1V" }, RangeSpec { range: Some(3u8), label: "1000V", resolution: "1V" }],
            Ut803Sheet::DcUa => seq![RangeSpec { range: Some(0u8), label: "600µA", resolution: "0.1µA" }, RangeSpec { range: Some(1u8), label: "6000µA", resolution: "1µA" }],
            Ut803Sheet::DcMa => seq![RangeSpec { range: Some(0u8), label: "60mA", resolution: "0.01mA" }, RangeSpec { range: Some(1u8), label: "600mA", resolution: "0.1mA" }],
            Ut803Sheet::DcA => seq![RangeSpec { range: None, label: "10A", resolution: "10mA" }],
            Ut803Sheet::AcUa => seq![RangeSpec { range: Some(0u8), label: "600µA", resolution: "0.1µA" }, RangeSpec { range: Some(1u8), label: "6000µA", resolution: "1µA" }],
            Ut803Sheet::AcMa => seq![RangeSpec { range: Some(0u8), label: "60mA", resolution: "0.01mA" }, RangeSpec { range: Some(1u8), label: "600mA", resolution: "0.1mA" }],
            Ut803Sheet::AcA => seq![RangeSpec { range: None, label: "10A", resolution: "10mA" }],
            Ut803Sheet::Resistance => seq![RangeSpec { range: Some(0u8), label: "600Ω", resolution: "0.1Ω" }, RangeSpec { range: Some(1u8), label: "6kΩ", resolution: "0.001kΩ" }, RangeSpec { range: Some(2u8), label: "60kΩ", resolution: "0.01kΩ" }, RangeSpec { range: Some(3u8), label: "600kΩ", resolution: "0.1kΩ" }, RangeSpec { range: Some(4u8), label: "6MΩ", resolution: "0.001MΩ" }, RangeSpec { range: Some(5u8), label: "60MΩ", resolution: "0.01MΩ" }],
            Ut803Sheet::Continuity => seq![RangeSpec { range: None, label: "(continuity symbol)", resolution: "1Ω" }],
            Ut803Sheet::Diode => seq![RangeSpec { range: None, label: "(diode symbol)", resolution: "10mV" }],
            Ut803Sheet::Capacitance => seq![RangeSpec { range: Some(0u8), label: "6nF", resolution: "0.001nF" }, RangeSpec { range: Some(1u8), label: "60nF", resolution: "0.01nF" }, RangeSpec { range: Some(2u8), label: "600nF", resolution: "0.1nF" }, RangeSpec { range: Some(3u8), label: "6µF", resolution: "0.001µF" }, RangeSpec { range: Some(4u8), label: "60µF", resolution: "0.01µF" }, RangeSpec { range: Some(5u8), label: "600µF", resolution: "0.1µF" }, RangeSpec { range: Some(6u8), label: "6mF", resolution: "0.001mF" }],
            Ut803Sheet::Frequency => seq![RangeSpec { range: Some(0u8), label: "6kHz", resolution: "0.001kHz" }, RangeSpec { range: Some(1u8), label: "60kHz", resolution: "0.01kHz" }, RangeSpec { range: Some(2u8), label: "600kHz", resolution: "0.1kHz" }, RangeSpec { range: Some(3u8), label: "6MHz", resolution: "0.001MHz" }, RangeSpec { range: Some(4u8), label: "60MHz", resolution: "0.01MHz" }],
            Ut803Sheet::TempC => seq![RangeSpec { range: None, label: "°C", resolution: "1°C" }],
            Ut803Sheet::TempF => seq![RangeSpec { range: None, label: "°F", resolution: "1°F" }],
            Ut803Sheet::Transistor => seq![RangeSpec { range: None, label: "hFE", resolution: "1β" }],
        }
    }

    /// The accuracy figures of row `row`.
    pub open spec fn spec_bands(self, row: int) -> Seq<AccuracyBand> {
        match self {
            Ut803Sheet::DcMv => { if row == 0 { seq![AccuracyBand { freq_range: None, accuracy: "0.6%+2" }] } else { seq![] } },
            Ut803Sheet::DcV => { if row == 0 { seq![AccuracyBand { freq_range: None, accuracy: "0.3%+2" }] } else if row == 1 { seq![AccuracyBand { freq_range: None, accuracy: "0.3%+2" }] } else if row == 2 { seq![AccuracyBand { freq_range: None, accuracy: "0.3%+2" }] } else if row == 3 { seq![AccuracyBand { freq_range: None, accuracy: "0.5%+3" }] } else { seq![] } },
            Ut803Sheet::AcMv => { if row == 0 { seq![AccuracyBand { freq_range: Some("40Hz–50kHz"), accuracy: "0.6%+5" }, AccuracyBand { freq_range: Some(">50kHZ–100kHz"), accuracy: "1%+5" }] } else { seq![] } },
            Ut803Sheet::AcV => { if row == 0 { seq![AccuracyBand { freq_range: Some("40Hz–1kHz"), accuracy: "0.6%+5" }, AccuracyBand { freq_range: Some(">1kHz–10kHz"), accuracy: "1.0%+5" }, AccuracyBand { freq_range: Some(">10kHz–100kHz"), accuracy: "3%+5" }] } else if row == 1 { seq![AccuracyBand { freq_range: Some("40Hz–1kHz"), accuracy: "0.6%+5" }, AccuracyBand { freq_range: Some(">1kHz–10kHz"), accuracy: "1.5%+5" }, AccuracyBand { freq_range: Some(">10kHz–20kHz"), accuracy: "3%+5" }, AccuracyBand { freq_range: Some(">20kHz–100kHz"), accuracy: "8%+5" }] } else if row == 2 { seq![AccuracyBand { freq_range: Some("40Hz–1kHz"), accuracy: "0.6%+5" }, AccuracyBand { freq_range: Some(">1kHz–10kHz"), accuracy: "3.5%+5" }] } else if row == 3 { seq![AccuracyBand { freq_range: Some("40Hz–1kHz"), accuracy: "1.2%+3" }, AccuracyBand { freq_range: Some(">1kHz–3kHz"), accuracy: "3%+3" }] } else { seq![] } },
            Ut803Sheet::DcUa => { if row == 0 { seq![AccuracyBand { freq_range: None, accuracy: "0.5%+3" }] } else if row == 1 { seq![AccuracyBand { freq_range: None, accuracy: "0.5%+3" }] } else { seq![] } },
            Ut803Sheet::DcMa => { if row == 0 { seq![AccuracyBand { freq_range: None, accuracy: "0.5%+3" }] } else if row == 1 { seq![AccuracyBand { freq_range: None, accuracy: "0.8%+3" }] } else { seq![] } },
            Ut803Sheet::DcA => { if row == 0 { seq![AccuracyBand { freq_range: None, accuracy: "1.2%+3" }] } else { seq![] } },
            Ut803Sheet::AcUa => { if row == 0 { seq![AccuracyBand { freq_range: Some("40Hz~10kHz"), accuracy: "1.0%+5" }, AccuracyBand { freq_range: Some(">10kHz~15kHz"), accuracy: "2%+5" }] } else if row == 1 { seq![AccuracyBand { freq_range: Some("40Hz~10kHz"), accuracy: "1.0%+5" }, AccuracyBand { freq_range: Some(">10kHz~15kHz"), accuracy: "2%+5" }] } else { seq![] } },
            Ut803Sheet::AcMa => { if row == 0 { seq![AccuracyBand { freq_range: Some("40Hz~10kHz"), accuracy: "1.0%+5" }, AccuracyBand { freq_range: Some(">10kHz~15kHz"), accuracy: "2%+5" }] } else if row == 1 { seq![AccuracyBand { freq_range: Some("40Hz~10kHz"), accuracy: "1%+5" }, AccuracyBand { freq_range: Some(">10kHz~15kHz"), accuracy: "3%+5" }] } else { seq![] } },
            Ut803Sheet::AcA => { if row == 0 { seq![AccuracyBand { freq_range: Some("40Hz~5kHz"), accuracy: "2.0%+6" }] } else { seq![] } },
            Ut803Sheet::Resistance => { if row == 0 { seq![AccuracyBand { freq_range: None, accuracy: "0.8%+3" }] } else if row == 1 { seq![AccuracyBand { freq_range: None, accuracy: "0.5%+2" }] } else if row == 2 { seq![AccuracyBand { freq_range: None, accuracy: "0.5%+2" }] } else if row == 3 { seq![AccuracyBand { freq_range: None, accuracy: "0.5%+2" }] } else if row == 4 { seq![AccuracyBand { freq_range: None, accuracy: "0.8%+2" }] } else if row == 5 { seq![AccuracyBand { freq_range: None, accuracy: "1.2%+3" }] } else { seq![] } },
            Ut803Sheet::Continuity => { if row == 0 { seq![] } else { seq![] } },
            Ut803Sheet::Diode => { if row == 0 { seq![] } else { seq![] } },
            Ut803Sheet::Capacitance => { if row == 0 { seq![AccuracyBand { freq_range: None, accuracy: "2.5%+5" }] } else if row == 1 { seq![AccuracyBand { freq_range: None, accuracy: "2.5%+5" }] } else if row == 2 { seq![AccuracyBand { freq_range: None, accuracy: "2%+5" }] } else if row == 3 { seq![AccuracyBand { freq_range: None, accuracy: "2%+5" }] } else if row == 4 { seq![AccuracyBand { freq_range: None, accuracy: "2%+5" }] } else if row == 5 { seq![AccuracyBand { freq_range: None, accuracy: "3%+4" }] } else if row == 6 { seq![AccuracyBand { freq_range: None, accuracy: "5%+4" }] } else { seq![] } },
            Ut803Sheet::Frequency => { if row == 0 { seq![AccuracyBand { freq_range: None, accuracy: "0.1%+3" }] } else if row == 1 { seq![AccuracyBand { freq_range: None, accuracy: "0.1%+3" }] } else if row == 2 { seq![AccuracyBand { freq_range: None, accuracy: "0.1%+3" }] } else if row == 3 { seq![AccuracyBand { freq_range: None, accuracy: "0.1%+3" }] } else if row == 4 { seq![AccuracyBand { freq_range: None, accuracy: "0.1%+3" }] } else { seq![] } },
            Ut803Sheet::TempC => { if row == 0 { seq![AccuracyBand { freq_range: Some("-40°C~0°C"), accuracy: "8%+5" }, AccuracyBand { freq_range: Some(">0°C~400°C"), accuracy: "1%+3" }, AccuracyBand { freq_range: Some(">400°C~1000°C"), accuracy: "1.5%+3" }] } else { seq![] } },
            Ut803Sheet::TempF => { if row == 0 { seq![AccuracyBand { freq_range: Some("-40°C~32°C"), accuracy: "8%+5" }, AccuracyBand { freq_range: Some(">32°F~752°F"), accuracy: "1.5%+5" }, AccuracyBand { freq_range: Some(">752°F~1832°F"), accuracy: "2.5%+5" }] } else { seq![] } },
            Ut803Sheet::Transistor => { if row == 0 { seq![] } else { seq![] } },
        }
    }

    /// What it says of the whole mode.
    pub open spec fn spec_mode(self) -> ModeSpecInfo {
        match self {
            Ut803Sheet::DcMv => ModeSpecInfo { input_impedance: Some("Around > 3000MΩ"), overload_protection: Some("1000V") },
            Ut803Sheet::DcV => ModeSpecInfo { input_impedance: Some("Around 10MΩ"), overload_protection: Some("1000V") },
            Ut803Sheet::AcMv => ModeSpecInfo { input_impedance: Some("Around > 3000MΩ"), overload_protection: Some("1000V") },
            Ut803Sheet::AcV => ModeSpecInfo { input_impedance: Some("Around 10MΩ"), overload_protection: Some("1000V") },
            Ut803Sheet::DcUa => ModeSpecInfo { input_impedance: None, overload_protection: Some("Fuse 500mA 125V") },
            Ut803Sheet::DcMa => ModeSpecInfo { input_impedance: None, overload_protection: Some("Fuse 500mA 125V") },
            Ut803Sheet::DcA => ModeSpecInfo { input_impedance: None, overload_protection: Some("Fuse 10A 250V") },
            Ut803Sheet::AcUa => ModeSpecInfo { input_impedance: None, overload_protection: Some("Fuse 500mA 125V") },
            Ut803Sheet::AcMa => ModeSpecInfo { input_impedance: None, overload_protection: Some("Fuse 500mA 125V") },
            Ut803Sheet::AcA => ModeSpecInfo { input_impedance: None, overload_protection: Some("Fuse 10A 250V") },
            Ut803Sheet::Resistance => ModeSpecInfo { input_impedance: None, overload_protection: Some("250V rms") },
            Ut803Sheet::Continuity => ModeSpecInfo { input_impedance: None, overload_protection: Some("250V rms") },
            Ut803Sheet::Diode => ModeSpecInfo { input_impedance: None, overload_protection: Some("250V rms") },
            Ut803Sheet::Capacitance => ModeSpecInfo { input_impedance: None, overload_protection: Some("250V rms") },
            Ut803Sheet::Frequency => ModeSpecInfo { input_impedance: None, overload_protection: Some("250V rms") },
            Ut803Sheet::TempC => ModeSpecInfo { input_impedance: None, overload_protection: Some("250V rms") },
            Ut803Sheet::TempF => ModeSpecInfo { input_impedance: None, overload_protection: Some("250V rms") },
            Ut803Sheet::Transistor => ModeSpecInfo { input_impedance: None, overload_protection: Some("Fuse 200mA 250V; Fuse 500mA 125V") },
        }
    }

    /// Its remarks, condensed.
    pub open spec fn spec_notes(self) -> Seq<&'static str> {
        match self {
            Ut803Sheet::DcMv => seq![],
            Ut803Sheet::DcV => seq![],
            Ut803Sheet::AcMv => seq!["True RMS valid 10%–95% of range", "Crest factor 3.0 (1000V: 1.5)", "Shorted input: residual under ~30 digits, accuracy unaffected", "AC+DC: range accuracy + 1%"],
            Ut803Sheet::AcV => seq!["True RMS valid 10%–95% of range", "Crest factor 3.0 (1000V: 1.5)", "Shorted input: residual under ~30 digits, accuracy unaffected", "AC+DC: range accuracy + 1%"],
            Ut803Sheet::DcUa => seq!["≤5A range: continuous; >5A range: ≤10s at a time, ≥15min apart"],
            Ut803Sheet::DcMa => seq!["≤5A range: continuous; >5A range: ≤10s at a time, ≥15min apart"],
            Ut803Sheet::DcA => seq!["≤5A range: continuous; >5A range: ≤10s at a time, ≥15min apart"],
            Ut803Sheet::AcUa => seq!["True RMS valid 10%–95% of range; crest factor 3.0", "Shorted input: residual under ~30 digits, accuracy unaffected", "AC+DC: range accuracy + 1%", "≤5A range: continuous; >5A range: ≤10s at a time, ≥15min apart"],
            Ut803Sheet::AcMa => seq!["True RMS valid 10%–95% of range; crest factor 3.0", "Shorted input: residual under ~30 digits, accuracy unaffected", "AC+DC: range accuracy + 1%", "≤5A range: continuous; >5A range: ≤10s at a time, ≥15min apart"],
            Ut803Sheet::AcA => seq!["True RMS valid 10%–95% of range; crest factor 3.0", "Shorted input: residual under ~30 digits, accuracy unaffected", "AC+DC: range accuracy + 1%", "≤5A range: continuous; >5A range: ≤10s at a time, ≥15min apart"],
            Ut803Sheet::Resistance => seq!["600Ω: accuracy + test-lead short-circuit resistance"],
            Ut803Sheet::Continuity => seq!["Open circuit ≈-1.2V", "Beeps continuously ≤10Ω; silent >30Ω"],
            Ut803Sheet::Diode => seq!["Open circuit ≈2.7V", "Working current ≈1mA"],
            Ut803Sheet::Capacitance => seq!["6nF, 60nF, 600nF: subtract open-circuit test-lead capacitance"],
            Ut803Sheet::Frequency => seq!["Input 10Hz–1MHz: 150mV–30V rms", "Input >1MHz–10MHz: 300mV–30V rms", "Input >10MHz–50MHz: 600mV–30V rms", "Input at zero DC level; >50MHz unspecified"],
            Ut803Sheet::TempC => seq!["Included point-contact probe: below 230°C only", "Above 230°C: use the rod-type probe"],
            Ut803Sheet::TempF => seq!["Included point-contact probe: below 230°C only", "Above 230°C: use the rod-type probe"],
            Ut803Sheet::Transistor => seq!["Vce ≈2.2V, bo ≈10µA", "Max 1000β"],
        }
    }

    /// The table's heading.
    pub fn name(&self) -> (r: &'static str)
        ensures
            r == self.spec_name(),
    {
        match self {
            Ut803Sheet::DcMv => "A. DC Voltage",
            Ut803Sheet::DcV => "A. DC Voltage",
            Ut803Sheet::AcMv => "B. AC Voltage",
            Ut803Sheet::AcV => "B. AC Voltage",
            Ut803Sheet::DcUa => "C. DC Current",
            Ut803Sheet::DcMa => "C. DC Current",
            Ut803Sheet::DcA => "C. DC Current",
            Ut803Sheet::AcUa => "D. AC Current",
            Ut803Sheet::AcMa => "D. AC Current",
            Ut803Sheet::AcA => "D. AC Current",
            Ut803Sheet::Resistance => "E. Resistance",
            Ut803Sheet::Continuity => "F. Continuity Test",
            Ut803Sheet::Diode => "G. Diode Testst",
            Ut803Sheet::Capacitance => "H. Capacitance",
            Ut803Sheet::Frequency => "I. Frequency",
            Ut803Sheet::TempC => "J. Temperature",
            Ut803Sheet::TempF => "J. Temperature",
            Ut803Sheet::Transistor => "K. Transistor",
        }
    }

    /// The manual page it stands on.
    pub fn page(&self) -> (r: u16)
        ensures
            r == self.spec_page(),
    {
        match self {
            Ut803Sheet::DcMv => 39,
            Ut803Sheet::DcV => 39,
            Ut803Sheet::AcMv => 40,
            Ut803Sheet::AcV => 40,
            Ut803Sheet::DcUa => 42,
            Ut803Sheet::DcMa => 42,
            Ut803Sheet::DcA => 42,
            Ut803Sheet::AcUa => 43,
            Ut803Sheet::AcMa => 43,
            Ut803Sheet::AcA => 43,
            Ut803Sheet::Resistance => 44,
            Ut803Sheet::Continuity => 45,
            Ut803Sheet::Diode => 45,
            Ut803Sheet::Capacitance => 46,
            Ut803Sheet::Frequency => 47,
            Ut803Sheet::TempC => 48,
            Ut803Sheet::TempF => 48,
            Ut803Sheet::Transistor => 48,
        }
    }

    /// Its rows, in manual order.
    pub fn rows(&self) -> (r: Vec<RangeSpec>)
        ensures
            r@ == self.spec_rows(),
    {
        match self {
            Ut803Sheet::DcMv => vec![RangeSpec { range: Some(4u8), label: "600mV", resolution: "0.1mV" }],
            Ut803Sheet::DcV => vec![RangeSpec { range: Some(0u8), label: "6V", resolution: "0.001V" }, RangeSpec { range: Some(1u8), label: "60V", resolution: "0.01V" }, RangeSpec { range: Some(2u8), label: "600V", resolution: "0.1V" }, RangeSpec { range: Some(3u8), label: "1000V", resolution: "1V" }],
            Ut803Sheet::AcMv => vec![RangeSpec { range: Some(4u8), label: "600mV", resolution: "0.1mV" }],
            Ut803Sheet::AcV => vec![RangeSpec { range: Some(0u8), label: "6V", resolution: "0.001V" }, RangeSpec { range: Some(1u8), label: "60V", resolution: "0.01V" }, RangeSpec { range: Some(2u8), label: "600V", resolution: "0.1V" }, RangeSpec { range: Some(3u8), label: "1000V", resolution: "1V" }],
            Ut803Sheet::DcUa => vec![RangeSpec { range: Some(0u8), label: "600µA", resolution: "0.1µA" }, RangeSpec { range: Some(1u8), label: "6000µA", resolution: "1µA" }],
            Ut803Sheet::DcMa => vec![RangeSpec { range: Some(0u8), label: "60mA", resolution: "0.01mA" }, RangeSpec { range: Some(1u8), label: "600mA", resolution: "0.1mA" }],
            Ut803Sheet::DcA => vec![RangeSpec { range: None, label: "10A", resolution: "10mA" }],
            Ut803Sheet::AcUa => vec![RangeSpec { range: Some(0u8), label: "600µA", resolution: "0.1µA" }, RangeSpec { range: Some(1u8), label: "6000µA", resolution: "1µA" }],
            Ut803Sheet::AcMa => vec![RangeSpec { range: Some(0u8), label: "60mA", resolution: "0.01mA" }, RangeSpec { range: Some(1u8), label: "600mA", resolution: "0.1mA" }],
            Ut803Sheet::AcA => vec![RangeSpec { range: None, label: "10A", resolution: "10mA" }],
            Ut803Sheet::Resistance => vec![RangeSpec { range: Some(0u8), label: "600Ω", resolution: "0.1Ω" }, RangeSpec { range: Some(1u8), label: "6kΩ", resolution: "0.001kΩ" }, RangeSpec { range: Some(2u8), label: "60kΩ", resolution: "0.01kΩ" }, RangeSpec { range: Some(3u8), label: "600kΩ", resolution: "0.1kΩ" }, RangeSpec { range: Some(4u8), label: "6MΩ", resolution: "0.001MΩ" }, RangeSpec { range: Some(5u8), label: "60MΩ", resolution: "0.01MΩ" }],
            Ut803Sheet::Continuity => vec![RangeSpec { range: None, label: "(continuity symbol)", resolution: "1Ω" }],
            Ut803Sheet::Diode => vec![RangeSpec { range: None, label: "(diode symbol)", resolution: "10mV" }],
            Ut803Sheet::Capacitance => vec![RangeSpec { range: Some(0u8), label: "6nF", resolution: "0.001nF" }, RangeSpec { range: Some(1u8), label: "60nF", resolution: "0.01nF" }, RangeSpec { range: Some(2u8), label: "600nF", resolution: "0.1nF" }, RangeSpec { range: Some(3u8), label: "6µF", resolution: "0.001µF" }, RangeSpec { range: Some(4u8), label: "60µF", resolution: "0.01µF" }, RangeSpec { range: Some(5u8), label: "600µF", resolution: "0.1µF" }, RangeSpec { range: Some(6u8), label: "6mF", resolution: "0.001mF" }],
            Ut803Sheet::Frequency => vec![RangeSpec { range: Some(0u8), label: "6kHz", resolution: "0.001kHz" }, RangeSpec { range: Some(1u8), label: "60kHz", resolution: "0.01kHz" }, RangeSpec { range: Some(2u8), label: "600kHz", resolution: "0.1kHz" }, RangeSpec { range: Some(3u8), label: "6MHz", resolution: "0.001MHz" }, RangeSpec { range: Some(4u8), label: "60MHz", resolution: "0.01MHz" }],
            Ut803Sheet::TempC => vec![RangeSpec { range: None, label: "°C", resolution: "1°C" }],
            Ut803Sheet::TempF => vec![RangeSpec { range: None, label: "°F", resolution: "1°F" }],
            Ut803Sheet::Transistor => vec![RangeSpec { range: None, label: "hFE", resolution: "1β" }],
        }
    }

    /// The accuracy figures of row `row`.
    pub fn bands(&self, row: usize) -> (r: Vec<AccuracyBand>)
        ensures
            r@ == self.spec_bands(row as int),
    {
        match self {
            Ut803Sheet::DcMv => { if row == 0 { vec![AccuracyBand { freq_range: None, accuracy: "0.6%+2" }] } else { vec![] } },
            Ut803Sheet::DcV => { if row == 0 { vec![AccuracyBand { freq_range: None, accuracy: "0.3%+2" }] } else if row == 1 { vec![AccuracyBand { freq_range: None, accuracy: "0.3%+2" }] } else if row == 2 { vec![AccuracyBand { freq_range: None, accuracy: "0.3%+2" }] } else if row == 3 { vec![AccuracyBand { freq_range: None, accuracy: "0.5%+3" }] } else { vec![] } },
            Ut803Sheet::AcMv => { if row == 0 { vec![AccuracyBand { freq_range: Some("40Hz–50kHz"), accuracy: "0.6%+5" }, AccuracyBand { freq_range: Some(">50kHZ–100kHz"), accuracy: "1%+5" }] } else { vec![] } },
            Ut803Sheet::AcV => { if row == 0 { vec![AccuracyBand { freq_range: Some("40Hz–1kHz"), accuracy: "0.6%+5" }, AccuracyBand { freq_range: Some(">1kHz–10kHz"), accuracy: "1.0%+5" }, AccuracyBand { freq_range: Some(">10kHz–100kHz"), accuracy: "3%+5" }] } else if row == 1 { vec![AccuracyBand { freq_range: Some("40Hz–1kHz"), accuracy: "0.6%+5" }, AccuracyBand { freq_range: Some(">1kHz–10kHz"), accuracy: "1.5%+5" }, AccuracyBand { freq_range: Some(">10kHz–20kHz"), accuracy: "3%+5" }, AccuracyBand { freq_range: Some(">20kHz–100kHz"), accuracy: "8%+5" }] } else if row == 2 { vec![AccuracyBand { freq_range: Some("40Hz–1kHz"), accuracy: "0.6%+5" }, AccuracyBand { freq_range: Some(">1kHz–10kHz"), accuracy: "3.5%+5" }] } else if row == 3 { vec![AccuracyBand { freq_range: Some("40Hz–1kHz"), accuracy: "1.2%+3" }, AccuracyBand { freq_range: Some(">1kHz–3kHz"), accuracy: "3%+3" }] } else { vec![] } },
            Ut803Sheet::DcUa => { if row == 0 { vec![AccuracyBand { freq_range: None, accuracy: "0.5%+3" }] } else if row == 1 { vec![AccuracyBand { freq_range: None, accuracy: "0.5%+3" }] } else { vec![] } },
            Ut803Sheet::DcMa => { if row == 0 { vec![AccuracyBand { freq_range: None, accuracy: "0.5%+3" }] } else if row == 1 { vec![AccuracyBand { freq_range: None, accuracy: "0.8%+3" }] } else { vec![] } },
            Ut803Sheet::DcA => { if row == 0 { vec![AccuracyBand { freq_range: None, accuracy: "1.2%+3" }] } else { vec![] } },
            Ut803Sheet::AcUa => { if row == 0 { vec![AccuracyBand { freq_range: Some("40Hz~10kHz"), accuracy: "1.0%+5" }, AccuracyBand { freq_range: Some(">10kHz~15kHz"), accuracy: "2%+5" }] } else if row == 1 { vec![AccuracyBand { freq_range: Some("40Hz~10kHz"), accuracy: "1.0%+5" }, AccuracyBand { freq_range: Some(">10kHz~15kHz"), accuracy: "2%+5" }] } else { vec![] } },
            Ut803Sheet::AcMa => { if row == 0 { vec![AccuracyBand { freq_range: Some("40Hz~10kHz"), accuracy: "1.0%+5" }, AccuracyBand { freq_range: Some(">10kHz~15kHz"), accuracy: "2%+5" }] } else if row == 1 { vec![AccuracyBand { freq_range: Some("40Hz~10kHz"), accuracy: "1%+5" }, AccuracyBand { freq_range: Some(">10kHz~15kHz"), accuracy: "3%+5" }] } else { vec![] } },
            Ut803Sheet::AcA => { if row == 0 { vec![AccuracyBand { freq_range: Some("40Hz~5kHz"), accuracy: "2.0%+6" }] } else { vec![] } },
            Ut803Sheet::Resistance => { if row == 0 { vec![AccuracyBand { freq_range: None, accuracy: "0.8%+3" }] } else if row == 1 { vec![AccuracyBand { freq_range: None, accuracy: "0.5%+2" }] } else if row == 2 { vec![AccuracyBand { freq_range: None, accuracy: "0.5%+2" }] } else if row == 3 { vec![AccuracyBand { freq_range: None, accuracy: "0.5%+2" }] } else if row == 4 { vec![AccuracyBand { freq_range: None, accuracy: "0.8%+2" }] } else if row == 5 { vec![AccuracyBand { freq_range: None, accuracy: "1.2%+3" }] } else { vec![] } },
            Ut803Sheet::Continuity => { if row == 0 { vec![] } else { vec![] } },
            Ut803Sheet::Diode => { if row == 0 { vec![] } else { vec![] } },
            Ut803Sheet::Capacitance => { if row == 0 { vec![AccuracyBand { freq_range: None, accuracy: "2.5%+5" }] } else if row == 1 { vec![AccuracyBand { freq_range: None, accuracy: "2.5%+5" }] } else if row == 2 { vec![AccuracyBand { freq_range: None, accuracy: "2%+5" }] } else if row == 3 { vec![AccuracyBand { freq_range: None, accuracy: "2%+5" }] } else if row == 4 { vec![AccuracyBand { freq_range: None, accuracy: "2%+5" }] } else if row == 5 { vec![AccuracyBand { freq_range: None, accuracy: "3%+4" }] } else if row == 6 { vec![AccuracyBand { freq_range: None, accuracy: "5%+4" }] } else { vec![] } },
            Ut803Sheet::Frequency => { if row == 0 { vec![AccuracyBand { freq_range: None, accuracy: "0.1%+3" }] } else if row == 1 { vec![AccuracyBand { freq_range: None, accuracy: "0.1%+3" }] } else if row == 2 { vec![AccuracyBand { freq_range: None, accuracy: "0.1%+3" }] } else if row == 3 { vec![AccuracyBand { freq_range: None, accuracy: "0.1%+3" }] } else if row == 4 { vec![AccuracyBand { freq_range: None, accuracy: "0.1%+3" }] } else { vec![] } },
            Ut803Sheet::TempC => { if row == 0 { vec![AccuracyBand { freq_range: Some("-40°C~0°C"), accuracy: "8%+5" }, AccuracyBand { freq_range: Some(">0°C~400°C"), accuracy: "1%+3" }, AccuracyBand { freq_range: Some(">400°C~1000°C"), accuracy: "1.5%+3" }] } else { vec![] } },
            Ut803Sheet::TempF => { if row == 0 { vec![AccuracyBand { freq_range: Some("-40°C~32°C"), accuracy: "8%+5" }, AccuracyBand { freq_range: Some(">32°F~752°F"), accuracy: "1.5%+5" }, AccuracyBand { freq_range: Some(">752°F~1832°F"), accuracy: "2.5%+5" }] } else { vec![] } },
            Ut803Sheet::Transistor => { if row == 0 { vec![] } else { vec![] } },
        }
    }

    /// What it says of the whole mode.
    pub fn mode_info(&self) -> (r: ModeSpecInfo)
        ensures
            r == self.spec_mode(),
    {
        match self {
            Ut803Sheet::DcMv => ModeSpecInfo { input_impedance: Some("Around > 3000MΩ"), overload_protection: Some("1000V") },
            Ut803Sheet::DcV => ModeSpecInfo { input_impedance: Some("Around 10MΩ"), overload_protection: Some("1000V") },
            Ut803Sheet::AcMv => ModeSpecInfo { input_impedance: Some("Around > 3000MΩ"), overload_protection: Some("1000V") },
            Ut803Sheet::AcV => ModeSpecInfo { input_impedance: Some("Around 10MΩ"), overload_protection: Some("1000V") },
            Ut803Sheet::DcUa => ModeSpecInfo { input_impedance: None, overload_protection: Some("Fuse 500mA 125V") },
            Ut803Sheet::DcMa => ModeSpecInfo { input_impedance: None, overload_protection: Some("Fuse 500mA 125V") },
            Ut803Sheet::DcA => ModeSpecInfo { input_impedance: None, overload_protection: Some("Fuse 10A 250V") },
            Ut803Sheet::AcUa => ModeSpecInfo { input_impedance: None, overload_protection: Some("Fuse 500mA 125V") },
            Ut803Sheet::AcMa => ModeSpecInfo { input_impedance: None, overload_protection: Some("Fuse 500mA 125V") },
            Ut803Sheet::AcA => ModeSpecInfo { input_impedance: None, overload_protection: Some("Fuse 10A 250V") },
            Ut803Sheet::Resistance => ModeSpecInfo { input_impedance: None, overload_protection: Some("250V rms") },
            Ut803Sheet::Continuity => ModeSpecInfo { input_impedance: None, overload_protection: Some("250V rms") },
            Ut803Sheet::Diode => ModeSpecInfo { input_impedance: None, overload_protection: Some("250V rms") },
            Ut803Sheet::Capacitance => ModeSpecInfo { input_impedance: None, overload_protection: Some("250V rms") },
            Ut803Sheet::Frequency => ModeSpecInfo { input_impedance: None, overload_protection: Some("250V rms") },
            Ut803Sheet::TempC => ModeSpecInfo { input_impedance: None, overload_protection: Some("250V rms") },
            Ut803Sheet::TempF => ModeSpecInfo { input_impedance: None, overload_protection: Some("250V rms") },
            Ut803Sheet::Transistor => ModeSpecInfo { input_impedance: None, overload_protection: Some("Fuse 200mA 250V; Fuse 500mA 125V") },
        }
    }

    /// Its remarks, condensed.
    pub fn notes(&self) -> (r: Vec<&'static str>)
        ensures
            r@ == self.spec_notes(),
    {
        match self {
            Ut803Sheet::DcMv => vec![],
            Ut803Sheet::DcV => vec![],
            Ut803Sheet::AcMv => vec!["True RMS valid 10%–95% of range", "Crest factor 3.0 (1000V: 1.5)", "Shorted input: residual under ~30 digits, accuracy unaffected", "AC+DC: range accuracy + 1%"],
            Ut803Sheet::AcV => vec!["True RMS valid 10%–95% of range", "Crest factor 3.0 (1000V: 1.5)", "Shorted input: residual under ~30 digits, accuracy unaffected", "AC+DC: range accuracy + 1%"],
            Ut803Sheet::DcUa => vec!["≤5A range: continuous; >5A range: ≤10s at a time, ≥15min apart"],
            Ut803Sheet::DcMa => vec!["≤5A range: continuous; >5A range: ≤10s at a time, ≥15min apart"],
            Ut803Sheet::DcA => vec!["≤5A range: continuous; >5A range: ≤10s at a time, ≥15min apart"],
            Ut803Sheet::AcUa => vec!["True RMS valid 10%–95% of range; crest factor 3.0", "Shorted input: residual under ~30 digits, accuracy unaffected", "AC+DC: range accuracy + 1%", "≤5A range: continuous; >5A range: ≤10s at a time, ≥15min apart"],
            Ut803Sheet::AcMa => vec!["True RMS valid 10%–95% of range; crest factor 3.0", "Shorted input: residual under ~30 digits, accuracy unaffected", "AC+DC: range accuracy + 1%", "≤5A range: continuous; >5A range: ≤10s at a time, ≥15min apart"],
            Ut803Sheet::AcA => vec!["True RMS valid 10%–95% of range; crest factor 3.0", "Shorted input: residual under ~30 digits, accuracy unaffected", "AC+DC: range accuracy + 1%", "≤5A range: continuous; >5A range: ≤10s at a time, ≥15min apart"],
            Ut803Sheet::Resistance => vec!["600Ω: accuracy + test-lead short-circuit resistance"],
            Ut803Sheet::Continuity => vec!["Open circuit ≈-1.2V", "Beeps continuously ≤10Ω; silent >30Ω"],
            Ut803Sheet::Diode => vec!["Open circuit ≈2.7V", "Working current ≈1mA"],
            Ut803Sheet::Capacitance => vec!["6nF, 60nF, 600nF: subtract open-circuit test-lead capacitance"],
            Ut803Sheet::Frequency => vec!["Input 10Hz–1MHz: 150mV–30V rms", "Input >1MHz–10MHz: 300mV–30V rms", "Input >10MHz–50MHz: 600mV–30V rms", "Input at zero DC level; >50MHz unspecified"],
            Ut803Sheet::TempC => vec!["Included point-contact probe: below 230°C only", "Above 230°C: use the rod-type probe"],
            Ut803Sheet::TempF => vec!["Included point-contact probe: below 230°C only", "Above 230°C: use the rod-type probe"],
            Ut803Sheet::Transistor => vec!["Vce ≈2.2V, bo ≈10µA", "Max 1000β"],
        }
    }

    /// Every table, in manual order.
    pub fn all() -> (r: Vec<Ut803Sheet>)
        ensures
            r@ == seq![Ut803Sheet::DcMv, Ut803Sheet::DcV, Ut803Sheet::AcMv, Ut803Sheet::AcV, Ut803Sheet::DcUa, Ut803Sheet::DcMa, Ut803Sheet::DcA, Ut803Sheet::AcUa, Ut803Sheet::AcMa, Ut803Sheet::AcA, Ut803Sheet::Resistance, Ut803Sheet::Continuity, Ut803Sheet::Diode, Ut803Sheet::Capacitance, Ut803Sheet::Frequency, Ut803Sheet::TempC, Ut803Sheet::TempF, Ut803Sheet::Transistor],
    {
        vec![Ut803Sheet::DcMv, Ut803Sheet::DcV, Ut803Sheet::AcMv, Ut803Sheet::AcV, Ut803Sheet::DcUa, Ut803Sheet::DcMa, Ut803Sheet::DcA, Ut803Sheet::AcUa, Ut803Sheet::AcMa, Ut803Sheet::AcA, Ut803Sheet::Resistance, Ut803Sheet::Continuity, Ut803Sheet::Diode, Ut803Sheet::Capacitance, Ut803Sheet::Frequency, Ut803Sheet::TempC, Ut803Sheet::TempF, Ut803Sheet::Transistor]
    }
}

} // verus!
