//! The UT61E+ manual's specification tables, as data.
use crate::specs::{AccuracyBand, ModeSpecInfo, RangeSpec};
use vstd::prelude::*;

verus! {

/// The tables of the UT61+ series manual's specifications for the UT61E+.
#[derive(Debug, Clone, Copy, PartialEq, Eq, Structural)]
pub enum Ut61ePlusSheet {
    DcMv,
    DcV,
    AcMv,
    AcV,
    LpfV,
    AcdcV,
    Resistance,
    Continuity,
    Diode,
    Transistor,
    Capacitance,
    DcUa,
    DcMa,
    DcA,
    AcUa,
    AcMa,
    AcA,
    Frequency,
    Duty,
}

impl Ut61ePlusSheet {
    /// The table's heading.
    pub open spec fn spec_name(self) -> &'static str {
        match self {
            Ut61ePlusSheet::DcMv => "DC Voltage",
            Ut61ePlusSheet::DcV => "DC Voltage",
            Ut61ePlusSheet::AcMv => "AC Voltage",
            Ut61ePlusSheet::AcV => "AC Voltage",
            Ut61ePlusSheet::LpfV => "AC Voltage",
            Ut61ePlusSheet::AcdcV => "AC+DC Voltage",
            Ut61ePlusSheet::Resistance => "Resistance",
            Ut61ePlusSheet::Continuity => "Continuity and Diode",
            Ut61ePlusSheet::Diode => "Continuity and Diode",
            Ut61ePlusSheet::Transistor => "Transistor Magnification",
            Ut61ePlusSheet::Capacitance => "Capacitance",
            Ut61ePlusSheet::DcUa => "DC Current",
            Ut61ePlusSheet::DcMa => "DC Current",
            Ut61ePlusSheet::DcA => "DC Current",
            Ut61ePlusSheet::AcUa => "AC Current",
            Ut61ePlusSheet::AcMa => "AC Current",
            Ut61ePlusSheet::AcA => "AC Current",
            Ut61ePlusSheet::Frequency => "Frequency/Duty Ratio",
            Ut61ePlusSheet::Duty => "Frequency/Duty Ratio",
        }
    }

    /// The manual page it stands on.
    pub open spec fn spec_page(self) -> u16 {
        match self {
            Ut61ePlusSheet::DcMv => 14u16,
            Ut61ePlusSheet::DcV => 14u16,
            Ut61ePlusSheet::AcMv => 15u16,
            Ut61ePlusSheet::AcV => 15u16,
            Ut61ePlusSheet::LpfV => 15u16,
            Ut61ePlusSheet::AcdcV => 15u16,
            Ut61ePlusSheet::Resistance => 16u16,
            Ut61ePlusSheet::Continuity => 16u16,
            Ut61ePlusSheet::Diode => 16u16,
            Ut61ePlusSheet::Transistor => 16u16,
            Ut61ePlusSheet::Capacitance => 16u16,
            Ut61ePlusSheet::DcUa => 17u16,
            Ut61ePlusSheet::DcMa => 17u16,
            Ut61ePlusSheet::DcA => 17u16,
            Ut61ePlusSheet::AcUa => 18u16,
            Ut61ePlusSheet::AcMa => 18u16,
            Ut61ePlusSheet::AcA => 18u16,
            Ut61ePlusSheet::Frequency => 18u16,
            Ut61ePlusSheet::Duty => 18u16,
        }
    }

    /// Its rows, in manual order.
    pub open spec fn spec_rows(self) -> Seq<RangeSpec> {
        match self {
            Ut61ePlusSheet::DcMv => seq![RangeSpec { range: Some(0u8), label: "220.00mV", resolution: "0.01mV" }],
            Ut61ePlusSheet::DcV => seq![RangeSpec { range: Some(0u8), label: "2.2000V", resolution: "0.1mV" }, RangeSpec { range: Some(1u8), label: "22.000V", resolution: "1mV" }, RangeSpec { range: Some(2u8), label: "220.00V", resolution: "10mV" }, RangeSpec { range: Some(3u8), label: "1000.0V", resolution: "0.1V" }],
            Ut61ePlusSheet::AcMv => seq![RangeSpec { range: Some(0u8), label: "220.00mV", resolution: "0.01mV" }],
            Ut61ePlusSheet::AcV => seq![RangeSpec { range: Some(0u8), label: "2.2000V", resolution: "0.1mV" }, RangeSpec { range: Some(1u8), label: "22.000V", resolution: "1mV" }, RangeSpec { range: Some(2u8), label: "220.00V", resolution: "10mV" }, RangeSpec { range: Some(3u8), label: "1000.0V", resolution: "0.1V" }],
            Ut61ePlusSheet::LpfV => seq![RangeSpec { range: Some(0u8), label: "2.2000V", resolution: "0.1mV" }, RangeSpec { range: Some(1u8), label: "22.000V", resolution: "1mV" }, RangeSpec { range: Some(2u8), label: "220.00V", resolution: "10mV" }, RangeSpec { range: Some(3u8), label: "1000.0V", resolution: "0.1V" }],
            Ut61ePlusSheet::AcdcV => seq![RangeSpec { range: Some(0u8), label: "2.2000V", resolution: "0.1mV" }, RangeSpec { range: Some(1u8), label: "22.000V", resolution: "1mV" }, RangeSpec { range: Some(2u8), label: "220.00V", resolution: "10mV" }, RangeSpec { range: Some(3u8), label: "1000.0V", resolution: "0.1V" }],
            Ut61ePlusSheet::Resistance => seq![RangeSpec { range: Some(0u8), label: "220.00Ω", resolution: "0.01Ω" }, RangeSpec { range: Some(1u8), label: "2.2000kΩ", resolution: "0.1Ω" }, RangeSpec { range: Some(2u8), label: "22.000kΩ", resolution: "1Ω" }, RangeSpec { range: Some(3u8), label: "220.00kΩ", resolution: "10Ω" }, RangeSpec { range: Some(4u8), label: "2.2000MΩ", resolution: "100Ω" }, RangeSpec { range: Some(5u8), label: "22.000MΩ", resolution: "1kΩ" }, RangeSpec { range: Some(6u8), label: "220.00MΩ", resolution: "10kΩ" }],
            Ut61ePlusSheet::Continuity => seq![RangeSpec { range: None, label: "Continuity", resolution: "0.1Ω" }],
            Ut61ePlusSheet::Diode => seq![RangeSpec { range: None, label: "Diode", resolution: "0.001V" }],
            Ut61ePlusSheet::Transistor => seq![RangeSpec { range: None, label: "1000β", resolution: "1β" }],
            Ut61ePlusSheet::Capacitance => seq![RangeSpec { range: Some(0u8), label: "22.000nF", resolution: "1pF" }, RangeSpec { range: Some(1u8), label: "220.00nF", resolution: "10pF" }, RangeSpec { range: Some(2u8), label: "2.2000µF", resolution: "100pF" }, RangeSpec { range: Some(3u8), label: "22.000µF", resolution: "1nF" }, RangeSpec { range: Some(4u8), label: "220.00µF", resolution: "10nF" }, RangeSpec { range: Some(5u8), label: "2.2000mF", resolution: "100nF" }, RangeSpec { range: Some(6u8), label: "22.000mF", resolution: "1µF" }, RangeSpec { range: Some(7u8), label: "220.00mF", resolution: "10µF" }],
            Ut61ePlusSheet::DcUa => seq![RangeSpec { range: Some(0u8), label: "220.00µA", resolution: "0.01µA" }, RangeSpec { range: Some(1u8), label: "2200.0µA", resolution: "0.1µA" }],
            Ut61ePlusSheet::DcMa => seq![RangeSpec { range: Some(0u8), label: "22.000mA", resolution: "1µA" }, RangeSpec { range: Some(1u8), label: "220.00mA", resolution: "10µA" }],
            Ut61ePlusSheet::DcA => seq![RangeSpec { range: None, label: "20.000A", resolution: "1mA" }],
            Ut61ePlusSheet::AcUa => seq![RangeSpec { range: Some(0u8), label: "220µA", resolution: "0.01µA" }, RangeSpec { range: Some(1u8), label: "2200µA", resolution: "0.1µA" }],
            Ut61ePlusSheet::AcMa => seq![RangeSpec { range: Some(0u8), label: "22mA", resolution: "1µA" }, RangeSpec { range: Some(1u8), label: "220mA", resolution: "10µA" }],
            Ut61ePlusSheet::AcA => seq![RangeSpec { range: None, label: "20A", resolution: "1mA" }],
            Ut61ePlusSheet::Frequency => seq![RangeSpec { range: None, label: "10Hz~220MHz", resolution: "0.01Hz~0.01MHz" }],
            Ut61ePlusSheet::Duty => seq![RangeSpec { range: None, label: "0.1%~99.9%", resolution: "0.1%" }],
        }
    }

    /// The accuracy figures of row `row`.
    pub open spec fn spec_bands(self, row: int) -> Seq<AccuracyBand> {
        match self {
            Ut61ePlusSheet::DcMv => { if row == 0 { seq![AccuracyBand { freq_range: None, accuracy: "0.1%+5" }] } else { seq![] } },
            Ut61ePlusSheet::DcV => { if row == 0 { seq![AccuracyBand { freq_range: None, accuracy: "0.05%+5" }] } else if row == 1 { seq![AccuracyBand { freq_range: None, accuracy: "0.05%+5" }] } else if row == 2 { seq![AccuracyBand { freq_range: None, accuracy: "0.05%+5" }] } else if row == 3 { seq![AccuracyBand { freq_range: None, accuracy: "0.1%+5" }] } else { seq![] } },
            Ut61ePlusSheet::AcMv => { if row == 0 { seq![AccuracyBand { freq_range: Some("40Hz~1kHz"), accuracy: "1.0%+10" }, AccuracyBand { freq_range: Some("1kHz~10kHz"), accuracy: "1.5%+30" }] } else { seq![] } },
            Ut61ePlusSheet::AcV => { if row == 0 { seq![AccuracyBand { freq_range: Some("40Hz~1kHz"), accuracy: "0.8%+10" }, AccuracyBand { freq_range: Some("1kHz~10kHz"), accuracy: "1.2%+50" }] } else if row == 1 { seq![AccuracyBand { freq_range: Some("40Hz~1kHz"), accuracy: "0.8%+10" }, AccuracyBand { freq_range: Some("1kHz~10kHz"), accuracy: "1.2%+50" }] } else if row == 2 { seq![AccuracyBand { freq_range: Some("40Hz~1kHz"), accuracy: "0.8%+10" }, AccuracyBand { freq_range: Some("1kHz~10kHz"), accuracy: "2.0%+50" }] } else if row == 3 { seq![AccuracyBand { freq_range: Some("40Hz~1kHz"), accuracy: "1.2%+10" }, AccuracyBand { freq_range: Some("1kHz~10kHz"), accuracy: "3.0%+50" }] } else { seq![] } },
            Ut61ePlusSheet::LpfV => { if row == 0 { seq![AccuracyBand { freq_range: Some("40Hz~100Hz (LPF)"), accuracy: "1.2%+50" }] } else if row == 1 { seq![AccuracyBand { freq_range: Some("40Hz~100Hz (LPF)"), accuracy: "1.8%+50" }] } else if row == 2 { seq![AccuracyBand { freq_range: Some("40Hz~100Hz (LPF)"), accuracy: "2.0%+50" }] } else if row == 3 { seq![AccuracyBand { freq_range: Some("40Hz~100Hz (LPF)"), accuracy: "3.0%+50" }] } else { seq![] } },
            Ut61ePlusSheet::AcdcV => { if row == 0 { seq![AccuracyBand { freq_range: Some("40Hz~500Hz"), accuracy: "1.8%+70" }] } else if row == 1 { seq![AccuracyBand { freq_range: Some("40Hz~500Hz"), accuracy: "1.8%+70" }] } else if row == 2 { seq![AccuracyBand { freq_range: Some("40Hz~500Hz"), accuracy: "1.8%+70" }] } else if row == 3 { seq![AccuracyBand { freq_range: Some("40Hz~500Hz"), accuracy: "4.0%+70" }] } else { seq![] } },
            Ut61ePlusSheet::Resistance => { if row == 0 { seq![AccuracyBand { freq_range: None, accuracy: "0.5%+10" }] } else if row == 1 { seq![AccuracyBand { freq_range: None, accuracy: "0.5%+10" }] } else if row == 2 { seq![AccuracyBand { freq_range: None, accuracy: "0.5%+10" }] } else if row == 3 { seq![AccuracyBand { freq_range: None, accuracy: "0.5%+10" }] } else if row == 4 { seq![AccuracyBand { freq_range: None, accuracy: "0.8%+10" }] } else if row == 5 { seq![AccuracyBand { freq_range: None, accuracy: "1.5%+10" }] } else if row == 6 { seq![AccuracyBand { freq_range: None, accuracy: "3.0%+50" }] } else { seq![] } },
            Ut61ePlusSheet::Continuity => { if row == 0 { seq![] } else { seq![] } },
            Ut61ePlusSheet::Diode => { if row == 0 { seq![] } else { seq![] } },
            Ut61ePlusSheet::Transistor => { if row == 0 { seq![] } else { seq![] } },
            Ut61ePlusSheet::Capacitance => { if row == 0 { seq![AccuracyBand { freq_range: None, accuracy: "3.0%+5" }] } else if row == 1 { seq![AccuracyBand { freq_range: None, accuracy: "3.0%+5" }] } else if row == 2 { seq![AccuracyBand { freq_range: None, accuracy: "3.0%+5" }] } else if row == 3 { seq![AccuracyBand { freq_range: None, accuracy: "3.0%+5" }] } else if row == 4 { seq![AccuracyBand { freq_range: None, accuracy: "4.0%+5" }] } else if row == 5 { seq![AccuracyBand { freq_range: None, accuracy: "4.0%+5" }] } else if row == 6 { seq![AccuracyBand { freq_range: None, accuracy: "10%+5" }] } else if row == 7 { seq![AccuracyBand { freq_range: None, accuracy: "20%+5" }] } else { seq![] } },
            Ut61ePlusSheet::DcUa => { if row == 0 { seq![AccuracyBand { freq_range: None, accuracy: "0.5%+10" }] } else if row == 1 { seq![AccuracyBand { freq_range: None, accuracy: "0.5%+10" }] } else { seq![] } },
            Ut61ePlusSheet::DcMa => { if row == 0 { seq![AccuracyBand { freq_range: None, accuracy: "0.5%+10" }] } else if row == 1 { seq![AccuracyBand { freq_range: None, accuracy: "0.5%+10" }] } else { seq![] } },
            Ut61ePlusSheet::DcA => { if row == 0 { seq![AccuracyBand { freq_range: None, accuracy: "1.2%+50" }] } else { seq![] } },
            Ut61ePlusSheet::AcUa => { if row == 0 { seq![AccuracyBand { freq_range: Some("40Hz~1kHz"), accuracy: "0.8%+10" }, AccuracyBand { freq_range: Some("1kHz~10kHz"), accuracy: "3%+50" }] } else if row == 1 { seq![AccuracyBand { freq_range: Some("40Hz~1kHz"), accuracy: "0.8%+10" }, AccuracyBand { freq_range: Some("1kHz~10kHz"), accuracy: "3%+50" }] } else { seq![] } },
            Ut61ePlusSheet::AcMa => { if row == 0 { seq![AccuracyBand { freq_range: Some("40Hz~1kHz"), accuracy: "1.2%+10" }, AccuracyBand { freq_range: Some("1kHz~10kHz"), accuracy: "3%+50" }] } else if row == 1 { seq![AccuracyBand { freq_range: Some("40Hz~1kHz"), accuracy: "1.2%+10" }, AccuracyBand { freq_range: Some("1kHz~10kHz"), accuracy: "3%+50" }] } else { seq![] } },
            Ut61ePlusSheet::AcA => { if row == 0 { seq![AccuracyBand { freq_range: Some("40Hz~1kHz"), accuracy: "1.2%+10" }, AccuracyBand { freq_range: Some("1kHz~10kHz"), accuracy: "3%+50" }] } else { seq![] } },
            Ut61ePlusSheet::Frequency => { if row == 0 { seq![AccuracyBand { freq_range: None, accuracy: "0.01%+5" }] } else { seq![] } },
            Ut61ePlusSheet::Duty => { if row == 0 { seq![AccuracyBand { freq_range: None, accuracy: "2%+5" }] } else { seq![] } },
        }
    }

    /// What it says of the whole mode.
    pub open spec fn spec_mode(self) -> ModeSpecInfo {
        match self {
            Ut61ePlusSheet::DcMv => ModeSpecInfo { input_impedance: Some("About 1GΩ"), overload_protection: Some("1000V") },
            Ut61ePlusSheet::DcV => ModeSpecInfo { input_impedance: Some("About 10MΩ"), overload_protection: Some("1000V") },
            Ut61ePlusSheet::AcMv => ModeSpecInfo { input_impedance: Some("About 10MΩ"), overload_protection: Some("1000V") },
            Ut61ePlusSheet::AcV => ModeSpecInfo { input_impedance: Some("About 10MΩ"), overload_protection: Some("1000V") },
            Ut61ePlusSheet::LpfV => ModeSpecInfo { input_impedance: Some("About 10MΩ"), overload_protection: Some("1000V") },
            Ut61ePlusSheet::AcdcV => ModeSpecInfo { input_impedance: Some("About 10MΩ"), overload_protection: Some("1000V") },
            Ut61ePlusSheet::Resistance => ModeSpecInfo { input_impedance: None, overload_protection: Some("1000V") },
            Ut61ePlusSheet::Continuity => ModeSpecInfo { input_impedance: None, overload_protection: Some("1000V") },
            Ut61ePlusSheet::Diode => ModeSpecInfo { input_impedance: None, overload_protection: Some("1000V") },
            Ut61ePlusSheet::Transistor => ModeSpecInfo { input_impedance: None, overload_protection: None },
            Ut61ePlusSheet::Capacitance => ModeSpecInfo { input_impedance: None, overload_protection: Some("1000V") },
            Ut61ePlusSheet::DcUa => ModeSpecInfo { input_impedance: None, overload_protection: Some("F1 Fuse 1A 240V Φ6x25mm") },
            Ut61ePlusSheet::DcMa => ModeSpecInfo { input_impedance: None, overload_protection: Some("F1 Fuse 1A 240V Φ6x25mm") },
            Ut61ePlusSheet::DcA => ModeSpecInfo { input_impedance: None, overload_protection: Some("F2 Fuse 10A 240V Φ6x25mm") },
            Ut61ePlusSheet::AcUa => ModeSpecInfo { input_impedance: None, overload_protection: Some("F1 Fuse 1A 240V Φ6x25mm") },
            Ut61ePlusSheet::AcMa => ModeSpecInfo { input_impedance: None, overload_protection: Some("F1 Fuse 1A 240V Φ6x25mm") },
            Ut61ePlusSheet::AcA => ModeSpecInfo { input_impedance: None, overload_protection: Some("F2 Fuse 10A 240V Φ6x25mm") },
            Ut61ePlusSheet::Frequency => ModeSpecInfo { input_impedance: None, overload_protection: Some("1000V") },
            Ut61ePlusSheet::Duty => ModeSpecInfo { input_impedance: None, overload_protection: Some("1000V") },
        }
    }

    /// Its remarks, condensed.
    pub open spec fn spec_notes(self) -> Seq<&'static str> {
        match self {
            Ut61ePlusSheet::DcMv => seq!["Accuracy valid 1%–100% of range", "Shorted leads: residual ≤5 digits"],
            Ut61ePlusSheet::DcV => seq!["Accuracy valid 1%–100% of range", "Shorted leads: residual ≤5 digits"],
            Ut61ePlusSheet::AcMv => seq!["True RMS; crest factor ≤2.0 at 10000, ≤1 at 22000 counts", "Non-sine: add 4% (crest factor 1–2), 5% (2–2.5), 7% (2.5–3)", "Accuracy valid 1%–100% of range (1kHz–10kHz: 10%–100%)", "Shorted leads: residual ≤10 digits"],
            Ut61ePlusSheet::AcV => seq!["True RMS; crest factor ≤2.0 at 10000, ≤1 at 22000 counts", "Non-sine: add 4% (crest factor 1–2), 5% (2–2.5), 7% (2.5–3)", "Accuracy valid 1%–100% of range (1kHz–10kHz: 10%–100%)", "Shorted leads: residual ≤10 digits"],
            Ut61ePlusSheet::LpfV => seq!["True RMS; crest factor ≤2.0 at 10000, ≤1 at 22000 counts", "Non-sine: add 4% (crest factor 1–2), 5% (2–2.5), 7% (2.5–3)", "Accuracy valid 1%–100% of range (1kHz–10kHz: 10%–100%)", "Shorted leads: residual ≤10 digits"],
            Ut61ePlusSheet::AcdcV => seq!["True RMS; accuracy valid 10%–100% of range", "For AC voltage, shorted leads: residual ≤200 digits"],
            Ut61ePlusSheet::Resistance => seq!["Result = reading − shorted-lead resistance", "Open circuit ≈1V", "Accuracy valid 1%–100% of range"],
            Ut61ePlusSheet::Continuity => seq!["Continuity: audio/visual alarm <50Ω; no beep ≥70Ω"],
            Ut61ePlusSheet::Diode => seq!["Diode: open circuit ≈3V", "Diode: one beep 0.12V–2V (normal), long beep <0.12V (short)"],
            Ut61ePlusSheet::Transistor => seq!["Ib0 ≈1.8µA, Vce ≈2.5V", "Reading for reference only"],
            Ut61ePlusSheet::Capacitance => seq!["Result = reading − open-lead capacitance; ≤22nF: use REL", "Accuracy valid 1%–100% of range", "Ranges ≤2.2µF: add 10 digits when accuracy is ≤3%", "220mF range: measurement takes ≈20s"],
            Ut61ePlusSheet::DcUa => seq!["Open circuit: residual ≤10 digits", "Accuracy valid 1%–100% of range"],
            Ut61ePlusSheet::DcMa => seq!["Open circuit: residual ≤10 digits", "Accuracy valid 1%–100% of range"],
            Ut61ePlusSheet::DcA => seq!["Open circuit: residual ≤10 digits", "Accuracy valid 1%–100% of range", ">5A: max 10s, rest ≥15 min"],
            Ut61ePlusSheet::AcUa => seq!["True RMS; crest factor ≤2.0 at 10000, ≤1 at 22000 counts", "Non-sine: add 4% (crest factor 1–2), 5% (2–2.5), 7% (2.5–3)", "Accuracy valid 1%–100% of range (1kHz–10kHz: 10%–100%)", "Open circuit: residual ≤10 digits", "µA ranges: min 30µA"],
            Ut61ePlusSheet::AcMa => seq!["True RMS; crest factor ≤2.0 at 10000, ≤1 at 22000 counts", "Non-sine: add 4% (crest factor 1–2), 5% (2–2.5), 7% (2.5–3)", "Accuracy valid 1%–100% of range (1kHz–10kHz: 10%–100%)", "Open circuit: residual ≤10 digits"],
            Ut61ePlusSheet::AcA => seq!["True RMS; crest factor ≤2.0 at 10000, ≤1 at 22000 counts", "Non-sine: add 4% (crest factor 1–2), 5% (2–2.5), 7% (2.5–3)", "Accuracy valid 1%–100% of range (1kHz–10kHz: 10%–100%)", "Open circuit: residual ≤10 digits", ">5A: max 10s, rest ≥15 min"],
            Ut61ePlusSheet::Frequency => seq!["Hz input ≤100kHz: 200mV–20V rms", "Hz input >100kHz–1MHz: 600mV–20V rms", "Hz input >1MHz–40MHz: 1V–20V rms; >40MHz not specified"],
            Ut61ePlusSheet::Duty => seq!["Duty: square waves only, 1Vpp–20Vpp, ≤10kHz, 10.0%–90.0%"],
        }
    }

    /// The table's heading.
    pub fn name(&self) -> (r: &'static str)
        ensures
            r == self.spec_name(),
    {
        match self {
            Ut61ePlusSheet::DcMv => "DC Voltage",
            Ut61ePlusSheet::DcV => "DC Voltage",
            Ut61ePlusSheet::AcMv => "AC Voltage",
            Ut61ePlusSheet::AcV => "AC Voltage",
            Ut61ePlusSheet::LpfV => "AC Voltage",
            Ut61ePlusSheet::AcdcV => "AC+DC Voltage",
            Ut61ePlusSheet::Resistance => "Resistance",
            Ut61ePlusSheet::Continuity => "Continuity and Diode",
            Ut61ePlusSheet::Diode => "Continuity and Diode",
            Ut61ePlusSheet::Transistor => "Transistor Magnification",
            Ut61ePlusSheet::Capacitance => "Capacitance",
            Ut61ePlusSheet::DcUa => "DC Current",
            Ut61ePlusSheet::DcMa => "DC Current",
            Ut61ePlusSheet::DcA => "DC Current",
            Ut61ePlusSheet::AcUa => "AC Current",
            Ut61ePlusSheet::AcMa => "AC Current",
            Ut61ePlusSheet::AcA => "AC Current",
            Ut61ePlusSheet::Frequency => "Frequency/Duty Ratio",
            Ut61ePlusSheet::Duty => "Frequency/Duty Ratio",
        }
    }

    /// The manual page it stands on.
    pub fn page(&self) -> (r: u16)
        ensures
            r == self.spec_page(),
    {
        match self {
            Ut61ePlusSheet::DcMv => 14,
            Ut61ePlusSheet::DcV => 14,
            Ut61ePlusSheet::AcMv => 15,
            Ut61ePlusSheet::AcV => 15,
            Ut61ePlusSheet::LpfV => 15,
            Ut61ePlusSheet::AcdcV => 15,
            Ut61ePlusSheet::Resistance => 16,
            Ut61ePlusSheet::Continuity => 16,
            Ut61ePlusSheet::Diode => 16,
            Ut61ePlusSheet::Transistor => 16,
            Ut61ePlusSheet::Capacitance => 16,
            Ut61ePlusSheet::DcUa => 17,
            Ut61ePlusSheet::DcMa => 17,
            Ut61ePlusSheet::DcA => 17,
            Ut61ePlusSheet::AcUa => 18,
            Ut61ePlusSheet::AcMa => 18,
            Ut61ePlusSheet::AcA => 18,
            Ut61ePlusSheet::Frequency => 18,
            Ut61ePlusSheet::Duty => 18,
        }
    }

    /// Its rows, in manual order.
    pub fn rows(&self) -> (r: Vec<RangeSpec>)
        ensures
            r@ == self.spec_rows(),
    {
        match self {
            Ut61ePlusSheet::DcMv => vec![RangeSpec { range: Some(0u8), label: "220.00mV", resolution: "0.01mV" }],
            Ut61ePlusSheet::DcV => vec![RangeSpec { range: Some(0u8), label: "2.2000V", resolution: "0.1mV" }, RangeSpec { range: Some(1u8), label: "22.000V", resolution: "1mV" }, RangeSpec { range: Some(2u8), label: "220.00V", resolution: "10mV" }, RangeSpec { range: Some(3u8), label: "1000.0V", resolution: "0.1V" }],
            Ut61ePlusSheet::AcMv => vec![RangeSpec { range: Some(0u8), label: "220.00mV", resolution: "0.01mV" }],
            Ut61ePlusSheet::AcV => vec![RangeSpec { range: Some(0u8), label: "2.2000V", resolution: "0.1mV" }, RangeSpec { range: Some(1u8), label: "22.000V", resolution: "1mV" }, RangeSpec { range: Some(2u8), label: "220.00V", resolution: "10mV" }, RangeSpec { range: Some(3u8), label: "1000.0V", resolution: "0.1V" }],
            Ut61ePlusSheet::LpfV => vec![RangeSpec { range: Some(0u8), label: "2.2000V", resolution: "0.1mV" }, RangeSpec { range: Some(1u8), label: "22.000V", resolution: "1mV" }, RangeSpec { range: Some(2u8), label: "220.00V", resolution: "10mV" }, RangeSpec { range: Some(3u8), label: "1000.0V", resolution: "0.1V" }],
            Ut61ePlusSheet::AcdcV => vec![RangeSpec { range: Some(0u8), label: "2.2000V", resolution: "0.1mV" }, RangeSpec { range: Some(1u8), label: "22.000V", resolution: "1mV" }, RangeSpec { range: Some(2u8), label: "220.00V", resolution: "10mV" }, RangeSpec { range: Some(3u8), label: "1000.0V", resolution: "0.1V" }],
            Ut61ePlusSheet::Resistance => vec![RangeSpec { range: Some(0u8), label: "220.00Ω", resolution: "0.01Ω" }, RangeSpec { range: Some(1u8), label: "2.2000kΩ", resolution: "0.1Ω" }, RangeSpec { range: Some(2u8), label: "22.000kΩ", resolution: "1Ω" }, RangeSpec { range: Some(3u8), label: "220.00kΩ", resolution: "10Ω" }, RangeSpec { range: Some(4u8), label: "2.2000MΩ", resolution: "100Ω" }, RangeSpec { range: Some(5u8), label: "22.000MΩ", resolution: "1kΩ" }, RangeSpec { range: Some(6u8), label: "220.00MΩ", resolution: "10kΩ" }],
            Ut61ePlusSheet::Continuity => vec![RangeSpec { range: None, label: "Continuity", resolution: "0.1Ω" }],
            Ut61ePlusSheet::Diode => vec![RangeSpec { range: None, label: "Diode", resolution: "0.001V" }],
            Ut61ePlusSheet::Transistor => vec![RangeSpec { range: None, label: "1000β", resolution: "1β" }],
            Ut61ePlusSheet::Capacitance => vec![RangeSpec { range: Some(0u8), label: "22.000nF", resolution: "1pF" }, RangeSpec { range: Some(1u8), label: "220.00nF", resolution: "10pF" }, RangeSpec { range: Some(2u8), label: "2.2000µF", resolution: "100pF" }, RangeSpec { range: Some(3u8), label: "22.000µF", resolution: "1nF" }, RangeSpec { range: Some(4u8), label: "220.00µF", resolution: "10nF" }, RangeSpec { range: Some(5u8), label: "2.2000mF", resolution: "100nF" }, RangeSpec { range: Some(6u8), label: "22.000mF", resolution: "1µF" }, RangeSpec { range: Some(7u8), label: "220.00mF", resolution: "10µF" }],
            Ut61ePlusSheet::DcUa => vec![RangeSpec { range: Some(0u8), label: "220.00µA", resolution: "0.01µA" }, RangeSpec { range: Some(1u8), label: "2200.0µA", resolution: "0.1µA" }],
            Ut61ePlusSheet::DcMa => vec![RangeSpec { range: Some(0u8), label: "22.000mA", resolution: "1µA" }, RangeSpec { range: Some(1u8), label: "220.00mA", resolution: "10µA" }],
            Ut61ePlusSheet::DcA => vec![RangeSpec { range: None, label: "20.000A", resolution: "1mA" }],
            Ut61ePlusSheet::AcUa => vec![RangeSpec { range: Some(0u8), label: "220µA", resolution: "0.01µA" }, RangeSpec { range: Some(1u8), label: "2200µA", resolution: "0.1µA" }],
            Ut61ePlusSheet::AcMa => vec![RangeSpec { range: Some(0u8), label: "22mA", resolution: "1µA" }, RangeSpec { range: Some(1u8), label: "220mA", resolution: "10µA" }],
            Ut61ePlusSheet::AcA => vec![RangeSpec { range: None, label: "20A", resolution: "1mA" }],
            Ut61ePlusSheet::Frequency => vec![RangeSpec { range: None, label: "10Hz~220MHz", resolution: "0.01Hz~0.01MHz" }],
            Ut61ePlusSheet::Duty => vec![RangeSpec { range: None, label: "0.1%~99.9%", resolution: "0.1%" }],
        }
    }

    /// The accuracy figures of row `row`.
    pub fn bands(&self, row: usize) -> (r: Vec<AccuracyBand>)
        ensures
            r@ == self.spec_bands(row as int),
    {
        match self {
            Ut61ePlusSheet::DcMv => { if row == 0 { vec![AccuracyBand { freq_range: None, accuracy: "0.1%+5" }] } else { vec![] } },
            Ut61ePlusSheet::DcV => { if row == 0 { vec![AccuracyBand { freq_range: None, accuracy: "0.05%+5" }] } else if row == 1 { vec![AccuracyBand { freq_range: None, accuracy: "0.05%+5" }] } else if row == 2 { vec![AccuracyBand { freq_range: None, accuracy: "0.05%+5" }] } else if row == 3 { vec![AccuracyBand { freq_range: None, accuracy: "0.1%+5" }] } else { vec![] } },
            Ut61ePlusSheet::AcMv => { if row == 0 { vec![AccuracyBand { freq_range: Some("40Hz~1kHz"), accuracy: "1.0%+10" }, AccuracyBand { freq_range: Some("1kHz~10kHz"), accuracy: "1.5%+30" }] } else { vec![] } },
            Ut61ePlusSheet::AcV => { if row == 0 { vec![AccuracyBand { freq_range: Some("40Hz~1kHz"), accuracy: "0.8%+10" }, AccuracyBand { freq_range: Some("1kHz~10kHz"), accuracy: "1.2%+50" }] } else if row == 1 { vec![AccuracyBand { freq_range: Some("40Hz~1kHz"), accuracy: "0.8%+10" }, AccuracyBand { freq_range: Some("1kHz~10kHz"), accuracy: "1.2%+50" }] } else if row == 2 { vec![AccuracyBand { freq_range: Some("40Hz~1kHz"), accuracy: "0.8%+10" }, AccuracyBand { freq_range: Some("1kHz~10kHz"), accuracy: "2.0%+50" }] } else if row == 3 { vec![AccuracyBand { freq_range: Some("40Hz~1kHz"), accuracy: "1.2%+10" }, AccuracyBand { freq_range: Some("1kHz~10kHz"), accuracy: "3.0%+50" }] } else { vec![] } },
            Ut61ePlusSheet::LpfV => { if row == 0 { vec![AccuracyBand { freq_range: Some("40Hz~100Hz (LPF)"), accuracy: "1.2%+50" }] } else if row == 1 { vec![AccuracyBand { freq_range: Some("40Hz~100Hz (LPF)"), accuracy: "1.8%+50" }] } else if row == 2 { vec![AccuracyBand { freq_range: Some("40Hz~100Hz (LPF)"), accuracy: "2.0%+50" }] } else if row == 3 { vec![AccuracyBand { freq_range: Some("40Hz~100Hz (LPF)"), accuracy: "3.0%+50" }] } else { vec![] } },
            Ut61ePlusSheet::AcdcV => { if row == 0 { vec![AccuracyBand { freq_range: Some("40Hz~500Hz"), accuracy: "1.8%+70" }] } else if row == 1 { vec![AccuracyBand { freq_range: Some("40Hz~500Hz"), accuracy: "1.8%+70" }] } else if row == 2 { vec![AccuracyBand { freq_range: Some("40Hz~500Hz"), accuracy: "1.8%+70" }] } else if row == 3 { vec![AccuracyBand { freq_range: Some("40Hz~500Hz"), accuracy: "4.0%+70" }] } else { vec![] } },
            Ut61ePlusSheet::Resistance => { if row == 0 { vec![AccuracyBand { freq_range: None, accuracy: "0.5%+10" }] } else if row == 1 { vec![AccuracyBand { freq_range: None, accuracy: "0.5%+10" }] } else if row == 2 { vec![AccuracyBand { freq_range: None, accuracy: "0.5%+10" }] } else if row == 3 { vec![AccuracyBand { freq_range: None, accuracy: "0.5%+10" }] } else if row == 4 { vec![AccuracyBand { freq_range: None, accuracy: "0.8%+10" }] } else if row == 5 { vec![AccuracyBand { freq_range: None, accuracy: "1.5%+10" }] } else if row == 6 { vec![AccuracyBand { freq_range: None, accuracy: "3.0%+50" }] } else { vec![] } },
            Ut61ePlusSheet::Continuity => { if row == 0 { vec![] } else { vec![] } },
            Ut61ePlusSheet::Diode => { if row == 0 { vec![] } else { vec![] } },
            Ut61ePlusSheet::Transistor => { if row == 0 { vec![] } else { vec![] } },
            Ut61ePlusSheet::Capacitance => { if row == 0 { vec![AccuracyBand { freq_range: None, accuracy: "3.0%+5" }] } else if row == 1 { vec![AccuracyBand { freq_range: None, accuracy: "3.0%+5" }] } else if row == 2 { vec![AccuracyBand { freq_range: None, accuracy: "3.0%+5" }] } else if row == 3 { vec![AccuracyBand { freq_range: None, accuracy: "3.0%+5" }] } else if row == 4 { vec![AccuracyBand { freq_range: None, accuracy: "4.0%+5" }] } else if row == 5 { vec![AccuracyBand { freq_range: None, accuracy: "4.0%+5" }] } else if row == 6 { vec![AccuracyBand { freq_range: None, accuracy: "10%+5" }] } else if row == 7 { vec![AccuracyBand { freq_range: None, accuracy: "20%+5" }] } else { vec![] } },
            Ut61ePlusSheet::DcUa => { if row == 0 { vec![AccuracyBand { freq_range: None, accuracy: "0.5%+10" }] } else if row == 1 { vec![AccuracyBand { freq_range: None, accuracy: "0.5%+10" }] } else { vec![] } },
            Ut61ePlusSheet::DcMa => { if row == 0 { vec![AccuracyBand { freq_range: None, accuracy: "0.5%+10" }] } else if row == 1 { vec![AccuracyBand { freq_range: None, accuracy: "0.5%+10" }] } else { vec![] } },
            Ut61ePlusSheet::DcA => { if row == 0 { vec![AccuracyBand { freq_range: None, accuracy: "1.2%+50" }] } else { vec![] } },
            Ut61ePlusSheet::AcUa => { if row == 0 { vec![AccuracyBand { freq_range: Some("40Hz~1kHz"), accuracy: "0.8%+10" }, AccuracyBand { freq_range: Some("1kHz~10kHz"), accuracy: "3%+50" }] } else if row == 1 { vec![AccuracyBand { freq_range: Some("40Hz~1kHz"), accuracy: "0.8%+10" }, AccuracyBand { freq_range: Some("1kHz~10kHz"), accuracy: "3%+50" }] } else { vec![] } },
            Ut61ePlusSheet::AcMa => { if row == 0 { vec![AccuracyBand { freq_range: Some("40Hz~1kHz"), accuracy: "1.2%+10" }, AccuracyBand { freq_range: Some("1kHz~10kHz"), accuracy: "3%+50" }] } else if row == 1 { vec![AccuracyBand { freq_range: Some("40Hz~1kHz"), accuracy: "1.2%+10" }, AccuracyBand { freq_range: Some("1kHz~10kHz"), accuracy: "3%+50" }] } else { vec![] } },
            Ut61ePlusSheet::AcA => { if row == 0 { vec![AccuracyBand { freq_range: Some("40Hz~1kHz"), accuracy: "1.2%+10" }, AccuracyBand { freq_range: Some("1kHz~10kHz"), accuracy: "3%+50" }] } else { vec![] } },
            Ut61ePlusSheet::Frequency => { if row == 0 { vec![AccuracyBand { freq_range: None, accuracy: "0.01%+5" }] } else { vec![] } },
            Ut61ePlusSheet::Duty => { if row == 0 { vec![AccuracyBand { freq_range: None, accuracy: "2%+5" }] } else { vec![] } },
        }
    }

    /// What it says of the whole mode.
    pub fn mode_info(&self) -> (r: ModeSpecInfo)
        ensures
            r == self.spec_mode(),
    {
        match self {
            Ut61ePlusSheet::DcMv => ModeSpecInfo { input_impedance: Some("About 1GΩ"), overload_protection: Some("1000V") },
            Ut61ePlusSheet::DcV => ModeSpecInfo { input_impedance: Some("About 10MΩ"), overload_protection: Some("1000V") },
            Ut61ePlusSheet::AcMv => ModeSpecInfo { input_impedance: Some("About 10MΩ"), overload_protection: Some("1000V") },
            Ut61ePlusSheet::AcV => ModeSpecInfo { input_impedance: Some("About 10MΩ"), overload_protection: Some("1000V") },
            Ut61ePlusSheet::LpfV => ModeSpecInfo { input_impedance: Some("About 10MΩ"), overload_protection: Some("1000V") },
            Ut61ePlusSheet::AcdcV => ModeSpecInfo { input_impedance: Some("About 10MΩ"), overload_protection: Some("1000V") },
            Ut61ePlusSheet::Resistance => ModeSpecInfo { input_impedance: None, overload_protection: Some("1000V") },
            Ut61ePlusSheet::Continuity => ModeSpecInfo { input_impedance: None, overload_protection: Some("1000V") },
            Ut61ePlusSheet::Diode => ModeSpecInfo { input_impedance: None, overload_protection: Some("1000V") },
            Ut61ePlusSheet::Transistor => ModeSpecInfo { input_impedance: None, overload_protection: None },
            Ut61ePlusSheet::Capacitance => ModeSpecInfo { input_impedance: None, overload_protection: Some("1000V") },
            Ut61ePlusSheet::DcUa => ModeSpecInfo { input_impedance: None, overload_protection: Some("F1 Fuse 1A 240V Φ6x25mm") },
            Ut61ePlusSheet::DcMa => ModeSpecInfo { input_impedance: None, overload_protection: Some("F1 Fuse 1A 240V Φ6x25mm") },
            Ut61ePlusSheet::DcA => ModeSpecInfo { input_impedance: None, overload_protection: Some("F2 Fuse 10A 240V Φ6x25mm") },
            Ut61ePlusSheet::AcUa => ModeSpecInfo { input_impedance: None, overload_protection: Some("F1 Fuse 1A 240V Φ6x25mm") },
            Ut61ePlusSheet::AcMa => ModeSpecInfo { input_impedance: None, overload_protection: Some("F1 Fuse 1A 240V Φ6x25mm") },
            Ut61ePlusSheet::AcA => ModeSpecInfo { input_impedance: None, overload_protection: Some("F2 Fuse 10A 240V Φ6x25mm") },
            Ut61ePlusSheet::Frequency => ModeSpecInfo { input_impedance: None, overload_protection: Some("1000V") },
            Ut61ePlusSheet::Duty => ModeSpecInfo { input_impedance: None, overload_protection: Some("1000V") },
        }
    }

    /// Its remarks, condensed.
    pub fn notes(&self) -> (r: Vec<&'static str>)
        ensures
            r@ == self.spec_notes(),
    {
        match self {
            Ut61ePlusSheet::DcMv => vec!["Accuracy valid 1%–100% of range", "Shorted leads: residual ≤5 digits"],
            Ut61ePlusSheet::DcV => vec!["Accuracy valid 1%–100% of range", "Shorted leads: residual ≤5 digits"],
            Ut61ePlusSheet::AcMv => vec!["True RMS; crest factor ≤2.0 at 10000, ≤1 at 22000 counts", "Non-sine: add 4% (crest factor 1–2), 5% (2–2.5), 7% (2.5–3)", "Accuracy valid 1%–100% of range (1kHz–10kHz: 10%–100%)", "Shorted leads: residual ≤10 digits"],
            Ut61ePlusSheet::AcV => vec!["True RMS; crest factor ≤2.0 at 10000, ≤1 at 22000 counts", "Non-sine: add 4% (crest factor 1–2), 5% (2–2.5), 7% (2.5–3)", "Accuracy valid 1%–100% of range (1kHz–10kHz: 10%–100%)", "Shorted leads: residual ≤10 digits"],
            Ut61ePlusSheet::LpfV => vec!["True RMS; crest factor ≤2.0 at 10000, ≤1 at 22000 counts", "Non-sine: add 4% (crest factor 1–2), 5% (2–2.5), 7% (2.5–3)", "Accuracy valid 1%–100% of range (1kHz–10kHz: 10%–100%)", "Shorted leads: residual ≤10 digits"],
            Ut61ePlusSheet::AcdcV => vec!["True RMS; accuracy valid 10%–100% of range", "For AC voltage, shorted leads: residual ≤200 digits"],
            Ut61ePlusSheet::Resistance => vec!["Result = reading − shorted-lead resistance", "Open circuit ≈1V", "Accuracy valid 1%–100% of range"],
            Ut61ePlusSheet::Continuity => vec!["Continuity: audio/visual alarm <50Ω; no beep ≥70Ω"],
            Ut61ePlusSheet::Diode => vec!["Diode: open circuit ≈3V", "Diode: one beep 0.12V–2V (normal), long beep <0.12V (short)"],
            Ut61ePlusSheet::Transistor => vec!["Ib0 ≈1.8µA, Vce ≈2.5V", "Reading for reference only"],
            Ut61ePlusSheet::Capacitance => vec!["Result = reading − open-lead capacitance; ≤22nF: use REL", "Accuracy valid 1%–100% of range", "Ranges ≤2.2µF: add 10 digits when accuracy is ≤3%", "220mF range: measurement takes ≈20s"],
            Ut61ePlusSheet::DcUa => vec!["Open circuit: residual ≤10 digits", "Accuracy valid 1%–100% of range"],
            Ut61ePlusSheet::DcMa => vec!["Open circuit: residual ≤10 digits", "Accuracy valid 1%–100% of range"],
            Ut61ePlusSheet::DcA => vec!["Open circuit: residual ≤10 digits", "Accuracy valid 1%–100% of range", ">5A: max 10s, rest ≥15 min"],
            Ut61ePlusSheet::AcUa => vec!["True RMS; crest factor ≤2.0 at 10000, ≤1 at 22000 counts", "Non-sine: add 4% (crest factor 1–2), 5% (2–2.5), 7% (2.5–3)", "Accuracy valid 1%–100% of range (1kHz–10kHz: 10%–100%)", "Open circuit: residual ≤10 digits", "µA ranges: min 30µA"],
            Ut61ePlusSheet::AcMa => vec!["True RMS; crest factor ≤2.0 at 10000, ≤1 at 22000 counts", "Non-sine: add 4% (crest factor 1–2), 5% (2–2.5), 7% (2.5–3)", "Accuracy valid 1%–100% of range (1kHz–10kHz: 10%–100%)", "Open circuit: residual ≤10 digits"],
            Ut61ePlusSheet::AcA => vec!["True RMS; crest factor ≤2.0 at 10000, ≤1 at 22000 counts", "Non-sine: add 4% (crest factor 1–2), 5% (2–2.5), 7% (2.5–3)", "Accuracy valid 1%–100% of range (1kHz–10kHz: 10%–100%)", "Open circuit: residual ≤10 digits", ">5A: max 10s, rest ≥15 min"],
            Ut61ePlusSheet::Frequency => vec!["Hz input ≤100kHz: 200mV–20V rms", "Hz input >100kHz–1MHz: 600mV–20V rms", "Hz input >1MHz–40MHz: 1V–20V rms; >40MHz not specified"],
            Ut61ePlusSheet::Duty => vec!["Duty: square waves only, 1Vpp–20Vpp, ≤10kHz, 10.0%–90.0%"],
        }
    }

    /// Every table, in manual order.
    pub fn all() -> (r: Vec<Ut61ePlusSheet>)
        ensures
            r@ == seq![Ut61ePlusSheet::DcMv, Ut61ePlusSheet::DcV, Ut61ePlusSheet::AcMv, Ut61ePlusSheet::AcV, Ut61ePlusSheet::LpfV, Ut61ePlusSheet::AcdcV, Ut61ePlusSheet::Resistance, Ut61ePlusSheet::Continuity, Ut61ePlusSheet::Diode, Ut61ePlusSheet::Transistor, Ut61ePlusSheet::Capacitance, Ut61ePlusSheet::DcUa, Ut61ePlusSheet::DcMa, Ut61ePlusSheet::DcA, Ut61ePlusSheet::AcUa, Ut61ePlusSheet::AcMa, Ut61ePlusSheet::AcA, Ut61ePlusSheet::Frequency, Ut61ePlusSheet::Duty],
    {
        vec![Ut61ePlusSheet::DcMv, Ut61ePlusSheet::DcV, Ut61ePlusSheet::AcMv, Ut61ePlusSheet::AcV, Ut61ePlusSheet::LpfV, Ut61ePlusSheet::AcdcV, Ut61ePlusSheet::Resistance, Ut61ePlusSheet::Continuity, Ut61ePlusSheet::Diode, Ut61ePlusSheet::Transistor, Ut61ePlusSheet::Capacitance, Ut61ePlusSheet::DcUa, Ut61ePlusSheet::DcMa, Ut61ePlusSheet::DcA, Ut61ePlusSheet::AcUa, Ut61ePlusSheet::AcMa, Ut61ePlusSheet::AcA, Ut61ePlusSheet::Frequency, Ut61ePlusSheet::Duty]
    }
}

} // verus!
