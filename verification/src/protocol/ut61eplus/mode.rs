use crate::measurement::Error;
use vstd::prelude::*;

verus! {

/// Measurement mode of the UT61+/UT161 family, one per mode byte `0x00`-`0x1E`.
#[derive(Debug, Clone, Copy, PartialEq, Eq, Structural)]
pub enum Mode {
    AcV,
    AcMv,
    DcV,
    DcMv,
    Hz,
    DutyCycle,
    Ohm,
    Continuity,
    Diode,
    Capacitance,
    TempC,
    TempF,
    DcUa,
    AcUa,
    DcMa,
    AcMa,
    DcA,
    AcA,
    Hfe,
    Live,
    Ncv,
    LozV,
    ClampAcA,
    ClampDcA,
    LpfV,
    AcDcV,
    LpfMv,
    AcDcMv,
    ClampLpfA,
    ClampAcDcA,
    Inrush,
}

/// The mode byte a mode is reported with.
pub open spec fn mode_byte(m: Mode) -> u8 {
    match m {
        Mode::AcV => 0x00,
        Mode::AcMv => 0x01,
        Mode::DcV => 0x02,
        Mode::DcMv => 0x03,
        Mode::Hz => 0x04,
        Mode::DutyCycle => 0x05,
        Mode::Ohm => 0x06,
        Mode::Continuity => 0x07,
        Mode::Diode => 0x08,
        Mode::Capacitance => 0x09,
        Mode::TempC => 0x0A,
        Mode::TempF => 0x0B,
        Mode::DcUa => 0x0C,
        Mode::AcUa => 0x0D,
        Mode::DcMa => 0x0E,
        Mode::AcMa => 0x0F,
        Mode::DcA => 0x10,
        Mode::AcA => 0x11,
        Mode::Hfe => 0x12,
        Mode::Live => 0x13,
        Mode::Ncv => 0x14,
        Mode::LozV => 0x15,
        Mode::ClampAcA => 0x16,
        Mode::ClampDcA => 0x17,
        Mode::LpfV => 0x18,
        Mode::AcDcV => 0x19,
        Mode::LpfMv => 0x1A,
        Mode::AcDcMv => 0x1B,
        Mode::ClampLpfA => 0x1C,
        Mode::ClampAcDcA => 0x1D,
        Mode::Inrush => 0x1E,
    }
}

/// The mode a byte names: every byte up to `0x1E`, and nothing past it.
pub open spec fn mode_of_byte(b: u8) -> Option<Mode> {
    if b <= 0x1E {
        Some(choose|m: Mode| mode_byte(m) == b)
    } else {
        None
    }
}

/// The label a mode is shown with.
pub open spec fn mode_label(m: Mode) -> &'static str {
    match m {
        Mode::AcV => "AC V",
        Mode::AcMv => "AC mV",
        Mode::DcV => "DC V",
        Mode::DcMv => "DC mV",
        Mode::Hz => "Hz",
        Mode::DutyCycle => "Duty %",
        Mode::Ohm => "\u{03A9}",
        Mode::Continuity => "Continuity",
        Mode::Diode => "Diode",
        Mode::Capacitance => "Capacitance",
        Mode::TempC => "\u{00B0}C",
        Mode::TempF => "\u{00B0}F",
        Mode::DcUa => "DC \u{00B5}A",
        Mode::AcUa => "AC \u{00B5}A",
        Mode::DcMa => "DC mA",
        Mode::AcMa => "AC mA",
        Mode::DcA => "DC A",
        Mode::AcA => "AC A",
        Mode::Hfe => "hFE",
        Mode::Live => "Live",
        Mode::Ncv => "NCV",
        Mode::LozV => "LoZ V",
        Mode::ClampAcA => "Clamp AC A",
        Mode::ClampDcA => "Clamp DC A",
        Mode::LpfV => "LPF V",
        Mode::AcDcV => "AC+DC V",
        Mode::LpfMv => "LPF mV",
        Mode::AcDcMv => "AC+DC mV",
        Mode::ClampLpfA => "Clamp LPF A",
        Mode::ClampAcDcA => "Clamp AC+DC A",
        Mode::Inrush => "Inrush",
    }
}

/// No two modes share a byte.
pub proof fn lemma_mode_byte_injective(a: Mode, b: Mode)
    ensures
        mode_byte(a) == mode_byte(b) ==> a == b,
{
}

/// Each byte up to `0x1E` is some mode's byte.
pub proof fn lemma_mode_byte_onto(b: u8)
    requires
        b <= 0x1E,
    ensures
        exists|m: Mode| mode_byte(m) == b,
{
    let m = match b {
        0x00 => Mode::AcV,
        0x01 => Mode::AcMv,
        0x02 => Mode::DcV,
        0x03 => Mode::DcMv,
        0x04 => Mode::Hz,
        0x05 => Mode::DutyCycle,
        0x06 => Mode::Ohm,
        0x07 => Mode::Continuity,
        0x08 => Mode::Diode,
        0x09 => Mode::Capacitance,
        0x0A => Mode::TempC,
        0x0B => Mode::TempF,
        0x0C => Mode::DcUa,
        0x0D => Mode::AcUa,
        0x0E => Mode::DcMa,
        0x0F => Mode::AcMa,
        0x10 => Mode::DcA,
        0x11 => Mode::AcA,
        0x12 => Mode::Hfe,
        0x13 => Mode::Live,
        0x14 => Mode::Ncv,
        0x15 => Mode::LozV,
        0x16 => Mode::ClampAcA,
        0x17 => Mode::ClampDcA,
        0x18 => Mode::LpfV,
        0x19 => Mode::AcDcV,
        0x1A => Mode::LpfMv,
        0x1B => Mode::AcDcMv,
        0x1C => Mode::ClampLpfA,
        0x1D => Mode::ClampAcDcA,
        _ => Mode::Inrush,
    };
    assert(mode_byte(m) == b);
}

/// Reading a mode's byte back gives the mode.
pub proof fn lemma_mode_byte_round_trip(m: Mode)
    ensures
        mode_of_byte(mode_byte(m)) == Some(m),
{
    lemma_mode_byte_onto(mode_byte(m));
    let c = choose|x: Mode| mode_byte(x) == mode_byte(m);
    lemma_mode_byte_injective(c, m);
}

#[allow(non_upper_case_globals)]
impl Mode {
    /// The name 0x16 has on the UT61D+, whose LoZ position reports it.
    pub const LozV2: Mode = Mode::ClampAcA;
    /// Mode byte 0x17 under its older name.
    pub const Lpf: Mode = Mode::ClampDcA;
    /// Mode byte 0x1C under its older name.
    pub const LpfA: Mode = Mode::ClampLpfA;
    /// Mode byte 0x1D under its older name.
    pub const AcDcA2: Mode = Mode::ClampAcDcA;

    /// The mode byte this mode is reported with.
    pub fn byte(self) -> (b: u8)
        ensures
            b == mode_byte(self),
    {
        match self {
            Mode::AcV => 0x00,
            Mode::AcMv => 0x01,
            Mode::DcV => 0x02,
            Mode::DcMv => 0x03,
            Mode::Hz => 0x04,
            Mode::DutyCycle => 0x05,
            Mode::Ohm => 0x06,
            Mode::Continuity => 0x07,
            Mode::Diode => 0x08,
            Mode::Capacitance => 0x09,
            Mode::TempC => 0x0A,
            Mode::TempF => 0x0B,
            Mode::DcUa => 0x0C,
            Mode::AcUa => 0x0D,
            Mode::DcMa => 0x0E,
            Mode::AcMa => 0x0F,
            Mode::DcA => 0x10,
            Mode::AcA => 0x11,
            Mode::Hfe => 0x12,
            Mode::Live => 0x13,
            Mode::Ncv => 0x14,
            Mode::LozV => 0x15,
            Mode::ClampAcA => 0x16,
            Mode::ClampDcA => 0x17,
            Mode::LpfV => 0x18,
            Mode::AcDcV => 0x19,
            Mode::LpfMv => 0x1A,
            Mode::AcDcMv => 0x1B,
            Mode::ClampLpfA => 0x1C,
            Mode::ClampAcDcA => 0x1D,
            Mode::Inrush => 0x1E,
        }
    }

    /// The mode a mode byte names; bytes past `0x1E` name none.
    pub fn from_byte(b: u8) -> (r: Result<Mode, Error>)
        ensures
            match mode_of_byte(b) {
                Some(m) => r == Ok::<Mode, Error>(m),
                None => r == Err::<Mode, Error>(Error::UnknownMode(b)),
            },
    {
        let m = match b {
            0x00 => Mode::AcV,
            0x01 => Mode::AcMv,
            0x02 => Mode::DcV,
            0x03 => Mode::DcMv,
            0x04 => Mode::Hz,
            0x05 => Mode::DutyCycle,
            0x06 => Mode::Ohm,
            0x07 => Mode::Continuity,
            0x08 => Mode::Diode,
            0x09 => Mode::Capacitance,
            0x0A => Mode::TempC,
            0x0B => Mode::TempF,
            0x0C => Mode::DcUa,
            0x0D => Mode::AcUa,
            0x0E => Mode::DcMa,
            0x0F => Mode::AcMa,
            0x10 => Mode::DcA,
            0x11 => Mode::AcA,
            0x12 => Mode::Hfe,
            0x13 => Mode::Live,
            0x14 => Mode::Ncv,
            0x15 => Mode::LozV,
            0x16 => Mode::ClampAcA,
            0x17 => Mode::ClampDcA,
            0x18 => Mode::LpfV,
            0x19 => Mode::AcDcV,
            0x1A => Mode::LpfMv,
            0x1B => Mode::AcDcMv,
            0x1C => Mode::ClampLpfA,
            0x1D => Mode::ClampAcDcA,
            0x1E => Mode::Inrush,
            _ => {
                return Err(Error::UnknownMode(b));
            },
        };
        proof {
            lemma_mode_byte_round_trip(m);
        }
        Ok(m)
    }

    /// The label this mode is shown with.
    pub fn as_static_str(self) -> (s: &'static str)
        ensures
            s == mode_label(self),
    {
        match self {
            Mode::AcV => "AC V",
            Mode::AcMv => "AC mV",
            Mode::DcV => "DC V",
            Mode::DcMv => "DC mV",
            Mode::Hz => "Hz",
            Mode::DutyCycle => "Duty %",
            Mode::Ohm => "\u{03A9}",
            Mode::Continuity => "Continuity",
            Mode::Diode => "Diode",
            Mode::Capacitance => "Capacitance",
            Mode::TempC => "\u{00B0}C",
            Mode::TempF => "\u{00B0}F",
            Mode::DcUa => "DC \u{00B5}A",
            Mode::AcUa => "AC \u{00B5}A",
            Mode::DcMa => "DC mA",
            Mode::AcMa => "AC mA",
            Mode::DcA => "DC A",
            Mode::AcA => "AC A",
            Mode::Hfe => "hFE",
            Mode::Live => "Live",
            Mode::Ncv => "NCV",
            Mode::LozV => "LoZ V",
            Mode::ClampAcA => "Clamp AC A",
            Mode::ClampDcA => "Clamp DC A",
            Mode::LpfV => "LPF V",
            Mode::AcDcV => "AC+DC V",
            Mode::LpfMv => "LPF mV",
            Mode::AcDcMv => "AC+DC mV",
            Mode::ClampLpfA => "Clamp LPF A",
            Mode::ClampAcDcA => "Clamp AC+DC A",
            Mode::Inrush => "Inrush",
        }
    }

    /// Every mode, in byte order.
    pub fn all() -> (v: Vec<Mode>)
        ensures
            v.len() == 31,
            forall|i: int| 0 <= i < 31 ==> mode_byte(#[trigger] v@[i]) == i,
    {
        let mut v: Vec<Mode> = Vec::new();
        let mut b: u8 = 0;
        while b <= 0x1E
            invariant
                b <= 0x1F,
                v.len() == b,
                forall|i: int| 0 <= i < b ==> mode_byte(#[trigger] v@[i]) == i,
            decreases 0x1F - b,
        {
            proof {
                lemma_mode_byte_onto(b);
            }
            let m = match Mode::from_byte(b) {
                Ok(m) => m,
                Err(_) => {
                    assert(false);
                    return v;
                },
            };
            v.push(m);
            b = b + 1;
        }
        v
    }
}

} // verus!
