//! What a parser hands back: the reading, its flags, and the errors.
use crate::text::{decimal_text, hex_digit, hex_lower, push_char, push_decimal, push_str};
use vstd::prelude::*;

verus! {

/// Why a payload could not be read.
#[derive(Debug, Clone, PartialEq, Eq)]
pub enum Error {
    /// A mode byte the family does not define.
    UnknownMode(u8),
    /// A command name the meter does not take, or a setting it cannot reach.
    UnsupportedCommand(String),
    /// A payload shorter than the family's measurement payload.
    PayloadTooShort { family: &'static str, len: usize, expected: usize },
    /// A UT8802 decimal point position past the fifth digit.
    InvalidDecimalPoint(u8),
    /// Bytes that are not one whole UT80x packet.
    NotAPacket,
    /// A UT80x digit nibble past `0xA`.
    InvalidDigitNibble(u8),
    /// UT80x digits that make no number; the text they made.
    UnparseableValue(String),
}

/// `0x` and two lower-case hex digits.
pub open spec fn hex_byte_text(b: u8) -> Seq<char> {
    seq!['0', 'x', hex_digit(b / 16), hex_digit(b % 16)]
}

/// What an error says.
pub open spec fn error_text(e: Error) -> Seq<char> {
    match e {
        Error::UnknownMode(b) => "unknown mode byte "@ + hex_byte_text(b),
        Error::UnsupportedCommand(m) => "unsupported command: "@ + m@,
        Error::PayloadTooShort { family, len, expected } => "invalid response: "@ + family@
            + " payload too short: "@ + decimal_text(len as nat) + " bytes, expected "@
            + decimal_text(expected as nat),
        Error::InvalidDecimalPoint(d) => "invalid response: ut8802 invalid decimal point position "@
            + decimal_text(d as nat),
        Error::NotAPacket => "invalid response: ut80x: not a packet of 9 data bytes and CR LF"@,
        Error::InvalidDigitNibble(d) => "invalid response: ut80x invalid digit nibble "@
            + hex_byte_text(d),
        Error::UnparseableValue(t) => "invalid response: ut80x unparseable value \""@ + t@
            + "\""@,
    }
}

impl Error {
    /// What the error says.
    pub fn message(&self) -> (s: String)
        ensures
            s@ == error_text(*self),
    {
        let mut s = String::new();
        match self {
            Error::UnknownMode(b) => {
                push_str(&mut s, "unknown mode byte ");
                push_hex_byte(&mut s, *b);
            },
            Error::UnsupportedCommand(m) => {
                push_str(&mut s, "unsupported command: ");
                push_str(&mut s, m.as_str());
            },
            Error::PayloadTooShort { family, len, expected } => {
                push_str(&mut s, "invalid response: ");
                push_str(&mut s, family);
                push_str(&mut s, " payload too short: ");
                push_decimal(&mut s, *len);
                push_str(&mut s, " bytes, expected ");
                push_decimal(&mut s, *expected);
            },
            Error::InvalidDecimalPoint(d) => {
                push_str(&mut s, "invalid response: ut8802 invalid decimal point position ");
                push_decimal(&mut s, *d as usize);
            },
            Error::NotAPacket => {
                push_str(&mut s, "invalid response: ut80x: not a packet of 9 data bytes and CR LF");
            },
            Error::InvalidDigitNibble(d) => {
                push_str(&mut s, "invalid response: ut80x invalid digit nibble ");
                push_hex_byte(&mut s, *d);
            },
            Error::UnparseableValue(t) => {
                push_str(&mut s, "invalid response: ut80x unparseable value \"");
                push_str(&mut s, t.as_str());
                push_str(&mut s, "\"");
            },
        }
        assert(s@ =~= error_text(*self));
        s
    }
}

/// Appends `0x` and the two lower-case hex digits of `b` to `s`.
pub fn push_hex_byte(s: &mut String, b: u8)
    ensures
        final(s)@ == old(s)@ + hex_byte_text(b),
{
    push_char(s, '0');
    push_char(s, 'x');
    push_char(s, hex_lower(b / 16));
    push_char(s, hex_lower(b % 16));
    assert(s@ =~= old(s)@ + hex_byte_text(b));
}

/// The meter's status flags.
#[derive(Debug, Clone, Copy, PartialEq, Eq, Structural)]
pub struct StatusFlags {
    pub hold: bool,
    pub rel: bool,
    pub min: bool,
    pub max: bool,
    pub avg: bool,
    pub low_battery: bool,
    pub hv_warning: bool,
    pub peak_max: bool,
    pub peak_min: bool,
    pub lead_error: bool,
    pub comp: bool,
    pub record: bool,
    pub loz: bool,
    pub void: bool,
    pub auto_range: bool,
    pub dc: bool,
}

/// No flag set.
pub open spec fn no_flags() -> StatusFlags {
    StatusFlags {
        hold: false,
        rel: false,
        min: false,
        max: false,
        avg: false,
        low_battery: false,
        hv_warning: false,
        peak_max: false,
        peak_min: false,
        lead_error: false,
        comp: false,
        record: false,
        loz: false,
        void: false,
        auto_range: false,
        dc: false,
    }
}

impl StatusFlags {
    /// No flag set.
    pub fn none() -> (f: StatusFlags)
        ensures
            f == no_flags(),
    {
        StatusFlags {
            hold: false,
            rel: false,
            min: false,
            max: false,
            avg: false,
            low_battery: false,
            hv_warning: false,
            peak_max: false,
            peak_min: false,
            lead_error: false,
            comp: false,
            record: false,
            loz: false,
            void: false,
            auto_range: false,
            dc: false,
        }
    }
}

impl Default for StatusFlags {
    fn default() -> (f: StatusFlags)
        ensures
            f == no_flags(),
    {
        StatusFlags::none()
    }
}

/// Which kind of number a [`Decimal`] is.
#[derive(Debug, Clone, Copy, PartialEq, Eq, Structural)]
pub enum NumberKind {
    /// A finite number: `digits` times ten to the power `-scale`.
    Finite,
    /// An infinity, written `inf` or `infinity`.
    Infinite,
    /// Not a number, written `nan`.
    NotANumber,
}

/// A reading exactly as the display wrote it: for a finite number,
/// `digits` times ten to the power `-scale` (a point `scale` places from
/// the right where `scale` is positive, an exponent where it is not), and
/// the sign. `-0.000` keeps its sign. `digits` and `scale` are 0 for an
/// infinity and for not-a-number.
#[derive(Debug, Clone, Copy, PartialEq, Eq, Structural)]
pub struct Decimal {
    pub negative: bool,
    pub digits: u128,
    pub scale: i64,
    pub kind: NumberKind,
}

/// What a reading shows.
#[derive(Debug, Clone, Copy, PartialEq, Eq, Structural)]
pub enum MeasuredValue {
    /// A number.
    Normal(Decimal),
    /// Over range (`OL`).
    Overload,
    /// The NCV field strength, in display segments.
    NcvLevel(u8),
}

/// One decoded reading.
#[derive(Debug, Clone)]
pub struct Measurement {
    /// The mode's label.
    pub mode: String,
    /// The mode as the payload sent it.
    pub mode_raw: u16,
    /// The range as the payload sent it.
    pub range_raw: u8,
    pub value: MeasuredValue,
    pub unit: &'static str,
    pub range_label: &'static str,
    /// The bar graph, where the meter sends one.
    pub progress: Option<u16>,
    /// The display text as the meter drew it.
    pub display_raw: Option<String>,
    pub flags: StatusFlags,
    /// The payload the reading came from.
    pub raw_payload: Vec<u8>,
}

/// Whether two readings show the same: every field but the range label
/// and the raw payload.
pub open spec fn shows_alike(a: Measurement, b: Measurement) -> bool {
    &&& a.mode@ == b.mode@
    &&& a.mode_raw == b.mode_raw
    &&& a.range_raw == b.range_raw
    &&& a.value == b.value
    &&& a.unit == b.unit
    &&& a.progress == b.progress
    &&& match (a.display_raw, b.display_raw) {
        (Some(x), Some(y)) => x@ == y@,
        (None, None) => true,
        _ => false,
    }
    &&& a.flags == b.flags
}

/// Whether two outcomes agree: both readings that show the same, or both
/// errors that say the same.
pub open spec fn outcomes_alike(a: Result<Measurement, Error>, b: Result<Measurement, Error>) -> bool {
    match (a, b) {
        (Ok(x), Ok(y)) => shows_alike(x, y),
        (Err(x), Err(y)) => error_text(x) == error_text(y),
        _ => false,
    }
}

/// Whether `m` holds exactly these fields, its strings and payload taken
/// by their views.
pub open spec fn reading_is(
    m: Measurement,
    mode: Seq<char>,
    mode_raw: u16,
    range_raw: u8,
    value: MeasuredValue,
    unit: &'static str,
    range_label: &'static str,
    progress: Option<u16>,
    display: Option<Seq<char>>,
    flags: StatusFlags,
    payload: Seq<u8>,
) -> bool {
    &&& m.mode@ == mode
    &&& m.mode_raw == mode_raw
    &&& m.range_raw == range_raw
    &&& m.value == value
    &&& m.unit == unit
    &&& m.range_label == range_label
    &&& m.progress == progress
    &&& match display {
        Some(d) => m.display_raw matches Some(x) && x@ == d,
        None => m.display_raw is None,
    }
    &&& m.flags == flags
    &&& m.raw_payload@ == payload
}

} // verus!
