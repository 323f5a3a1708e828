//! The meter families this library speaks to.
pub mod ut61eplus;
pub mod ut80x;
pub mod steps;
pub mod ut8802;

use crate::text::{hex_digit, hex_lower, push_char};
use vstd::prelude::*;

pub use steps::CaptureStep;

verus! {

/// How far a model's support has been checked against a real meter.
#[derive(Debug, Clone, Copy, PartialEq, Eq, Structural)]
pub enum Stability {
    /// Confirmed on hardware.
    Verified,
    /// Built from the vendor's documentation and software; no meter has
    /// confirmed it yet.
    Experimental,
}

/// What a protocol tells about the meter it speaks to.
#[derive(Debug, Clone)]
pub struct DeviceProfile {
    pub family_name: &'static str,
    pub model_name: &'static str,
    pub stability: Stability,
    /// The command names the meter takes.
    pub supported_commands: Vec<&'static str>,
    /// How many auxiliary values a reading carries at most.
    pub max_aux_values: u8,
    /// The issue that tracks checking the model on hardware.
    pub verification_issue: Option<u16>,
}

/// What a detection probe learned from the bytes a meter sent.
#[derive(Debug, Clone, PartialEq, Eq)]
pub enum Evidence {
    /// The bytes pin the model: its registry id, and the name it reported,
    /// where it reported one.
    Model { id: &'static str, reported_name: Option<String> },
    /// The bytes settle the family only; `fallback` is the registry id to
    /// read it with.
    FamilyOnly { fallback: &'static str },
}

/// The label of a mode byte no table names: `Unknown(0x..)`, two lower-case
/// hex digits.
pub open spec fn unknown_mode_text(raw: u8) -> Seq<char> {
    "Unknown(0x"@ + seq![hex_digit(raw / 16), hex_digit(raw % 16), ')']
}

/// The label of a mode byte no table names.
pub fn unknown_mode(raw: u8) -> (s: String)
    ensures
        s@ == unknown_mode_text(raw),
{
    let mut s = "Unknown(0x".to_owned();
    push_char(&mut s, hex_lower(raw / 16));
    push_char(&mut s, hex_lower(raw % 16));
    push_char(&mut s, ')');
    assert(s@ =~= unknown_mode_text(raw));
    s
}

} // verus!
