//! Decoding and command framing for UNI-T and Voltcraft digital multimeters.
pub mod labels;
pub mod measurement;
pub mod protocol;
pub mod specs;
pub mod text;
