//! The UT61E+/UT61B+/UT61D+/UT161 family.
pub mod capture;
pub mod command;
pub mod family;
pub mod mode;
pub mod parse;
pub mod range_specs;
pub mod reads;
pub mod reports;
pub mod sheets;
pub mod spec_model;
pub mod tables;
