//! Per-model range tables of the UT61+ family and its Bluetooth siblings.
pub mod rungs;
pub mod ut202bt;
pub mod ut60bt;
pub mod ut61b_plus;
pub mod ut61d_plus;
pub mod ut61e_plus;

use super::mode::Mode;
use vstd::prelude::*;

verus! {

/// One rung of a range table: the range's label and the unit readings on it
/// are shown in.
#[derive(Debug, Clone, Copy, PartialEq, Eq)]
pub struct RangeInfo {
    pub label: &'static str,
    pub unit: &'static str,
}

/// A rung with `label` and `unit`.
pub open spec fn ri(label: &'static str, unit: &'static str) -> RangeInfo {
    RangeInfo { label, unit }
}

/// Build a rung.
pub fn r(label: &'static str, unit: &'static str) -> (x: RangeInfo)
    ensures
        x == ri(label, unit),
{
    RangeInfo { label, unit }
}

/// A range byte the model's table skips: the rungs above it exist, this one
/// does not. It has an empty label.
pub open spec fn is_gap(x: RangeInfo) -> bool {
    x.label@.len() == 0
}

/// The rung a range byte picks in a table: `None` past the end, and `None`
/// on a gap.
pub open spec fn lookup_range(table: Seq<RangeInfo>, range: u8) -> Option<RangeInfo> {
    if (range as int) < table.len() && !is_gap(table[range as int]) {
        Some(table[range as int])
    } else {
        None
    }
}

/// Look up a range entry by index.
pub fn lookup(table: &Vec<RangeInfo>, range: u8) -> (res: Option<RangeInfo>)
    ensures
        res == lookup_range(table@, range),
{
    let i = range as usize;
    if i < table.len() && !table[i].label.is_empty() {
        Some(table[i])
    } else {
        None
    }
}

/// Device-specific range/unit lookup tables.
pub trait DeviceTable {
    /// The range table for `mode`, in range-byte order; empty for a mode
    /// this model does not have, or one without ranges.
    spec fn spec_ranges(&self, mode: Mode) -> Seq<RangeInfo>;

    /// The model's name.
    spec fn spec_model_name(&self) -> &'static str;

    /// Every mode the model reaches, for a model whose dial is not
    /// described; empty for one whose dial is.
    spec fn spec_modes(&self) -> Seq<Mode>;

    /// Modes where the Peak command does something on this model.
    spec fn spec_peak_modes(&self) -> Seq<Mode>;

    /// Every mode the model's dial reaches, where the dial is described;
    /// empty where it is not.
    spec fn spec_dial_modes(&self) -> Seq<Mode>;

    /// Whether RANGE is dead in `mode` on this model.
    spec fn spec_range_is_fixed(&self, mode: Mode) -> bool;

    /// The commands this model's buttons take.
    spec fn spec_commands(&self) -> Seq<&'static str>;

    /// The range table for `mode`, in range-byte order.
    fn ranges(&self, mode: Mode) -> (v: Vec<RangeInfo>)
        ensures
            v@ == self.spec_ranges(mode),
    ;

    /// The model's name.
    fn model_name(&self) -> (s: &'static str)
        ensures
            s == self.spec_model_name(),
    ;

    /// Every mode the model reaches, where its dial is not described.
    fn modes(&self) -> (v: Vec<Mode>)
        ensures
            v@ == self.spec_modes(),
    ;

    /// Modes where Peak works on this model.
    fn peak_modes(&self) -> (v: Vec<Mode>)
        ensures
            v@ == self.spec_peak_modes(),
    ;

    /// Every mode the model's dial reaches, where the dial is described.
    fn dial_modes(&self) -> (v: Vec<Mode>)
        ensures
            v@ == self.spec_dial_modes(),
    ;

    /// Whether RANGE is dead in `mode` on this model.
    fn range_is_fixed(&self, mode: Mode) -> (b: bool)
        ensures
            b == self.spec_range_is_fixed(mode),
    ;

    /// The commands this model's buttons take, by the names `send_command`
    /// answers.
    fn commands(&self) -> (v: Vec<&'static str>)
        ensures
            v@ == self.spec_commands(),
    ;

    /// The rung `range` picks in `mode`'s table.
    fn range_info(&self, mode: Mode, range: u8) -> (res: Option<RangeInfo>)
        ensures
            res == lookup_range(self.spec_ranges(mode), range),
    {
        let table = self.ranges(mode);
        lookup(&table, range)
    }
}

/// The family's whole command list.
pub open spec fn family_commands() -> Seq<&'static str> {
    seq![
        "hold",
        "minmax",
        "exit_minmax",
        "range",
        "auto",
        "rel",
        "select2",
        "select",
        "light",
        "peak",
        "exit_peak",
    ]
}

/// The family's whole command list.
pub fn family_command_list() -> (v: Vec<&'static str>)
    ensures
        v@ == family_commands(),
{
    vec![
        "hold",
        "minmax",
        "exit_minmax",
        "range",
        "auto",
        "rel",
        "select2",
        "select",
        "light",
        "peak",
        "exit_peak",
    ]
}

/// Modes where the RANGE button does nothing on any model of the family:
/// capacitance and Hz.
pub open spec fn family_fixed_range(mode: Mode) -> bool {
    mode == Mode::Capacitance || mode == Mode::Hz
}

/// Whether RANGE is dead in `mode` on every model of the family.
pub fn is_family_fixed_range(mode: Mode) -> (b: bool)
    ensures
        b == family_fixed_range(mode),
{
    match mode {
        Mode::Capacitance | Mode::Hz => true,
        _ => false,
    }
}

/// The AC modes where Peak is offered on the models that have it.
pub open spec fn ac_peak_modes() -> Seq<Mode> {
    seq![Mode::AcV, Mode::AcMv, Mode::AcUa, Mode::AcMa, Mode::AcA]
}

/// The AC modes where Peak is offered on the models that have it.
pub fn ac_peak_mode_list() -> (v: Vec<Mode>)
    ensures
        v@ == ac_peak_modes(),
{
    vec![Mode::AcV, Mode::AcMv, Mode::AcUa, Mode::AcMa, Mode::AcA]
}

} // verus!
