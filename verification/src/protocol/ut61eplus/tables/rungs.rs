//! What a range table's rungs say of themselves.
use super::RangeInfo;
use super::ut202bt::ut202bt_ranges;
use super::ut60bt::ut60bt_ranges;
use super::ut61b_plus::ut61b_plus_ranges;
use super::ut61d_plus::ut61d_plus_ranges;
use super::ut61e_plus::ut61e_plus_ranges;
use super::super::mode::Mode;
use crate::labels::number_then_unit;
use crate::text::is_digit;
use vstd::prelude::*;

verus! {

/// Whether a rung's label, where it is a number ("22kHz", not "Duty" or
/// "Temp"), is that number read in exactly the rung's unit: a reading on
/// the rung is reported in the unit its label is written in.
pub open spec fn rung_reads_in_its_unit(r: RangeInfo) -> bool {
    r.label@.len() > 0 && is_digit(r.label@[0]) ==> number_then_unit(r.label@, r.unit@)
}

/// The rungs of the UT61E+'s mV table past the first: the meter never
/// sends that range byte (its mV position is fixed at 220mV), and the
/// rung is labelled by the 2.2V range it stands beside.
pub open spec fn ut61e_plus_unsent_mv_rung(mode: Mode, i: int) -> bool {
    (mode == Mode::DcMv || mode == Mode::AcMv || mode == Mode::LpfMv || mode == Mode::AcDcMv) && i == 1
}

/// Every numbered rung of every model's range table is a number in the
/// rung's own unit ("22kHz" is read in kHz, never in Hz), so a reading is
/// never reported a thousand times off its label; the one exception is
/// the UT61E+'s mV rung the meter never sends.
pub proof fn rungs_read_in_their_unit(mode: Mode, i: int)
    ensures
        0 <= i < ut61e_plus_ranges(mode).len() && !ut61e_plus_unsent_mv_rung(mode, i)
            ==> rung_reads_in_its_unit(ut61e_plus_ranges(mode)[i]),
        0 <= i < ut61b_plus_ranges(mode).len() ==> rung_reads_in_its_unit(ut61b_plus_ranges(mode)[i]),
        0 <= i < ut61d_plus_ranges(mode).len() ==> rung_reads_in_its_unit(ut61d_plus_ranges(mode)[i]),
        0 <= i < ut60bt_ranges(mode).len() ==> rung_reads_in_its_unit(ut60bt_ranges(mode)[i]),
        0 <= i < ut202bt_ranges(mode).len() ==> rung_reads_in_its_unit(ut202bt_ranges(mode)[i]),
{
    super::ut61e_plus::lemma_ut61e_plus_rungs(mode, i);
    super::ut61b_plus::lemma_ut61b_plus_rungs(mode, i);
    super::ut61d_plus::lemma_ut61d_plus_rungs(mode, i);
    super::ut60bt::lemma_ut60bt_rungs(mode, i);
    super::ut202bt::lemma_ut202bt_rungs(mode, i);
}

} // verus!
