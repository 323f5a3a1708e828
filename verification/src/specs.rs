//! A meter manual's specification tables: per range row its resolution and
//! accuracy, per table the data that holds for the whole mode, and which
//! row a range byte picks.
use vstd::prelude::*;

verus! {

/// One accuracy figure, for a frequency band where the manual splits them.
#[derive(Debug, Clone, Copy)]
pub struct AccuracyBand {
    pub freq_range: Option<&'static str>,
    pub accuracy: &'static str,
}

/// One row of a table: the range byte it is for (`None`: every range byte
/// of the mode), its label and its resolution.
#[derive(Debug, Clone, Copy)]
pub struct RangeSpec {
    pub range: Option<u8>,
    pub label: &'static str,
    pub resolution: &'static str,
}

/// What a table says of the whole mode.
#[derive(Debug, Clone, Copy)]
pub struct ModeSpecInfo {
    pub input_impedance: Option<&'static str>,
    pub overload_protection: Option<&'static str>,
}

/// Whether `row` is one for range byte `range`.
pub open spec fn row_takes(row: RangeSpec, range: u8) -> bool {
    row.range is None || row.range == Some(range)
}

/// The first row from `i` on that is for range byte `range`.
pub open spec fn row_from(rows: Seq<RangeSpec>, range: u8, i: int) -> Option<int>
    decreases rows.len() - i,
{
    if i < 0 || i >= rows.len() {
        None
    } else if row_takes(rows[i], range) {
        Some(i)
    } else {
        row_from(rows, range, i + 1)
    }
}

/// The row a reading on range byte `range` takes: the first for it.
pub open spec fn row_of(rows: Seq<RangeSpec>, range: u8) -> Option<int> {
    row_from(rows, range, 0)
}

/// The row of `rows` a reading on range byte `range` takes, as [`row_of`]
/// says.
pub fn find_row(rows: &Vec<RangeSpec>, range: u8) -> (r: Option<usize>)
    ensures
        match row_of(rows@, range) {
            Some(i) => r == Some(i as usize),
            None => r is None,
        },
{
    let mut i: usize = 0;
    while i < rows.len()
        invariant
            i <= rows@.len(),
            row_of(rows@, range) == row_from(rows@, range, i as int),
        decreases rows.len() - i,
    {
        let row = rows[i];
        let takes = match row.range {
            None => true,
            Some(x) => x == range,
        };
        if takes {
            return Some(i);
        }
        i = i + 1;
    }
    None
}

/// A row found from `i` on is one of the rows.
pub(crate) proof fn lemma_row_of_in_bounds(rows: Seq<RangeSpec>, range: u8, i: int)
    ensures
        row_from(rows, range, i) matches Some(j) ==> i <= j < rows.len(),
    decreases rows.len() - i,
{
    if 0 <= i < rows.len() && !row_takes(rows[i], range) {
        lemma_row_of_in_bounds(rows, range, i + 1);
    }
}

} // verus!
