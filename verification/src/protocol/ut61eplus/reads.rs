//! What the frames a UT61+ session reads come to, once they are cut out of
//! the byte stream: which one answers a request for a reading, which queued
//! reading is the newest, and which reply names the meter. The reading and
//! the waiting stay with the caller; these decide.
use super::family::{is_name_reply, name_from_reply};
use super::parse::{parse_measurement, ut61_parsed};
use super::tables::DeviceTable;
use crate::measurement::{Error, Measurement};
use crate::protocol::Evidence;
use crate::text::ascii_chars;
use vstd::prelude::*;

verus! {

/// How many frames a request reads, at most, for its reading.
pub const READING_FRAME_BUDGET: usize = 5;

/// Whether a frame is long enough to be a reading.
pub open spec fn is_reading_frame(p: Seq<u8>) -> bool {
    p.len() >= 14
}

/// Whether frame `i` of `frames` is the first reading among the first
/// `limit` frames.
pub open spec fn first_reading(frames: Seq<Vec<u8>>, limit: int, i: int) -> bool {
    &&& 0 <= i < limit
    &&& i < frames.len()
    &&& is_reading_frame(frames[i]@)
    &&& forall|j: int| 0 <= j < i ==> !is_reading_frame(#[trigger] frames[j]@)
}

/// Whether frame `i` of `frames` is the last reading among them.
pub open spec fn last_reading(frames: Seq<Vec<u8>>, i: int) -> bool {
    &&& 0 <= i < frames.len()
    &&& is_reading_frame(frames[i]@)
    &&& forall|j: int| i < j < frames.len() ==> !is_reading_frame(#[trigger] frames[j]@)
}

/// The answer to a request, from the frames read after it: the first of the
/// first five that is long enough to be a reading, parsed with `table`;
/// shorter frames (an ack, a name) are passed over. `None` where none of
/// them is a reading: the request timed out.
pub fn reading_from_frames<T: DeviceTable>(frames: &Vec<Vec<u8>>, table: &T) -> (r: Option<
    Result<Measurement, Error>,
>)
    ensures
        r is None <==> forall|j: int|
            0 <= j < READING_FRAME_BUDGET && j < frames@.len() ==> !is_reading_frame(
                #[trigger] frames@[j]@,
            ),
        r matches Some(x) ==> exists|i: int|
            first_reading(frames@, READING_FRAME_BUDGET as int, i) && ut61_parsed(
                #[trigger] frames@[i]@,
                *table,
                x,
            ),
{
    let mut i: usize = 0;
    while i < frames.len() && i < READING_FRAME_BUDGET
        invariant
            i <= frames@.len(),
            i <= READING_FRAME_BUDGET,
            forall|j: int| 0 <= j < i ==> !is_reading_frame(#[trigger] frames@[j]@),
        decreases frames@.len() - i,
    {
        if frames[i].len() >= 14 {
            let x = parse_measurement(frames[i].as_slice(), table);
            assert(first_reading(frames@, READING_FRAME_BUDGET as int, i as int));
            return Some(x);
        }
        i = i + 1;
    }
    None
}

/// The newest of the readings a streaming adapter has queued: `first`, the
/// reading a request was answered with, unless a reading frame follows it in
/// `queued`; then the last such frame, parsed with `table`, decides, parse
/// error included, since that is what the meter shows now. Shorter frames
/// are passed over.
pub fn newest_reading<T: DeviceTable>(
    first: Result<Measurement, Error>,
    queued: &Vec<Vec<u8>>,
    table: &T,
) -> (r: Result<Measurement, Error>)
    ensures
        (forall|j: int| 0 <= j < queued@.len() ==> !is_reading_frame(#[trigger] queued@[j]@))
            ==> r == first,
        (exists|j: int| 0 <= j < queued@.len() && is_reading_frame(#[trigger] queued@[j]@))
            ==> exists|i: int| last_reading(queued@, i) && ut61_parsed(#[trigger] queued@[i]@, *table, r),
{
    let mut k: usize = queued.len();
    while k > 0
        invariant
            k <= queued@.len(),
            forall|j: int| k <= j < queued@.len() ==> !is_reading_frame(#[trigger] queued@[j]@),
        decreases k,
    {
        if queued[k - 1].len() >= 14 {
            let r = parse_measurement(queued[k - 1].as_slice(), table);
            assert(last_reading(queued@, k - 1));
            return r;
        }
        k = k - 1;
    }
    first
}

/// Whether reply `i` is the first name reply among the first `budget`.
pub open spec fn first_name(replies: Seq<Vec<u8>>, budget: int, i: int) -> bool {
    &&& 0 <= i < budget
    &&& i < replies.len()
    &&& is_name_reply(replies[i]@)
    &&& forall|j: int| 0 <= j < i ==> !is_name_reply(#[trigger] replies[j]@)
}

/// The meter's name, from the frames read after a Get Name request: the
/// first of the first `budget` that is a name reply. The ack and any reading
/// the bridge held are passed over, never taken for the name; `None` where
/// no name came within the budget.
pub fn name_from_replies(replies: &Vec<Vec<u8>>, budget: u32) -> (r: Option<String>)
    ensures
        r is None <==> forall|j: int|
            0 <= j < budget && j < replies@.len() ==> !is_name_reply(#[trigger] replies@[j]@),
        r matches Some(s) ==> exists|i: int|
            first_name(replies@, budget as int, i) && s@ == ascii_chars(#[trigger] replies@[i]@),
{
    let mut i: usize = 0;
    while i < replies.len() && (i as u64) < (budget as u64)
        invariant
            i <= replies@.len(),
            i <= budget,
            forall|j: int| 0 <= j < i ==> !is_name_reply(#[trigger] replies@[j]@),
        decreases replies@.len() - i,
    {
        match name_from_reply(replies[i].as_slice()) {
            Some(s) => {
                assert(first_name(replies@, budget as int, i as int));
                return Some(s);
            },
            None => {},
        }
        i = i + 1;
    }
    None
}

/// The registry entry of the family's own tables, which every meter in it
/// can be read with.
pub const FAMILY_FALLBACK_ID: &'static str = "ut61eplus";

/// What the frames heard while detecting meters show of this family. The
/// first name reply pins the model; it is taken for the family's own entry
/// here, and [`with_registry_entry`] moves it to the entry the registry
/// keeps under that name. Failing a name, a 14-byte reading settles the
/// family only: it may be a stale frame from an earlier session. The ack
/// identifies nothing. Every frame is looked at, as a stale reading can come
/// before the name.
pub fn recognise_frames(frames: &Vec<Vec<u8>>) -> (r: Option<Evidence>)
    ensures
        (exists|j: int| 0 <= j < frames@.len() && is_name_reply(#[trigger] frames@[j]@)) ==> (r matches Some(
            Evidence::Model { id, reported_name: Some(s) },
        ) && id == FAMILY_FALLBACK_ID && exists|i: int|
            first_name(frames@, frames@.len() as int, i) && s@ == ascii_chars(#[trigger] frames@[i]@)),
        (forall|j: int| 0 <= j < frames@.len() ==> !is_name_reply(#[trigger] frames@[j]@)) ==> (r == if exists|j: int|
            0 <= j < frames@.len() && (#[trigger] frames@[j]@).len() == 14 {
            Some(Evidence::FamilyOnly { fallback: FAMILY_FALLBACK_ID })
        } else {
            None::<Evidence>
        }),
{
    let mut seen_reading = false;
    let mut i: usize = 0;
    while i < frames.len()
        invariant
            i <= frames@.len(),
            forall|j: int| 0 <= j < i ==> !is_name_reply(#[trigger] frames@[j]@),
            seen_reading <==> exists|j: int| 0 <= j < i && (#[trigger] frames@[j]@).len() == 14,
        decreases frames@.len() - i,
    {
        match name_from_reply(frames[i].as_slice()) {
            Some(s) => {
                assert(first_name(frames@, frames@.len() as int, i as int));
                return Some(Evidence::Model { id: FAMILY_FALLBACK_ID, reported_name: Some(s) });
            },
            None => {},
        }
        if frames[i].len() == 14 {
            seen_reading = true;
        }
        i = i + 1;
    }
    if seen_reading {
        Some(Evidence::FamilyOnly { fallback: FAMILY_FALLBACK_ID })
    } else {
        None
    }
}

/// Evidence of a named model moved to `registry_id`, the entry the registry
/// keeps under the reported name, where it keeps one; any other evidence,
/// and a name the registry does not know, stay as they are.
pub fn with_registry_entry(e: Evidence, registry_id: Option<&'static str>) -> (r: Evidence)
    ensures
        r == match (e, registry_id) {
            (Evidence::Model { id: _, reported_name: Some(s) }, Some(entry)) => Evidence::Model {
                id: entry,
                reported_name: Some(s),
            },
            _ => e,
        },
{
    match (e, registry_id) {
        (Evidence::Model { id: _, reported_name: Some(s) }, Some(entry)) => Evidence::Model {
            id: entry,
            reported_name: Some(s),
        },
        (e, _) => e,
    }
}

} // verus!
