//! What holds of every packet across the parsers and models.
use super::model::Model;
use super::packet::{nibbles_of, whole_packet};
use super::parse::ut804_parsed;
use super::model_parsed;
use crate::measurement::{Error, Measurement, outcomes_alike};
use vstd::prelude::*;

verus! {

/// The UT71 and VC9x0 handhelds send the UT804's packets, and every packet
/// reads on them as on the UT804, range label aside: same outcome, and for
/// a reading the same payload. The UT71C/D/E keeps the UT804's labels, and
/// the VC9x0 all of them but AC V's top range.
pub proof fn handhelds_read_as_the_ut804(
    model: Model,
    p: Seq<u8>,
    r804: Result<Measurement, Error>,
    r: Result<Measurement, Error>,
)
    requires
        whole_packet(p),
        model != Model::Ut803,
        ut804_parsed(Model::Ut804, p, r804),
        ut804_parsed(model, p, r),
    ensures
        outcomes_alike(r804, r),
        r804 is Ok && r is Ok ==> r804->Ok_0.raw_payload@ == r->Ok_0.raw_payload@,
        model == Model::Ut71Cde && r804 is Ok && r is Ok ==> r804->Ok_0.range_label
            == r->Ok_0.range_label,
        model == Model::Vc920 && !(p[6] & 0x0F == 0x2 && p[5] & 0x0F == 4) && r804 is Ok && r is Ok
            ==> r804->Ok_0.range_label == r->Ok_0.range_label,
{
}

/// The parity bit is masked, not checked: two whole packets with the same
/// low nibbles read the same, whatever bit 7 of their bytes holds.
#[verifier::rlimit(40)]
pub proof fn bit_7_is_ignored(
    model: Model,
    p: Seq<u8>,
    q: Seq<u8>,
    rp: Result<Measurement, Error>,
    rq: Result<Measurement, Error>,
)
    requires
        whole_packet(p),
        whole_packet(q),
        nibbles_of(p) == nibbles_of(q),
        model_parsed(model, p, rp),
        model_parsed(model, q, rq),
    ensures
        outcomes_alike(rp, rq),
        rp is Ok && rq is Ok ==> rp->Ok_0.range_label == rq->Ok_0.range_label,
{
    assert forall|k: int| 0 <= k < 11 implies p[k] & 0x0F == q[k] & 0x0F by {
        assert(p.len() == 11 && q.len() == 11);
        assert(nibbles_of(p)[k] == p[k] & 0x0F);
        assert(nibbles_of(q)[k] == q[k] & 0x0F);
        assert(nibbles_of(p)[k] == nibbles_of(q)[k]);
    }
}

} // verus!
