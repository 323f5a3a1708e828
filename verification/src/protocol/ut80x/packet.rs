//! The 11-byte packet: nine data bytes `0x30`-`0x3F` (bit 7 may carry
//! parity), then CR LF. Only the low nibbles carry data.
use crate::measurement::Error;
use vstd::prelude::*;

verus! {

/// Packet length: 9 data bytes, CR, LF.
pub const PACKET_LEN: usize = 11;

/// The packet terminator's first byte, compared with bit 7 masked.
pub const CR: u8 = 0x0D;

/// The packet terminator's second byte, compared with bit 7 masked.
pub const LF: u8 = 0x0A;

/// Whether `b` is a data byte: `0x30`-`0x3F`, bit 7 aside.
pub open spec fn data_byte(b: u8) -> bool {
    b & 0x70 == 0x30
}

/// Whether `p` is one whole packet: nine data bytes, then CR and LF, each
/// compared with bit 7 masked.
pub open spec fn whole_packet(p: Seq<u8>) -> bool {
    &&& p.len() == PACKET_LEN
    &&& forall|i: int| 0 <= i < 9 ==> data_byte(#[trigger] p[i])
    &&& p[9] & 0x7F == CR
    &&& p[10] & 0x7F == LF
}

/// The eleven bytes of `buf` from `start`.
pub open spec fn window(buf: Seq<u8>, start: int) -> Seq<u8> {
    buf.subrange(start, start + PACKET_LEN as int)
}

/// Whether a whole packet starts at `start` in `buf`.
pub open spec fn packet_at(buf: Seq<u8>, start: int) -> bool {
    0 <= start && start + PACKET_LEN as int <= buf.len() && whole_packet(window(buf, start))
}

/// The low nibbles of `p`, byte for byte.
pub open spec fn nibbles_of(p: Seq<u8>) -> Seq<u8> {
    p.map_values(|b: u8| b & 0x0F)
}

/// Whether `bytes` is one whole packet.
///
/// Bit 7 is masked, not checked: the UT804 puts odd parity there, and a
/// stream with the parity bit stripped is accepted too.
pub fn is_packet(bytes: &[u8]) -> (b: bool)
    ensures
        b == whole_packet(bytes@),
{
    if bytes.len() != PACKET_LEN {
        return false;
    }
    let mut i: usize = 0;
    while i < 9
        invariant
            bytes@.len() == PACKET_LEN,
            i <= 9,
            forall|j: int| 0 <= j < i ==> data_byte(#[trigger] bytes@[j]),
        decreases 9 - i,
    {
        if bytes[i] & 0x70 != 0x30 {
            return false;
        }
        i = i + 1;
    }
    bytes[9] & 0x7F == CR && bytes[10] & 0x7F == LF
}

/// Find the first whole packet in `buf`.
///
/// Returns the packet's bytes as received, bit 7 included, and the offset
/// just past it. Never fails: the stream has no header to resync on, so a
/// partial first packet, or one that lost a byte, is only a window that is
/// not a packet. `None` until a whole packet has arrived.
pub fn extract_packet(buf: &[u8]) -> (r: Result<Option<(Vec<u8>, usize)>, Error>)
    ensures
        r is Ok,
        r matches Ok(None) ==> forall|t: int| !packet_at(buf@, t),
        r matches Ok(Some((p, end))) ==> {
            &&& PACKET_LEN <= end <= buf@.len()
            &&& packet_at(buf@, end - PACKET_LEN)
            &&& p@ == window(buf@, end - PACKET_LEN)
            &&& forall|t: int| 0 <= t < end - PACKET_LEN ==> !packet_at(buf@, t)
        },
{
    if buf.len() < PACKET_LEN {
        return Ok(None);
    }
    let last = buf.len() - PACKET_LEN;
    let mut start: usize = 0;
    while start <= last
        invariant
            PACKET_LEN <= buf@.len() <= usize::MAX,
            last == buf@.len() - PACKET_LEN,
            start <= last + 1,
            forall|t: int| 0 <= t < start ==> !packet_at(buf@, t),
        decreases last + 1 - start,
    {
        let end: usize = start + PACKET_LEN;
        let w = vstd::slice::slice_subrange(buf, start, end);
        if is_packet(w) {
            let mut p: Vec<u8> = Vec::new();
            let mut k: usize = 0;
            while k < PACKET_LEN
                invariant
                    k <= PACKET_LEN,
                    w@.len() == PACKET_LEN,
                    w@ == window(buf@, start as int),
                    p@ == w@.take(k as int),
                decreases PACKET_LEN - k,
            {
                p.push(w[k]);
                k = k + 1;
                assert(p@ =~= w@.take(k as int));
            }
            assert(p@ =~= w@);
            return Ok(Some((p, end)));
        }
        start = start + 1;
    }
    Ok(None)
}

/// The low nibbles of a whole packet: the UT804 parser's positions 1-11.
pub fn low_nibbles(packet: &[u8]) -> (r: Result<[u8; PACKET_LEN], Error>)
    ensures
        !whole_packet(packet@) ==> r == Err::<[u8; PACKET_LEN], Error>(Error::NotAPacket),
        whole_packet(packet@) ==> (r matches Ok(n) && n@ == nibbles_of(packet@)),
{
    if !is_packet(packet) {
        return Err(Error::NotAPacket);
    }
    let n: [u8; PACKET_LEN] = [
        packet[0] & 0x0F,
        packet[1] & 0x0F,
        packet[2] & 0x0F,
        packet[3] & 0x0F,
        packet[4] & 0x0F,
        packet[5] & 0x0F,
        packet[6] & 0x0F,
        packet[7] & 0x0F,
        packet[8] & 0x0F,
        packet[9] & 0x0F,
        packet[10] & 0x0F,
    ];
    assert(n@ =~= nibbles_of(packet@));
    Ok(n)
}

/// The AC/DC coupling a packet names for its reading.
#[derive(Clone, Copy, PartialEq, Eq, Debug, Structural)]
pub enum Coupling {
    Dc,
    Ac,
    AcDc,
}

} // verus!
