//! A packet's positions, read once for everything that decodes a payload
//! of either layout.
use super::model::ut804_dc_by_default;
use super::packet::{Coupling, PACKET_LEN, low_nibbles, nibbles_of, whole_packet};
use crate::measurement::Error;
use vstd::prelude::*;

verus! {

/// The coupling UT804 position 8 names: 1 AC, 2 DC, 3 AC+DC, and 0 DC on
/// the modes that default to DC. A 1-3 on a mode without coupling is still
/// returned; `None` is a 0 there, or a value past 3.
pub open spec fn ut804_coupling(mode: u8, acdc: u8) -> Option<Coupling> {
    if acdc == 1 {
        Some(Coupling::Ac)
    } else if acdc == 2 {
        Some(Coupling::Dc)
    } else if acdc == 3 {
        Some(Coupling::AcDc)
    } else if acdc == 0 && ut804_dc_by_default(mode) {
        Some(Coupling::Dc)
    } else {
        None
    }
}

/// The coupling UT803 position 10 names: bit 3 DC and bit 2 AC, both
/// AC+DC, neither `None`.
pub open spec fn ut803_coupling(nib10: u8) -> Option<Coupling> {
    let dc = nib10 & 0x8 != 0;
    let ac = nib10 & 0x4 != 0;
    if dc && !ac {
        Some(Coupling::Dc)
    } else if !dc && ac {
        Some(Coupling::Ac)
    } else if dc && ac {
        Some(Coupling::AcDc)
    } else {
        None
    }
}

/// The positions the UT803 parser reads, numbered as the UT804's: the fixed
/// `0xA`, the low nibbles of data bytes 1-9, then the fixed `0xD`.
pub open spec fn ut803_positions(p: Seq<u8>) -> Seq<u8> {
    seq![0xAu8] + nibbles_of(p).take(9) + seq![0xDu8]
}

/// A UT804 packet's positions.
pub struct Ut804Fields {
    /// Positions 1-11; `nibbles[k-1]` is position k.
    pub nibbles: [u8; PACKET_LEN],
    /// Position 6.
    pub range: u8,
    /// Position 7.
    pub mode: u8,
    /// Position 8.
    pub acdc: u8,
    /// Position 9.
    pub status: u8,
}

impl Ut804Fields {
    /// Whether these are the positions of packet `p`.
    pub open spec fn of_packet(&self, p: Seq<u8>) -> bool {
        &&& self.nibbles@ == nibbles_of(p)
        &&& self.range == p[5] & 0x0F
        &&& self.mode == p[6] & 0x0F
        &&& self.acdc == p[7] & 0x0F
        &&& self.status == p[8] & 0x0F
    }

    /// Fails on anything that is not one whole packet.
    pub fn decode(packet: &[u8]) -> (r: Result<Self, Error>)
        ensures
            !whole_packet(packet@) ==> r == Err::<Self, Error>(Error::NotAPacket),
            whole_packet(packet@) ==> (r matches Ok(f) && f.of_packet(packet@)),
    {
        let nibbles = match low_nibbles(packet) {
            Ok(n) => n,
            Err(e) => {
                return Err(e);
            },
        };
        Ok(
            Self {
                nibbles,
                range: nibbles[5],
                mode: nibbles[6],
                acdc: nibbles[7],
                status: nibbles[8],
            },
        )
    }

    /// Status bit 2: the minus sign.
    pub fn sign_bit(&self) -> (b: bool)
        ensures
            b == (self.status & 0x4 != 0),
    {
        self.status & 0x4 != 0
    }

    /// In frequency mode the sign bit selects the duty-cycle display: a
    /// negative frequency is impossible, so the bit is reused.
    pub fn duty(&self) -> (b: bool)
        ensures
            b == (self.mode == 0xC && self.status & 0x4 != 0),
    {
        self.mode == 0xC && self.sign_bit()
    }

    /// The coupling position 8 names.
    pub fn coupling(&self) -> (c: Option<Coupling>)
        ensures
            c == ut804_coupling(self.mode, self.acdc),
    {
        match self.acdc {
            1 => Some(Coupling::Ac),
            2 => Some(Coupling::Dc),
            3 => Some(Coupling::AcDc),
            0 => if super::model::ut804_default_dc(self.mode) {
                Some(Coupling::Dc)
            } else {
                None
            },
            _ => None,
        }
    }
}

/// A UT803 packet's positions.
pub struct Ut803Fields {
    /// Positions 1-11, numbered as the UT804's (`nibbles[k-1]` is position
    /// k): the fixed `0xA`, data bytes 1-9, the fixed `0xD`.
    pub nibbles: [u8; PACKET_LEN],
    /// Position 2.
    pub range: u8,
    /// Position 7.
    pub mode: u8,
    /// Position 8: alt, sign, overload.
    pub nib8: u8,
    /// Position 9: HOLD and indicators.
    pub nib9: u8,
    /// Position 10: DC, AC, AUTO.
    pub nib10: u8,
}

impl Ut803Fields {
    /// Whether these are the positions of packet `p`.
    pub open spec fn of_packet(&self, p: Seq<u8>) -> bool {
        &&& self.nibbles@ == ut803_positions(p)
        &&& self.range == p[0] & 0x0F
        &&& self.mode == p[5] & 0x0F
        &&& self.nib8 == p[6] & 0x0F
        &&& self.nib9 == p[7] & 0x0F
        &&& self.nib10 == p[8] & 0x0F
    }

    /// Fails on anything that is not one whole packet.
    pub fn decode(packet: &[u8]) -> (r: Result<Self, Error>)
        ensures
            !whole_packet(packet@) ==> r == Err::<Self, Error>(Error::NotAPacket),
            whole_packet(packet@) ==> (r matches Ok(f) && f.of_packet(packet@)),
    {
        let w = match low_nibbles(packet) {
            Ok(n) => n,
            Err(e) => {
                return Err(e);
            },
        };
        let nibbles: [u8; PACKET_LEN] = [0xA, w[0], w[1], w[2], w[3], w[4], w[5], w[6], w[7], w[8], 0xD];
        assert(nibbles@ =~= ut803_positions(packet@));
        Ok(
            Self {
                nibbles,
                range: nibbles[1],
                mode: nibbles[6],
                nib8: nibbles[7],
                nib9: nibbles[8],
                nib10: nibbles[9],
            },
        )
    }

    /// Position 8 bit 3: RPM for frequency, °C for temperature.
    pub fn alt(&self) -> (b: bool)
        ensures
            b == (self.nib8 & 0x8 != 0),
    {
        self.nib8 & 0x8 != 0
    }

    /// The coupling position 10 names.
    pub fn coupling(&self) -> (c: Option<Coupling>)
        ensures
            c == ut803_coupling(self.nib10),
    {
        let dc = self.nib10 & 0x8 != 0;
        let ac = self.nib10 & 0x4 != 0;
        if dc && !ac {
            Some(Coupling::Dc)
        } else if !dc && ac {
            Some(Coupling::Ac)
        } else if dc && ac {
            Some(Coupling::AcDc)
        } else {
            None
        }
    }
}

} // verus!
