//! The UT803/UT804 bench meters' 11-byte packet stream, which the UT71 and
//! the Voltcraft VC920/VC940/VC960 handhelds speak too.
//!
//! UT804 layout (position k is byte k): positions 1-5 digits (MSD first,
//! `0xA` blank), 6 range, 7 mode, 8 AC/DC (0 default, 1 AC, 2 DC, 3 AC+DC),
//! 9 status (bit 2 the minus sign, or duty in frequency mode; bits 1-0 AUTO
//! when 1). UT803 layout (position k is byte k-1): 2 range, 3-6 digits, 7
//! mode, 8 alt/sign/overload, 9 HOLD, 10 DC/AC/AUTO.
pub mod capture;
pub mod capture_laws;
pub mod digits;
pub mod fields;
pub mod laws;
pub mod model;
pub mod packet;
pub mod parse;
pub mod reports;
pub mod sheets;
pub mod spec_tables;

use crate::measurement::{Error, Measurement};
use crate::protocol::{DeviceProfile, Evidence, Stability};
use crate::specs::{AccuracyBand, ModeSpecInfo, RangeSpec, find_row, lemma_row_of_in_bounds};
use capture::{ut80x_capture_steps, ut80x_steps};
use crate::protocol::CaptureStep;
use fields::{Ut803Fields, Ut804Fields};
use model::{Model, ut803_mode_info, ut804_mode_info};
use spec_tables::{SpecSheet, ut80x_row_of, ut80x_spec_of, ut803_spec_table, ut804_has_rows, ut804_spec_table};
use packet::{extract_packet, nibbles_of, packet_at, whole_packet};
use parse::{parse_measurement_ut803, parse_ut804_layout, ut803_parsed, ut804_parsed};
use reports::{
    parse_measurement_ut803_reporting, parse_ut804_layout_reporting, reports_are,
    ut803_report_kinds, ut804_report_kinds,
};
use vstd::prelude::*;

verus! {

/// Detection on the packet stream: a packet does not name its model, and
/// the UT804 is the one heard at the bridge's 2400 baud start-up rate (the
/// UT71 and VC9x0 send its packets too), so any whole packet in `buf` is
/// taken for a UT804; no whole packet is no evidence.
pub fn recognise(buf: &[u8]) -> (r: Option<Evidence>)
    ensures
        (exists|t: int| packet_at(buf@, t)) ==> r == Some(
            Evidence::Model { id: "ut804", reported_name: None },
        ),
        !(exists|t: int| packet_at(buf@, t)) ==> r is None,
{
    match extract_packet(buf) {
        Ok(Some(_)) => Some(Evidence::Model { id: "ut804", reported_name: None }),
        _ => None,
    }
}

/// What a packet from `model` reads as: the UT803's layout on the UT803,
/// the UT804's on every other model.
pub open spec fn model_parsed(model: Model, p: Seq<u8>, r: Result<Measurement, Error>) -> bool {
    if !whole_packet(p) {
        r == Err::<Measurement, Error>(Error::NotAPacket)
    } else if model == Model::Ut803 {
        ut803_parsed(p, r)
    } else {
        ut804_parsed(model, p, r)
    }
}

/// The protocol of the meters on the 11-byte packet stream: the UT803/UT804
/// bench meters, and the UT71 and Voltcraft VC9x0 handhelds that send the
/// UT804's packets. The meters take no commands.
pub struct Ut80xProtocol {
    model: Model,
    profile: DeviceProfile,
}

impl Ut80xProtocol {
    /// The model the packets are read for.
    pub closed spec fn spec_model(&self) -> Model {
        self.model
    }

    /// The profile it was made with.
    pub closed spec fn spec_profile(&self) -> DeviceProfile {
        self.profile
    }

    /// Whether the profile is the family's for a model named `model_name`,
    /// checked under `issue`.
    pub open spec fn profiled(&self, model_name: &'static str, stability: Stability, issue: u16) -> bool {
        &&& self.spec_profile().family_name == "UT803/UT804"
        &&& self.spec_profile().model_name == model_name
        &&& self.spec_profile().stability == stability
        &&& self.spec_profile().supported_commands@.len() == 0
        &&& self.spec_profile().max_aux_values == 0
        &&& self.spec_profile().verification_issue == Some(issue)
    }

    fn new(model: Model, model_name: &'static str, stability: Stability, verification_issue: u16) -> (p: Self)
        ensures
            p.spec_model() == model,
            p.profiled(model_name, stability, verification_issue),
    {
        Self {
            model,
            profile: DeviceProfile {
                family_name: "UT803/UT804",
                model_name,
                stability,
                supported_commands: Vec::new(),
                max_aux_values: 0,
                verification_issue: Some(verification_issue),
            },
        }
    }

    /// The UT803, its own layout at 19200 baud; unconfirmed on hardware.
    pub fn new_ut803() -> (p: Self)
        ensures
            p.spec_model() == Model::Ut803,
            p.profiled("UNI-T UT803", Stability::Experimental, 15),
    {
        Self::new(Model::Ut803, "UNI-T UT803", Stability::Experimental, 15)
    }

    /// The UT804, confirmed on hardware.
    pub fn new_ut804() -> (p: Self)
        ensures
            p.spec_model() == Model::Ut804,
            p.profiled("UNI-T UT804", Stability::Verified, 16),
    {
        Self::new(Model::Ut804, "UNI-T UT804", Stability::Verified, 16)
    }

    /// The UT71A/B.
    pub fn new_ut71ab() -> (p: Self)
        ensures
            p.spec_model() == Model::Ut71Ab,
            p.profiled("UNI-T UT71A/B", Stability::Experimental, 22),
    {
        Self::new(Model::Ut71Ab, "UNI-T UT71A/B", Stability::Experimental, 22)
    }

    /// The UT71C/D/E.
    pub fn new_ut71cde() -> (p: Self)
        ensures
            p.spec_model() == Model::Ut71Cde,
            p.profiled("UNI-T UT71C/D/E", Stability::Experimental, 22),
    {
        Self::new(Model::Ut71Cde, "UNI-T UT71C/D/E", Stability::Experimental, 22)
    }

    /// The Voltcraft VC920/VC940/VC960.
    pub fn new_vc920() -> (p: Self)
        ensures
            p.spec_model() == Model::Vc920,
            p.profiled("Voltcraft VC920/VC940/VC960", Stability::Experimental, 23),
    {
        Self::new(Model::Vc920, "Voltcraft VC920/VC940/VC960", Stability::Experimental, 23)
    }

    /// The model the packets are read for.
    pub fn model(&self) -> (m: Model)
        ensures
            m == self.spec_model(),
    {
        self.model
    }

    /// What starting a session takes, in milliseconds to wait after switching
    /// the CH9325 bridge to its 19200-baud fallback rate; `None` where the
    /// bridge's 2400-baud start-up rate is the meter's own. Nothing is sent to
    /// the meter either way: it streams once its SEND or RS232 button is on.
    /// The UT803 talks at 19200, which the bridge only reaches on its own when
    /// nothing answers at 2400, and the bridge reports even while the meter is
    /// silent; the UT804 and the handhelds talk at 2400.
    pub fn init_rate_switch_ms(&self) -> (r: Option<u64>)
        ensures
            self.spec_model() == Model::Ut803 ==> r == Some(100u64),
            self.spec_model() != Model::Ut803 ==> r is None,
    {
        match self.model {
            Model::Ut803 => Some(100),
            _ => None,
        }
    }

    /// The profile of the meter.
    pub fn profile(&self) -> (p: &DeviceProfile)
        ensures
            *p == self.spec_profile(),
    {
        &self.profile
    }

    /// Parse one whole packet with the model's layout; anything else is
    /// refused.
    pub fn parse_payload(&self, payload: &[u8]) -> (r: Result<Measurement, Error>)
        ensures
            model_parsed(self.spec_model(), payload@, r),
    {
        match self.model {
            Model::Ut803 => parse_measurement_ut803(payload),
            Model::Ut804 | Model::Ut71Ab | Model::Ut71Cde | Model::Vc920 => parse_ut804_layout(
                self.model,
                payload,
            ),
        }
    }

    /// Parse one whole packet with the model's layout, with what it raises
    /// under the model's registry id.
    pub fn parse_payload_reporting(&self, payload: &[u8]) -> (r: (Result<Measurement, Error>, Vec<String>))
        ensures
            model_parsed(self.spec_model(), payload@, r.0),
            !whole_packet(payload@) ==> r.1@.len() == 0,
            whole_packet(payload@) ==> reports_are(
                r.1@,
                model::model_id(self.spec_model()),
                if self.spec_model() == Model::Ut803 {
                    ut803_report_kinds(payload@)
                } else {
                    ut804_report_kinds(payload@)
                },
                nibbles_of(payload@).take(9),
            ),
    {
        match self.model {
            Model::Ut803 => parse_measurement_ut803_reporting(payload),
            Model::Ut804 | Model::Ut71Ab | Model::Ut71Cde | Model::Vc920 => parse_ut804_layout_reporting(
                self.model,
                payload,
            ),
        }
    }

    /// The steps a guided capture walks on the model.
    pub fn capture_steps(&self) -> (v: Vec<CaptureStep>)
        ensures
            v@ == ut80x_capture_steps(self.spec_model()),
    {
        ut80x_steps(self.model)
    }

    /// The manual table for reading `m`, decoded again from its payload
    /// (the coupling, alt and sign bits that pick the table are not in the
    /// reading's fields), with the range byte whose row the reading takes,
    /// or `None` where it takes the table's mode data only.
    pub fn spec_table(&self, m: &Measurement) -> (r: Option<(SpecSheet, Option<u8>)>)
        ensures
            r == ut80x_spec_of(self.spec_model(), m.raw_payload@),
    {
        match self.model {
            Model::Ut803 => {
                let f = match Ut803Fields::decode(m.raw_payload.as_slice()) {
                    Ok(f) => f,
                    Err(_) => {
                        return None;
                    },
                };
                if ut803_mode_info(f.mode, f.range, f.alt()).is_none() {
                    return None;
                }
                match ut803_spec_table(f.mode, f.range, f.alt(), f.coupling()) {
                    Some(t) => Some((SpecSheet::Ut803(t), Some(f.range))),
                    None => None,
                }
            },
            Model::Ut804 => {
                let f = match Ut804Fields::decode(m.raw_payload.as_slice()) {
                    Ok(f) => f,
                    Err(_) => {
                        return None;
                    },
                };
                if ut804_mode_info(f.mode, f.range).is_none() {
                    return None;
                }
                let coupling = f.coupling();
                match ut804_spec_table(f.mode, coupling, f.duty()) {
                    Some(t) => {
                        let row = if ut804_has_rows(coupling) {
                            Some(f.range)
                        } else {
                            None
                        };
                        Some((SpecSheet::Ut804(t), row))
                    },
                    None => None,
                }
            },
            Model::Ut71Ab | Model::Ut71Cde | Model::Vc920 => None,
        }
    }

    /// The manual row reading `m` takes, as its table and the row's index
    /// there; `None` where it takes none.
    pub fn spec_row(&self, m: &Measurement) -> (r: Option<(SpecSheet, usize)>)
        ensures
            match ut80x_row_of(self.spec_model(), m.raw_payload@) {
                Some((t, i)) => r == Some((t, i as usize)),
                None => r is None,
            },
    {
        match self.spec_table(m) {
            Some((t, Some(range))) => {
                let rows = t.rows();
                match find_row(&rows, range) {
                    Some(i) => Some((t, i)),
                    None => None,
                }
            },
            _ => None,
        }
    }

    /// The resolution and accuracy of the row reading `m` takes.
    pub fn spec_info(&self, m: &Measurement) -> (r: Option<(RangeSpec, Vec<AccuracyBand>)>)
        ensures
            match ut80x_row_of(self.spec_model(), m.raw_payload@) {
                Some((t, i)) => r matches Some((row, bands)) && row == t.spec_rows()[i] && bands@
                    == t.spec_bands(i),
                None => r is None,
            },
    {
        match self.spec_row(m) {
            Some((t, i)) => {
                let rows = t.rows();
                proof {
                    assert(ut80x_row_of(self.spec_model(), m.raw_payload@) matches Some((_, j)) && 0 <= j < t.spec_rows().len()) by {
                        let (tt, range) = ut80x_spec_of(self.spec_model(), m.raw_payload@)->0;
                        lemma_row_of_in_bounds(tt.spec_rows(), range->0, 0);
                    }
                }
                Some((rows[i], t.bands(i)))
            },
            None => None,
        }
    }

    /// What the manual table of reading `m` says of the whole mode.
    pub fn mode_spec_info(&self, m: &Measurement) -> (r: Option<ModeSpecInfo>)
        ensures
            match ut80x_spec_of(self.spec_model(), m.raw_payload@) {
                Some((t, _)) => r == Some(t.spec_mode()),
                None => r is None,
            },
    {
        match self.spec_table(m) {
            Some((t, _)) => Some(t.mode_info()),
            None => None,
        }
    }
}

} // verus!
