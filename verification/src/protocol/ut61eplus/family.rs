//! The UT61E+/UT61B+/UT61D+/UT161 meters: which model takes which range
//! table, the names their commands go by, and the frames besides a reading
//! that the meter sends.
use super::command::{Command, command_byte, command_frame};
use super::mode::{Mode, mode_of_byte};
use super::parse::{parse_measurement, ut61_parsed};
use super::tables::ut61b_plus::Ut61bPlusTable;
use super::tables::ut61d_plus::Ut61dPlusTable;
use super::tables::ut61e_plus::Ut61ePlusTable;
use super::tables::{DeviceTable, RangeInfo, family_command_list, family_commands};
use crate::measurement::{Error, Measurement};
use crate::protocol::{DeviceProfile, Stability};
use super::capture::{family_capture_steps, family_steps, keep_reachable, keep_reachable_steps};
use crate::protocol::CaptureStep;
use crate::text::{all_ascii, ascii_chars, lossy_string, lowercase, str_eq, to_lowercase};
use vstd::prelude::*;

verus! {

/// The range table a protocol instance reads with: the UT161 meters share
/// their UT61x+ counterparts' tables.
#[derive(Debug, Clone, Copy)]
pub enum FamilyTable {
    Ut61ePlus(Ut61ePlusTable),
    Ut61bPlus(Ut61bPlusTable),
    Ut61dPlus(Ut61dPlusTable),
}

impl DeviceTable for FamilyTable {
    open spec fn spec_ranges(&self, mode: Mode) -> Seq<RangeInfo> {
        match self {
            FamilyTable::Ut61ePlus(t) => t.spec_ranges(mode),
            FamilyTable::Ut61bPlus(t) => t.spec_ranges(mode),
            FamilyTable::Ut61dPlus(t) => t.spec_ranges(mode),
        }
    }

    open spec fn spec_model_name(&self) -> &'static str {
        match self {
            FamilyTable::Ut61ePlus(t) => t.spec_model_name(),
            FamilyTable::Ut61bPlus(t) => t.spec_model_name(),
            FamilyTable::Ut61dPlus(t) => t.spec_model_name(),
        }
    }

    open spec fn spec_modes(&self) -> Seq<Mode> {
        match self {
            FamilyTable::Ut61ePlus(t) => t.spec_modes(),
            FamilyTable::Ut61bPlus(t) => t.spec_modes(),
            FamilyTable::Ut61dPlus(t) => t.spec_modes(),
        }
    }

    open spec fn spec_peak_modes(&self) -> Seq<Mode> {
        match self {
            FamilyTable::Ut61ePlus(t) => t.spec_peak_modes(),
            FamilyTable::Ut61bPlus(t) => t.spec_peak_modes(),
            FamilyTable::Ut61dPlus(t) => t.spec_peak_modes(),
        }
    }

    open spec fn spec_dial_modes(&self) -> Seq<Mode> {
        match self {
            FamilyTable::Ut61ePlus(t) => t.spec_dial_modes(),
            FamilyTable::Ut61bPlus(t) => t.spec_dial_modes(),
            FamilyTable::Ut61dPlus(t) => t.spec_dial_modes(),
        }
    }

    open spec fn spec_range_is_fixed(&self, mode: Mode) -> bool {
        match self {
            FamilyTable::Ut61ePlus(t) => t.spec_range_is_fixed(mode),
            FamilyTable::Ut61bPlus(t) => t.spec_range_is_fixed(mode),
            FamilyTable::Ut61dPlus(t) => t.spec_range_is_fixed(mode),
        }
    }

    open spec fn spec_commands(&self) -> Seq<&'static str> {
        match self {
            FamilyTable::Ut61ePlus(t) => t.spec_commands(),
            FamilyTable::Ut61bPlus(t) => t.spec_commands(),
            FamilyTable::Ut61dPlus(t) => t.spec_commands(),
        }
    }

    fn ranges(&self, mode: Mode) -> (v: Vec<RangeInfo>) {
        match self {
            FamilyTable::Ut61ePlus(t) => t.ranges(mode),
            FamilyTable::Ut61bPlus(t) => t.ranges(mode),
            FamilyTable::Ut61dPlus(t) => t.ranges(mode),
        }
    }

    fn model_name(&self) -> (s: &'static str) {
        match self {
            FamilyTable::Ut61ePlus(t) => t.model_name(),
            FamilyTable::Ut61bPlus(t) => t.model_name(),
            FamilyTable::Ut61dPlus(t) => t.model_name(),
        }
    }

    fn modes(&self) -> (v: Vec<Mode>) {
        match self {
            FamilyTable::Ut61ePlus(t) => t.modes(),
            FamilyTable::Ut61bPlus(t) => t.modes(),
            FamilyTable::Ut61dPlus(t) => t.modes(),
        }
    }

    fn peak_modes(&self) -> (v: Vec<Mode>) {
        match self {
            FamilyTable::Ut61ePlus(t) => t.peak_modes(),
            FamilyTable::Ut61bPlus(t) => t.peak_modes(),
            FamilyTable::Ut61dPlus(t) => t.peak_modes(),
        }
    }

    fn dial_modes(&self) -> (v: Vec<Mode>) {
        match self {
            FamilyTable::Ut61ePlus(t) => t.dial_modes(),
            FamilyTable::Ut61bPlus(t) => t.dial_modes(),
            FamilyTable::Ut61dPlus(t) => t.dial_modes(),
        }
    }

    fn range_is_fixed(&self, mode: Mode) -> (b: bool) {
        match self {
            FamilyTable::Ut61ePlus(t) => t.range_is_fixed(mode),
            FamilyTable::Ut61bPlus(t) => t.range_is_fixed(mode),
            FamilyTable::Ut61dPlus(t) => t.range_is_fixed(mode),
        }
    }

    fn commands(&self) -> (v: Vec<&'static str>) {
        match self {
            FamilyTable::Ut61ePlus(t) => t.commands(),
            FamilyTable::Ut61bPlus(t) => t.commands(),
            FamilyTable::Ut61dPlus(t) => t.commands(),
        }
    }
}

/// The profile of a family member named `model_name`: verified models
/// report as verified, the rest as experimental, and every model but the
/// UT61E+ keeps the family's verification issue open.
pub open spec fn family_profile(p: DeviceProfile, model_name: &'static str, verified: bool) -> bool {
    &&& p.family_name == "UT61+/UT161"
    &&& p.model_name == model_name
    &&& p.stability == (if verified {
        Stability::Verified
    } else {
        Stability::Experimental
    })
    &&& p.supported_commands@ == family_commands()
    &&& p.max_aux_values == 0
    &&& p.verification_issue == (if model_name@ != "UNI-T UT61E+"@ {
        Some(7u16)
    } else {
        None
    })
}

/// The table, reported model name and hardware verification of each model
/// string, already lower-cased: the UT161 meters take their UT61x+
/// counterparts' tables under names of their own, unverified.
pub open spec fn model_entry(s: Seq<char>) -> Option<(FamilyTable, &'static str, bool)> {
    if s == "ut61e+"@ {
        Some((FamilyTable::Ut61ePlus(Ut61ePlusTable), "UNI-T UT61E+", true))
    } else if s == "ut161e"@ {
        Some((FamilyTable::Ut61ePlus(Ut61ePlusTable), "UNI-T UT161E", false))
    } else if s == "ut61b+"@ {
        Some((FamilyTable::Ut61bPlus(Ut61bPlusTable), "UNI-T UT61B+", true))
    } else if s == "ut161b"@ {
        Some((FamilyTable::Ut61bPlus(Ut61bPlusTable), "UNI-T UT161B", false))
    } else if s == "ut61d+"@ {
        Some((FamilyTable::Ut61dPlus(Ut61dPlusTable), "UNI-T UT61D+", false))
    } else if s == "ut161d"@ {
        Some((FamilyTable::Ut61dPlus(Ut61dPlusTable), "UNI-T UT161D", false))
    } else {
        None
    }
}

/// The command each name the family's buttons go by sends.
pub open spec fn command_named(s: Seq<char>) -> Option<Command> {
    if s == "hold"@ {
        Some(Command::Hold)
    } else if s == "minmax"@ {
        Some(Command::MinMax)
    } else if s == "exit_minmax"@ {
        Some(Command::ExitMinMax)
    } else if s == "range"@ {
        Some(Command::Range)
    } else if s == "auto"@ {
        Some(Command::Auto)
    } else if s == "rel"@ {
        Some(Command::Rel)
    } else if s == "select2"@ {
        Some(Command::Select2)
    } else if s == "select"@ {
        Some(Command::Select)
    } else if s == "light"@ {
        Some(Command::Light)
    } else if s == "peak"@ {
        Some(Command::PeakMinMax)
    } else if s == "exit_peak"@ {
        Some(Command::ExitPeak)
    } else {
        None
    }
}

/// A flag command whose states a mode can be driven through.
#[derive(Debug, Clone, Copy, PartialEq, Eq, Structural)]
pub enum FlagSetting {
    Hold,
    Rel,
    MinMax,
    Peak,
}

/// A button the mode, range and flag drivers press.
#[derive(Debug, Clone, Copy, PartialEq, Eq, Structural)]
pub enum CycleButton {
    Select,
    Hz,
    Range,
    Hold,
    Rel,
    MinMax,
    Peak,
}

/// The command each button sends: the orange SELECT, the Hz/USB SELECT
/// (`Select2`), RANGE, HOLD, REL, MIN/MAX and Peak.
pub open spec fn button_command(b: CycleButton) -> Command {
    match b {
        CycleButton::Select => Command::Select,
        CycleButton::Hz => Command::Select2,
        CycleButton::Range => Command::Range,
        CycleButton::Hold => Command::Hold,
        CycleButton::Rel => Command::Rel,
        CycleButton::MinMax => Command::MinMax,
        CycleButton::Peak => Command::PeakMinMax,
    }
}

/// The command that leaves a flag state: MIN/MAX and Peak have exit
/// commands of their own; HOLD and REL are pressed back off, so they have
/// none.
pub open spec fn exit_command_of(setting: FlagSetting) -> Option<Command> {
    match setting {
        FlagSetting::MinMax => Some(Command::ExitMinMax),
        FlagSetting::Peak => Some(Command::ExitPeak),
        _ => None,
    }
}

/// Modes where a HOLD press leaves the flag where it was: NCV.
pub open spec fn hold_dead(m: Mode) -> bool {
    m == Mode::Ncv
}

/// Modes where a REL press leaves the flag where it was.
pub open spec fn rel_dead(m: Mode) -> bool {
    m == Mode::Continuity || m == Mode::Diode || m == Mode::Hz || m == Mode::DutyCycle || m
        == Mode::Ncv || m == Mode::AcDcV
}

/// Modes where a MIN/MAX press leaves the flags where they were.
pub open spec fn minmax_dead(m: Mode) -> bool {
    m == Mode::Continuity || m == Mode::Diode || m == Mode::Capacitance || m == Mode::Hz || m
        == Mode::DutyCycle || m == Mode::Ncv
}

/// The states a flag command drives `mode` through on a model whose table
/// is `table`: none where the meter ignores the command, off/on for HOLD and
/// REL, off/MAX/MIN for MIN/MAX, and off/MAX/MIN for Peak in the modes where
/// the model has it. A mode word past one byte, or one that names no mode,
/// has no dead list to be on.
pub open spec fn flag_states_of(table: FamilyTable, setting: FlagSetting, mode: u16) -> Seq<u16> {
    let named: Option<Mode> = if mode < 256 {
        mode_of_byte(mode as u8)
    } else {
        None
    };
    let dead = |f: spec_fn(Mode) -> bool| named matches Some(m) && f(m);
    match setting {
        FlagSetting::Hold => if dead(|m| hold_dead(m)) {
            seq![]
        } else {
            seq![0u16, 1u16]
        },
        FlagSetting::Rel => if dead(|m| rel_dead(m)) {
            seq![]
        } else {
            seq![0u16, 1u16]
        },
        FlagSetting::MinMax => if dead(|m| minmax_dead(m)) {
            seq![]
        } else {
            seq![0u16, 1u16, 2u16]
        },
        FlagSetting::Peak => if named matches Some(m) && table.spec_peak_modes().contains(m) {
            seq![0u16, 1u16, 2u16]
        } else {
            seq![]
        },
    }
}

/// The protocol of the UT61E+/UT61B+/UT61D+/UT161 family.
pub struct Ut61PlusProtocol {
    table: FamilyTable,
    profile: DeviceProfile,
    /// Readings arrive unasked: a Bluetooth adapter polls the meter itself.
    streaming: bool,
}

impl Ut61PlusProtocol {
    /// Whether readings arrive unasked.
    pub closed spec fn spec_streaming(&self) -> bool {
        self.streaming
    }

    /// The range table the instance reads with.
    pub closed spec fn spec_table(&self) -> FamilyTable {
        self.table
    }

    /// The profile it was made with.
    pub closed spec fn spec_profile(&self) -> DeviceProfile {
        self.profile
    }

    /// A UT61E+.
    pub fn new() -> (p: Self)
        ensures
            p.spec_table() == FamilyTable::Ut61ePlus(Ut61ePlusTable),
            family_profile(p.spec_profile(), "UNI-T UT61E+", true),
            !p.spec_streaming(),
    {
        Self::with_profile(FamilyTable::Ut61ePlus(Ut61ePlusTable::new()), "UNI-T UT61E+", true)
    }

    /// A protocol instance for a model string, matched case-insensitively:
    /// "ut61e+" and "ut61b+" (both verified on hardware), "ut61d+", and the
    /// UT161E/B/D, which take their UT61x+ counterparts' tables but report
    /// their own names, unverified. `None` for any other string.
    pub fn for_model(model: &str) -> (r: Option<Self>)
        ensures
            match model_entry(lowercase(model@)) {
                None => r is None,
                Some((table, name, verified)) => r matches Some(p) && p.spec_table() == table
                    && family_profile(p.spec_profile(), name, verified) && !p.spec_streaming(),
            },
    {
        let lower = to_lowercase(model);
        let s = lower.as_str();
        if str_eq(s, "ut61e+") {
            Some(Self::with_profile(FamilyTable::Ut61ePlus(Ut61ePlusTable::new()), "UNI-T UT61E+", true))
        } else if str_eq(s, "ut161e") {
            Some(Self::with_profile(FamilyTable::Ut61ePlus(Ut61ePlusTable::new()), "UNI-T UT161E", false))
        } else if str_eq(s, "ut61b+") {
            Some(Self::with_profile(FamilyTable::Ut61bPlus(Ut61bPlusTable::new()), "UNI-T UT61B+", true))
        } else if str_eq(s, "ut161b") {
            Some(Self::with_profile(FamilyTable::Ut61bPlus(Ut61bPlusTable::new()), "UNI-T UT161B", false))
        } else if str_eq(s, "ut61d+") {
            Some(Self::with_profile(FamilyTable::Ut61dPlus(Ut61dPlusTable::new()), "UNI-T UT61D+", false))
        } else if str_eq(s, "ut161d") {
            Some(Self::with_profile(FamilyTable::Ut61dPlus(Ut61dPlusTable::new()), "UNI-T UT161D", false))
        } else {
            None
        }
    }

    /// The steps a guided capture walks on the model: the family's, each
    /// verified where the model is, keeping those its dial reaches.
    pub fn capture_steps(&self) -> (v: Vec<CaptureStep>)
        ensures
            v@ == keep_reachable(
                self.spec_table().spec_dial_modes(),
                family_steps(self.spec_profile().stability == Stability::Verified),
            ),
    {
        let hw = match self.profile.stability {
            Stability::Verified => true,
            Stability::Experimental => false,
        };
        let steps = family_capture_steps(hw);
        let dial = self.table.dial_modes();
        keep_reachable_steps(&dial, &steps)
    }

    /// An instance reading with `table` and reporting as `model_name`.
    pub fn with_profile(table: FamilyTable, model_name: &'static str, verified: bool) -> (p: Self)
        ensures
            p.spec_table() == table,
            family_profile(p.spec_profile(), model_name, verified),
            !p.spec_streaming(),
    {
        let stability = if verified {
            Stability::Verified
        } else {
            Stability::Experimental
        };
        let verification_issue = if !str_eq(model_name, "UNI-T UT61E+") {
            Some(7)
        } else {
            None
        };
        Self {
            table,
            profile: DeviceProfile {
                family_name: "UT61+/UT161",
                model_name,
                stability,
                supported_commands: family_command_list(),
                max_aux_values: 0,
                verification_issue,
            },
            streaming: false,
        }
    }

    /// The profile of the meter.
    pub fn profile(&self) -> (p: &DeviceProfile)
        ensures
            *p == self.spec_profile(),
    {
        &self.profile
    }

    /// Start a session. A cable needs nothing; over Bluetooth the adapter
    /// is told to poll the meter itself and stream the readings, so from
    /// then on a request is a read, not a write. Returns the frame to send,
    /// if any.
    pub fn init(&mut self, over_bluetooth: bool) -> (r: Option<[u8; 6]>)
        ensures
            over_bluetooth ==> (r matches Some(f) && f@ == command_frame(command_byte(Command::StartStream))),
            !over_bluetooth ==> r is None,
            final(self).spec_streaming() == (old(self).spec_streaming() || over_bluetooth),
            final(self).spec_table() == old(self).spec_table(),
            final(self).spec_profile() == old(self).spec_profile(),
    {
        if over_bluetooth {
            self.streaming = true;
            Some(Command::StartStream.encode())
        } else {
            None
        }
    }

    /// The frames to send before reading the answer to a request for a
    /// reading. Over a cable every reading is polled. A stream is only read,
    /// unless the last read found it silent: a start command can be lost on
    /// the adapter, so the stream is started again and the reading polled,
    /// which an adapter that ignores the start still answers.
    pub fn request_frames(&self, after_silence: bool) -> (v: Vec<[u8; 6]>)
        ensures
            !self.spec_streaming() ==> v@.len() == 1 && v@[0]@ == command_frame(
                command_byte(Command::GetMeasurement),
            ),
            self.spec_streaming() && !after_silence ==> v@.len() == 0,
            self.spec_streaming() && after_silence ==> v@.len() == 2 && v@[0]@ == command_frame(
                command_byte(Command::StartStream),
            ) && v@[1]@ == command_frame(command_byte(Command::GetMeasurement)),
    {
        let mut v: Vec<[u8; 6]> = Vec::new();
        if self.streaming {
            if after_silence {
                v.push(Command::StartStream.encode());
                v.push(Command::GetMeasurement.encode());
            }
        } else {
            v.push(Command::GetMeasurement.encode());
        }
        v
    }

    /// Whether readings arrive unasked.
    pub fn is_streaming(&self) -> (b: bool)
        ensures
            b == self.spec_streaming(),
    {
        self.streaming
    }

    /// How long a button press waits for the meter's ack, in milliseconds:
    /// a second over a cable, where the slowest ack on record took 415 ms,
    /// and 2.5 s over the Bluetooth adapter, whose ack came 1.26 s after the
    /// command on a fresh link.
    pub fn press_ack_timeout_ms(&self) -> (ms: u64)
        ensures
            ms == if self.spec_streaming() {
                2500u64
            } else {
                1000u64
            },
    {
        if self.streaming {
            2500
        } else {
            1000
        }
    }

    /// How many frames a Get Name request reads before it gives up: the
    /// ack, the name, and one more for a reading a bridge held from before
    /// the request; a streaming adapter can have a few readings queued ahead
    /// of the reply, so it gets ten.
    pub fn name_read_budget(&self) -> (n: u32)
        ensures
            n == if self.spec_streaming() {
                10u32
            } else {
                3u32
            },
    {
        if self.streaming {
            10
        } else {
            3
        }
    }

    /// How long to leave the meter alone after it acks a button press
    /// before asking what state it is in, in milliseconds, and how many
    /// readings to take before concluding the press changed nothing: 150 ms
    /// and 3. A press can land while a frame is already on its way, so the
    /// reading right after it may still show the old state.
    pub fn settle(&self) -> (r: (u64, u32))
        ensures
            r == (150u64, 3u32),
    {
        (150, 3)
    }

    /// The range table the instance reads with.
    pub fn table(&self) -> (t: &FamilyTable)
        ensures
            *t == self.spec_table(),
    {
        &self.table
    }

    /// Parse a measurement payload with the model's table.
    pub fn parse_payload(&self, payload: &[u8]) -> (r: Result<Measurement, Error>)
        ensures
            ut61_parsed(payload@, self.spec_table(), r),
    {
        parse_measurement(payload, &self.table)
    }

    /// The command a name the family's buttons go by sends; any other name
    /// is refused.
    pub fn command_from_name(name: &str) -> (r: Result<Command, Error>)
        ensures
            match command_named(name@) {
                Some(c) => r == Ok::<Command, Error>(c),
                None => r matches Err(Error::UnsupportedCommand(m)) && m@ == name@,
            },
    {
        if str_eq(name, "hold") {
            Ok(Command::Hold)
        } else if str_eq(name, "minmax") {
            Ok(Command::MinMax)
        } else if str_eq(name, "exit_minmax") {
            Ok(Command::ExitMinMax)
        } else if str_eq(name, "range") {
            Ok(Command::Range)
        } else if str_eq(name, "auto") {
            Ok(Command::Auto)
        } else if str_eq(name, "rel") {
            Ok(Command::Rel)
        } else if str_eq(name, "select2") {
            Ok(Command::Select2)
        } else if str_eq(name, "select") {
            Ok(Command::Select)
        } else if str_eq(name, "light") {
            Ok(Command::Light)
        } else if str_eq(name, "peak") {
            Ok(Command::PeakMinMax)
        } else if str_eq(name, "exit_peak") {
            Ok(Command::ExitPeak)
        } else {
            Err(Error::UnsupportedCommand(name.to_owned()))
        }
    }

    /// Which states each flag command can drive `mode` through on this
    /// model. HOLD is dead in NCV; REL in continuity, diode, Hz, duty, NCV
    /// and AC+DC V; MIN/MAX in continuity, diode, capacitance, Hz, duty and
    /// NCV; Peak works only in the model's peak modes.
    pub fn flag_states(&self, setting: FlagSetting, mode: u16) -> (v: Vec<u16>)
        ensures
            v@ == flag_states_of(self.spec_table(), setting, mode),
    {
        let named: Option<Mode> = if mode < 256 {
            match Mode::from_byte(mode as u8) {
                Ok(m) => Some(m),
                Err(_) => None,
            }
        } else {
            None
        };
        match setting {
            FlagSetting::Hold => match named {
                Some(Mode::Ncv) => Vec::new(),
                _ => vec![0, 1],
            },
            FlagSetting::Rel => match named {
                Some(Mode::Continuity) | Some(Mode::Diode) | Some(Mode::Hz) | Some(
                    Mode::DutyCycle,
                ) | Some(Mode::Ncv) | Some(Mode::AcDcV) => Vec::new(),
                _ => vec![0, 1],
            },
            FlagSetting::MinMax => match named {
                Some(Mode::Continuity) | Some(Mode::Diode) | Some(Mode::Capacitance) | Some(
                    Mode::Hz,
                ) | Some(Mode::DutyCycle) | Some(Mode::Ncv) => Vec::new(),
                _ => vec![0, 1, 2],
            },
            FlagSetting::Peak => match named {
                Some(m) => {
                    let peaks = self.table.peak_modes();
                    let mut found = false;
                    let mut i: usize = 0;
                    while i < peaks.len()
                        invariant
                            i <= peaks@.len(),
                            peaks@ == self.table.spec_peak_modes(),
                            found <==> exists|j: int| 0 <= j < i && peaks@[j] == m,
                        decreases peaks@.len() - i,
                    {
                        if peaks[i] == m {
                            found = true;
                        }
                        i = i + 1;
                    }
                    if found {
                        vec![0, 1, 2]
                    } else {
                        Vec::new()
                    }
                },
                None => Vec::new(),
            },
        }
    }
}

impl CycleButton {
    /// The command the button sends.
    pub fn command(self) -> (c: Command)
        ensures
            c == button_command(self),
    {
        match self {
            CycleButton::Select => Command::Select,
            CycleButton::Hz => Command::Select2,
            CycleButton::Range => Command::Range,
            CycleButton::Hold => Command::Hold,
            CycleButton::Rel => Command::Rel,
            CycleButton::MinMax => Command::MinMax,
            CycleButton::Peak => Command::PeakMinMax,
        }
    }
}

impl FlagSetting {
    /// The command that leaves the flag state, where the flag has one.
    pub fn exit_command(self) -> (c: Option<Command>)
        ensures
            c == exit_command_of(self),
    {
        match self {
            FlagSetting::MinMax => Some(Command::ExitMinMax),
            FlagSetting::Peak => Some(Command::ExitPeak),
            _ => None,
        }
    }
}

impl Default for Ut61PlusProtocol {
    fn default() -> (p: Self)
        ensures
            p.spec_table() == FamilyTable::Ut61ePlus(Ut61ePlusTable),
            family_profile(p.spec_profile(), "UNI-T UT61E+", true),
            !p.spec_streaming(),
    {
        Self::new()
    }
}

/// Whether a payload is the ack the meter answers every command with.
pub fn is_ack(payload: &[u8]) -> (b: bool)
    ensures
        b == (payload@ == seq![0xFFu8, 0x00u8]),
{
    if payload.len() == 2 && payload[0] == 0xFF && payload[1] == 0x00 {
        assert(payload@ =~= seq![0xFFu8, 0x00u8]);
        true
    } else {
        false
    }
}

/// The ack frame on the wire: the `FF 00` payload with its header, length
/// and checksum.
pub open spec fn ack_frame() -> Seq<u8> {
    seq![0xABu8, 0xCDu8, 0x04u8, 0xFFu8, 0x00u8, 0x02u8, 0x7Bu8]
}

/// Whether the ack frame lies whole anywhere in `bytes`.
pub open spec fn holds_ack(bytes: Seq<u8>) -> bool {
    exists|i: int| 0 <= i && i + 7 <= bytes.len() && #[trigger] bytes.subrange(i, i + 7) == ack_frame()
}

/// One step of waiting for a press's ack: `seen` is what earlier reads left
/// (the tail an ack could still start in), `read` what just arrived. The
/// answer is whether the ack is now whole in them, and the tail to keep:
/// their last six bytes, as a CP2110 can hand over the ack in two reads.
pub fn ack_wait_step(seen: &Vec<u8>, read: &[u8]) -> (r: (bool, Vec<u8>))
    ensures
        r.0 == holds_ack(seen@ + read@),
        r.1@ == last_six(seen@ + read@),
{
    let mut all: Vec<u8> = Vec::new();
    let mut i: usize = 0;
    while i < seen.len()
        invariant
            i <= seen@.len(),
            all@ == seen@.take(i as int),
        decreases seen@.len() - i,
    {
        all.push(seen[i]);
        i = i + 1;
        assert(all@ =~= seen@.take(i as int));
    }
    let mut j: usize = 0;
    while j < read.len()
        invariant
            j <= read@.len(),
            all@ == seen@ + read@.take(j as int),
        decreases read@.len() - j,
    {
        all.push(read[j]);
        j = j + 1;
        assert(all@ =~= seen@ + read@.take(j as int));
    }
    assert(all@ =~= seen@ + read@);
    let ghost both = all@;
    let n = all.len();
    let mut found = false;
    let mut k: usize = 0;
    if n >= 7 {
        while k <= n - 7
            invariant
                n == both.len(),
                n >= 7,
                all@ == both,
                k <= n - 6,
                found <==> exists|t: int| 0 <= t < k && #[trigger] both.subrange(t, t + 7) == ack_frame(),
            decreases n - k,
        {
            let hit = all[k] == 0xAB && all[k + 1] == 0xCD && all[k + 2] == 0x04 && all[k + 3] == 0xFF
                && all[k + 4] == 0x00 && all[k + 5] == 0x02 && all[k + 6] == 0x7B;
            proof {
                let w = both.subrange(k as int, k + 7);
                if hit {
                    assert(w =~= ack_frame());
                }
                if w == ack_frame() {
                    assert(w[0] == 0xAB && w[1] == 0xCD && w[2] == 0x04 && w[3] == 0xFF);
                    assert(w[4] == 0x00 && w[5] == 0x02 && w[6] == 0x7B);
                }
            }
            if hit {
                found = true;
            }
            k = k + 1;
        }
    }
    let keep_from: usize = if n > 6 {
        n - 6
    } else {
        0
    };
    let mut tail: Vec<u8> = Vec::new();
    let mut m: usize = keep_from;
    while m < n
        invariant
            keep_from <= m <= n,
            n == both.len(),
            all@ == both,
            tail@ == both.subrange(keep_from as int, m as int),
        decreases n - m,
    {
        tail.push(all[m]);
        m = m + 1;
        assert(tail@ =~= both.subrange(keep_from as int, m as int));
    }
    assert(tail@ =~= both.skip(keep_from as int));
    (found, tail)
}

/// Whether `b` is a printable ASCII character other than space.
pub open spec fn ascii_graphic(b: u8) -> bool {
    0x21 <= b <= 0x7E
}

/// Whether a payload is a Get Name reply: 3 to 20 printable ASCII bytes.
/// The length bounds keep the 14-byte readings and the 2-byte ack apart.
pub open spec fn is_name_reply(p: Seq<u8>) -> bool {
    3 <= p.len() <= 20 && forall|i: int| 0 <= i < p.len() ==> ascii_graphic(#[trigger] p[i])
}

/// The frames on this wire are told apart: no payload is both the ack and a
/// name reply, since the ack is two bytes and a name at least three.
pub proof fn the_ack_is_never_a_name(p: Seq<u8>)
    ensures
        !(p == seq![0xFFu8, 0x00u8] && is_name_reply(p)),
{
}

/// The model name in a Get Name reply, `None` for a payload that is not one.
pub fn name_from_reply(payload: &[u8]) -> (r: Option<String>)
    ensures
        is_name_reply(payload@) ==> (r matches Some(s) && s@ == ascii_chars(payload@)),
        !is_name_reply(payload@) ==> r is None,
{
    if payload.len() < 3 || payload.len() > 20 {
        return None;
    }
    let mut i: usize = 0;
    while i < payload.len()
        invariant
            i <= payload@.len(),
            forall|j: int| 0 <= j < i ==> ascii_graphic(#[trigger] payload@[j]),
        decreases payload@.len() - i,
    {
        if payload[i] < 0x21 || payload[i] > 0x7E {
            return None;
        }
        i = i + 1;
    }
    assert(all_ascii(payload@));
    Some(lossy_string(payload))
}

/// The last six bytes of `s`, or all of it where it is shorter: what a
/// wait for the ack keeps between reads.
pub open spec fn last_six(s: Seq<u8>) -> Seq<u8> {
    s.skip(if s.len() > 6 {
        s.len() - 6
    } else {
        0
    })
}

/// What a wait keeps after the reads `reads`, each step keeping
/// [`last_six`] of what it had and what it read, as [`ack_wait_step`] does.
pub open spec fn kept_after(reads: Seq<Seq<u8>>) -> Seq<u8>
    decreases reads.len(),
{
    if reads.len() == 0 {
        seq![]
    } else {
        last_six(kept_after(reads.drop_last()) + reads.last())
    }
}

/// Everything the reads `reads` brought, in order.
pub open spec fn all_read(reads: Seq<Seq<u8>>) -> Seq<u8>
    decreases reads.len(),
{
    if reads.len() == 0 {
        seq![]
    } else {
        all_read(reads.drop_last()) + reads.last()
    }
}

proof fn lemma_last_six_twice(a: Seq<u8>, b: Seq<u8>)
    ensures
        last_six(last_six(a) + b) == last_six(a + b),
{
    let x = a + b;
    let k: int = if a.len() > 6 {
        a.len() - 6
    } else {
        0
    };
    assert(last_six(a) + b =~= x.skip(k));
    let y = x.skip(k);
    let m: int = if y.len() > 6 {
        y.len() - 6
    } else {
        0
    };
    assert(y.skip(m) =~= x.skip(k + m));
    assert(last_six(a + b) =~= x.skip(k + m));
}

proof fn lemma_kept_is_last_six(reads: Seq<Seq<u8>>)
    ensures
        kept_after(reads) == last_six(all_read(reads)),
    decreases reads.len(),
{
    if reads.len() == 0 {
        assert(last_six(Seq::<u8>::empty()) =~= Seq::<u8>::empty());
    } else {
        lemma_kept_is_last_six(reads.drop_last());
        lemma_last_six_twice(all_read(reads.drop_last()), reads.last());
    }
}

proof fn lemma_ack_in_tail(a: Seq<u8>, b: Seq<u8>)
    requires
        !holds_ack(a),
    ensures
        holds_ack(last_six(a) + b) == holds_ack(a + b),
{
    let x = a + b;
    let k: int = if a.len() > 6 {
        a.len() - 6
    } else {
        0
    };
    let y = last_six(a) + b;
    assert(y =~= x.skip(k));
    if holds_ack(y) {
        let i = choose|i: int| 0 <= i && i + 7 <= y.len() && #[trigger] y.subrange(i, i + 7) == ack_frame();
        assert(x.subrange(i + k, i + k + 7) =~= y.subrange(i, i + 7));
        assert(holds_ack(x));
    }
    if holds_ack(x) {
        let i = choose|i: int| 0 <= i && i + 7 <= x.len() && #[trigger] x.subrange(i, i + 7) == ack_frame();
        if i + 7 <= a.len() {
            assert(a.subrange(i, i + 7) =~= x.subrange(i, i + 7));
            assert(holds_ack(a));
        } else {
            assert(i >= k);
            assert(y.subrange(i - k, i - k + 7) =~= x.subrange(i, i + 7));
            assert(holds_ack(y));
        }
    }
}

/// A wait for the ack over the reads `reads`, one [`ack_wait_step`] each,
/// ends at the last read exactly when the ack lies whole in everything
/// read since the press, an ack split across two reads included, provided
/// no earlier read completed it.
pub proof fn an_ack_split_across_reads_ends_the_wait(reads: Seq<Seq<u8>>)
    requires
        reads.len() > 0,
        !holds_ack(all_read(reads.drop_last())),
    ensures
        holds_ack(kept_after(reads.drop_last()) + reads.last()) == holds_ack(all_read(reads)),
{
    lemma_kept_is_last_six(reads.drop_last());
    lemma_ack_in_tail(all_read(reads.drop_last()), reads.last());
}

} // verus!
