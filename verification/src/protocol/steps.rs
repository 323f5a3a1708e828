//! The steps of a guided capture, and how a step is put together: what the
//! user is asked to do, the command sent for them where one is, what the
//! readings must show before they are kept, what the step needs at hand,
//! and whether the step has run on a real meter.
use vstd::prelude::*;

verus! {

/// What a step needs at hand besides the meter and its leads.
#[derive(Debug, Clone, Copy, PartialEq, Eq, Structural)]
pub struct Needs {
    pub shorted_leads: bool,
    pub thermocouple: bool,
    pub live_wire: bool,
    pub transistor: bool,
    pub power_adapter: bool,
}

/// The range state a step's readings must show.
#[derive(Debug, Clone, Copy, PartialEq, Eq, Structural)]
pub enum RangeExpect {
    Auto,
    Manual,
}

/// The value a step's readings must show.
#[derive(Debug, Clone, Copy, PartialEq, Eq, Structural)]
pub enum ValueExpect {
    /// A number, not an overload.
    Finite,
    /// An NCV level above zero.
    NcvDetected,
}

/// The flags a step's readings must show, each on, off, or either.
#[derive(Debug, Clone, Copy, PartialEq, Eq, Structural)]
pub struct FlagExpect {
    pub hold: Option<bool>,
    pub rel: Option<bool>,
    pub min: Option<bool>,
    pub max: Option<bool>,
}

/// What a step's readings must show before they are kept.
#[derive(Debug, Clone, Copy, PartialEq, Eq)]
pub struct Expect {
    /// The mode label.
    pub mode: Option<&'static str>,
    pub value: Option<ValueExpect>,
    pub range: Option<RangeExpect>,
    pub flags: FlagExpect,
}

/// One step of a guided capture: what the user is asked to set, the
/// command sent for them where one is, how many readings are kept, what
/// they must show, what the step needs at hand, whether it has run on a
/// real meter, and whether it waits for Enter before it captures.
#[derive(Debug, Clone, Copy, PartialEq, Eq)]
pub struct CaptureStep {
    pub id: &'static str,
    pub instruction: &'static str,
    pub command: Option<&'static str>,
    pub samples: u32,
    pub expect: Option<Expect>,
    pub needs: Needs,
    pub verified: bool,
    pub wait_for_enter: bool,
}

/// Nothing needed.
pub open spec fn no_needs() -> Needs {
    Needs { shorted_leads: false, thermocouple: false, live_wire: false, transistor: false, power_adapter: false }
}

/// No flag asserted.
pub open spec fn any_flags() -> FlagExpect {
    FlagExpect { hold: None, rel: None, min: None, max: None }
}

/// Nothing asserted.
pub open spec fn expect_nothing() -> Expect {
    Expect { mode: None, value: None, range: None, flags: any_flags() }
}

/// The mode label `label`, and nothing else.
pub open spec fn expect_mode(label: &'static str) -> Expect {
    Expect { mode: Some(label), ..expect_nothing() }
}

/// A step that only asks: five samples, nothing asserted or needed,
/// unverified, capturing on its own.
pub open spec fn basic_step(id: &'static str, instruction: &'static str) -> CaptureStep {
    CaptureStep {
        id,
        instruction,
        command: None,
        samples: 5,
        expect: None,
        needs: no_needs(),
        verified: false,
        wait_for_enter: false,
    }
}

/// A step that sends `command`, with `samples` samples.
pub open spec fn command_step(
    id: &'static str,
    instruction: &'static str,
    command: &'static str,
    samples: u32,
) -> CaptureStep {
    CaptureStep { command: Some(command), samples, ..basic_step(id, instruction) }
}

/// `s` asserting `e`.
pub open spec fn expecting(s: CaptureStep, e: Expect) -> CaptureStep {
    CaptureStep { expect: Some(e), ..s }
}

/// `s` with `n` samples.
pub open spec fn sampled(s: CaptureStep, n: u32) -> CaptureStep {
    CaptureStep { samples: n, ..s }
}

/// `s`, verified where `v`.
pub open spec fn verified_if(s: CaptureStep, v: bool) -> CaptureStep {
    CaptureStep { verified: v, ..s }
}

/// `s`, waiting for Enter.
pub open spec fn waiting(s: CaptureStep) -> CaptureStep {
    CaptureStep { wait_for_enter: true, ..s }
}

/// `s`, needing `n`.
pub open spec fn needing(s: CaptureStep, n: Needs) -> CaptureStep {
    CaptureStep { needs: n, ..s }
}

/// Shorted leads.
pub open spec fn shorted() -> Needs {
    Needs { shorted_leads: true, ..no_needs() }
}

/// A thermocouple.
pub open spec fn thermocouple() -> Needs {
    Needs { thermocouple: true, ..no_needs() }
}

/// A live wire.
pub open spec fn live_wire() -> Needs {
    Needs { live_wire: true, ..no_needs() }
}

/// A transistor.
pub open spec fn transistor() -> Needs {
    Needs { transistor: true, ..no_needs() }
}

/// A power adapter.
pub open spec fn power_adapter() -> Needs {
    Needs { power_adapter: true, ..no_needs() }
}

/// The six steps every capture opens with, two trios: DC V with open leads
/// (the step `dcv` given), shorted and negative; then resistance with open
/// leads (the step `ohm` given), across the body and shorted. Each asserts
/// its mode, `volts` and `ohms` being the labels the parser gives them.
pub open spec fn gate_steps(
    dcv: CaptureStep,
    volts: &'static str,
    ohm: CaptureStep,
    ohms: &'static str,
) -> Seq<CaptureStep> {
    seq![
        expecting(dcv, expect_mode(volts)),
        needing(
            expecting(basic_step("dcv_short", "Same mode: touch the probes together."), expect_mode(volts)),
            shorted(),
        ),
        expecting(
            basic_step(
                "dcv_negative",
                "Same mode: put the probes across a battery the wrong way round (red on minus), so the reading is negative.",
            ),
            expect_mode(volts),
        ),
        expecting(ohm, expect_mode(ohms)),
        expecting(
            basic_step("ohm_body", "Same mode: hold the tip of one probe in each hand."),
            expect_mode(ohms),
        ),
        needing(
            expecting(basic_step("ohm_short", "Same mode: touch the probes together."), expect_mode(ohms)),
            shorted(),
        ),
    ]
}

/// A step that only asks, as [`basic_step`] says.
pub fn basic(id: &'static str, instruction: &'static str) -> (s: CaptureStep)
    ensures
        s == basic_step(id, instruction),
{
    CaptureStep {
        id,
        instruction,
        command: None,
        samples: 5,
        expect: None,
        needs: Needs {
            shorted_leads: false,
            thermocouple: false,
            live_wire: false,
            transistor: false,
            power_adapter: false,
        },
        verified: false,
        wait_for_enter: false,
    }
}

/// A step that sends a command, as [`command_step`] says.
pub fn with_command(id: &'static str, instruction: &'static str, command: &'static str, samples: u32) -> (s: CaptureStep)
    ensures
        s == command_step(id, instruction, command, samples),
{
    let b = basic(id, instruction);
    CaptureStep { command: Some(command), samples, ..b }
}

/// The mode label `label`, and nothing else, as [`expect_mode`] says.
pub fn mode_is(label: &'static str) -> (e: Expect)
    ensures
        e == expect_mode(label),
{
    Expect { mode: Some(label), value: None, range: None, flags: FlagExpect { hold: None, rel: None, min: None, max: None } }
}

/// `s` asserting `e`.
pub fn expect(s: CaptureStep, e: Expect) -> (r: CaptureStep)
    ensures
        r == expecting(s, e),
{
    CaptureStep { expect: Some(e), ..s }
}

/// `s` with `n` samples.
pub fn samples(s: CaptureStep, n: u32) -> (r: CaptureStep)
    ensures
        r == sampled(s, n),
{
    CaptureStep { samples: n, ..s }
}

/// `s`, verified where `v`.
pub fn verified(s: CaptureStep, v: bool) -> (r: CaptureStep)
    ensures
        r == verified_if(s, v),
{
    CaptureStep { verified: v, ..s }
}

/// `s`, waiting for Enter.
pub fn wait_for_enter(s: CaptureStep) -> (r: CaptureStep)
    ensures
        r == waiting(s),
{
    CaptureStep { wait_for_enter: true, ..s }
}

/// `s`, needing `n`.
pub fn needs(s: CaptureStep, n: Needs) -> (r: CaptureStep)
    ensures
        r == needing(s, n),
{
    CaptureStep { needs: n, ..s }
}

/// Needs of one kind, as [`shorted`], [`thermocouple`], [`live_wire`],
/// [`transistor`] and [`power_adapter`] say: 0 shorted leads, 1 a
/// thermocouple, 2 a live wire, 3 a transistor, anything else a power
/// adapter.
pub fn need(kind: u8) -> (n: Needs)
    ensures
        n == (if kind == 0 {
            shorted()
        } else if kind == 1 {
            thermocouple()
        } else if kind == 2 {
            live_wire()
        } else if kind == 3 {
            transistor()
        } else {
            power_adapter()
        }),
{
    Needs {
        shorted_leads: kind == 0,
        thermocouple: kind == 1,
        live_wire: kind == 2,
        transistor: kind == 3,
        power_adapter: kind > 3,
    }
}

/// The six opening steps, as [`gate_steps`] says.
pub fn gate(dcv: CaptureStep, volts: &'static str, ohm: CaptureStep, ohms: &'static str) -> (v: Vec<CaptureStep>)
    ensures
        v@ == gate_steps(dcv, volts, ohm, ohms),
{
    vec![
        expect(dcv, mode_is(volts)),
        needs(expect(basic("dcv_short", "Same mode: touch the probes together."), mode_is(volts)), need(0)),
        expect(
            basic(
                "dcv_negative",
                "Same mode: put the probes across a battery the wrong way round (red on minus), so the reading is negative.",
            ),
            mode_is(volts),
        ),
        expect(ohm, mode_is(ohms)),
        expect(basic("ohm_body", "Same mode: hold the tip of one probe in each hand."), mode_is(ohms)),
        needs(expect(basic("ohm_short", "Same mode: touch the probes together."), mode_is(ohms)), need(0)),
    ]
}

/// The flags `f`, and nothing else.
pub open spec fn expect_flags(f: FlagExpect) -> Expect {
    Expect { flags: f, ..expect_nothing() }
}

/// The range state `r`, and nothing else.
pub open spec fn expect_range(r: RangeExpect) -> Expect {
    Expect { range: Some(r), ..expect_nothing() }
}

/// The mode label `label` and the value `v`.
pub open spec fn expect_mode_value(label: &'static str, v: ValueExpect) -> Expect {
    Expect { mode: Some(label), value: Some(v), ..expect_nothing() }
}

/// The flags `f`, as [`expect_flags`] says.
pub fn flags_are(f: FlagExpect) -> (e: Expect)
    ensures
        e == expect_flags(f),
{
    Expect { mode: None, value: None, range: None, flags: f }
}

/// The range state `r`, as [`expect_range`] says.
pub fn range_is(r: RangeExpect) -> (e: Expect)
    ensures
        e == expect_range(r),
{
    Expect { mode: None, value: None, range: Some(r), flags: FlagExpect { hold: None, rel: None, min: None, max: None } }
}

/// The mode label and value, as [`expect_mode_value`] says.
pub fn mode_value_are(label: &'static str, v: ValueExpect) -> (e: Expect)
    ensures
        e == expect_mode_value(label, v),
{
    Expect { mode: Some(label), value: Some(v), range: None, flags: FlagExpect { hold: None, rel: None, min: None, max: None } }
}

} // verus!
