//! The steps a guided capture walks on each meter of the packet stream:
//! the same list for all, each model asked only for what its dial and
//! buttons reach and for the labels its own parser gives.
use super::model::{Model, sends_ut804_layout};
use crate::protocol::steps::{
    CaptureStep, Expect, FlagExpect, RangeExpect, basic, basic_step, expect, expect_mode, expect_nothing,
    expecting, gate, gate_steps, mode_is, need, needing, needs, power_adapter, thermocouple,
    verified, verified_if, wait_for_enter, waiting,
};
use vstd::prelude::*;

verus! {

/// The UT71 and VC9x0 handhelds.
pub open spec fn is_handheld(model: Model) -> bool {
    model == Model::Ut71Ab || model == Model::Ut71Cde || model == Model::Vc920
}

/// The UT803 and UT804 bench meters.
pub open spec fn is_bench(model: Model) -> bool {
    model == Model::Ut803 || model == Model::Ut804
}

/// The models whose RANGE, MAX MIN and REL a capture asks for: the UT804
/// and the handhelds.
pub open spec fn is_buttons(model: Model) -> bool {
    model != Model::Ut803
}

/// The opening DC V step.
pub open spec fn gate_dcv() -> CaptureStep {
    basic_step("dcv", "Set meter to DC V")
}

/// The opening resistance step, with open leads: these models reach OL in a
/// step of their own, after the plain "turn the dial" one.
pub open spec fn gate_ohm() -> CaptureStep {
    basic_step("ohm_ol", "Set meter to Resistance (Ω) with open leads (overload)")
}

/// How each model reaches AC+DC volts.
pub open spec fn acdcv_instruction(model: Model) -> &'static str {
    if model == Model::Ut803 {
        "Set meter to AC+DC V (if the meter has it)"
    } else if model == Model::Ut804 {
        "AC V: press the AC/AC+DC button so the display shows AC+DC"
    } else {
        "AC V: press the yellow AC+DC button so the display shows AC+DC"
    }
}

/// `s` asserting the mode `label` where the model's parser has one, and
/// nothing where it has not.
pub open spec fn named(s: CaptureStep, label: Option<&'static str>) -> CaptureStep {
    match label {
        Some(l) => expecting(s, expect_mode(l)),
        None => s,
    }
}

/// The HOLD step: its wire encoding is what the step is for, so it
/// asserts nothing. The UT804 sends nothing while HOLD is on, which the
/// instruction says is a valid result; EXIT turns the data output off as
/// well, so the step asks for SEND after it and waits for Enter.
pub open spec fn hold_step(model: Model) -> CaptureStep {
    if model == Model::Ut803 {
        basic_step("hold", "Press HOLD (wire encoding unknown — capture needed)")
    } else if model == Model::Ut804 {
        waiting(
            basic_step(
                "hold",
                "Press HOLD on the meter, then Enter. If the meter stops sending, \"No response from meter.\" shows within a minute: that is a valid result. Press EXIT, then SEND, on the meter afterwards.",
            ),
        )
    } else {
        waiting(
            basic_step(
                "hold",
                "Press HOLD on the meter, then Enter. If the meter stops sending, \"No response from meter.\" shows within a minute: that is a valid result. Press EXIT, then turn SEND on again, afterwards.",
            ),
        )
    }
}

/// `s` where the model is a `member` of the step's models, verified on
/// the UT804, whose reporter walked every step; nothing where it is not.
pub open spec fn on(model: Model, member: bool, s: CaptureStep) -> Seq<CaptureStep> {
    if member {
        seq![verified_if(s, model == Model::Ut804)]
    } else {
        seq![]
    }
}

/// The steps a capture walks on `model`, in order: the opening DC V trio,
/// the volt modes, the resistance trio and the rest of the dial, the
/// buttons, and HOLD.
pub open spec fn ut80x_capture_steps(model: Model) -> Seq<CaptureStep> {
    seq![]
        + on(model, true, gate_steps(gate_dcv(), "DC V", gate_ohm(), "Ω")[0])
        + on(model, true, gate_steps(gate_dcv(), "DC V", gate_ohm(), "Ω")[1])
        + on(model, true, gate_steps(gate_dcv(), "DC V", gate_ohm(), "Ω")[2])
        + on(model, true, expecting(basic_step("acv", (if is_handheld(model) { "Set meter to AC V (on a shared V position, press the blue button for AC)" } else { "Set meter to AC V" })), expect_mode("AC V")))
        + on(model, true, named(basic_step("acdcv", acdcv_instruction(model)), if sends_ut804_layout(model) { Some("AC+DC V") } else { None }))
        + on(model, true, expecting(basic_step("dcmv", "Set meter to DC mV"), expect_mode("DC mV")))
        + on(model, model == Model::Ut803, expecting(basic_step("acmv", "Set meter to AC mV (if the meter has it)"), expect_mode("AC mV")))
        + on(model, is_handheld(model), expecting(basic_step("hz", "Set meter to Frequency (Hz): the dial position marked Hz, then the blue button until Hz shows"), expect_mode("Frequency")))
        + on(model, is_handheld(model), expecting(basic_step("duty", "Frequency mode: press the blue button until % shows (duty cycle)"), expect_mode("Duty %")))
        + on(model, true, expecting(basic_step("ohm", "Set meter to Resistance (Ω)"), expect_mode("Ω")))
        + on(model, true, gate_steps(gate_dcv(), "DC V", gate_ohm(), "Ω")[3])
        + on(model, true, gate_steps(gate_dcv(), "DC V", gate_ohm(), "Ω")[4])
        + on(model, true, gate_steps(gate_dcv(), "DC V", gate_ohm(), "Ω")[5])
        + on(model, is_handheld(model), expecting(basic_step("cont", "Resistance position: press the blue button for Continuity"), expect_mode("Continuity")))
        + on(model, is_handheld(model), expecting(basic_step("diode", "Resistance position: press the blue button again for Diode"), expect_mode("Diode")))
        + on(model, is_handheld(model), expecting(needing(basic_step("power", "Set meter to W (power, if the meter has it): its adapter into a live mains outlet, and a load into the adapter"), power_adapter()), expect_mode("Power")))
        + on(model, true, expecting(basic_step("cap", "Set meter to Capacitance"), expect_mode("Capacitance")))
        + on(model, is_bench(model), expecting(basic_step("hz", "Set meter to Frequency (Hz)"), expect_mode("Frequency")))
        + on(model, is_bench(model), named(basic_step("duty", "Frequency mode: switch the display to Duty Cycle (%)"), if sends_ut804_layout(model) { Some("Duty %") } else { None }))
        + on(model, model == Model::Ut803, expecting(basic_step("rpm", "Set meter to Tachometer / RPM"), expect_mode("Tachometer")))
        + on(model, is_bench(model), expecting(basic_step("diode", "Set meter to Diode"), expect_mode("Diode")))
        + on(model, is_bench(model), expecting(basic_step("cont", "Set meter to Continuity"), expect_mode("Continuity")))
        + on(model, true, expecting(needing(basic_step("temp", (if is_handheld(model) { "Set meter to temperature °C (if the meter has it; K-type thermocouple, if available)" } else { "Set meter to temperature (K-type thermocouple, if available)" })), thermocouple()), expect_mode("Temperature")))
        + on(model, is_handheld(model), expecting(needing(basic_step("temp_f", "Temperature: press the blue button for °F (if the meter has it; K-type thermocouple, if available)"), thermocouple()), expect_mode("Temperature")))
        + on(model, true, named(basic_step("dcua", "Set meter to DC µA"), if sends_ut804_layout(model) { Some("DC µA") } else { Some("µA") }))
        + on(model, true, named(basic_step("acua", (if is_handheld(model) { "µA position: press the blue button for AC µA" } else { "Set meter to AC µA" })), if sends_ut804_layout(model) { Some("AC µA") } else { Some("µA") }))
        + on(model, true, named(basic_step("dcma", "Set meter to DC mA"), if sends_ut804_layout(model) { Some("DC mA") } else { Some("mA") }))
        + on(model, true, named(basic_step("acma", (if is_handheld(model) { "mA position: press the blue button for AC mA" } else { "Set meter to AC mA" })), if sends_ut804_layout(model) { Some("AC mA") } else { Some("mA") }))
        + on(model, is_handheld(model), expecting(basic_step("ma_percent", "mA position: press the blue button until % shows (4-20 mA loop, if the meter has it)"), expect_mode("mA%")))
        + on(model, true, named(basic_step("dca", "Set meter to DC A"), if sends_ut804_layout(model) { Some("DC A") } else { Some("A") }))
        + on(model, true, named(basic_step("aca", (if is_handheld(model) { "A position: press the blue button for AC A" } else { "Set meter to AC A" })), if sends_ut804_layout(model) { Some("AC A") } else { Some("A") }))
        + on(model, model == Model::Ut803, expecting(basic_step("adp", "Set meter to ADP / logic"), expect_mode("ADP")))
        + on(model, is_bench(model), named(basic_step("ma_percent", "Set meter to % (4-20 mA loop)"), if sends_ut804_layout(model) { Some("mA%") } else { None }))
        + on(model, is_buttons(model), waiting(basic_step("manual_range", "DC V: press RANGE, then Enter.")))
        + on(model, is_buttons(model), waiting(basic_step("max_min", (if is_handheld(model) { "DC V, still on the manual range: press MAX MIN, then Enter." } else { "DC V with AUTO off: press MAX MIN, then Enter. Press EXIT, then SEND, afterwards." }))))
        + on(model, is_handheld(model), expecting(waiting(basic_step("auto_range", "DC V: press EXIT until AUTO shows and turn SEND on again, then Enter.")), Expect { range: Some(RangeExpect::Auto), ..expect_nothing() }))
        + on(model, is_buttons(model), waiting(basic_step("rel", (if is_handheld(model) { "DC V: press REL, then Enter. Press EXIT, then turn SEND on again, afterwards." } else { "DC V: press REL, then Enter. Press EXIT, then SEND, afterwards." }))))
        + on(model, true, hold_step(model))
        + on(model, is_handheld(model), expecting(waiting(basic_step("fast_mode", "Turn the meter off, then back on at DC V while holding the blue button (4000 counts); turn SEND on again, then Enter.")), expect_mode("DC V")))
}

fn push_on(v: &mut Vec<CaptureStep>, model: Model, member: bool, s: CaptureStep)
    ensures
        final(v)@ == old(v)@ + on(model, member, s),
{
    if member {
        let ut804 = match model {
            Model::Ut804 => true,
            _ => false,
        };
        v.push(verified(s, ut804));
    }
    assert(final(v)@ =~= old(v)@ + on(model, member, s)) by {}
}

fn named_step(s: CaptureStep, label: Option<&'static str>) -> (r: CaptureStep)
    ensures
        r == named(s, label),
{
    match label {
        Some(l) => expect(s, mode_is(l)),
        None => s,
    }
}

fn acdcv_text(model: Model) -> (s: &'static str)
    ensures
        s == acdcv_instruction(model),
{
    match model {
        Model::Ut803 => "Set meter to AC+DC V (if the meter has it)",
        Model::Ut804 => "AC V: press the AC/AC+DC button so the display shows AC+DC",
        _ => "AC V: press the yellow AC+DC button so the display shows AC+DC",
    }
}

fn hold_for(model: Model) -> (s: CaptureStep)
    ensures
        s == hold_step(model),
{
    match model {
        Model::Ut803 => basic("hold", "Press HOLD (wire encoding unknown — capture needed)"),
        Model::Ut804 => wait_for_enter(
            basic(
                "hold",
                "Press HOLD on the meter, then Enter. If the meter stops sending, \"No response from meter.\" shows within a minute: that is a valid result. Press EXIT, then SEND, on the meter afterwards.",
            ),
        ),
        _ => wait_for_enter(
            basic(
                "hold",
                "Press HOLD on the meter, then Enter. If the meter stops sending, \"No response from meter.\" shows within a minute: that is a valid result. Press EXIT, then turn SEND on again, afterwards.",
            ),
        ),
    }
}

fn auto_range() -> (e: Expect)
    ensures
        e == (Expect { range: Some(RangeExpect::Auto), ..expect_nothing() }),
{
    Expect {
        mode: None,
        value: None,
        range: Some(RangeExpect::Auto),
        flags: FlagExpect { hold: None, rel: None, min: None, max: None },
    }
}

/// The steps a capture walks on `model`, as [`ut80x_capture_steps`] says.
pub fn ut80x_steps(model: Model) -> (v: Vec<CaptureStep>)
    ensures
        v@ == ut80x_capture_steps(model),
{
    let handheld = match model {
        Model::Ut71Ab | Model::Ut71Cde | Model::Vc920 => true,
        _ => false,
    };
    let bench = !handheld;
    let buttons = match model {
        Model::Ut803 => false,
        _ => true,
    };
    let only_ut803 = !buttons;
    let layout = model.ut804_layout();
    let g = gate(
        basic("dcv", "Set meter to DC V"),
        "DC V",
        basic("ohm_ol", "Set meter to Resistance (Ω) with open leads (overload)"),
        "Ω",
    );
    let mut v: Vec<CaptureStep> = Vec::new();
    push_on(&mut v, model, true, g[0]);
    push_on(&mut v, model, true, g[1]);
    push_on(&mut v, model, true, g[2]);
    push_on(&mut v, model, true, expect(basic("acv", (if handheld { "Set meter to AC V (on a shared V position, press the blue button for AC)" } else { "Set meter to AC V" })), mode_is("AC V")));
    push_on(&mut v, model, true, named_step(basic("acdcv", acdcv_text(model)), if layout { Some("AC+DC V") } else { None }));
    push_on(&mut v, model, true, expect(basic("dcmv", "Set meter to DC mV"), mode_is("DC mV")));
    push_on(&mut v, model, only_ut803, expect(basic("acmv", "Set meter to AC mV (if the meter has it)"), mode_is("AC mV")));
    push_on(&mut v, model, handheld, expect(basic("hz", "Set meter to Frequency (Hz): the dial position marked Hz, then the blue button until Hz shows"), mode_is("Frequency")));
    push_on(&mut v, model, handheld, expect(basic("duty", "Frequency mode: press the blue button until % shows (duty cycle)"), mode_is("Duty %")));
    push_on(&mut v, model, true, expect(basic("ohm", "Set meter to Resistance (Ω)"), mode_is("Ω")));
    push_on(&mut v, model, true, g[3]);
    push_on(&mut v, model, true, g[4]);
    push_on(&mut v, model, true, g[5]);
    push_on(&mut v, model, handheld, expect(basic("cont", "Resistance position: press the blue button for Continuity"), mode_is("Continuity")));
    push_on(&mut v, model, handheld, expect(basic("diode", "Resistance position: press the blue button again for Diode"), mode_is("Diode")));
    push_on(&mut v, model, handheld, expect(needs(basic("power", "Set meter to W (power, if the meter has it): its adapter into a live mains outlet, and a load into the adapter"), need(4)), mode_is("Power")));
    push_on(&mut v, model, true, expect(basic("cap", "Set meter to Capacitance"), mode_is("Capacitance")));
    push_on(&mut v, model, bench, expect(basic("hz", "Set meter to Frequency (Hz)"), mode_is("Frequency")));
    push_on(&mut v, model, bench, named_step(basic("duty", "Frequency mode: switch the display to Duty Cycle (%)"), if layout { Some("Duty %") } else { None }));
    push_on(&mut v, model, only_ut803, expect(basic("rpm", "Set meter to Tachometer / RPM"), mode_is("Tachometer")));
    push_on(&mut v, model, bench, expect(basic("diode", "Set meter to Diode"), mode_is("Diode")));
    push_on(&mut v, model, bench, expect(basic("cont", "Set meter to Continuity"), mode_is("Continuity")));
    push_on(&mut v, model, true, expect(needs(basic("temp", (if handheld { "Set meter to temperature °C (if the meter has it; K-type thermocouple, if available)" } else { "Set meter to temperature (K-type thermocouple, if available)" })), need(1)), mode_is("Temperature")));
    push_on(&mut v, model, handheld, expect(needs(basic("temp_f", "Temperature: press the blue button for °F (if the meter has it; K-type thermocouple, if available)"), need(1)), mode_is("Temperature")));
    push_on(&mut v, model, true, named_step(basic("dcua", "Set meter to DC µA"), if layout { Some("DC µA") } else { Some("µA") }));
    push_on(&mut v, model, true, named_step(basic("acua", (if handheld { "µA position: press the blue button for AC µA" } else { "Set meter to AC µA" })), if layout { Some("AC µA") } else { Some("µA") }));
    push_on(&mut v, model, true, named_step(basic("dcma", "Set meter to DC mA"), if layout { Some("DC mA") } else { Some("mA") }));
    push_on(&mut v, model, true, named_step(basic("acma", (if handheld { "mA position: press the blue button for AC mA" } else { "Set meter to AC mA" })), if layout { Some("AC mA") } else { Some("mA") }));
    push_on(&mut v, model, handheld, expect(basic("ma_percent", "mA position: press the blue button until % shows (4-20 mA loop, if the meter has it)"), mode_is("mA%")));
    push_on(&mut v, model, true, named_step(basic("dca", "Set meter to DC A"), if layout { Some("DC A") } else { Some("A") }));
    push_on(&mut v, model, true, named_step(basic("aca", (if handheld { "A position: press the blue button for AC A" } else { "Set meter to AC A" })), if layout { Some("AC A") } else { Some("A") }));
    push_on(&mut v, model, only_ut803, expect(basic("adp", "Set meter to ADP / logic"), mode_is("ADP")));
    push_on(&mut v, model, bench, named_step(basic("ma_percent", "Set meter to % (4-20 mA loop)"), if layout { Some("mA%") } else { None }));
    push_on(&mut v, model, buttons, wait_for_enter(basic("manual_range", "DC V: press RANGE, then Enter.")));
    push_on(&mut v, model, buttons, wait_for_enter(basic("max_min", (if handheld { "DC V, still on the manual range: press MAX MIN, then Enter." } else { "DC V with AUTO off: press MAX MIN, then Enter. Press EXIT, then SEND, afterwards." }))));
    push_on(&mut v, model, handheld, expect(wait_for_enter(basic("auto_range", "DC V: press EXIT until AUTO shows and turn SEND on again, then Enter.")), auto_range()));
    push_on(&mut v, model, buttons, wait_for_enter(basic("rel", (if handheld { "DC V: press REL, then Enter. Press EXIT, then turn SEND on again, afterwards." } else { "DC V: press REL, then Enter. Press EXIT, then SEND, afterwards." }))));
    push_on(&mut v, model, true, hold_for(model));
    push_on(&mut v, model, handheld, expect(wait_for_enter(basic("fast_mode", "Turn the meter off, then back on at DC V while holding the blue button (4000 counts); turn SEND on again, then Enter.")), mode_is("DC V")));
    v
}

} // verus!
