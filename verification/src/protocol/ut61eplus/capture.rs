//! The steps a guided capture walks on the UT61+/UT161 family: one list
//! for the family, each model asked only for the modes its dial reaches.
use super::mode::{Mode, mode_label};
use crate::protocol::steps::{
    CaptureStep, FlagExpect, RangeExpect, ValueExpect, basic, basic_step, command_step, expect,
    expect_flags, expect_mode, expect_mode_value, expect_range, expecting, flags_are, gate,
    gate_steps, live_wire, mode_is, mode_value_are, need, needing, needs, range_is, sampled,
    samples, shorted, thermocouple, transistor, verified, verified_if, with_command,
};
use vstd::prelude::*;

verus! {

/// `s` with three samples, verified where `hw`: every step on this meter
/// takes three samples, and a step is verified where its model has run it.
pub open spec fn mark(s: CaptureStep, hw: bool) -> CaptureStep {
    verified_if(sampled(s, 3), hw)
}

fn mark_step(s: CaptureStep, hw: bool) -> (r: CaptureStep)
    ensures
        r == mark(s, hw),
{
    verified(samples(s, 3), hw)
}

/// The opening DC V step.
pub open spec fn family_dcv() -> CaptureStep {
    basic_step("dcv", "Set meter to DC V (V\u{23CF}). Leave leads open.")
}

/// The opening resistance step.
pub open spec fn family_ohm() -> CaptureStep {
    basic_step("ohm", "Set meter to \u{03A9}. Leave leads open (should show OL).")
}

/// The family's steps, `hw` being whether the model has run them on a real
/// meter: the six opening steps first, which decide by step six whether
/// the meter's readings can be trusted;
/// the two range ladders in a step of their own each, on resistance and on
/// DC V, with the rest of the resistance position between them; the flag
/// commands, on DC V; then each dial position's SELECT ring in dial order.
/// Temperature, °F and LoZ have never run.
pub open spec fn family_steps(hw: bool) -> Seq<CaptureStep> {
    seq![
        mark(gate_steps(family_dcv(), "DC V", family_ohm(), "\u{03A9}")[0], hw),
        mark(gate_steps(family_dcv(), "DC V", family_ohm(), "\u{03A9}")[1], hw),
        mark(gate_steps(family_dcv(), "DC V", family_ohm(), "\u{03A9}")[2], hw),
        mark(gate_steps(family_dcv(), "DC V", family_ohm(), "\u{03A9}")[3], hw),
        mark(gate_steps(family_dcv(), "DC V", family_ohm(), "\u{03A9}")[4], hw),
        mark(gate_steps(family_dcv(), "DC V", family_ohm(), "\u{03A9}")[5], hw),
        expecting(verified_if(sampled(basic_step("ohm_ranges", "Set meter to \u{03A9}. Leads open or shorted, either will do."), 3), hw), expect_mode("\u{03A9}")),
        expecting(needing(verified_if(sampled(basic_step("continuity", "Set meter to continuity (buzzer). Touch probes together."), 3), hw), shorted()), expect_mode_value("Continuity", ValueExpect::Finite)),
        expecting(verified_if(sampled(basic_step("diode", "Set meter to diode. A diode across the probes if you have one, otherwise leave the leads open (OL)."), 3), hw), expect_mode("Diode")),
        expecting(verified_if(sampled(basic_step("capacitance", "Set meter to capacitance. Leave leads open."), 3), hw), expect_mode("Capacitance")),
        expecting(verified_if(sampled(basic_step("dcv_ranges", "Set meter to DC V (V\u{23CF}). Leave leads open."), 3), hw), expect_mode("DC V")),
        expecting(verified_if(command_step("hold", "DC V mode: press HOLD on the meter, or we will send the command.", "hold", 3), hw), expect_flags(FlagExpect { hold: Some(true), rel: None, min: None, max: None })),
        expecting(verified_if(command_step("hold_off", "Press HOLD again to turn it off.", "hold", 3), hw), expect_flags(FlagExpect { hold: Some(false), rel: None, min: None, max: None })),
        expecting(verified_if(command_step("rel", "DC V mode: we will send REL.", "rel", 3), hw), expect_flags(FlagExpect { hold: None, rel: Some(true), min: None, max: None })),
        expecting(verified_if(command_step("rel_off", "We will send REL again to turn it off.", "rel", 3), hw), expect_flags(FlagExpect { hold: None, rel: Some(false), min: None, max: None })),
        verified_if(command_step("minmax", "We will send MIN/MAX.", "minmax", 3), hw),
        expecting(verified_if(command_step("minmax_off", "We will exit MIN/MAX.", "exit_minmax", 3), hw), expect_flags(FlagExpect { hold: None, rel: None, min: Some(false), max: Some(false) })),
        expecting(verified_if(command_step("range", "We will send RANGE to switch to manual.", "range", 3), hw), expect_range(RangeExpect::Manual)),
        expecting(verified_if(command_step("auto", "We will send AUTO to return to auto-range.", "auto", 3), hw), expect_range(RangeExpect::Auto)),
        expecting(verified_if(sampled(basic_step("acdcv", "Set meter to V\u{23CF} and press SELECT for AC+DC V."), 3), hw), expect_mode("AC+DC V")),
        expecting(verified_if(sampled(basic_step("acv", "Set meter to AC V (V~). Leave leads open."), 3), hw), expect_mode("AC V")),
        expecting(verified_if(sampled(basic_step("lpfv", "Set meter to V~ and press SELECT for LPF V."), 3), hw), expect_mode("LPF V")),
        expecting(verified_if(sampled(basic_step("dcmv", "Set meter to DC mV. Leave leads open."), 3), hw), expect_mode("DC mV")),
        expecting(verified_if(sampled(basic_step("acmv", "Set meter to mV and press SELECT for AC mV."), 3), hw), expect_mode("AC mV")),
        expecting(verified_if(sampled(basic_step("hz", "Set meter to the Hz/% dial position."), 3), hw), expect_mode("Hz")),
        expecting(verified_if(sampled(basic_step("duty", "Hz/% position: short-press the USB button for Duty %."), 3), hw), expect_mode("Duty %")),
        expecting(needing(verified_if(sampled(basic_step("ncv", "Set meter to NCV. Hold near a live wire."), 3), hw), live_wire()), expect_mode_value("NCV", ValueExpect::NcvDetected)),
        expecting(needing(verified_if(sampled(basic_step("hfe", "Set meter to hFE (transistor test)."), 3), hw), transistor()), expect_mode("hFE")),
        expecting(verified_if(sampled(basic_step("dcua", "Set meter to DC \u{00B5}A."), 3), hw), expect_mode("DC \u{00B5}A")),
        expecting(verified_if(sampled(basic_step("acua", "Set meter to \u{00B5}A and press SELECT for AC \u{00B5}A."), 3), hw), expect_mode("AC \u{00B5}A")),
        expecting(verified_if(sampled(basic_step("dcma", "Set meter to DC mA."), 3), hw), expect_mode("DC mA")),
        expecting(verified_if(sampled(basic_step("acma", "Set meter to mA and press SELECT for AC mA."), 3), hw), expect_mode("AC mA")),
        expecting(verified_if(sampled(basic_step("dca", "Set meter to DC A (A\u{23CF})."), 3), hw), expect_mode("DC A")),
        expecting(verified_if(sampled(basic_step("aca", "Set meter to A and press SELECT for AC A."), 3), hw), expect_mode("AC A")),
        expecting(needing(sampled(basic_step("temp", "Set meter to temperature (K-type thermocouple)."), 3), thermocouple()), expect_mode("\u{00B0}C")),
        expecting(needing(sampled(basic_step("tempf", "Temperature position: press SELECT for \u{00B0}F."), 3), thermocouple()), expect_mode("\u{00B0}F")),
        expecting(sampled(basic_step("loz", "Set meter to LoZ (low-impedance volts)."), 3), expect_mode("LoZ V")),
    ]
}

/// The family's steps, as [`family_steps`] says.
pub fn family_capture_steps(hw: bool) -> (v: Vec<CaptureStep>)
    ensures
        v@ == family_steps(hw),
{
    let g = gate(
        basic("dcv", "Set meter to DC V (V\u{23CF}). Leave leads open."),
        "DC V",
        basic("ohm", "Set meter to \u{03A9}. Leave leads open (should show OL)."),
        "\u{03A9}",
    );
    vec![
        mark_step(g[0], hw),
        mark_step(g[1], hw),
        mark_step(g[2], hw),
        mark_step(g[3], hw),
        mark_step(g[4], hw),
        mark_step(g[5], hw),
        expect(verified(samples(basic("ohm_ranges", "Set meter to \u{03A9}. Leads open or shorted, either will do."), 3), hw), mode_is("\u{03A9}")),
        expect(needs(verified(samples(basic("continuity", "Set meter to continuity (buzzer). Touch probes together."), 3), hw), need(0)), mode_value_are("Continuity", ValueExpect::Finite)),
        expect(verified(samples(basic("diode", "Set meter to diode. A diode across the probes if you have one, otherwise leave the leads open (OL)."), 3), hw), mode_is("Diode")),
        expect(verified(samples(basic("capacitance", "Set meter to capacitance. Leave leads open."), 3), hw), mode_is("Capacitance")),
        expect(verified(samples(basic("dcv_ranges", "Set meter to DC V (V\u{23CF}). Leave leads open."), 3), hw), mode_is("DC V")),
        expect(verified(with_command("hold", "DC V mode: press HOLD on the meter, or we will send the command.", "hold", 3), hw), flags_are(FlagExpect { hold: Some(true), rel: None, min: None, max: None })),
        expect(verified(with_command("hold_off", "Press HOLD again to turn it off.", "hold", 3), hw), flags_are(FlagExpect { hold: Some(false), rel: None, min: None, max: None })),
        expect(verified(with_command("rel", "DC V mode: we will send REL.", "rel", 3), hw), flags_are(FlagExpect { hold: None, rel: Some(true), min: None, max: None })),
        expect(verified(with_command("rel_off", "We will send REL again to turn it off.", "rel", 3), hw), flags_are(FlagExpect { hold: None, rel: Some(false), min: None, max: None })),
        verified(with_command("minmax", "We will send MIN/MAX.", "minmax", 3), hw),
        expect(verified(with_command("minmax_off", "We will exit MIN/MAX.", "exit_minmax", 3), hw), flags_are(FlagExpect { hold: None, rel: None, min: Some(false), max: Some(false) })),
        expect(verified(with_command("range", "We will send RANGE to switch to manual.", "range", 3), hw), range_is(RangeExpect::Manual)),
        expect(verified(with_command("auto", "We will send AUTO to return to auto-range.", "auto", 3), hw), range_is(RangeExpect::Auto)),
        expect(verified(samples(basic("acdcv", "Set meter to V\u{23CF} and press SELECT for AC+DC V."), 3), hw), mode_is("AC+DC V")),
        expect(verified(samples(basic("acv", "Set meter to AC V (V~). Leave leads open."), 3), hw), mode_is("AC V")),
        expect(verified(samples(basic("lpfv", "Set meter to V~ and press SELECT for LPF V."), 3), hw), mode_is("LPF V")),
        expect(verified(samples(basic("dcmv", "Set meter to DC mV. Leave leads open."), 3), hw), mode_is("DC mV")),
        expect(verified(samples(basic("acmv", "Set meter to mV and press SELECT for AC mV."), 3), hw), mode_is("AC mV")),
        expect(verified(samples(basic("hz", "Set meter to the Hz/% dial position."), 3), hw), mode_is("Hz")),
        expect(verified(samples(basic("duty", "Hz/% position: short-press the USB button for Duty %."), 3), hw), mode_is("Duty %")),
        expect(needs(verified(samples(basic("ncv", "Set meter to NCV. Hold near a live wire."), 3), hw), need(2)), mode_value_are("NCV", ValueExpect::NcvDetected)),
        expect(needs(verified(samples(basic("hfe", "Set meter to hFE (transistor test)."), 3), hw), need(3)), mode_is("hFE")),
        expect(verified(samples(basic("dcua", "Set meter to DC \u{00B5}A."), 3), hw), mode_is("DC \u{00B5}A")),
        expect(verified(samples(basic("acua", "Set meter to \u{00B5}A and press SELECT for AC \u{00B5}A."), 3), hw), mode_is("AC \u{00B5}A")),
        expect(verified(samples(basic("dcma", "Set meter to DC mA."), 3), hw), mode_is("DC mA")),
        expect(verified(samples(basic("acma", "Set meter to mA and press SELECT for AC mA."), 3), hw), mode_is("AC mA")),
        expect(verified(samples(basic("dca", "Set meter to DC A (A\u{23CF})."), 3), hw), mode_is("DC A")),
        expect(verified(samples(basic("aca", "Set meter to A and press SELECT for AC A."), 3), hw), mode_is("AC A")),
        expect(needs(samples(basic("temp", "Set meter to temperature (K-type thermocouple)."), 3), need(1)), mode_is("\u{00B0}C")),
        expect(needs(samples(basic("tempf", "Temperature position: press SELECT for \u{00B0}F."), 3), need(1)), mode_is("\u{00B0}F")),
        expect(samples(basic("loz", "Set meter to LoZ (low-impedance volts)."), 3), mode_is("LoZ V")),
    ]
}

/// Whether a dial of `dial`'s modes reaches step `s`: it asks for no mode,
/// or for one of the dial's, by label.
pub open spec fn reachable(dial: Seq<Mode>, s: CaptureStep) -> bool {
    match s.expect {
        Some(e) => match e.mode {
            Some(l) => exists|i: int| 0 <= i < dial.len() && (#[trigger] mode_label(dial[i]))@ == l@,
            None => true,
        },
        None => true,
    }
}

/// The steps of `ss` a dial of `dial`'s modes reaches, in order.
pub open spec fn keep_reachable(dial: Seq<Mode>, ss: Seq<CaptureStep>) -> Seq<CaptureStep>
    decreases ss.len(),
{
    if ss.len() == 0 {
        seq![]
    } else {
        let rest = keep_reachable(dial, ss.drop_last());
        if reachable(dial, ss.last()) {
            rest.push(ss.last())
        } else {
            rest
        }
    }
}

/// Whether the dial reaches step `s`, as [`reachable`] says.
fn reaches(dial: &Vec<Mode>, s: CaptureStep) -> (b: bool)
    ensures
        b == reachable(dial@, s),
{
    let l = match s.expect {
        Some(e) => match e.mode {
            Some(l) => l,
            None => {
                return true;
            },
        },
        None => {
            return true;
        },
    };
    let mut i: usize = 0;
    while i < dial.len()
        invariant
            i <= dial@.len(),
            s.expect matches Some(e) && e.mode == Some(l),
            forall|j: int| 0 <= j < i ==> (#[trigger] mode_label(dial@[j]))@ != l@,
        decreases dial.len() - i,
    {
        if crate::text::str_eq(dial[i].as_static_str(), l) {
            return true;
        }
        i = i + 1;
    }
    false
}

/// The steps of `steps` a dial of `dial`'s modes reaches, in order, as
/// [`keep_reachable`] says.
pub fn keep_reachable_steps(dial: &Vec<Mode>, steps: &Vec<CaptureStep>) -> (v: Vec<CaptureStep>)
    ensures
        v@ == keep_reachable(dial@, steps@),
{
    let mut v: Vec<CaptureStep> = Vec::new();
    let mut i: usize = 0;
    while i < steps.len()
        invariant
            i <= steps@.len(),
            v@ == keep_reachable(dial@, steps@.take(i as int)),
        decreases steps.len() - i,
    {
        let s = steps[i];
        proof {
            assert(steps@.take(i + 1).drop_last() =~= steps@.take(i as int));
            assert(steps@.take(i + 1).last() == s);
        }
        if reaches(dial, s) {
            v.push(s);
        }
        i = i + 1;
    }
    assert(steps@.take(steps.len() as int) =~= steps@);
    v
}


/// The UT202BT's opening DC V step: it has no dial, and colour-coded
/// buttons.
pub open spec fn ut202bt_dcv() -> CaptureStep {
    basic_step("dcv", "Press the red V button until DC V shows. Leave leads open.")
}

/// The UT202BT's opening resistance step.
pub open spec fn ut202bt_ohm() -> CaptureStep {
    basic_step("ohm", "Press the blue \u{03A9} button until \u{03A9} shows. Leave leads open (should show OL).")
}

/// The UT202BT's steps, from its button table: the red V button cycles
/// AC V, AC V LPF and DC V; the yellow A button AC A and AC A LPF, a long
/// press inrush; the blue one \u{03A9}, continuity, capacitance and
/// temperature; NCV/PEAK is NCV, a long press peak capture. Of the command
/// steps only HOLD and RANGE are asked for: they are the only ones the
/// vendor's app sends this meter. Nothing here has run on a meter. The
/// app names two AC A mode bytes alike, so the AC A step asserts neither,
/// and what peak capture sets in the flags is unknown.
pub open spec fn ut202bt_steps() -> Seq<CaptureStep> {
    seq![
        sampled(gate_steps(ut202bt_dcv(), "DC V", ut202bt_ohm(), "\u{03A9}")[0], 3),
        sampled(gate_steps(ut202bt_dcv(), "DC V", ut202bt_ohm(), "\u{03A9}")[1], 3),
        sampled(gate_steps(ut202bt_dcv(), "DC V", ut202bt_ohm(), "\u{03A9}")[2], 3),
        sampled(gate_steps(ut202bt_dcv(), "DC V", ut202bt_ohm(), "\u{03A9}")[3], 3),
        sampled(gate_steps(ut202bt_dcv(), "DC V", ut202bt_ohm(), "\u{03A9}")[4], 3),
        sampled(gate_steps(ut202bt_dcv(), "DC V", ut202bt_ohm(), "\u{03A9}")[5], 3),
        expecting(sampled(basic_step("ohm_ranges", "Press the blue \u{03A9} button until \u{03A9} shows. Leads open or shorted, either will do."), 3), expect_mode("\u{03A9}")),
        expecting(needing(sampled(basic_step("continuity", "Press the blue button once more for continuity (buzzer). Touch probes together."), 3), shorted()), expect_mode_value("Continuity", ValueExpect::Finite)),
        expecting(sampled(basic_step("capacitance", "Press the blue button once more for capacitance. Leave leads open."), 3), expect_mode("Capacitance")),
        expecting(needing(sampled(basic_step("temp", "Press the blue button once more for temperature (thermocouple)."), 3), thermocouple()), expect_mode("\u{00B0}C")),
        expecting(sampled(basic_step("dcv_ranges", "Press the red V button until DC V shows. Leave leads open."), 3), expect_mode("DC V")),
        expecting(command_step("hold", "DC V mode: press HOLD on the meter, or we will send the command.", "hold", 3), expect_flags(FlagExpect { hold: Some(true), rel: None, min: None, max: None })),
        expecting(command_step("hold_off", "Press HOLD again to turn it off.", "hold", 3), expect_flags(FlagExpect { hold: Some(false), rel: None, min: None, max: None })),
        expecting(command_step("range", "We will send RANGE to switch to manual.", "range", 3), expect_range(RangeExpect::Manual)),
        expecting(sampled(basic_step("acv", "Press the red V button until AC V shows. Leave leads open."), 3), expect_mode("AC V")),
        sampled(basic_step("peak", "AC V: long-press NCV/PEAK to turn peak capture on."), 3),
        sampled(basic_step("peak_off", "Long-press NCV/PEAK again to turn it off."), 3),
        expecting(sampled(basic_step("lpfv", "Press the red V button until AC V LPF shows. Leave leads open."), 3), expect_mode("LPF V")),
        sampled(basic_step("aca", "Press the yellow A button until AC A shows. Leave the jaws empty."), 3),
        expecting(sampled(basic_step("lpfa", "Press the yellow A button until AC A LPF shows. Leave the jaws empty."), 3), expect_mode("Clamp LPF A")),
        expecting(sampled(basic_step("inrush", "AC A: long-press the yellow A button for inrush. Leave the jaws empty."), 3), expect_mode("Inrush")),
        expecting(needing(sampled(basic_step("ncv", "Short-press NCV/PEAK for NCV. Hold near a live wire."), 3), live_wire()), expect_mode_value("NCV", ValueExpect::NcvDetected)),
    ]
}

/// The UT202BT's steps, as [`ut202bt_steps`] says.
pub fn ut202bt_capture_steps() -> (v: Vec<CaptureStep>)
    ensures
        v@ == ut202bt_steps(),
{
    let g = gate(
        basic("dcv", "Press the red V button until DC V shows. Leave leads open."),
        "DC V",
        basic("ohm", "Press the blue \u{03A9} button until \u{03A9} shows. Leave leads open (should show OL)."),
        "\u{03A9}",
    );
    vec![
        samples(g[0], 3),
        samples(g[1], 3),
        samples(g[2], 3),
        samples(g[3], 3),
        samples(g[4], 3),
        samples(g[5], 3),
        expect(samples(basic("ohm_ranges", "Press the blue \u{03A9} button until \u{03A9} shows. Leads open or shorted, either will do."), 3), mode_is("\u{03A9}")),
        expect(needs(samples(basic("continuity", "Press the blue button once more for continuity (buzzer). Touch probes together."), 3), need(0)), mode_value_are("Continuity", ValueExpect::Finite)),
        expect(samples(basic("capacitance", "Press the blue button once more for capacitance. Leave leads open."), 3), mode_is("Capacitance")),
        expect(needs(samples(basic("temp", "Press the blue button once more for temperature (thermocouple)."), 3), need(1)), mode_is("\u{00B0}C")),
        expect(samples(basic("dcv_ranges", "Press the red V button until DC V shows. Leave leads open."), 3), mode_is("DC V")),
        expect(with_command("hold", "DC V mode: press HOLD on the meter, or we will send the command.", "hold", 3), flags_are(FlagExpect { hold: Some(true), rel: None, min: None, max: None })),
        expect(with_command("hold_off", "Press HOLD again to turn it off.", "hold", 3), flags_are(FlagExpect { hold: Some(false), rel: None, min: None, max: None })),
        expect(with_command("range", "We will send RANGE to switch to manual.", "range", 3), range_is(RangeExpect::Manual)),
        expect(samples(basic("acv", "Press the red V button until AC V shows. Leave leads open."), 3), mode_is("AC V")),
        samples(basic("peak", "AC V: long-press NCV/PEAK to turn peak capture on."), 3),
        samples(basic("peak_off", "Long-press NCV/PEAK again to turn it off."), 3),
        expect(samples(basic("lpfv", "Press the red V button until AC V LPF shows. Leave leads open."), 3), mode_is("LPF V")),
        samples(basic("aca", "Press the yellow A button until AC A shows. Leave the jaws empty."), 3),
        expect(samples(basic("lpfa", "Press the yellow A button until AC A LPF shows. Leave the jaws empty."), 3), mode_is("Clamp LPF A")),
        expect(samples(basic("inrush", "AC A: long-press the yellow A button for inrush. Leave the jaws empty."), 3), mode_is("Inrush")),
        expect(needs(samples(basic("ncv", "Short-press NCV/PEAK for NCV. Hold near a live wire."), 3), need(2)), mode_value_are("NCV", ValueExpect::NcvDetected)),
    ]
}

/// A capture on a model follows its dial: every step kept asks for no mode
/// or for one of the dial's, by the label the parser gives it, and every
/// step that does is kept.
pub proof fn capture_follows_the_dial(dial: Seq<Mode>, ss: Seq<CaptureStep>)
    ensures
        forall|k: int|
            0 <= k < keep_reachable(dial, ss).len() ==> reachable(dial, #[trigger] keep_reachable(dial, ss)[k]),
        forall|i: int| 0 <= i < ss.len() && reachable(dial, #[trigger] ss[i]) ==> keep_reachable(dial, ss).contains(ss[i]),
    decreases ss.len(),
{
    if ss.len() > 0 {
        let rest = ss.drop_last();
        capture_follows_the_dial(dial, rest);
        assert forall|i: int| 0 <= i < ss.len() && reachable(dial, #[trigger] ss[i]) implies keep_reachable(dial, ss).contains(ss[i]) by {
            if i < ss.len() - 1 {
                assert(ss[i] == rest[i]);
                let j = choose|j: int| 0 <= j < keep_reachable(dial, rest).len() && keep_reachable(dial, rest)[j] == ss[i];
                if reachable(dial, ss.last()) {
                    assert(keep_reachable(dial, ss)[j] == ss[i]);
                }
            } else {
                let kept = keep_reachable(dial, ss);
                assert(kept[kept.len() - 1] == ss[i]);
            }
        }
    }
}

} // verus!
