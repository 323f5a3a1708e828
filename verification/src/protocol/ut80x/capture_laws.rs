//! Every mode a capture step asks for is one the model's own parser
//! reports.
use super::capture::{
    acdcv_instruction, gate_dcv, gate_ohm, hold_step, is_bench, is_buttons, is_handheld, named,
    on, ut80x_capture_steps,
};
use crate::protocol::steps::{
    Expect, RangeExpect, basic_step, expect_mode, expect_nothing, expecting, gate_steps, needing,
    power_adapter, thermocouple, waiting,
};
use super::model::{Model, sends_ut804_layout};
use super::model_parsed;
use super::packet::{nibbles_of, whole_packet};
use super::parse::{ut803_label, ut804_label};
use crate::measurement::{Error, Measurement};
use crate::protocol::steps::CaptureStep;
use vstd::prelude::*;

verus! {

/// The packet whose nine data bytes carry the nibbles `n`, then CR LF.
pub open spec fn packet_of(n: Seq<u8>) -> Seq<u8> {
    n.map_values(|b: u8| (0x30u8 | b) as u8) + seq![0x0Du8, 0x0Au8]
}

/// Whether packet `p` is whole and every reading `model`'s parser makes of
/// it is one labelled `l`.
pub open spec fn reports_label(model: Model, p: Seq<u8>, l: Seq<char>) -> bool {
    &&& whole_packet(p)
    &&& forall|r: Result<Measurement, Error>| #[trigger]
        model_parsed(model, p, r) ==> (r matches Ok(m) && m.mode@ == l)
}

/// The labels `model`'s parser gives the modes a capture asks for.
pub open spec fn reported_label(model: Model, l: &'static str) -> bool {
    if model == Model::Ut803 {
        ||| l == "DC V"
        ||| l == "AC V"
        ||| l == "DC mV"
        ||| l == "AC mV"
        ||| l == "Ω"
        ||| l == "Capacitance"
        ||| l == "Frequency"
        ||| l == "Tachometer"
        ||| l == "Diode"
        ||| l == "Continuity"
        ||| l == "Temperature"
        ||| l == "µA"
        ||| l == "mA"
        ||| l == "A"
        ||| l == "ADP"
    } else {
        ||| l == "DC V"
        ||| l == "AC V"
        ||| l == "AC+DC V"
        ||| l == "DC mV"
        ||| l == "Frequency"
        ||| l == "Duty %"
        ||| l == "Ω"
        ||| l == "Continuity"
        ||| l == "Diode"
        ||| l == "Power"
        ||| l == "Capacitance"
        ||| l == "Temperature"
        ||| l == "DC µA"
        ||| l == "AC µA"
        ||| l == "DC mA"
        ||| l == "AC mA"
        ||| l == "mA%"
        ||| l == "DC A"
        ||| l == "AC A"
    }
}

/// Whether the mode step `s` asks for, if any, is one `model`'s parser
/// reports.
pub open spec fn asks_reported(model: Model, s: CaptureStep) -> bool {
    s.expect matches Some(e) ==> (e.mode matches Some(l) ==> reported_label(model, l))
}

/// Whether every step of `ss` asks only for labels `model`'s parser
/// reports.
pub open spec fn all_ask_reported(model: Model, ss: Seq<CaptureStep>) -> bool {
    forall|i: int| 0 <= i < ss.len() ==> asks_reported(model, #[trigger] ss[i])
}

proof fn lemma_concat(model: Model, a: Seq<CaptureStep>, b: Seq<CaptureStep>)
    requires
        all_ask_reported(model, a),
        all_ask_reported(model, b),
    ensures
        all_ask_reported(model, a + b),
{
    assert forall|i: int| 0 <= i < (a + b).len() implies asks_reported(model, #[trigger] (a + b)[i]) by {
        if i < a.len() {
            assert((a + b)[i] == a[i]);
        } else {
            assert((a + b)[i] == b[i - a.len()]);
        }
    }
}

proof fn lemma_nibble(b: u8)
    requires
        b < 16,
    ensures
        (0x30u8 | b) & 0x70 == 0x30,
        (0x30u8 | b) & 0x0F == b,
{
    assert((0x30u8 | b) & 0x70 == 0x30 && (0x30u8 | b) & 0x0F == b) by (bit_vector)
        requires
            b < 16,
    ;
}

/// A packet built of nibbles is whole, and carries them.
proof fn lemma_packet_of(n: Seq<u8>)
    requires
        n.len() == 9,
        forall|i: int| 0 <= i < 9 ==> n[i] < 16,
    ensures
        whole_packet(packet_of(n)),
        forall|i: int| 0 <= i < 9 ==> (#[trigger] nibbles_of(packet_of(n))[i]) == n[i],
{
    let p = packet_of(n);
    assert forall|i: int| 0 <= i < 9 implies super::packet::data_byte(#[trigger] p[i]) && p[i] & 0x0F
        == n[i] by {
        lemma_nibble(n[i]);
    }
    assert(0x0Du8 & 0x7F == 0x0D) by (bit_vector);
    assert(0x0Au8 & 0x7F == 0x0A) by (bit_vector);
}

/// A UT804-layout idle frame with these positions reports its label.
proof fn lemma_ut804_witness(model: Model, range: u8, mode: u8, acdc: u8, status: u8) -> (p: Seq<u8>)
    requires
        model != Model::Ut803,
        range < 16,
        mode < 16,
        acdc < 16,
        status < 16,
    ensures
        reports_label(model, p, ut804_label(p)),
        super::parse::ut804_positions(p) == (range, mode, acdc, status),
{
    let n = seq![0u8, 0u8, 0u8, 0xBu8, 0u8, range, mode, acdc, status];
    lemma_packet_of(n);
    let p = packet_of(n);
    assert(nibbles_of(p)[0] == 0u8);
    assert(nibbles_of(p)[3] == 0xBu8);
    assert(nibbles_of(p)[5] == range && nibbles_of(p)[6] == mode && nibbles_of(p)[7] == acdc
        && nibbles_of(p)[8] == status);
    p
}

/// A UT803 overload frame with these positions reports its label.
proof fn lemma_ut803_witness(range: u8, mode: u8, nib8: u8, nib10: u8) -> (p: Seq<u8>)
    requires
        range < 16,
        mode < 16,
        nib8 < 16,
        nib10 < 16,
        nib8 & 0x1 != 0,
    ensures
        reports_label(Model::Ut803, p, ut803_label(p)),
        super::parse::ut803_fields(p) == (range, mode, nib8, 0u8, nib10),
{
    let n = seq![range, 0u8, 0u8, 0u8, 0u8, mode, nib8, 0u8, nib10];
    lemma_packet_of(n);
    let p = packet_of(n);
    let ps = super::fields::ut803_positions(p);
    assert(ps[1] == range && ps[6] == mode && ps[7] == nib8 && ps[8] == 0 && ps[9] == nib10) by {
        assert(nibbles_of(p)[0] == range);
        assert(nibbles_of(p)[5] == mode);
        assert(nibbles_of(p)[6] == nib8);
        assert(nibbles_of(p)[7] == 0);
        assert(nibbles_of(p)[8] == nib10);
    }
    assert(super::parse::ut803_fields(p) == (range, mode, nib8, 0u8, nib10));
    p
}

proof fn lemma_constant_bits()
    ensures
        1u8 & 1 != 0,
        9u8 & 1 != 0,
        9u8 & 8 != 0,
        1u8 & 8 == 0,
        8u8 & 8 != 0,
        4u8 & 8 == 0,
        0u8 & 8 == 0,
        4u8 & 4 != 0,
        0u8 & 4 == 0,
{
    assert(1u8 & 1 != 0 && 9u8 & 1 != 0 && 9u8 & 8 != 0 && 1u8 & 8 == 0 && 8u8 & 8 != 0 && 4u8 & 8
        == 0 && 0u8 & 8 == 0 && 4u8 & 4 != 0 && 0u8 & 4 == 0) by (bit_vector);
}

/// A UT803 reading labelled `l` for each `(l, range, mode, nib8, nib10)`
/// row: an overload frame (position 8 bit 0) with these positions.
proof fn lemma_ut803_label(l: &'static str, range: u8, mode: u8, nib8: u8, nib10: u8)
    requires
        range < 16,
        mode < 16,
        nib8 == 1 || nib8 == 9,
        nib10 == 0 || nib10 == 4 || nib10 == 8,
        ({
            let alt = nib8 == 9;
            let dc = nib10 == 8;
            match super::model::ut803_info(mode, range, alt) {
                None => false,
                Some(i) => (if mode == 0xB {
                    if range == 4 {
                        if dc {
                            "DC mV"
                        } else {
                            "AC mV"
                        }
                    } else if dc {
                        "DC V"
                    } else {
                        "AC V"
                    }
                } else {
                    i.0
                }) == l,
            }
        }),
    ensures
        exists|p: Seq<u8>| reports_label(Model::Ut803, p, l@),
{
    lemma_constant_bits();
    let p = lemma_ut803_witness(range, mode, nib8, nib10);
    assert(reports_label(Model::Ut803, p, l@));
}

/// A UT804-layout reading labelled `l`: an idle frame with these
/// positions.
proof fn lemma_ut804_label(model: Model, l: &'static str, range: u8, mode: u8, acdc: u8, status: u8)
    requires
        model != Model::Ut803,
        range < 16,
        mode < 16,
        acdc < 16,
        status == 0 || status == 4,
        (if mode == 0xC && status == 4 {
            "Duty %"
        } else {
            match super::model::ut804_info(mode, range) {
                None => "",
                Some(i) => super::parse::ut804_name(mode, i.0, super::fields::ut804_coupling(mode, acdc)),
            }
        }) == l,
        l != "",
    ensures
        exists|p: Seq<u8>| reports_label(model, p, l@),
{
    lemma_constant_bits();
    let p = lemma_ut804_witness(model, range, mode, acdc, status);
    assert(reports_label(model, p, l@));
}

/// Every label [`reported_label`] lists for `model` is one some whole
/// packet reads as on that model.
proof fn lemma_label_reported(model: Model, l: &'static str)
    requires
        reported_label(model, l),
    ensures
        exists|p: Seq<u8>| reports_label(model, p, l@),
{
    if model == Model::Ut803 {
        if l == "DC V" {
            lemma_ut803_label(l, 0, 11, 1, 8);
        }
        else if l == "AC V" {
            lemma_ut803_label(l, 0, 11, 1, 4);
        }
        else if l == "DC mV" {
            lemma_ut803_label(l, 4, 11, 1, 8);
        }
        else if l == "AC mV" {
            lemma_ut803_label(l, 4, 11, 1, 4);
        }
        else if l == "Ω" {
            lemma_ut803_label(l, 0, 3, 1, 0);
        }
        else if l == "Capacitance" {
            lemma_ut803_label(l, 0, 6, 1, 0);
        }
        else if l == "Frequency" {
            lemma_ut803_label(l, 0, 2, 1, 0);
        }
        else if l == "Tachometer" {
            lemma_ut803_label(l, 0, 2, 9, 0);
        }
        else if l == "Diode" {
            lemma_ut803_label(l, 0, 1, 1, 0);
        }
        else if l == "Continuity" {
            lemma_ut803_label(l, 0, 5, 1, 0);
        }
        else if l == "Temperature" {
            lemma_ut803_label(l, 0, 4, 1, 0);
        }
        else if l == "µA" {
            lemma_ut803_label(l, 0, 13, 1, 0);
        }
        else if l == "mA" {
            lemma_ut803_label(l, 0, 15, 1, 0);
        }
        else if l == "A" {
            lemma_ut803_label(l, 0, 9, 1, 0);
        }
        else if l == "ADP" {
            lemma_ut803_label(l, 0, 14, 1, 0);
        }
    } else {
        if l == "DC V" {
            lemma_ut804_label(model, l, 1, 1, 2, 0);
        }
        else if l == "AC V" {
            lemma_ut804_label(model, l, 1, 1, 1, 0);
        }
        else if l == "AC+DC V" {
            lemma_ut804_label(model, l, 1, 1, 3, 0);
        }
        else if l == "DC mV" {
            lemma_ut804_label(model, l, 0, 3, 2, 0);
        }
        else if l == "Frequency" {
            lemma_ut804_label(model, l, 0, 12, 0, 0);
        }
        else if l == "Duty %" {
            lemma_ut804_label(model, l, 0, 12, 0, 4);
        }
        else if l == "Ω" {
            lemma_ut804_label(model, l, 1, 4, 0, 0);
        }
        else if l == "Continuity" {
            lemma_ut804_label(model, l, 0, 10, 0, 0);
        }
        else if l == "Diode" {
            lemma_ut804_label(model, l, 0, 11, 0, 0);
        }
        else if l == "Power" {
            lemma_ut804_label(model, l, 0, 14, 0, 0);
        }
        else if l == "Capacitance" {
            lemma_ut804_label(model, l, 1, 5, 0, 0);
        }
        else if l == "Temperature" {
            lemma_ut804_label(model, l, 0, 6, 0, 0);
        }
        else if l == "DC µA" {
            lemma_ut804_label(model, l, 0, 7, 2, 0);
        }
        else if l == "AC µA" {
            lemma_ut804_label(model, l, 0, 7, 1, 0);
        }
        else if l == "DC mA" {
            lemma_ut804_label(model, l, 0, 8, 2, 0);
        }
        else if l == "AC mA" {
            lemma_ut804_label(model, l, 0, 8, 1, 0);
        }
        else if l == "mA%" {
            lemma_ut804_label(model, l, 0, 15, 0, 0);
        }
        else if l == "DC A" {
            lemma_ut804_label(model, l, 0, 9, 2, 0);
        }
        else if l == "AC A" {
            lemma_ut804_label(model, l, 0, 9, 1, 0);
        }
    }
}


proof fn lemma_on(model: Model, member: bool, s: CaptureStep)
    requires
        member ==> asks_reported(model, s),
    ensures
        all_ask_reported(model, super::capture::on(model, member, s)),
{
}

/// Every step of a capture on `model` asks only for mode labels `model`'s
/// own parser reports.
pub proof fn capture_steps_ask_for_reported_labels(model: Model)
    ensures
        all_ask_reported(model, ut80x_capture_steps(model)),
{
    let ghost s0: Seq<CaptureStep> = seq![];
    lemma_on(model, true, gate_steps(gate_dcv(), "DC V", gate_ohm(), "\u{03A9}")[0]);
    lemma_concat(model, s0, on(model, true, gate_steps(gate_dcv(), "DC V", gate_ohm(), "\u{03A9}")[0]));
    let ghost s1 = s0 + on(model, true, gate_steps(gate_dcv(), "DC V", gate_ohm(), "\u{03A9}")[0]);
    lemma_on(model, true, gate_steps(gate_dcv(), "DC V", gate_ohm(), "\u{03A9}")[1]);
    lemma_concat(model, s1, on(model, true, gate_steps(gate_dcv(), "DC V", gate_ohm(), "\u{03A9}")[1]));
    let ghost s2 = s1 + on(model, true, gate_steps(gate_dcv(), "DC V", gate_ohm(), "\u{03A9}")[1]);
    lemma_on(model, true, gate_steps(gate_dcv(), "DC V", gate_ohm(), "\u{03A9}")[2]);
    lemma_concat(model, s2, on(model, true, gate_steps(gate_dcv(), "DC V", gate_ohm(), "\u{03A9}")[2]));
    let ghost s3 = s2 + on(model, true, gate_steps(gate_dcv(), "DC V", gate_ohm(), "\u{03A9}")[2]);
    lemma_on(model, true, expecting(basic_step("acv", (if is_handheld(model) { "Set meter to AC V (on a shared V position, press the blue button for AC)" } else { "Set meter to AC V" })), expect_mode("AC V")));
    lemma_concat(model, s3, on(model, true, expecting(basic_step("acv", (if is_handheld(model) { "Set meter to AC V (on a shared V position, press the blue button for AC)" } else { "Set meter to AC V" })), expect_mode("AC V"))));
    let ghost s4 = s3 + on(model, true, expecting(basic_step("acv", (if is_handheld(model) { "Set meter to AC V (on a shared V position, press the blue button for AC)" } else { "Set meter to AC V" })), expect_mode("AC V")));
    lemma_on(model, true, named(basic_step("acdcv", acdcv_instruction(model)), if sends_ut804_layout(model) { Some("AC+DC V") } else { None }));
    lemma_concat(model, s4, on(model, true, named(basic_step("acdcv", acdcv_instruction(model)), if sends_ut804_layout(model) { Some("AC+DC V") } else { None })));
    let ghost s5 = s4 + on(model, true, named(basic_step("acdcv", acdcv_instruction(model)), if sends_ut804_layout(model) { Some("AC+DC V") } else { None }));
    lemma_on(model, true, expecting(basic_step("dcmv", "Set meter to DC mV"), expect_mode("DC mV")));
    lemma_concat(model, s5, on(model, true, expecting(basic_step("dcmv", "Set meter to DC mV"), expect_mode("DC mV"))));
    let ghost s6 = s5 + on(model, true, expecting(basic_step("dcmv", "Set meter to DC mV"), expect_mode("DC mV")));
    lemma_on(model, model == Model::Ut803, expecting(basic_step("acmv", "Set meter to AC mV (if the meter has it)"), expect_mode("AC mV")));
    lemma_concat(model, s6, on(model, model == Model::Ut803, expecting(basic_step("acmv", "Set meter to AC mV (if the meter has it)"), expect_mode("AC mV"))));
    let ghost s7 = s6 + on(model, model == Model::Ut803, expecting(basic_step("acmv", "Set meter to AC mV (if the meter has it)"), expect_mode("AC mV")));
    lemma_on(model, is_handheld(model), expecting(basic_step("hz", "Set meter to Frequency (Hz): the dial position marked Hz, then the blue button until Hz shows"), expect_mode("Frequency")));
    lemma_concat(model, s7, on(model, is_handheld(model), expecting(basic_step("hz", "Set meter to Frequency (Hz): the dial position marked Hz, then the blue button until Hz shows"), expect_mode("Frequency"))));
    let ghost s8 = s7 + on(model, is_handheld(model), expecting(basic_step("hz", "Set meter to Frequency (Hz): the dial position marked Hz, then the blue button until Hz shows"), expect_mode("Frequency")));
    lemma_on(model, is_handheld(model), expecting(basic_step("duty", "Frequency mode: press the blue button until % shows (duty cycle)"), expect_mode("Duty %")));
    lemma_concat(model, s8, on(model, is_handheld(model), expecting(basic_step("duty", "Frequency mode: press the blue button until % shows (duty cycle)"), expect_mode("Duty %"))));
    let ghost s9 = s8 + on(model, is_handheld(model), expecting(basic_step("duty", "Frequency mode: press the blue button until % shows (duty cycle)"), expect_mode("Duty %")));
    lemma_on(model, true, expecting(basic_step("ohm", "Set meter to Resistance (\u{03A9})"), expect_mode("\u{03A9}")));
    lemma_concat(model, s9, on(model, true, expecting(basic_step("ohm", "Set meter to Resistance (\u{03A9})"), expect_mode("\u{03A9}"))));
    let ghost s10 = s9 + on(model, true, expecting(basic_step("ohm", "Set meter to Resistance (\u{03A9})"), expect_mode("\u{03A9}")));
    lemma_on(model, true, gate_steps(gate_dcv(), "DC V", gate_ohm(), "\u{03A9}")[3]);
    lemma_concat(model, s10, on(model, true, gate_steps(gate_dcv(), "DC V", gate_ohm(), "\u{03A9}")[3]));
    let ghost s11 = s10 + on(model, true, gate_steps(gate_dcv(), "DC V", gate_ohm(), "\u{03A9}")[3]);
    lemma_on(model, true, gate_steps(gate_dcv(), "DC V", gate_ohm(), "\u{03A9}")[4]);
    lemma_concat(model, s11, on(model, true, gate_steps(gate_dcv(), "DC V", gate_ohm(), "\u{03A9}")[4]));
    let ghost s12 = s11 + on(model, true, gate_steps(gate_dcv(), "DC V", gate_ohm(), "\u{03A9}")[4]);
    lemma_on(model, true, gate_steps(gate_dcv(), "DC V", gate_ohm(), "\u{03A9}")[5]);
    lemma_concat(model, s12, on(model, true, gate_steps(gate_dcv(), "DC V", gate_ohm(), "\u{03A9}")[5]));
    let ghost s13 = s12 + on(model, true, gate_steps(gate_dcv(), "DC V", gate_ohm(), "\u{03A9}")[5]);
    lemma_on(model, is_handheld(model), expecting(basic_step("cont", "Resistance position: press the blue button for Continuity"), expect_mode("Continuity")));
    lemma_concat(model, s13, on(model, is_handheld(model), expecting(basic_step("cont", "Resistance position: press the blue button for Continuity"), expect_mode("Continuity"))));
    let ghost s14 = s13 + on(model, is_handheld(model), expecting(basic_step("cont", "Resistance position: press the blue button for Continuity"), expect_mode("Continuity")));
    lemma_on(model, is_handheld(model), expecting(basic_step("diode", "Resistance position: press the blue button again for Diode"), expect_mode("Diode")));
    lemma_concat(model, s14, on(model, is_handheld(model), expecting(basic_step("diode", "Resistance position: press the blue button again for Diode"), expect_mode("Diode"))));
    let ghost s15 = s14 + on(model, is_handheld(model), expecting(basic_step("diode", "Resistance position: press the blue button again for Diode"), expect_mode("Diode")));
    lemma_on(model, is_handheld(model), expecting(needing(basic_step("power", "Set meter to W (power, if the meter has it): its adapter into a live mains outlet, and a load into the adapter"), power_adapter()), expect_mode("Power")));
    lemma_concat(model, s15, on(model, is_handheld(model), expecting(needing(basic_step("power", "Set meter to W (power, if the meter has it): its adapter into a live mains outlet, and a load into the adapter"), power_adapter()), expect_mode("Power"))));
    let ghost s16 = s15 + on(model, is_handheld(model), expecting(needing(basic_step("power", "Set meter to W (power, if the meter has it): its adapter into a live mains outlet, and a load into the adapter"), power_adapter()), expect_mode("Power")));
    lemma_on(model, true, expecting(basic_step("cap", "Set meter to Capacitance"), expect_mode("Capacitance")));
    lemma_concat(model, s16, on(model, true, expecting(basic_step("cap", "Set meter to Capacitance"), expect_mode("Capacitance"))));
    let ghost s17 = s16 + on(model, true, expecting(basic_step("cap", "Set meter to Capacitance"), expect_mode("Capacitance")));
    lemma_on(model, is_bench(model), expecting(basic_step("hz", "Set meter to Frequency (Hz)"), expect_mode("Frequency")));
    lemma_concat(model, s17, on(model, is_bench(model), expecting(basic_step("hz", "Set meter to Frequency (Hz)"), expect_mode("Frequency"))));
    let ghost s18 = s17 + on(model, is_bench(model), expecting(basic_step("hz", "Set meter to Frequency (Hz)"), expect_mode("Frequency")));
    lemma_on(model, is_bench(model), named(basic_step("duty", "Frequency mode: switch the display to Duty Cycle (%)"), if sends_ut804_layout(model) { Some("Duty %") } else { None }));
    lemma_concat(model, s18, on(model, is_bench(model), named(basic_step("duty", "Frequency mode: switch the display to Duty Cycle (%)"), if sends_ut804_layout(model) { Some("Duty %") } else { None })));
    let ghost s19 = s18 + on(model, is_bench(model), named(basic_step("duty", "Frequency mode: switch the display to Duty Cycle (%)"), if sends_ut804_layout(model) { Some("Duty %") } else { None }));
    lemma_on(model, model == Model::Ut803, expecting(basic_step("rpm", "Set meter to Tachometer / RPM"), expect_mode("Tachometer")));
    lemma_concat(model, s19, on(model, model == Model::Ut803, expecting(basic_step("rpm", "Set meter to Tachometer / RPM"), expect_mode("Tachometer"))));
    let ghost s20 = s19 + on(model, model == Model::Ut803, expecting(basic_step("rpm", "Set meter to Tachometer / RPM"), expect_mode("Tachometer")));
    lemma_on(model, is_bench(model), expecting(basic_step("diode", "Set meter to Diode"), expect_mode("Diode")));
    lemma_concat(model, s20, on(model, is_bench(model), expecting(basic_step("diode", "Set meter to Diode"), expect_mode("Diode"))));
    let ghost s21 = s20 + on(model, is_bench(model), expecting(basic_step("diode", "Set meter to Diode"), expect_mode("Diode")));
    lemma_on(model, is_bench(model), expecting(basic_step("cont", "Set meter to Continuity"), expect_mode("Continuity")));
    lemma_concat(model, s21, on(model, is_bench(model), expecting(basic_step("cont", "Set meter to Continuity"), expect_mode("Continuity"))));
    let ghost s22 = s21 + on(model, is_bench(model), expecting(basic_step("cont", "Set meter to Continuity"), expect_mode("Continuity")));
    lemma_on(model, true, expecting(needing(basic_step("temp", (if is_handheld(model) { "Set meter to temperature \u{00B0}C (if the meter has it; K-type thermocouple, if available)" } else { "Set meter to temperature (K-type thermocouple, if available)" })), thermocouple()), expect_mode("Temperature")));
    lemma_concat(model, s22, on(model, true, expecting(needing(basic_step("temp", (if is_handheld(model) { "Set meter to temperature \u{00B0}C (if the meter has it; K-type thermocouple, if available)" } else { "Set meter to temperature (K-type thermocouple, if available)" })), thermocouple()), expect_mode("Temperature"))));
    let ghost s23 = s22 + on(model, true, expecting(needing(basic_step("temp", (if is_handheld(model) { "Set meter to temperature \u{00B0}C (if the meter has it; K-type thermocouple, if available)" } else { "Set meter to temperature (K-type thermocouple, if available)" })), thermocouple()), expect_mode("Temperature")));
    lemma_on(model, is_handheld(model), expecting(needing(basic_step("temp_f", "Temperature: press the blue button for \u{00B0}F (if the meter has it; K-type thermocouple, if available)"), thermocouple()), expect_mode("Temperature")));
    lemma_concat(model, s23, on(model, is_handheld(model), expecting(needing(basic_step("temp_f", "Temperature: press the blue button for \u{00B0}F (if the meter has it; K-type thermocouple, if available)"), thermocouple()), expect_mode("Temperature"))));
    let ghost s24 = s23 + on(model, is_handheld(model), expecting(needing(basic_step("temp_f", "Temperature: press the blue button for \u{00B0}F (if the meter has it; K-type thermocouple, if available)"), thermocouple()), expect_mode("Temperature")));
    lemma_on(model, true, named(basic_step("dcua", "Set meter to DC \u{00B5}A"), if sends_ut804_layout(model) { Some("DC \u{00B5}A") } else { Some("\u{00B5}A") }));
    lemma_concat(model, s24, on(model, true, named(basic_step("dcua", "Set meter to DC \u{00B5}A"), if sends_ut804_layout(model) { Some("DC \u{00B5}A") } else { Some("\u{00B5}A") })));
    let ghost s25 = s24 + on(model, true, named(basic_step("dcua", "Set meter to DC \u{00B5}A"), if sends_ut804_layout(model) { Some("DC \u{00B5}A") } else { Some("\u{00B5}A") }));
    lemma_on(model, true, named(basic_step("acua", (if is_handheld(model) { "\u{00B5}A position: press the blue button for AC \u{00B5}A" } else { "Set meter to AC \u{00B5}A" })), if sends_ut804_layout(model) { Some("AC \u{00B5}A") } else { Some("\u{00B5}A") }));
    lemma_concat(model, s25, on(model, true, named(basic_step("acua", (if is_handheld(model) { "\u{00B5}A position: press the blue button for AC \u{00B5}A" } else { "Set meter to AC \u{00B5}A" })), if sends_ut804_layout(model) { Some("AC \u{00B5}A") } else { Some("\u{00B5}A") })));
    let ghost s26 = s25 + on(model, true, named(basic_step("acua", (if is_handheld(model) { "\u{00B5}A position: press the blue button for AC \u{00B5}A" } else { "Set meter to AC \u{00B5}A" })), if sends_ut804_layout(model) { Some("AC \u{00B5}A") } else { Some("\u{00B5}A") }));
    lemma_on(model, true, named(basic_step("dcma", "Set meter to DC mA"), if sends_ut804_layout(model) { Some("DC mA") } else { Some("mA") }));
    lemma_concat(model, s26, on(model, true, named(basic_step("dcma", "Set meter to DC mA"), if sends_ut804_layout(model) { Some("DC mA") } else { Some("mA") })));
    let ghost s27 = s26 + on(model, true, named(basic_step("dcma", "Set meter to DC mA"), if sends_ut804_layout(model) { Some("DC mA") } else { Some("mA") }));
    lemma_on(model, true, named(basic_step("acma", (if is_handheld(model) { "mA position: press the blue button for AC mA" } else { "Set meter to AC mA" })), if sends_ut804_layout(model) { Some("AC mA") } else { Some("mA") }));
    lemma_concat(model, s27, on(model, true, named(basic_step("acma", (if is_handheld(model) { "mA position: press the blue button for AC mA" } else { "Set meter to AC mA" })), if sends_ut804_layout(model) { Some("AC mA") } else { Some("mA") })));
    let ghost s28 = s27 + on(model, true, named(basic_step("acma", (if is_handheld(model) { "mA position: press the blue button for AC mA" } else { "Set meter to AC mA" })), if sends_ut804_layout(model) { Some("AC mA") } else { Some("mA") }));
    lemma_on(model, is_handheld(model), expecting(basic_step("ma_percent", "mA position: press the blue button until % shows (4-20 mA loop, if the meter has it)"), expect_mode("mA%")));
    lemma_concat(model, s28, on(model, is_handheld(model), expecting(basic_step("ma_percent", "mA position: press the blue button until % shows (4-20 mA loop, if the meter has it)"), expect_mode("mA%"))));
    let ghost s29 = s28 + on(model, is_handheld(model), expecting(basic_step("ma_percent", "mA position: press the blue button until % shows (4-20 mA loop, if the meter has it)"), expect_mode("mA%")));
    lemma_on(model, true, named(basic_step("dca", "Set meter to DC A"), if sends_ut804_layout(model) { Some("DC A") } else { Some("A") }));
    lemma_concat(model, s29, on(model, true, named(basic_step("dca", "Set meter to DC A"), if sends_ut804_layout(model) { Some("DC A") } else { Some("A") })));
    let ghost s30 = s29 + on(model, true, named(basic_step("dca", "Set meter to DC A"), if sends_ut804_layout(model) { Some("DC A") } else { Some("A") }));
    lemma_on(model, true, named(basic_step("aca", (if is_handheld(model) { "A position: press the blue button for AC A" } else { "Set meter to AC A" })), if sends_ut804_layout(model) { Some("AC A") } else { Some("A") }));
    lemma_concat(model, s30, on(model, true, named(basic_step("aca", (if is_handheld(model) { "A position: press the blue button for AC A" } else { "Set meter to AC A" })), if sends_ut804_layout(model) { Some("AC A") } else { Some("A") })));
    let ghost s31 = s30 + on(model, true, named(basic_step("aca", (if is_handheld(model) { "A position: press the blue button for AC A" } else { "Set meter to AC A" })), if sends_ut804_layout(model) { Some("AC A") } else { Some("A") }));
    lemma_on(model, model == Model::Ut803, expecting(basic_step("adp", "Set meter to ADP / logic"), expect_mode("ADP")));
    lemma_concat(model, s31, on(model, model == Model::Ut803, expecting(basic_step("adp", "Set meter to ADP / logic"), expect_mode("ADP"))));
    let ghost s32 = s31 + on(model, model == Model::Ut803, expecting(basic_step("adp", "Set meter to ADP / logic"), expect_mode("ADP")));
    lemma_on(model, is_bench(model), named(basic_step("ma_percent", "Set meter to % (4-20 mA loop)"), if sends_ut804_layout(model) { Some("mA%") } else { None }));
    lemma_concat(model, s32, on(model, is_bench(model), named(basic_step("ma_percent", "Set meter to % (4-20 mA loop)"), if sends_ut804_layout(model) { Some("mA%") } else { None })));
    let ghost s33 = s32 + on(model, is_bench(model), named(basic_step("ma_percent", "Set meter to % (4-20 mA loop)"), if sends_ut804_layout(model) { Some("mA%") } else { None }));
    lemma_on(model, is_buttons(model), waiting(basic_step("manual_range", "DC V: press RANGE, then Enter.")));
    lemma_concat(model, s33, on(model, is_buttons(model), waiting(basic_step("manual_range", "DC V: press RANGE, then Enter."))));
    let ghost s34 = s33 + on(model, is_buttons(model), waiting(basic_step("manual_range", "DC V: press RANGE, then Enter.")));
    lemma_on(model, is_buttons(model), waiting(basic_step("max_min", (if is_handheld(model) { "DC V, still on the manual range: press MAX MIN, then Enter." } else { "DC V with AUTO off: press MAX MIN, then Enter. Press EXIT, then SEND, afterwards." }))));
    lemma_concat(model, s34, on(model, is_buttons(model), waiting(basic_step("max_min", (if is_handheld(model) { "DC V, still on the manual range: press MAX MIN, then Enter." } else { "DC V with AUTO off: press MAX MIN, then Enter. Press EXIT, then SEND, afterwards." })))));
    let ghost s35 = s34 + on(model, is_buttons(model), waiting(basic_step("max_min", (if is_handheld(model) { "DC V, still on the manual range: press MAX MIN, then Enter." } else { "DC V with AUTO off: press MAX MIN, then Enter. Press EXIT, then SEND, afterwards." }))));
    lemma_on(model, is_handheld(model), expecting(waiting(basic_step("auto_range", "DC V: press EXIT until AUTO shows and turn SEND on again, then Enter.")), Expect { range: Some(RangeExpect::Auto), ..expect_nothing() }));
    lemma_concat(model, s35, on(model, is_handheld(model), expecting(waiting(basic_step("auto_range", "DC V: press EXIT until AUTO shows and turn SEND on again, then Enter.")), Expect { range: Some(RangeExpect::Auto), ..expect_nothing() })));
    let ghost s36 = s35 + on(model, is_handheld(model), expecting(waiting(basic_step("auto_range", "DC V: press EXIT until AUTO shows and turn SEND on again, then Enter.")), Expect { range: Some(RangeExpect::Auto), ..expect_nothing() }));
    lemma_on(model, is_buttons(model), waiting(basic_step("rel", (if is_handheld(model) { "DC V: press REL, then Enter. Press EXIT, then turn SEND on again, afterwards." } else { "DC V: press REL, then Enter. Press EXIT, then SEND, afterwards." }))));
    lemma_concat(model, s36, on(model, is_buttons(model), waiting(basic_step("rel", (if is_handheld(model) { "DC V: press REL, then Enter. Press EXIT, then turn SEND on again, afterwards." } else { "DC V: press REL, then Enter. Press EXIT, then SEND, afterwards." })))));
    let ghost s37 = s36 + on(model, is_buttons(model), waiting(basic_step("rel", (if is_handheld(model) { "DC V: press REL, then Enter. Press EXIT, then turn SEND on again, afterwards." } else { "DC V: press REL, then Enter. Press EXIT, then SEND, afterwards." }))));
    lemma_on(model, true, hold_step(model));
    lemma_concat(model, s37, on(model, true, hold_step(model)));
    let ghost s38 = s37 + on(model, true, hold_step(model));
    lemma_on(model, is_handheld(model), expecting(waiting(basic_step("fast_mode", "Turn the meter off, then back on at DC V while holding the blue button (4000 counts); turn SEND on again, then Enter.")), expect_mode("DC V")));
    lemma_concat(model, s38, on(model, is_handheld(model), expecting(waiting(basic_step("fast_mode", "Turn the meter off, then back on at DC V while holding the blue button (4000 counts); turn SEND on again, then Enter.")), expect_mode("DC V"))));
    let ghost s39 = s38 + on(model, is_handheld(model), expecting(waiting(basic_step("fast_mode", "Turn the meter off, then back on at DC V while holding the blue button (4000 counts); turn SEND on again, then Enter.")), expect_mode("DC V")));
    assert(s39 == ut80x_capture_steps(model));
}

/// For every step of a capture on `model` that asks for the mode label
/// `l`, some whole packet reads as `l` on that model, whatever the parser
/// makes of it: a step never waits for a mode its meter cannot report.
pub proof fn each_step_asks_for_a_label_its_parser_reports(model: Model, i: int)
    requires
        0 <= i < ut80x_capture_steps(model).len(),
        ut80x_capture_steps(model)[i].expect is Some,
        ut80x_capture_steps(model)[i].expect->0.mode is Some,
    ensures
        exists|p: Seq<u8>| reports_label(model, p, ut80x_capture_steps(model)[i].expect->0.mode->0@),
{
    capture_steps_ask_for_reported_labels(model);
    assert(asks_reported(model, ut80x_capture_steps(model)[i]));
    lemma_label_reported(model, ut80x_capture_steps(model)[i].expect->0.mode->0);
}

} // verus!
