use shiftreg::actions::{run_program, Action, ProgStep};
use shiftreg::control::startup;
use shiftreg::driver::{clock_pin, shift_bit, sleep_ms, write_pin, Step};
use shiftreg::pins::PinMapping;

fn shift_steps(v: bool) -> Vec<Step> {
    vec![
        Step::Write(PinMapping::SER, v),
        Step::Wait(1),
        Step::Write(PinMapping::SRCLK, true),
        Step::Wait(1),
        Step::Write(PinMapping::SER, false),
        Step::Wait(1),
        Step::Write(PinMapping::SRCLK, false),
        Step::Wait(1),
    ]
}

fn pulse_steps(pin: PinMapping, level: bool) -> Vec<Step> {
    vec![
        Step::Write(pin, level),
        Step::Wait(1),
        Step::Write(pin, !level),
        Step::Wait(1),
    ]
}

#[test]
fn shift_bit_one_emits_the_protocol_sequence() {
    let mut out: Vec<Step> = Vec::new();
    shift_bit(&mut out, true);
    assert_eq!(out, shift_steps(true));
}

#[test]
fn shift_bit_zero_emits_four_writes_and_four_waits() {
    let mut out: Vec<Step> = Vec::new();
    shift_bit(&mut out, false);
    assert_eq!(out, shift_steps(false));
    let writes = out.iter().filter(|s| matches!(s, Step::Write(_, _))).count();
    let waits = out.iter().filter(|s| matches!(s, Step::Wait(_))).count();
    assert_eq!(writes, 4);
    assert_eq!(waits, 4);
}

#[test]
fn shift_bit_appends_to_an_existing_trace() {
    let mut out: Vec<Step> = vec![Step::Wait(9)];
    shift_bit(&mut out, true);
    assert_eq!(out[0], Step::Wait(9));
    assert_eq!(out[1..].to_vec(), shift_steps(true));
}

#[test]
fn clock_pin_pulses_high_then_low() {
    let mut out: Vec<Step> = Vec::new();
    clock_pin(&mut out, PinMapping::RCLK, true);
    assert_eq!(out, pulse_steps(PinMapping::RCLK, true));
}

#[test]
fn clock_pin_pulses_low_then_high() {
    let mut out: Vec<Step> = Vec::new();
    clock_pin(&mut out, PinMapping::SRCLR, false);
    assert_eq!(out, pulse_steps(PinMapping::SRCLR, false));
}

#[test]
fn write_pin_and_sleep_record_single_steps() {
    let mut out: Vec<Step> = Vec::new();
    write_pin(&mut out, PinMapping::OE, false);
    sleep_ms(&mut out, 44);
    assert_eq!(out, vec![Step::Write(PinMapping::OE, false), Step::Wait(44)]);
}

#[test]
fn act_clear_pulses_srclr_low() {
    let mut out: Vec<Step> = Vec::new();
    Action::Clear.act(&mut out);
    assert_eq!(out, pulse_steps(PinMapping::SRCLR, false));
}

#[test]
fn act_clear_inverted_is_a_single_high_write() {
    let mut out: Vec<Step> = Vec::new();
    Action::ClearInverted.act(&mut out);
    assert_eq!(out, vec![Step::Write(PinMapping::SRCLR, true)]);
}

#[test]
fn act_output_enable_is_a_single_low_write() {
    let mut out: Vec<Step> = Vec::new();
    Action::OutputEnableInverted.act(&mut out);
    assert_eq!(out, vec![Step::Write(PinMapping::OE, false)]);
}

#[test]
fn act_latch_pulses_rclk_high() {
    let mut out: Vec<Step> = Vec::new();
    Action::Latch.act(&mut out);
    assert_eq!(out, pulse_steps(PinMapping::RCLK, true));
}

#[test]
fn act_serialize_variants_shift_their_bit() {
    let mut out: Vec<Step> = Vec::new();
    Action::Serialize0.act(&mut out);
    assert_eq!(out, shift_steps(false));
    let mut out: Vec<Step> = Vec::new();
    Action::Serialize1.act(&mut out);
    assert_eq!(out, shift_steps(true));
}

#[test]
fn startup_initialises_each_role_once_before_any_write() {
    let out = startup();
    let expected = vec![
        Step::Init(PinMapping::SER),
        Step::Init(PinMapping::OE),
        Step::Init(PinMapping::RCLK),
        Step::Init(PinMapping::SRCLK),
        Step::Init(PinMapping::SRCLR),
        Step::Write(PinMapping::SRCLR, true),
        Step::Write(PinMapping::OE, false),
    ];
    assert_eq!(out, expected);
    // every role is initialised exactly once, and before every write to it
    for role in [
        PinMapping::SER,
        PinMapping::OE,
        PinMapping::RCLK,
        PinMapping::SRCLK,
        PinMapping::SRCLR,
    ] {
        let inits: Vec<usize> = out
            .iter()
            .enumerate()
            .filter(|(_, s)| matches!(s, Step::Init(r) if *r == role))
            .map(|(i, _)| i)
            .collect();
        assert_eq!(inits.len(), 1);
        for (j, s) in out.iter().enumerate() {
            if matches!(s, Step::Write(r, _) if *r == role) {
                assert!(inits[0] < j);
            }
        }
    }
}

#[test]
fn run_program_expands_actions_and_sleeps_in_order() {
    let prog = vec![
        ProgStep::Act(Action::Serialize1),
        ProgStep::Sleep(5),
        ProgStep::Act(Action::Latch),
    ];
    let mut out: Vec<Step> = Vec::new();
    run_program(&prog, &mut out);
    let mut expected = shift_steps(true);
    expected.push(Step::Wait(5));
    expected.extend(pulse_steps(PinMapping::RCLK, true));
    assert_eq!(out, expected);
}

#[test]
fn run_program_of_empty_program_adds_nothing() {
    let prog: Vec<ProgStep> = Vec::new();
    let mut out: Vec<Step> = vec![Step::Wait(3)];
    run_program(&prog, &mut out);
    assert_eq!(out, vec![Step::Wait(3)]);
}
