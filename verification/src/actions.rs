use vstd::prelude::*;

use crate::driver::{clock_pin, clock_pin_spec, no_inits, shift_bit, shift_bit_spec, write_pin,
    Step};
use crate::pins::PinMapping;

verus! {

/// The atomic register operations.  Each variant is a pure instruction;
/// executing it appends a fixed burst of pin-level steps to the trace.
#[derive(Clone, Copy, Debug, PartialEq, Eq, Structural)]
pub enum Action {
    Clear,
    ClearInverted,
    OutputEnableInverted,
    Serialize0,
    Serialize1,
    Latch,
}

/// The exact pin-level steps each action performs: the active-low clear is
/// pulsed low, its release is a single high write, output enable is a
/// single low write, the shift actions clock one bit, and latch pulses
/// RCLK high.
pub open spec fn act_spec(a: Action) -> Seq<Step> {
    match a {
        Action::ClearInverted => seq![Step::Write(PinMapping::SRCLR, true)],
        Action::Clear => clock_pin_spec(PinMapping::SRCLR, false),
        Action::OutputEnableInverted => seq![Step::Write(PinMapping::OE, false)],
        Action::Serialize0 => shift_bit_spec(false),
        Action::Serialize1 => shift_bit_spec(true),
        Action::Latch => clock_pin_spec(PinMapping::RCLK, true),
    }
}

impl Action {
    /// Execute the action by appending exactly [`act_spec`] to the trace.
    pub fn act(&self, out: &mut Vec<Step>)
        ensures
            final(out)@ == old(out)@ + act_spec(*self),
    {
        match self {
            Action::ClearInverted => {
                write_pin(out, PinMapping::SRCLR, true);
            }
            Action::Clear => {
                clock_pin(out, PinMapping::SRCLR, false);
            }
            Action::OutputEnableInverted => {
                write_pin(out, PinMapping::OE, false);
            }
            Action::Serialize0 => {
                shift_bit(out, false);
            }
            Action::Serialize1 => {
                shift_bit(out, true);
            }
            Action::Latch => {
                clock_pin(out, PinMapping::RCLK, true);
            }
        }
    }
}

/// One step of an action program: either run an action or pause for `t`
/// milliseconds.  A pattern is a sequence of these.
#[derive(Clone, Copy, Debug, PartialEq, Eq, Structural)]
pub enum ProgStep {
    Act(Action),
    Sleep(u64),
}

/// The pin-level steps one program step expands to.
pub open spec fn prog_step_spec(p: ProgStep) -> Seq<Step> {
    match p {
        ProgStep::Act(a) => act_spec(a),
        ProgStep::Sleep(t) => seq![Step::Wait(t)],
    }
}

/// The pin-level steps a whole program expands to, in program order.
pub open spec fn prog_spec(p: Seq<ProgStep>) -> Seq<Step>
    decreases p.len(),
{
    if p.len() == 0 {
        Seq::empty()
    } else {
        prog_spec(p.drop_last()) + prog_step_spec(p.last())
    }
}

/// Execute a program by appending exactly its pin-level expansion to the
/// trace.
pub fn run_program(prog: &Vec<ProgStep>, out: &mut Vec<Step>)
    ensures
        final(out)@ == old(out)@ + prog_spec(prog@),
{
    let mut i: usize = 0;
    while i < prog.len()
        invariant
            i <= prog.len(),
            out@ == old(out)@ + prog_spec(prog@.take(i as int)),
        decreases prog.len() - i,
    {
        match prog[i] {
            ProgStep::Act(a) => {
                a.act(out);
            }
            ProgStep::Sleep(t) => {
                crate::driver::sleep_ms(out, t);
            }
        }
        proof {
            assert(prog@.take(i + 1).drop_last() =~= prog@.take(i as int));
            assert(prog@.take(i + 1).last() == prog@[i as int]);
        }
        i = i + 1;
    }
    proof {
        assert(prog@.take(prog@.len() as int) =~= prog@);
    }
}

/// Actions only write pins and wait: none of them initialises a pin.
pub proof fn lemma_act_spec_no_inits(a: Action)
    ensures
        no_inits(act_spec(a)),
{
}

/// Programs only run actions and wait: their pin-level expansion performs
/// no pin initialisation.
pub proof fn lemma_prog_spec_no_inits(p: Seq<ProgStep>)
    ensures
        no_inits(prog_spec(p)),
    decreases p.len(),
{
    if p.len() > 0 {
        lemma_prog_spec_no_inits(p.drop_last());
        match p.last() {
            ProgStep::Act(a) => lemma_act_spec_no_inits(a),
            ProgStep::Sleep(_t) => {},
        }
    }
}

} // verus!
