use vstd::prelude::*;

use crate::pins::PinMapping;

verus! {

/// One observable pin-level effect: configuring a line as an output,
/// driving it to a level, or pausing for a number of milliseconds.
///
/// The library never touches hardware itself; it appends `Step`s to a
/// trace, and the platform layer replays the trace in order.
#[derive(Clone, Copy, Debug, PartialEq, Eq, Structural)]
pub enum Step {
    Init(PinMapping),
    Write(PinMapping, bool),
    Wait(u64),
}

/// The exact effect sequence of shifting one bit of value `v` into the
/// register: drive SER to `v`, clock SRCLK high, release SER, drive SRCLK
/// low again, with a one-millisecond pause after every edge so the data
/// line is stable around the clock edge.
pub open spec fn shift_bit_spec(v: bool) -> Seq<Step> {
    seq![
        Step::Write(PinMapping::SER, v),
        Step::Wait(1),
        Step::Write(PinMapping::SRCLK, true),
        Step::Wait(1),
        Step::Write(PinMapping::SER, false),
        Step::Wait(1),
        Step::Write(PinMapping::SRCLK, false),
        Step::Wait(1),
    ]
}

/// The exact effect sequence of pulsing `pin`: drive it to `level`, hold
/// one millisecond, drive it back to the opposite level, hold again.
pub open spec fn clock_pin_spec(pin: PinMapping, level: bool) -> Seq<Step> {
    seq![
        Step::Write(pin, level),
        Step::Wait(1),
        Step::Write(pin, !level),
        Step::Wait(1),
    ]
}

/// Record a single level write to `pin`.
pub fn write_pin(out: &mut Vec<Step>, pin: PinMapping, level: bool)
    ensures
        final(out)@ == old(out)@ + seq![Step::Write(pin, level)],
{
    out.push(Step::Write(pin, level));
}

/// Record a pause of `t` milliseconds.
pub fn sleep_ms(out: &mut Vec<Step>, t: u64)
    ensures
        final(out)@ == old(out)@ + seq![Step::Wait(t)],
{
    out.push(Step::Wait(t));
}

/// Shift one bit of value `state` into the register, emitting exactly the
/// four writes and four waits of [`shift_bit_spec`].
pub fn shift_bit(out: &mut Vec<Step>, state: bool)
    ensures
        final(out)@ == old(out)@ + shift_bit_spec(state),
{
    write_pin(out, PinMapping::SER, state);
    sleep_ms(out, 1);
    write_pin(out, PinMapping::SRCLK, true);
    sleep_ms(out, 1);
    write_pin(out, PinMapping::SER, false);
    sleep_ms(out, 1);
    write_pin(out, PinMapping::SRCLK, false);
    sleep_ms(out, 1);
    assert(out@ =~= old(out)@ + shift_bit_spec(state));
}

/// Pulse `pin` to `state` and back, emitting exactly [`clock_pin_spec`].
pub fn clock_pin(out: &mut Vec<Step>, pin: PinMapping, state: bool)
    ensures
        final(out)@ == old(out)@ + clock_pin_spec(pin, state),
{
    write_pin(out, pin, state);
    sleep_ms(out, 1);
    write_pin(out, pin, !state);
    sleep_ms(out, 1);
    assert(out@ =~= old(out)@ + clock_pin_spec(pin, state));
}

/// Holds when a trace performs no pin initialisation, only writes and
/// waits.
pub open spec fn no_inits(s: Seq<Step>) -> bool {
    forall|i: int| 0 <= i < s.len() ==> !(#[trigger] s[i] is Init)
}

/// Holds when `s` writes a level to `role`.
pub open spec fn is_write_to(s: Step, role: PinMapping) -> bool {
    match s {
        Step::Write(p, _level) => p == role,
        _ => false,
    }
}

/// Law: shifting a bit issues four writes and four waits — SER then SRCLK
/// high then SER low then SRCLK low, each followed by a one-millisecond
/// pause — whatever the bit's value.
pub proof fn lemma_shift_bit_shape(v: bool)
    ensures
        shift_bit_spec(v).len() == 8,
        forall|i: int| 0 <= i < 8 && i % 2 == 0 ==> #[trigger] shift_bit_spec(v)[i] is Write,
        forall|i: int| 0 <= i < 8 && i % 2 == 1 ==> #[trigger] shift_bit_spec(v)[i] == Step::Wait(1),
{
}

} // verus!
