use vstd::prelude::*;

use crate::actions::{act_spec, lemma_prog_spec_no_inits, prog_spec, Action, ProgStep};
use crate::driver::{is_write_to, no_inits, Step};
use crate::pattern::{auto_mode, auto_spec};
use crate::pins::PinMapping;

verus! {

/// A discrete selection event delivered by the user-interface
/// collaborator.
#[derive(Clone, Copy, Debug, PartialEq, Eq, Structural)]
pub enum Button {
    Left,
    Center,
    Right,
    Back,
}

/// The states of the mode controller.
#[derive(Clone, Copy, Debug, PartialEq, Eq, Structural)]
pub enum ControlState {
    TopMenu,
    Manual,
    Auto,
    Immediate,
    Exit,
}

/// The outcome of one controller step: the next state and the program to
/// run before the next event is polled.
#[derive(Debug)]
pub struct Transition {
    pub next: ControlState,
    pub program: Vec<ProgStep>,
}

/// Manual mode: left and right shift a bit without committing it, the
/// centre button latches, back returns to the top menu.
pub open spec fn manual_mode_spec(b: Button) -> (ControlState, Seq<ProgStep>) {
    match b {
        Button::Back => (ControlState::TopMenu, Seq::empty()),
        Button::Left => (ControlState::Manual, seq![ProgStep::Act(Action::Serialize0)]),
        Button::Center => (ControlState::Manual, seq![ProgStep::Act(Action::Latch)]),
        Button::Right => (ControlState::Manual, seq![ProgStep::Act(Action::Serialize1)]),
    }
}

/// Immediate mode: every shift or clear selection is committed at once by
/// a latch of its own; back returns to the top menu.
pub open spec fn immediate_mode_spec(b: Button) -> (ControlState, Seq<ProgStep>) {
    match b {
        Button::Back => (ControlState::TopMenu, Seq::empty()),
        Button::Left => (
            ControlState::Immediate,
            seq![ProgStep::Act(Action::Serialize0), ProgStep::Act(Action::Latch)],
        ),
        Button::Center => (
            ControlState::Immediate,
            seq![ProgStep::Act(Action::Clear), ProgStep::Act(Action::Latch)],
        ),
        Button::Right => (
            ControlState::Immediate,
            seq![ProgStep::Act(Action::Serialize1), ProgStep::Act(Action::Latch)],
        ),
    }
}

/// The top menu: left, centre and right pick a mode, back leaves the
/// application.
pub open spec fn top_menu_spec(b: Button) -> (ControlState, Seq<ProgStep>) {
    match b {
        Button::Back => (ControlState::Exit, Seq::empty()),
        Button::Left => (ControlState::Manual, Seq::empty()),
        Button::Center => (ControlState::Auto, Seq::empty()),
        Button::Right => (ControlState::Immediate, Seq::empty()),
    }
}

/// What one event does in each state.  The auto state consumes no events:
/// it runs its script on entry ([`auto_mode_step`]) and hands control
/// back; the exit state is terminal.
pub open spec fn mode_step_spec(s: ControlState, b: Button) -> (ControlState, Seq<ProgStep>) {
    match s {
        ControlState::TopMenu => top_menu_spec(b),
        ControlState::Manual => manual_mode_spec(b),
        ControlState::Immediate => immediate_mode_spec(b),
        ControlState::Auto => (ControlState::Auto, Seq::empty()),
        ControlState::Exit => (ControlState::Exit, Seq::empty()),
    }
}

/// One event of manual mode, per [`manual_mode_spec`].
pub fn manual_mode_step(b: Button) -> (r: Transition)
    ensures
        r.next == manual_mode_spec(b).0,
        r.program@ == manual_mode_spec(b).1,
{
    let mut program: Vec<ProgStep> = Vec::new();
    let next: ControlState = match b {
        Button::Back => ControlState::TopMenu,
        Button::Left => {
            program.push(ProgStep::Act(Action::Serialize0));
            ControlState::Manual
        },
        Button::Center => {
            program.push(ProgStep::Act(Action::Latch));
            ControlState::Manual
        },
        Button::Right => {
            program.push(ProgStep::Act(Action::Serialize1));
            ControlState::Manual
        },
    };
    Transition { next, program }
}

/// One event of immediate mode, per [`immediate_mode_spec`].
pub fn immediate_mode_step(b: Button) -> (r: Transition)
    ensures
        r.next == immediate_mode_spec(b).0,
        r.program@ == immediate_mode_spec(b).1,
{
    let mut program: Vec<ProgStep> = Vec::new();
    let next: ControlState = match b {
        Button::Back => ControlState::TopMenu,
        Button::Left => {
            program.push(ProgStep::Act(Action::Serialize0));
            program.push(ProgStep::Act(Action::Latch));
            ControlState::Immediate
        },
        Button::Center => {
            program.push(ProgStep::Act(Action::Clear));
            program.push(ProgStep::Act(Action::Latch));
            ControlState::Immediate
        },
        Button::Right => {
            program.push(ProgStep::Act(Action::Serialize1));
            program.push(ProgStep::Act(Action::Latch));
            ControlState::Immediate
        },
    };
    Transition { next, program }
}

/// One event of the top menu, per [`top_menu_spec`].
pub fn top_menu_step(b: Button) -> (r: Transition)
    ensures
        r.next == top_menu_spec(b).0,
        r.program@ == top_menu_spec(b).1,
{
    let next: ControlState = match b {
        Button::Back => ControlState::Exit,
        Button::Left => ControlState::Manual,
        Button::Center => ControlState::Auto,
        Button::Right => ControlState::Immediate,
    };
    Transition { next, program: Vec::new() }
}

/// One event of the controller, per [`mode_step_spec`].
pub fn mode_step(s: ControlState, b: Button) -> (r: Transition)
    ensures
        r.next == mode_step_spec(s, b).0,
        r.program@ == mode_step_spec(s, b).1,
{
    match s {
        ControlState::TopMenu => top_menu_step(b),
        ControlState::Manual => manual_mode_step(b),
        ControlState::Immediate => immediate_mode_step(b),
        ControlState::Auto => Transition { next: ControlState::Auto, program: Vec::new() },
        ControlState::Exit => Transition { next: ControlState::Exit, program: Vec::new() },
    }
}

/// Entering auto mode runs the whole demonstration script and hands
/// control back to the top menu.  The 24 raw random draws the script
/// consumes are supplied by the platform layer.
pub fn auto_mode_step(draws: &Vec<u32>) -> (r: Transition)
    requires
        draws@.len() == 24,
    ensures
        r.next == ControlState::TopMenu,
        r.program@ == auto_spec(draws@),
{
    Transition { next: ControlState::TopMenu, program: auto_mode(draws) }
}

/// The fixed startup trace: configure each of the five roles as an output
/// once, release the active-low clear line, then enable the outputs.
pub open spec fn startup_spec() -> Seq<Step> {
    seq![
        Step::Init(PinMapping::SER),
        Step::Init(PinMapping::OE),
        Step::Init(PinMapping::RCLK),
        Step::Init(PinMapping::SRCLK),
        Step::Init(PinMapping::SRCLR),
    ] + act_spec(Action::ClearInverted) + act_spec(Action::OutputEnableInverted)
}

/// Emit the startup trace, exactly [`startup_spec`].
pub fn startup() -> (out: Vec<Step>)
    ensures
        out@ == startup_spec(),
{
    let mut out: Vec<Step> = Vec::new();
    out.push(Step::Init(PinMapping::SER));
    out.push(Step::Init(PinMapping::OE));
    out.push(Step::Init(PinMapping::RCLK));
    out.push(Step::Init(PinMapping::SRCLK));
    out.push(Step::Init(PinMapping::SRCLR));
    Action::ClearInverted.act(&mut out);
    Action::OutputEnableInverted.act(&mut out);
    proof {
        assert(out@ =~= startup_spec());
    }
    out
}

/// Where `role`'s initialisation stands in the startup trace.
pub open spec fn init_index(role: PinMapping) -> int {
    match role {
        PinMapping::SER => 0,
        PinMapping::OE => 1,
        PinMapping::RCLK => 2,
        PinMapping::SRCLK => 3,
        PinMapping::SRCLR => 4,
    }
}

/// Law: in a session trace — the startup trace followed by anything that
/// performs no initialisation of its own, such as any program expansion —
/// every pin role is initialised exactly once, and that initialisation
/// precedes every write to the role.
pub proof fn lemma_init_once_before_writes(rest: Seq<Step>, role: PinMapping)
    requires
        no_inits(rest),
    ensures
        ({
            let t = startup_spec() + rest;
            &&& 0 <= init_index(role) < t.len()
            &&& t[init_index(role)] == Step::Init(role)
            &&& forall|i: int|
                0 <= i < t.len() && #[trigger] t[i] == Step::Init(role) ==> i == init_index(role)
            &&& forall|j: int|
                0 <= j < t.len() && is_write_to(#[trigger] t[j], role) ==> init_index(role) < j
        }),
{
    let t = startup_spec() + rest;
    assert(startup_spec().len() == 7);
    assert forall|i: int| 0 <= i < t.len() && #[trigger] t[i] == Step::Init(role) implies i
        == init_index(role) by {
        if i >= 7 {
            assert(t[i] == rest[i - 7]);
            assert(!(rest[i - 7] is Init));
        }
    }
    assert forall|j: int| 0 <= j < t.len() && is_write_to(#[trigger] t[j], role) implies init_index(
        role,
    ) < j by {
        if j < 7 {
            assert(!(is_write_to(t[0], role)));
            assert(!(is_write_to(t[1], role)));
            assert(!(is_write_to(t[2], role)));
            assert(!(is_write_to(t[3], role)));
            assert(!(is_write_to(t[4], role)));
        }
    }
}

/// Law: a whole session — the startup trace followed by the expansion of
/// any action program — initialises every pin role exactly once, before
/// any write to that role.
pub proof fn lemma_session_init_discipline(p: Seq<ProgStep>, role: PinMapping)
    ensures
        ({
            let t = startup_spec() + prog_spec(p);
            &&& 0 <= init_index(role) < t.len()
            &&& t[init_index(role)] == Step::Init(role)
            &&& forall|i: int|
                0 <= i < t.len() && #[trigger] t[i] == Step::Init(role) ==> i == init_index(role)
            &&& forall|j: int|
                0 <= j < t.len() && is_write_to(#[trigger] t[j], role) ==> init_index(role) < j
        }),
{
    lemma_prog_spec_no_inits(p);
    lemma_init_once_before_writes(prog_spec(p), role);
}

/// Law: in immediate mode every shift or clear selection is followed by
/// exactly one latch, with no other action in between.
pub proof fn lemma_immediate_latches(b: Button)
    requires
        b != Button::Back,
    ensures
        ({
            let prog = immediate_mode_spec(b).1;
            &&& prog.len() == 2
            &&& prog[1] == ProgStep::Act(Action::Latch)
            &&& (prog[0] == ProgStep::Act(Action::Serialize0) || prog[0] == ProgStep::Act(
                Action::Serialize1,
            ) || prog[0] == ProgStep::Act(Action::Clear))
        }),
{
}

/// Law: in manual mode a shift selection commits nothing — its program
/// contains no latch; a latch is only run when the latch button itself is
/// pressed.
pub proof fn lemma_manual_no_latch(b: Button)
    requires
        b == Button::Left || b == Button::Right,
    ensures
        forall|i: int|
            0 <= i < manual_mode_spec(b).1.len() ==> #[trigger] manual_mode_spec(b).1[i]
                != ProgStep::Act(Action::Latch),
{
}

/// Law: a cancel event in manual or immediate mode returns control to the
/// top menu and runs no further actions.
pub proof fn lemma_cancel_returns_to_top_menu(s: ControlState)
    requires
        s == ControlState::Manual || s == ControlState::Immediate,
    ensures
        mode_step_spec(s, Button::Back).0 == ControlState::TopMenu,
        mode_step_spec(s, Button::Back).1 == Seq::<ProgStep>::empty(),
{
}

} // verus!
