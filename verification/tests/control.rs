use shiftreg::actions::{Action, ProgStep};
use shiftreg::control::{
    auto_mode_step, immediate_mode_step, manual_mode_step, mode_step, top_menu_step, Button,
    ControlState,
};
use shiftreg::pattern::auto_mode;

#[test]
fn top_menu_selects_each_mode() {
    let r = top_menu_step(Button::Left);
    assert_eq!(r.next, ControlState::Manual);
    assert!(r.program.is_empty());
    let r = top_menu_step(Button::Center);
    assert_eq!(r.next, ControlState::Auto);
    assert!(r.program.is_empty());
    let r = top_menu_step(Button::Right);
    assert_eq!(r.next, ControlState::Immediate);
    assert!(r.program.is_empty());
    let r = top_menu_step(Button::Back);
    assert_eq!(r.next, ControlState::Exit);
    assert!(r.program.is_empty());
}

#[test]
fn manual_shift_commits_nothing() {
    let r = manual_mode_step(Button::Left);
    assert_eq!(r.next, ControlState::Manual);
    assert_eq!(r.program, vec![ProgStep::Act(Action::Serialize0)]);
    assert!(!r.program.contains(&ProgStep::Act(Action::Latch)));
    let r = manual_mode_step(Button::Right);
    assert_eq!(r.next, ControlState::Manual);
    assert_eq!(r.program, vec![ProgStep::Act(Action::Serialize1)]);
    assert!(!r.program.contains(&ProgStep::Act(Action::Latch)));
}

#[test]
fn manual_latch_is_explicit() {
    let r = manual_mode_step(Button::Center);
    assert_eq!(r.next, ControlState::Manual);
    assert_eq!(r.program, vec![ProgStep::Act(Action::Latch)]);
}

#[test]
fn immediate_selections_each_latch_at_once() {
    let r = immediate_mode_step(Button::Left);
    assert_eq!(r.next, ControlState::Immediate);
    assert_eq!(
        r.program,
        vec![ProgStep::Act(Action::Serialize0), ProgStep::Act(Action::Latch)]
    );
    let r = immediate_mode_step(Button::Right);
    assert_eq!(r.next, ControlState::Immediate);
    assert_eq!(
        r.program,
        vec![ProgStep::Act(Action::Serialize1), ProgStep::Act(Action::Latch)]
    );
    let r = immediate_mode_step(Button::Center);
    assert_eq!(r.next, ControlState::Immediate);
    assert_eq!(
        r.program,
        vec![ProgStep::Act(Action::Clear), ProgStep::Act(Action::Latch)]
    );
}

#[test]
fn cancel_returns_to_top_menu_without_actions() {
    let r = manual_mode_step(Button::Back);
    assert_eq!(r.next, ControlState::TopMenu);
    assert!(r.program.is_empty());
    let r = immediate_mode_step(Button::Back);
    assert_eq!(r.next, ControlState::TopMenu);
    assert!(r.program.is_empty());
}

#[test]
fn mode_step_dispatches_by_state() {
    let r = mode_step(ControlState::TopMenu, Button::Center);
    assert_eq!(r.next, ControlState::Auto);
    let r = mode_step(ControlState::Manual, Button::Left);
    assert_eq!(r.program, vec![ProgStep::Act(Action::Serialize0)]);
    let r = mode_step(ControlState::Immediate, Button::Center);
    assert_eq!(
        r.program,
        vec![ProgStep::Act(Action::Clear), ProgStep::Act(Action::Latch)]
    );
    let r = mode_step(ControlState::Exit, Button::Center);
    assert_eq!(r.next, ControlState::Exit);
    assert!(r.program.is_empty());
}

#[test]
fn auto_entry_runs_the_script_and_returns_to_menu() {
    let draws: Vec<u32> = vec![2; 24];
    let r = auto_mode_step(&draws);
    assert_eq!(r.next, ControlState::TopMenu);
    assert_eq!(r.program, auto_mode(&draws));
    assert_eq!(r.program[0], ProgStep::Act(Action::Clear));
}
