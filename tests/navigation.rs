use launcher_state::actions::{Action, Command, TextEvent};
use launcher_state::shortcut::{Keystroke, Modifiers};
use launcher_state::state::{Effect, StateItem, StateModel};

#[test]
fn init_holds_the_root_frame() {
    let stack = StateModel::init(10);
    assert_eq!(stack.len(), 1);
    assert_eq!(stack.active().view, 10);
    assert_eq!(stack.active().query, "");
    assert!(stack.active().actions.get().is_empty());
}

#[test]
fn pop_on_root_changes_nothing() {
    let mut stack = StateModel::init(10);
    stack.pop();
    stack.pop();
    assert_eq!(stack.len(), 1);
    assert_eq!(stack.active().view, 10);
}

#[test]
fn push_then_pop_restores_the_frame() {
    let mut stack = StateModel::init(1);
    stack.handle_event(&TextEvent::Input("abc".to_string()));
    stack.inner.stack[0].actions.update_local(vec![Action::new("i", "Run", None, Command::Run(5), false)]);
    stack.push(2);
    assert_eq!(stack.len(), 2);
    assert_eq!(stack.active().view, 2);
    assert_eq!(stack.active().query, "");
    stack.pop();
    assert_eq!(stack.len(), 1);
    let top = stack.active();
    assert_eq!(top.view, 1);
    assert_eq!(top.query, "abc");
    assert_eq!(top.actions.get()[0].label, "Run");
}

#[test]
fn stack_keeps_a_frame_through_pushes_and_pops() {
    let mut stack = StateModel::init(0);
    for round in 0..3u64 {
        stack.push(round + 1);
        stack.push(round + 2);
        for _ in 0..5 {
            stack.pop();
            assert!(stack.len() >= 1);
        }
    }
    assert_eq!(stack.len(), 1);
    assert_eq!(stack.active().view, 0);
}

#[test]
fn frame_events() {
    let mut stack = StateModel::init(0);
    stack.push(1);
    let escape = Keystroke::new(Modifiers::none(), "escape".to_string(), None);
    let other = Keystroke::new(Modifiers::none(), "a".to_string(), None);
    assert_eq!(stack.handle_event(&TextEvent::KeyDown(escape)), Effect::HideWindow);
    assert_eq!(stack.handle_event(&TextEvent::KeyDown(other)), Effect::Nothing);
    assert_eq!(stack.handle_event(&TextEvent::Blur), Effect::Nothing);
    assert_eq!(stack.len(), 2);
    assert_eq!(stack.handle_event(&TextEvent::Back), Effect::Nothing);
    assert_eq!(stack.len(), 1);
    assert_eq!(stack.handle_event(&TextEvent::Back), Effect::Nothing);
    assert_eq!(stack.len(), 1);
}

#[test]
fn fresh_frame() {
    let item = StateItem::init(3);
    assert_eq!(item.view, 3);
    assert!(item.query.is_empty());
    assert!(!item.actions.inner.show);
}

#[test]
fn keystrokes_reach_the_active_frame() {
    let mut stack = StateModel::init(0);
    stack.inner.stack[0].actions.update_local(vec![Action::new("r", "Root", None, Command::Run(1), false)]);
    stack.push(1);
    let enter = Keystroke::new(Modifiers::none(), "enter".to_string(), None);
    assert!(stack.check(&enter).is_none());
    stack.pop();
    assert_eq!(stack.check(&enter).unwrap().action, Command::Run(1));
}
