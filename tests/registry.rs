use launcher_state::actions::{Action, ActionsModel, Command, TextEvent};
use launcher_state::shortcut::{Keystroke, Modifiers, Shortcut};

fn plain(key: &str) -> Keystroke {
    Keystroke::new(Modifiers::none(), key.to_string(), None)
}

fn with_command(key: &str) -> Keystroke {
    Keystroke::new(Modifiers::command_only(), key.to_string(), None)
}

fn sample() -> ActionsModel {
    let mut model = ActionsModel::init();
    let a = Action::new("file", "Open", None, Command::Run(1), false);
    let b = Action::new("copy", "Copy", Some(Shortcut::cmd("b")), Command::Run(2), false);
    model.update_local(vec![a]);
    model.update_global(vec![b]);
    model
}

#[test]
fn combined_of_empty_lists_is_empty() {
    let model = ActionsModel::init();
    assert!(model.get().is_empty());
    assert!(model.inner.render().is_none());
    assert!(model.check(&plain("enter")).is_none());
}

#[test]
fn combined_binds_enter_and_appends_toggle() {
    let model = sample();
    let c = model.get();
    assert_eq!(c.len(), 3);
    assert_eq!(c[0].label, "Open");
    assert_eq!(c[0].shortcut.as_ref().unwrap().inner, plain("enter"));
    assert_eq!(c[0].action, Command::Run(1));
    assert!(!c[0].hide);
    assert_eq!(c[1].label, "Copy");
    assert_eq!(c[1].shortcut.as_ref().unwrap().inner, with_command("b"));
    assert_eq!(c[2].label, "Actions");
    assert_eq!(c[2].shortcut.as_ref().unwrap().inner, with_command("k"));
    assert_eq!(c[2].action, Command::ToggleActions);
    assert!(c[2].hide);
}

#[test]
fn local_actions_come_before_global_ones() {
    let mut model = ActionsModel::init();
    model.update_global(vec![Action::new("g", "Global", None, Command::Run(7), false)]);
    model.update_local(vec![
        Action::new("l", "First", None, Command::Run(8), false),
        Action::new("l", "Second", Some(Shortcut::simple("x")), Command::Run(9), false),
    ]);
    let labels: Vec<String> = model.get().into_iter().map(|a| a.label).collect();
    assert_eq!(labels, vec!["First", "Second", "Global", "Actions"]);
    let c = model.get();
    assert_eq!(c[1].shortcut.as_ref().unwrap().inner, plain("x"));
}

#[test]
fn global_actions_alone_are_combined() {
    let mut model = ActionsModel::init();
    model.update_global(vec![Action::new("g", "Only", Some(Shortcut::cmd("o")), Command::Run(3), false)]);
    let c = model.get();
    assert_eq!(c.len(), 2);
    assert_eq!(c[0].shortcut.as_ref().unwrap().inner, plain("enter"));
    assert_eq!(c[1].label, "Actions");
}

#[test]
fn check_finds_each_action_by_its_shortcut() {
    let model = sample();
    assert_eq!(model.check(&plain("enter")).unwrap().label, "Open");
    assert_eq!(model.check(&with_command("b")).unwrap().label, "Copy");
    let toggle = model.check(&with_command("k")).unwrap();
    assert_eq!(toggle.label, "Actions");
    assert!(toggle.hide);
    assert!(model.check(&plain("escape")).is_none());
}

#[test]
fn check_returns_the_first_of_two_equal_shortcuts() {
    let mut model = ActionsModel::init();
    model.update_local(vec![
        Action::new("a", "A", None, Command::Run(1), false),
        Action::new("b", "B", Some(Shortcut::cmd("d")), Command::Run(2), false),
        Action::new("c", "C", Some(Shortcut::cmd("d")), Command::Run(3), false),
    ]);
    assert_eq!(model.check(&with_command("d")).unwrap().label, "B");
}

#[test]
fn hidden_toggle_is_left_out_of_the_list() {
    let mut model = sample();
    let labels: Vec<String> = model.inner.list.iter().map(|a| a.label.clone()).collect();
    assert_eq!(labels, vec!["Open", "Copy"]);
    let cands: Vec<String> = model.inner.candidates().into_iter().map(|a| a.label).collect();
    assert_eq!(cands, vec!["Open", "Copy"]);
    model.inner.list_actions(&vec![1, 0]);
    let labels: Vec<String> = model.inner.list.iter().map(|a| a.label.clone()).collect();
    assert_eq!(labels, vec!["Copy", "Open"]);
    assert_eq!(model.check(&with_command("k")).unwrap().action, Command::ToggleActions);
}

#[test]
fn ranking_drops_indices_past_the_candidates() {
    let mut model = sample();
    model.inner.list_actions(&vec![5, 1, 2]);
    let labels: Vec<String> = model.inner.list.iter().map(|a| a.label.clone()).collect();
    assert_eq!(labels, vec!["Copy"]);
    model.inner.list_actions(&vec![]);
    assert!(model.inner.list.is_empty());
}

#[test]
fn toggle_twice_returns_show() {
    let mut model = sample();
    assert!(!model.inner.popup());
    assert_eq!(model.inner.invoke(Command::ToggleActions), None);
    assert!(model.inner.popup());
    assert_eq!(model.inner.invoke(Command::ToggleActions), None);
    assert!(!model.inner.popup());
    assert_eq!(model.inner.invoke(Command::Run(4)), Some(4));
    assert!(!model.inner.popup());
}

#[test]
fn query_events_close_the_popup() {
    let mut model = sample();
    model.inner.toggle();
    assert!(!model.inner.handle_event(&TextEvent::Blur));
    assert!(!model.inner.show);
    model.inner.toggle();
    assert!(!model.inner.handle_event(&TextEvent::Back));
    assert!(!model.inner.show);
    model.inner.toggle();
    assert!(!model.inner.handle_event(&TextEvent::KeyDown(plain("a"))));
    assert!(model.inner.show);
    assert!(!model.inner.handle_event(&TextEvent::KeyDown(plain("escape"))));
    assert!(!model.inner.show);
    assert!(model.inner.handle_event(&TextEvent::Input("co".to_string())));
    assert_eq!(model.inner.query, "co");
}

#[test]
fn render_shows_primary_and_toggle() {
    let model = sample();
    let (primary, toggle) = model.inner.render().unwrap();
    assert_eq!(primary.label, "Open");
    assert_eq!(primary.shortcut.unwrap().inner, plain("enter"));
    assert_eq!(toggle.label, "Actions");
}
