use action_maps::{Action, ActionInput};

fn jump() -> Action {
    Action::from("Jump")
}

#[test]
fn press_reports_edge_once() {
    let mut ai = ActionInput::default();
    ai.clear();
    ai.press(jump());
    assert!(ai.pressed(jump()));
    assert!(ai.just_pressed(jump()));
    ai.clear();
    assert!(ai.pressed(jump()));
    assert!(!ai.just_pressed(jump()));
}

#[test]
fn second_press_in_a_tick_changes_nothing() {
    let mut ai = ActionInput::new();
    ai.press(jump());
    ai.clear();
    ai.press(jump());
    assert!(ai.pressed(jump()));
    assert!(!ai.just_pressed(jump()));
}

#[test]
fn release_edge_is_reported_once() {
    let mut ai = ActionInput::new();
    ai.press(jump());
    ai.clear();
    ai.release(jump());
    assert!(!ai.pressed(jump()));
    assert!(ai.just_released(jump()));
    ai.clear();
    assert!(!ai.pressed(jump()));
    assert!(!ai.just_released(jump()));
}

#[test]
fn releasing_an_unpressed_action_changes_nothing() {
    let mut ai = ActionInput::new();
    ai.release(jump());
    assert!(!ai.pressed(jump()));
    assert!(!ai.just_released(jump()));
}

#[test]
fn release_all_moves_pressed_to_just_released() {
    let mut ai = ActionInput::new();
    ai.press(Action::from("Left"));
    ai.press(Action::from("Up"));
    ai.release_all();
    assert!(ai.get_pressed().is_empty());
    let mut released: Vec<&str> = ai.get_just_released().iter().map(|a| a.name).collect();
    released.sort();
    assert_eq!(released, vec!["Left", "Up"]);
}

#[test]
fn reset_and_clear_just_pressed() {
    let mut ai = ActionInput::new();
    ai.press(jump());
    ai.clear_just_pressed(jump());
    assert!(ai.pressed(jump()));
    assert!(!ai.just_pressed(jump()));
    ai.press(Action::from("Fire"));
    ai.reset(Action::from("Fire"));
    assert!(!ai.pressed(Action::from("Fire")));
    assert!(!ai.just_pressed(Action::from("Fire")));
    assert!(!ai.just_released(Action::from("Fire")));
    ai.reset_all();
    assert!(ai.get_pressed().is_empty());
    assert!(ai.get_just_pressed().is_empty());
    assert!(ai.get_just_released().is_empty());
}

#[test]
fn any_pressed_and_any_just_pressed() {
    let mut ai = ActionInput::new();
    ai.press(Action::from("Left"));
    assert!(ai.any_pressed(&vec![Action::from("Right"), Action::from("Left")]));
    assert!(!ai.any_pressed(&vec![Action::from("Right")]));
    assert!(!ai.any_pressed(&vec![]));
    assert!(ai.any_just_pressed(&vec![Action::from("Left")]));
    ai.clear();
    assert!(!ai.any_just_pressed(&vec![Action::from("Left")]));
    assert_eq!(ai.get_pressed(), vec![Action::from("Left")]);
    assert!(ai.get_just_pressed().is_empty());
}

#[test]
fn press_then_release_in_one_tick_is_not_just_pressed() {
    let mut ai = ActionInput::new();
    ai.press(jump());
    ai.release(jump());
    assert!(!ai.pressed(jump()));
    assert!(!ai.just_pressed(jump()));
    assert!(ai.just_released(jump()));
    ai.press(Action::from("Fire"));
    ai.release_all();
    assert!(!ai.just_pressed(Action::from("Fire")));
    assert!(ai.get_just_pressed().is_empty());
}
