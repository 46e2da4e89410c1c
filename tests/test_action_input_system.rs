use action_maps::{
    universal_input_system, Action, ActionInput, ControlScheme, GamepadButtonEvent, Key,
    KeyboardEvent, MouseButtonEvent, UniversalInput,
};
use bevy_input::keyboard::KeyCode;
use bevy_input::ButtonState;

fn tick(keys: Vec<KeyboardEvent>, ai: &mut ActionInput, cs: &ControlScheme) {
    let pads: Vec<GamepadButtonEvent> = Vec::new();
    let mice: Vec<MouseButtonEvent> = Vec::new();
    universal_input_system(&keys, &pads, &mice, ai, cs, "linux");
}

#[test]
fn resource_responds_to_update() {
    let press_key = KeyboardEvent { key: Key::KeyCode(KeyCode::KeyA), state: ButtonState::Pressed };
    let release_key =
        KeyboardEvent { key: Key::KeyCode(KeyCode::KeyA), state: ButtonState::Released };

    let mut cs = ControlScheme::default();
    cs.insert(Action::from("A"), UniversalInput::from(KeyCode::KeyA));
    let mut ai = ActionInput::default();
    tick(vec![], &mut ai, &cs);

    // press key
    tick(vec![press_key], &mut ai, &cs);
    assert!(ai.pressed(Action::from("A")));
    assert!(ai.just_pressed(Action::from("A")));
    tick(vec![], &mut ai, &cs);

    assert!(ai.pressed(Action::from("A")));
    assert!(!ai.just_pressed(Action::from("A")));

    // release key
    tick(vec![release_key], &mut ai, &cs);
    assert!(!ai.pressed(Action::from("A")));

    tick(vec![], &mut ai, &cs);
    assert!(!ai.pressed(Action::from("A")));
}
