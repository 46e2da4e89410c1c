use action_maps::{Action, ActionMap, InputType, UniversalInput};
use bevy_input::keyboard::KeyCode;
use bevy_input::mouse::MouseButton;

#[test]
fn test_action_map() {
    let mut action_map = ActionMap::new();
    action_map.register(Action::from("test"), UniversalInput::from(KeyCode::KeyA));

    let found = action_map.get_action(UniversalInput::from(KeyCode::KeyA)).unwrap();
    assert_eq!(found, Action::from("test"));
}

#[test]
fn action_map_returns_first_registration() {
    let mut action_map = ActionMap::default();
    action_map.register(Action::from("first"), UniversalInput::KeyW);
    action_map.register(Action::from("second"), UniversalInput::KeyW);
    action_map.register(Action::from("shoot"), UniversalInput::MouseLeft);
    assert_eq!(action_map.get_action(UniversalInput::KeyW), Some(Action::from("first")));
    assert_eq!(
        action_map.get_action(UniversalInput::from(MouseButton::Left)),
        Some(Action::from("shoot"))
    );
    assert_eq!(action_map.get_action(UniversalInput::KeyS), None);
    assert_eq!(action_map.get_action(UniversalInput::GamepadSouth(0)), None);
}

#[test]
fn input_types_by_device() {
    assert_eq!(UniversalInput::KeyA.input_type(), InputType::Keyboard);
    assert_eq!(UniversalInput::Unknown(7).input_type(), InputType::Keyboard);
    assert_eq!(UniversalInput::MouseOther(9).input_type(), InputType::Mouse);
    assert_eq!(UniversalInput::GamepadOther(3, 1).input_type(), InputType::GamepadButton);
    assert_eq!(UniversalInput::GamepadDPadLeft(2).input_type(), InputType::GamepadButton);
}
