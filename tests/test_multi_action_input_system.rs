use action_maps::{
    make_multi_input, multi_universal_input_system, Action, GamepadButtonEvent, Key,
    KeyboardEvent, MouseButtonEvent, MultiInput, MultiScheme, UniversalInput,
};
use bevy_input::ButtonState;

const OS: &str = "linux";

fn tick(keys: Vec<KeyboardEvent>, mi: &mut MultiInput, ms: &MultiScheme) {
    let pads: Vec<GamepadButtonEvent> = Vec::new();
    let mice: Vec<MouseButtonEvent> = Vec::new();
    multi_universal_input_system(&keys, &pads, &mice, mi, ms, OS);
}

#[test]
fn multi_resource_responds_to_update() {
    let press_a = KeyboardEvent { key: Key::ScanCode(0x01), state: ButtonState::Pressed };
    let release_a = KeyboardEvent { key: Key::ScanCode(0x01), state: ButtonState::Released };
    let press_left = KeyboardEvent { key: Key::ScanCode(0xFF), state: ButtonState::Pressed };

    let mut mi = MultiInput::default();
    let mut ms = MultiScheme::default();

    make_multi_input(
        &mut mi,
        &mut ms,
        &vec![
            vec![(Action::from("Left"), UniversalInput::from_key(Key::ScanCode(0x01), OS))],
            vec![(Action::from("LeftArrow"), UniversalInput::from_key(Key::ScanCode(0xFF), OS))],
        ],
    );

    tick(vec![], &mut mi, &ms);

    tick(vec![press_a], &mut mi, &ms);
    assert!(mi.get(0).unwrap().pressed(Action::from("Left")));
    assert!(!mi.get(1).unwrap().pressed(Action::from("LeftArrow")));

    tick(vec![release_a, press_left], &mut mi, &ms);
    assert!(!mi.get(0).unwrap().pressed(Action::from("Left")));
    assert!(mi.get(1).unwrap().pressed(Action::from("LeftArrow")));
}
