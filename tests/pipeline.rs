use action_maps::{
    make_controls, multi_universal_input_system, universal_input_system, unresolved_keys,
    update_inputs, Action,
    ActionInput, ControlScheme, GamepadButtonEvent, Key, KeyboardEvent, MouseButtonEvent,
    MultiInput, MultiScheme, UniversalInput,
};
use bevy_input::gamepad::{Gamepad, GamepadButton, GamepadButtonInput, GamepadButtonType};
use bevy_input::keyboard::KeyCode;
use bevy_input::mouse::MouseButton;
use bevy_input::ButtonState;

const PRESS: u32 = 700_000;
const RELEASE: u32 = 300_000;

fn key(code: KeyCode, state: ButtonState) -> KeyboardEvent {
    KeyboardEvent { key: Key::KeyCode(code), state }
}

fn pad_event(value: u32) -> GamepadButtonEvent {
    GamepadButtonEvent {
        button: GamepadButton::new(Gamepad::new(0), GamepadButtonType::South),
        value,
        press_threshold: PRESS,
        release_threshold: RELEASE,
    }
}

fn single_tick(
    keys: Vec<KeyboardEvent>,
    pads: Vec<GamepadButtonEvent>,
    mice: Vec<MouseButtonEvent>,
    ai: &mut ActionInput,
    cs: &ControlScheme,
) -> Vec<GamepadButtonInput> {
    universal_input_system(&keys, &pads, &mice, ai, cs, "linux")
}

#[test]
fn jump_on_space_across_ticks() {
    let cs = make_controls(&[(Action::from("Jump"), UniversalInput::from(KeyCode::Space))]);
    let mut ai = ActionInput::new();
    single_tick(vec![key(KeyCode::Space, ButtonState::Pressed)], vec![], vec![], &mut ai, &cs);
    assert!(ai.pressed(Action::from("Jump")));
    assert!(ai.just_pressed(Action::from("Jump")));
    single_tick(vec![], vec![], vec![], &mut ai, &cs);
    assert!(ai.pressed(Action::from("Jump")));
    assert!(!ai.just_pressed(Action::from("Jump")));
    single_tick(vec![key(KeyCode::Space, ButtonState::Released)], vec![], vec![], &mut ai, &cs);
    assert!(!ai.pressed(Action::from("Jump")));
    assert!(ai.just_released(Action::from("Jump")));
}

#[test]
fn gamepad_hysteresis() {
    let cs = make_controls(&[(
        Action::from("Fire"),
        UniversalInput::from(GamepadButton::new(Gamepad::new(0), GamepadButtonType::South)),
    )]);
    let mut ai = ActionInput::new();
    let button = GamepadButton::new(Gamepad::new(0), GamepadButtonType::South);

    let out = single_tick(vec![], vec![pad_event(800_000)], vec![], &mut ai, &cs);
    assert!(ai.pressed(Action::from("Fire")));
    assert_eq!(out, vec![GamepadButtonInput { button, state: ButtonState::Pressed }]);

    let out = single_tick(vec![], vec![pad_event(500_000)], vec![], &mut ai, &cs);
    assert!(ai.pressed(Action::from("Fire")));
    assert!(!ai.just_pressed(Action::from("Fire")));
    assert!(out.is_empty());

    let out = single_tick(vec![], vec![pad_event(200_000)], vec![], &mut ai, &cs);
    assert!(!ai.pressed(Action::from("Fire")));
    assert_eq!(out, vec![GamepadButtonInput { button, state: ButtonState::Released }]);

    let out = single_tick(vec![], vec![pad_event(100_000)], vec![], &mut ai, &cs);
    assert!(!ai.pressed(Action::from("Fire")));
    assert!(out.is_empty());
}

#[test]
fn gamepad_thresholds_are_inclusive() {
    let cs = make_controls(&[(Action::from("Fire"), UniversalInput::GamepadSouth(0))]);
    let mut ai = ActionInput::new();
    single_tick(vec![], vec![pad_event(PRESS)], vec![], &mut ai, &cs);
    assert!(ai.pressed(Action::from("Fire")));
    single_tick(vec![], vec![pad_event(RELEASE)], vec![], &mut ai, &cs);
    assert!(!ai.pressed(Action::from("Fire")));
}

#[test]
fn unbound_events_are_ignored() {
    let cs = make_controls(&[(Action::from("Fire"), UniversalInput::MouseLeft)]);
    let mut ai = ActionInput::new();
    let out = single_tick(
        vec![key(KeyCode::KeyZ, ButtonState::Pressed)],
        vec![pad_event(900_000)],
        vec![MouseButtonEvent { button: MouseButton::Left, state: ButtonState::Pressed }],
        &mut ai,
        &cs,
    );
    assert!(out.is_empty());
    assert!(ai.pressed(Action::from("Fire")));
    assert_eq!(ai.get_pressed(), vec![Action::from("Fire")]);
}

#[test]
fn update_inputs_does_not_advance() {
    let cs = make_controls(&[(Action::from("Jump"), UniversalInput::Space)]);
    let mut ai = ActionInput::new();
    ai.press(Action::from("Jump"));
    update_inputs(&vec![], &vec![], &vec![], &mut ai, &cs, "linux");
    assert!(ai.just_pressed(Action::from("Jump")));
}

#[test]
fn events_apply_in_batch_order() {
    let cs = make_controls(&[
        (Action::from("Jump"), UniversalInput::Space),
        (Action::from("Jump"), UniversalInput::MouseRight),
    ]);
    let mut ai = ActionInput::new();
    single_tick(
        vec![key(KeyCode::Space, ButtonState::Pressed)],
        vec![],
        vec![MouseButtonEvent { button: MouseButton::Right, state: ButtonState::Released }],
        &mut ai,
        &cs,
    );
    assert!(!ai.pressed(Action::from("Jump")));
    assert!(!ai.just_pressed(Action::from("Jump")));
    assert!(ai.just_released(Action::from("Jump")));
}

#[test]
fn unresolved_scan_codes_are_reported() {
    let keys = vec![
        KeyboardEvent { key: Key::ScanCode(0x11), state: ButtonState::Pressed },
        KeyboardEvent { key: Key::KeyCode(KeyCode::KeyA), state: ButtonState::Pressed },
        KeyboardEvent { key: Key::ScanCode(0x60), state: ButtonState::Released },
    ];
    assert_eq!(unresolved_keys(&keys, "windows"), vec![0x60]);
    assert_eq!(unresolved_keys(&keys, "linux"), vec![0x11, 0x60]);
}

#[test]
fn player_state_can_be_changed_in_place() {
    let mut mi = MultiInput::new();
    mi.has_players(1);
    let mut state = mi.take(0).unwrap();
    assert!(mi.get(0).is_none());
    state.press(Action::from("Fire"));
    mi.put(0, state);
    assert!(mi.get(0).unwrap().pressed(Action::from("Fire")));
    assert!(mi.take(3).is_none());
}

#[test]
fn players_bound_differently_stay_apart() {
    let mut ms = MultiScheme::new();
    ms.insert(0, make_controls(&[(Action::from("Left"), UniversalInput::KeyX)]));
    ms.insert(1, make_controls(&[(Action::from("Left"), UniversalInput::KeyY)]));
    let mut mi = MultiInput::new();
    mi.has_players(2);
    let keys = vec![key(KeyCode::KeyX, ButtonState::Pressed)];
    multi_universal_input_system(&keys, &vec![], &vec![], &mut mi, &ms, "linux");
    assert!(mi.get(0).unwrap().pressed(Action::from("Left")));
    assert!(!mi.get(1).unwrap().pressed(Action::from("Left")));
}

#[test]
fn players_bound_alike_both_react() {
    let mut ms = MultiScheme::new();
    ms.insert(0, make_controls(&[(Action::from("Fire"), UniversalInput::Space)]));
    ms.insert(1, make_controls(&[(Action::from("Fire"), UniversalInput::Space)]));
    let mut mi = MultiInput::new();
    mi.has_players(2);
    let keys = vec![key(KeyCode::Space, ButtonState::Pressed)];
    multi_universal_input_system(&keys, &vec![], &vec![], &mut mi, &ms, "linux");
    assert!(mi.get(0).unwrap().pressed(Action::from("Fire")));
    assert!(mi.get(1).unwrap().pressed(Action::from("Fire")));
}

#[test]
fn player_without_scheme_is_skipped() {
    let mut ms = MultiScheme::new();
    ms.insert(0, make_controls(&[(Action::from("Fire"), UniversalInput::GamepadSouth(0))]));
    let mut mi = MultiInput::new();
    mi.has_players(2);
    let out = multi_universal_input_system(
        &vec![],
        &vec![pad_event(900_000)],
        &vec![],
        &mut mi,
        &ms,
        "linux",
    );
    assert!(mi.get(0).unwrap().pressed(Action::from("Fire")));
    assert!(!mi.get(1).unwrap().pressed(Action::from("Fire")));
    assert_eq!(out.len(), 1);
    assert_eq!(out[0].0, 0);
    assert_eq!(out[0].1.len(), 1);
}
