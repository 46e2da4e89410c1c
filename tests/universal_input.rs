use action_maps::{Key, UniversalInput};
use bevy_input::gamepad::{Gamepad, GamepadButton, GamepadButtonType};
use bevy_input::keyboard::{KeyCode, NativeKeyCode};
use bevy_input::mouse::MouseButton;

#[test]
fn key_codes_convert_by_location() {
    assert_eq!(UniversalInput::from(KeyCode::KeyQ), UniversalInput::KeyQ);
    assert_eq!(UniversalInput::from(KeyCode::NumpadEnter), UniversalInput::NumpadEnter);
    assert_eq!(UniversalInput::from(KeyCode::F35), UniversalInput::F35);
    assert_eq!(
        UniversalInput::from(KeyCode::Unidentified(NativeKeyCode::Windows(7))),
        UniversalInput::Unknown(0)
    );
}

#[test]
fn mouse_and_gamepad_buttons_convert() {
    assert_eq!(UniversalInput::from(MouseButton::Left), UniversalInput::MouseLeft);
    assert_eq!(UniversalInput::from(MouseButton::Other(6)), UniversalInput::MouseOther(6));
    let south = GamepadButton::new(Gamepad::new(1), GamepadButtonType::South);
    assert_eq!(UniversalInput::from(south), UniversalInput::GamepadSouth(1));
    let other = GamepadButton::new(Gamepad::new(2), GamepadButtonType::Other(9));
    assert_eq!(UniversalInput::from(other), UniversalInput::GamepadOther(9, 2));
    let south0 = GamepadButton::new(Gamepad::new(0), GamepadButtonType::South);
    assert_ne!(UniversalInput::from(south0), UniversalInput::from(south));
}

#[test]
fn raw_keys_normalize_through_the_platform() {
    assert_eq!(
        UniversalInput::from_key(Key::KeyCode(KeyCode::KeyW), "linux"),
        UniversalInput::KeyW
    );
    assert_eq!(UniversalInput::from_key(Key::ScanCode(0x11), "windows"), UniversalInput::KeyW);
    assert_eq!(UniversalInput::from_key(Key::ScanCode(0x0D), "macos"), UniversalInput::KeyW);
    assert_eq!(
        UniversalInput::from_key(Key::ScanCode(0x1D), "windows"),
        UniversalInput::ControlLeft
    );
    assert_eq!(
        UniversalInput::from_key(Key::ScanCode(0x60), "windows"),
        UniversalInput::Unknown(0x60)
    );
}

#[test]
fn unsupported_platform_gives_the_sentinel() {
    assert_eq!(UniversalInput::from_key(Key::ScanCode(0x11), "linux"), UniversalInput::Unknown(0x11));
    assert_eq!(UniversalInput::from_key(Key::ScanCode(0), "plan9"), UniversalInput::Unknown(0));
}
