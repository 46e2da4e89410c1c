use action_maps::{get_key, get_scan_code, KeyError, UniversalInput};
use bevy_input::keyboard::KeyCode;

#[test]
fn scan_codes_on_macos() {
    assert_eq!(get_scan_code("macos", "W").unwrap(), 0x0D);
    assert_eq!(get_scan_code("macos", "A").unwrap(), 0x00);
    assert_eq!(get_scan_code("macos", ",").unwrap(), 0x2B);
    assert_eq!(get_scan_code("macos", "Comma").unwrap(), 0x2B);
    assert_eq!(get_scan_code("macos", "Up").unwrap(), 0x7E);
    assert_eq!(get_scan_code("macos", "F3").unwrap(), 0x63);
}

#[test]
fn scan_codes_on_windows() {
    assert_eq!(get_scan_code("windows", "W").unwrap(), 0x11);
    assert_eq!(get_scan_code("windows", "Esc").unwrap(), 0x01);
    assert_eq!(get_scan_code("windows", "\\").unwrap(), 0x2B);
    assert_eq!(get_scan_code("windows", "Up").unwrap(), 0xE048);
    assert_eq!(get_scan_code("windows", "Del").unwrap(), 0x53);
}

#[test]
fn unknown_label_is_reported() {
    assert_eq!(
        get_scan_code("macos", "Ctrl"),
        Err(KeyError::KeyNotFound("Ctrl".to_string()))
    );
    assert_eq!(get_scan_code("windows", ""), Err(KeyError::KeyNotFound(String::new())));
    assert_eq!(get_scan_code("windows", "w"), Err(KeyError::KeyNotFound("w".to_string())));
}

#[test]
fn keys_of_scan_codes() {
    assert_eq!(get_key("macos", 0x0D).unwrap(), UniversalInput::KeyW);
    assert_eq!(get_key("windows", 0x11).unwrap(), UniversalInput::KeyW);
    assert_eq!(get_key("windows", 0x01).unwrap(), UniversalInput::Escape);
    assert_eq!(get_key("macos", 0x01).unwrap(), UniversalInput::KeyS);
    assert_eq!(get_key("windows", 0xC8).unwrap(), UniversalInput::End);
}

#[test]
fn unknown_scan_code_is_reported_in_decimal() {
    assert_eq!(
        get_key("windows", 0x60),
        Err(KeyError::ScanCodeNotFound("96".to_string()))
    );
    assert_eq!(get_key("macos", 0xFF), Err(KeyError::ScanCodeNotFound("255".to_string())));
    assert_eq!(get_key("windows", 0), Err(KeyError::ScanCodeNotFound("0".to_string())));
}

#[test]
fn unsupported_platform_fails_every_lookup() {
    assert_eq!(
        get_scan_code("linux", "W"),
        Err(KeyError::UnsupportedOs("linux".to_string()))
    );
    assert_eq!(get_key("linux", 0x11), Err(KeyError::UnsupportedOs("linux".to_string())));
    assert_eq!(get_key("MacOS", 0x0D), Err(KeyError::UnsupportedOs("MacOS".to_string())));
}

#[test]
fn label_and_key_code_reach_the_same_input() {
    for os in ["macos", "windows"] {
        for (label, key) in [
            ("W", KeyCode::KeyW),
            ("A", KeyCode::KeyA),
            ("1", KeyCode::Digit1),
            ("Space", KeyCode::Space),
            ("F1", KeyCode::F1),
            ("Home", KeyCode::Home),
        ] {
            let code = get_scan_code(os, label).unwrap();
            assert_eq!(get_key(os, code).unwrap(), UniversalInput::from(key));
        }
    }
    let code = get_scan_code("macos", "Left").unwrap();
    assert_eq!(get_key("macos", code).unwrap(), UniversalInput::from(KeyCode::ArrowLeft));
}

#[test]
fn every_table_key_round_trips() {
    for (os, label, key) in [
        ("windows", "Up", KeyCode::ArrowUp),
        ("windows", "Down", KeyCode::ArrowDown),
        ("windows", "Left", KeyCode::ArrowLeft),
        ("windows", "Right", KeyCode::ArrowRight),
        ("windows", "Ctrl", KeyCode::ControlLeft),
        ("windows", "LShift", KeyCode::ShiftLeft),
        ("windows", "Del", KeyCode::Delete),
        ("windows", "Pg", KeyCode::PageUp),
        ("windows", "NumpadUp", KeyCode::Numpad8),
        ("windows", "[", KeyCode::BracketLeft),
        ("macos", "]", KeyCode::BracketRight),
        ("macos", "[", KeyCode::BracketLeft),
    ] {
        let code = get_scan_code(os, label).unwrap();
        assert_eq!(get_key(os, code).unwrap(), UniversalInput::from(key));
    }
}
