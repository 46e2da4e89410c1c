//! Platform scan codes: the two-step path from a key's printed label, through the
//! scan code that the operating system reports for that key, to the canonical
//! input. Only macOS and Windows have tables; on any other system every lookup
//! fails with `KeyError::UnsupportedOs`.

use vstd::prelude::*;
use vstd::string::*;
use bevy_input::keyboard::KeyCode;
use crate::universal_input::{key_code_input, UniversalInput};

verus! {

/// An operating system, as far as the scan-code tables tell them apart.
#[derive(Clone, Copy, Debug, PartialEq, Eq, Structural)]
pub enum Platform {
    MacOs,
    Windows,
    Unsupported,
}

/// The platform that an operating-system name (as Rust reports it) selects.
pub open spec fn platform_of(os: Seq<char>) -> Platform {
    if os == "macos"@ {
        Platform::MacOs
    } else if os == "windows"@ {
        Platform::Windows
    } else {
        Platform::Unsupported
    }
}

/// Why a key label or a scan code could not be resolved. Each variant carries
/// the offending value as text.
#[derive(Clone, Debug, PartialEq, Eq)]
pub enum KeyError {
    /// The operating system has no scan-code tables.
    UnsupportedOs(String),
    /// The label is not in the platform's label table.
    KeyNotFound(String),
    /// The scan code, in decimal, is not in the platform's scan-code table.
    ScanCodeNotFound(String),
}

/// The entry of a label in the table of platform `p`.
pub open spec fn label_entry(p: Platform, label: Seq<char>) -> Option<(u32, KeyCode)> {
    match p {
        Platform::MacOs => macos_label(label),
        Platform::Windows => windows_label(label),
        Platform::Unsupported => None,
    }
}

/// The scan code of a label entry, if there is one.
pub open spec fn label_code(e: Option<(u32, KeyCode)>) -> Option<u32> {
    match e {
        Some(entry) => Some(entry.0),
        None => None,
    }
}

/// The input that scan code `scan_code` stands for on platform `p`.
pub open spec fn scan_code_key(p: Platform, scan_code: u32) -> Option<UniversalInput> {
    match p {
        Platform::MacOs => macos_key(scan_code),
        Platform::Windows => windows_key(scan_code),
        Platform::Unsupported => None,
    }
}

/// The character of decimal digit `d`.
pub open spec fn digit_char(d: nat) -> char {
    if d == 0 {
        '0'
    } else if d == 1 {
        '1'
    } else if d == 2 {
        '2'
    } else if d == 3 {
        '3'
    } else if d == 4 {
        '4'
    } else if d == 5 {
        '5'
    } else if d == 6 {
        '6'
    } else if d == 7 {
        '7'
    } else if d == 8 {
        '8'
    } else {
        '9'
    }
}

/// The decimal digits of `n`, most significant first.
pub open spec fn decimal_digits(n: nat) -> Seq<char>
    decreases n,
{
    if n < 10 {
        seq![digit_char(n)]
    } else {
        decimal_digits(n / 10).push(digit_char(n % 10))
    }
}

/// Relies on `ToString` for `u32` (its `Display`): the decimal digits of the
/// number, with no sign and no padding.
#[verifier::external_body]
fn decimal_string(n: u32) -> (r: String)
    ensures
        r@ == decimal_digits(n as nat),
{
    n.to_string()
}

/// Whether two strings hold the same characters.
pub fn str_eq(a: &str, b: &str) -> (r: bool)
    ensures
        r == (a@ == b@),
{
    let n = a.unicode_len();
    if n != b.unicode_len() {
        return false;
    }
    let mut i: usize = 0;
    while i < n
        invariant
            n == a@.len(),
            n == b@.len(),
            i <= n,
            forall|j: int| 0 <= j < i ==> a@[j] == b@[j],
        decreases n - i,
    {
        if a.get_char(i) != b.get_char(i) {
            return false;
        }
        i = i + 1;
    }
    assert(a@ =~= b@);
    true
}

/// The platform that an operating-system name selects.
pub fn platform(os: &str) -> (p: Platform)
    ensures
        p == platform_of(os@),
{
    if str_eq(os, "macos") {
        Platform::MacOs
    } else if str_eq(os, "windows") {
        Platform::Windows
    } else {
        Platform::Unsupported
    }
}

/// The scan code of the key labelled `key` on the operating system named `os`.
pub fn get_scan_code(os: &str, key: &str) -> (r: Result<u32, KeyError>)
    ensures
        match platform_of(os@) {
            Platform::Unsupported => r matches Err(KeyError::UnsupportedOs(s)) && s@ == os@,
            p => match label_code(label_entry(p, key@)) {
                Some(c) => r == Ok::<u32, KeyError>(c),
                None => r matches Err(KeyError::KeyNotFound(s)) && s@ == key@,
            },
        },
{
    let found = match platform(os) {
        Platform::MacOs => macos_scan_code(key),
        Platform::Windows => windows_scan_code(key),
        Platform::Unsupported => {
            return Err(KeyError::UnsupportedOs(os.to_owned()));
        },
    };
    match found {
        Some(c) => Ok(c),
        None => Err(KeyError::KeyNotFound(key.to_owned())),
    }
}

/// The input that scan code `scan_code` stands for on the operating system
/// named `os`.
pub fn get_key(os: &str, scan_code: u32) -> (r: Result<UniversalInput, KeyError>)
    ensures
        match platform_of(os@) {
            Platform::Unsupported => r matches Err(KeyError::UnsupportedOs(s)) && s@ == os@,
            p => match scan_code_key(p, scan_code) {
                Some(u) => r == Ok::<UniversalInput, KeyError>(u),
                None => r matches Err(KeyError::ScanCodeNotFound(s)) && s@ == decimal_digits(
                    scan_code as nat,
                ),
            },
        },
{
    let found = match platform(os) {
        Platform::MacOs => macos_input(scan_code),
        Platform::Windows => windows_input(scan_code),
        Platform::Unsupported => {
            return Err(KeyError::UnsupportedOs(os.to_owned()));
        },
    };
    match found {
        Some(u) => Ok(u),
        None => Err(KeyError::ScanCodeNotFound(decimal_string(scan_code))),
    }
}

/// For every label in a supported platform's label table, going from the label
/// to its scan code and from the scan code to an input reaches the input that
/// the labelled key's physical key code converts to directly.
pub proof fn lemma_scan_code_round_trip(p: Platform, label: Seq<char>, code: u32, key: KeyCode)
    requires
        label_entry(p, label) == Some((code, key)),
    ensures
        scan_code_key(p, code) == Some(key_code_input(key)),
{
}

/// The macOS table: a key label, the scan code of the key that carries it on a
/// US layout, and that key's physical location.
pub open spec fn macos_label(label: Seq<char>) -> Option<(u32, KeyCode)> {
    if label == ","@ {
        Some((0x2B, KeyCode::Comma))
    } else if label == "."@ {
        Some((0x2F, KeyCode::Period))
    } else if label == "Esc"@ {
        Some((0x35, KeyCode::Escape))
    } else if label == "1"@ {
        Some((0x12, KeyCode::Digit1))
    } else if label == "2"@ {
        Some((0x13, KeyCode::Digit2))
    } else if label == "3"@ {
        Some((0x14, KeyCode::Digit3))
    } else if label == "4"@ {
        Some((0x15, KeyCode::Digit4))
    } else if label == "5"@ {
        Some((0x17, KeyCode::Digit5))
    } else if label == "6"@ {
        Some((0x16, KeyCode::Digit6))
    } else if label == "7"@ {
        Some((0x1A, KeyCode::Digit7))
    } else if label == "8"@ {
        Some((0x1C, KeyCode::Digit8))
    } else if label == "9"@ {
        Some((0x19, KeyCode::Digit9))
    } else if label == "0"@ {
        Some((0x1D, KeyCode::Digit0))
    } else if label == "A"@ {
        Some((0x00, KeyCode::KeyA))
    } else if label == "S"@ {
        Some((0x01, KeyCode::KeyS))
    } else if label == "D"@ {
        Some((0x02, KeyCode::KeyD))
    } else if label == "F"@ {
        Some((0x03, KeyCode::KeyF))
    } else if label == "H"@ {
        Some((0x04, KeyCode::KeyH))
    } else if label == "G"@ {
        Some((0x05, KeyCode::KeyG))
    } else if label == "Z"@ {
        Some((0x06, KeyCode::KeyZ))
    } else if label == "X"@ {
        Some((0x07, KeyCode::KeyX))
    } else if label == "C"@ {
        Some((0x08, KeyCode::KeyC))
    } else if label == "V"@ {
        Some((0x09, KeyCode::KeyV))
    } else if label == "B"@ {
        Some((0x0B, KeyCode::KeyB))
    } else if label == "Q"@ {
        Some((0x0C, KeyCode::KeyQ))
    } else if label == "W"@ {
        Some((0x0D, KeyCode::KeyW))
    } else if label == "E"@ {
        Some((0x0E, KeyCode::KeyE))
    } else if label == "R"@ {
        Some((0x0F, KeyCode::KeyR))
    } else if label == "Y"@ {
        Some((0x10, KeyCode::KeyY))
    } else if label == "T"@ {
        Some((0x11, KeyCode::KeyT))
    } else if label == "Equal"@ {
        Some((0x18, KeyCode::Equal))
    } else if label == "Minus"@ {
        Some((0x1B, KeyCode::Minus))
    } else if label == "]"@ {
        Some((0x1E, KeyCode::BracketRight))
    } else if label == "O"@ {
        Some((0x1F, KeyCode::KeyO))
    } else if label == "U"@ {
        Some((0x20, KeyCode::KeyU))
    } else if label == "["@ {
        Some((0x21, KeyCode::BracketLeft))
    } else if label == "I"@ {
        Some((0x22, KeyCode::KeyI))
    } else if label == "P"@ {
        Some((0x23, KeyCode::KeyP))
    } else if label == "Enter"@ {
        Some((0x24, KeyCode::Enter))
    } else if label == "L"@ {
        Some((0x25, KeyCode::KeyL))
    } else if label == "J"@ {
        Some((0x26, KeyCode::KeyJ))
    } else if label == "Quote"@ {
        Some((0x27, KeyCode::Quote))
    } else if label == "K"@ {
        Some((0x28, KeyCode::KeyK))
    } else if label == "Semicolon"@ {
        Some((0x29, KeyCode::Semicolon))
    } else if label == "Backslash"@ {
        Some((0x2A, KeyCode::Backslash))
    } else if label == "Comma"@ {
        Some((0x2B, KeyCode::Comma))
    } else if label == "Slash"@ {
        Some((0x2C, KeyCode::Slash))
    } else if label == "N"@ {
        Some((0x2D, KeyCode::KeyN))
    } else if label == "M"@ {
        Some((0x2E, KeyCode::KeyM))
    } else if label == "Period"@ {
        Some((0x2F, KeyCode::Period))
    } else if label == "Tab"@ {
        Some((0x30, KeyCode::Tab))
    } else if label == "Space"@ {
        Some((0x31, KeyCode::Space))
    } else if label == "Backspace"@ {
        Some((0x33, KeyCode::Backspace))
    } else if label == "F1"@ {
        Some((0x7A, KeyCode::F1))
    } else if label == "F2"@ {
        Some((0x78, KeyCode::F2))
    } else if label == "F4"@ {
        Some((0x76, KeyCode::F4))
    } else if label == "F5"@ {
        Some((0x60, KeyCode::F5))
    } else if label == "F6"@ {
        Some((0x61, KeyCode::F6))
    } else if label == "F7"@ {
        Some((0x62, KeyCode::F7))
    } else if label == "F3"@ {
        Some((0x63, KeyCode::F3))
    } else if label == "F8"@ {
        Some((0x64, KeyCode::F8))
    } else if label == "F9"@ {
        Some((0x65, KeyCode::F9))
    } else if label == "F11"@ {
        Some((0x67, KeyCode::F11))
    } else if label == "F12"@ {
        Some((0x6F, KeyCode::F12))
    } else if label == "Insert"@ {
        Some((0x72, KeyCode::Insert))
    } else if label == "Home"@ {
        Some((0x73, KeyCode::Home))
    } else if label == "PageUp"@ {
        Some((0x74, KeyCode::PageUp))
    } else if label == "Delete"@ {
        Some((0x75, KeyCode::Delete))
    } else if label == "End"@ {
        Some((0x77, KeyCode::End))
    } else if label == "PageDown"@ {
        Some((0x79, KeyCode::PageDown))
    } else if label == "Left"@ {
        Some((0x7B, KeyCode::ArrowLeft))
    } else if label == "Right"@ {
        Some((0x7C, KeyCode::ArrowRight))
    } else if label == "Down"@ {
        Some((0x7D, KeyCode::ArrowDown))
    } else if label == "Up"@ {
        Some((0x7E, KeyCode::ArrowUp))
    } else {
        None
    }
}

/// The Windows table: a key label, the scan code of the key that carries it on a
/// US layout, and that key's physical location.
pub open spec fn windows_label(label: Seq<char>) -> Option<(u32, KeyCode)> {
    if label == "Esc"@ {
        Some((0x01, KeyCode::Escape))
    } else if label == "1"@ {
        Some((0x02, KeyCode::Digit1))
    } else if label == "2"@ {
        Some((0x03, KeyCode::Digit2))
    } else if label == "3"@ {
        Some((0x04, KeyCode::Digit3))
    } else if label == "4"@ {
        Some((0x05, KeyCode::Digit4))
    } else if label == "5"@ {
        Some((0x06, KeyCode::Digit5))
    } else if label == "6"@ {
        Some((0x07, KeyCode::Digit6))
    } else if label == "7"@ {
        Some((0x08, KeyCode::Digit7))
    } else if label == "8"@ {
        Some((0x09, KeyCode::Digit8))
    } else if label == "9"@ {
        Some((0x0A, KeyCode::Digit9))
    } else if label == "0"@ {
        Some((0x0B, KeyCode::Digit0))
    } else if label == "-"@ {
        Some((0x0C, KeyCode::Minus))
    } else if label == "="@ {
        Some((0x0D, KeyCode::Equal))
    } else if label == "Backspace"@ {
        Some((0x0E, KeyCode::Backspace))
    } else if label == "Tab"@ {
        Some((0x0F, KeyCode::Tab))
    } else if label == "Q"@ {
        Some((0x10, KeyCode::KeyQ))
    } else if label == "W"@ {
        Some((0x11, KeyCode::KeyW))
    } else if label == "E"@ {
        Some((0x12, KeyCode::KeyE))
    } else if label == "R"@ {
        Some((0x13, KeyCode::KeyR))
    } else if label == "T"@ {
        Some((0x14, KeyCode::KeyT))
    } else if label == "Y"@ {
        Some((0x15, KeyCode::KeyY))
    } else if label == "U"@ {
        Some((0x16, KeyCode::KeyU))
    } else if label == "I"@ {
        Some((0x17, KeyCode::KeyI))
    } else if label == "O"@ {
        Some((0x18, KeyCode::KeyO))
    } else if label == "P"@ {
        Some((0x19, KeyCode::KeyP))
    } else if label == "["@ {
        Some((0x1A, KeyCode::BracketLeft))
    } else if label == "]"@ {
        Some((0x1B, KeyCode::BracketRight))
    } else if label == "Enter"@ {
        Some((0x1C, KeyCode::Enter))
    } else if label == "Ctrl"@ {
        Some((0x1D, KeyCode::ControlLeft))
    } else if label == "A"@ {
        Some((0x1E, KeyCode::KeyA))
    } else if label == "S"@ {
        Some((0x1F, KeyCode::KeyS))
    } else if label == "D"@ {
        Some((0x20, KeyCode::KeyD))
    } else if label == "F"@ {
        Some((0x21, KeyCode::KeyF))
    } else if label == "G"@ {
        Some((0x22, KeyCode::KeyG))
    } else if label == "H"@ {
        Some((0x23, KeyCode::KeyH))
    } else if label == "J"@ {
        Some((0x24, KeyCode::KeyJ))
    } else if label == "K"@ {
        Some((0x25, KeyCode::KeyK))
    } else if label == "L"@ {
        Some((0x26, KeyCode::KeyL))
    } else if label == ";"@ {
        Some((0x27, KeyCode::Semicolon))
    } else if label == "'"@ {
        Some((0x28, KeyCode::Quote))
    } else if label == "`"@ {
        Some((0x29, KeyCode::Backquote))
    } else if label == "LShift"@ {
        Some((0x2A, KeyCode::ShiftLeft))
    } else if label == "\\"@ {
        Some((0x2B, KeyCode::Backslash))
    } else if label == "Z"@ {
        Some((0x2C, KeyCode::KeyZ))
    } else if label == "X"@ {
        Some((0x2D, KeyCode::KeyX))
    } else if label == "C"@ {
        Some((0x2E, KeyCode::KeyC))
    } else if label == "V"@ {
        Some((0x2F, KeyCode::KeyV))
    } else if label == "B"@ {
        Some((0x30, KeyCode::KeyB))
    } else if label == "N"@ {
        Some((0x31, KeyCode::KeyN))
    } else if label == "M"@ {
        Some((0x32, KeyCode::KeyM))
    } else if label == ","@ {
        Some((0x33, KeyCode::Comma))
    } else if label == "."@ {
        Some((0x34, KeyCode::Period))
    } else if label == "/"@ {
        Some((0x35, KeyCode::Slash))
    } else if label == "RShift"@ {
        Some((0x36, KeyCode::ShiftRight))
    } else if label == "PtScr"@ {
        Some((0x37, KeyCode::PrintScreen))
    } else if label == "Alt"@ {
        Some((0x38, KeyCode::AltLeft))
    } else if label == "Space"@ {
        Some((0x39, KeyCode::Space))
    } else if label == "CpsLk"@ {
        Some((0x3A, KeyCode::CapsLock))
    } else if label == "F1"@ {
        Some((0x3B, KeyCode::F1))
    } else if label == "F2"@ {
        Some((0x3C, KeyCode::F2))
    } else if label == "F3"@ {
        Some((0x3D, KeyCode::F3))
    } else if label == "F4"@ {
        Some((0x3E, KeyCode::F4))
    } else if label == "F5"@ {
        Some((0x3F, KeyCode::F5))
    } else if label == "F6"@ {
        Some((0x40, KeyCode::F6))
    } else if label == "F7"@ {
        Some((0x41, KeyCode::F7))
    } else if label == "F8"@ {
        Some((0x42, KeyCode::F8))
    } else if label == "F9"@ {
        Some((0x43, KeyCode::F9))
    } else if label == "F10"@ {
        Some((0x44, KeyCode::F10))
    } else if label == "Num"@ {
        Some((0x45, KeyCode::NumLock))
    } else if label == "ScrlLk"@ {
        Some((0x46, KeyCode::ScrollLock))
    } else if label == "Home"@ {
        Some((0x47, KeyCode::Home))
    } else if label == "Pg"@ {
        Some((0x49, KeyCode::PageUp))
    } else if label == "Num-"@ {
        Some((0x4A, KeyCode::NumpadSubtract))
    } else if label == "Up"@ {
        Some((0xE048, KeyCode::ArrowUp))
    } else if label == "Down"@ {
        Some((0xE050, KeyCode::ArrowDown))
    } else if label == "Left"@ {
        Some((0xE04B, KeyCode::ArrowLeft))
    } else if label == "Right"@ {
        Some((0xE04D, KeyCode::ArrowRight))
    } else if label == "NumpadUp"@ {
        Some((0x48, KeyCode::Numpad8))
    } else if label == "NumpadDown"@ {
        Some((0x50, KeyCode::Numpad2))
    } else if label == "NumpadLeft"@ {
        Some((0x4B, KeyCode::Numpad4))
    } else if label == "NumpadRight"@ {
        Some((0x4D, KeyCode::Numpad6))
    } else if label == "End"@ {
        Some((0xC8, KeyCode::End))
    } else if label == "PgDown"@ {
        Some((0x51, KeyCode::PageDown))
    } else if label == "Ins"@ {
        Some((0x52, KeyCode::Insert))
    } else if label == "Del"@ {
        Some((0x53, KeyCode::Delete))
    } else {
        None
    }
}

/// The macOS table from scan codes to inputs.
pub open spec fn macos_key(scan_code: u32) -> Option<UniversalInput> {
    match scan_code {
        0x2B => Some(UniversalInput::Comma),
        0x2F => Some(UniversalInput::Period),
        0x35 => Some(UniversalInput::Escape),
        0x12 => Some(UniversalInput::Digit1),
        0x13 => Some(UniversalInput::Digit2),
        0x14 => Some(UniversalInput::Digit3),
        0x15 => Some(UniversalInput::Digit4),
        0x17 => Some(UniversalInput::Digit5),
        0x16 => Some(UniversalInput::Digit6),
        0x1A => Some(UniversalInput::Digit7),
        0x1C => Some(UniversalInput::Digit8),
        0x19 => Some(UniversalInput::Digit9),
        0x1D => Some(UniversalInput::Digit0),
        0x00 => Some(UniversalInput::KeyA),
        0x01 => Some(UniversalInput::KeyS),
        0x02 => Some(UniversalInput::KeyD),
        0x03 => Some(UniversalInput::KeyF),
        0x04 => Some(UniversalInput::KeyH),
        0x05 => Some(UniversalInput::KeyG),
        0x06 => Some(UniversalInput::KeyZ),
        0x07 => Some(UniversalInput::KeyX),
        0x08 => Some(UniversalInput::KeyC),
        0x09 => Some(UniversalInput::KeyV),
        0x0B => Some(UniversalInput::KeyB),
        0x0C => Some(UniversalInput::KeyQ),
        0x0D => Some(UniversalInput::KeyW),
        0x0E => Some(UniversalInput::KeyE),
        0x0F => Some(UniversalInput::KeyR),
        0x10 => Some(UniversalInput::KeyY),
        0x11 => Some(UniversalInput::KeyT),
        0x18 => Some(UniversalInput::Equal),
        0x1B => Some(UniversalInput::Minus),
        0x1F => Some(UniversalInput::KeyO),
        0x20 => Some(UniversalInput::KeyU),
        0x22 => Some(UniversalInput::KeyI),
        0x23 => Some(UniversalInput::KeyP),
        0x24 => Some(UniversalInput::Enter),
        0x25 => Some(UniversalInput::KeyL),
        0x26 => Some(UniversalInput::KeyJ),
        0x27 => Some(UniversalInput::Quote),
        0x28 => Some(UniversalInput::KeyK),
        0x29 => Some(UniversalInput::Semicolon),
        0x2A => Some(UniversalInput::Backslash),
        0x2C => Some(UniversalInput::Slash),
        0x2D => Some(UniversalInput::KeyN),
        0x2E => Some(UniversalInput::KeyM),
        0x30 => Some(UniversalInput::Tab),
        0x31 => Some(UniversalInput::Space),
        0x33 => Some(UniversalInput::Backspace),
        0x7A => Some(UniversalInput::F1),
        0x78 => Some(UniversalInput::F2),
        0x76 => Some(UniversalInput::F4),
        0x60 => Some(UniversalInput::F5),
        0x61 => Some(UniversalInput::F6),
        0x62 => Some(UniversalInput::F7),
        0x63 => Some(UniversalInput::F3),
        0x64 => Some(UniversalInput::F8),
        0x65 => Some(UniversalInput::F9),
        0x67 => Some(UniversalInput::F11),
        0x6F => Some(UniversalInput::F12),
        0x72 => Some(UniversalInput::Insert),
        0x73 => Some(UniversalInput::Home),
        0x74 => Some(UniversalInput::PageUp),
        0x75 => Some(UniversalInput::Delete),
        0x77 => Some(UniversalInput::End),
        0x79 => Some(UniversalInput::PageDown),
        0x7B => Some(UniversalInput::ArrowLeft),
        0x7C => Some(UniversalInput::ArrowRight),
        0x7D => Some(UniversalInput::ArrowDown),
        0x7E => Some(UniversalInput::ArrowUp),
        0x1E => Some(UniversalInput::BracketRight),
        0x21 => Some(UniversalInput::BracketLeft),
        _ => None,
    }
}

/// The Windows table from scan codes to inputs.
pub open spec fn windows_key(scan_code: u32) -> Option<UniversalInput> {
    match scan_code {
        0x01 => Some(UniversalInput::Escape),
        0x02 => Some(UniversalInput::Digit1),
        0x03 => Some(UniversalInput::Digit2),
        0x04 => Some(UniversalInput::Digit3),
        0x05 => Some(UniversalInput::Digit4),
        0x06 => Some(UniversalInput::Digit5),
        0x07 => Some(UniversalInput::Digit6),
        0x08 => Some(UniversalInput::Digit7),
        0x09 => Some(UniversalInput::Digit8),
        0x0A => Some(UniversalInput::Digit9),
        0x0B => Some(UniversalInput::Digit0),
        0x0C => Some(UniversalInput::Minus),
        0x0D => Some(UniversalInput::Equal),
        0x0E => Some(UniversalInput::Backspace),
        0x0F => Some(UniversalInput::Tab),
        0x10 => Some(UniversalInput::KeyQ),
        0x11 => Some(UniversalInput::KeyW),
        0x12 => Some(UniversalInput::KeyE),
        0x13 => Some(UniversalInput::KeyR),
        0x14 => Some(UniversalInput::KeyT),
        0x15 => Some(UniversalInput::KeyY),
        0x16 => Some(UniversalInput::KeyU),
        0x17 => Some(UniversalInput::KeyI),
        0x18 => Some(UniversalInput::KeyO),
        0x19 => Some(UniversalInput::KeyP),
        0x1E => Some(UniversalInput::KeyA),
        0x1F => Some(UniversalInput::KeyS),
        0x20 => Some(UniversalInput::KeyD),
        0x21 => Some(UniversalInput::KeyF),
        0x22 => Some(UniversalInput::KeyG),
        0x23 => Some(UniversalInput::KeyH),
        0x24 => Some(UniversalInput::KeyJ),
        0x25 => Some(UniversalInput::KeyK),
        0x26 => Some(UniversalInput::KeyL),
        0x27 => Some(UniversalInput::Semicolon),
        0x28 => Some(UniversalInput::Quote),
        0x2B => Some(UniversalInput::Backslash),
        0x2C => Some(UniversalInput::KeyZ),
        0x2D => Some(UniversalInput::KeyX),
        0x2E => Some(UniversalInput::KeyC),
        0x2F => Some(UniversalInput::KeyV),
        0x30 => Some(UniversalInput::KeyB),
        0x31 => Some(UniversalInput::KeyN),
        0x32 => Some(UniversalInput::KeyM),
        0x33 => Some(UniversalInput::Comma),
        0x34 => Some(UniversalInput::Period),
        0x35 => Some(UniversalInput::Slash),
        0x39 => Some(UniversalInput::Space),
        0x3B => Some(UniversalInput::F1),
        0x3C => Some(UniversalInput::F2),
        0x3D => Some(UniversalInput::F3),
        0x3E => Some(UniversalInput::F4),
        0x3F => Some(UniversalInput::F5),
        0x40 => Some(UniversalInput::F6),
        0x41 => Some(UniversalInput::F7),
        0x42 => Some(UniversalInput::F8),
        0x43 => Some(UniversalInput::F9),
        0x44 => Some(UniversalInput::F10),
        0x47 => Some(UniversalInput::Home),
        0xC8 => Some(UniversalInput::End),
        0x1A => Some(UniversalInput::BracketLeft),
        0x1B => Some(UniversalInput::BracketRight),
        0x1C => Some(UniversalInput::Enter),
        0x1D => Some(UniversalInput::ControlLeft),
        0x29 => Some(UniversalInput::Backquote),
        0x2A => Some(UniversalInput::ShiftLeft),
        0x36 => Some(UniversalInput::ShiftRight),
        0x37 => Some(UniversalInput::PrintScreen),
        0x38 => Some(UniversalInput::AltLeft),
        0x3A => Some(UniversalInput::CapsLock),
        0x45 => Some(UniversalInput::NumLock),
        0x46 => Some(UniversalInput::ScrollLock),
        0x49 => Some(UniversalInput::PageUp),
        0x4A => Some(UniversalInput::NumpadSubtract),
        0xE048 => Some(UniversalInput::ArrowUp),
        0xE050 => Some(UniversalInput::ArrowDown),
        0xE04B => Some(UniversalInput::ArrowLeft),
        0xE04D => Some(UniversalInput::ArrowRight),
        0x48 => Some(UniversalInput::Numpad8),
        0x50 => Some(UniversalInput::Numpad2),
        0x4B => Some(UniversalInput::Numpad4),
        0x4D => Some(UniversalInput::Numpad6),
        0x51 => Some(UniversalInput::PageDown),
        0x52 => Some(UniversalInput::Insert),
        0x53 => Some(UniversalInput::Delete),
        _ => None,
    }
}

fn macos_scan_code(key: &str) -> (r: Option<u32>)
    ensures
        r == label_code(macos_label(key@)),
{
    if str_eq(key, ",") {
        Some(0x2B)
    } else if str_eq(key, ".") {
        Some(0x2F)
    } else if str_eq(key, "Esc") {
        Some(0x35)
    } else if str_eq(key, "1") {
        Some(0x12)
    } else if str_eq(key, "2") {
        Some(0x13)
    } else if str_eq(key, "3") {
        Some(0x14)
    } else if str_eq(key, "4") {
        Some(0x15)
    } else if str_eq(key, "5") {
        Some(0x17)
    } else if str_eq(key, "6") {
        Some(0x16)
    } else if str_eq(key, "7") {
        Some(0x1A)
    } else if str_eq(key, "8") {
        Some(0x1C)
    } else if str_eq(key, "9") {
        Some(0x19)
    } else if str_eq(key, "0") {
        Some(0x1D)
    } else if str_eq(key, "A") {
        Some(0x00)
    } else if str_eq(key, "S") {
        Some(0x01)
    } else if str_eq(key, "D") {
        Some(0x02)
    } else if str_eq(key, "F") {
        Some(0x03)
    } else if str_eq(key, "H") {
        Some(0x04)
    } else if str_eq(key, "G") {
        Some(0x05)
    } else if str_eq(key, "Z") {
        Some(0x06)
    } else if str_eq(key, "X") {
        Some(0x07)
    } else if str_eq(key, "C") {
        Some(0x08)
    } else if str_eq(key, "V") {
        Some(0x09)
    } else if str_eq(key, "B") {
        Some(0x0B)
    } else if str_eq(key, "Q") {
        Some(0x0C)
    } else if str_eq(key, "W") {
        Some(0x0D)
    } else if str_eq(key, "E") {
        Some(0x0E)
    } else if str_eq(key, "R") {
        Some(0x0F)
    } else if str_eq(key, "Y") {
        Some(0x10)
    } else if str_eq(key, "T") {
        Some(0x11)
    } else if str_eq(key, "Equal") {
        Some(0x18)
    } else if str_eq(key, "Minus") {
        Some(0x1B)
    } else if str_eq(key, "]") {
        Some(0x1E)
    } else if str_eq(key, "O") {
        Some(0x1F)
    } else if str_eq(key, "U") {
        Some(0x20)
    } else if str_eq(key, "[") {
        Some(0x21)
    } else if str_eq(key, "I") {
        Some(0x22)
    } else if str_eq(key, "P") {
        Some(0x23)
    } else if str_eq(key, "Enter") {
        Some(0x24)
    } else if str_eq(key, "L") {
        Some(0x25)
    } else if str_eq(key, "J") {
        Some(0x26)
    } else if str_eq(key, "Quote") {
        Some(0x27)
    } else if str_eq(key, "K") {
        Some(0x28)
    } else if str_eq(key, "Semicolon") {
        Some(0x29)
    } else if str_eq(key, "Backslash") {
        Some(0x2A)
    } else if str_eq(key, "Comma") {
        Some(0x2B)
    } else if str_eq(key, "Slash") {
        Some(0x2C)
    } else if str_eq(key, "N") {
        Some(0x2D)
    } else if str_eq(key, "M") {
        Some(0x2E)
    } else if str_eq(key, "Period") {
        Some(0x2F)
    } else if str_eq(key, "Tab") {
        Some(0x30)
    } else if str_eq(key, "Space") {
        Some(0x31)
    } else if str_eq(key, "Backspace") {
        Some(0x33)
    } else if str_eq(key, "F1") {
        Some(0x7A)
    } else if str_eq(key, "F2") {
        Some(0x78)
    } else if str_eq(key, "F4") {
        Some(0x76)
    } else if str_eq(key, "F5") {
        Some(0x60)
    } else if str_eq(key, "F6") {
        Some(0x61)
    } else if str_eq(key, "F7") {
        Some(0x62)
    } else if str_eq(key, "F3") {
        Some(0x63)
    } else if str_eq(key, "F8") {
        Some(0x64)
    } else if str_eq(key, "F9") {
        Some(0x65)
    } else if str_eq(key, "F11") {
        Some(0x67)
    } else if str_eq(key, "F12") {
        Some(0x6F)
    } else if str_eq(key, "Insert") {
        Some(0x72)
    } else if str_eq(key, "Home") {
        Some(0x73)
    } else if str_eq(key, "PageUp") {
        Some(0x74)
    } else if str_eq(key, "Delete") {
        Some(0x75)
    } else if str_eq(key, "End") {
        Some(0x77)
    } else if str_eq(key, "PageDown") {
        Some(0x79)
    } else if str_eq(key, "Left") {
        Some(0x7B)
    } else if str_eq(key, "Right") {
        Some(0x7C)
    } else if str_eq(key, "Down") {
        Some(0x7D)
    } else if str_eq(key, "Up") {
        Some(0x7E)
    } else {
        None
    }
}

fn windows_scan_code(key: &str) -> (r: Option<u32>)
    ensures
        r == label_code(windows_label(key@)),
{
    if str_eq(key, "Esc") {
        Some(0x01)
    } else if str_eq(key, "1") {
        Some(0x02)
    } else if str_eq(key, "2") {
        Some(0x03)
    } else if str_eq(key, "3") {
        Some(0x04)
    } else if str_eq(key, "4") {
        Some(0x05)
    } else if str_eq(key, "5") {
        Some(0x06)
    } else if str_eq(key, "6") {
        Some(0x07)
    } else if str_eq(key, "7") {
        Some(0x08)
    } else if str_eq(key, "8") {
        Some(0x09)
    } else if str_eq(key, "9") {
        Some(0x0A)
    } else if str_eq(key, "0") {
        Some(0x0B)
    } else if str_eq(key, "-") {
        Some(0x0C)
    } else if str_eq(key, "=") {
        Some(0x0D)
    } else if str_eq(key, "Backspace") {
        Some(0x0E)
    } else if str_eq(key, "Tab") {
        Some(0x0F)
    } else if str_eq(key, "Q") {
        Some(0x10)
    } else if str_eq(key, "W") {
        Some(0x11)
    } else if str_eq(key, "E") {
        Some(0x12)
    } else if str_eq(key, "R") {
        Some(0x13)
    } else if str_eq(key, "T") {
        Some(0x14)
    } else if str_eq(key, "Y") {
        Some(0x15)
    } else if str_eq(key, "U") {
        Some(0x16)
    } else if str_eq(key, "I") {
        Some(0x17)
    } else if str_eq(key, "O") {
        Some(0x18)
    } else if str_eq(key, "P") {
        Some(0x19)
    } else if str_eq(key, "[") {
        Some(0x1A)
    } else if str_eq(key, "]") {
        Some(0x1B)
    } else if str_eq(key, "Enter") {
        Some(0x1C)
    } else if str_eq(key, "Ctrl") {
        Some(0x1D)
    } else if str_eq(key, "A") {
        Some(0x1E)
    } else if str_eq(key, "S") {
        Some(0x1F)
    } else if str_eq(key, "D") {
        Some(0x20)
    } else if str_eq(key, "F") {
        Some(0x21)
    } else if str_eq(key, "G") {
        Some(0x22)
    } else if str_eq(key, "H") {
        Some(0x23)
    } else if str_eq(key, "J") {
        Some(0x24)
    } else if str_eq(key, "K") {
        Some(0x25)
    } else if str_eq(key, "L") {
        Some(0x26)
    } else if str_eq(key, ";") {
        Some(0x27)
    } else if str_eq(key, "'") {
        Some(0x28)
    } else if str_eq(key, "`") {
        Some(0x29)
    } else if str_eq(key, "LShift") {
        Some(0x2A)
    } else if str_eq(key, "\\") {
        Some(0x2B)
    } else if str_eq(key, "Z") {
        Some(0x2C)
    } else if str_eq(key, "X") {
        Some(0x2D)
    } else if str_eq(key, "C") {
        Some(0x2E)
    } else if str_eq(key, "V") {
        Some(0x2F)
    } else if str_eq(key, "B") {
        Some(0x30)
    } else if str_eq(key, "N") {
        Some(0x31)
    } else if str_eq(key, "M") {
        Some(0x32)
    } else if str_eq(key, ",") {
        Some(0x33)
    } else if str_eq(key, ".") {
        Some(0x34)
    } else if str_eq(key, "/") {
        Some(0x35)
    } else if str_eq(key, "RShift") {
        Some(0x36)
    } else if str_eq(key, "PtScr") {
        Some(0x37)
    } else if str_eq(key, "Alt") {
        Some(0x38)
    } else if str_eq(key, "Space") {
        Some(0x39)
    } else if str_eq(key, "CpsLk") {
        Some(0x3A)
    } else if str_eq(key, "F1") {
        Some(0x3B)
    } else if str_eq(key, "F2") {
        Some(0x3C)
    } else if str_eq(key, "F3") {
        Some(0x3D)
    } else if str_eq(key, "F4") {
        Some(0x3E)
    } else if str_eq(key, "F5") {
        Some(0x3F)
    } else if str_eq(key, "F6") {
        Some(0x40)
    } else if str_eq(key, "F7") {
        Some(0x41)
    } else if str_eq(key, "F8") {
        Some(0x42)
    } else if str_eq(key, "F9") {
        Some(0x43)
    } else if str_eq(key, "F10") {
        Some(0x44)
    } else if str_eq(key, "Num") {
        Some(0x45)
    } else if str_eq(key, "ScrlLk") {
        Some(0x46)
    } else if str_eq(key, "Home") {
        Some(0x47)
    } else if str_eq(key, "Pg") {
        Some(0x49)
    } else if str_eq(key, "Num-") {
        Some(0x4A)
    } else if str_eq(key, "Up") {
        Some(0xE048)
    } else if str_eq(key, "Down") {
        Some(0xE050)
    } else if str_eq(key, "Left") {
        Some(0xE04B)
    } else if str_eq(key, "Right") {
        Some(0xE04D)
    } else if str_eq(key, "NumpadUp") {
        Some(0x48)
    } else if str_eq(key, "NumpadDown") {
        Some(0x50)
    } else if str_eq(key, "NumpadLeft") {
        Some(0x4B)
    } else if str_eq(key, "NumpadRight") {
        Some(0x4D)
    } else if str_eq(key, "End") {
        Some(0xC8)
    } else if str_eq(key, "PgDown") {
        Some(0x51)
    } else if str_eq(key, "Ins") {
        Some(0x52)
    } else if str_eq(key, "Del") {
        Some(0x53)
    } else {
        None
    }
}

fn macos_input(scan_code: u32) -> (r: Option<UniversalInput>)
    ensures
        r == macos_key(scan_code),
{
    match scan_code {
        0x2B => Some(UniversalInput::Comma),
        0x2F => Some(UniversalInput::Period),
        0x35 => Some(UniversalInput::Escape),
        0x12 => Some(UniversalInput::Digit1),
        0x13 => Some(UniversalInput::Digit2),
        0x14 => Some(UniversalInput::Digit3),
        0x15 => Some(UniversalInput::Digit4),
        0x17 => Some(UniversalInput::Digit5),
        0x16 => Some(UniversalInput::Digit6),
        0x1A => Some(UniversalInput::Digit7),
        0x1C => Some(UniversalInput::Digit8),
        0x19 => Some(UniversalInput::Digit9),
        0x1D => Some(UniversalInput::Digit0),
        0x00 => Some(UniversalInput::KeyA),
        0x01 => Some(UniversalInput::KeyS),
        0x02 => Some(UniversalInput::KeyD),
        0x03 => Some(UniversalInput::KeyF),
        0x04 => Some(UniversalInput::KeyH),
        0x05 => Some(UniversalInput::KeyG),
        0x06 => Some(UniversalInput::KeyZ),
        0x07 => Some(UniversalInput::KeyX),
        0x08 => Some(UniversalInput::KeyC),
        0x09 => Some(UniversalInput::KeyV),
        0x0B => Some(UniversalInput::KeyB),
        0x0C => Some(UniversalInput::KeyQ),
        0x0D => Some(UniversalInput::KeyW),
        0x0E => Some(UniversalInput::KeyE),
        0x0F => Some(UniversalInput::KeyR),
        0x10 => Some(UniversalInput::KeyY),
        0x11 => Some(UniversalInput::KeyT),
        0x18 => Some(UniversalInput::Equal),
        0x1B => Some(UniversalInput::Minus),
        0x1F => Some(UniversalInput::KeyO),
        0x20 => Some(UniversalInput::KeyU),
        0x22 => Some(UniversalInput::KeyI),
        0x23 => Some(UniversalInput::KeyP),
        0x24 => Some(UniversalInput::Enter),
        0x25 => Some(UniversalInput::KeyL),
        0x26 => Some(UniversalInput::KeyJ),
        0x27 => Some(UniversalInput::Quote),
        0x28 => Some(UniversalInput::KeyK),
        0x29 => Some(UniversalInput::Semicolon),
        0x2A => Some(UniversalInput::Backslash),
        0x2C => Some(UniversalInput::Slash),
        0x2D => Some(UniversalInput::KeyN),
        0x2E => Some(UniversalInput::KeyM),
        0x30 => Some(UniversalInput::Tab),
        0x31 => Some(UniversalInput::Space),
        0x33 => Some(UniversalInput::Backspace),
        0x7A => Some(UniversalInput::F1),
        0x78 => Some(UniversalInput::F2),
        0x76 => Some(UniversalInput::F4),
        0x60 => Some(UniversalInput::F5),
        0x61 => Some(UniversalInput::F6),
        0x62 => Some(UniversalInput::F7),
        0x63 => Some(UniversalInput::F3),
        0x64 => Some(UniversalInput::F8),
        0x65 => Some(UniversalInput::F9),
        0x67 => Some(UniversalInput::F11),
        0x6F => Some(UniversalInput::F12),
        0x72 => Some(UniversalInput::Insert),
        0x73 => Some(UniversalInput::Home),
        0x74 => Some(UniversalInput::PageUp),
        0x75 => Some(UniversalInput::Delete),
        0x77 => Some(UniversalInput::End),
        0x79 => Some(UniversalInput::PageDown),
        0x7B => Some(UniversalInput::ArrowLeft),
        0x7C => Some(UniversalInput::ArrowRight),
        0x7D => Some(UniversalInput::ArrowDown),
        0x7E => Some(UniversalInput::ArrowUp),
        0x1E => Some(UniversalInput::BracketRight),
        0x21 => Some(UniversalInput::BracketLeft),
        _ => None,
    }
}

fn windows_input(scan_code: u32) -> (r: Option<UniversalInput>)
    ensures
        r == windows_key(scan_code),
{
    match scan_code {
        0x01 => Some(UniversalInput::Escape),
        0x02 => Some(UniversalInput::Digit1),
        0x03 => Some(UniversalInput::Digit2),
        0x04 => Some(UniversalInput::Digit3),
        0x05 => Some(UniversalInput::Digit4),
        0x06 => Some(UniversalInput::Digit5),
        0x07 => Some(UniversalInput::Digit6),
        0x08 => Some(UniversalInput::Digit7),
        0x09 => Some(UniversalInput::Digit8),
        0x0A => Some(UniversalInput::Digit9),
        0x0B => Some(UniversalInput::Digit0),
        0x0C => Some(UniversalInput::Minus),
        0x0D => Some(UniversalInput::Equal),
        0x0E => Some(UniversalInput::Backspace),
        0x0F => Some(UniversalInput::Tab),
        0x10 => Some(UniversalInput::KeyQ),
        0x11 => Some(UniversalInput::KeyW),
        0x12 => Some(UniversalInput::KeyE),
        0x13 => Some(UniversalInput::KeyR),
        0x14 => Some(UniversalInput::KeyT),
        0x15 => Some(UniversalInput::KeyY),
        0x16 => Some(UniversalInput::KeyU),
        0x17 => Some(UniversalInput::KeyI),
        0x18 => Some(UniversalInput::KeyO),
        0x19 => Some(UniversalInput::KeyP),
        0x1E => Some(UniversalInput::KeyA),
        0x1F => Some(UniversalInput::KeyS),
        0x20 => Some(UniversalInput::KeyD),
        0x21 => Some(UniversalInput::KeyF),
        0x22 => Some(UniversalInput::KeyG),
        0x23 => Some(UniversalInput::KeyH),
        0x24 => Some(UniversalInput::KeyJ),
        0x25 => Some(UniversalInput::KeyK),
        0x26 => Some(UniversalInput::KeyL),
        0x27 => Some(UniversalInput::Semicolon),
        0x28 => Some(UniversalInput::Quote),
        0x2B => Some(UniversalInput::Backslash),
        0x2C => Some(UniversalInput::KeyZ),
        0x2D => Some(UniversalInput::KeyX),
        0x2E => Some(UniversalInput::KeyC),
        0x2F => Some(UniversalInput::KeyV),
        0x30 => Some(UniversalInput::KeyB),
        0x31 => Some(UniversalInput::KeyN),
        0x32 => Some(UniversalInput::KeyM),
        0x33 => Some(UniversalInput::Comma),
        0x34 => Some(UniversalInput::Period),
        0x35 => Some(UniversalInput::Slash),
        0x39 => Some(UniversalInput::Space),
        0x3B => Some(UniversalInput::F1),
        0x3C => Some(UniversalInput::F2),
        0x3D => Some(UniversalInput::F3),
        0x3E => Some(UniversalInput::F4),
        0x3F => Some(UniversalInput::F5),
        0x40 => Some(UniversalInput::F6),
        0x41 => Some(UniversalInput::F7),
        0x42 => Some(UniversalInput::F8),
        0x43 => Some(UniversalInput::F9),
        0x44 => Some(UniversalInput::F10),
        0x47 => Some(UniversalInput::Home),
        0xC8 => Some(UniversalInput::End),
        0x1A => Some(UniversalInput::BracketLeft),
        0x1B => Some(UniversalInput::BracketRight),
        0x1C => Some(UniversalInput::Enter),
        0x1D => Some(UniversalInput::ControlLeft),
        0x29 => Some(UniversalInput::Backquote),
        0x2A => Some(UniversalInput::ShiftLeft),
        0x36 => Some(UniversalInput::ShiftRight),
        0x37 => Some(UniversalInput::PrintScreen),
        0x38 => Some(UniversalInput::AltLeft),
        0x3A => Some(UniversalInput::CapsLock),
        0x45 => Some(UniversalInput::NumLock),
        0x46 => Some(UniversalInput::ScrollLock),
        0x49 => Some(UniversalInput::PageUp),
        0x4A => Some(UniversalInput::NumpadSubtract),
        0xE048 => Some(UniversalInput::ArrowUp),
        0xE050 => Some(UniversalInput::ArrowDown),
        0xE04B => Some(UniversalInput::ArrowLeft),
        0xE04D => Some(UniversalInput::ArrowRight),
        0x48 => Some(UniversalInput::Numpad8),
        0x50 => Some(UniversalInput::Numpad2),
        0x4B => Some(UniversalInput::Numpad4),
        0x4D => Some(UniversalInput::Numpad6),
        0x51 => Some(UniversalInput::PageDown),
        0x52 => Some(UniversalInput::Insert),
        0x53 => Some(UniversalInput::Delete),
        _ => None,
    }
}


} // verus!
