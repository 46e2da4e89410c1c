//! The canonical, platform-independent identity of a physical input, and its
//! conversion from the host engine's raw keyboard, mouse and gamepad types.

use vstd::prelude::*;
use bevy_input::gamepad::{Gamepad, GamepadButton, GamepadButtonType};
use bevy_input::keyboard::KeyCode;
use bevy_input::mouse::MouseButton;
use crate::scan_code::{get_key, platform_of, scan_code_key, Platform};

verus! {

/// One physical input: a keyboard key by its location (independent of the
/// layout), a mouse button, or a button of one gamepad.
///
/// `Unknown` is the value of an input that could not be normalized; it carries
/// the raw code that failed (zero where there is none).
#[derive(Clone, Copy, Debug, PartialEq, Eq, Structural, Hash, PartialOrd, Ord)]
pub enum UniversalInput {
    Backquote,
    Backslash,
    BracketLeft,
    BracketRight,
    Comma,
    Digit0,
    Digit1,
    Digit2,
    Digit3,
    Digit4,
    Digit5,
    Digit6,
    Digit7,
    Digit8,
    Digit9,
    Equal,
    IntlBackslash,
    IntlRo,
    IntlYen,
    KeyA,
    KeyB,
    KeyC,
    KeyD,
    KeyE,
    KeyF,
    KeyG,
    KeyH,
    KeyI,
    KeyJ,
    KeyK,
    KeyL,
    KeyM,
    KeyN,
    KeyO,
    KeyP,
    KeyQ,
    KeyR,
    KeyS,
    KeyT,
    KeyU,
    KeyV,
    KeyW,
    KeyX,
    KeyY,
    KeyZ,
    Minus,
    Period,
    Quote,
    Semicolon,
    Slash,
    AltLeft,
    AltRight,
    Backspace,
    CapsLock,
    ContextMenu,
    ControlLeft,
    ControlRight,
    Enter,
    SuperLeft,
    SuperRight,
    ShiftLeft,
    ShiftRight,
    Space,
    Tab,
    Convert,
    KanaMode,
    Lang1,
    Lang2,
    Lang3,
    Lang4,
    Lang5,
    NonConvert,
    Delete,
    End,
    Help,
    Home,
    Insert,
    PageDown,
    PageUp,
    ArrowDown,
    ArrowLeft,
    ArrowRight,
    ArrowUp,
    NumLock,
    Numpad0,
    Numpad1,
    Numpad2,
    Numpad3,
    Numpad4,
    Numpad5,
    Numpad6,
    Numpad7,
    Numpad8,
    Numpad9,
    NumpadAdd,
    NumpadBackspace,
    NumpadClear,
    NumpadClearEntry,
    NumpadComma,
    NumpadDecimal,
    NumpadDivide,
    NumpadEnter,
    NumpadEqual,
    NumpadHash,
    NumpadMemoryAdd,
    NumpadMemoryClear,
    NumpadMemoryRecall,
    NumpadMemoryStore,
    NumpadMemorySubtract,
    NumpadMultiply,
    NumpadParenLeft,
    NumpadParenRight,
    NumpadStar,
    NumpadSubtract,
    Escape,
    Fn,
    FnLock,
    PrintScreen,
    ScrollLock,
    Pause,
    BrowserBack,
    BrowserFavorites,
    BrowserForward,
    BrowserHome,
    BrowserRefresh,
    BrowserSearch,
    BrowserStop,
    Eject,
    LaunchApp1,
    LaunchApp2,
    LaunchMail,
    MediaPlayPause,
    MediaSelect,
    MediaStop,
    MediaTrackNext,
    MediaTrackPrevious,
    Power,
    Sleep,
    AudioVolumeDown,
    AudioVolumeMute,
    AudioVolumeUp,
    WakeUp,
    Meta,
    Hyper,
    Turbo,
    Abort,
    Resume,
    Suspend,
    Again,
    Copy,
    Cut,
    Find,
    Open,
    Paste,
    Props,
    Select,
    Undo,
    Hiragana,
    Katakana,
    F1,
    F2,
    F3,
    F4,
    F5,
    F6,
    F7,
    F8,
    F9,
    F10,
    F11,
    F12,
    F13,
    F14,
    F15,
    F16,
    F17,
    F18,
    F19,
    F20,
    F21,
    F22,
    F23,
    F24,
    F25,
    F26,
    F27,
    F28,
    F29,
    F30,
    F31,
    F32,
    F33,
    F34,
    F35,
    GamepadSouth(usize),
    GamepadEast(usize),
    GamepadNorth(usize),
    GamepadWest(usize),
    GamepadC(usize),
    GamepadZ(usize),
    GamepadLeftTrigger(usize),
    GamepadLeftTrigger2(usize),
    GamepadRightTrigger(usize),
    GamepadRightTrigger2(usize),
    GamepadSelect(usize),
    GamepadStart(usize),
    GamepadMode(usize),
    GamepadLeftThumb(usize),
    GamepadRightThumb(usize),
    GamepadDPadUp(usize),
    GamepadDPadDown(usize),
    GamepadDPadLeft(usize),
    GamepadDPadRight(usize),
    GamepadOther(u8, usize),
    MouseLeft,
    MouseRight,
    MouseMiddle,
    MouseBack,
    MouseForward,
    MouseOther(u16),
    Unknown(u32),
}

/// The input that a physical key code stands for.
pub open spec fn key_code_input(k: KeyCode) -> UniversalInput {
    match k {
        KeyCode::Unidentified(_) => UniversalInput::Unknown(0),
        KeyCode::Backquote => UniversalInput::Backquote,
        KeyCode::Backslash => UniversalInput::Backslash,
        KeyCode::BracketLeft => UniversalInput::BracketLeft,
        KeyCode::BracketRight => UniversalInput::BracketRight,
        KeyCode::Comma => UniversalInput::Comma,
        KeyCode::Digit0 => UniversalInput::Digit0,
        KeyCode::Digit1 => UniversalInput::Digit1,
        KeyCode::Digit2 => UniversalInput::Digit2,
        KeyCode::Digit3 => UniversalInput::Digit3,
        KeyCode::Digit4 => UniversalInput::Digit4,
        KeyCode::Digit5 => UniversalInput::Digit5,
        KeyCode::Digit6 => UniversalInput::Digit6,
        KeyCode::Digit7 => UniversalInput::Digit7,
        KeyCode::Digit8 => UniversalInput::Digit8,
        KeyCode::Digit9 => UniversalInput::Digit9,
        KeyCode::Equal => UniversalInput::Equal,
        KeyCode::IntlBackslash => UniversalInput::IntlBackslash,
        KeyCode::IntlRo => UniversalInput::IntlRo,
        KeyCode::IntlYen => UniversalInput::IntlYen,
        KeyCode::KeyA => UniversalInput::KeyA,
        KeyCode::KeyB => UniversalInput::KeyB,
        KeyCode::KeyC => UniversalInput::KeyC,
        KeyCode::KeyD => UniversalInput::KeyD,
        KeyCode::KeyE => UniversalInput::KeyE,
        KeyCode::KeyF => UniversalInput::KeyF,
        KeyCode::KeyG => UniversalInput::KeyG,
        KeyCode::KeyH => UniversalInput::KeyH,
        KeyCode::KeyI => UniversalInput::KeyI,
        KeyCode::KeyJ => UniversalInput::KeyJ,
        KeyCode::KeyK => UniversalInput::KeyK,
        KeyCode::KeyL => UniversalInput::KeyL,
        KeyCode::KeyM => UniversalInput::KeyM,
        KeyCode::KeyN => UniversalInput::KeyN,
        KeyCode::KeyO => UniversalInput::KeyO,
        KeyCode::KeyP => UniversalInput::KeyP,
        KeyCode::KeyQ => UniversalInput::KeyQ,
        KeyCode::KeyR => UniversalInput::KeyR,
        KeyCode::KeyS => UniversalInput::KeyS,
        KeyCode::KeyT => UniversalInput::KeyT,
        KeyCode::KeyU => UniversalInput::KeyU,
        KeyCode::KeyV => UniversalInput::KeyV,
        KeyCode::KeyW => UniversalInput::KeyW,
        KeyCode::KeyX => UniversalInput::KeyX,
        KeyCode::KeyY => UniversalInput::KeyY,
        KeyCode::KeyZ => UniversalInput::KeyZ,
        KeyCode::Minus => UniversalInput::Minus,
        KeyCode::Period => UniversalInput::Period,
        KeyCode::Quote => UniversalInput::Quote,
        KeyCode::Semicolon => UniversalInput::Semicolon,
        KeyCode::Slash => UniversalInput::Slash,
        KeyCode::AltLeft => UniversalInput::AltLeft,
        KeyCode::AltRight => UniversalInput::AltRight,
        KeyCode::Backspace => UniversalInput::Backspace,
        KeyCode::CapsLock => UniversalInput::CapsLock,
        KeyCode::ContextMenu => UniversalInput::ContextMenu,
        KeyCode::ControlLeft => UniversalInput::ControlLeft,
        KeyCode::ControlRight => UniversalInput::ControlRight,
        KeyCode::Enter => UniversalInput::Enter,
        KeyCode::SuperLeft => UniversalInput::SuperLeft,
        KeyCode::SuperRight => UniversalInput::SuperRight,
        KeyCode::ShiftLeft => UniversalInput::ShiftLeft,
        KeyCode::ShiftRight => UniversalInput::ShiftRight,
        KeyCode::Space => UniversalInput::Space,
        KeyCode::Tab => UniversalInput::Tab,
        KeyCode::Convert => UniversalInput::Convert,
        KeyCode::KanaMode => UniversalInput::KanaMode,
        KeyCode::Lang1 => UniversalInput::Lang1,
        KeyCode::Lang2 => UniversalInput::Lang2,
        KeyCode::Lang3 => UniversalInput::Lang3,
        KeyCode::Lang4 => UniversalInput::Lang4,
        KeyCode::Lang5 => UniversalInput::Lang5,
        KeyCode::NonConvert => UniversalInput::NonConvert,
        KeyCode::Delete => UniversalInput::Delete,
        KeyCode::End => UniversalInput::End,
        KeyCode::Help => UniversalInput::Help,
        KeyCode::Home => UniversalInput::Home,
        KeyCode::Insert => UniversalInput::Insert,
        KeyCode::PageDown => UniversalInput::PageDown,
        KeyCode::PageUp => UniversalInput::PageUp,
        KeyCode::ArrowDown => UniversalInput::ArrowDown,
        KeyCode::ArrowLeft => UniversalInput::ArrowLeft,
        KeyCode::ArrowRight => UniversalInput::ArrowRight,
        KeyCode::ArrowUp => UniversalInput::ArrowUp,
        KeyCode::NumLock => UniversalInput::NumLock,
        KeyCode::Numpad0 => UniversalInput::Numpad0,
        KeyCode::Numpad1 => UniversalInput::Numpad1,
        KeyCode::Numpad2 => UniversalInput::Numpad2,
        KeyCode::Numpad3 => UniversalInput::Numpad3,
        KeyCode::Numpad4 => UniversalInput::Numpad4,
        KeyCode::Numpad5 => UniversalInput::Numpad5,
        KeyCode::Numpad6 => UniversalInput::Numpad6,
        KeyCode::Numpad7 => UniversalInput::Numpad7,
        KeyCode::Numpad8 => UniversalInput::Numpad8,
        KeyCode::Numpad9 => UniversalInput::Numpad9,
        KeyCode::NumpadAdd => UniversalInput::NumpadAdd,
        KeyCode::NumpadBackspace => UniversalInput::NumpadBackspace,
        KeyCode::NumpadClear => UniversalInput::NumpadClear,
        KeyCode::NumpadClearEntry => UniversalInput::NumpadClearEntry,
        KeyCode::NumpadComma => UniversalInput::NumpadComma,
        KeyCode::NumpadDecimal => UniversalInput::NumpadDecimal,
        KeyCode::NumpadDivide => UniversalInput::NumpadDivide,
        KeyCode::NumpadEnter => UniversalInput::NumpadEnter,
        KeyCode::NumpadEqual => UniversalInput::NumpadEqual,
        KeyCode::NumpadHash => UniversalInput::NumpadHash,
        KeyCode::NumpadMemoryAdd => UniversalInput::NumpadMemoryAdd,
        KeyCode::NumpadMemoryClear => UniversalInput::NumpadMemoryClear,
        KeyCode::NumpadMemoryRecall => UniversalInput::NumpadMemoryRecall,
        KeyCode::NumpadMemoryStore => UniversalInput::NumpadMemoryStore,
        KeyCode::NumpadMemorySubtract => UniversalInput::NumpadMemorySubtract,
        KeyCode::NumpadMultiply => UniversalInput::NumpadMultiply,
        KeyCode::NumpadParenLeft => UniversalInput::NumpadParenLeft,
        KeyCode::NumpadParenRight => UniversalInput::NumpadParenRight,
        KeyCode::NumpadStar => UniversalInput::NumpadStar,
        KeyCode::NumpadSubtract => UniversalInput::NumpadSubtract,
        KeyCode::Escape => UniversalInput::Escape,
        KeyCode::Fn => UniversalInput::Fn,
        KeyCode::FnLock => UniversalInput::FnLock,
        KeyCode::PrintScreen => UniversalInput::PrintScreen,
        KeyCode::ScrollLock => UniversalInput::ScrollLock,
        KeyCode::Pause => UniversalInput::Pause,
        KeyCode::BrowserBack => UniversalInput::BrowserBack,
        KeyCode::BrowserFavorites => UniversalInput::BrowserFavorites,
        KeyCode::BrowserForward => UniversalInput::BrowserForward,
        KeyCode::BrowserHome => UniversalInput::BrowserHome,
        KeyCode::BrowserRefresh => UniversalInput::BrowserRefresh,
        KeyCode::BrowserSearch => UniversalInput::BrowserSearch,
        KeyCode::BrowserStop => UniversalInput::BrowserStop,
        KeyCode::Eject => UniversalInput::Eject,
        KeyCode::LaunchApp1 => UniversalInput::LaunchApp1,
        KeyCode::LaunchApp2 => UniversalInput::LaunchApp2,
        KeyCode::LaunchMail => UniversalInput::LaunchMail,
        KeyCode::MediaPlayPause => UniversalInput::MediaPlayPause,
        KeyCode::MediaSelect => UniversalInput::MediaSelect,
        KeyCode::MediaStop => UniversalInput::MediaStop,
        KeyCode::MediaTrackNext => UniversalInput::MediaTrackNext,
        KeyCode::MediaTrackPrevious => UniversalInput::MediaTrackPrevious,
        KeyCode::Power => UniversalInput::Power,
        KeyCode::Sleep => UniversalInput::Sleep,
        KeyCode::AudioVolumeDown => UniversalInput::AudioVolumeDown,
        KeyCode::AudioVolumeMute => UniversalInput::AudioVolumeMute,
        KeyCode::AudioVolumeUp => UniversalInput::AudioVolumeUp,
        KeyCode::WakeUp => UniversalInput::WakeUp,
        KeyCode::Meta => UniversalInput::Meta,
        KeyCode::Hyper => UniversalInput::Hyper,
        KeyCode::Turbo => UniversalInput::Turbo,
        KeyCode::Abort => UniversalInput::Abort,
        KeyCode::Resume => UniversalInput::Resume,
        KeyCode::Suspend => UniversalInput::Suspend,
        KeyCode::Again => UniversalInput::Again,
        KeyCode::Copy => UniversalInput::Copy,
        KeyCode::Cut => UniversalInput::Cut,
        KeyCode::Find => UniversalInput::Find,
        KeyCode::Open => UniversalInput::Open,
        KeyCode::Paste => UniversalInput::Paste,
        KeyCode::Props => UniversalInput::Props,
        KeyCode::Select => UniversalInput::Select,
        KeyCode::Undo => UniversalInput::Undo,
        KeyCode::Hiragana => UniversalInput::Hiragana,
        KeyCode::Katakana => UniversalInput::Katakana,
        KeyCode::F1 => UniversalInput::F1,
        KeyCode::F2 => UniversalInput::F2,
        KeyCode::F3 => UniversalInput::F3,
        KeyCode::F4 => UniversalInput::F4,
        KeyCode::F5 => UniversalInput::F5,
        KeyCode::F6 => UniversalInput::F6,
        KeyCode::F7 => UniversalInput::F7,
        KeyCode::F8 => UniversalInput::F8,
        KeyCode::F9 => UniversalInput::F9,
        KeyCode::F10 => UniversalInput::F10,
        KeyCode::F11 => UniversalInput::F11,
        KeyCode::F12 => UniversalInput::F12,
        KeyCode::F13 => UniversalInput::F13,
        KeyCode::F14 => UniversalInput::F14,
        KeyCode::F15 => UniversalInput::F15,
        KeyCode::F16 => UniversalInput::F16,
        KeyCode::F17 => UniversalInput::F17,
        KeyCode::F18 => UniversalInput::F18,
        KeyCode::F19 => UniversalInput::F19,
        KeyCode::F20 => UniversalInput::F20,
        KeyCode::F21 => UniversalInput::F21,
        KeyCode::F22 => UniversalInput::F22,
        KeyCode::F23 => UniversalInput::F23,
        KeyCode::F24 => UniversalInput::F24,
        KeyCode::F25 => UniversalInput::F25,
        KeyCode::F26 => UniversalInput::F26,
        KeyCode::F27 => UniversalInput::F27,
        KeyCode::F28 => UniversalInput::F28,
        KeyCode::F29 => UniversalInput::F29,
        KeyCode::F30 => UniversalInput::F30,
        KeyCode::F31 => UniversalInput::F31,
        KeyCode::F32 => UniversalInput::F32,
        KeyCode::F33 => UniversalInput::F33,
        KeyCode::F34 => UniversalInput::F34,
        KeyCode::F35 => UniversalInput::F35,
    }
}

impl From<KeyCode> for UniversalInput {
    fn from(value: KeyCode) -> (r: UniversalInput) {
        match value {
            KeyCode::Unidentified(_) => UniversalInput::Unknown(0),
            KeyCode::Backquote => UniversalInput::Backquote,
            KeyCode::Backslash => UniversalInput::Backslash,
            KeyCode::BracketLeft => UniversalInput::BracketLeft,
            KeyCode::BracketRight => UniversalInput::BracketRight,
            KeyCode::Comma => UniversalInput::Comma,
            KeyCode::Digit0 => UniversalInput::Digit0,
            KeyCode::Digit1 => UniversalInput::Digit1,
            KeyCode::Digit2 => UniversalInput::Digit2,
            KeyCode::Digit3 => UniversalInput::Digit3,
            KeyCode::Digit4 => UniversalInput::Digit4,
            KeyCode::Digit5 => UniversalInput::Digit5,
            KeyCode::Digit6 => UniversalInput::Digit6,
            KeyCode::Digit7 => UniversalInput::Digit7,
            KeyCode::Digit8 => UniversalInput::Digit8,
            KeyCode::Digit9 => UniversalInput::Digit9,
            KeyCode::Equal => UniversalInput::Equal,
            KeyCode::IntlBackslash => UniversalInput::IntlBackslash,
            KeyCode::IntlRo => UniversalInput::IntlRo,
            KeyCode::IntlYen => UniversalInput::IntlYen,
            KeyCode::KeyA => UniversalInput::KeyA,
            KeyCode::KeyB => UniversalInput::KeyB,
            KeyCode::KeyC => UniversalInput::KeyC,
            KeyCode::KeyD => UniversalInput::KeyD,
            KeyCode::KeyE => UniversalInput::KeyE,
            KeyCode::KeyF => UniversalInput::KeyF,
            KeyCode::KeyG => UniversalInput::KeyG,
            KeyCode::KeyH => UniversalInput::KeyH,
            KeyCode::KeyI => UniversalInput::KeyI,
            KeyCode::KeyJ => UniversalInput::KeyJ,
            KeyCode::KeyK => UniversalInput::KeyK,
            KeyCode::KeyL => UniversalInput::KeyL,
            KeyCode::KeyM => UniversalInput::KeyM,
            KeyCode::KeyN => UniversalInput::KeyN,
            KeyCode::KeyO => UniversalInput::KeyO,
            KeyCode::KeyP => UniversalInput::KeyP,
            KeyCode::KeyQ => UniversalInput::KeyQ,
            KeyCode::KeyR => UniversalInput::KeyR,
            KeyCode::KeyS => UniversalInput::KeyS,
            KeyCode::KeyT => UniversalInput::KeyT,
            KeyCode::KeyU => UniversalInput::KeyU,
            KeyCode::KeyV => UniversalInput::KeyV,
            KeyCode::KeyW => UniversalInput::KeyW,
            KeyCode::KeyX => UniversalInput::KeyX,
            KeyCode::KeyY => UniversalInput::KeyY,
            KeyCode::KeyZ => UniversalInput::KeyZ,
            KeyCode::Minus => UniversalInput::Minus,
            KeyCode::Period => UniversalInput::Period,
            KeyCode::Quote => UniversalInput::Quote,
            KeyCode::Semicolon => UniversalInput::Semicolon,
            KeyCode::Slash => UniversalInput::Slash,
            KeyCode::AltLeft => UniversalInput::AltLeft,
            KeyCode::AltRight => UniversalInput::AltRight,
            KeyCode::Backspace => UniversalInput::Backspace,
            KeyCode::CapsLock => UniversalInput::CapsLock,
            KeyCode::ContextMenu => UniversalInput::ContextMenu,
            KeyCode::ControlLeft => UniversalInput::ControlLeft,
            KeyCode::ControlRight => UniversalInput::ControlRight,
            KeyCode::Enter => UniversalInput::Enter,
            KeyCode::SuperLeft => UniversalInput::SuperLeft,
            KeyCode::SuperRight => UniversalInput::SuperRight,
            KeyCode::ShiftLeft => UniversalInput::ShiftLeft,
            KeyCode::ShiftRight => UniversalInput::ShiftRight,
            KeyCode::Space => UniversalInput::Space,
            KeyCode::Tab => UniversalInput::Tab,
            KeyCode::Convert => UniversalInput::Convert,
            KeyCode::KanaMode => UniversalInput::KanaMode,
            KeyCode::Lang1 => UniversalInput::Lang1,
            KeyCode::Lang2 => UniversalInput::Lang2,
            KeyCode::Lang3 => UniversalInput::Lang3,
            KeyCode::Lang4 => UniversalInput::Lang4,
            KeyCode::Lang5 => UniversalInput::Lang5,
            KeyCode::NonConvert => UniversalInput::NonConvert,
            KeyCode::Delete => UniversalInput::Delete,
            KeyCode::End => UniversalInput::End,
            KeyCode::Help => UniversalInput::Help,
            KeyCode::Home => UniversalInput::Home,
            KeyCode::Insert => UniversalInput::Insert,
            KeyCode::PageDown => UniversalInput::PageDown,
            KeyCode::PageUp => UniversalInput::PageUp,
            KeyCode::ArrowDown => UniversalInput::ArrowDown,
            KeyCode::ArrowLeft => UniversalInput::ArrowLeft,
            KeyCode::ArrowRight => UniversalInput::ArrowRight,
            KeyCode::ArrowUp => UniversalInput::ArrowUp,
            KeyCode::NumLock => UniversalInput::NumLock,
            KeyCode::Numpad0 => UniversalInput::Numpad0,
            KeyCode::Numpad1 => UniversalInput::Numpad1,
            KeyCode::Numpad2 => UniversalInput::Numpad2,
            KeyCode::Numpad3 => UniversalInput::Numpad3,
            KeyCode::Numpad4 => UniversalInput::Numpad4,
            KeyCode::Numpad5 => UniversalInput::Numpad5,
            KeyCode::Numpad6 => UniversalInput::Numpad6,
            KeyCode::Numpad7 => UniversalInput::Numpad7,
            KeyCode::Numpad8 => UniversalInput::Numpad8,
            KeyCode::Numpad9 => UniversalInput::Numpad9,
            KeyCode::NumpadAdd => UniversalInput::NumpadAdd,
            KeyCode::NumpadBackspace => UniversalInput::NumpadBackspace,
            KeyCode::NumpadClear => UniversalInput::NumpadClear,
            KeyCode::NumpadClearEntry => UniversalInput::NumpadClearEntry,
            KeyCode::NumpadComma => UniversalInput::NumpadComma,
            KeyCode::NumpadDecimal => UniversalInput::NumpadDecimal,
            KeyCode::NumpadDivide => UniversalInput::NumpadDivide,
            KeyCode::NumpadEnter => UniversalInput::NumpadEnter,
            KeyCode::NumpadEqual => UniversalInput::NumpadEqual,
            KeyCode::NumpadHash => UniversalInput::NumpadHash,
            KeyCode::NumpadMemoryAdd => UniversalInput::NumpadMemoryAdd,
            KeyCode::NumpadMemoryClear => UniversalInput::NumpadMemoryClear,
            KeyCode::NumpadMemoryRecall => UniversalInput::NumpadMemoryRecall,
            KeyCode::NumpadMemoryStore => UniversalInput::NumpadMemoryStore,
            KeyCode::NumpadMemorySubtract => UniversalInput::NumpadMemorySubtract,
            KeyCode::NumpadMultiply => UniversalInput::NumpadMultiply,
            KeyCode::NumpadParenLeft => UniversalInput::NumpadParenLeft,
            KeyCode::NumpadParenRight => UniversalInput::NumpadParenRight,
            KeyCode::NumpadStar => UniversalInput::NumpadStar,
            KeyCode::NumpadSubtract => UniversalInput::NumpadSubtract,
            KeyCode::Escape => UniversalInput::Escape,
            KeyCode::Fn => UniversalInput::Fn,
            KeyCode::FnLock => UniversalInput::FnLock,
            KeyCode::PrintScreen => UniversalInput::PrintScreen,
            KeyCode::ScrollLock => UniversalInput::ScrollLock,
            KeyCode::Pause => UniversalInput::Pause,
            KeyCode::BrowserBack => UniversalInput::BrowserBack,
            KeyCode::BrowserFavorites => UniversalInput::BrowserFavorites,
            KeyCode::BrowserForward => UniversalInput::BrowserForward,
            KeyCode::BrowserHome => UniversalInput::BrowserHome,
            KeyCode::BrowserRefresh => UniversalInput::BrowserRefresh,
            KeyCode::BrowserSearch => UniversalInput::BrowserSearch,
            KeyCode::BrowserStop => UniversalInput::BrowserStop,
            KeyCode::Eject => UniversalInput::Eject,
            KeyCode::LaunchApp1 => UniversalInput::LaunchApp1,
            KeyCode::LaunchApp2 => UniversalInput::LaunchApp2,
            KeyCode::LaunchMail => UniversalInput::LaunchMail,
            KeyCode::MediaPlayPause => UniversalInput::MediaPlayPause,
            KeyCode::MediaSelect => UniversalInput::MediaSelect,
            KeyCode::MediaStop => UniversalInput::MediaStop,
            KeyCode::MediaTrackNext => UniversalInput::MediaTrackNext,
            KeyCode::MediaTrackPrevious => UniversalInput::MediaTrackPrevious,
            KeyCode::Power => UniversalInput::Power,
            KeyCode::Sleep => UniversalInput::Sleep,
            KeyCode::AudioVolumeDown => UniversalInput::AudioVolumeDown,
            KeyCode::AudioVolumeMute => UniversalInput::AudioVolumeMute,
            KeyCode::AudioVolumeUp => UniversalInput::AudioVolumeUp,
            KeyCode::WakeUp => UniversalInput::WakeUp,
            KeyCode::Meta => UniversalInput::Meta,
            KeyCode::Hyper => UniversalInput::Hyper,
            KeyCode::Turbo => UniversalInput::Turbo,
            KeyCode::Abort => UniversalInput::Abort,
            KeyCode::Resume => UniversalInput::Resume,
            KeyCode::Suspend => UniversalInput::Suspend,
            KeyCode::Again => UniversalInput::Again,
            KeyCode::Copy => UniversalInput::Copy,
            KeyCode::Cut => UniversalInput::Cut,
            KeyCode::Find => UniversalInput::Find,
            KeyCode::Open => UniversalInput::Open,
            KeyCode::Paste => UniversalInput::Paste,
            KeyCode::Props => UniversalInput::Props,
            KeyCode::Select => UniversalInput::Select,
            KeyCode::Undo => UniversalInput::Undo,
            KeyCode::Hiragana => UniversalInput::Hiragana,
            KeyCode::Katakana => UniversalInput::Katakana,
            KeyCode::F1 => UniversalInput::F1,
            KeyCode::F2 => UniversalInput::F2,
            KeyCode::F3 => UniversalInput::F3,
            KeyCode::F4 => UniversalInput::F4,
            KeyCode::F5 => UniversalInput::F5,
            KeyCode::F6 => UniversalInput::F6,
            KeyCode::F7 => UniversalInput::F7,
            KeyCode::F8 => UniversalInput::F8,
            KeyCode::F9 => UniversalInput::F9,
            KeyCode::F10 => UniversalInput::F10,
            KeyCode::F11 => UniversalInput::F11,
            KeyCode::F12 => UniversalInput::F12,
            KeyCode::F13 => UniversalInput::F13,
            KeyCode::F14 => UniversalInput::F14,
            KeyCode::F15 => UniversalInput::F15,
            KeyCode::F16 => UniversalInput::F16,
            KeyCode::F17 => UniversalInput::F17,
            KeyCode::F18 => UniversalInput::F18,
            KeyCode::F19 => UniversalInput::F19,
            KeyCode::F20 => UniversalInput::F20,
            KeyCode::F21 => UniversalInput::F21,
            KeyCode::F22 => UniversalInput::F22,
            KeyCode::F23 => UniversalInput::F23,
            KeyCode::F24 => UniversalInput::F24,
            KeyCode::F25 => UniversalInput::F25,
            KeyCode::F26 => UniversalInput::F26,
            KeyCode::F27 => UniversalInput::F27,
            KeyCode::F28 => UniversalInput::F28,
            KeyCode::F29 => UniversalInput::F29,
            KeyCode::F30 => UniversalInput::F30,
            KeyCode::F31 => UniversalInput::F31,
            KeyCode::F32 => UniversalInput::F32,
            KeyCode::F33 => UniversalInput::F33,
            KeyCode::F34 => UniversalInput::F34,
            KeyCode::F35 => UniversalInput::F35,
        }
    }
}

impl vstd::std_specs::convert::FromSpecImpl<KeyCode> for UniversalInput {
    open spec fn obeys_from_spec() -> bool {
        true
    }

    open spec fn from_spec(v: KeyCode) -> UniversalInput {
        key_code_input(v)
    }
}

/// The input that a button of the gamepad with index `id` stands for.
pub open spec fn gamepad_button_input(button_type: GamepadButtonType, id: usize) -> UniversalInput {
    match button_type {
        GamepadButtonType::South => UniversalInput::GamepadSouth(id),
        GamepadButtonType::East => UniversalInput::GamepadEast(id),
        GamepadButtonType::North => UniversalInput::GamepadNorth(id),
        GamepadButtonType::West => UniversalInput::GamepadWest(id),
        GamepadButtonType::C => UniversalInput::GamepadC(id),
        GamepadButtonType::Z => UniversalInput::GamepadZ(id),
        GamepadButtonType::LeftTrigger => UniversalInput::GamepadLeftTrigger(id),
        GamepadButtonType::LeftTrigger2 => UniversalInput::GamepadLeftTrigger2(id),
        GamepadButtonType::RightTrigger => UniversalInput::GamepadRightTrigger(id),
        GamepadButtonType::RightTrigger2 => UniversalInput::GamepadRightTrigger2(id),
        GamepadButtonType::Select => UniversalInput::GamepadSelect(id),
        GamepadButtonType::Start => UniversalInput::GamepadStart(id),
        GamepadButtonType::Mode => UniversalInput::GamepadMode(id),
        GamepadButtonType::LeftThumb => UniversalInput::GamepadLeftThumb(id),
        GamepadButtonType::RightThumb => UniversalInput::GamepadRightThumb(id),
        GamepadButtonType::DPadUp => UniversalInput::GamepadDPadUp(id),
        GamepadButtonType::DPadDown => UniversalInput::GamepadDPadDown(id),
        GamepadButtonType::DPadLeft => UniversalInput::GamepadDPadLeft(id),
        GamepadButtonType::DPadRight => UniversalInput::GamepadDPadRight(id),
        GamepadButtonType::Other(c) => UniversalInput::GamepadOther(c, id),
    }
}

impl From<GamepadButton> for UniversalInput {
    fn from(value: GamepadButton) -> (r: UniversalInput) {
        let button_type = value.button_type;
        let id = value.gamepad.id;
        match button_type {
            GamepadButtonType::South => UniversalInput::GamepadSouth(id),
            GamepadButtonType::East => UniversalInput::GamepadEast(id),
            GamepadButtonType::North => UniversalInput::GamepadNorth(id),
            GamepadButtonType::West => UniversalInput::GamepadWest(id),
            GamepadButtonType::C => UniversalInput::GamepadC(id),
            GamepadButtonType::Z => UniversalInput::GamepadZ(id),
            GamepadButtonType::LeftTrigger => UniversalInput::GamepadLeftTrigger(id),
            GamepadButtonType::LeftTrigger2 => UniversalInput::GamepadLeftTrigger2(id),
            GamepadButtonType::RightTrigger => UniversalInput::GamepadRightTrigger(id),
            GamepadButtonType::RightTrigger2 => UniversalInput::GamepadRightTrigger2(id),
            GamepadButtonType::Select => UniversalInput::GamepadSelect(id),
            GamepadButtonType::Start => UniversalInput::GamepadStart(id),
            GamepadButtonType::Mode => UniversalInput::GamepadMode(id),
            GamepadButtonType::LeftThumb => UniversalInput::GamepadLeftThumb(id),
            GamepadButtonType::RightThumb => UniversalInput::GamepadRightThumb(id),
            GamepadButtonType::DPadUp => UniversalInput::GamepadDPadUp(id),
            GamepadButtonType::DPadDown => UniversalInput::GamepadDPadDown(id),
            GamepadButtonType::DPadLeft => UniversalInput::GamepadDPadLeft(id),
            GamepadButtonType::DPadRight => UniversalInput::GamepadDPadRight(id),
            GamepadButtonType::Other(c) => UniversalInput::GamepadOther(c, id),
        }
    }
}

impl vstd::std_specs::convert::FromSpecImpl<GamepadButton> for UniversalInput {
    open spec fn obeys_from_spec() -> bool {
        true
    }

    open spec fn from_spec(v: GamepadButton) -> UniversalInput {
        gamepad_button_input(v.button_type, v.gamepad.id)
    }
}

/// The input that a mouse button stands for.
pub open spec fn mouse_button_input(button: MouseButton) -> UniversalInput {
    match button {
        MouseButton::Left => UniversalInput::MouseLeft,
        MouseButton::Right => UniversalInput::MouseRight,
        MouseButton::Middle => UniversalInput::MouseMiddle,
        MouseButton::Back => UniversalInput::MouseBack,
        MouseButton::Forward => UniversalInput::MouseForward,
        MouseButton::Other(id) => UniversalInput::MouseOther(id),
    }
}

impl From<MouseButton> for UniversalInput {
    fn from(value: MouseButton) -> (r: UniversalInput) {
        match value {
            MouseButton::Left => UniversalInput::MouseLeft,
            MouseButton::Right => UniversalInput::MouseRight,
            MouseButton::Middle => UniversalInput::MouseMiddle,
            MouseButton::Back => UniversalInput::MouseBack,
            MouseButton::Forward => UniversalInput::MouseForward,
            MouseButton::Other(id) => UniversalInput::MouseOther(id),
        }
    }
}

impl vstd::std_specs::convert::FromSpecImpl<MouseButton> for UniversalInput {
    open spec fn obeys_from_spec() -> bool {
        true
    }

    open spec fn from_spec(v: MouseButton) -> UniversalInput {
        mouse_button_input(v)
    }
}

/// A raw keyboard key, as the host reports it: either a physical key code, or a
/// platform scan code that still has to be looked up in the platform's table.
#[derive(Clone, Copy, Debug, PartialEq, Eq, Hash)]
pub enum Key {
    KeyCode(KeyCode),
    ScanCode(u32),
}

/// The input that a raw key stands for on platform `p`. A scan code that the
/// platform cannot resolve, and any scan code on a platform without tables,
/// becomes `Unknown` with that code.
pub open spec fn key_input(key: Key, p: Platform) -> UniversalInput {
    match key {
        Key::KeyCode(k) => key_code_input(k),
        Key::ScanCode(c) => match scan_code_key(p, c) {
            Some(u) => u,
            None => UniversalInput::Unknown(c),
        },
    }
}

impl UniversalInput {
    /// Normalizes a raw key on the operating system named `os`.
    pub fn from_key(key: Key, os: &str) -> (r: UniversalInput)
        ensures
            r == key_input(key, platform_of(os@)),
            platform_of(os@) == Platform::Unsupported ==> (key matches Key::ScanCode(c) ==> r
                == UniversalInput::Unknown(c)),
    {
        match key {
            Key::KeyCode(k) => UniversalInput::from(k),
            Key::ScanCode(c) => match get_key(os, c) {
                Ok(u) => u,
                Err(_) => UniversalInput::Unknown(c),
            },
        }
    }
}

} // verus!
