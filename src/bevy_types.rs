//! The host engine's input types that the library reads or builds.
//!
//! The enums and plain structs are declared with their variants and fields, so
//! that verified code can match on them; `ButtonInput` stays opaque and is
//! reached only through the wrappers in `action_input`.

use vstd::prelude::*;
use bevy_input::gamepad::{Gamepad, GamepadButton, GamepadButtonInput, GamepadButtonType};
use bevy_input::keyboard::{KeyCode, NativeKeyCode};
use bevy_input::mouse::MouseButton;
use bevy_input::{ButtonInput, ButtonState};

verus! {

/// bevy_input's `NativeKeyCode`, the platform code inside an unidentified key.
#[verifier::external_type_specification]
pub struct ExNativeKeyCode(NativeKeyCode);

/// bevy_input's `KeyCode`: a keyboard key by its physical location.
#[verifier::external_type_specification]
pub struct ExKeyCode(KeyCode);

/// bevy_input's `MouseButton`.
#[verifier::external_type_specification]
pub struct ExMouseButton(MouseButton);

/// bevy_input's `GamepadButtonType`: which button of a gamepad.
#[verifier::external_type_specification]
pub struct ExGamepadButtonType(GamepadButtonType);

/// bevy_input's `Gamepad`: a gamepad by its index.
#[verifier::external_type_specification]
pub struct ExGamepad(Gamepad);

/// bevy_input's `GamepadButton`: a button type on one gamepad.
#[verifier::external_type_specification]
pub struct ExGamepadButton(GamepadButton);

/// bevy_input's `ButtonState`: pressed or released.
#[verifier::external_type_specification]
pub struct ExButtonState(ButtonState);

/// bevy_input's `GamepadButtonInput`: the button event that the tick emits.
#[verifier::external_type_specification]
pub struct ExGamepadButtonInput(GamepadButtonInput);

/// bevy_input's `ButtonInput`: the pressed, just-pressed and just-released sets
/// of some button type.
#[verifier::external_type_specification]
#[verifier::external_body]
#[verifier::reject_recursive_types(T)]
pub struct ExButtonInput<T: Copy + Eq + core::hash::Hash + Send + Sync + 'static>(ButtonInput<T>);

} // verus!
