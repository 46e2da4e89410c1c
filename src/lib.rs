//! Maps raw keyboard, mouse and gamepad input to game-defined actions, and tracks
//! which actions are pressed, just pressed and just released, for one player or
//! for several players that share one stream of hardware events.
//!
//! - `universal_input` and `scan_code`: the canonical identity of a physical
//!   input, and its normalization from the host's raw key, mouse and gamepad
//!   types and from platform scan codes.
//! - `control_scheme`, `multi_scheme`: bindings from inputs to actions.
//! - `action_input`, `multi_input`: the per-tick state of every action.
//! - `pipeline`: one tick, from raw events to action state.
//! - `action_map`: a registry of actions by device kind.

mod bevy_types;

pub mod action;
pub mod action_input;
pub mod action_map;
pub mod control_scheme;
pub mod multi_input;
pub mod multi_scheme;
pub mod pipeline;
pub mod scan_code;
pub mod universal_input;

pub use action::Action;
pub use action_input::ActionInput;
pub use action_map::{ActionMap, InputType};
pub use control_scheme::{make_controls, ControlScheme};
pub use multi_input::MultiInput;
pub use multi_scheme::MultiScheme;
pub use pipeline::{
    make_multi_input, multi_universal_input_system, universal_input_system, unresolved_keys,
    update_inputs,
    GamepadButtonEvent, KeyboardEvent, MouseButtonEvent,
};
pub use scan_code::{get_key, get_scan_code, KeyError};
pub use universal_input::{Key, UniversalInput};
