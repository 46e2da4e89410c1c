//! A registry of actions by the device kind of the input that triggers them.

use vstd::prelude::*;
use crate::action::Action;
use crate::universal_input::UniversalInput;

verus! {

/// The kind of device an input comes from.
#[derive(Clone, Copy, Debug, PartialEq, Eq, Structural, Hash)]
pub enum InputType {
    Keyboard,
    Mouse,
    GamepadButton,
}

/// The device kind of an input; an input that could not be normalized counts
/// as a keyboard input, the only kind whose normalization can fail.
pub open spec fn input_type_of(input: UniversalInput) -> InputType {
    match input {
        UniversalInput::GamepadSouth(_) => InputType::GamepadButton,
        UniversalInput::GamepadEast(_) => InputType::GamepadButton,
        UniversalInput::GamepadNorth(_) => InputType::GamepadButton,
        UniversalInput::GamepadWest(_) => InputType::GamepadButton,
        UniversalInput::GamepadC(_) => InputType::GamepadButton,
        UniversalInput::GamepadZ(_) => InputType::GamepadButton,
        UniversalInput::GamepadLeftTrigger(_) => InputType::GamepadButton,
        UniversalInput::GamepadLeftTrigger2(_) => InputType::GamepadButton,
        UniversalInput::GamepadRightTrigger(_) => InputType::GamepadButton,
        UniversalInput::GamepadRightTrigger2(_) => InputType::GamepadButton,
        UniversalInput::GamepadSelect(_) => InputType::GamepadButton,
        UniversalInput::GamepadStart(_) => InputType::GamepadButton,
        UniversalInput::GamepadMode(_) => InputType::GamepadButton,
        UniversalInput::GamepadLeftThumb(_) => InputType::GamepadButton,
        UniversalInput::GamepadRightThumb(_) => InputType::GamepadButton,
        UniversalInput::GamepadDPadUp(_) => InputType::GamepadButton,
        UniversalInput::GamepadDPadDown(_) => InputType::GamepadButton,
        UniversalInput::GamepadDPadLeft(_) => InputType::GamepadButton,
        UniversalInput::GamepadDPadRight(_) => InputType::GamepadButton,
        UniversalInput::GamepadOther(_, _) => InputType::GamepadButton,
        UniversalInput::MouseLeft => InputType::Mouse,
        UniversalInput::MouseRight => InputType::Mouse,
        UniversalInput::MouseMiddle => InputType::Mouse,
        UniversalInput::MouseBack => InputType::Mouse,
        UniversalInput::MouseForward => InputType::Mouse,
        UniversalInput::MouseOther(_) => InputType::Mouse,
        _ => InputType::Keyboard,
    }
}

impl UniversalInput {
    pub fn input_type(&self) -> (r: InputType)
        ensures
            r == input_type_of(*self),
    {
        match self {
            UniversalInput::GamepadSouth(_) => InputType::GamepadButton,
            UniversalInput::GamepadEast(_) => InputType::GamepadButton,
            UniversalInput::GamepadNorth(_) => InputType::GamepadButton,
            UniversalInput::GamepadWest(_) => InputType::GamepadButton,
            UniversalInput::GamepadC(_) => InputType::GamepadButton,
            UniversalInput::GamepadZ(_) => InputType::GamepadButton,
            UniversalInput::GamepadLeftTrigger(_) => InputType::GamepadButton,
            UniversalInput::GamepadLeftTrigger2(_) => InputType::GamepadButton,
            UniversalInput::GamepadRightTrigger(_) => InputType::GamepadButton,
            UniversalInput::GamepadRightTrigger2(_) => InputType::GamepadButton,
            UniversalInput::GamepadSelect(_) => InputType::GamepadButton,
            UniversalInput::GamepadStart(_) => InputType::GamepadButton,
            UniversalInput::GamepadMode(_) => InputType::GamepadButton,
            UniversalInput::GamepadLeftThumb(_) => InputType::GamepadButton,
            UniversalInput::GamepadRightThumb(_) => InputType::GamepadButton,
            UniversalInput::GamepadDPadUp(_) => InputType::GamepadButton,
            UniversalInput::GamepadDPadDown(_) => InputType::GamepadButton,
            UniversalInput::GamepadDPadLeft(_) => InputType::GamepadButton,
            UniversalInput::GamepadDPadRight(_) => InputType::GamepadButton,
            UniversalInput::GamepadOther(_, _) => InputType::GamepadButton,
            UniversalInput::MouseLeft => InputType::Mouse,
            UniversalInput::MouseRight => InputType::Mouse,
            UniversalInput::MouseMiddle => InputType::Mouse,
            UniversalInput::MouseBack => InputType::Mouse,
            UniversalInput::MouseForward => InputType::Mouse,
            UniversalInput::MouseOther(_) => InputType::Mouse,
            _ => InputType::Keyboard,
        }
    }
}

/// A registration: the action's name and its input.
pub open spec fn registration_view(r: (Action, UniversalInput)) -> (Seq<char>, UniversalInput) {
    (r.0@, r.1)
}

/// Actions with the input that triggers each, kept in one list per device
/// kind, in the order of registration.
pub struct ActionMap {
    keyboard_actions: Vec<(Action, UniversalInput)>,
    mouse_actions: Vec<(Action, UniversalInput)>,
    gamepad_button_actions: Vec<(Action, UniversalInput)>,
}

impl ActionMap {
    /// The registrations of device kind `kind`, oldest first.
    pub closed spec fn registered(&self, kind: InputType) -> Seq<(Seq<char>, UniversalInput)> {
        match kind {
            InputType::Keyboard => self.keyboard_actions@.map_values(|r| registration_view(r)),
            InputType::Mouse => self.mouse_actions@.map_values(|r| registration_view(r)),
            InputType::GamepadButton => self.gamepad_button_actions@.map_values(
                |r| registration_view(r),
            ),
        }
    }

    /// A map with no registrations.
    pub fn new() -> (r: ActionMap)
        ensures
            forall|kind: InputType| #[trigger] r.registered(kind).len() == 0,
    {
        ActionMap {
            keyboard_actions: Vec::new(),
            mouse_actions: Vec::new(),
            gamepad_button_actions: Vec::new(),
        }
    }

    /// Registers `action`, triggered by `input`, at the end of the list of
    /// `input`'s device kind.
    pub fn register(&mut self, action: Action, input: UniversalInput)
        ensures
            forall|kind: InputType|
                #[trigger] final(self).registered(kind) == if kind == input_type_of(input) {
                    old(self).registered(kind).push((action@, input))
                } else {
                    old(self).registered(kind)
                },
    {
        let kind = input.input_type();
        match kind {
            InputType::Keyboard => self.keyboard_actions.push((action, input)),
            InputType::Mouse => self.mouse_actions.push((action, input)),
            InputType::GamepadButton => self.gamepad_button_actions.push((action, input)),
        }
        assert forall|kind: InputType|
            #[trigger] self.registered(kind) == if kind == input_type_of(input) {
                old(self).registered(kind).push((action@, input))
            } else {
                old(self).registered(kind)
            } by {
            if kind == input_type_of(input) {
                assert(self.registered(kind) =~= old(self).registered(kind).push((action@, input)));
            }
        }
    }

    /// The first action registered for `lookup_input`.
    pub fn get_action(&self, lookup_input: UniversalInput) -> (r: Option<Action>)
        ensures
            ({
                let regs = self.registered(input_type_of(lookup_input));
                match r {
                    Some(a) => exists|i: int|
                        0 <= i < regs.len() && regs[i] == (a@, lookup_input) && forall|j: int|
                            0 <= j < i ==> #[trigger] regs[j].1 != lookup_input,
                    None => forall|i: int| 0 <= i < regs.len() ==> #[trigger] regs[i].1 != lookup_input,
                }
            }),
    {
        let list = match lookup_input.input_type() {
            InputType::Keyboard => &self.keyboard_actions,
            InputType::Mouse => &self.mouse_actions,
            InputType::GamepadButton => &self.gamepad_button_actions,
        };
        let ghost regs = self.registered(input_type_of(lookup_input));
        assert(regs =~= list@.map_values(|r| registration_view(r)));
        let mut i: usize = 0;
        while i < list.len()
            invariant
                i <= list@.len(),
                regs == list@.map_values(|r| registration_view(r)),
                regs == self.registered(input_type_of(lookup_input)),
                forall|j: int| 0 <= j < i ==> #[trigger] regs[j].1 != lookup_input,
            decreases list@.len() - i,
        {
            if list[i].1 == lookup_input {
                let found = list[i].0;
                assert(regs[i as int] == (found@, lookup_input));
                return Some(found);
            }
            i = i + 1;
        }
        None
    }
}

impl Default for ActionMap {
    fn default() -> (r: ActionMap)
        ensures
            forall|kind: InputType| #[trigger] r.registered(kind).len() == 0,
    {
        ActionMap::new()
    }
}

} // verus!
