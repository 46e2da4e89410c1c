//! The per-tick state of every action: pressed, just pressed, just released.

use vstd::prelude::*;
use bevy_input::ButtonInput;
use crate::action::Action;

verus! {

/// What a tracker knows, by action name: the actions held down, those pressed
/// during the current tick, and those released during it.
pub struct ButtonStates {
    pub pressed: Set<Seq<char>>,
    pub just_pressed: Set<Seq<char>>,
    pub just_released: Set<Seq<char>>,
}

impl ButtonStates {
    pub open spec fn empty() -> ButtonStates {
        ButtonStates {
            pressed: Set::empty(),
            just_pressed: Set::empty(),
            just_released: Set::empty(),
        }
    }

    /// Pressing: the action becomes pressed; it counts as just pressed only
    /// when it was not pressed before.
    pub open spec fn press(self, a: Seq<char>) -> ButtonStates {
        ButtonStates {
            pressed: self.pressed.insert(a),
            just_pressed: if self.pressed.contains(a) {
                self.just_pressed
            } else {
                self.just_pressed.insert(a)
            },
            just_released: self.just_released,
        }
    }

    /// Releasing: the action is neither pressed nor just pressed afterwards, and
    /// counts as just released when it was pressed before.
    pub open spec fn release(self, a: Seq<char>) -> ButtonStates {
        ButtonStates {
            pressed: self.pressed.remove(a),
            just_pressed: self.just_pressed.remove(a),
            just_released: if self.pressed.contains(a) {
                self.just_released.insert(a)
            } else {
                self.just_released
            },
        }
    }

    /// Releasing everything: every pressed action counts as just released and
    /// stops being pressed or just pressed.
    pub open spec fn release_all(self) -> ButtonStates {
        ButtonStates {
            pressed: Set::empty(),
            just_pressed: self.just_pressed.difference(self.pressed),
            just_released: self.just_released.union(self.pressed),
        }
    }

    pub open spec fn clear_just_pressed(self, a: Seq<char>) -> ButtonStates {
        ButtonStates {
            pressed: self.pressed,
            just_pressed: self.just_pressed.remove(a),
            just_released: self.just_released,
        }
    }

    pub open spec fn reset(self, a: Seq<char>) -> ButtonStates {
        ButtonStates {
            pressed: self.pressed.remove(a),
            just_pressed: self.just_pressed.remove(a),
            just_released: self.just_released.remove(a),
        }
    }

    /// An action is just pressed only while it is pressed.
    pub open spec fn wf(self) -> bool {
        self.just_pressed.subset_of(self.pressed)
    }

    /// The step from one tick to the next: what was just pressed or just
    /// released no longer is; what is held stays held.
    pub open spec fn advance(self) -> ButtonStates {
        ButtonStates {
            pressed: self.pressed,
            just_pressed: Set::empty(),
            just_released: Set::empty(),
        }
    }
}

/// The names of the actions that a button set holds pressed.
pub uninterp spec fn pressed_names(b: ButtonInput<Action>) -> Set<Seq<char>>;

/// The names of the actions that a button set holds as just pressed.
pub uninterp spec fn just_pressed_names(b: ButtonInput<Action>) -> Set<Seq<char>>;

/// The names of the actions that a button set holds as just released.
pub uninterp spec fn just_released_names(b: ButtonInput<Action>) -> Set<Seq<char>>;

pub open spec fn button_states(b: ButtonInput<Action>) -> ButtonStates {
    ButtonStates {
        pressed: pressed_names(b),
        just_pressed: just_pressed_names(b),
        just_released: just_released_names(b),
    }
}

/// The names of a sequence of actions.
pub open spec fn action_names(s: Seq<Action>) -> Seq<Seq<char>> {
    s.map_values(|a: Action| a@)
}

/// Whether any of the actions `s` is named in `names`.
pub open spec fn any_named(names: Set<Seq<char>>, s: Seq<Action>) -> bool {
    exists|i: int| 0 <= i < s.len() && names.contains(#[trigger] s[i]@)
}

/// Relies on `ButtonInput::default`: all three sets start empty.
#[verifier::external_body]
fn buttons_new() -> (r: ButtonInput<Action>)
    ensures
        button_states(r) == ButtonStates::empty(),
{
    ButtonInput::default()
}

/// Relies on `ButtonInput::press`: inserts into `pressed`, and into
/// `just_pressed` when the insertion was new.
#[verifier::external_body]
fn buttons_press(b: &mut ButtonInput<Action>, a: Action)
    ensures
        button_states(*final(b)) == button_states(*old(b)).press(a@),
{
    b.press(a)
}

/// Relies on `ButtonInput::pressed`: membership in `pressed`.
#[verifier::external_body]
fn buttons_pressed(b: &ButtonInput<Action>, a: Action) -> (r: bool)
    ensures
        r == pressed_names(*b).contains(a@),
{
    b.pressed(a)
}

/// Relies on `ButtonInput::any_pressed`: whether any of the given actions is in
/// `pressed`.
#[verifier::external_body]
fn buttons_any_pressed(b: &ButtonInput<Action>, inputs: &Vec<Action>) -> (r: bool)
    ensures
        r == any_named(pressed_names(*b), inputs@),
{
    b.any_pressed(inputs.iter().copied())
}

/// Relies on `ButtonInput::release`: removes from `pressed`, and inserts into
/// `just_released` when the action was pressed.
#[verifier::external_body]
fn buttons_release(b: &mut ButtonInput<Action>, a: Action)
    ensures
        pressed_names(*final(b)) == pressed_names(*old(b)).remove(a@),
        just_pressed_names(*final(b)) == just_pressed_names(*old(b)),
        just_released_names(*final(b)) == if pressed_names(*old(b)).contains(a@) {
            just_released_names(*old(b)).insert(a@)
        } else {
            just_released_names(*old(b))
        },
{
    b.release(a)
}

/// Relies on `ButtonInput::release_all`: moves everything pressed into
/// `just_released`.
#[verifier::external_body]
fn buttons_release_all(b: &mut ButtonInput<Action>)
    ensures
        pressed_names(*final(b)) == Set::<Seq<char>>::empty(),
        just_pressed_names(*final(b)) == just_pressed_names(*old(b)),
        just_released_names(*final(b)) == just_released_names(*old(b)).union(
            pressed_names(*old(b)),
        ),
{
    b.release_all()
}

/// Relies on `ButtonInput::just_pressed`: membership in `just_pressed`.
#[verifier::external_body]
fn buttons_just_pressed(b: &ButtonInput<Action>, a: Action) -> (r: bool)
    ensures
        r == just_pressed_names(*b).contains(a@),
{
    b.just_pressed(a)
}

/// Relies on `ButtonInput::any_just_pressed`: whether any of the given actions
/// is in `just_pressed`.
#[verifier::external_body]
fn buttons_any_just_pressed(b: &ButtonInput<Action>, inputs: &Vec<Action>) -> (r: bool)
    ensures
        r == any_named(just_pressed_names(*b), inputs@),
{
    b.any_just_pressed(inputs.iter().copied())
}

/// Relies on `ButtonInput::just_released`: membership in `just_released`.
#[verifier::external_body]
fn buttons_just_released(b: &ButtonInput<Action>, a: Action) -> (r: bool)
    ensures
        r == just_released_names(*b).contains(a@),
{
    b.just_released(a)
}

/// Relies on `ButtonInput::clear_just_pressed`: removes from `just_pressed`
/// only, and tells whether the action was there.
#[verifier::external_body]
fn buttons_clear_just_pressed(b: &mut ButtonInput<Action>, a: Action) -> (r: bool)
    ensures
        button_states(*final(b)) == button_states(*old(b)).clear_just_pressed(a@),
        r == just_pressed_names(*old(b)).contains(a@),
{
    b.clear_just_pressed(a)
}

/// Relies on `ButtonInput::reset`: removes the action from all three sets.
#[verifier::external_body]
fn buttons_reset(b: &mut ButtonInput<Action>, a: Action)
    ensures
        button_states(*final(b)) == button_states(*old(b)).reset(a@),
{
    b.reset(a)
}

/// Relies on `ButtonInput::reset_all`: clears all three sets.
#[verifier::external_body]
fn buttons_reset_all(b: &mut ButtonInput<Action>)
    ensures
        button_states(*final(b)) == ButtonStates::empty(),
{
    b.reset_all()
}

/// Relies on `ButtonInput::clear`: clears `just_pressed` and `just_released`
/// and leaves `pressed` as it is.
#[verifier::external_body]
fn buttons_clear(b: &mut ButtonInput<Action>)
    ensures
        button_states(*final(b)) == button_states(*old(b)).advance(),
{
    b.clear()
}

/// Relies on `ButtonInput::get_pressed`: each member of `pressed` once.
#[verifier::external_body]
fn buttons_get_pressed(b: &ButtonInput<Action>) -> (r: Vec<Action>)
    ensures
        action_names(r@).to_set() == pressed_names(*b),
        action_names(r@).no_duplicates(),
{
    b.get_pressed().copied().collect()
}

/// Relies on `ButtonInput::get_just_pressed`: each member of `just_pressed`
/// once.
#[verifier::external_body]
fn buttons_get_just_pressed(b: &ButtonInput<Action>) -> (r: Vec<Action>)
    ensures
        action_names(r@).to_set() == just_pressed_names(*b),
        action_names(r@).no_duplicates(),
{
    b.get_just_pressed().copied().collect()
}

/// Relies on `ButtonInput::get_just_released`: each member of `just_released`
/// once.
#[verifier::external_body]
fn buttons_get_just_released(b: &ButtonInput<Action>) -> (r: Vec<Action>)
    ensures
        action_names(r@).to_set() == just_released_names(*b),
        action_names(r@).no_duplicates(),
{
    b.get_just_released().copied().collect()
}

/// The button state of every action, for one player.
#[derive(Debug)]
pub struct ActionInput {
    buttons: ButtonInput<Action>,
}

impl View for ActionInput {
    type V = ButtonStates;

    closed spec fn view(&self) -> ButtonStates {
        button_states(self.buttons)
    }
}

impl ActionInput {
    /// A tracker in which nothing is pressed.
    pub fn new() -> (r: ActionInput)
        ensures
            r@ == ButtonStates::empty(),
    {
        ActionInput { buttons: buttons_new() }
    }

    pub fn press(&mut self, input: Action)
        ensures
            final(self)@ == old(self)@.press(input@),
    {
        buttons_press(&mut self.buttons, input)
    }

    pub fn pressed(&self, input: Action) -> (r: bool)
        ensures
            r == self@.pressed.contains(input@),
    {
        buttons_pressed(&self.buttons, input)
    }

    pub fn any_pressed(&self, inputs: &Vec<Action>) -> (r: bool)
        ensures
            r == any_named(self@.pressed, inputs@),
    {
        buttons_any_pressed(&self.buttons, inputs)
    }

    pub fn release(&mut self, input: Action)
        ensures
            final(self)@ == old(self)@.release(input@),
    {
        buttons_release(&mut self.buttons, input);
        buttons_clear_just_pressed(&mut self.buttons, input);
    }

    pub fn release_all(&mut self)
        ensures
            final(self)@ == old(self)@.release_all(),
    {
        let held = buttons_get_pressed(&self.buttons);
        let ghost start = self@;
        buttons_release_all(&mut self.buttons);
        let mut i: usize = 0;
        while i < held.len()
            invariant
                i <= held@.len(),
                action_names(held@).to_set() == start.pressed,
                self@.pressed == Set::<Seq<char>>::empty(),
                self@.just_released == start.just_released.union(start.pressed),
                self@.just_pressed == start.just_pressed.difference(
                    action_names(held@.subrange(0, i as int)).to_set(),
                ),
            decreases held@.len() - i,
        {
            buttons_clear_just_pressed(&mut self.buttons, held[i]);
            assert(action_names(held@.subrange(0, i as int + 1)).to_set() =~= action_names(
                held@.subrange(0, i as int),
            ).to_set().insert(held@[i as int]@)) by {
                assert(action_names(held@.subrange(0, i as int + 1)) =~= action_names(
                    held@.subrange(0, i as int),
                ).push(held@[i as int]@));
                action_names(held@.subrange(0, i as int)).lemma_push_to_set_commute(
                    held@[i as int]@,
                );
            }
            assert(self@.just_pressed =~= start.just_pressed.difference(
                action_names(held@.subrange(0, i as int + 1)).to_set(),
            ));
            i = i + 1;
        }
        assert(held@.subrange(0, held@.len() as int) =~= held@);
        assert(self@ == start.release_all()) by {
            assert(self@.just_pressed =~= start.just_pressed.difference(start.pressed));
        }
    }

    pub fn just_pressed(&self, input: Action) -> (r: bool)
        ensures
            r == self@.just_pressed.contains(input@),
    {
        buttons_just_pressed(&self.buttons, input)
    }

    pub fn any_just_pressed(&self, inputs: &Vec<Action>) -> (r: bool)
        ensures
            r == any_named(self@.just_pressed, inputs@),
    {
        buttons_any_just_pressed(&self.buttons, inputs)
    }

    pub fn just_released(&self, input: Action) -> (r: bool)
        ensures
            r == self@.just_released.contains(input@),
    {
        buttons_just_released(&self.buttons, input)
    }

    /// Forgets that the action was just pressed, leaving it pressed.
    pub fn clear_just_pressed(&mut self, input: Action)
        ensures
            final(self)@ == old(self)@.clear_just_pressed(input@),
    {
        buttons_clear_just_pressed(&mut self.buttons, input);
    }

    /// Puts the action back to released, with no trace in the transitional
    /// sets.
    pub fn reset(&mut self, input: Action)
        ensures
            final(self)@ == old(self)@.reset(input@),
    {
        buttons_reset(&mut self.buttons, input)
    }

    pub fn reset_all(&mut self)
        ensures
            final(self)@ == ButtonStates::empty(),
    {
        buttons_reset_all(&mut self.buttons)
    }

    /// Advances to the next tick; see `ButtonStates::advance`.
    pub fn clear(&mut self)
        ensures
            final(self)@ == old(self)@.advance(),
    {
        buttons_clear(&mut self.buttons)
    }

    pub fn get_pressed(&self) -> (r: Vec<Action>)
        ensures
            action_names(r@).to_set() == self@.pressed,
            action_names(r@).no_duplicates(),
    {
        buttons_get_pressed(&self.buttons)
    }

    pub fn get_just_pressed(&self) -> (r: Vec<Action>)
        ensures
            action_names(r@).to_set() == self@.just_pressed,
            action_names(r@).no_duplicates(),
    {
        buttons_get_just_pressed(&self.buttons)
    }

    pub fn get_just_released(&self) -> (r: Vec<Action>)
        ensures
            action_names(r@).to_set() == self@.just_released,
            action_names(r@).no_duplicates(),
    {
        buttons_get_just_released(&self.buttons)
    }
}

impl Default for ActionInput {
    fn default() -> (r: ActionInput)
        ensures
            r@ == ButtonStates::empty(),
    {
        ActionInput::new()
    }
}

/// A fresh tracker that advances and then sees an action pressed reports it
/// both pressed and just pressed; after one more advance with no press it is
/// still pressed but no longer just pressed.
pub proof fn lemma_press_edge(a: Seq<char>)
    ensures
        ButtonStates::empty().advance().press(a).pressed.contains(a),
        ButtonStates::empty().advance().press(a).just_pressed.contains(a),
        ButtonStates::empty().advance().press(a).advance().pressed.contains(a),
        !ButtonStates::empty().advance().press(a).advance().just_pressed.contains(a),
{
}

/// Releasing a pressed action makes it not pressed at once; after the next
/// advance it is still not pressed and no longer reported as just released.
pub proof fn lemma_release_edge(s: ButtonStates, a: Seq<char>)
    requires
        s.pressed.contains(a),
    ensures
        !s.release(a).pressed.contains(a),
        s.release(a).just_released.contains(a),
        !s.release(a).advance().pressed.contains(a),
        !s.release(a).advance().just_released.contains(a),
{
}

/// Every transition keeps what is just pressed within what is pressed.
pub proof fn lemma_just_pressed_within_pressed(s: ButtonStates, a: Seq<char>)
    requires
        s.wf(),
    ensures
        ButtonStates::empty().wf(),
        s.press(a).wf(),
        s.release(a).wf(),
        s.release_all().wf(),
        s.clear_just_pressed(a).wf(),
        s.reset(a).wf(),
        s.advance().wf(),
{
}

/// Pressing an action that is already pressed does not report it as just
/// pressed a second time: a repeated press within one tick changes nothing.
pub proof fn lemma_press_is_idempotent(s: ButtonStates, a: Seq<char>)
    ensures
        s.press(a).press(a) == s.press(a),
{
    assert(s.press(a).pressed.insert(a) =~= s.press(a).pressed);
}

} // verus!
