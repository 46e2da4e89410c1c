//! The per-tick translation of raw hardware events into action state.
//!
//! Events come in three batches, handled in this order: keyboard, gamepad,
//! mouse. Each event's input is normalized, looked up in the control scheme,
//! and, when bound, presses or releases the bound action. An event whose input
//! is bound to nothing is ignored.

use vstd::prelude::*;
use bevy_input::gamepad::{GamepadButton, GamepadButtonInput};
use bevy_input::mouse::MouseButton;
use bevy_input::ButtonState;
use crate::action_input::{ActionInput, ButtonStates};
use crate::action::Action;
use crate::control_scheme::{controls_map, make_controls, ControlScheme};
use crate::multi_input::MultiInput;
use crate::multi_scheme::MultiScheme;
use crate::scan_code::{get_key, platform_of, scan_code_key, Platform};
use crate::universal_input::{gamepad_button_input, key_input, mouse_button_input, Key, UniversalInput};

verus! {

/// A key going down or coming up.
#[derive(Clone, Copy, Debug, PartialEq, Eq)]
pub struct KeyboardEvent {
    pub key: Key,
    pub state: ButtonState,
}

/// A mouse button going down or coming up.
#[derive(Clone, Copy, Debug, PartialEq, Eq)]
pub struct MouseButtonEvent {
    pub button: MouseButton,
    pub state: ButtonState,
}

/// A new analog value of a gamepad button, with the two thresholds that apply
/// to that button. The value and both thresholds are integers in one encoding
/// that orders them as the analog values themselves are ordered (such as
/// millionths of the button's full travel).
#[derive(Clone, Copy, Debug, PartialEq, Eq)]
pub struct GamepadButtonEvent {
    pub button: GamepadButton,
    pub value: u32,
    pub press_threshold: u32,
    pub release_threshold: u32,
}

/// What a press or release of `input` does: it presses or releases the
/// action that `input` is bound to, if any.
pub open spec fn button_step(
    s: ButtonStates,
    scheme: Map<UniversalInput, Seq<char>>,
    input: UniversalInput,
    state: ButtonState,
) -> ButtonStates {
    if scheme.contains_key(input) {
        match state {
            ButtonState::Pressed => s.press(scheme[input]),
            ButtonState::Released => s.release(scheme[input]),
        }
    } else {
        s
    }
}

/// The keyboard events applied in order.
pub open spec fn apply_keys(
    s: ButtonStates,
    scheme: Map<UniversalInput, Seq<char>>,
    p: Platform,
    events: Seq<KeyboardEvent>,
) -> ButtonStates
    decreases events.len(),
{
    if events.len() == 0 {
        s
    } else {
        button_step(
            apply_keys(s, scheme, p, events.drop_last()),
            scheme,
            key_input(events.last().key, p),
            events.last().state,
        )
    }
}

/// The mouse events applied in order.
pub open spec fn apply_mouse(
    s: ButtonStates,
    scheme: Map<UniversalInput, Seq<char>>,
    events: Seq<MouseButtonEvent>,
) -> ButtonStates
    decreases events.len(),
{
    if events.len() == 0 {
        s
    } else {
        button_step(
            apply_mouse(s, scheme, events.drop_last()),
            scheme,
            mouse_button_input(events.last().button),
            events.last().state,
        )
    }
}

/// One gamepad event, with hysteresis: at or below the release threshold the
/// bound action is released, at or above the press threshold it is pressed,
/// and in between nothing happens. Alongside the new state comes the button
/// event to emit: a press at every press, a release only when the action was
/// pressed.
pub open spec fn gamepad_step(
    s: ButtonStates,
    scheme: Map<UniversalInput, Seq<char>>,
    e: GamepadButtonEvent,
) -> (ButtonStates, Option<GamepadButtonInput>) {
    let input = gamepad_button_input(e.button.button_type, e.button.gamepad.id);
    if !scheme.contains_key(input) {
        (s, None)
    } else if e.value <= e.release_threshold {
        (
            s.release(scheme[input]),
            if s.pressed.contains(scheme[input]) {
                Some(GamepadButtonInput { button: e.button, state: ButtonState::Released })
            } else {
                None
            },
        )
    } else if e.value >= e.press_threshold {
        (
            s.press(scheme[input]),
            Some(GamepadButtonInput { button: e.button, state: ButtonState::Pressed }),
        )
    } else {
        (s, None)
    }
}

/// The gamepad events applied in order, with the button events they emit.
pub open spec fn apply_gamepad(
    s: ButtonStates,
    scheme: Map<UniversalInput, Seq<char>>,
    events: Seq<GamepadButtonEvent>,
) -> (ButtonStates, Seq<GamepadButtonInput>)
    decreases events.len(),
{
    if events.len() == 0 {
        (s, Seq::empty())
    } else {
        let before = apply_gamepad(s, scheme, events.drop_last());
        let step = gamepad_step(before.0, scheme, events.last());
        (
            step.0,
            match step.1 {
                Some(out) => before.1.push(out),
                None => before.1,
            },
        )
    }
}

/// All three batches applied to `s`: keyboard, then gamepad, then mouse.
pub open spec fn apply_events(
    s: ButtonStates,
    scheme: Map<UniversalInput, Seq<char>>,
    p: Platform,
    keyboard: Seq<KeyboardEvent>,
    gamepad: Seq<GamepadButtonEvent>,
    mouse: Seq<MouseButtonEvent>,
) -> (ButtonStates, Seq<GamepadButtonInput>) {
    let pads = apply_gamepad(apply_keys(s, scheme, p, keyboard), scheme, gamepad);
    (apply_mouse(pads.0, scheme, mouse), pads.1)
}

/// The scan codes among the keyboard events that platform `p` cannot resolve,
/// in the order of the events. Each of these events normalizes to `Unknown`.
pub open spec fn unresolved_codes(p: Platform, events: Seq<KeyboardEvent>) -> Seq<u32>
    decreases events.len(),
{
    if events.len() == 0 {
        Seq::empty()
    } else {
        let before = unresolved_codes(p, events.drop_last());
        match events.last().key {
            Key::ScanCode(c) => if scan_code_key(p, c) is None {
                before.push(c)
            } else {
                before
            },
            Key::KeyCode(_) => before,
        }
    }
}

/// The scan codes of a tick's keyboard events that the operating system named
/// `os` cannot resolve, for the caller to report.
pub fn unresolved_keys(keyboard_events: &Vec<KeyboardEvent>, os: &str) -> (r: Vec<u32>)
    ensures
        r@ == unresolved_codes(platform_of(os@), keyboard_events@),
{
    let mut codes: Vec<u32> = Vec::new();
    let mut i: usize = 0;
    while i < keyboard_events.len()
        invariant
            i <= keyboard_events@.len(),
            codes@ == unresolved_codes(platform_of(os@), keyboard_events@.subrange(0, i as int)),
        decreases keyboard_events@.len() - i,
    {
        assert(keyboard_events@.subrange(0, i as int + 1).drop_last() =~= keyboard_events@.subrange(
            0,
            i as int,
        ));
        if let Key::ScanCode(c) = keyboard_events[i].key {
            if get_key(os, c).is_err() {
                codes.push(c);
            }
        }
        i = i + 1;
    }
    assert(keyboard_events@.subrange(0, keyboard_events@.len() as int) =~= keyboard_events@);
    codes
}

/// Presses or releases the action bound to `input`, if any.
fn apply_button(
    action_input: &mut ActionInput,
    control_scheme: &ControlScheme,
    input: UniversalInput,
    state: ButtonState,
)
    ensures
        final(action_input)@ == button_step(old(action_input)@, control_scheme@, input, state),
{
    if let Some(action) = control_scheme.get(input) {
        match state {
            ButtonState::Pressed => action_input.press(*action),
            ButtonState::Released => action_input.release(*action),
        }
    }
}

/// Applies one tick's events to `action_input`, without advancing it first,
/// and returns the gamepad button events to emit, in order.
pub fn update_inputs(
    keyboard_events: &Vec<KeyboardEvent>,
    gamepad_events: &Vec<GamepadButtonEvent>,
    mouse_button_events: &Vec<MouseButtonEvent>,
    action_input: &mut ActionInput,
    control_scheme: &ControlScheme,
    os: &str,
) -> (emitted: Vec<GamepadButtonInput>)
    ensures
        (final(action_input)@, emitted@) == apply_events(
            old(action_input)@,
            control_scheme@,
            platform_of(os@),
            keyboard_events@,
            gamepad_events@,
            mouse_button_events@,
        ),
{
    let ghost scheme = control_scheme@;
    let ghost p = platform_of(os@);
    let ghost start = action_input@;
    let mut i: usize = 0;
    while i < keyboard_events.len()
        invariant
            i <= keyboard_events@.len(),
            scheme == control_scheme@,
            p == platform_of(os@),
            action_input@ == apply_keys(start, scheme, p, keyboard_events@.subrange(0, i as int)),
        decreases keyboard_events@.len() - i,
    {
        let event = keyboard_events[i];
        let input = UniversalInput::from_key(event.key, os);
        apply_button(action_input, control_scheme, input, event.state);
        assert(keyboard_events@.subrange(0, i as int + 1).drop_last() =~= keyboard_events@.subrange(
            0,
            i as int,
        ));
        i = i + 1;
    }
    assert(keyboard_events@.subrange(0, keyboard_events@.len() as int) =~= keyboard_events@);
    let ghost after_keys = action_input@;
    let mut emitted: Vec<GamepadButtonInput> = Vec::new();
    let mut j: usize = 0;
    while j < gamepad_events.len()
        invariant
            j <= gamepad_events@.len(),
            scheme == control_scheme@,
            (action_input@, emitted@) == apply_gamepad(
                after_keys,
                scheme,
                gamepad_events@.subrange(0, j as int),
            ),
        decreases gamepad_events@.len() - j,
    {
        let event = gamepad_events[j];
        let input = UniversalInput::from(event.button);
        assert(gamepad_events@.subrange(0, j as int + 1).drop_last() =~= gamepad_events@.subrange(
            0,
            j as int,
        ));
        if let Some(action) = control_scheme.get(input) {
            if event.value <= event.release_threshold {
                if action_input.pressed(*action) {
                    emitted.push(GamepadButtonInput { button: event.button, state: ButtonState::Released });
                }
                action_input.release(*action);
            } else if event.value >= event.press_threshold {
                emitted.push(GamepadButtonInput { button: event.button, state: ButtonState::Pressed });
                action_input.press(*action);
            }
        }
        j = j + 1;
    }
    assert(gamepad_events@.subrange(0, gamepad_events@.len() as int) =~= gamepad_events@);
    let ghost after_pads = action_input@;
    let mut k: usize = 0;
    while k < mouse_button_events.len()
        invariant
            k <= mouse_button_events@.len(),
            scheme == control_scheme@,
            action_input@ == apply_mouse(after_pads, scheme, mouse_button_events@.subrange(0, k as int)),
        decreases mouse_button_events@.len() - k,
    {
        let event = mouse_button_events[k];
        let input = UniversalInput::from(event.button);
        apply_button(action_input, control_scheme, input, event.state);
        assert(mouse_button_events@.subrange(0, k as int + 1).drop_last()
            =~= mouse_button_events@.subrange(0, k as int));
        k = k + 1;
    }
    assert(mouse_button_events@.subrange(0, mouse_button_events@.len() as int)
        =~= mouse_button_events@);
    emitted
}

/// One tick for one player: advances `action_input`, then applies the tick's
/// events to it. Returns the gamepad button events to emit.
pub fn universal_input_system(
    keyboard_events: &Vec<KeyboardEvent>,
    gamepad_events: &Vec<GamepadButtonEvent>,
    mouse_button_events: &Vec<MouseButtonEvent>,
    action_input: &mut ActionInput,
    control_scheme: &ControlScheme,
    os: &str,
) -> (emitted: Vec<GamepadButtonInput>)
    ensures
        (final(action_input)@, emitted@) == apply_events(
            old(action_input)@.advance(),
            control_scheme@,
            platform_of(os@),
            keyboard_events@,
            gamepad_events@,
            mouse_button_events@,
        ),
{
    action_input.clear();
    update_inputs(
        keyboard_events,
        gamepad_events,
        mouse_button_events,
        action_input,
        control_scheme,
        os,
    )
}

/// The scheme of player `id`, if the player has one.
pub open spec fn scheme_of(
    schemes: Map<usize, Map<UniversalInput, Seq<char>>>,
    id: usize,
) -> Option<Map<UniversalInput, Seq<char>>> {
    if schemes.contains_key(id) {
        Some(schemes[id])
    } else {
        None
    }
}

/// One player's tick: the state advances, and then, when the player has a
/// scheme, the tick's events are applied through it. A player without a scheme
/// sees no events.
pub open spec fn player_tick(
    s: ButtonStates,
    scheme: Option<Map<UniversalInput, Seq<char>>>,
    p: Platform,
    keyboard: Seq<KeyboardEvent>,
    gamepad: Seq<GamepadButtonEvent>,
    mouse: Seq<MouseButtonEvent>,
) -> (ButtonStates, Seq<GamepadButtonInput>) {
    match scheme {
        Some(sc) => apply_events(s.advance(), sc, p, keyboard, gamepad, mouse),
        None => (s.advance(), Seq::empty()),
    }
}

/// One tick for every player: the same events are replayed against each
/// player's own scheme. Returns, for each player that has a scheme, the
/// player's index and the gamepad button events to emit for it.
pub fn multi_universal_input_system(
    keyboard_events: &Vec<KeyboardEvent>,
    gamepad_events: &Vec<GamepadButtonEvent>,
    mouse_button_events: &Vec<MouseButtonEvent>,
    multi_input: &mut MultiInput,
    multi_scheme: &MultiScheme,
    os: &str,
) -> (emitted: Vec<(usize, Vec<GamepadButtonInput>)>)
    ensures
        final(multi_input)@.dom() == old(multi_input)@.dom(),
        forall|id: usize|
            #[trigger] old(multi_input)@.contains_key(id) ==> final(multi_input)@[id] == player_tick(
                old(multi_input)@[id],
                scheme_of(multi_scheme@, id),
                platform_of(os@),
                keyboard_events@,
                gamepad_events@,
                mouse_button_events@,
            ).0,
        forall|k: int|
            0 <= k < emitted@.len() ==> old(multi_input)@.contains_key(#[trigger] emitted@[k].0)
                && multi_scheme@.contains_key(emitted@[k].0) && emitted@[k].1@ == player_tick(
                old(multi_input)@[emitted@[k].0],
                scheme_of(multi_scheme@, emitted@[k].0),
                platform_of(os@),
                keyboard_events@,
                gamepad_events@,
                mouse_button_events@,
            ).1,
        forall|id: usize|
            old(multi_input)@.contains_key(id) && multi_scheme@.contains_key(id) ==> exists|k: int|
                0 <= k < emitted@.len() && #[trigger] emitted@[k].0 == id,
        forall|k1: int, k2: int|
            0 <= k1 < k2 < emitted@.len() ==> #[trigger] emitted@[k1].0 != #[trigger] emitted@[k2].0,
{
    let ghost start = multi_input@;
    let ghost p = platform_of(os@);
    let ids = multi_input.keys();
    let mut emitted: Vec<(usize, Vec<GamepadButtonInput>)> = Vec::new();
    let mut i: usize = 0;
    while i < ids.len()
        invariant
            i <= ids@.len(),
            ids@.to_set() == start.dom(),
            ids@.no_duplicates(),
            p == platform_of(os@),
            multi_input@.dom() == start.dom(),
            forall|id: usize|
                #[trigger] start.contains_key(id) ==> multi_input@[id] == if ids@.subrange(
                    0,
                    i as int,
                ).contains(id) {
                    player_tick(
                        start[id],
                        scheme_of(multi_scheme@, id),
                        p,
                        keyboard_events@,
                        gamepad_events@,
                        mouse_button_events@,
                    ).0
                } else {
                    start[id]
                },
            forall|k: int|
                0 <= k < emitted@.len() ==> ids@.subrange(0, i as int).contains(
                    #[trigger] emitted@[k].0,
                ) && multi_scheme@.contains_key(emitted@[k].0) && emitted@[k].1@ == player_tick(
                    start[emitted@[k].0],
                    scheme_of(multi_scheme@, emitted@[k].0),
                    p,
                    keyboard_events@,
                    gamepad_events@,
                    mouse_button_events@,
                ).1,
            forall|id: usize|
                ids@.subrange(0, i as int).contains(id) && multi_scheme@.contains_key(id)
                    ==> exists|k: int| 0 <= k < emitted@.len() && #[trigger] emitted@[k].0 == id,
            forall|k1: int, k2: int|
                0 <= k1 < k2 < emitted@.len() ==> #[trigger] emitted@[k1].0
                    != #[trigger] emitted@[k2].0,
        decreases ids@.len() - i,
    {
        let id = ids[i];
        let ghost done = ids@.subrange(0, i as int);
        assert(ids@.subrange(0, i as int + 1) =~= done.push(id));
        assert(!done.contains(id)) by {
            if done.contains(id) {
                let j = choose|j: int| 0 <= j < done.len() && done[j] == id;
                assert(ids@[j] == ids@[i as int]);
            }
        }
        assert(ids@.to_set().contains(id)) by {
            assert(ids@.contains(id));
        }
        let ghost before = multi_input@;
        let ghost emitted_before = emitted@;
        let ghost tick = player_tick(
            start[id],
            scheme_of(multi_scheme@, id),
            p,
            keyboard_events@,
            gamepad_events@,
            mouse_button_events@,
        );
        let taken = multi_input.take(id);
        let mut action_input = match taken {
            Some(a) => a,
            None => {
                assert(false);
                ActionInput::new()
            },
        };
        action_input.clear();
        match multi_scheme.get(id) {
            Some(control_scheme) => {
                let out = update_inputs(
                    keyboard_events,
                    gamepad_events,
                    mouse_button_events,
                    &mut action_input,
                    control_scheme,
                    os,
                );
                emitted.push((id, out));
            },
            None => {},
        }
        assert(action_input@ == tick.0);
        multi_input.put(id, action_input);
        proof {
            let now = ids@.subrange(0, i as int + 1);
            assert forall|x: usize| #[trigger] start.contains_key(x) implies multi_input@[x] == if now.contains(x) {
                player_tick(
                    start[x],
                    scheme_of(multi_scheme@, x),
                    p,
                    keyboard_events@,
                    gamepad_events@,
                    mouse_button_events@,
                ).0
            } else {
                start[x]
            } by {
                if x != id {
                    assert(now.contains(x) == done.contains(x)) by {
                        if now.contains(x) {
                            let j = choose|j: int| 0 <= j < now.len() && now[j] == x;
                            assert(done[j] == x);
                        }
                        if done.contains(x) {
                            let j = choose|j: int| 0 <= j < done.len() && done[j] == x;
                            assert(now[j] == x);
                        }
                    }
                } else {
                    assert(now[i as int] == id);
                }
            }
            assert forall|k: int| 0 <= k < emitted@.len() implies now.contains(#[trigger] emitted@[k].0)
                && multi_scheme@.contains_key(emitted@[k].0) && emitted@[k].1@ == player_tick(
                start[emitted@[k].0],
                scheme_of(multi_scheme@, emitted@[k].0),
                p,
                keyboard_events@,
                gamepad_events@,
                mouse_button_events@,
            ).1 by {
                if k < emitted_before.len() {
                    assert(emitted@[k] == emitted_before[k]);
                    let j = choose|j: int| 0 <= j < done.len() && done[j] == emitted@[k].0;
                    assert(now[j] == done[j]);
                } else {
                    assert(now[i as int] == id);
                }
            }
            assert forall|x: usize| now.contains(x) && multi_scheme@.contains_key(x) implies exists|k: int|
                0 <= k < emitted@.len() && #[trigger] emitted@[k].0 == x by {
                if x == id {
                    assert(emitted@[emitted@.len() - 1].0 == id);
                } else {
                    let j = choose|j: int| 0 <= j < now.len() && now[j] == x;
                    assert(done[j] == x);
                    let k = choose|k: int| 0 <= k < emitted_before.len() && #[trigger] emitted_before[k].0 == x;
                    assert(emitted@[k] == emitted_before[k]);
                }
            }
            assert forall|k1: int, k2: int|
                0 <= k1 < k2 < emitted@.len() implies #[trigger] emitted@[k1].0
                    != #[trigger] emitted@[k2].0 by {
                if k2 >= emitted_before.len() {
                    assert(emitted@[k1] == emitted_before[k1]);
                    assert(done.contains(emitted_before[k1].0));
                } else {
                    assert(emitted@[k1] == emitted_before[k1]);
                    assert(emitted@[k2] == emitted_before[k2]);
                }
            }
        }
        i = i + 1;
    }
    assert(ids@.subrange(0, ids@.len() as int) =~= ids@);
    proof {
        assert forall|id: usize|
            old(multi_input)@.contains_key(id) && multi_scheme@.contains_key(id) implies exists|k: int|
                0 <= k < emitted@.len() && #[trigger] emitted@[k].0 == id by {
            assert(ids@.to_set().contains(id));
        }
    }
    emitted
}

/// Players share the event stream but not their bindings: when a tick brings a
/// single key press, a fresh player whose scheme binds that key to action `a`
/// ends the tick with `a` pressed, and a fresh player whose scheme does not
/// bind that key to `a` ends it with `a` not pressed.
pub proof fn lemma_players_are_isolated(
    bound: Map<UniversalInput, Seq<char>>,
    other: Map<UniversalInput, Seq<char>>,
    p: Platform,
    event: KeyboardEvent,
    a: Seq<char>,
)
    requires
        event.state == ButtonState::Pressed,
        bound.contains_key(key_input(event.key, p)),
        bound[key_input(event.key, p)] == a,
        !(other.contains_key(key_input(event.key, p)) && other[key_input(event.key, p)] == a),
    ensures
        player_tick(ButtonStates::empty(), Some(bound), p, seq![event], Seq::empty(), Seq::empty()).0.pressed.contains(a),
        !player_tick(ButtonStates::empty(), Some(other), p, seq![event], Seq::empty(), Seq::empty()).0.pressed.contains(a),
{
    assert(seq![event].drop_last() =~= Seq::<KeyboardEvent>::empty());
    let input = key_input(event.key, p);
    let start = ButtonStates::empty().advance();
    let after = apply_keys(start, other, p, seq![event]);
    assert(seq![event].last() == event);
    assert(apply_keys(start, other, p, seq![event].drop_last()) == start);
    assert(after == button_step(start, other, input, ButtonState::Pressed));
}

/// Sets up several players at once: player `i` gets the scheme built from
/// `players[i]` (see `make_controls`), and players `0..players.len()` are added
/// to `multi_input` with nothing pressed.
pub fn make_multi_input(
    multi_input: &mut MultiInput,
    multi_scheme: &mut MultiScheme,
    players: &Vec<Vec<(Action, UniversalInput)>>,
)
    ensures
        final(multi_scheme)@ == Map::new(
            |id: usize| old(multi_scheme)@.contains_key(id) || id < players@.len(),
            |id: usize|
                if id < players@.len() {
                    controls_map(players@[id as int]@)
                } else {
                    old(multi_scheme)@[id]
                },
        ),
        final(multi_input)@ == Map::new(
            |id: usize| old(multi_input)@.contains_key(id) || id < players@.len(),
            |id: usize|
                if id < players@.len() {
                    ButtonStates::empty()
                } else {
                    old(multi_input)@[id]
                },
        ),
{
    let ghost start = multi_scheme@;
    let mut count: usize = 0;
    while count < players.len()
        invariant
            count <= players@.len(),
            multi_scheme@ == Map::new(
                |id: usize| start.contains_key(id) || id < count,
                |id: usize|
                    if id < count {
                        controls_map(players@[id as int]@)
                    } else {
                        start[id]
                    },
            ),
        decreases players@.len() - count,
    {
        let controls = make_controls(players[count].as_slice());
        multi_scheme.insert(count, controls);
        count = count + 1;
        assert(multi_scheme@ =~= Map::new(
            |id: usize| start.contains_key(id) || id < count,
            |id: usize|
                if id < count {
                    controls_map(players@[id as int]@)
                } else {
                    start[id]
                },
        ));
    }
    multi_input.has_players(count);
}

} // verus!
