use action_maps::{make_controls, Action, ControlScheme, UniversalInput};
use bevy_input::keyboard::KeyCode;

#[test]
fn test_make_controls() {
    let mut cs = ControlScheme::default();
    let mut cs_t = ControlScheme::default();

    cs.insert(Action::from("A"), UniversalInput::from(KeyCode::KeyA));
    cs.insert(Action::from("W"), UniversalInput::from(KeyCode::KeyW));

    cs_t.set(make_controls(&[
        (Action::from("A"), UniversalInput::from(KeyCode::KeyA)),
        (Action::from("W"), UniversalInput::from(KeyCode::KeyW)),
    ]));

    assert_eq!(cs, cs_t);
}

#[test]
fn inserting_twice_equals_inserting_once() {
    let mut once = ControlScheme::new();
    once.insert(Action::from("Jump"), UniversalInput::Space);
    once.insert(Action::from("Fire"), UniversalInput::MouseLeft);
    let mut twice = ControlScheme::new();
    twice.insert(Action::from("Jump"), UniversalInput::Space);
    twice.insert(Action::from("Fire"), UniversalInput::MouseLeft);
    twice.insert(Action::from("Jump"), UniversalInput::Space);
    assert_eq!(once, twice);
    assert_eq!(twice.len(), 2);
    assert_eq!(twice.iter().len(), 2);
}

#[test]
fn rebinding_an_input_replaces_its_action() {
    let mut cs = ControlScheme::new();
    cs.insert(Action::from("Jump"), UniversalInput::Space);
    cs.insert(Action::from("Fire"), UniversalInput::KeyF);
    cs.insert(Action::from("Dash"), UniversalInput::Space);
    assert_eq!(cs.get(UniversalInput::Space), Some(&Action::from("Dash")));
    assert_eq!(cs.get(UniversalInput::KeyF), Some(&Action::from("Fire")));
    assert_eq!(cs.len(), 2);
}

#[test]
fn later_pairs_override_earlier_ones() {
    let cs = make_controls(&[
        (Action::from("Up"), UniversalInput::KeyW),
        (Action::from("Down"), UniversalInput::KeyS),
        (Action::from("Forward"), UniversalInput::KeyW),
    ]);
    assert_eq!(cs.get(UniversalInput::KeyW), Some(&Action::from("Forward")));
    assert_eq!(cs.get(UniversalInput::KeyS), Some(&Action::from("Down")));
    assert_eq!(cs.len(), 2);
}

#[test]
fn remove_contains_and_clear() {
    let mut cs = make_controls(&[
        (Action::from("Up"), UniversalInput::KeyW),
        (Action::from("Down"), UniversalInput::KeyS),
    ]);
    assert!(cs.contains_key(UniversalInput::KeyW));
    cs.remove(UniversalInput::KeyW);
    assert!(!cs.contains_key(UniversalInput::KeyW));
    assert_eq!(cs.get(UniversalInput::KeyW), None);
    cs.remove(UniversalInput::KeyA);
    assert_eq!(cs.len(), 1);
    cs.clear();
    assert_eq!(cs.len(), 0);
    assert!(!cs.contains_key(UniversalInput::KeyS));
    assert_eq!(cs, ControlScheme::new());
}

#[test]
fn schemes_differ_by_action_or_input() {
    let a = make_controls(&[(Action::from("Up"), UniversalInput::KeyW)]);
    let b = make_controls(&[(Action::from("Down"), UniversalInput::KeyW)]);
    let c = make_controls(&[(Action::from("Up"), UniversalInput::ArrowUp)]);
    assert_ne!(a, b);
    assert_ne!(a, c);
    assert_ne!(a, ControlScheme::new());
}

#[test]
fn iter_lists_every_binding() {
    let cs = make_controls(&[
        (Action::from("Up"), UniversalInput::KeyW),
        (Action::from("Down"), UniversalInput::KeyS),
    ]);
    let mut pairs = cs.iter();
    pairs.sort_by_key(|p| p.0);
    assert_eq!(
        pairs,
        vec![
            (UniversalInput::KeyS, Action::from("Down")),
            (UniversalInput::KeyW, Action::from("Up")),
        ]
    );
}

#[test]
fn a_clone_holds_the_same_bindings() {
    let cs = make_controls(&[
        (Action::from("Up"), UniversalInput::KeyW),
        (Action::from("Down"), UniversalInput::KeyS),
    ]);
    let mut copy = cs.clone();
    assert_eq!(copy, cs);
    copy.remove(UniversalInput::KeyW);
    assert_ne!(copy, cs);
    assert!(cs.contains_key(UniversalInput::KeyW));
}
