use action_maps::{make_controls, make_multi_input, Action, MultiInput, MultiScheme, UniversalInput};
use bevy_input::keyboard::KeyCode;

#[test]
fn test_make_multi_input() {
    let mut mi = MultiInput::default();
    let mut mi_t = MultiInput::default();

    let mut ms = MultiScheme::default();
    let mut ms_t = MultiScheme::default();

    ms.insert(
        0,
        make_controls(&[
            (Action::from("A"), UniversalInput::from(KeyCode::KeyA)),
            (Action::from("W"), UniversalInput::from(KeyCode::KeyW)),
        ]),
    );

    ms.insert(
        1,
        make_controls(&[
            (Action::from("Up"), UniversalInput::from(KeyCode::ArrowUp)),
            (Action::from("Down"), UniversalInput::from(KeyCode::ArrowDown)),
        ]),
    );

    mi.has_players(2);

    make_multi_input(
        &mut mi_t,
        &mut ms_t,
        &vec![
            vec![
                (Action::from("A"), UniversalInput::from(KeyCode::KeyA)),
                (Action::from("W"), UniversalInput::from(KeyCode::KeyW)),
            ],
            vec![
                (Action::from("Up"), UniversalInput::from(KeyCode::ArrowUp)),
                (Action::from("Down"), UniversalInput::from(KeyCode::ArrowDown)),
            ],
        ],
    );

    assert_eq!(mi, mi_t);
    assert_eq!(ms, ms_t);
}

#[test]
fn players_are_added_and_removed_by_index() {
    let mut mi = MultiInput::new();
    mi.has_players(3);
    let mut keys = mi.keys();
    keys.sort();
    assert_eq!(keys, vec![0, 1, 2]);
    assert!(mi.get(2).is_some());
    assert!(!mi.get(0).unwrap().pressed(Action::from("Up")));
    mi.remove(1);
    assert!(mi.get(1).is_none());
    assert_eq!(mi.keys().len(), 2);
    let mut other = MultiInput::new();
    other.insert(0);
    other.insert(2);
    assert_eq!(mi, other);
    other.insert(5);
    assert_ne!(mi, other);
}

#[test]
fn schemes_by_player_index() {
    let mut ms = MultiScheme::new();
    ms.insert(4, make_controls(&[(Action::from("Up"), UniversalInput::KeyW)]));
    assert_eq!(ms.get(4).unwrap().get(UniversalInput::KeyW), Some(&Action::from("Up")));
    assert!(ms.get(0).is_none());
    assert_eq!(ms.keys(), vec![4]);
    let mut other = MultiScheme::new();
    other.insert(4, make_controls(&[(Action::from("Down"), UniversalInput::KeyW)]));
    assert_ne!(ms, other);
    ms.remove(4);
    assert!(ms.get(4).is_none());
    assert_eq!(ms, MultiScheme::new());
}
