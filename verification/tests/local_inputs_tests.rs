use bevy::input::keyboard::KeyCode;
use bevy::input::ButtonInput;
use zoop_engine::controls::Controls;
use zoop_engine::local_inputs::read_network_controls;

fn keyboard(keys: &[KeyCode]) -> ButtonInput<KeyCode> {
    let mut input = ButtonInput::<KeyCode>::default();
    for key in keys {
        input.press(*key);
    }
    input
}

#[test]
fn disabled_physics_publishes_empty_controls() {
    let input = keyboard(&[KeyCode::KeyW, KeyCode::KeyD]);
    let published = read_network_controls(&vec![0, 1], &input, false);
    assert_eq!(published.get(0), Some(Controls::empty()));
    assert_eq!(published.get(1), Some(Controls::empty()));
}

#[test]
fn enabled_physics_publishes_the_first_profile() {
    let input = keyboard(&[KeyCode::KeyW, KeyCode::KeyD, KeyCode::KeyI]);
    let published = read_network_controls(&vec![0, 3], &input, true);
    assert_eq!(published.get(0), Some(Controls { input: 0b001001 }));
    assert_eq!(published.get(3), Some(Controls { input: 0b001001 }));
}

#[test]
fn only_local_handles_are_published() {
    let input = keyboard(&[KeyCode::KeyW]);
    let published = read_network_controls(&vec![2], &input, true);
    assert_eq!(published.get(2), Some(Controls { input: 1 }));
    assert_eq!(published.get(0), None);
    assert_eq!(published.get(1), None);
}

#[test]
fn no_local_players_publish_nothing() {
    let input = keyboard(&[KeyCode::KeyW]);
    let published = read_network_controls(&Vec::new(), &input, true);
    assert_eq!(published.get(0), None);
}

#[test]
fn a_handle_listed_twice_is_published_once() {
    let input = keyboard(&[KeyCode::KeyV]);
    let published = read_network_controls(&vec![1, 1], &input, true);
    assert_eq!(published.get(1), Some(Controls { input: 0b100000 }));
    assert_eq!(published.get(0), None);
}
