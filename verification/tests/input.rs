use engine::input::{InputState, KeyState, MouseState};
use engine::scancode::Scancode;

#[test]
fn unseen_key_is_not_pressed() {
    let inputs = InputState::new();
    assert_eq!(inputs.key_state(Scancode::A), KeyState::NotPressed);
    assert!(!inputs.is_key_pressed(Scancode::A));
}

#[test]
fn set_key_state_changes_only_that_key() {
    let mut inputs = InputState::new();
    inputs.set_key_state(Scancode::A, KeyState::Down);
    inputs.set_key_state(Scancode::B, KeyState::Up);
    inputs.set_key_state(Scancode::A, KeyState::Hold);
    assert_eq!(inputs.key_state(Scancode::A), KeyState::Hold);
    assert_eq!(inputs.key_state(Scancode::B), KeyState::Up);
    assert_eq!(inputs.key_state(Scancode::C), KeyState::NotPressed);
    assert!(inputs.is_key_pressed(Scancode::A));
    assert!(!inputs.is_key_pressed(Scancode::B));
}

#[test]
fn update_moves_keys_to_the_next_frame() {
    let mut inputs = InputState::new();
    inputs.set_key_state(Scancode::A, KeyState::Down);
    inputs.set_key_state(Scancode::B, KeyState::Up);
    inputs.set_key_state(Scancode::C, KeyState::Hold);
    inputs.set_key_state(Scancode::D, KeyState::NotPressed);
    inputs.update(MouseState::default());
    assert_eq!(inputs.key_state(Scancode::A), KeyState::Hold);
    assert_eq!(inputs.key_state(Scancode::B), KeyState::NotPressed);
    assert_eq!(inputs.key_state(Scancode::C), KeyState::Hold);
    assert_eq!(inputs.key_state(Scancode::D), KeyState::NotPressed);
    assert!(inputs.is_key_pressed(Scancode::A));
}

#[test]
fn update_takes_the_new_mouse_state() {
    let mut inputs = InputState::new();
    inputs.set_mouse_position(5, 6);
    inputs.set_mouse_left(true);
    inputs.update(MouseState::default());
    assert_eq!(inputs.mouse_position(), (0, 0));
    assert!(!inputs.mouse_left());
}

#[test]
fn mouse_setters_and_getters() {
    let mut inputs = InputState::new();
    inputs.set_mouse_position(10, -4);
    inputs.set_mouse_delta(1, 2);
    inputs.set_wheel_position(3, 4);
    inputs.set_wheel_delta(-1, -2);
    inputs.set_mouse_left(true);
    inputs.set_mouse_middle(true);
    inputs.set_mouse_right(false);
    inputs.set_mouse_four(true);
    inputs.set_mouse_five(false);
    assert_eq!(inputs.mouse_position(), (10, -4));
    assert_eq!(inputs.mouse_delta(), (1, 2));
    assert_eq!(inputs.wheel_position(), (3, 4));
    assert_eq!(inputs.wheel_delta(), (-1, -2));
    assert!(inputs.mouse_left());
    assert!(inputs.mouse_middle());
    assert!(!inputs.mouse_right());
    assert!(inputs.mouse_four());
    assert!(!inputs.mouse_five());
}

#[test]
fn default_input_state_is_at_rest() {
    let inputs = InputState::default();
    assert_eq!(inputs.mouse_position(), (0, 0));
    assert_eq!(inputs.wheel_delta(), (0, 0));
    assert_eq!(inputs.key_state(Scancode::Space), KeyState::NotPressed);
}

#[test]
fn key_numbers_differ() {
    assert_eq!(Scancode::A.key_index(), 0);
    assert_ne!(Scancode::A.key_index(), Scancode::B.key_index());
    let mut inputs = InputState::new();
    inputs.set_key_state(Scancode::A, KeyState::Down);
    assert_eq!(inputs.key_state(Scancode::B), KeyState::NotPressed);
    assert_eq!(inputs.key_state(Scancode::A), KeyState::Down);
}
