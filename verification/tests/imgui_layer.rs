use engine::imgui_layer::{key_modifiers, ui_input, ui_result, KeyModifiers, UiInput};
use engine::input::{InputState, KeyState};
use engine::main_loop::EventResult;
use engine::scancode::Scancode;
use engine::window::Event;

#[test]
fn modifiers_come_from_either_side() {
    let mut inputs = InputState::new();
    inputs.set_key_state(Scancode::RightControl, KeyState::Hold);
    inputs.set_key_state(Scancode::LeftShift, KeyState::Down);
    inputs.set_key_state(Scancode::LeftAlt, KeyState::Up);
    let m = key_modifiers(&inputs);
    assert_eq!(m, KeyModifiers { ctrl: true, alt: false, shift: true, meta: false });
}

#[test]
fn events_for_the_ui() {
    let mut inputs = InputState::new();
    inputs.set_key_state(Scancode::LeftMeta, KeyState::Down);
    let mods = KeyModifiers { ctrl: false, alt: false, shift: false, meta: true };
    assert_eq!(ui_input(&inputs, &Event::Scroll { x: 2, y: -1 }), UiInput::Wheel { x: 2, y: -1 });
    assert_eq!(
        ui_input(&inputs, &Event::KeyDown { key: Scancode::A }),
        UiInput::Key { key: Scancode::A, down: true, modifiers: mods }
    );
    assert_eq!(
        ui_input(&inputs, &Event::KeyUp { key: Scancode::A }),
        UiInput::Key { key: Scancode::A, down: false, modifiers: mods }
    );
    assert_eq!(ui_input(&inputs, &Event::Quit), UiInput::Nothing);
    assert_eq!(ui_input(&inputs, &Event::Resize { width: 1, height: 1 }), UiInput::Nothing);
}

#[test]
fn the_ui_claims_what_it_wants() {
    let wheel = UiInput::Wheel { x: 0, y: 1 };
    let mods = KeyModifiers { ctrl: false, alt: false, shift: false, meta: false };
    let key = UiInput::Key { key: Scancode::B, down: true, modifiers: mods };
    assert_eq!(ui_result(&wheel, true, false), EventResult::Handled);
    assert_eq!(ui_result(&wheel, false, true), EventResult::Ignored);
    assert_eq!(ui_result(&key, false, true), EventResult::Handled);
    assert_eq!(ui_result(&key, true, false), EventResult::Ignored);
    assert_eq!(ui_result(&UiInput::Nothing, true, true), EventResult::Ignored);
}
