//! The decisions of the immediate-mode UI layer: which modifier keys it is
//! told about, what an engine event becomes for the UI, and whether the UI
//! claims the event.
use crate::input::{InputState, KeyState};
use crate::main_loop::EventResult;
use crate::scancode::Scancode;
use crate::window::Event;
use vstd::prelude::*;

verus! {

/// Which modifier keys are held down.
#[derive(Debug, Clone, Copy, PartialEq, Eq, Structural)]
pub struct KeyModifiers {
    /// Either control key
    pub ctrl: bool,
    /// Either alt key
    pub alt: bool,
    /// Either shift key
    pub shift: bool,
    /// Either meta (super) key
    pub meta: bool,
}

/// Key `k` is down or held in `inputs`.
pub open spec fn held(inputs: &InputState, k: Scancode) -> bool {
    inputs.spec_key_state(k) == KeyState::Down || inputs.spec_key_state(k) == KeyState::Hold
}

/// The modifiers held in `inputs`: each is held when its left or its right
/// key is.
pub open spec fn spec_key_modifiers(inputs: &InputState) -> KeyModifiers {
    KeyModifiers {
        ctrl: held(inputs, Scancode::LeftControl) || held(inputs, Scancode::RightControl),
        alt: held(inputs, Scancode::LeftAlt) || held(inputs, Scancode::RightAlt),
        shift: held(inputs, Scancode::LeftShift) || held(inputs, Scancode::RightShift),
        meta: held(inputs, Scancode::LeftMeta) || held(inputs, Scancode::RightMeta),
    }
}

/// The modifier keys held in `inputs`.
pub fn key_modifiers(inputs: &InputState) -> (m: KeyModifiers)
    ensures
        m == spec_key_modifiers(inputs),
{
    KeyModifiers {
        ctrl: inputs.is_key_pressed(Scancode::LeftControl) || inputs.is_key_pressed(
            Scancode::RightControl,
        ),
        alt: inputs.is_key_pressed(Scancode::LeftAlt) || inputs.is_key_pressed(Scancode::RightAlt),
        shift: inputs.is_key_pressed(Scancode::LeftShift) || inputs.is_key_pressed(
            Scancode::RightShift,
        ),
        meta: inputs.is_key_pressed(Scancode::LeftMeta) || inputs.is_key_pressed(
            Scancode::RightMeta,
        ),
    }
}

/// What an engine event tells the UI.
#[derive(Debug, Clone, Copy, PartialEq, Eq, Structural)]
pub enum UiInput {
    /// The mouse wheel moved by `x` horizontally and `y` vertically
    Wheel { x: i32, y: i32 },
    /// `key` went down (or up), with these modifiers held
    Key { key: Scancode, down: bool, modifiers: KeyModifiers },
    /// Nothing the UI takes
    Nothing,
}

/// What `event` tells the UI, the modifiers read from `inputs`.
pub open spec fn spec_ui_input(inputs: &InputState, event: Event) -> UiInput {
    match event {
        Event::Scroll { x, y } => UiInput::Wheel { x, y },
        Event::KeyDown { key } => UiInput::Key {
            key,
            down: true,
            modifiers: spec_key_modifiers(inputs),
        },
        Event::KeyUp { key } => UiInput::Key {
            key,
            down: false,
            modifiers: spec_key_modifiers(inputs),
        },
        _ => UiInput::Nothing,
    }
}

/// What `event` tells the UI: the wheel movement of a scroll, the key and
/// the held modifiers of a key press or release, nothing otherwise.
pub fn ui_input(inputs: &InputState, event: &Event) -> (r: UiInput)
    ensures
        r == spec_ui_input(inputs, *event),
{
    match event {
        Event::Scroll { x, y } => UiInput::Wheel { x: *x, y: *y },
        Event::KeyDown { key } => UiInput::Key {
            key: *key,
            down: true,
            modifiers: key_modifiers(inputs),
        },
        Event::KeyUp { key } => UiInput::Key {
            key: *key,
            down: false,
            modifiers: key_modifiers(inputs),
        },
        _ => UiInput::Nothing,
    }
}

/// The UI handles a wheel movement while it wants the mouse and a key
/// while it wants the keyboard; it ignores everything else.
pub open spec fn spec_ui_result(input: UiInput, wants_mouse: bool, wants_keyboard: bool) -> EventResult {
    let handled = match input {
        UiInput::Wheel { .. } => wants_mouse,
        UiInput::Key { .. } => wants_keyboard,
        UiInput::Nothing => false,
    };
    if handled {
        EventResult::Handled
    } else {
        EventResult::Ignored
    }
}

/// Whether the UI claims the event it was told `input` of, given whether
/// it currently wants the mouse and the keyboard.
pub fn ui_result(input: &UiInput, wants_mouse: bool, wants_keyboard: bool) -> (r: EventResult)
    ensures
        r == spec_ui_result(*input, wants_mouse, wants_keyboard),
{
    let handled = match input {
        UiInput::Wheel { .. } => wants_mouse,
        UiInput::Key { .. } => wants_keyboard,
        UiInput::Nothing => false,
    };
    if handled {
        EventResult::Handled
    } else {
        EventResult::Ignored
    }
}

} // verus!
